use vstd::arithmetic::div_mod::{lemma_fundamental_div_mod_converse, lemma_multiply_divide_lt};
use vstd::prelude::*;

use crate::buffer::{rgba_len, ImageBuffer, ImageView};

verus! {

/// An RGBA colour, 8 bits per channel.
#[derive(Clone, Copy, Debug, PartialEq, Eq, Structural)]
pub struct Rgba {
    pub r: u8,
    pub g: u8,
    pub b: u8,
    pub a: u8,
}

/// Channel `k` of a colour: 0 red, 1 green, 2 blue, 3 alpha.
pub open spec fn channel(c: Rgba, k: int) -> u8 {
    if k == 0 {
        c.r
    } else if k == 1 {
        c.g
    } else if k == 2 {
        c.b
    } else {
        c.a
    }
}

/// The stripe that row `y` of `height` rows falls in, with `n` equal stripes.
pub open spec fn stripe_of_row(y: int, height: int, n: int) -> int {
    y * n / height
}

/// Horizontal stripes of `colors`, top to bottom, stretched over a `width`
/// by `height` RGBA image.
pub open spec fn stripe_pattern(colors: Seq<Rgba>, width: nat, height: nat) -> Seq<u8> {
    Seq::new(
        rgba_len(width, height),
        |i: int| channel(colors[stripe_of_row(i / 4 / width as int, height as int, colors.len() as int)], i % 4),
    )
}

/// Builds the striped pattern of `colors` at `width` by `height` pixels.
pub fn stripe_overlay(colors: &Vec<Rgba>, width: u32, height: u32) -> (r: ImageBuffer)
    requires
        0 < colors@.len() <= u32::MAX,
        rgba_len(width as nat, height as nat) <= usize::MAX,
    ensures
        r@ == (ImageView {
            width: width as nat,
            height: height as nat,
            data: stripe_pattern(colors@, width as nat, height as nat),
        }),
{
    let ghost target = stripe_pattern(colors@, width as nat, height as nat);
    let pixels: usize = (width as usize) * (height as usize);
    let n: u64 = colors.len() as u64;
    let mut out: Vec<u8> = Vec::new();
    let mut p: usize = 0;
    while p < pixels
        invariant
            pixels == width * height,
            4 * pixels <= usize::MAX,
            p <= pixels,
            n == colors@.len(),
            0 < n <= u32::MAX,
            target == stripe_pattern(colors@, width as nat, height as nat),
            out@.len() == 4 * p,
            forall|k: int| 0 <= k < 4 * p ==> out@[k] == target[k],
        decreases pixels - p,
    {
        let y: u64 = (p / (width as usize)) as u64;
        proof {
            lemma_multiply_divide_lt(p as int, width as int, height as int);
            assert(y * n < height * n) by (nonlinear_arith)
                requires
                    y < height,
                    0 < n,
            ;
            assert(y * n <= u32::MAX * u32::MAX) by (nonlinear_arith)
                requires
                    y <= u32::MAX,
                    n <= u32::MAX,
            ;
            lemma_multiply_divide_lt(y * n, height as int, n as int);
        }
        let s: u64 = (y * n) / (height as u64);
        let c = colors[s as usize];
        let ghost before = out@;
        out.push(c.r);
        out.push(c.g);
        out.push(c.b);
        out.push(c.a);
        proof {
            assert forall|k: int| 0 <= k < 4 * (p + 1) implies out@[k] == target[k] by {
                if k >= 4 * p {
                    lemma_fundamental_div_mod_converse(k, 4, p as int, k - 4 * p);
                    assert(4 * pixels == rgba_len(width as nat, height as nat));
                }
            }
        }
        p = p + 1;
    }
    proof {
        assert(out@ =~= target);
    }
    ImageBuffer::from_raw(width, height, out).unwrap()
}

/// The flags whose patterns the library draws.
#[derive(Clone, Copy, Debug, PartialEq, Eq, Structural)]
pub enum PrideFlag {
    Rainbow,
    Transgender,
    Bisexual,
    Lesbian,
    NonBinary,
    Pansexual,
    Asexual,
}

/// An opaque colour.
pub open spec fn opaque(r: u8, g: u8, b: u8) -> Rgba {
    Rgba { r, g, b, a: 255 }
}

/// The stripes of each flag, top to bottom.
pub open spec fn flag_colors(f: PrideFlag) -> Seq<Rgba> {
    match f {
        PrideFlag::Rainbow => seq![
            opaque(0xE4, 0x03, 0x03),
            opaque(0xFF, 0x8C, 0x00),
            opaque(0xFF, 0xED, 0x00),
            opaque(0x00, 0x80, 0x26),
            opaque(0x24, 0x40, 0x8E),
            opaque(0x73, 0x29, 0x82),
        ],
        PrideFlag::Transgender => seq![
            opaque(0x5B, 0xCE, 0xFA),
            opaque(0xF5, 0xA9, 0xB8),
            opaque(0xFF, 0xFF, 0xFF),
            opaque(0xF5, 0xA9, 0xB8),
            opaque(0x5B, 0xCE, 0xFA),
        ],
        PrideFlag::Bisexual => seq![
            opaque(0xD6, 0x02, 0x70),
            opaque(0xD6, 0x02, 0x70),
            opaque(0x9B, 0x4F, 0x96),
            opaque(0x00, 0x38, 0xA8),
            opaque(0x00, 0x38, 0xA8),
        ],
        PrideFlag::Lesbian => seq![
            opaque(0xD5, 0x2D, 0x00),
            opaque(0xFF, 0x9A, 0x56),
            opaque(0xFF, 0xFF, 0xFF),
            opaque(0xD3, 0x62, 0xA4),
            opaque(0xA3, 0x02, 0x62),
        ],
        PrideFlag::NonBinary => seq![
            opaque(0xFC, 0xF4, 0x34),
            opaque(0xFF, 0xFF, 0xFF),
            opaque(0x9C, 0x59, 0xD1),
            opaque(0x2C, 0x2C, 0x2C),
        ],
        PrideFlag::Pansexual => seq![
            opaque(0xFF, 0x21, 0x8C),
            opaque(0xFF, 0xD8, 0x00),
            opaque(0x21, 0xB1, 0xFF),
        ],
        PrideFlag::Asexual => seq![
            opaque(0x00, 0x00, 0x00),
            opaque(0xA3, 0xA3, 0xA3),
            opaque(0xFF, 0xFF, 0xFF),
            opaque(0x80, 0x00, 0x80),
        ],
    }
}

fn solid(r: u8, g: u8, b: u8) -> (c: Rgba)
    ensures
        c == opaque(r, g, b),
{
    Rgba { r, g, b, a: 255 }
}

impl PrideFlag {
    /// Every flag, in the order a picker lists them.
    pub fn all() -> (r: Vec<PrideFlag>)
        ensures
            r@ == seq![
                PrideFlag::Rainbow,
                PrideFlag::Transgender,
                PrideFlag::Bisexual,
                PrideFlag::Lesbian,
                PrideFlag::NonBinary,
                PrideFlag::Pansexual,
                PrideFlag::Asexual,
            ],
    {
        let r = vec![
            PrideFlag::Rainbow,
            PrideFlag::Transgender,
            PrideFlag::Bisexual,
            PrideFlag::Lesbian,
            PrideFlag::NonBinary,
            PrideFlag::Pansexual,
            PrideFlag::Asexual,
        ];
        assert(r@ =~= seq![
            PrideFlag::Rainbow,
            PrideFlag::Transgender,
            PrideFlag::Bisexual,
            PrideFlag::Lesbian,
            PrideFlag::NonBinary,
            PrideFlag::Pansexual,
            PrideFlag::Asexual,
        ]);
        r
    }

    /// The flag's stripes, top to bottom.
    pub fn colors(&self) -> (r: Vec<Rgba>)
        ensures
            r@ == flag_colors(*self),
    {
        let r = match self {
            PrideFlag::Rainbow => vec![
                solid(0xE4, 0x03, 0x03),
                solid(0xFF, 0x8C, 0x00),
                solid(0xFF, 0xED, 0x00),
                solid(0x00, 0x80, 0x26),
                solid(0x24, 0x40, 0x8E),
                solid(0x73, 0x29, 0x82),
            ],
            PrideFlag::Transgender => vec![
                solid(0x5B, 0xCE, 0xFA),
                solid(0xF5, 0xA9, 0xB8),
                solid(0xFF, 0xFF, 0xFF),
                solid(0xF5, 0xA9, 0xB8),
                solid(0x5B, 0xCE, 0xFA),
            ],
            PrideFlag::Bisexual => vec![
                solid(0xD6, 0x02, 0x70),
                solid(0xD6, 0x02, 0x70),
                solid(0x9B, 0x4F, 0x96),
                solid(0x00, 0x38, 0xA8),
                solid(0x00, 0x38, 0xA8),
            ],
            PrideFlag::Lesbian => vec![
                solid(0xD5, 0x2D, 0x00),
                solid(0xFF, 0x9A, 0x56),
                solid(0xFF, 0xFF, 0xFF),
                solid(0xD3, 0x62, 0xA4),
                solid(0xA3, 0x02, 0x62),
            ],
            PrideFlag::NonBinary => vec![
                solid(0xFC, 0xF4, 0x34),
                solid(0xFF, 0xFF, 0xFF),
                solid(0x9C, 0x59, 0xD1),
                solid(0x2C, 0x2C, 0x2C),
            ],
            PrideFlag::Pansexual => vec![
                solid(0xFF, 0x21, 0x8C),
                solid(0xFF, 0xD8, 0x00),
                solid(0x21, 0xB1, 0xFF),
            ],
            PrideFlag::Asexual => vec![
                solid(0x00, 0x00, 0x00),
                solid(0xA3, 0xA3, 0xA3),
                solid(0xFF, 0xFF, 0xFF),
                solid(0x80, 0x00, 0x80),
            ],
        };
        assert(r@ =~= flag_colors(*self));
        r
    }
}

/// The pattern of `flag` at `width` by `height` pixels, ready to blend over
/// an image of that size.
pub fn flag_overlay(flag: PrideFlag, width: u32, height: u32) -> (r: ImageBuffer)
    requires
        rgba_len(width as nat, height as nat) <= usize::MAX,
    ensures
        r@ == (ImageView {
            width: width as nat,
            height: height as nat,
            data: stripe_pattern(flag_colors(flag), width as nat, height as nat),
        }),
{
    let colors = flag.colors();
    stripe_overlay(&colors, width, height)
}

} // verus!
