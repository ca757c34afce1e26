use rayon::iter::IndexedParallelIterator;
use rayon::iter::ParallelIterator;
use rayon::slice::ParallelSliceMut;
use vstd::arithmetic::div_mod::{lemma_div_by_multiple, lemma_div_is_ordered};
use vstd::prelude::*;

use crate::buffer::{ImageBuffer, ImageView};
use crate::error::OverlayError;
use crate::factor::{BlendFactor, Ratio};

verus! {

/// One channel of the blend: `a * (1 - f) + b * f`, truncated toward zero.
pub open spec fn blend_channel(a: u8, b: u8, f: Ratio) -> u8 {
    (((a as int) * (f.den - f.num) + (b as int) * f.num) / (f.den as int)) as u8
}

/// The blend of two byte sequences, channel by channel; the result is as long
/// as `img`.
pub open spec fn blend_bytes(img: Seq<u8>, flag: Seq<u8>, f: Ratio) -> Seq<u8> {
    Seq::new(img.len(), |i: int| blend_channel(img[i], flag[i], f))
}

/// The blend computed chunk by chunk: `img` is cut into consecutive pieces of
/// `chunk` bytes (the last may be shorter), each piece is blended with the
/// piece of `flag` at the same place, and the results are joined.
pub open spec fn blend_in_chunks(img: Seq<u8>, flag: Seq<u8>, f: Ratio, chunk: nat) -> Seq<u8>
    decreases img.len(),
{
    if chunk == 0 || img.len() <= chunk {
        blend_bytes(img, flag, f)
    } else {
        blend_bytes(img.take(chunk as int), flag.take(chunk as int), f) + blend_in_chunks(
            img.skip(chunk as int),
            flag.skip(chunk as int),
            f,
            chunk,
        )
    }
}

/// Joining the blends of the pieces gives the blend of the whole.
proof fn lemma_chunks_join(img: Seq<u8>, flag: Seq<u8>, f: Ratio, chunk: nat)
    requires
        img.len() == flag.len(),
    ensures
        blend_in_chunks(img, flag, f, chunk) == blend_bytes(img, flag, f),
    decreases img.len(),
{
    if chunk == 0 || img.len() <= chunk {
    } else {
        let c = chunk as int;
        lemma_chunks_join(img.skip(c), flag.skip(c), f, chunk);
        assert(blend_in_chunks(img, flag, f, chunk) =~= blend_bytes(img, flag, f));
    }
}

/// Blending with the factor `0` gives the image back, byte for byte.
pub proof fn lemma_factor_zero_keeps_image(img: Seq<u8>, flag: Seq<u8>, f: Ratio)
    requires
        f.num == 0,
        0 < f.den,
    ensures
        blend_bytes(img, flag, f) == img,
{
    assert forall|i: int| 0 <= i < img.len() implies blend_channel(img[i], flag[i], f)
        == img[i] by {
        lemma_div_by_multiple(img[i] as int, f.den as int);
    }
    assert(blend_bytes(img, flag, f) =~= img);
}

/// Blending with the factor `1` gives the flag pattern, byte for byte.
pub proof fn lemma_factor_one_gives_flag(img: Seq<u8>, flag: Seq<u8>, f: Ratio)
    requires
        f.num == f.den,
        0 < f.den,
        img.len() == flag.len(),
    ensures
        blend_bytes(img, flag, f) == flag,
{
    assert forall|i: int| 0 <= i < img.len() implies blend_channel(img[i], flag[i], f)
        == flag[i] by {
        lemma_div_by_multiple(flag[i] as int, f.den as int);
    }
    assert(blend_bytes(img, flag, f) =~= flag);
}

/// Cutting the work into chunks of `n1` pixels or of `n2` pixels gives the
/// same bytes, which are the blend of the whole image.
pub proof fn lemma_rechunking_agrees(img: Seq<u8>, flag: Seq<u8>, f: Ratio, n1: nat, n2: nat)
    requires
        img.len() == flag.len(),
    ensures
        blend_in_chunks(img, flag, f, 4 * n1) == blend_in_chunks(img, flag, f, 4 * n2),
        blend_in_chunks(img, flag, f, 4 * n1) == blend_bytes(img, flag, f),
{
    lemma_chunks_join(img, flag, f, 4 * n1);
    lemma_chunks_join(img, flag, f, 4 * n2);
}

/// One channel of the blend, in machine integers.
fn blend_one(a: u8, b: u8, num: u32, den: u32) -> (r: u8)
    requires
        0 < den,
        num <= den,
    ensures
        r == blend_channel(a, b, Ratio { num: num as nat, den: den as nat }),
{
    let keep: u64 = (den - num) as u64;
    let take: u64 = num as u64;
    proof {
        assert((a as u64) * keep <= 255 * keep) by (nonlinear_arith)
            requires
                a <= 255,
        ;
        assert((b as u64) * take <= 255 * take) by (nonlinear_arith)
            requires
                b <= 255,
        ;
    }
    let sum: u64 = (a as u64) * keep + (b as u64) * take;
    proof {
        lemma_div_is_ordered(sum as int, 255 * den as int, den as int);
        lemma_div_by_multiple(255, den as int);
    }
    (sum / (den as u64)) as u8
}

/// Blends, in place, the chunk at position `index` of a buffer cut into
/// chunks of `chunk_len` bytes, against the same bytes of `flag`.
fn blend_chunk_at(chunk: &mut [u8], flag: &Vec<u8>, index: usize, chunk_len: usize, factor: BlendFactor)
    requires
        index * chunk_len + old(chunk)@.len() <= flag@.len(),
    ensures
        final(chunk)@ == blend_bytes(
            old(chunk)@,
            flag@.subrange(index * chunk_len, index * chunk_len + old(chunk)@.len()),
            factor@,
        ),
{
    let num = factor.numerator();
    let den = factor.denominator();
    let flag_len: usize = flag.len();
    let n: usize = chunk.len();
    let start: usize = index * chunk_len;
    let ghost orig = chunk@;
    let ghost part = flag@.subrange(start as int, start + n);
    let mut i: usize = 0;
    while i < n
        invariant
            n == orig.len(),
            chunk@.len() == n,
            start + n <= flag@.len(),
            flag@.len() == flag_len,
            part == flag@.subrange(start as int, start + n),
            0 < den,
            num <= den,
            factor@ == (Ratio { num: num as nat, den: den as nat }),
            forall|j: int| 0 <= j < i ==> chunk@[j] == blend_channel(orig[j], part[j], factor@),
            forall|j: int| i <= j < n ==> chunk@[j] == orig[j],
        decreases n - i,
    {
        let v = blend_one(chunk[i], flag[start + i], num, den);
        chunk[i] = v;
        i = i + 1;
    }
    assert(chunk@ =~= blend_bytes(orig, part, factor@));
}

/// Relies on rayon's `par_chunks_mut`, `enumerate` and `for_each`: the bytes
/// are cut into consecutive, disjoint chunks of `chunk_len` (the last may be
/// shorter), and the closure runs exactly once on each chunk with its index.
#[verifier::external_body]
fn par_blend_chunks(data: &mut Vec<u8>, flag: &Vec<u8>, chunk_len: usize, factor: BlendFactor)
    requires
        0 < chunk_len,
        old(data)@.len() == flag@.len(),
    ensures
        final(data)@ == blend_in_chunks(old(data)@, flag@, factor@, chunk_len as nat),
{
    data.as_mut_slice().par_chunks_mut(chunk_len).enumerate().for_each(
        |(k, c)| blend_chunk_at(c, flag, k, chunk_len, factor),
    );
}

/// Blends `flag` over `image` with `factor`, processing chunks of
/// `chunk_pixels` pixels in parallel.
///
/// Fails with `DimensionMismatch` exactly when the two sizes differ. The
/// chunk size changes only how the work is split, never the result.
pub fn blend_chunked(image: &ImageBuffer, flag: &ImageBuffer, factor: BlendFactor, chunk_pixels: usize) -> (r: Result<ImageBuffer, OverlayError>)
    requires
        0 < chunk_pixels,
    ensures
        (image@.width == flag@.width && image@.height == flag@.height) <==> r is Ok,
        r is Err ==> r->Err_0 == OverlayError::DimensionMismatch,
        r is Ok ==> r->Ok_0@ == (ImageView {
            width: image@.width,
            height: image@.height,
            data: blend_bytes(image@.data, flag@.data, factor@),
        }),
        r is Ok && factor@.num == 0 ==> r->Ok_0@ == image@,
        r is Ok && factor@.num == factor@.den ==> r->Ok_0@.data == flag@.data,
{
    if image.width() != flag.width() || image.height() != flag.height() {
        return Err(OverlayError::DimensionMismatch);
    }
    let mut out = image.as_bytes().clone();
    let flag_bytes = flag.as_bytes();
    let n = out.len();
    let chunk_len: usize = if chunk_pixels <= n / 4 {
        chunk_pixels * 4
    } else if n > 0 {
        n
    } else {
        4
    };
    par_blend_chunks(&mut out, flag_bytes, chunk_len, factor);
    proof {
        lemma_chunks_join(image@.data, flag@.data, factor@, chunk_len as nat);
    }
    let num = factor.numerator();
    let den = factor.denominator();
    proof {
        if num == 0 {
            lemma_factor_zero_keeps_image(image@.data, flag@.data, factor@);
        }
        if num == den {
            lemma_factor_one_gives_flag(image@.data, flag@.data, factor@);
        }
    }
    ImageBuffer::from_raw(image.width(), image.height(), out)
}

/// The number of pixels that one parallel task blends at a time.
pub const PIXELS_PER_CHUNK: usize = 1024;

/// Blends `flag` over `image` with `factor`: each output byte is
/// `image * (1 - factor) + flag * factor`, truncated.
///
/// Fails with `DimensionMismatch` exactly when the two sizes differ.
pub fn blend(image: &ImageBuffer, flag: &ImageBuffer, factor: BlendFactor) -> (r: Result<ImageBuffer, OverlayError>)
    ensures
        (image@.width == flag@.width && image@.height == flag@.height) <==> r is Ok,
        r is Err ==> r->Err_0 == OverlayError::DimensionMismatch,
        r is Ok ==> r->Ok_0@ == (ImageView {
            width: image@.width,
            height: image@.height,
            data: blend_bytes(image@.data, flag@.data, factor@),
        }),
        r is Ok && factor@.num == 0 ==> r->Ok_0@ == image@,
        r is Ok && factor@.num == factor@.den ==> r->Ok_0@.data == flag@.data,
{
    blend_chunked(image, flag, factor, PIXELS_PER_CHUNK)
}

} // verus!
