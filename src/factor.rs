use vstd::prelude::*;

use crate::error::OverlayError;

verus! {

/// The mathematical value of a blend factor: `num / den`.
pub ghost struct Ratio {
    pub num: nat,
    pub den: nat,
}

/// A blend factor in `[0, 1]`, held exactly as a fraction `num / den`.
///
/// `0` keeps the image, `1` gives the flag pattern.
#[derive(Clone, Copy, Debug)]
pub struct BlendFactor {
    num: u32,
    den: u32,
}

impl View for BlendFactor {
    type V = Ratio;

    closed spec fn view(&self) -> Ratio {
        Ratio { num: self.num as nat, den: self.den as nat }
    }
}

impl BlendFactor {
    #[verifier::type_invariant]
    spec fn inv(&self) -> bool {
        0 < self.den && self.num <= self.den
    }

    /// The factor `num / den`; rejected unless `den > 0` and `num <= den`.
    pub fn new(num: u32, den: u32) -> (r: Result<BlendFactor, OverlayError>)
        ensures
            (0 < den && num <= den) <==> r is Ok,
            r is Ok ==> r->Ok_0@ == (Ratio { num: num as nat, den: den as nat }),
            r is Err ==> r->Err_0 == OverlayError::InvalidBlendFactor,
    {
        if den == 0 || num > den {
            Err(OverlayError::InvalidBlendFactor)
        } else {
            Ok(BlendFactor { num, den })
        }
    }

    /// The numerator.
    pub fn numerator(&self) -> (r: u32)
        ensures
            r as nat == self@.num,
            self@.num <= self@.den,
    {
        proof {
            use_type_invariant(self);
        }
        self.num
    }

    /// The denominator.
    pub fn denominator(&self) -> (r: u32)
        ensures
            r as nat == self@.den,
            0 < self@.den,
    {
        proof {
            use_type_invariant(self);
        }
        self.den
    }
}

} // verus!
