//! The normalized command magnitude, held in millionths.

use vstd::prelude::*;

verus! {

/// How many millionths make one whole.
pub const MILLION: u32 = 1_000_000;

/// The lowest intensity that still actuates, in millionths.
pub const FLOOR: u32 = 50_000;

/// A magnitude between zero and one, in millionths. Zero means "no actuation".
#[derive(Clone, Copy, Debug, PartialEq, Eq)]
pub struct Intensity {
    ppm: u32,
}

impl View for Intensity {
    type V = nat;

    closed spec fn view(&self) -> nat {
        self.ppm as nat
    }
}

impl Intensity {
    #[verifier::type_invariant]
    spec fn in_range(self) -> bool {
        self.ppm <= MILLION
    }

    /// No actuation.
    pub fn zero() -> (r: Intensity)
        ensures
            r@ == 0,
    {
        Intensity { ppm: 0 }
    }

    /// The intensity of `ppm` millionths, known to be at most one whole.
    pub(crate) fn new(ppm: u32) -> (r: Intensity)
        requires
            ppm <= MILLION,
        ensures
            r@ == ppm,
    {
        Intensity { ppm }
    }

    /// The intensity of `ppm` millionths, if that is at most one whole.
    pub fn from_ppm(ppm: u32) -> (r: Option<Intensity>)
        ensures
            r is Some <==> ppm <= MILLION,
            r matches Some(i) ==> i@ == ppm,
    {
        if ppm <= MILLION {
            Some(Intensity { ppm })
        } else {
            None
        }
    }

    /// The magnitude in millionths.
    pub fn ppm(&self) -> (r: u32)
        ensures
            r == self@,
            r <= MILLION,
    {
        proof {
            use_type_invariant(self);
        }
        self.ppm
    }

    /// Whether this is "no actuation".
    pub fn is_zero(&self) -> (r: bool)
        ensures
            r <==> self@ == 0,
    {
        self.ppm == 0
    }
}

} // verus!
