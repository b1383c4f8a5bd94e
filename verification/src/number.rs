//! Real-valued settings.

use vstd::prelude::*;
use vstd::string::*;

verus! {

/// A real number as this crate keeps it: the bits of its double-precision
/// encoding, by which two numbers are told apart, and the text by which it is
/// shown. Whoever makes one supplies both.
#[derive(Debug)]
pub struct Real {
    pub bits: u64,
    pub text: String,
}

pub struct RealView {
    pub bits: u64,
    pub text: Seq<char>,
}

impl View for Real {
    type V = RealView;

    open spec fn view(&self) -> RealView {
        RealView { bits: self.bits, text: self.text@ }
    }
}

impl RealView {
    /// Whether the bits encode zero, of either sign.
    pub open spec fn is_zero(self) -> bool {
        self.bits == 0 || self.bits == 0x8000_0000_0000_0000u64
    }
}

impl Clone for Real {
    fn clone(&self) -> (r: Real)
        ensures
            r@ == self@,
    {
        Real { bits: self.bits, text: self.text.clone() }
    }
}

impl Real {
    pub fn new(bits: u64, text: &str) -> (r: Real)
        ensures
            r@ == (RealView { bits, text: text@ }),
    {
        Real { bits, text: text.to_owned() }
    }

    /// Whether the number is zero, of either sign.
    pub fn is_zero(&self) -> (r: bool)
        ensures
            r == self@.is_zero(),
    {
        let bits = self.bits;
        assert((bits & 0x7fff_ffff_ffff_ffffu64 == 0) == (bits == 0 || bits
            == 0x8000_0000_0000_0000u64)) by (bit_vector);
        bits & 0x7fff_ffff_ffff_ffffu64 == 0
    }
}

/// A copy of an optional number.
pub fn clone_real(value: &Option<Real>) -> (r: Option<Real>)
    ensures
        crate::views::option_view(r) == crate::views::option_view(*value),
{
    match value {
        Some(v) => Some(v.clone()),
        None => None,
    }
}

} // verus!
