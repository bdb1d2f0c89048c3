//! The constrained 7-bit data byte that MIDI messages carry.

use vstd::prelude::*;

verus! {

/// A numeric value guaranteed to lie in the 7-bit range `0..=127`.
///
/// Range validity is enforced once, where a raw byte first enters the type;
/// everything downstream (in particular the control-function codec) relies
/// on the invariant instead of re-validating.
#[derive(Copy, Clone, Debug, PartialEq, Eq, Structural)]
pub struct U7 {
    value: u8,
}

impl View for U7 {
    type V = u8;

    closed spec fn view(&self) -> u8 {
        self.value
    }
}

impl U7 {
    #[verifier::type_invariant]
    spec fn in_range(self) -> bool {
        self.value < 128
    }

    /// The 7-bit value whose numeric content is `value`, as a spec-level
    /// constructor for contracts to name.
    pub closed spec fn spec_new(value: u8) -> U7 {
        U7 { value }
    }

    /// `spec_new` assigns exactly the numeric content it was given.
    pub proof fn lemma_spec_new(value: u8)
        ensures
            U7::spec_new(value)@ == value,
    {
    }

    /// A 7-bit value is determined by its numeric content.
    pub proof fn lemma_canonical(self)
        ensures
            self == U7::spec_new(self@),
    {
    }

    /// Accepts exactly the bytes in `0..=127`.
    pub fn new(value: u8) -> (r: Option<U7>)
        ensures
            r is Some <==> value < 128,
            value < 128 ==> r == Some(U7::spec_new(value)),
    {
        if value < 128 {
            Some(U7 { value })
        } else {
            None
        }
    }

    /// Constructs without a runtime check; callers prove the range instead.
    pub(crate) fn new_unchecked(value: u8) -> (r: U7)
        requires
            value < 128,
        ensures
            r == U7::spec_new(value),
    {
        U7 { value }
    }

    /// The numeric content, always below 128 by the type's invariant.
    pub fn value(self) -> (r: u8)
        ensures
            r == self@,
            r < 128,
    {
        proof {
            use_type_invariant(self);
        }
        self.value
    }
}

} // verus!
