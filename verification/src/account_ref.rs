use vstd::prelude::*;

verus! {

/// A 256-bit account address, held as four 64-bit words.
///
/// The accounting core never interprets an address; it only compares
/// addresses for equality (capability checks) and against the all-zero
/// sentinel that marks revoked governance.
#[derive(Clone, Copy, Debug, PartialEq, Eq, Structural)]
pub struct AccountRef {
    pub w0: u64,
    pub w1: u64,
    pub w2: u64,
    pub w3: u64,
}

impl AccountRef {
    /// The all-zero sentinel, standing for "no authority".
    pub open spec fn spec_is_null(self) -> bool {
        self == (AccountRef { w0: 0, w1: 0, w2: 0, w3: 0 })
    }

    /// The all-zero sentinel address.
    pub fn null() -> (r: AccountRef)
        ensures
            r.spec_is_null(),
    {
        AccountRef { w0: 0, w1: 0, w2: 0, w3: 0 }
    }

    pub fn is_null(&self) -> (r: bool)
        ensures
            r == self.spec_is_null(),
    {
        self.w0 == 0 && self.w1 == 0 && self.w2 == 0 && self.w3 == 0
    }
}

} // verus!
