use vstd::prelude::*;

verus! {

/// Process-wide count of flags that the acceptance service confirmed.
pub struct BambiStats {
    ok_flags: u64,
}

impl View for BambiStats {
    type V = nat;

    closed spec fn view(&self) -> nat {
        self.ok_flags as nat
    }
}

impl BambiStats {
    /// Adds `diff` confirmed flags to the count.
    pub fn add_ok(&mut self, diff: u64)
        requires
            old(self)@ + diff <= u64::MAX,
        ensures
            final(self)@ == old(self)@ + diff,
    {
        self.ok_flags = self.ok_flags + diff;
    }

    /// A counter that starts at zero.
    pub fn new() -> (r: Self)
        ensures
            r@ == 0,
    {
        BambiStats { ok_flags: 0 }
    }

    /// The number of confirmed flags so far.
    pub fn get_ok(&self) -> (r: u64)
        ensures
            r == self@,
    {
        self.ok_flags
    }
}

} // verus!
