use vstd::prelude::*;

verus! {

/// The data version that follows `v`: one more, wrapping from `u32::MAX` to 0.
pub open spec fn next_version(v: u32) -> u32 {
    if v == u32::MAX {
        0
    } else {
        (v + 1) as u32
    }
}

/// The data version of a cluster: a counter that moves on each time an
/// attribute of the cluster changes, so that subscribers see the change.
#[derive(Debug)]
pub struct Dataver {
    ver: u32,
}

impl View for Dataver {
    type V = u32;

    closed spec fn view(&self) -> u32 {
        self.ver
    }
}

impl Dataver {
    /// A data version that starts at `initial`.
    pub fn new(initial: u32) -> (d: Dataver)
        ensures
            d@ == initial,
    {
        Dataver { ver: initial }
    }

    /// The current version.
    pub fn get(&self) -> (v: u32)
        ensures
            v == self@,
    {
        self.ver
    }

    /// Records a change: the version moves on by one, wrapping, and the new
    /// version is returned.
    pub fn changed(&mut self) -> (v: u32)
        ensures
            final(self)@ == next_version(old(self)@),
            v == final(self)@,
    {
        if self.ver == u32::MAX {
            self.ver = 0;
        } else {
            self.ver = self.ver + 1;
        }
        self.ver
    }
}


/// A change always yields a version that differs from the one before, so a
/// subscriber that compares versions sees it.
pub proof fn next_version_differs(v: u32)
    ensures
        next_version(v) != v,
        next_version(v) == (v + 1) % 0x1_0000_0000,
{
}

} // verus!
