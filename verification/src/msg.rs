use vstd::prelude::*;

verus! {

/// An immutable record of the four counters' values at a point in time, built
/// fresh for every notification and carried as the payload of each
/// live-stream event.
#[derive(Clone, Copy, PartialEq, Eq, Structural, Debug)]
pub struct Msg {
    pub score_1: u32,
    pub score_2: u32,
    pub score_3: u32,
    pub score_4: u32,
}

impl Msg {
    /// The four values as a plain tuple, the form in which a snapshot
    /// travels through the delivery channel.
    pub open spec fn spec_tuple(self) -> (u32, u32, u32, u32) {
        (self.score_1, self.score_2, self.score_3, self.score_4)
    }

    /// Builds the tuple form of this snapshot.
    pub fn to_tuple(self) -> (r: (u32, u32, u32, u32))
        ensures
            r == self.spec_tuple(),
    {
        (self.score_1, self.score_2, self.score_3, self.score_4)
    }

    /// Builds a snapshot back from its tuple form.
    pub fn from_tuple(t: (u32, u32, u32, u32)) -> (r: Msg)
        ensures
            r.spec_tuple() == t,
    {
        Msg { score_1: t.0, score_2: t.1, score_3: t.2, score_4: t.3 }
    }
}

} // verus!
