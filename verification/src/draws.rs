//! A record of the numbers drawn by chance.

use vstd::prelude::*;

verus! {

/// The numbers drawn by chance, in order: for each draw, the range
/// `low..high` that was asked for and the number that came out. Only the
/// random draws themselves add to it.
pub struct DrawLog {
    draws: Ghost<Seq<(u32, u32, u32)>>,
}

impl View for DrawLog {
    type V = Seq<(u32, u32, u32)>;

    closed spec fn view(&self) -> Seq<(u32, u32, u32)> {
        self.draws@
    }
}

impl DrawLog {
    /// A record of no draws.
    pub fn new() -> (log: DrawLog)
        ensures
            log@ == Seq::<(u32, u32, u32)>::empty(),
    {
        DrawLog { draws: Ghost(Seq::empty()) }
    }
}

} // verus!
