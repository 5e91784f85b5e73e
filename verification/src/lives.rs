use vstd::prelude::*;

verus! {

/// The hero's remaining lives.
#[derive(Debug, Copy, Clone, PartialEq, Eq, Structural)]
pub struct LivesCount {
    /// Lives left before the game is lost.
    pub count: u8,
}

impl LivesCount {
    /// Start a session with `lives` lives.
    pub fn new(lives: u8) -> (r: Self)
        ensures
            r.count == lives,
    {
        LivesCount { count: lives }
    }

    /// Whether no lives are left.
    pub fn is_out_of_lives(&self) -> (r: bool)
        ensures
            r == (self.count == 0),
    {
        self.count == 0
    }

    /// Spend one life.
    pub fn decrease(&mut self)
        requires
            old(self).count > 0,
        ensures
            final(self).count == old(self).count - 1,
    {
        self.count = self.count - 1;
    }
}

} // verus!
