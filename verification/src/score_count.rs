use vstd::prelude::*;
use vstd::string::StringSliceAdditionalSpecFns;

verus! {

/// Longest score line ever shown, in characters.
pub const UI_MAX_SCORE_LEN: usize = 38;

/// The session's score bookkeeping: the score carried into the session, the
/// high score to beat, and the two values recomputed for display every tick.
#[derive(Debug, Copy, Clone, PartialEq, Eq, Structural)]
pub struct ScoreCount {
    /// Score carried into this session.
    pub current_score: u32,
    /// High score carried across sessions.
    pub high_score: u32,
    /// High score as of the latest tick: the larger of the updated current
    /// score and the carried high score.
    pub high_score_updated: u32,
    /// Current score as of the latest tick: the carried score plus this
    /// session's kills.
    pub current_score_updated: u32,
}

impl ScoreCount {
    /// Start a session's bookkeeping from the carried scores.
    pub fn new(current_score: u32, high_score: u32) -> (r: ScoreCount)
        ensures
            r == (ScoreCount {
                current_score,
                high_score,
                high_score_updated: high_score,
                current_score_updated: current_score,
            }),
    {
        ScoreCount {
            current_score,
            high_score,
            high_score_updated: high_score,
            current_score_updated: current_score,
        }
    }

    /// Recompute the displayed scores for this tick: one point per kill, and
    /// the high score is the larger of the new score and the carried one.
    pub fn update(&mut self, enemies_dead: usize)
        requires
            old(self).current_score + enemies_dead <= u32::MAX,
        ensures
            final(self).current_score_updated == old(self).current_score + enemies_dead,
            final(self).high_score_updated == (if old(self).current_score + enemies_dead
                > old(self).high_score {
                (old(self).current_score + enemies_dead) as u32
            } else {
                old(self).high_score
            }),
            final(self).current_score == old(self).current_score,
            final(self).high_score == old(self).high_score,
    {
        self.current_score_updated = self.current_score + (enemies_dead as u32);
        self.high_score_updated = if self.current_score_updated > self.high_score {
            self.current_score_updated
        } else {
            self.high_score
        };
    }
}

/// A fixed-size byte sink the score line is formatted into, for hosts with
/// no allocator: bytes land at a cursor, and a write that does not fit is
/// refused whole.
#[derive(Debug)]
pub struct BufferWrite {
    /// The sink's storage.
    pub buffer: Vec<u8>,
    /// How many bytes have been written so far.
    pub position: usize,
}

impl BufferWrite {
    /// An empty sink over `size` zeroed bytes.
    pub fn new(size: usize) -> (r: BufferWrite)
        ensures
            r.buffer@.len() == size,
            r.position == 0,
    {
        let mut buffer: Vec<u8> = Vec::new();
        let mut i: usize = 0;
        while i < size
            invariant
                i <= size,
                buffer@.len() == i,
            decreases size - i,
        {
            buffer.push(0);
            i = i + 1;
        }
        BufferWrite { buffer, position: 0 }
    }

    /// The total number of bytes written so far.
    pub fn written_length(&self) -> (r: usize)
        ensures
            r == self.position,
    {
        self.position
    }

    /// Append the bytes of `s` at the cursor. When they fit in the space
    /// left they all land and the cursor advances past them; otherwise
    /// nothing changes and the write reports failure.
    pub fn write_str(&mut self, s: &str) -> (r: bool)
        requires
            old(self).position <= old(self).buffer@.len(),
        ensures
            r == (s.spec_bytes().len() <= old(self).buffer@.len() - old(self).position),
            r ==> final(self).buffer@ == old(self).buffer@.subrange(
                0,
                old(self).position as int,
            ) + s.spec_bytes() + old(self).buffer@.subrange(
                old(self).position + s.spec_bytes().len(),
                old(self).buffer@.len() as int,
            ),
            r ==> final(self).position == old(self).position + s.spec_bytes().len(),
            !r ==> *final(self) == *old(self),
    {
        let bytes = s.as_bytes();
        let n = bytes.len();
        let remaining_space = self.buffer.len() - self.position;
        if n > remaining_space {
            return false;
        }
        let mut k: usize = 0;
        while k < n
            invariant
                k <= n,
                n == s.spec_bytes().len(),
                bytes@ == s.spec_bytes(),
                self.position == old(self).position,
                old(self).position + n <= old(self).buffer@.len(),
                old(self).buffer@.len() <= usize::MAX,
                self.buffer@.len() == old(self).buffer@.len(),
                forall|j: int|
                    0 <= j < old(self).position ==> #[trigger] self.buffer@[j] == old(
                        self,
                    ).buffer@[j],
                forall|j: int|
                    old(self).position <= j < old(self).position + k
                        ==> #[trigger] self.buffer@[j] == s.spec_bytes()[j - old(
                        self,
                    ).position],
                forall|j: int|
                    old(self).position + k <= j < old(self).buffer@.len()
                        ==> #[trigger] self.buffer@[j] == old(self).buffer@[j],
            decreases n - k,
        {
            let b = bytes[k];
            let index = self.position + k;
            self.buffer[index] = b;
            k = k + 1;
        }
        self.position = self.position + n;
        proof {
            assert(self.buffer@ =~= old(self).buffer@.subrange(0, old(self).position as int)
                + s.spec_bytes() + old(self).buffer@.subrange(
                old(self).position + s.spec_bytes().len(),
                old(self).buffer@.len() as int,
            ));
        }
        true
    }
}

} // verus!
