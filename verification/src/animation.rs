//! A single named animation clip: an ordered list of frame indices, a
//! playback mode, and the cursor state needed to step through it.

use vstd::arithmetic::div_mod::{
    lemma_add_mod_noop, lemma_mod_bound, lemma_mod_self_0, lemma_small_mod,
};
use vstd::prelude::*;
use vstd::string::StringExecFns;

verus! {

/// The two ways the animation core can fail, both non-fatal.
#[derive(Debug, PartialEq, Eq)]
pub enum SpriteAnimError {
    /// Advancing a clip whose frame list is empty.
    NoFrames(String),
    /// Selecting a clip name that is not in the controller's collection.
    DoesNotExist(String),
}

/// Repeating: the clip plays continuously, wrapping to the start.
/// Once: the clip plays through and then holds its last frame.
/// Mirror: the clip plays forward to the end, then backward to the start,
/// continuously.
#[derive(Debug, Clone, Copy, PartialEq, Eq)]
pub enum SpriteAnimMode {
    Repeating,
    Once,
    Mirror,
}

/// The mathematical value of a clip: what the contracts below speak of.
pub struct ClipModel {
    pub name: Seq<char>,
    pub frames: Seq<usize>,
    pub cursor: int,
    pub mode: SpriteAnimMode,
    pub forward: bool,
}

impl ClipModel {
    /// The cursor is a valid index whenever the frame list is non-empty.
    pub open spec fn inv(self) -> bool {
        self.frames.len() == 0 || 0 <= self.cursor < self.frames.len()
    }

    /// The frame a step reveals: the one under the cursor.
    pub open spec fn current_frame(self) -> usize
        recommends
            0 <= self.cursor < self.frames.len(),
    {
        self.frames[self.cursor]
    }

    /// The clip state after one step. Clips of at most one frame never
    /// change; otherwise the cursor moves as the mode dictates. In Mirror
    /// mode the direction is forced forward at the first frame and backward
    /// at the last one before the cursor moves, and a backward move
    /// saturates at zero.
    pub open spec fn advanced(self) -> ClipModel {
        if self.frames.len() <= 1 {
            self
        } else {
            match self.mode {
                SpriteAnimMode::Repeating => (ClipModel {
                    cursor: if self.cursor < self.frames.len() - 1 {
                        self.cursor + 1
                    } else {
                        0
                    },
                    ..self
                }),
                SpriteAnimMode::Once => (ClipModel {
                    cursor: if self.cursor < self.frames.len() - 1 {
                        self.cursor + 1
                    } else {
                        self.cursor
                    },
                    ..self
                }),
                SpriteAnimMode::Mirror => {
                    let fwd = if self.cursor == 0 {
                        true
                    } else if self.cursor == self.frames.len() - 1 {
                        false
                    } else {
                        self.forward
                    };
                    ClipModel {
                        cursor: if fwd {
                            self.cursor + 1
                        } else if self.cursor > 0 {
                            self.cursor - 1
                        } else {
                            0
                        },
                        forward: fwd,
                        ..self
                    }
                },
            }
        }
    }

    /// The clip state after a reset: the cursor returns to zero, while the
    /// Mirror direction is deliberately left as it was.
    pub open spec fn reset(self) -> ClipModel {
        ClipModel { cursor: 0, ..self }
    }

    /// The clip state after `k` steps.
    pub open spec fn advanced_by(self, k: nat) -> ClipModel
        decreases k,
    {
        if k == 0 {
            self
        } else {
            self.advanced_by((k - 1) as nat).advanced()
        }
    }

    /// A freshly selected copy of a stored clip: cursor at zero, direction
    /// forward.
    pub open spec fn restarted(self) -> ClipModel {
        ClipModel { cursor: 0, forward: true, ..self }
    }

    /// The clip a controller synthesizes as its fallback: one frame, played
    /// once, always showing frame zero.
    pub open spec fn default_clip() -> ClipModel {
        ClipModel {
            name: "Default"@,
            frames: seq![0usize],
            cursor: 0,
            mode: SpriteAnimMode::Once,
            forward: true,
        }
    }
}

/// Holds the data for a single animation: its name, its frame indices into
/// a sprite sheet, and the cursor state used to step it.
#[derive(Debug)]
pub struct SpriteAnimData {
    pub name: String,
    pub frames: Vec<usize>,
    pub index: usize,
    pub mode: SpriteAnimMode,
    pub forward: bool,
}

impl View for SpriteAnimData {
    type V = ClipModel;

    open spec fn view(&self) -> ClipModel {
        ClipModel {
            name: self.name@,
            frames: self.frames@,
            cursor: self.index as int,
            mode: self.mode,
            forward: self.forward,
        }
    }
}

impl Default for SpriteAnimData {
    /// The synthesized fallback clip: a single frame 0, played once.
    fn default() -> (r: Self)
        ensures
            r@ == ClipModel::default_clip(),
            r@.inv(),
    {
        let frames: Vec<usize> = vec![0];
        let r = SpriteAnimData {
            name: "Default".to_owned(),
            frames,
            index: 0,
            mode: SpriteAnimMode::Once,
            forward: true,
        };
        proof {
            assert(r@.frames =~= seq![0usize]);
        }
        r
    }
}

impl Clone for SpriteAnimData {
    fn clone(&self) -> (r: Self)
        ensures
            r@ == self@,
    {
        let r = SpriteAnimData {
            name: self.name.clone(),
            frames: self.frames.clone(),
            index: self.index,
            mode: self.mode,
            forward: self.forward,
        };
        proof {
            assert(r@.frames =~= self@.frames);
        }
        r
    }
}

impl SpriteAnimData {
    /// Creates a new clip over the given frames, defaulting to
    /// `SpriteAnimMode::Repeating`, with the cursor at zero.
    pub fn new(name: String, frames: Vec<usize>) -> (r: Self)
        ensures
            r@ == (ClipModel {
                name: name@,
                frames: frames@,
                cursor: 0,
                mode: SpriteAnimMode::Repeating,
                forward: true,
            }),
            r@.inv(),
    {
        SpriteAnimData { name, frames, index: 0, mode: SpriteAnimMode::Repeating, forward: true }
    }

    /// Changes the mode of the clip on instantiation.
    pub fn with_mode(self, mode: SpriteAnimMode) -> (r: Self)
        ensures
            r@ == (ClipModel { mode, ..self@ }),
    {
        SpriteAnimData { mode, ..self }
    }

    /// Sets the cursor back to zero, unconditionally, and changes nothing
    /// else; in particular the Mirror direction keeps its value.
    pub fn reset(&mut self)
        ensures
            final(self)@ == old(self)@.reset(),
            final(self)@.cursor == 0,
    {
        self.index = 0;
    }

    /// Returns the frame to display and moves the cursor to the next one,
    /// as `ClipModel::advanced` describes. Fails exactly when the frame
    /// list is empty, and then changes nothing.
    pub fn get_frame(&mut self) -> (r: Result<usize, SpriteAnimError>)
        requires
            old(self)@.inv(),
        ensures
            final(self)@ == old(self)@.advanced(),
            final(self)@.inv(),
            old(self)@.frames.len() == 0 ==> (r matches Err(SpriteAnimError::NoFrames(n))
                && n@ == old(self)@.name),
            old(self)@.frames.len() > 0 ==> (r matches Ok(f)
                && f == old(self)@.current_frame()),
    {
        if self.frames.len() == 0 {
            return Err(SpriteAnimError::NoFrames(self.name.clone()));
        }
        if self.frames.len() == 1 {
            return Ok(self.frames[0]);
        }
        let frame = self.frames[self.index];
        match self.mode {
            SpriteAnimMode::Repeating => {
                if self.index < self.frames.len() - 1 {
                    self.index = self.index + 1;
                } else {
                    self.index = 0;
                }
            },
            SpriteAnimMode::Once => {
                if self.index < self.frames.len() - 1 {
                    self.index = self.index + 1;
                }
            },
            SpriteAnimMode::Mirror => {
                if self.index == 0 {
                    self.forward = true;
                } else if self.index == self.frames.len() - 1 {
                    self.forward = false;
                }
                if self.forward {
                    self.index = self.index + 1;
                } else if self.index > 0 {
                    self.index = self.index - 1;
                }
            },
        }
        Ok(frame)
    }
}

impl SpriteAnimError {
    /// The human-readable description of the error.
    pub fn message(&self) -> (r: String)
        ensures
            *self matches SpriteAnimError::NoFrames(n) ==> r@
                == "The frames vector for animation \""@ + n@ + "\" cannot be empty"@,
            *self matches SpriteAnimError::DoesNotExist(n) ==> r@
                == "The animation \""@ + n@ + "\" does not exist. Playing default animation instead."@,
    {
        match self {
            SpriteAnimError::NoFrames(name) => {
                let mut s: String = "The frames vector for animation \"".to_owned();
                s.append(name.as_str());
                s.append("\" cannot be empty");
                s
            },
            SpriteAnimError::DoesNotExist(name) => {
                let mut s: String = "The animation \"".to_owned();
                s.append(name.as_str());
                s.append("\" does not exist. Playing default animation instead.");
                s
            },
        }
    }
}

/// Law: advancing preserves the cursor invariant, whatever the mode.
pub proof fn lemma_advance_preserves_inv(c: ClipModel)
    requires
        c.inv(),
    ensures
        c.advanced().inv(),
{
}

/// Law: a clip with exactly one frame is stable — a step changes nothing,
/// and the frame revealed is always that single frame.
pub proof fn lemma_single_frame_stable(c: ClipModel)
    requires
        c.inv(),
        c.frames.len() == 1,
    ensures
        c.advanced() == c,
        c.current_frame() == c.frames[0],
{
}

/// Law: in Repeating mode the cursor cycles through the frame list with
/// period equal to its length.
pub proof fn lemma_repeating_wraps(c: ClipModel)
    requires
        c.inv(),
        c.frames.len() > 0,
        c.mode is Repeating,
    ensures
        c.advanced().cursor == (c.cursor + 1) % (c.frames.len() as int),
{
    let n = c.frames.len() as int;
    if c.cursor < n - 1 {
        lemma_small_mod((c.cursor + 1) as nat, n as nat);
    } else {
        lemma_mod_self_0(n);
    }
}

/// Law: in Repeating mode the clip cycles indefinitely — after any number
/// of steps the cursor is the starting cursor plus the step count, modulo
/// the frame count, and nothing else about the clip changes.
pub proof fn lemma_repeating_cycles(c: ClipModel, k: nat)
    requires
        c.inv(),
        c.frames.len() > 0,
        c.mode is Repeating,
    ensures
        c.advanced_by(k) == (ClipModel {
            cursor: (c.cursor + k) % (c.frames.len() as int),
            ..c
        }),
    decreases k,
{
    let n = c.frames.len() as int;
    if k == 0 {
        lemma_small_mod(c.cursor as nat, n as nat);
    } else {
        lemma_repeating_cycles(c, (k - 1) as nat);
        let x = c.cursor + k - 1;
        lemma_mod_bound(x, n);
        if n == 1 {
            lemma_mod_bound(c.cursor + k, n);
        } else {
            lemma_add_mod_noop(x, 1, n);
            lemma_small_mod(1nat, n as nat);
            if x % n < n - 1 {
                lemma_small_mod((x % n + 1) as nat, n as nat);
            } else {
                lemma_mod_self_0(n);
            }
        }
    }
}

/// Law: in Once mode, a clip whose cursor has reached the last frame is
/// frozen — further steps change nothing.
pub proof fn lemma_once_freezes(c: ClipModel)
    requires
        c.inv(),
        c.frames.len() > 0,
        c.mode is Once,
        c.cursor == c.frames.len() - 1,
    ensures
        c.advanced() == c,
{
}

/// Law: in Once mode the cursor climbs to the last frame and saturates
/// there — after any number of steps it sits at the smaller of (start plus
/// step count) and the last index, and nothing else about the clip changes.
pub proof fn lemma_once_saturates(c: ClipModel, k: nat)
    requires
        c.inv(),
        c.frames.len() > 0,
        c.mode is Once,
    ensures
        c.advanced_by(k) == (ClipModel {
            cursor: if c.cursor + k < c.frames.len() - 1 {
                c.cursor + k
            } else {
                c.frames.len() - 1
            },
            ..c
        }),
    decreases k,
{
    if k > 0 {
        lemma_once_saturates(c, (k - 1) as nat);
    }
}

/// Law: in Mirror mode the clip bounces at both ends — at the last frame
/// the next step moves backward, and at the first frame it moves forward.
pub proof fn lemma_mirror_bounces(c: ClipModel)
    requires
        c.inv(),
        c.frames.len() >= 2,
        c.mode is Mirror,
    ensures
        c.cursor == 0 ==> c.advanced().cursor == 1 && c.advanced().forward,
        c.cursor == c.frames.len() - 1 ==> c.advanced().cursor == c.frames.len() - 2
            && !c.advanced().forward,
{
}

proof fn lemma_mirror_ascends(c: ClipModel, k: nat)
    requires
        c.inv(),
        c.frames.len() >= 2,
        c.mode is Mirror,
        c.cursor == 0,
        1 <= k <= c.frames.len() - 1,
    ensures
        c.advanced_by(k) == (ClipModel { cursor: k as int, forward: true, ..c }),
    decreases k,
{
    if k > 1 {
        lemma_mirror_ascends(c, (k - 1) as nat);
    } else {
        assert(c.advanced_by(0) == c);
    }
}

proof fn lemma_mirror_descends(c: ClipModel, k: nat)
    requires
        c.inv(),
        c.frames.len() >= 2,
        c.mode is Mirror,
        c.cursor == 0,
        c.frames.len() <= k <= 2 * (c.frames.len() - 1),
    ensures
        c.advanced_by(k) == (ClipModel {
            cursor: 2 * (c.frames.len() - 1) - k,
            forward: false,
            ..c
        }),
    decreases k,
{
    let n = c.frames.len() as int;
    if k == n {
        lemma_mirror_ascends(c, (n - 1) as nat);
    } else {
        lemma_mirror_descends(c, (k - 1) as nat);
    }
}

/// Law: Mirror playback is periodic — starting from the first frame, a
/// full round trip of twice the frame count less two steps brings the
/// cursor back to the start, and the clip then advances exactly as it did
/// at the start.
pub proof fn lemma_mirror_round_trip(c: ClipModel)
    requires
        c.inv(),
        c.frames.len() >= 2,
        c.mode is Mirror,
        c.cursor == 0,
    ensures
        c.advanced_by((2 * (c.frames.len() - 1)) as nat).cursor == 0,
        c.advanced_by((2 * (c.frames.len() - 1)) as nat).advanced() == c.advanced(),
{
    lemma_mirror_descends(c, (2 * (c.frames.len() - 1)) as nat);
}

/// Law: a reset is idempotent — resetting twice gives the same clip state
/// as resetting once.
pub proof fn lemma_reset_idempotent(c: ClipModel)
    ensures
        c.reset().reset() == c.reset(),
{
}

} // verus!
