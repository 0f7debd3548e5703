//! Checkpoint strengths.
use vstd::prelude::*;

verus! {

/// How thoroughly a checkpoint folds the log back into the main database
/// file, from weakest to strongest.
///
/// Only `Truncate` blocks writers, copies every frame back and resets frame
/// numbering, so it is the only mode under which the log may be cut.
#[derive(Clone, Copy, Debug, PartialEq, Eq)]
pub enum CheckpointMode {
    Passive,
    Full,
    Restart,
    Truncate,
}

impl CheckpointMode {
    /// Position of the mode in the order of strengths.
    pub open spec fn strength(self) -> nat {
        match self {
            CheckpointMode::Passive => 0,
            CheckpointMode::Full => 1,
            CheckpointMode::Restart => 2,
            CheckpointMode::Truncate => 3,
        }
    }

    /// Whether `self` is strictly weaker than `other`.
    pub open spec fn weaker_than(self, other: CheckpointMode) -> bool {
        self.strength() < other.strength()
    }

    fn level(self) -> (level: u8)
        ensures
            level == self.strength(),
    {
        match self {
            CheckpointMode::Passive => 0,
            CheckpointMode::Full => 1,
            CheckpointMode::Restart => 2,
            CheckpointMode::Truncate => 3,
        }
    }

    /// Whether `self` is strictly weaker than `other`.
    pub fn is_weaker_than(self, other: CheckpointMode) -> (weaker: bool)
        ensures
            weaker == self.weaker_than(other),
    {
        self.level() < other.level()
    }
}

/// `Truncate` is the one strongest mode: every other mode is weaker than it,
/// and it is weaker than none.
pub proof fn truncate_is_strongest(mode: CheckpointMode)
    ensures
        mode.weaker_than(CheckpointMode::Truncate) <==> mode != CheckpointMode::Truncate,
        !CheckpointMode::Truncate.weaker_than(mode),
{
}

} // verus!
