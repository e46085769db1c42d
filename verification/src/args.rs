//! What the operator asked for, and whether a run may begin on it.

use crate::confirm::{affirmative, is_affirmative};
use crate::engine::{initial, Engine};
use crate::fill::Mode;
use crate::units::{chunk_bytes, chunk_length, SizeError, Unit};
use vstd::prelude::*;

verus! {

/// What the operator asked for.
pub struct Args {
    /// The chunk's size, in units.
    pub chunksize: usize,
    pub unit: Unit,
    pub mode: Mode,
    /// The target: a block device or a file.
    pub path: String,
}

/// Why no run begins.
#[derive(Clone, Copy, Debug, PartialEq, Eq, Structural)]
pub enum Rejection {
    /// There is nothing at the target's path.
    MissingTarget,
    /// The chunk would hold no byte.
    ZeroChunk,
    /// The operator did not say yes.
    Declined,
    /// The chunk's length in bytes is more than `usize` can hold.
    ChunkTooLarge,
}

impl Rejection {
    /// What the operator is told of the rejection. Of an answer that was no
    /// yes there is nothing to tell.
    pub open spec fn notice(self, path: Seq<char>) -> Option<Seq<char>> {
        match self {
            Rejection::MissingTarget => Some(path + " doesn't exist"@),
            Rejection::ZeroChunk => Some("Chunksize can't be 0 or negative"@),
            Rejection::Declined => None,
            Rejection::ChunkTooLarge => Some("Chunksize is too large"@),
        }
    }

    /// What to tell the operator, if anything, where the run on the target at
    /// `path` was rejected.
    pub fn message(self, path: &str) -> (text: Option<String>)
        ensures
            text.is_some() == self.notice(path@).is_some(),
            text matches Some(t) ==> Some(t@) == self.notice(path@),
    {
        match self {
            Rejection::MissingTarget => Some(String::from_str(path).concat(" doesn't exist")),
            Rejection::ZeroChunk => Some(String::from_str("Chunksize can't be 0 or negative")),
            Rejection::Declined => None,
            Rejection::ChunkTooLarge => Some(String::from_str("Chunksize is too large")),
        }
    }
}

impl Args {
    /// What stands against asking the operator at all: a target that is not
    /// there, then a chunk of no bytes.
    pub open spec fn objection(self, target_exists: bool) -> Option<Rejection> {
        if !target_exists {
            Some(Rejection::MissingTarget)
        } else if self.chunksize == 0 {
            Some(Rejection::ZeroChunk)
        } else {
            None
        }
    }

    /// What stands against a run, the operator's answer given: what stood
    /// against asking, then an answer that is no yes, then a chunk too long
    /// for this machine.
    pub open spec fn refusal(self, target_exists: bool, answer: Seq<char>) -> Option<Rejection> {
        if self.objection(target_exists).is_some() {
            self.objection(target_exists)
        } else if !affirmative(answer) {
            Some(Rejection::Declined)
        } else if chunk_bytes(self.chunksize, self.unit) > usize::MAX {
            Some(Rejection::ChunkTooLarge)
        } else {
            None
        }
    }

    /// Decides, before the operator is asked, whether there is anything to ask
    /// about. `target_exists` says whether the target's path leads anywhere.
    pub fn precheck(&self, target_exists: bool) -> (r: Result<(), Rejection>)
        ensures
            r == (match self.objection(target_exists) {
                Some(rejection) => Err::<(), Rejection>(rejection),
                None => Ok(()),
            }),
    {
        if !target_exists {
            Err(Rejection::MissingTarget)
        } else if self.chunksize < 1 {
            Err(Rejection::ZeroChunk)
        } else {
            Ok(())
        }
    }

    /// The engine for the run that was asked for, if the run may begin: the
    /// target is there, the chunk holds at least one byte, the operator said
    /// yes, and the chunk's length fits this machine. Otherwise the first of
    /// these that fails, and no engine: nothing will be written or flushed.
    pub fn engage(&self, target_exists: bool, answer: &str) -> (r: Result<Engine, Rejection>)
        ensures
            match self.refusal(target_exists, answer@) {
                Some(rejection) => r == Err::<Engine, Rejection>(rejection),
                None => r.is_ok(),
            },
            !affirmative(answer@) ==> r.is_err(),
            self.chunksize == 0 ==> r.is_err(),
            r matches Ok(engine) ==> {
                &&& engine.inv()
                &&& engine@ == initial(chunk_bytes(self.chunksize, self.unit) as nat, self.mode)
            },
    {
        if let Err(rejection) = self.precheck(target_exists) {
            return Err(rejection);
        }
        if !is_affirmative(answer) {
            return Err(Rejection::Declined);
        }
        match chunk_length(self.chunksize, self.unit) {
            Err(SizeError::Zero) => Err(Rejection::ZeroChunk),
            Err(SizeError::TooLarge) => Err(Rejection::ChunkTooLarge),
            Ok(len) => {
                proof {
                    unit_is_positive(self.unit);
                    assert(chunk_bytes(self.chunksize, self.unit) >= 1) by (nonlinear_arith)
                        requires
                            self.chunksize >= 1,
                            self.unit.bytes() >= 1,
                            chunk_bytes(self.chunksize, self.unit) == self.chunksize
                                * self.unit.bytes(),
                    ;
                }
                match Engine::new(len, self.mode) {
                    Ok(engine) => Ok(engine),
                    Err(_) => Err(Rejection::ZeroChunk),
                }
            },
        }
    }
}

proof fn unit_is_positive(unit: Unit)
    ensures
        unit.bytes() >= 1,
{
    reveal_with_fuel(vstd::arithmetic::power::pow, 5);
}

} // verus!
