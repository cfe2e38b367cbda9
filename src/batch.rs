//! The run over the displays: which ones are visited, and whether the run
//! as a whole succeeded.
use vstd::prelude::*;

use crate::cycle::Outcome;

verus! {

/// The displays that a run is aimed at.
#[derive(Clone, Copy, Debug, PartialEq, Eq, Structural)]
pub enum Target {
    /// Every display found, in the order found.
    All,
    /// The display at this position (from 0) of the order found.
    Index(usize),
}

/// Why a run was refused before any display was touched.
#[derive(Clone, Copy, Debug, PartialEq, Eq, Structural)]
pub enum BatchError {
    /// The requested display is not among those found.
    DisplayNotFound(usize),
}

/// The target that an optional display index names: no index means all.
pub fn target_of(display: Option<usize>) -> (r: Target)
    ensures
        r == (match display {
            Some(n) => Target::Index(n),
            None => Target::All,
        }),
{
    match display {
        Some(n) => Target::Index(n),
        None => Target::All,
    }
}

/// The positions `0, 1, ..., count - 1`.
pub open spec fn all_positions(count: usize) -> Seq<usize> {
    Seq::new(count as nat, |i: int| i as usize)
}

/// The positions of the displays that a run visits, in order, among `count`
/// displays found: all of them, or the one requested if it is there.
pub fn resolve_targets(target: Target, count: usize) -> (r: Result<Vec<usize>, BatchError>)
    ensures
        match target {
            Target::All => r matches Ok(v) && v@ == all_positions(count),
            Target::Index(n) => if n < count {
                r matches Ok(v) && v@ == seq![n]
            } else {
                r == Err::<Vec<usize>, BatchError>(BatchError::DisplayNotFound(n))
            },
        },
{
    match target {
        Target::All => {
            let mut v: Vec<usize> = Vec::new();
            let mut i: usize = 0;
            while i < count
                invariant
                    i <= count,
                    v@ == all_positions(i),
                decreases count - i,
            {
                v.push(i);
                i = i + 1;
                assert(v@ =~= all_positions(i));
            }
            assert(v@ =~= all_positions(count));
            Ok(v)
        },
        Target::Index(n) => {
            if n < count {
                Ok(vec![n])
            } else {
                Err(BatchError::DisplayNotFound(n))
            }
        },
    }
}

/// Whether no outcome of the run is a failure.
pub open spec fn no_failure(outcomes: Seq<Outcome>) -> bool {
    forall|i: int| 0 <= i < outcomes.len() ==> !(#[trigger] outcomes[i]).is_failure_spec()
}

/// The run's overall result: success exactly when no display in it ended
/// in a failing outcome. A display that did not answer its read counts as
/// a failure of the run, also within a sweep over all displays whose other
/// displays succeeded.
pub fn run_succeeded(outcomes: &Vec<Outcome>) -> (r: bool)
    ensures
        r == no_failure(outcomes@),
{
    let mut i: usize = 0;
    while i < outcomes.len()
        invariant
            i <= outcomes@.len(),
            no_failure(outcomes@.subrange(0, i as int)),
        decreases outcomes@.len() - i,
    {
        if outcomes[i].is_failure() {
            assert(outcomes@.subrange(0, i as int + 1)[i as int] == outcomes@[i as int]);
            return false;
        }
        assert forall|j: int| 0 <= j < i + 1 implies !(#[trigger] outcomes@.subrange(
            0,
            i as int + 1,
        )[j]).is_failure_spec() by {
            if j < i {
                assert(outcomes@.subrange(0, i as int + 1)[j] == outcomes@.subrange(
                    0,
                    i as int,
                )[j]);
            }
        }
        i = i + 1;
    }
    assert(outcomes@.subrange(0, i as int) =~= outcomes@);
    true
}

} // verus!
