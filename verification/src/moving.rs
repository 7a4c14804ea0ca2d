//! The decisions of a move: which path a backend is handed, and whether it is handed
//! the move at all.
//!
//! The real-filesystem backend renames, and takes the paths as they were given. The
//! in-memory backend moves entry by entry and is handed less: resolved paths only, and
//! only a move that it can carry through.

use crate::backend::BackendKind;
use std::path::Path;
use vstd::prelude::*;

verus! {

/// What is done with a move that was asked for.
#[derive(Clone, Copy, Debug, PartialEq, Eq, Structural)]
pub enum MoveStep {
    /// The backend is handed the move.
    HandOn,
    /// Refused: the destination is the source or lies under it.
    RefuseSelf,
    /// Refused: one of the two paths is not resolved, or the source holds a character
    /// of more than one byte.
    RefusePath,
    /// Refused: the destination is no directory and stands in none.
    RefuseNoDirectory,
}

/// The path that a backend of the given kind is handed where `given` was asked for and
/// resolves to `resolved`: the in-memory backend the resolved one, the real-filesystem
/// backend the given one.
pub open spec fn path_handed_on<'a>(kind: BackendKind, given: &'a Path, resolved: &'a Path)
    -> &'a Path {
    match kind {
        BackendKind::Memfs => resolved,
        BackendKind::Stdfs => given,
    }
}

/// What is done with a move on a backend of the given kind, where
/// - `safe` says whether the texts of the two paths move safely,
/// - `within` says whether the destination is the source or lies under it,
/// - `dst_holds` says whether the destination is a directory or a link to one, and
/// - `parent_holds` says the same of the directory that the destination stands in.
///
/// The real-filesystem backend is handed every move. The in-memory backend is handed a
/// safe move whose destination is a directory or stands in one.
pub open spec fn move_step_of(
    kind: BackendKind,
    safe: bool,
    within: bool,
    dst_holds: bool,
    parent_holds: bool,
) -> MoveStep {
    match kind {
        BackendKind::Stdfs => MoveStep::HandOn,
        BackendKind::Memfs => if safe {
            if dst_holds || parent_holds {
                MoveStep::HandOn
            } else {
                MoveStep::RefuseNoDirectory
            }
        } else if within {
            MoveStep::RefuseSelf
        } else {
            MoveStep::RefusePath
        },
    }
}

/// Picks the path that a backend of the given kind is handed.
pub fn path_to_hand<'a>(kind: BackendKind, given: &'a Path, resolved: &'a Path) -> (path: &'a Path)
    ensures
        path == path_handed_on(kind, given, resolved),
{
    match kind {
        BackendKind::Memfs => resolved,
        BackendKind::Stdfs => given,
    }
}

/// Decides what is done with a move.
pub fn move_step(
    kind: BackendKind,
    safe: bool,
    within: bool,
    dst_holds: bool,
    parent_holds: bool,
) -> (step: MoveStep)
    ensures
        step == move_step_of(kind, safe, within, dst_holds, parent_holds),
{
    match kind {
        BackendKind::Stdfs => MoveStep::HandOn,
        BackendKind::Memfs => {
            if !safe {
                if within {
                    MoveStep::RefuseSelf
                } else {
                    MoveStep::RefusePath
                }
            } else if dst_holds || parent_holds {
                MoveStep::HandOn
            } else {
                MoveStep::RefuseNoDirectory
            }
        },
    }
}

} // verus!
