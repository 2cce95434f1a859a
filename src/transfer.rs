use vstd::prelude::*;

use crate::error::ExtractError;

verus! {

/// The steps that move an asset from the temporary tree to its place.
#[derive(Clone, Copy, Debug, PartialEq, Eq, Structural)]
pub enum MoveStep {
    /// Rename the source to the destination in one operation.
    Rename,
    /// Copy the source's bytes to the destination.
    Copy,
    /// Delete the source after a copy.
    RemoveSource,
    /// The asset is at its destination.
    Done,
    /// Neither way succeeded.
    Failed,
}

/// The step that follows `step`, given whether `step`'s operation succeeded.
pub open spec fn step_after(step: MoveStep, ok: bool) -> MoveStep {
    match step {
        MoveStep::Rename => if ok { MoveStep::Done } else { MoveStep::Copy },
        MoveStep::Copy => if ok { MoveStep::RemoveSource } else { MoveStep::Failed },
        MoveStep::RemoveSource => if ok { MoveStep::Done } else { MoveStep::Failed },
        MoveStep::Done => MoveStep::Done,
        MoveStep::Failed => MoveStep::Failed,
    }
}

/// Whether no operation is left to perform.
pub open spec fn is_final(step: MoveStep) -> bool {
    step == MoveStep::Done || step == MoveStep::Failed
}

/// The first step of every move: an atomic rename.
pub fn first_move_step() -> (r: MoveStep)
    ensures
        r == MoveStep::Rename,
{
    MoveStep::Rename
}

/// Advances the move once the operation of `step` has been performed.
pub fn next_move_step(step: MoveStep, ok: bool) -> (r: MoveStep)
    ensures
        r == step_after(step, ok),
{
    match step {
        MoveStep::Rename => if ok { MoveStep::Done } else { MoveStep::Copy },
        MoveStep::Copy => if ok { MoveStep::RemoveSource } else { MoveStep::Failed },
        MoveStep::RemoveSource => if ok { MoveStep::Done } else { MoveStep::Failed },
        MoveStep::Done => MoveStep::Done,
        MoveStep::Failed => MoveStep::Failed,
    }
}

/// Whether the move is over.
pub fn move_finished(step: MoveStep) -> (r: bool)
    ensures
        r == is_final(step),
{
    match step {
        MoveStep::Done | MoveStep::Failed => true,
        _ => false,
    }
}

/// The result of a move that is over: only `Done` is a success.
pub fn move_result(step: MoveStep) -> (r: Result<(), ExtractError>)
    requires
        is_final(step),
    ensures
        r is Ok <==> step == MoveStep::Done,
        r is Err ==> r == Err::<(), ExtractError>(ExtractError::Write),
{
    match step {
        MoveStep::Done => Ok(()),
        _ => Err(ExtractError::Write),
    }
}

/// The two files that a move touches: `None` where a file is absent.
pub struct Files {
    pub source: Option<Seq<u8>>,
    pub dest: Option<Seq<u8>>,
}

/// What the operation of `step` does to the files when it succeeds; a failed
/// operation changes nothing.
pub open spec fn effect(step: MoveStep, ok: bool, f: Files) -> Files {
    if !ok {
        f
    } else {
        match step {
            MoveStep::Rename => Files { source: None, dest: f.source },
            MoveStep::Copy => Files { source: f.source, dest: f.source },
            MoveStep::RemoveSource => Files { source: None, dest: f.dest },
            _ => f,
        }
    }
}

/// A whole move, in which the rename, the copy and the removal succeed or
/// fail as the three flags say; an operation that is never reached is not
/// performed. The result is the last step and the files it leaves.
pub open spec fn run_move(rename_ok: bool, copy_ok: bool, remove_ok: bool, f: Files) -> (
    MoveStep,
    Files,
) {
    let s1 = step_after(MoveStep::Rename, rename_ok);
    let f1 = effect(MoveStep::Rename, rename_ok, f);
    if is_final(s1) {
        (s1, f1)
    } else {
        let s2 = step_after(s1, copy_ok);
        let f2 = effect(s1, copy_ok, f1);
        if is_final(s2) {
            (s2, f2)
        } else {
            (step_after(s2, remove_ok), effect(s2, remove_ok, f2))
        }
    }
}

/// A move ends after at most three operations; it succeeds exactly when the
/// rename does, or, where the rename fails, when both the copy and the
/// removal do. A move that succeeds by either way leaves the source's bytes
/// at the destination and no source behind.
pub proof fn lemma_move_falls_back(rename_ok: bool, copy_ok: bool, remove_ok: bool, bytes: Seq<u8>)
    ensures
        ({
            let f = Files { source: Some(bytes), dest: None };
            let (last, after) = run_move(rename_ok, copy_ok, remove_ok, f);
            &&& is_final(last)
            &&& (last == MoveStep::Done) == (rename_ok || (copy_ok && remove_ok))
            &&& last == MoveStep::Done ==> after.dest == Some(bytes) && after.source is None
        }),
{
}

} // verus!
