//! The mutation executor: flag update, move and delete as step machines.
//!
//! Each mutation is a short protocol sequence: select the folder, perform
//! the op-specific steps, and log out on every exit path. The machine here
//! decides the next action from the current stage and the last step's
//! outcome; the transport layer performs the action and reports back. The
//! ordering rules live in the transition function: a move whose copy step
//! failed never marks the source deleted, and a delete whose mark step
//! failed never expunges.

use vstd::prelude::*;
use crate::error::{MailError, MutationStepKind};

verus! {

/// One user-initiated mutation.
pub enum MutationOp {
    /// Apply or remove the seen flag on the target message.
    SetRead { uid: u32, read: bool },
    /// Copy the message to the destination folder, then mark the source
    /// copy deleted.
    MoveTo { uid: u32, target: String },
    /// Mark the message deleted, then expunge.
    Delete { uid: u32 },
}

/// A protocol action the transport layer must perform next. After a store
/// action the command's response stream must be drained completely before
/// the next action is requested.
pub enum MutationAction {
    /// Select this folder.
    SelectFolder(String),
    /// Add (or remove, when `read` is false) the seen flag.
    StoreSeen { uid: u32, read: bool },
    /// Copy the message to this folder.
    CopyTo { uid: u32, target: String },
    /// Add the deleted flag.
    StoreDeleted { uid: u32 },
    /// Expunge messages marked deleted.
    Expunge,
    /// Terminate the session gracefully; its own failure is swallowed.
    Logout,
}

/// How the last requested action went.
pub enum StepOutcome {
    Succeeded,
    Failed(String),
}

/// Where the mutation sequence stands.
#[derive(Clone, Copy, Debug, PartialEq, Eq, Structural)]
pub enum MutationStage {
    /// Waiting for the folder selection's outcome.
    Selecting,
    /// Waiting for the copy step's outcome (move only).
    Copying,
    /// Waiting for the flag-store step's outcome.
    Storing,
    /// Waiting for the expunge step's outcome (delete only).
    Expunging,
    /// Waiting for the logout's outcome.
    LoggingOut,
    /// The sequence is over.
    Finished,
}

/// The mutation sequence's state between two protocol actions.
pub struct MutationMachine {
    pub op: MutationOp,
    pub folder_path: String,
    pub stage: MutationStage,
    pub failure: Option<MailError>,
}

/// Starts a mutation sequence: the first action selects the folder.
pub fn start_mutation(op: MutationOp, folder_path: String) -> (r: (MutationMachine, MutationAction))
    ensures
        r.0.op == op,
        r.0.folder_path == folder_path,
        r.0.stage == MutationStage::Selecting,
        r.0.failure is None,
        r.1 == MutationAction::SelectFolder(folder_path),
{
    let action = MutationAction::SelectFolder(folder_path.clone());
    (MutationMachine { op, folder_path, stage: MutationStage::Selecting, failure: None }, action)
}

/// The machine after one step, and the next action, as a function of the
/// stage and the step's outcome. This is the complete transition table of
/// the mutation executor.
pub open spec fn spec_mutation_step(m: MutationMachine, o: StepOutcome) -> (
    MutationMachine,
    Option<MutationAction>,
) {
    match m.stage {
        MutationStage::Selecting => match o {
            StepOutcome::Failed(d) => (
                MutationMachine {
                    stage: MutationStage::LoggingOut,
                    failure: Some(MailError::FolderSelectError(d)),
                    ..m
                },
                Some(MutationAction::Logout),
            ),
            StepOutcome::Succeeded => match m.op {
                MutationOp::SetRead { uid, read } => (
                    MutationMachine { stage: MutationStage::Storing, ..m },
                    Some(MutationAction::StoreSeen { uid, read }),
                ),
                MutationOp::MoveTo { uid, target } => (
                    MutationMachine { stage: MutationStage::Copying, ..m },
                    Some(MutationAction::CopyTo { uid, target }),
                ),
                MutationOp::Delete { uid } => (
                    MutationMachine { stage: MutationStage::Storing, ..m },
                    Some(MutationAction::StoreDeleted { uid }),
                ),
            },
        },
        MutationStage::Copying => match o {
            StepOutcome::Failed(d) => (
                MutationMachine {
                    stage: MutationStage::LoggingOut,
                    failure: Some(MailError::MutationStepError(MutationStepKind::CopyStep, d)),
                    ..m
                },
                Some(MutationAction::Logout),
            ),
            StepOutcome::Succeeded => match m.op {
                MutationOp::MoveTo { uid, target: _ } => (
                    MutationMachine { stage: MutationStage::Storing, ..m },
                    Some(MutationAction::StoreDeleted { uid }),
                ),
                _ => (MutationMachine { stage: MutationStage::LoggingOut, ..m }, Some(
                    MutationAction::Logout,
                )),
            },
        },
        MutationStage::Storing => match o {
            StepOutcome::Failed(d) => (
                MutationMachine {
                    stage: MutationStage::LoggingOut,
                    failure: Some(MailError::MutationStepError(MutationStepKind::StoreStep, d)),
                    ..m
                },
                Some(MutationAction::Logout),
            ),
            StepOutcome::Succeeded => match m.op {
                MutationOp::Delete { uid: _ } => (
                    MutationMachine { stage: MutationStage::Expunging, ..m },
                    Some(MutationAction::Expunge),
                ),
                _ => (MutationMachine { stage: MutationStage::LoggingOut, ..m }, Some(
                    MutationAction::Logout,
                )),
            },
        },
        MutationStage::Expunging => match o {
            StepOutcome::Failed(d) => (
                MutationMachine {
                    stage: MutationStage::LoggingOut,
                    failure: Some(MailError::MutationStepError(MutationStepKind::ExpungeStep, d)),
                    ..m
                },
                Some(MutationAction::Logout),
            ),
            StepOutcome::Succeeded => (
                MutationMachine { stage: MutationStage::LoggingOut, ..m },
                Some(MutationAction::Logout),
            ),
        },
        MutationStage::LoggingOut => (MutationMachine { stage: MutationStage::Finished, ..m }, None),
        MutationStage::Finished => (m, None),
    }
}

/// Advances the mutation sequence by one reported step outcome.
pub fn mutation_step(m: MutationMachine, outcome: StepOutcome) -> (r: (
    MutationMachine,
    Option<MutationAction>,
))
    ensures
        r == spec_mutation_step(m, outcome),
{
    match m.stage {
        MutationStage::Selecting => match outcome {
            StepOutcome::Failed(d) => (
                MutationMachine {
                    stage: MutationStage::LoggingOut,
                    failure: Some(MailError::FolderSelectError(d)),
                    ..m
                },
                Some(MutationAction::Logout),
            ),
            StepOutcome::Succeeded => match &m.op {
                MutationOp::SetRead { uid, read } => {
                    let action = MutationAction::StoreSeen { uid: *uid, read: *read };
                    (MutationMachine { stage: MutationStage::Storing, ..m }, Some(action))
                },
                MutationOp::MoveTo { uid, target } => {
                    let action = MutationAction::CopyTo { uid: *uid, target: target.clone() };
                    (MutationMachine { stage: MutationStage::Copying, ..m }, Some(action))
                },
                MutationOp::Delete { uid } => {
                    let action = MutationAction::StoreDeleted { uid: *uid };
                    (MutationMachine { stage: MutationStage::Storing, ..m }, Some(action))
                },
            },
        },
        MutationStage::Copying => match outcome {
            StepOutcome::Failed(d) => (
                MutationMachine {
                    stage: MutationStage::LoggingOut,
                    failure: Some(MailError::MutationStepError(MutationStepKind::CopyStep, d)),
                    ..m
                },
                Some(MutationAction::Logout),
            ),
            StepOutcome::Succeeded => match &m.op {
                MutationOp::MoveTo { uid, target: _ } => {
                    let action = MutationAction::StoreDeleted { uid: *uid };
                    (MutationMachine { stage: MutationStage::Storing, ..m }, Some(action))
                },
                _ => (MutationMachine { stage: MutationStage::LoggingOut, ..m }, Some(
                    MutationAction::Logout,
                )),
            },
        },
        MutationStage::Storing => match outcome {
            StepOutcome::Failed(d) => (
                MutationMachine {
                    stage: MutationStage::LoggingOut,
                    failure: Some(MailError::MutationStepError(MutationStepKind::StoreStep, d)),
                    ..m
                },
                Some(MutationAction::Logout),
            ),
            StepOutcome::Succeeded => match &m.op {
                MutationOp::Delete { uid: _ } => (
                    MutationMachine { stage: MutationStage::Expunging, ..m },
                    Some(MutationAction::Expunge),
                ),
                _ => (MutationMachine { stage: MutationStage::LoggingOut, ..m }, Some(
                    MutationAction::Logout,
                )),
            },
        },
        MutationStage::Expunging => match outcome {
            StepOutcome::Failed(d) => (
                MutationMachine {
                    stage: MutationStage::LoggingOut,
                    failure: Some(MailError::MutationStepError(MutationStepKind::ExpungeStep, d)),
                    ..m
                },
                Some(MutationAction::Logout),
            ),
            StepOutcome::Succeeded => (
                MutationMachine { stage: MutationStage::LoggingOut, ..m },
                Some(MutationAction::Logout),
            ),
        },
        MutationStage::LoggingOut => (
            MutationMachine { stage: MutationStage::Finished, ..m },
            None,
        ),
        MutationStage::Finished => (m, None),
    }
}

/// The mutation's result once the sequence is over: success exactly when no
/// step recorded a failure.
pub fn mutation_result(m: MutationMachine) -> (r: Result<(), MailError>)
    requires
        m.stage == MutationStage::Finished,
    ensures
        m.failure is None <==> r is Ok,
        m.failure matches Some(e) ==> r == Result::<(), MailError>::Err(e),
{
    match m.failure {
        None => Ok(()),
        Some(e) => Err(e),
    }
}

/// Every action that the machine can still request after `m`, for the given
/// future step outcomes, in order.
pub open spec fn spec_run_actions(m: MutationMachine, outs: Seq<StepOutcome>) -> Seq<MutationAction>
    decreases outs.len(),
{
    if outs.len() == 0 {
        Seq::empty()
    } else {
        let step = spec_mutation_step(m, outs[0]);
        let rest = spec_run_actions(step.0, outs.drop_first());
        match step.1 {
            Some(a) => Seq::empty().push(a) + rest,
            None => rest,
        }
    }
}

/// Once the machine is logging out (or finished), the only action it can
/// ever request again is the logout handshake itself: no store, copy or
/// expunge follows on any path.
pub proof fn lemma_winding_down_requests_nothing(m: MutationMachine, outs: Seq<StepOutcome>)
    requires
        m.stage == MutationStage::LoggingOut || m.stage == MutationStage::Finished,
    ensures
        spec_run_actions(m, outs).len() == 0,
    decreases outs.len(),
{
    if outs.len() > 0 {
        let step = spec_mutation_step(m, outs[0]);
        lemma_winding_down_requests_nothing(step.0, outs.drop_first());
    }
}

/// If the copy step of a move fails, no delete-flag mutation is attempted:
/// the immediate next action is the logout, the failure records the copy
/// step, and no later step of the same sequence can request a store or an
/// expunge — the source message stays intact.
pub proof fn lemma_move_copy_failure_blocks_delete_flag(
    m: MutationMachine,
    d: String,
    outs: Seq<StepOutcome>,
)
    requires
        m.op is MoveTo,
        m.stage == MutationStage::Copying,
    ensures
        ({
            let step = spec_mutation_step(m, StepOutcome::Failed(d));
            &&& step.1 == Some(MutationAction::Logout)
            &&& step.0.stage == MutationStage::LoggingOut
            &&& step.0.failure == Some(
                MailError::MutationStepError(MutationStepKind::CopyStep, d),
            )
            &&& forall|i: int|
                0 <= i < spec_run_actions(step.0, outs).len() ==> !(#[trigger] spec_run_actions(
                    step.0,
                    outs,
                )[i] matches MutationAction::StoreDeleted { .. })
        }),
{
    let step = spec_mutation_step(m, StepOutcome::Failed(d));
    lemma_winding_down_requests_nothing(step.0, outs);
}

/// If the mark-deleted step of a delete fails, expunge is never invoked: the
/// immediate next action is the logout, the failure records the store step,
/// and no later step of the same sequence can request an expunge.
pub proof fn lemma_delete_store_failure_blocks_expunge(
    m: MutationMachine,
    d: String,
    outs: Seq<StepOutcome>,
)
    requires
        m.op is Delete,
        m.stage == MutationStage::Storing,
    ensures
        ({
            let step = spec_mutation_step(m, StepOutcome::Failed(d));
            &&& step.1 == Some(MutationAction::Logout)
            &&& step.0.stage == MutationStage::LoggingOut
            &&& step.0.failure == Some(
                MailError::MutationStepError(MutationStepKind::StoreStep, d),
            )
            &&& forall|i: int|
                0 <= i < spec_run_actions(step.0, outs).len() ==> !(#[trigger] spec_run_actions(
                    step.0,
                    outs,
                )[i] matches MutationAction::Expunge)
        }),
{
    let step = spec_mutation_step(m, StepOutcome::Failed(d));
    lemma_winding_down_requests_nothing(step.0, outs);
}

/// Stages agree with the operation: the copy stage occurs only during a
/// move, the expunge stage only during a delete — so the preconditions of
/// the two failure lemmas above describe every reachable machine.
pub open spec fn machine_wf(m: MutationMachine) -> bool {
    &&& (m.stage is Copying ==> m.op is MoveTo)
    &&& (m.stage is Expunging ==> m.op is Delete)
}

/// A started machine is well-formed, and every step keeps it so.
pub proof fn lemma_step_preserves_wf(m: MutationMachine, o: StepOutcome)
    requires
        machine_wf(m),
    ensures
        machine_wf(spec_mutation_step(m, o).0),
{
}

} // verus!
