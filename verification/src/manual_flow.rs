//! The commands by which a party takes a single step of settlement by hand.

use vstd::prelude::*;

use crate::error::SwapError;
use crate::flow::{Action, Next, Reply, SubFlow};
use crate::progress_flow::{next_unless_done, unless_done};
use crate::role::{SwapRole, SwapStatus};
use crate::state::{StateView, StoredBtcArkSwap};

verus! {

/// A step of settlement that is taken by hand.
#[derive(Clone, Copy, Debug, PartialEq, Eq, Structural)]
pub enum ManualStep {
    /// The Ark payer reads the funding message, and claims the BTC.
    FinalizeClaim,
    /// The BTC payer completes the Ark transfer with the secret of a visible claim.
    CompleteArk,
    RefundBtc,
    AbortArk,
}

/// Where such a step is.
#[derive(Clone, Copy, Debug, PartialEq, Eq, Structural)]
pub enum ManualPhase {
    Begin,
    Received,
    Observed,
    Ran,
}

/// What such a step does next.
pub open spec fn manual_next(
    step: ManualStep,
    phase: ManualPhase,
    reply: Reply,
    state: StateView,
    next: Result<(ManualPhase, Action), SwapError>,
) -> bool {
    match (phase, reply) {
        (ManualPhase::Begin, Reply::Done) => next == Ok::<(ManualPhase, Action), SwapError>(
            match step {
                ManualStep::FinalizeClaim => (ManualPhase::Received, Action::Run(SubFlow::ReceiveFunding)),
                ManualStep::CompleteArk => (ManualPhase::Observed, Action::Run(SubFlow::ObserveClaim)),
                ManualStep::RefundBtc => (ManualPhase::Ran, Action::Run(SubFlow::RefundBtc)),
                ManualStep::AbortArk => (ManualPhase::Ran, Action::Run(SubFlow::AbortArk)),
            },
        ),
        (ManualPhase::Received, Reply::Answer(_)) => next == Ok::<(ManualPhase, Action), SwapError>(
            (ManualPhase::Ran, Action::Run(SubFlow::ClaimBtc)),
        ),
        (ManualPhase::Observed, Reply::Answer(visible)) => if visible {
            next == Ok::<(ManualPhase, Action), SwapError>((ManualPhase::Ran, Action::Run(SubFlow::CompleteArk)))
        } else {
            next == Err::<(ManualPhase, Action), SwapError>(SwapError::ClaimNotVisible)
        },
        (ManualPhase::Ran, Reply::Done) => next == Ok::<(ManualPhase, Action), SwapError>(
            (ManualPhase::Ran, Action::Finish(unless_done(state, Next::Progress))),
        ),
        _ => next == Err::<(ManualPhase, Action), SwapError>(SwapError::UnexpectedReply),
    }
}

/// One step of a command that is given by hand. It changes nothing itself; the flows that it runs do.
pub fn manual_step(step: ManualStep, phase: ManualPhase, reply: Reply, state: &StoredBtcArkSwap) -> (next: Result<
    (ManualPhase, Action),
    SwapError,
>)
    ensures
        manual_next(step, phase, reply, state@, next),
{
    match (phase, reply) {
        (ManualPhase::Begin, Reply::Done) => Ok(
            match step {
                ManualStep::FinalizeClaim => (ManualPhase::Received, Action::Run(SubFlow::ReceiveFunding)),
                ManualStep::CompleteArk => (ManualPhase::Observed, Action::Run(SubFlow::ObserveClaim)),
                ManualStep::RefundBtc => (ManualPhase::Ran, Action::Run(SubFlow::RefundBtc)),
                ManualStep::AbortArk => (ManualPhase::Ran, Action::Run(SubFlow::AbortArk)),
            },
        ),
        (ManualPhase::Received, Reply::Answer(_)) => Ok((ManualPhase::Ran, Action::Run(SubFlow::ClaimBtc))),
        (ManualPhase::Observed, Reply::Answer(true)) => Ok((ManualPhase::Ran, Action::Run(SubFlow::CompleteArk))),
        (ManualPhase::Observed, Reply::Answer(false)) => Err(SwapError::ClaimNotVisible),
        (ManualPhase::Ran, Reply::Done) => Ok(
            (ManualPhase::Ran, Action::Finish(next_unless_done(state, Next::Progress))),
        ),
        _ => Err(SwapError::UnexpectedReply),
    }
}

/// A command by hand runs the flow that it is named after, once the flow that it needs has answered: the
/// claim after the funding message was looked for, the completion only of a visible claim. It then
/// tells whether the swap is done.
pub proof fn law_command_runs_its_flow(
    step: ManualStep,
    phase: ManualPhase,
    reply: Reply,
    state: StateView,
    next: Result<(ManualPhase, Action), SwapError>,
)
    requires
        manual_next(step, phase, reply, state, next),
    ensures
        phase is Begin && reply is Done ==> match step {
            ManualStep::FinalizeClaim => next matches Ok((ManualPhase::Received, Action::Run(SubFlow::ReceiveFunding))),
            ManualStep::CompleteArk => next matches Ok((ManualPhase::Observed, Action::Run(SubFlow::ObserveClaim))),
            ManualStep::RefundBtc => next matches Ok((ManualPhase::Ran, Action::Run(SubFlow::RefundBtc))),
            ManualStep::AbortArk => next matches Ok((ManualPhase::Ran, Action::Run(SubFlow::AbortArk))),
        },
        phase is Received && reply is Answer ==> (next matches Ok((ManualPhase::Ran, Action::Run(SubFlow::ClaimBtc)))),
        phase is Observed ==> match reply {
            Reply::Answer(true) => next matches Ok((ManualPhase::Ran, Action::Run(SubFlow::CompleteArk))),
            _ => next is Err,
        },
        phase is Ran && reply is Done ==> {
            let settled = state.status == SwapStatus::BtcClaimed || state.status == SwapStatus::ArkCompleted
                || state.status == SwapStatus::Refunded || state.status == SwapStatus::ArkReclaimed || (state.status
                == SwapStatus::Cancelled && state.role == SwapRole::BtcPayer);
            next matches Ok((_, Action::Finish(told))) && told == (if settled {
                Next::Done
            } else {
                Next::Progress
            })
        },
{
}

/// The flow of a command takes no reply but one to what it asked for.
pub proof fn law_command_takes_its_replies_alone(
    step: ManualStep,
    phase: ManualPhase,
    reply: Reply,
    state: StateView,
    next: Result<(ManualPhase, Action), SwapError>,
)
    requires
        manual_next(step, phase, reply, state, next),
    ensures
        next is Ok ==> match phase {
            ManualPhase::Begin | ManualPhase::Ran => reply is Done,
            ManualPhase::Received | ManualPhase::Observed => reply is Answer,
        },
{
}

} // verus!
