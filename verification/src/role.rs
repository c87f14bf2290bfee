//! Who takes part in a swap, and how far it has come.

use vstd::prelude::*;

verus! {

/// The side of a swap that a wallet takes.
#[derive(Clone, Copy, Debug, PartialEq, Eq, Structural, Hash)]
pub enum SwapRole {
    /// Pays on-chain BTC and receives Ark VTXOs.
    BtcPayer,
    /// Pays Ark VTXOs and receives on-chain BTC.
    ArkPayer,
}

/// How far a swap has come.
#[derive(Clone, Copy, Debug, PartialEq, Eq, Structural, Hash)]
pub enum SwapStatus {
    Requested,
    Offered,
    BtcClaimReady,
    BtcClaimed,
    ArkCompleted,
    Refunded,
    Cancelled,
    ArkRecovering,
    ArkReclaimed,
}

/// The role that a user names when asking for progress.
#[derive(Clone, Copy, Debug, PartialEq, Eq, Structural, Hash)]
pub enum ProgressRole {
    BtcPayer,
    ArkPayer,
}

impl From<ProgressRole> for SwapRole {
    fn from(role: ProgressRole) -> (found: SwapRole) {
        match role {
            ProgressRole::BtcPayer => SwapRole::BtcPayer,
            ProgressRole::ArkPayer => SwapRole::ArkPayer,
        }
    }
}

impl vstd::std_specs::convert::FromSpecImpl<ProgressRole> for SwapRole {
    open spec fn obeys_from_spec() -> bool {
        true
    }

    open spec fn from_spec(role: ProgressRole) -> SwapRole {
        match role {
            ProgressRole::BtcPayer => SwapRole::BtcPayer,
            ProgressRole::ArkPayer => SwapRole::ArkPayer,
        }
    }
}

/// The part of a state file's name that tells the role.
pub open spec fn role_slug_text(role: SwapRole) -> Seq<char> {
    match role {
        SwapRole::BtcPayer => "btc-payer"@,
        SwapRole::ArkPayer => "ark-payer"@,
    }
}

/// The part of a state file's name that tells the role.
pub fn role_slug(role: SwapRole) -> (slug: &'static str)
    ensures
        slug@ == role_slug_text(role),
{
    match role {
        SwapRole::BtcPayer => "btc-payer",
        SwapRole::ArkPayer => "ark-payer",
    }
}

/// Whether nothing is left to do for a swap of this role with this status.
///
/// The Ark payer's cancellation only starts the recovery of the Ark inputs.
pub open spec fn terminal(role: SwapRole, status: SwapStatus) -> bool {
    ||| status == SwapStatus::BtcClaimed
    ||| status == SwapStatus::ArkCompleted
    ||| status == SwapStatus::Refunded
    ||| status == SwapStatus::ArkReclaimed
    ||| (role == SwapRole::BtcPayer && status == SwapStatus::Cancelled)
}

/// Whether nothing is left to do for a swap of this role with this status.
pub fn is_terminal_status(role: SwapRole, status: SwapStatus) -> (done: bool)
    ensures
        done == terminal(role, status),
{
    matches!(
        status,
        SwapStatus::BtcClaimed | SwapStatus::ArkCompleted | SwapStatus::Refunded | SwapStatus::ArkReclaimed
    ) || (role == SwapRole::BtcPayer && status == SwapStatus::Cancelled)
}

/// Nothing is left to do exactly where a party has its money: the Ark payer the claimed BTC, the BTC
/// payer the Ark or the refund, either one what it took back on-chain, or where the BTC payer's
/// funding can no longer confirm.
pub proof fn law_settled_statuses(role: SwapRole, status: SwapStatus)
    ensures
        terminal(role, status) == match status {
            SwapStatus::Requested => false,
            SwapStatus::Offered => false,
            SwapStatus::BtcClaimReady => false,
            SwapStatus::BtcClaimed => true,
            SwapStatus::ArkCompleted => true,
            SwapStatus::Refunded => true,
            SwapStatus::Cancelled => role == SwapRole::BtcPayer,
            SwapStatus::ArkRecovering => false,
            SwapStatus::ArkReclaimed => true,
        },
{
}

} // verus!
