use vstd::prelude::*;

use crate::types::{Account, Digest, DisputeResolution, SettlerAssignment, SettlerType};

verus! {

#[derive(Clone, Copy, Debug, PartialEq, Eq)]
pub struct AdminUpdateEvent {
    pub admin: Account,
    pub new_admin: Account,
}

#[derive(Clone, Copy, Debug, PartialEq, Eq)]
pub struct ManagerUpdateEvent {
    pub admin: Account,
    pub manager: Account,
}

#[derive(Clone, Copy, Debug, PartialEq, Eq)]
pub struct SettlementCreationEvent {
    pub id: u64,
    pub sender_ref: Digest,
    pub recipient_ref: Digest,
    pub destination_amount: i128,
}

#[derive(Clone, Copy, Debug, PartialEq, Eq)]
pub struct SettlementQuoteEvent {
    pub id: u64,
    pub source_amount: Option<i128>,
    pub settler_amount: i128,
    pub quote_hash: Digest,
}

#[derive(Clone, Copy, Debug, PartialEq, Eq)]
pub struct SettlementFiatEvent {
    pub id: u64,
    pub source_amount: i128,
    pub fiat_evidence_hash: Digest,
}

#[derive(Clone, Copy, Debug, PartialEq, Eq)]
pub struct SettlerAssignmentEvent {
    pub id: u64,
    pub settler_type: SettlerType,
    pub assignment: SettlerAssignment,
}

#[derive(Clone, Copy, Debug, PartialEq, Eq)]
pub struct SettlementDepositEvent {
    pub id: u64,
    pub asset: Account,
    pub amount: i128,
    pub depositor: Account,
}

#[derive(Clone, Copy, Debug, PartialEq, Eq)]
pub struct SettlementAcceptanceEvent {
    pub id: u64,
    pub settler_type: SettlerType,
    pub settler: Account,
}

#[derive(Clone, Copy, Debug, PartialEq, Eq)]
pub struct SettlementConfirmationEvent {
    pub id: u64,
    pub proof_hash: Digest,
    pub settler: Account,
}

#[derive(Clone, Copy, Debug, PartialEq, Eq)]
pub struct SettlementClaimAssetEvent {
    pub id: u64,
    pub asset: Account,
    pub amount: i128,
    pub claimant: Account,
}

#[derive(Clone, Copy, Debug, PartialEq, Eq)]
pub struct SettlementRefundAssetEvent {
    pub id: u64,
    pub asset: Account,
    pub amount: i128,
    pub recipient: Account,
}

#[derive(Clone, Copy, Debug, PartialEq, Eq)]
pub struct SettlementDisputeEvent {
    pub id: u64,
    pub caller: Account,
    pub dispute_evidence_hash: Digest,
}

#[derive(Clone, Copy, Debug, PartialEq, Eq)]
pub struct SettlementDisputeResolutionEvent {
    pub id: u64,
    pub resolution: DisputeResolution,
    pub recipient: Account,
    pub amount: i128,
}

#[derive(Clone, Copy, Debug, PartialEq, Eq)]
pub struct SettlementCancellationEvent {
    pub id: u64,
    pub caller: Account,
}

/// The event that a state change of a stored request publishes.
#[derive(Clone, Copy, Debug, PartialEq, Eq)]
pub enum RequestEvent {
    Quote(SettlementQuoteEvent),
    Fiat(SettlementFiatEvent),
    Confirmation(SettlementConfirmationEvent),
    Acceptance(SettlementAcceptanceEvent),
    Deposit(SettlementDepositEvent),
    ClaimAsset(SettlementClaimAssetEvent),
    RefundAsset(SettlementRefundAssetEvent),
    Dispute(SettlementDisputeEvent),
    DisputeResolution(SettlementDisputeResolutionEvent),
    Cancellation(SettlementCancellationEvent),
}

} // verus!
