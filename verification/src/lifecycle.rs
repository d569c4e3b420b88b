//! The settlement request lifecycle as mathematical functions: what every
//! contract call decides, given the state it reads.
use vstd::prelude::*;

use crate::errors::SettlementError;
use crate::events::{
    AdminUpdateEvent, ManagerUpdateEvent, RequestEvent, SettlementAcceptanceEvent,
    SettlementCancellationEvent, SettlementClaimAssetEvent, SettlementConfirmationEvent,
    SettlementCreationEvent, SettlementDepositEvent, SettlementDisputeEvent,
    SettlementDisputeResolutionEvent, SettlementFiatEvent, SettlementQuoteEvent,
    SettlementRefundAssetEvent,
};
use crate::types::{
    Account, ConfirmationType, Digest, DisputeResolution, FundingStatus, RequestSettlers,
    RequestStatus, SettlementRequest, SettlementRoute, SettlementType, SettlerAssignment,
    SettlerType,
};
use crate::utils::{active_for_dispute, is_expired};
use crate::validation::route_check;

verus! {

/// The contract's instance state: its authorities, the escrowed asset and the
/// next request id.
#[derive(Clone, Copy, Debug, PartialEq, Eq)]
pub struct ProtocolConfig {
    pub admin: Account,
    pub manager: Account,
    pub settlement_asset: Account,
    pub next_id: u64,
}

/// A token transfer of the settlement asset into or out of the contract's escrow.
#[derive(Clone, Copy, Debug, PartialEq, Eq)]
pub enum EscrowMovement {
    Deposit { from: Account, amount: i128 },
    Payout { to: Account, amount: i128 },
}

/// What an accepted call on a stored request does: the request to store back,
/// the transfer to make, and the event to publish.
#[derive(Clone, Copy, Debug, PartialEq, Eq)]
pub struct Transition {
    pub request: SettlementRequest,
    pub movement: Option<EscrowMovement>,
    pub event: RequestEvent,
}

/// A request-level call of the contract with its arguments.
pub enum RequestAction {
    SetQuote { source_amount: Option<i128>, settler_amount: i128, quote_hash: Digest },
    Accept { settler_type: SettlerType, settler: Account },
    Deposit { depositor: Account },
    Confirm { confirmation_type: ConfirmationType, evidence_hash: Digest },
    Claim { claimant: Account },
    Refund,
    Dispute { caller: Account, evidence_hash: Digest },
    Resolve { resolution: DisputeResolution },
    Cancel { caller: Account },
}

/// The contract calls that change state, with the account named in the call
/// where the call's own argument is the one who must sign.
#[derive(Clone, Copy, Debug, PartialEq, Eq)]
pub enum EntryPoint {
    Upgrade,
    UpdateAdmin,
    UpdateManager,
    CreateSettlementRequest { creator: Account },
    SetSettlementQuote,
    ConfirmSettlement,
    AcceptSettlement { settler: Account },
    DepositSettlementAsset { depositor: Account },
    ClaimSettlementAsset { claimant: Account },
    RefundSettler,
    Dispute { caller: Account },
    Resolve,
    Cancel { caller: Account },
}

/// Who must authorize each call.
pub open spec fn signer_of(config: ProtocolConfig, entry: EntryPoint) -> Account {
    match entry {
        EntryPoint::Upgrade => config.admin,
        EntryPoint::UpdateAdmin => config.admin,
        EntryPoint::UpdateManager => config.admin,
        EntryPoint::CreateSettlementRequest { creator } => creator,
        EntryPoint::SetSettlementQuote => config.manager,
        EntryPoint::ConfirmSettlement => config.manager,
        EntryPoint::AcceptSettlement { settler } => settler,
        EntryPoint::DepositSettlementAsset { depositor } => depositor,
        EntryPoint::ClaimSettlementAsset { claimant } => claimant,
        EntryPoint::RefundSettler => config.manager,
        EntryPoint::Dispute { caller } => caller,
        EntryPoint::Resolve => config.manager,
        EntryPoint::Cancel { caller } => caller,
    }
}

pub open spec fn initial_config(admin: Account, manager: Account, settlement_asset: Account) -> ProtocolConfig {
    ProtocolConfig { admin, manager, settlement_asset, next_id: 1 }
}

pub open spec fn constructor_outcome(
    has_admin: bool,
    admin: Account,
    manager: Account,
    settlement_asset: Account,
) -> Result<ProtocolConfig, SettlementError> {
    if has_admin {
        Err(SettlementError::AlreadyInitialized)
    } else {
        Ok(initial_config(admin, manager, settlement_asset))
    }
}

pub open spec fn admin_update(config: ProtocolConfig, new_admin: Account) -> (ProtocolConfig, AdminUpdateEvent) {
    (
        ProtocolConfig { admin: new_admin, ..config },
        AdminUpdateEvent { admin: config.admin, new_admin },
    )
}

pub open spec fn manager_update(config: ProtocolConfig, new_manager: Account) -> (ProtocolConfig, ManagerUpdateEvent) {
    (
        ProtocolConfig { manager: new_manager, ..config },
        ManagerUpdateEvent { admin: config.admin, manager: new_manager },
    )
}

/// A freshly created request: awaiting its quote, with no settler and no evidence.
pub open spec fn new_request(
    id: u64,
    ledger: u32,
    creator: Account,
    sender_ref: Digest,
    recipient_ref: Digest,
    route: SettlementRoute,
    settlement_type: SettlementType,
    destination_amount: i128,
    deadline_ledger: u32,
) -> SettlementRequest {
    SettlementRequest {
        id,
        creator,
        sender_ref,
        recipient_ref,
        route,
        settlement_type,
        source_amount: None,
        destination_amount,
        settler_amount: None,
        funding_status: FundingStatus::PendingQuote,
        status: RequestStatus::Created,
        created_ledger: ledger,
        deadline_ledger,
        settlers: RequestSettlers { source: None, destination: None },
        quote_evidence_hash: None,
        fiat_evidence_hash: None,
        settlement_evidence_hash: None,
    }
}

/// The configuration after a successful creation: the id counter has advanced.
pub open spec fn config_after_creation(config: ProtocolConfig) -> ProtocolConfig {
    ProtocolConfig { next_id: (config.next_id + 1) as u64, ..config }
}

/// The outcome of creating a request: its id, the request and the creation event.
pub open spec fn creation_outcome(
    config: ProtocolConfig,
    ledger: u32,
    creator: Account,
    sender_ref: Digest,
    recipient_ref: Digest,
    route: SettlementRoute,
    settlement_type: SettlementType,
    destination_amount: i128,
    deadline_ledger: u32,
) -> Result<(u64, SettlementRequest, SettlementCreationEvent), SettlementError> {
    if destination_amount <= 0 {
        Err(SettlementError::InvalidAmount)
    } else if deadline_ledger <= ledger {
        Err(SettlementError::BadDeadline)
    } else if route_check(settlement_type, route) is Err {
        Err(route_check(settlement_type, route)->Err_0)
    } else if config.next_id == u64::MAX {
        Err(SettlementError::IdOverflow)
    } else {
        let id = config.next_id;
        Ok(
            (
                id,
                new_request(
                    id,
                    ledger,
                    creator,
                    sender_ref,
                    recipient_ref,
                    route,
                    settlement_type,
                    destination_amount,
                    deadline_ledger,
                ),
                SettlementCreationEvent { id, sender_ref, recipient_ref, destination_amount },
            ),
        )
    }
}

pub open spec fn quote_outcome(
    ledger: u32,
    stored: Option<SettlementRequest>,
    id: u64,
    source_amount: Option<i128>,
    settler_amount: i128,
    quote_hash: Digest,
) -> Result<Transition, SettlementError> {
    if settler_amount <= 0 {
        Err(SettlementError::InvalidAmount)
    } else {
        match stored {
            None => Err(SettlementError::RequestNotFound),
            Some(r) => if r.status != RequestStatus::Created {
                Err(SettlementError::InvalidRequestStatus)
            } else if is_expired(ledger, r) {
                Err(SettlementError::SettlementExpired)
            } else if r.funding_status != FundingStatus::PendingQuote {
                Err(SettlementError::BadFundingStatus)
            } else if r.settlement_type == SettlementType::CryptoToFiat && source_amount is Some {
                Err(SettlementError::InvalidAmount)
            } else if r.settlement_type != SettlementType::CryptoToFiat && source_amount is None {
                Err(SettlementError::SourceAmountMissing)
            } else if r.settlement_type != SettlementType::CryptoToFiat && source_amount->Some_0
                <= 0 {
                Err(SettlementError::InvalidAmount)
            } else {
                Ok(
                    Transition {
                        request: SettlementRequest {
                            source_amount,
                            settler_amount: Some(settler_amount),
                            quote_evidence_hash: Some(quote_hash),
                            funding_status: FundingStatus::QuoteSet,
                            ..r
                        },
                        movement: None,
                        event: RequestEvent::Quote(
                            SettlementQuoteEvent { id, source_amount, settler_amount, quote_hash },
                        ),
                    },
                )
            },
        }
    }
}

pub open spec fn acceptance_outcome(
    ledger: u32,
    stored: Option<SettlementRequest>,
    id: u64,
    settler_type: SettlerType,
    settler: Account,
) -> Result<Transition, SettlementError> {
    match stored {
        None => Err(SettlementError::RequestNotFound),
        Some(r) => if is_expired(ledger, r) {
            Err(SettlementError::SettlementExpired)
        } else {
            let event = RequestEvent::Acceptance(
                SettlementAcceptanceEvent { id, settler_type, settler },
            );
            match settler_type {
                SettlerType::Source => if r.settlement_type == SettlementType::CryptoToFiat {
                    Err(SettlementError::SourceSettlerNotNeeded)
                } else if r.status != RequestStatus::Created {
                    Err(SettlementError::InvalidRequestStatus)
                } else if r.funding_status != FundingStatus::QuoteSet {
                    Err(SettlementError::QuoteNotSet)
                } else if r.settlers.source is Some {
                    Err(SettlementError::AlreadyProcessed)
                } else if r.source_amount is None {
                    Err(SettlementError::SourceAmountMissing)
                } else if r.settler_amount is None {
                    Err(SettlementError::SettlerAmountMissing)
                } else if r.source_amount->Some_0 <= 0 || r.settler_amount->Some_0 <= 0 {
                    Err(SettlementError::InvalidAmount)
                } else {
                    let assignment = SettlerAssignment {
                        settler,
                        fiat_amount: r.source_amount->Some_0,
                        settlement_asset_amount: r.settler_amount->Some_0,
                        confirmed: false,
                        proof_hash: None,
                    };
                    Ok(
                        Transition {
                            request: SettlementRequest {
                                settlers: RequestSettlers {
                                    source: Some(assignment),
                                    ..r.settlers
                                },
                                status: RequestStatus::SourceAccepted,
                                ..r
                            },
                            movement: None,
                            event,
                        },
                    )
                },
                SettlerType::Destination => if r.settlement_type == SettlementType::FiatToCrypto {
                    Err(SettlementError::DestinationSettlerNotNeeded)
                } else if r.settlement_type == SettlementType::CryptoToFiat && r.status
                    != RequestStatus::SettlementFunded {
                    Err(SettlementError::InvalidRequestStatus)
                } else if r.settlement_type == SettlementType::FiatToFiat && r.status
                    != RequestStatus::SourceSettlementConfirmed {
                    Err(SettlementError::InvalidRequestStatus)
                } else if r.funding_status != FundingStatus::Ready {
                    Err(SettlementError::SettlementAssetNotDeposited)
                } else if r.settlers.destination is Some {
                    Err(SettlementError::AlreadyProcessed)
                } else if r.settler_amount is None {
                    Err(SettlementError::SettlerAmountMissing)
                } else if r.destination_amount <= 0 || r.settler_amount->Some_0 <= 0 {
                    Err(SettlementError::InvalidAmount)
                } else {
                    let assignment = SettlerAssignment {
                        settler,
                        fiat_amount: r.destination_amount,
                        settlement_asset_amount: r.settler_amount->Some_0,
                        confirmed: false,
                        proof_hash: None,
                    };
                    Ok(
                        Transition {
                            request: SettlementRequest {
                                settlers: RequestSettlers {
                                    destination: Some(assignment),
                                    ..r.settlers
                                },
                                status: RequestStatus::SettlementInProgress,
                                ..r
                            },
                            movement: None,
                            event,
                        },
                    )
                },
            }
        },
    }
}

pub open spec fn deposit_outcome(
    config: ProtocolConfig,
    ledger: u32,
    stored: Option<SettlementRequest>,
    id: u64,
    depositor: Account,
) -> Result<Transition, SettlementError> {
    match stored {
        None => Err(SettlementError::RequestNotFound),
        Some(r) => if is_expired(ledger, r) {
            Err(SettlementError::SettlementExpired)
        } else if r.settler_amount is None {
            Err(SettlementError::SettlerAmountMissing)
        } else if r.settler_amount->Some_0 <= 0 {
            Err(SettlementError::InvalidAmount)
        } else {
            let amount = r.settler_amount->Some_0;
            let funded = |settlers: RequestSettlers|
                Transition {
                    request: SettlementRequest {
                        settlers,
                        funding_status: FundingStatus::Ready,
                        status: RequestStatus::SettlementFunded,
                        ..r
                    },
                    movement: Some(EscrowMovement::Deposit { from: depositor, amount }),
                    event: RequestEvent::Deposit(
                        SettlementDepositEvent {
                            id,
                            asset: config.settlement_asset,
                            amount,
                            depositor,
                        },
                    ),
                };
            if r.settlement_type == SettlementType::CryptoToFiat {
                if r.status != RequestStatus::Created {
                    Err(SettlementError::InvalidRequestStatus)
                } else if r.creator != depositor {
                    Err(SettlementError::NotAuthorized)
                } else if r.funding_status != FundingStatus::QuoteSet {
                    Err(SettlementError::QuoteNotSet)
                } else {
                    Ok(funded(r.settlers))
                }
            } else if r.status != RequestStatus::SourceAccepted {
                Err(SettlementError::InvalidRequestStatus)
            } else if r.funding_status != FundingStatus::QuoteSet {
                Err(SettlementError::QuoteNotSet)
            } else {
                match r.settlers.source {
                    None => Err(SettlementError::SourceSettlerMissing),
                    Some(source) => if source.settler != depositor {
                        Err(SettlementError::NotAuthorized)
                    } else if source.confirmed {
                        Err(SettlementError::AlreadyProcessed)
                    } else if source.settlement_asset_amount != amount {
                        Err(SettlementError::ConditionFailed)
                    } else {
                        Ok(
                            funded(
                                RequestSettlers {
                                    source: Some(SettlerAssignment { confirmed: true, ..source }),
                                    ..r.settlers
                                },
                            ),
                        )
                    },
                }
            }
        },
    }
}

pub open spec fn confirmation_outcome(
    ledger: u32,
    stored: Option<SettlementRequest>,
    id: u64,
    confirmation_type: ConfirmationType,
    evidence_hash: Digest,
) -> Result<Transition, SettlementError> {
    match stored {
        None => Err(SettlementError::RequestNotFound),
        Some(r) => if is_expired(ledger, r) {
            Err(SettlementError::SettlementExpired)
        } else {
            match confirmation_type {
                ConfirmationType::SourceSettlement => if r.settlement_type
                    == SettlementType::CryptoToFiat {
                    Err(SettlementError::FiatFundingNotRequired)
                } else if r.status != RequestStatus::SettlementFunded {
                    Err(SettlementError::InvalidRequestStatus)
                } else if r.funding_status != FundingStatus::Ready {
                    Err(SettlementError::SettlementAssetNotDeposited)
                } else if r.source_amount is None {
                    Err(SettlementError::SourceAmountMissing)
                } else if r.settlers.source is None {
                    Err(SettlementError::SourceSettlerMissing)
                } else if !r.settlers.source->Some_0.confirmed {
                    Err(SettlementError::SettlementAssetNotDeposited)
                } else if r.fiat_evidence_hash is Some {
                    Err(SettlementError::AlreadyProcessed)
                } else {
                    Ok(
                        Transition {
                            request: SettlementRequest {
                                fiat_evidence_hash: Some(evidence_hash),
                                status: if r.settlement_type == SettlementType::FiatToCrypto {
                                    RequestStatus::ReadyForClaim
                                } else {
                                    RequestStatus::SourceSettlementConfirmed
                                },
                                ..r
                            },
                            movement: None,
                            event: RequestEvent::Fiat(
                                SettlementFiatEvent {
                                    id,
                                    source_amount: r.source_amount->Some_0,
                                    fiat_evidence_hash: evidence_hash,
                                },
                            ),
                        },
                    )
                },
                ConfirmationType::DestinationSettlement => if r.settlement_type
                    == SettlementType::FiatToCrypto {
                    Err(SettlementError::DestinationSettlerNotNeeded)
                } else if r.status != RequestStatus::SettlementInProgress {
                    Err(SettlementError::InvalidRequestStatus)
                } else if r.funding_status != FundingStatus::Ready {
                    Err(SettlementError::SettlementAssetNotDeposited)
                } else {
                    match r.settlers.destination {
                        None => Err(SettlementError::DestinationSettlerMissing),
                        Some(d) => if d.confirmed {
                            Err(SettlementError::AlreadyProcessed)
                        } else {
                            Ok(
                                Transition {
                                    request: SettlementRequest {
                                        settlers: RequestSettlers {
                                            destination: Some(
                                                SettlerAssignment {
                                                    confirmed: true,
                                                    proof_hash: Some(evidence_hash),
                                                    ..d
                                                },
                                            ),
                                            ..r.settlers
                                        },
                                        status: RequestStatus::ReadyForClaim,
                                        settlement_evidence_hash: Some(evidence_hash),
                                        ..r
                                    },
                                    movement: None,
                                    event: RequestEvent::Confirmation(
                                        SettlementConfirmationEvent {
                                            id,
                                            proof_hash: evidence_hash,
                                            settler: d.settler,
                                        },
                                    ),
                                },
                            )
                        },
                    }
                },
            }
        },
    }
}

/// The request after a payout: its status, and the escrow payout with its event.
pub open spec fn paid_out(
    r: SettlementRequest,
    status: RequestStatus,
    to: Account,
    amount: i128,
    event: RequestEvent,
) -> Transition {
    Transition {
        request: SettlementRequest { status, ..r },
        movement: Some(EscrowMovement::Payout { to, amount }),
        event,
    }
}

pub open spec fn claim_outcome(
    config: ProtocolConfig,
    stored: Option<SettlementRequest>,
    id: u64,
    claimant: Account,
) -> Result<Transition, SettlementError> {
    match stored {
        None => Err(SettlementError::RequestNotFound),
        Some(r) => if r.status != RequestStatus::ReadyForClaim {
            Err(SettlementError::InvalidRequestStatus)
        } else if r.settler_amount is None {
            Err(SettlementError::SettlerAmountMissing)
        } else if r.settler_amount->Some_0 <= 0 {
            Err(SettlementError::InvalidAmount)
        } else {
            let deposited = r.settler_amount->Some_0;
            let claimed = |amount: i128|
                paid_out(
                    r,
                    RequestStatus::Completed,
                    claimant,
                    amount,
                    RequestEvent::ClaimAsset(
                        SettlementClaimAssetEvent {
                            id,
                            asset: config.settlement_asset,
                            amount,
                            claimant,
                        },
                    ),
                );
            if r.settlement_type == SettlementType::FiatToCrypto {
                if r.creator != claimant {
                    Err(SettlementError::NotAuthorized)
                } else if r.fiat_evidence_hash is None {
                    Err(SettlementError::ConditionFailed)
                } else {
                    Ok(claimed(deposited))
                }
            } else {
                match r.settlers.destination {
                    None => Err(SettlementError::DestinationSettlerMissing),
                    Some(d) => if d.settler != claimant {
                        Err(SettlementError::NotAuthorized)
                    } else if !d.confirmed {
                        Err(SettlementError::ConditionFailed)
                    } else if d.settlement_asset_amount <= 0 {
                        Err(SettlementError::InvalidAmount)
                    } else if d.settlement_asset_amount > deposited {
                        Err(SettlementError::PayoutExceedsDeposit)
                    } else {
                        Ok(claimed(d.settlement_asset_amount))
                    },
                }
            }
        },
    }
}

/// The error with which refunds and cancellations refuse a request in `status`,
/// if they refuse it for its status.
pub open spec fn closed_status_error(status: RequestStatus, cancelled: SettlementError) -> Option<
    SettlementError,
> {
    match status {
        RequestStatus::Completed => Some(SettlementError::InvalidRequestStatus),
        RequestStatus::Refunded => Some(SettlementError::InvalidRequestStatus),
        RequestStatus::Cancelled => Some(cancelled),
        RequestStatus::Disputed => Some(SettlementError::RequestDisputed),
        RequestStatus::ReadyForClaim => Some(SettlementError::ReadyForClaim),
        _ => None,
    }
}

pub open spec fn refund_outcome(config: ProtocolConfig, stored: Option<SettlementRequest>, id: u64) -> Result<
    Transition,
    SettlementError,
> {
    match stored {
        None => Err(SettlementError::RequestNotFound),
        Some(r) => if closed_status_error(r.status, SettlementError::RequestCancelled) is Some {
            Err(closed_status_error(r.status, SettlementError::RequestCancelled)->Some_0)
        } else if r.funding_status != FundingStatus::Ready {
            Err(SettlementError::SettlementAssetNotDeposited)
        } else if r.settler_amount is None {
            Err(SettlementError::SettlerAmountMissing)
        } else if r.settler_amount->Some_0 <= 0 {
            Err(SettlementError::InvalidAmount)
        } else {
            let amount = r.settler_amount->Some_0;
            let refunded = |recipient: Account|
                paid_out(
                    r,
                    RequestStatus::Refunded,
                    recipient,
                    amount,
                    RequestEvent::RefundAsset(
                        SettlementRefundAssetEvent {
                            id,
                            asset: config.settlement_asset,
                            amount,
                            recipient,
                        },
                    ),
                );
            if r.settlement_type == SettlementType::CryptoToFiat {
                Ok(refunded(r.creator))
            } else {
                match r.settlers.source {
                    None => Err(SettlementError::SourceSettlerMissing),
                    Some(s) => if !s.confirmed {
                        Err(SettlementError::ConditionFailed)
                    } else {
                        Ok(refunded(s.settler))
                    },
                }
            }
        },
    }
}

/// The parties of a request: its creator and its assigned settlers.
pub open spec fn is_party(r: SettlementRequest, who: Account) -> bool {
    ||| who == r.creator
    ||| (r.settlers.source matches Some(s) && s.settler == who)
    ||| (r.settlers.destination matches Some(d) && d.settler == who)
}

pub open spec fn dispute_outcome(
    config: ProtocolConfig,
    stored: Option<SettlementRequest>,
    id: u64,
    caller: Account,
    evidence_hash: Digest,
) -> Result<Transition, SettlementError> {
    match stored {
        None => Err(SettlementError::RequestNotFound),
        Some(r) => if !is_party(r, caller) && caller != config.manager {
            Err(SettlementError::NotAuthorized)
        } else if !active_for_dispute(r.status) {
            Err(SettlementError::InvalidRequestStatus)
        } else if r.funding_status != FundingStatus::Ready {
            Err(SettlementError::NothingToDispute)
        } else {
            Ok(
                Transition {
                    request: SettlementRequest {
                        status: RequestStatus::Disputed,
                        settlement_evidence_hash: Some(evidence_hash),
                        ..r
                    },
                    movement: None,
                    event: RequestEvent::Dispute(
                        SettlementDisputeEvent {
                            id,
                            caller,
                            dispute_evidence_hash: evidence_hash,
                        },
                    ),
                },
            )
        },
    }
}

pub open spec fn resolution_outcome(
    config: ProtocolConfig,
    stored: Option<SettlementRequest>,
    id: u64,
    resolution: DisputeResolution,
) -> Result<Transition, SettlementError> {
    match stored {
        None => Err(SettlementError::RequestNotFound),
        Some(r) => if r.status != RequestStatus::Disputed {
            Err(SettlementError::InvalidRequestStatus)
        } else if r.funding_status != FundingStatus::Ready {
            Err(SettlementError::SettlementAssetNotDeposited)
        } else if r.settler_amount is None {
            Err(SettlementError::SettlerAmountMissing)
        } else if r.settler_amount->Some_0 <= 0 {
            Err(SettlementError::InvalidAmount)
        } else {
            let deposited = r.settler_amount->Some_0;
            let status = match resolution {
                DisputeResolution::ReleaseToClaimant => RequestStatus::Completed,
                DisputeResolution::RefundDepositor => RequestStatus::Refunded,
            };
            let resolved = |recipient: Account, amount: i128|
                paid_out(
                    r,
                    status,
                    recipient,
                    amount,
                    RequestEvent::DisputeResolution(
                        SettlementDisputeResolutionEvent { id, resolution, recipient, amount },
                    ),
                );
            match resolution {
                DisputeResolution::ReleaseToClaimant => if r.settlement_type
                    == SettlementType::FiatToCrypto {
                    Ok(resolved(r.creator, deposited))
                } else {
                    match r.settlers.destination {
                        None => Err(SettlementError::DestinationSettlerMissing),
                        Some(d) => if d.settlement_asset_amount <= 0 {
                            Err(SettlementError::InvalidAmount)
                        } else if d.settlement_asset_amount > deposited {
                            Err(SettlementError::PayoutExceedsDeposit)
                        } else {
                            Ok(resolved(d.settler, d.settlement_asset_amount))
                        },
                    }
                },
                DisputeResolution::RefundDepositor => if r.settlement_type
                    == SettlementType::CryptoToFiat {
                    Ok(resolved(r.creator, deposited))
                } else {
                    match r.settlers.source {
                        None => Err(SettlementError::SourceSettlerMissing),
                        Some(s) => if !s.confirmed {
                            Err(SettlementError::ConditionFailed)
                        } else {
                            Ok(resolved(s.settler, deposited))
                        },
                    }
                },
            }
        },
    }
}

pub open spec fn cancel_outcome(
    config: ProtocolConfig,
    stored: Option<SettlementRequest>,
    id: u64,
    caller: Account,
) -> Result<Transition, SettlementError> {
    match stored {
        None => Err(SettlementError::RequestNotFound),
        Some(r) => if caller != r.creator && caller != config.manager {
            Err(SettlementError::NotAuthorized)
        } else if closed_status_error(r.status, SettlementError::InvalidRequestStatus) is Some {
            Err(closed_status_error(r.status, SettlementError::InvalidRequestStatus)->Some_0)
        } else if r.funding_status == FundingStatus::Ready {
            Err(SettlementError::AlreadyProcessed)
        } else {
            Ok(
                Transition {
                    request: SettlementRequest { status: RequestStatus::Cancelled, ..r },
                    movement: None,
                    event: RequestEvent::Cancellation(SettlementCancellationEvent { id, caller }),
                },
            )
        },
    }
}

/// What a request-level call decides, whichever call it is.
pub open spec fn step(
    config: ProtocolConfig,
    ledger: u32,
    stored: Option<SettlementRequest>,
    id: u64,
    action: RequestAction,
) -> Result<Transition, SettlementError> {
    match action {
        RequestAction::SetQuote { source_amount, settler_amount, quote_hash } => quote_outcome(
            ledger,
            stored,
            id,
            source_amount,
            settler_amount,
            quote_hash,
        ),
        RequestAction::Accept { settler_type, settler } => acceptance_outcome(
            ledger,
            stored,
            id,
            settler_type,
            settler,
        ),
        RequestAction::Deposit { depositor } => deposit_outcome(
            config,
            ledger,
            stored,
            id,
            depositor,
        ),
        RequestAction::Confirm { confirmation_type, evidence_hash } => confirmation_outcome(
            ledger,
            stored,
            id,
            confirmation_type,
            evidence_hash,
        ),
        RequestAction::Claim { claimant } => claim_outcome(config, stored, id, claimant),
        RequestAction::Refund => refund_outcome(config, stored, id),
        RequestAction::Dispute { caller, evidence_hash } => dispute_outcome(
            config,
            stored,
            id,
            caller,
            evidence_hash,
        ),
        RequestAction::Resolve { resolution } => resolution_outcome(config, stored, id, resolution),
        RequestAction::Cancel { caller } => cancel_outcome(config, stored, id, caller),
    }
}

} // verus!
