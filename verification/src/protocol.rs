//! The settlement contract's calls. Each call takes the state it reads (the
//! contract configuration, the ledger sequence, the stored request) and
//! returns what the contract writes, transfers and publishes.
use vstd::prelude::*;

use crate::errors::SettlementError;
use crate::events::{
    AdminUpdateEvent, ManagerUpdateEvent, RequestEvent, SettlementAcceptanceEvent,
    SettlementCancellationEvent, SettlementClaimAssetEvent, SettlementConfirmationEvent,
    SettlementCreationEvent, SettlementDepositEvent, SettlementDisputeEvent,
    SettlementDisputeResolutionEvent, SettlementFiatEvent, SettlementQuoteEvent,
    SettlementRefundAssetEvent,
};
use crate::lifecycle::{
    acceptance_outcome, admin_update, config_after_creation, cancel_outcome, claim_outcome, confirmation_outcome,
    constructor_outcome, creation_outcome, deposit_outcome, dispute_outcome, manager_update,
    quote_outcome, refund_outcome, resolution_outcome, signer_of, EntryPoint, EscrowMovement,
    ProtocolConfig, Transition,
};
use crate::types::{
    Account, ConfirmationType, Digest, DisputeResolution, FundingStatus, RequestSettlers,
    RequestStatus, SettlementRequest, SettlementRoute, SettlementType, SettlerAssignment,
    SettlerType,
};
use crate::utils::{ensure_active_for_dispute, ensure_not_expired, ensure_positive, ensure_status};
use crate::validation::require_valid_route;

verus! {

impl ProtocolConfig {
    /// The account whose authorization the call `entry` needs.
    pub fn required_signer(&self, entry: &EntryPoint) -> (signer: Account)
        ensures
            signer == signer_of(*self, *entry),
    {
        match entry {
            EntryPoint::Upgrade => self.admin,
            EntryPoint::UpdateAdmin => self.admin,
            EntryPoint::UpdateManager => self.admin,
            EntryPoint::CreateSettlementRequest { creator } => *creator,
            EntryPoint::SetSettlementQuote => self.manager,
            EntryPoint::ConfirmSettlement => self.manager,
            EntryPoint::AcceptSettlement { settler } => *settler,
            EntryPoint::DepositSettlementAsset { depositor } => *depositor,
            EntryPoint::ClaimSettlementAsset { claimant } => *claimant,
            EntryPoint::RefundSettler => self.manager,
            EntryPoint::Dispute { caller } => *caller,
            EntryPoint::Resolve => self.manager,
            EntryPoint::Cancel { caller } => *caller,
        }
    }
}

/// The settlement contract.
pub struct OynkSettlementProtocol;

impl OynkSettlementProtocol {
    /// Initializes the contract: refused when an admin is already stored.
    pub fn __constructor(
        has_admin: bool,
        admin: Account,
        manager: Account,
        settlement_asset: Account,
    ) -> (r: Result<ProtocolConfig, SettlementError>)
        ensures
            r == constructor_outcome(has_admin, admin, manager, settlement_asset),
    {
        if has_admin {
            return Err(SettlementError::AlreadyInitialized);
        }
        Ok(ProtocolConfig { admin, manager, settlement_asset, next_id: 1 })
    }

    pub fn update_admin(config: &mut ProtocolConfig, new_admin: Account) -> (event:
        AdminUpdateEvent)
        ensures
            (*final(config), event) == admin_update(*old(config), new_admin),
    {
        let admin = config.admin;
        config.admin = new_admin;
        AdminUpdateEvent { admin, new_admin }
    }

    pub fn update_manager(config: &mut ProtocolConfig, new_manager: Account) -> (event:
        ManagerUpdateEvent)
        ensures
            (*final(config), event) == manager_update(*old(config), new_manager),
    {
        config.manager = new_manager;
        ManagerUpdateEvent { admin: config.admin, manager: new_manager }
    }

    /// Creates a request under the next id; the id counter advances only on success.
    pub fn create_settlement_request(
        config: &mut ProtocolConfig,
        ledger: u32,
        creator: Account,
        sender_ref: Digest,
        recipient_ref: Digest,
        route: SettlementRoute,
        settlement_type: SettlementType,
        destination_amount: i128,
        deadline_ledger: u32,
    ) -> (r: Result<(u64, SettlementRequest, SettlementCreationEvent), SettlementError>)
        ensures
            r == creation_outcome(
                *old(config),
                ledger,
                creator,
                sender_ref,
                recipient_ref,
                route,
                settlement_type,
                destination_amount,
                deadline_ledger,
            ),
            *final(config) == (if r is Ok {
                config_after_creation(*old(config))
            } else {
                *old(config)
            }),
    {
        ensure_positive(destination_amount)?;
        if deadline_ledger <= ledger {
            return Err(SettlementError::BadDeadline);
        }
        require_valid_route(&settlement_type, &route)?;
        let id = config.next_id;
        if id == u64::MAX {
            return Err(SettlementError::IdOverflow);
        }
        config.next_id = id + 1;
        let request = SettlementRequest {
            id,
            creator,
            sender_ref,
            recipient_ref,
            route,
            settlement_type,
            source_amount: None,
            destination_amount,
            settler_amount: None,
            funding_status: FundingStatus::PendingQuote,
            status: RequestStatus::Created,
            created_ledger: ledger,
            deadline_ledger,
            settlers: RequestSettlers { source: None, destination: None },
            quote_evidence_hash: None,
            fiat_evidence_hash: None,
            settlement_evidence_hash: None,
        };
        Ok((id, request, SettlementCreationEvent { id, sender_ref, recipient_ref, destination_amount }))
    }

    pub fn set_settlement_quote(
        ledger: u32,
        stored: Option<SettlementRequest>,
        id: u64,
        source_amount: Option<i128>,
        settler_amount: i128,
        quote_hash: Digest,
    ) -> (r: Result<Transition, SettlementError>)
        ensures
            r == quote_outcome(ledger, stored, id, source_amount, settler_amount, quote_hash),
    {
        ensure_positive(settler_amount)?;
        let mut request = match stored {
            Some(r) => r,
            None => return Err(SettlementError::RequestNotFound),
        };
        ensure_status(&request, RequestStatus::Created)?;
        ensure_not_expired(ledger, &request)?;
        if request.funding_status != FundingStatus::PendingQuote {
            return Err(SettlementError::BadFundingStatus);
        }
        match request.settlement_type {
            SettlementType::CryptoToFiat => {
                if source_amount.is_some() {
                    return Err(SettlementError::InvalidAmount);
                }
            },
            SettlementType::FiatToCrypto | SettlementType::FiatToFiat => {
                let amount = match source_amount {
                    Some(a) => a,
                    None => return Err(SettlementError::SourceAmountMissing),
                };
                ensure_positive(amount)?;
            },
        }
        request.source_amount = source_amount;
        request.settler_amount = Some(settler_amount);
        request.quote_evidence_hash = Some(quote_hash);
        request.funding_status = FundingStatus::QuoteSet;
        Ok(
            Transition {
                request,
                movement: None,
                event: RequestEvent::Quote(
                    SettlementQuoteEvent { id, source_amount, settler_amount, quote_hash },
                ),
            },
        )
    }

    pub fn accept_settlement(
        ledger: u32,
        stored: Option<SettlementRequest>,
        id: u64,
        settler_type: SettlerType,
        settler: Account,
    ) -> (r: Result<Transition, SettlementError>)
        ensures
            r == acceptance_outcome(ledger, stored, id, settler_type, settler),
    {
        let mut request = match stored {
            Some(r) => r,
            None => return Err(SettlementError::RequestNotFound),
        };
        ensure_not_expired(ledger, &request)?;
        let mut settlers = request.settlers;
        match settler_type {
            SettlerType::Source => {
                if request.settlement_type == SettlementType::CryptoToFiat {
                    return Err(SettlementError::SourceSettlerNotNeeded);
                }
                ensure_status(&request, RequestStatus::Created)?;
                if request.funding_status != FundingStatus::QuoteSet {
                    return Err(SettlementError::QuoteNotSet);
                }
                if settlers.source.is_some() {
                    return Err(SettlementError::AlreadyProcessed);
                }
                let source_amount = match request.source_amount {
                    Some(a) => a,
                    None => return Err(SettlementError::SourceAmountMissing),
                };
                let settler_amount = match request.settler_amount {
                    Some(a) => a,
                    None => return Err(SettlementError::SettlerAmountMissing),
                };
                ensure_positive(source_amount)?;
                ensure_positive(settler_amount)?;
                settlers.source = Some(
                    SettlerAssignment {
                        settler,
                        fiat_amount: source_amount,
                        settlement_asset_amount: settler_amount,
                        confirmed: false,
                        proof_hash: None,
                    },
                );
                request.status = RequestStatus::SourceAccepted;
            },
            SettlerType::Destination => {
                if request.settlement_type == SettlementType::FiatToCrypto {
                    return Err(SettlementError::DestinationSettlerNotNeeded);
                }
                match request.settlement_type {
                    SettlementType::CryptoToFiat => {
                        ensure_status(&request, RequestStatus::SettlementFunded)?;
                    },
                    SettlementType::FiatToFiat => {
                        ensure_status(&request, RequestStatus::SourceSettlementConfirmed)?;
                    },
                    SettlementType::FiatToCrypto => {
                        return Err(SettlementError::DestinationSettlerNotNeeded);
                    },
                }
                if request.funding_status != FundingStatus::Ready {
                    return Err(SettlementError::SettlementAssetNotDeposited);
                }
                if settlers.destination.is_some() {
                    return Err(SettlementError::AlreadyProcessed);
                }
                let settler_amount = match request.settler_amount {
                    Some(a) => a,
                    None => return Err(SettlementError::SettlerAmountMissing),
                };
                ensure_positive(request.destination_amount)?;
                ensure_positive(settler_amount)?;
                settlers.destination = Some(
                    SettlerAssignment {
                        settler,
                        fiat_amount: request.destination_amount,
                        settlement_asset_amount: settler_amount,
                        confirmed: false,
                        proof_hash: None,
                    },
                );
                request.status = RequestStatus::SettlementInProgress;
            },
        }
        request.settlers = settlers;
        Ok(
            Transition {
                request,
                movement: None,
                event: RequestEvent::Acceptance(
                    SettlementAcceptanceEvent { id, settler_type, settler },
                ),
            },
        )
    }

    pub fn deposit_settlement_asset(
        config: &ProtocolConfig,
        ledger: u32,
        stored: Option<SettlementRequest>,
        id: u64,
        depositor: Account,
    ) -> (r: Result<Transition, SettlementError>)
        ensures
            r == deposit_outcome(*config, ledger, stored, id, depositor),
    {
        let mut request = match stored {
            Some(r) => r,
            None => return Err(SettlementError::RequestNotFound),
        };
        ensure_not_expired(ledger, &request)?;
        let settler_amount = match request.settler_amount {
            Some(a) => a,
            None => return Err(SettlementError::SettlerAmountMissing),
        };
        ensure_positive(settler_amount)?;
        match request.settlement_type {
            SettlementType::CryptoToFiat => {
                ensure_status(&request, RequestStatus::Created)?;
                if !request.creator.same_as(&depositor) {
                    return Err(SettlementError::NotAuthorized);
                }
                if request.funding_status != FundingStatus::QuoteSet {
                    return Err(SettlementError::QuoteNotSet);
                }
            },
            SettlementType::FiatToCrypto | SettlementType::FiatToFiat => {
                ensure_status(&request, RequestStatus::SourceAccepted)?;
                if request.funding_status != FundingStatus::QuoteSet {
                    return Err(SettlementError::QuoteNotSet);
                }
                let mut source = match request.settlers.source {
                    Some(s) => s,
                    None => return Err(SettlementError::SourceSettlerMissing),
                };
                if !source.settler.same_as(&depositor) {
                    return Err(SettlementError::NotAuthorized);
                }
                if source.confirmed {
                    return Err(SettlementError::AlreadyProcessed);
                }
                if source.settlement_asset_amount != settler_amount {
                    return Err(SettlementError::ConditionFailed);
                }
                source.confirmed = true;
                let mut settlers = request.settlers;
                settlers.source = Some(source);
                request.settlers = settlers;
            },
        }
        request.funding_status = FundingStatus::Ready;
        request.status = RequestStatus::SettlementFunded;
        Ok(
            Transition {
                request,
                movement: Some(EscrowMovement::Deposit { from: depositor, amount: settler_amount }),
                event: RequestEvent::Deposit(
                    SettlementDepositEvent {
                        id,
                        asset: config.settlement_asset,
                        amount: settler_amount,
                        depositor,
                    },
                ),
            },
        )
    }

    pub fn confirm_settlement(
        ledger: u32,
        stored: Option<SettlementRequest>,
        id: u64,
        confirmation_type: ConfirmationType,
        evidence_hash: Digest,
    ) -> (r: Result<Transition, SettlementError>)
        ensures
            r == confirmation_outcome(ledger, stored, id, confirmation_type, evidence_hash),
    {
        let mut request = match stored {
            Some(r) => r,
            None => return Err(SettlementError::RequestNotFound),
        };
        ensure_not_expired(ledger, &request)?;
        match confirmation_type {
            ConfirmationType::SourceSettlement => {
                if request.settlement_type == SettlementType::CryptoToFiat {
                    return Err(SettlementError::FiatFundingNotRequired);
                }
                ensure_status(&request, RequestStatus::SettlementFunded)?;
                if request.funding_status != FundingStatus::Ready {
                    return Err(SettlementError::SettlementAssetNotDeposited);
                }
                let source_amount = match request.source_amount {
                    Some(a) => a,
                    None => return Err(SettlementError::SourceAmountMissing),
                };
                let source = match request.settlers.source {
                    Some(s) => s,
                    None => return Err(SettlementError::SourceSettlerMissing),
                };
                if !source.confirmed {
                    return Err(SettlementError::SettlementAssetNotDeposited);
                }
                if request.fiat_evidence_hash.is_some() {
                    return Err(SettlementError::AlreadyProcessed);
                }
                request.fiat_evidence_hash = Some(evidence_hash);
                request.status =
                    match request.settlement_type {
                        SettlementType::FiatToCrypto => RequestStatus::ReadyForClaim,
                        SettlementType::FiatToFiat => RequestStatus::SourceSettlementConfirmed,
                        SettlementType::CryptoToFiat => {
                            return Err(SettlementError::FiatFundingNotRequired);
                        },
                    };
                Ok(
                    Transition {
                        request,
                        movement: None,
                        event: RequestEvent::Fiat(
                            SettlementFiatEvent {
                                id,
                                source_amount,
                                fiat_evidence_hash: evidence_hash,
                            },
                        ),
                    },
                )
            },
            ConfirmationType::DestinationSettlement => {
                if request.settlement_type == SettlementType::FiatToCrypto {
                    return Err(SettlementError::DestinationSettlerNotNeeded);
                }
                ensure_status(&request, RequestStatus::SettlementInProgress)?;
                if request.funding_status != FundingStatus::Ready {
                    return Err(SettlementError::SettlementAssetNotDeposited);
                }
                let mut assignment = match request.settlers.destination {
                    Some(d) => d,
                    None => return Err(SettlementError::DestinationSettlerMissing),
                };
                if assignment.confirmed {
                    return Err(SettlementError::AlreadyProcessed);
                }
                let settler = assignment.settler;
                assignment.confirmed = true;
                assignment.proof_hash = Some(evidence_hash);
                let mut settlers = request.settlers;
                settlers.destination = Some(assignment);
                request.settlers = settlers;
                request.status = RequestStatus::ReadyForClaim;
                request.settlement_evidence_hash = Some(evidence_hash);
                Ok(
                    Transition {
                        request,
                        movement: None,
                        event: RequestEvent::Confirmation(
                            SettlementConfirmationEvent { id, proof_hash: evidence_hash, settler },
                        ),
                    },
                )
            },
        }
    }

    pub fn claim_settlement_asset(
        config: &ProtocolConfig,
        stored: Option<SettlementRequest>,
        id: u64,
        claimant: Account,
    ) -> (r: Result<Transition, SettlementError>)
        ensures
            r == claim_outcome(*config, stored, id, claimant),
    {
        let mut request = match stored {
            Some(r) => r,
            None => return Err(SettlementError::RequestNotFound),
        };
        ensure_status(&request, RequestStatus::ReadyForClaim)?;
        let deposited_amount = match request.settler_amount {
            Some(a) => a,
            None => return Err(SettlementError::SettlerAmountMissing),
        };
        ensure_positive(deposited_amount)?;
        let claim_amount = match request.settlement_type {
            SettlementType::FiatToCrypto => {
                if !request.creator.same_as(&claimant) {
                    return Err(SettlementError::NotAuthorized);
                }
                if request.fiat_evidence_hash.is_none() {
                    return Err(SettlementError::ConditionFailed);
                }
                deposited_amount
            },
            SettlementType::CryptoToFiat | SettlementType::FiatToFiat => {
                let assignment = match request.settlers.destination {
                    Some(d) => d,
                    None => return Err(SettlementError::DestinationSettlerMissing),
                };
                if !assignment.settler.same_as(&claimant) {
                    return Err(SettlementError::NotAuthorized);
                }
                if !assignment.confirmed {
                    return Err(SettlementError::ConditionFailed);
                }
                ensure_positive(assignment.settlement_asset_amount)?;
                if assignment.settlement_asset_amount > deposited_amount {
                    return Err(SettlementError::PayoutExceedsDeposit);
                }
                assignment.settlement_asset_amount
            },
        };
        request.status = RequestStatus::Completed;
        Ok(
            Transition {
                request,
                movement: Some(EscrowMovement::Payout { to: claimant, amount: claim_amount }),
                event: RequestEvent::ClaimAsset(
                    SettlementClaimAssetEvent {
                        id,
                        asset: config.settlement_asset,
                        amount: claim_amount,
                        claimant,
                    },
                ),
            },
        )
    }

    pub fn refund_settler(config: &ProtocolConfig, stored: Option<SettlementRequest>, id: u64) -> (r:
        Result<Transition, SettlementError>)
        ensures
            r == refund_outcome(*config, stored, id),
    {
        let mut request = match stored {
            Some(r) => r,
            None => return Err(SettlementError::RequestNotFound),
        };
        match request.status {
            RequestStatus::Completed => {
                return Err(SettlementError::InvalidRequestStatus);
            },
            RequestStatus::Refunded => {
                return Err(SettlementError::InvalidRequestStatus);
            },
            RequestStatus::Cancelled => {
                return Err(SettlementError::RequestCancelled);
            },
            RequestStatus::Disputed => {
                return Err(SettlementError::RequestDisputed);
            },
            RequestStatus::ReadyForClaim => {
                return Err(SettlementError::ReadyForClaim);
            },
            _ => {},
        }
        if request.funding_status != FundingStatus::Ready {
            return Err(SettlementError::SettlementAssetNotDeposited);
        }
        let refund_amount = match request.settler_amount {
            Some(a) => a,
            None => return Err(SettlementError::SettlerAmountMissing),
        };
        ensure_positive(refund_amount)?;
        let recipient = match request.settlement_type {
            SettlementType::CryptoToFiat => request.creator,
            SettlementType::FiatToCrypto | SettlementType::FiatToFiat => {
                let source = match request.settlers.source {
                    Some(s) => s,
                    None => return Err(SettlementError::SourceSettlerMissing),
                };
                if !source.confirmed {
                    return Err(SettlementError::ConditionFailed);
                }
                source.settler
            },
        };
        request.status = RequestStatus::Refunded;
        Ok(
            Transition {
                request,
                movement: Some(EscrowMovement::Payout { to: recipient, amount: refund_amount }),
                event: RequestEvent::RefundAsset(
                    SettlementRefundAssetEvent {
                        id,
                        asset: config.settlement_asset,
                        amount: refund_amount,
                        recipient,
                    },
                ),
            },
        )
    }

    pub fn dispute(
        config: &ProtocolConfig,
        stored: Option<SettlementRequest>,
        caller: Account,
        id: u64,
        dispute_evidence_hash: Digest,
    ) -> (r: Result<Transition, SettlementError>)
        ensures
            r == dispute_outcome(*config, stored, id, caller, dispute_evidence_hash),
    {
        let mut request = match stored {
            Some(r) => r,
            None => return Err(SettlementError::RequestNotFound),
        };
        let manager = config.manager;
        let is_creator = caller.same_as(&request.creator);
        let is_source_settler = match request.settlers.source {
            Some(assignment) => assignment.settler.same_as(&caller),
            None => false,
        };
        let is_destination_settler = match request.settlers.destination {
            Some(assignment) => assignment.settler.same_as(&caller),
            None => false,
        };
        let is_manager = caller.same_as(&manager);
        if !is_creator && !is_source_settler && !is_destination_settler && !is_manager {
            return Err(SettlementError::NotAuthorized);
        }
        ensure_active_for_dispute(&request)?;
        if request.funding_status != FundingStatus::Ready {
            return Err(SettlementError::NothingToDispute);
        }
        request.status = RequestStatus::Disputed;
        request.settlement_evidence_hash = Some(dispute_evidence_hash);
        Ok(
            Transition {
                request,
                movement: None,
                event: RequestEvent::Dispute(
                    SettlementDisputeEvent { id, caller, dispute_evidence_hash },
                ),
            },
        )
    }

    pub fn resolve(
        config: &ProtocolConfig,
        stored: Option<SettlementRequest>,
        id: u64,
        resolution: DisputeResolution,
    ) -> (r: Result<Transition, SettlementError>)
        ensures
            r == resolution_outcome(*config, stored, id, resolution),
    {
        let mut request = match stored {
            Some(r) => r,
            None => return Err(SettlementError::RequestNotFound),
        };
        ensure_status(&request, RequestStatus::Disputed)?;
        if request.funding_status != FundingStatus::Ready {
            return Err(SettlementError::SettlementAssetNotDeposited);
        }
        let deposited_amount = match request.settler_amount {
            Some(a) => a,
            None => return Err(SettlementError::SettlerAmountMissing),
        };
        ensure_positive(deposited_amount)?;
        let (recipient, transfer_amount) = match resolution {
            DisputeResolution::ReleaseToClaimant => match request.settlement_type {
                SettlementType::FiatToCrypto => (request.creator, deposited_amount),
                SettlementType::CryptoToFiat | SettlementType::FiatToFiat => {
                    let destination = match request.settlers.destination {
                        Some(d) => d,
                        None => return Err(SettlementError::DestinationSettlerMissing),
                    };
                    ensure_positive(destination.settlement_asset_amount)?;
                    if destination.settlement_asset_amount > deposited_amount {
                        return Err(SettlementError::PayoutExceedsDeposit);
                    }
                    (destination.settler, destination.settlement_asset_amount)
                },
            },
            DisputeResolution::RefundDepositor => match request.settlement_type {
                SettlementType::CryptoToFiat => (request.creator, deposited_amount),
                SettlementType::FiatToCrypto | SettlementType::FiatToFiat => {
                    let source = match request.settlers.source {
                        Some(s) => s,
                        None => return Err(SettlementError::SourceSettlerMissing),
                    };
                    if !source.confirmed {
                        return Err(SettlementError::ConditionFailed);
                    }
                    (source.settler, deposited_amount)
                },
            },
        };
        request.status =
            match resolution {
                DisputeResolution::ReleaseToClaimant => RequestStatus::Completed,
                DisputeResolution::RefundDepositor => RequestStatus::Refunded,
            };
        Ok(
            Transition {
                request,
                movement: Some(EscrowMovement::Payout { to: recipient, amount: transfer_amount }),
                event: RequestEvent::DisputeResolution(
                    SettlementDisputeResolutionEvent {
                        id,
                        resolution,
                        recipient,
                        amount: transfer_amount,
                    },
                ),
            },
        )
    }

    pub fn cancel(
        config: &ProtocolConfig,
        stored: Option<SettlementRequest>,
        id: u64,
        caller: Account,
    ) -> (r: Result<Transition, SettlementError>)
        ensures
            r == cancel_outcome(*config, stored, id, caller),
    {
        let mut request = match stored {
            Some(r) => r,
            None => return Err(SettlementError::RequestNotFound),
        };
        let manager = config.manager;
        if !caller.same_as(&request.creator) && !caller.same_as(&manager) {
            return Err(SettlementError::NotAuthorized);
        }
        match request.status {
            RequestStatus::Completed => {
                return Err(SettlementError::InvalidRequestStatus);
            },
            RequestStatus::Refunded => {
                return Err(SettlementError::InvalidRequestStatus);
            },
            RequestStatus::Cancelled => {
                return Err(SettlementError::InvalidRequestStatus);
            },
            RequestStatus::Disputed => {
                return Err(SettlementError::RequestDisputed);
            },
            RequestStatus::ReadyForClaim => {
                return Err(SettlementError::ReadyForClaim);
            },
            _ => {},
        }
        if request.funding_status == FundingStatus::Ready {
            return Err(SettlementError::AlreadyProcessed);
        }
        request.status = RequestStatus::Cancelled;
        Ok(
            Transition {
                request,
                movement: None,
                event: RequestEvent::Cancellation(SettlementCancellationEvent { id, caller }),
            },
        )
    }
}

} // verus!
