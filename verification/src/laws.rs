//! Properties of the settlement lifecycle that hold across calls.
use vstd::prelude::*;

use crate::utils::is_expired;
use crate::lifecycle::{
    config_after_creation, creation_outcome, is_party, step, EscrowMovement, ProtocolConfig,
    RequestAction, Transition,
};
use crate::errors::SettlementError;
use crate::events::RequestEvent;
use crate::validation::{route_check, valid_route};
use crate::types::{
    Account, ConfirmationType, Digest, DisputeResolution, FundingStatus, SettlerAssignment, SettlerType, RequestStatus, SettlementRequest, SettlementRoute,
    SettlementType,
};

verus! {

/// Completed, refunded and cancelled requests are closed for good.
pub open spec fn is_terminal(status: RequestStatus) -> bool {
    status == RequestStatus::Completed || status == RequestStatus::Refunded || status
        == RequestStatus::Cancelled
}

/// The invariant that every stored request satisfies.
pub open spec fn request_wf(r: SettlementRequest) -> bool {
    &&& r.destination_amount > 0
    &&& r.funding_status == FundingStatus::PendingQuote ==> {
        &&& r.settler_amount is None
        &&& r.settlers.source is None
        &&& r.settlers.destination is None
    }
    &&& r.funding_status != FundingStatus::PendingQuote ==> (r.settler_amount matches Some(x)
        && x > 0)
    &&& r.settlers.source matches Some(s) ==> r.settler_amount == Some(s.settlement_asset_amount)
    &&& r.settlers.destination matches Some(d) ==> r.settler_amount == Some(
        d.settlement_asset_amount,
    )
    &&& (r.status == RequestStatus::ReadyForClaim || r.status == RequestStatus::Disputed)
        ==> r.funding_status == FundingStatus::Ready
    &&& r.status == RequestStatus::Cancelled ==> r.funding_status != FundingStatus::Ready
    &&& is_funded_status(r.status) ==> r.funding_status == FundingStatus::Ready
    &&& r.settlement_type == SettlementType::CryptoToFiat ==> r.source_amount is None
    &&& r.settlement_type != SettlementType::CryptoToFiat && r.funding_status
        != FundingStatus::PendingQuote ==> (r.source_amount matches Some(a) && a > 0)
    &&& r.settlement_type != SettlementType::CryptoToFiat && r.funding_status
        == FundingStatus::Ready ==> (r.settlers.source matches Some(s) && s.confirmed)
    &&& (r.status == RequestStatus::Created || r.status == RequestStatus::SourceAccepted)
        ==> r.funding_status != FundingStatus::Ready
    &&& (r.status == RequestStatus::SourceSettlementConfirmed || r.status
        == RequestStatus::SettlementInProgress || r.status == RequestStatus::ReadyForClaim)
        && r.settlement_type != SettlementType::CryptoToFiat ==> r.fiat_evidence_hash is Some
    &&& r.status == RequestStatus::ReadyForClaim && r.settlement_type
        != SettlementType::FiatToCrypto ==> (r.settlers.destination matches Some(d)
        && d.confirmed)
}

/// The statuses in which the settlement asset is held in escrow.
pub open spec fn is_funded_status(status: RequestStatus) -> bool {
    status == RequestStatus::SettlementFunded || status == RequestStatus::SourceSettlementConfirmed
        || status == RequestStatus::SettlementInProgress || status == RequestStatus::ReadyForClaim
        || status == RequestStatus::Disputed
}

/// The moves of the request lifecycle: quoting keeps a request created,
/// assignment and funding move forward, a funded request can be disputed until
/// it is closed and refunded until it is ready for claim, a dispute ends in a
/// payout, a cancellation happens only before funds are escrowed, and closed
/// requests never move.
pub open spec fn lifecycle_edge(from: RequestStatus, to: RequestStatus) -> bool {
    match to {
        RequestStatus::Created => from == RequestStatus::Created,
        RequestStatus::SourceAccepted => from == RequestStatus::Created,
        RequestStatus::SettlementFunded => from == RequestStatus::Created || from
            == RequestStatus::SourceAccepted,
        RequestStatus::SourceSettlementConfirmed => from == RequestStatus::SettlementFunded,
        RequestStatus::SettlementInProgress => from == RequestStatus::SettlementFunded || from
            == RequestStatus::SourceSettlementConfirmed,
        RequestStatus::ReadyForClaim => from == RequestStatus::SettlementFunded || from
            == RequestStatus::SettlementInProgress,
        RequestStatus::Disputed => is_funded_status(from) && from != RequestStatus::Disputed,
        RequestStatus::Completed => from == RequestStatus::ReadyForClaim || from
            == RequestStatus::Disputed,
        RequestStatus::Refunded => is_funded_status(from) && from != RequestStatus::ReadyForClaim,
        RequestStatus::Cancelled => from == RequestStatus::Created || from
            == RequestStatus::SourceAccepted,
    }
}

/// The amount of the settlement asset that the contract holds for a request.
pub open spec fn escrow_held(r: SettlementRequest) -> int {
    if r.funding_status == FundingStatus::Ready && r.status != RequestStatus::Completed
        && r.status != RequestStatus::Refunded {
        r.settler_amount->Some_0 as int
    } else {
        0
    }
}

/// The change in the contract's balance that a movement makes.
pub open spec fn net_inflow(movement: Option<EscrowMovement>) -> int {
    match movement {
        None => 0,
        Some(EscrowMovement::Deposit { amount, .. }) => amount as int,
        Some(EscrowMovement::Payout { amount, .. }) => -amount,
    }
}

/// The fields that a request keeps from its creation on.
pub open spec fn same_identity(a: SettlementRequest, b: SettlementRequest) -> bool {
    &&& a.id == b.id
    &&& a.creator == b.creator
    &&& a.sender_ref == b.sender_ref
    &&& a.recipient_ref == b.recipient_ref
    &&& a.route == b.route
    &&& a.settlement_type == b.settlement_type
    &&& a.destination_amount == b.destination_amount
    &&& a.created_ledger == b.created_ledger
    &&& a.deadline_ledger == b.deadline_ledger
}

/// A newly created request satisfies the invariant, holds no escrow, and takes
/// the id that the counter held, which the counter then moves past.
pub proof fn law_created_requests_are_well_formed(
    config: ProtocolConfig,
    ledger: u32,
    creator: Account,
    sender_ref: Digest,
    recipient_ref: Digest,
    route: SettlementRoute,
    settlement_type: SettlementType,
    destination_amount: i128,
    deadline_ledger: u32,
)
    requires
        creation_outcome(
            config,
            ledger,
            creator,
            sender_ref,
            recipient_ref,
            route,
            settlement_type,
            destination_amount,
            deadline_ledger,
        ) is Ok,
    ensures
        ({
            let (id, r, _) = creation_outcome(
                config,
                ledger,
                creator,
                sender_ref,
                recipient_ref,
                route,
                settlement_type,
                destination_amount,
                deadline_ledger,
            )->Ok_0;
            &&& request_wf(r)
            &&& is_fresh(r)
            &&& escrow_held(r) == 0
            &&& r.status == RequestStatus::Created
            &&& id == config.next_id
            &&& config_after_creation(config).next_id > id
        }),
{
}

/// Request ids are never reused: a creation made after another, from a counter
/// that has not gone back, gets a larger id.
pub proof fn law_request_ids_increase(
    first: ProtocolConfig,
    later: ProtocolConfig,
    ledger: u32,
    creator: Account,
    sender_ref: Digest,
    recipient_ref: Digest,
    route: SettlementRoute,
    settlement_type: SettlementType,
    destination_amount: i128,
    deadline_ledger: u32,
    ledger2: u32,
    creator2: Account,
    sender_ref2: Digest,
    recipient_ref2: Digest,
    route2: SettlementRoute,
    settlement_type2: SettlementType,
    destination_amount2: i128,
    deadline_ledger2: u32,
)
    requires
        creation_outcome(
            first,
            ledger,
            creator,
            sender_ref,
            recipient_ref,
            route,
            settlement_type,
            destination_amount,
            deadline_ledger,
        ) is Ok,
        later.next_id >= config_after_creation(first).next_id,
        creation_outcome(
            later,
            ledger2,
            creator2,
            sender_ref2,
            recipient_ref2,
            route2,
            settlement_type2,
            destination_amount2,
            deadline_ledger2,
        ) is Ok,
    ensures
        creation_outcome(
            later,
            ledger2,
            creator2,
            sender_ref2,
            recipient_ref2,
            route2,
            settlement_type2,
            destination_amount2,
            deadline_ledger2,
        )->Ok_0.0 > creation_outcome(
            first,
            ledger,
            creator,
            sender_ref,
            recipient_ref,
            route,
            settlement_type,
            destination_amount,
            deadline_ledger,
        )->Ok_0.0,
{
}

/// A completed, refunded or cancelled request refuses every call.
pub proof fn law_terminal_requests_are_final(
    config: ProtocolConfig,
    ledger: u32,
    r: SettlementRequest,
    id: u64,
    action: RequestAction,
)
    requires
        is_terminal(r.status),
    ensures
        step(config, ledger, Some(r), id, action) is Err,
{
}

/// Every accepted call keeps the request invariant.
pub proof fn law_calls_preserve_the_invariant(
    config: ProtocolConfig,
    ledger: u32,
    r: SettlementRequest,
    id: u64,
    action: RequestAction,
)
    requires
        request_wf(r),
        step(config, ledger, Some(r), id, action) is Ok,
    ensures
        request_wf(step(config, ledger, Some(r), id, action)->Ok_0.request),
{
}

/// Escrow is conserved: what an accepted call moves into or out of the
/// contract is exactly the change in what the contract holds for the request,
/// every deposit and every payout is the quoted settler amount, and the held
/// amount is never negative and is zero once the request is closed.
pub proof fn law_escrow_is_conserved(
    config: ProtocolConfig,
    ledger: u32,
    r: SettlementRequest,
    id: u64,
    action: RequestAction,
)
    requires
        request_wf(r),
        step(config, ledger, Some(r), id, action) is Ok,
    ensures
        ({
            let t = step(config, ledger, Some(r), id, action)->Ok_0;
            &&& net_inflow(t.movement) == escrow_held(t.request) - escrow_held(r)
            &&& t.movement matches Some(EscrowMovement::Deposit { amount, .. }) ==> r.settler_amount
                == Some(amount)
            &&& t.movement matches Some(EscrowMovement::Payout { amount, .. }) ==> r.settler_amount
                == Some(amount)
            &&& escrow_held(t.request) >= 0
            &&& is_terminal(t.request.status) ==> escrow_held(t.request) == 0
        }),
{
}

/// Value moves only between the escrow and the request's own parties: deposits
/// come from the creator or the source settler, payouts go to the creator or an
/// assigned settler.
pub proof fn law_value_moves_only_with_parties(
    config: ProtocolConfig,
    ledger: u32,
    r: SettlementRequest,
    id: u64,
    action: RequestAction,
)
    requires
        step(config, ledger, Some(r), id, action) is Ok,
    ensures
        ({
            let t = step(config, ledger, Some(r), id, action)->Ok_0;
            &&& t.movement matches Some(EscrowMovement::Deposit { from, .. }) ==> is_party(r, from)
            &&& t.movement matches Some(EscrowMovement::Payout { to, .. }) ==> is_party(r, to)
        }),
{
}

/// No call changes the fields a request was created with.
pub proof fn law_request_identity_is_fixed(
    config: ProtocolConfig,
    ledger: u32,
    r: SettlementRequest,
    id: u64,
    action: RequestAction,
)
    requires
        step(config, ledger, Some(r), id, action) is Ok,
    ensures
        same_identity(r, step(config, ledger, Some(r), id, action)->Ok_0.request),
{
}

/// Calls are replay safe: a call that was accepted is refused when it is made
/// again on the request it produced, whatever the ledger or configuration.
pub proof fn law_calls_are_replay_safe(
    config: ProtocolConfig,
    later_config: ProtocolConfig,
    ledger: u32,
    later_ledger: u32,
    r: SettlementRequest,
    id: u64,
    action: RequestAction,
)
    requires
        step(config, ledger, Some(r), id, action) is Ok,
    ensures
        step(
            later_config,
            later_ledger,
            Some(step(config, ledger, Some(r), id, action)->Ok_0.request),
            id,
            action,
        ) is Err,
{
}

} // verus!

verus! {

/// Every accepted call moves the request's status along a lifecycle edge.
pub proof fn law_status_follows_the_lifecycle(
    config: ProtocolConfig,
    ledger: u32,
    r: SettlementRequest,
    id: u64,
    action: RequestAction,
)
    requires
        request_wf(r),
        step(config, ledger, Some(r), id, action) is Ok,
    ensures
        lifecycle_edge(r.status, step(config, ledger, Some(r), id, action)->Ok_0.request.status),
{
}

/// An expired request can no longer be quoted, accepted, funded or confirmed.
pub proof fn law_expired_requests_refuse_progress(
    config: ProtocolConfig,
    ledger: u32,
    r: SettlementRequest,
    id: u64,
    action: RequestAction,
)
    requires
        is_expired(ledger, r),
        action is SetQuote || action is Accept || action is Deposit || action is Confirm,
    ensures
        step(config, ledger, Some(r), id, action) is Err,
{
}

/// A claim pays out only once every fiat leg of the settlement is confirmed:
/// the source leg's evidence for fiat-funded requests, and the destination
/// settler's confirmation for fiat-paid ones.
pub proof fn law_claims_need_every_leg_settled(
    config: ProtocolConfig,
    ledger: u32,
    r: SettlementRequest,
    id: u64,
    claimant: Account,
)
    requires
        request_wf(r),
        step(config, ledger, Some(r), id, RequestAction::Claim { claimant }) is Ok,
    ensures
        r.settlement_type != SettlementType::CryptoToFiat ==> r.fiat_evidence_hash is Some,
        r.settlement_type != SettlementType::FiatToCrypto ==> (r.settlers.destination matches Some(
            d,
        ) && d.confirmed && d.settler == claimant),
        r.settlement_type == SettlementType::FiatToCrypto ==> claimant == r.creator,
{
}

} // verus!

verus! {

/// One call on a request: the configuration and ledger it sees, and what it asks.
pub struct Call {
    pub config: ProtocolConfig,
    pub ledger: u32,
    pub action: RequestAction,
}

/// Runs calls on a request in order: refused calls leave it as it was, accepted
/// ones replace it. Gives the final request and the accepted transitions.
pub open spec fn run(r: SettlementRequest, id: u64, calls: Seq<Call>) -> (
    SettlementRequest,
    Seq<Transition>,
)
    decreases calls.len(),
{
    if calls.len() == 0 {
        (r, Seq::empty())
    } else {
        let (before, accepted) = run(r, id, calls.drop_last());
        let call = calls.last();
        match step(call.config, call.ledger, Some(before), id, call.action) {
            Ok(t) => (t.request, accepted.push(t)),
            Err(_) => (before, accepted),
        }
    }
}

/// How many of the transitions satisfy `p`.
pub open spec fn count_where(ts: Seq<Transition>, p: spec_fn(Transition) -> bool) -> nat
    decreases ts.len(),
{
    if ts.len() == 0 {
        0
    } else {
        count_where(ts.drop_last(), p) + if p(ts.last()) {
            1nat
        } else {
            0nat
        }
    }
}

pub open spec fn is_deposit(t: Transition) -> bool {
    t.movement matches Some(EscrowMovement::Deposit { .. })
}

pub open spec fn is_payout(t: Transition) -> bool {
    t.movement matches Some(EscrowMovement::Payout { .. })
}

pub open spec fn is_source_confirmation(t: Transition) -> bool {
    t.event is Fiat
}

pub open spec fn is_destination_confirmation(t: Transition) -> bool {
    t.event is Confirmation
}

/// A request as creation leaves it.
pub open spec fn is_fresh(r: SettlementRequest) -> bool {
    &&& request_wf(r)
    &&& r.status == RequestStatus::Created
    &&& r.funding_status == FundingStatus::PendingQuote
    &&& r.fiat_evidence_hash is None
}

pub open spec fn funded_mark(r: SettlementRequest) -> nat {
    if r.funding_status == FundingStatus::Ready {
        1
    } else {
        0
    }
}

pub open spec fn paid_mark(r: SettlementRequest) -> nat {
    if r.status == RequestStatus::Completed || r.status == RequestStatus::Refunded {
        1
    } else {
        0
    }
}

pub open spec fn source_leg_mark(r: SettlementRequest) -> nat {
    if r.fiat_evidence_hash is Some {
        1
    } else {
        0
    }
}

pub open spec fn destination_leg_mark(r: SettlementRequest) -> nat {
    if r.settlers.destination matches Some(d) && d.confirmed {
        1
    } else {
        0
    }
}

proof fn lemma_step_marks(
    config: ProtocolConfig,
    ledger: u32,
    r: SettlementRequest,
    id: u64,
    action: RequestAction,
)
    requires
        request_wf(r),
        step(config, ledger, Some(r), id, action) is Ok,
    ensures
        ({
            let t = step(config, ledger, Some(r), id, action)->Ok_0;
            &&& request_wf(t.request)
            &&& funded_mark(t.request) == funded_mark(r) + if is_deposit(t) {
                1nat
            } else {
                0nat
            }
            &&& paid_mark(t.request) == paid_mark(r) + if is_payout(t) {
                1nat
            } else {
                0nat
            }
            &&& source_leg_mark(t.request) == source_leg_mark(r) + if is_source_confirmation(t) {
                1nat
            } else {
                0nat
            }
            &&& destination_leg_mark(t.request) == destination_leg_mark(r) + if is_destination_confirmation(t) {
                1nat
            } else {
                0nat
            }
        }),
{
}

proof fn lemma_run_marks(r: SettlementRequest, id: u64, calls: Seq<Call>)
    requires
        is_fresh(r),
    ensures
        ({
            let (last, ts) = run(r, id, calls);
            &&& request_wf(last)
            &&& count_where(ts, |t: Transition| is_deposit(t)) == funded_mark(last)
            &&& count_where(ts, |t: Transition| is_payout(t)) == paid_mark(last)
            &&& count_where(ts, |t: Transition| is_source_confirmation(t)) == source_leg_mark(last)
            &&& count_where(ts, |t: Transition| is_destination_confirmation(t))
                == destination_leg_mark(last)
        }),
    decreases calls.len(),
{
    if calls.len() > 0 {
        let (before, accepted) = run(r, id, calls.drop_last());
        lemma_run_marks(r, id, calls.drop_last());
        let call = calls.last();
        match step(call.config, call.ledger, Some(before), id, call.action) {
            Ok(t) => {
                lemma_step_marks(call.config, call.ledger, before, id, call.action);
                assert(accepted.push(t).drop_last() =~= accepted);
                assert(accepted.push(t).last() == t);
            },
            Err(_) => {},
        }
    }
}

/// Over any sequence of calls on a newly created request, whatever the
/// configuration, ledger and arguments of each: the escrow is funded at most
/// once, paid out at most once, and each settlement leg is confirmed at most once.
pub proof fn law_each_payout_and_confirmation_happens_at_most_once(
    r: SettlementRequest,
    id: u64,
    calls: Seq<Call>,
)
    requires
        is_fresh(r),
    ensures
        ({
            let ts = run(r, id, calls).1;
            &&& count_where(ts, |t: Transition| is_deposit(t)) <= 1
            &&& count_where(ts, |t: Transition| is_payout(t)) <= 1
            &&& count_where(ts, |t: Transition| is_source_confirmation(t)) <= 1
            &&& count_where(ts, |t: Transition| is_destination_confirmation(t)) <= 1
        }),
{
    lemma_run_marks(r, id, calls);
}

} // verus!

verus! {

/// The account that funds a request's escrow: the creator for crypto-funded
/// requests, the source settler for fiat-funded ones.
pub open spec fn depositor_of(r: SettlementRequest) -> Option<Account> {
    if r.settlement_type == SettlementType::CryptoToFiat {
        Some(r.creator)
    } else {
        match r.settlers.source {
            Some(s) => Some(s.settler),
            None => None,
        }
    }
}

/// The account a release pays: the creator receives the crypto of a
/// fiat-to-crypto request, the destination settler the escrow of the others.
pub open spec fn claimant_of(r: SettlementRequest) -> Option<Account> {
    if r.settlement_type == SettlementType::FiatToCrypto {
        Some(r.creator)
    } else {
        match r.settlers.destination {
            Some(d) => Some(d.settler),
            None => None,
        }
    }
}

/// Funds come back to whoever put them in: a deposit comes from the request's
/// depositor, and a refund, or a dispute resolved by refunding, pays the whole
/// deposit back to that same account and leaves the request refunded.
pub proof fn law_refunds_return_the_deposit_to_its_depositor(
    config: ProtocolConfig,
    ledger: u32,
    r: SettlementRequest,
    id: u64,
    action: RequestAction,
)
    requires
        request_wf(r),
        step(config, ledger, Some(r), id, action) is Ok,
        action is Deposit || action is Refund || action == (RequestAction::Resolve {
            resolution: DisputeResolution::RefundDepositor,
        }),
    ensures
        ({
            let t = step(config, ledger, Some(r), id, action)->Ok_0;
            &&& depositor_of(r) is Some
            &&& action is Deposit ==> t.movement == Some(
                EscrowMovement::Deposit { from: depositor_of(r)->Some_0, amount: r.settler_amount->Some_0 },
            )
            &&& !(action is Deposit) ==> {
                &&& t.movement == Some(
                    EscrowMovement::Payout {
                        to: depositor_of(r)->Some_0,
                        amount: r.settler_amount->Some_0,
                    },
                )
                &&& t.request.status == RequestStatus::Refunded
            }
        }),
{
}

/// A claim, or a dispute resolved by release, pays the whole deposit to the
/// request's claimant and completes the request.
pub proof fn law_releases_pay_the_claimant(
    config: ProtocolConfig,
    ledger: u32,
    r: SettlementRequest,
    id: u64,
    action: RequestAction,
)
    requires
        request_wf(r),
        step(config, ledger, Some(r), id, action) is Ok,
        action is Claim || action == (RequestAction::Resolve {
            resolution: DisputeResolution::ReleaseToClaimant,
        }),
    ensures
        ({
            let t = step(config, ledger, Some(r), id, action)->Ok_0;
            &&& claimant_of(r) is Some
            &&& t.movement == Some(
                EscrowMovement::Payout {
                    to: claimant_of(r)->Some_0,
                    amount: r.settler_amount->Some_0,
                },
            )
            &&& t.request.status == RequestStatus::Completed
        }),
{
}

/// The creator, each assigned settler and the manager may dispute a funded
/// request that is still open; nobody else may dispute at all.
pub proof fn law_parties_and_manager_may_dispute(
    config: ProtocolConfig,
    ledger: u32,
    r: SettlementRequest,
    id: u64,
    caller: Account,
    evidence_hash: Digest,
)
    ensures
        ({
            let allowed = caller == r.creator || (r.settlers.source matches Some(s) && s.settler
                == caller) || (r.settlers.destination matches Some(d) && d.settler == caller)
                || caller == config.manager;
            let open = r.status != RequestStatus::Completed && r.status != RequestStatus::Refunded
                && r.status != RequestStatus::Cancelled && r.status != RequestStatus::Disputed;
            let outcome = step(
                config,
                ledger,
                Some(r),
                id,
                RequestAction::Dispute { caller, evidence_hash },
            );
            &&& allowed && open && r.funding_status == FundingStatus::Ready ==> {
                &&& outcome is Ok
                &&& outcome->Ok_0.request.status == RequestStatus::Disputed
                &&& outcome->Ok_0.request.settlement_evidence_hash == Some(evidence_hash)
                &&& outcome->Ok_0.movement is None
            }
            &&& !allowed ==> outcome == Err::<Transition, SettlementError>(
                SettlementError::NotAuthorized,
            )
        }),
{
}

/// The creator or the manager can cancel any request that holds no escrow and
/// has not moved past acceptance; a cancellation never touches escrowed funds.
pub proof fn law_unfunded_requests_can_be_cancelled(
    config: ProtocolConfig,
    ledger: u32,
    r: SettlementRequest,
    id: u64,
    caller: Account,
)
    ensures
        ({
            let outcome = step(config, ledger, Some(r), id, RequestAction::Cancel { caller });
            &&& (caller == r.creator || caller == config.manager) && (r.status
                == RequestStatus::Created || r.status == RequestStatus::SourceAccepted)
                && r.funding_status != FundingStatus::Ready ==> {
                &&& outcome is Ok
                &&& outcome->Ok_0.request.status == RequestStatus::Cancelled
                &&& outcome->Ok_0.movement is None
            }
            &&& outcome is Ok ==> r.funding_status != FundingStatus::Ready
        }),
{
}

/// An accepted assignment records the settler, the fiat amount of its own leg
/// (the source amount for the source settler, the destination amount for the
/// destination settler) and the quoted settler amount, unconfirmed.
pub proof fn law_assignments_record_their_leg(
    config: ProtocolConfig,
    ledger: u32,
    r: SettlementRequest,
    id: u64,
    settler_type: SettlerType,
    settler: Account,
)
    requires
        step(config, ledger, Some(r), id, RequestAction::Accept { settler_type, settler }) is Ok,
    ensures
        ({
            let q = step(
                config,
                ledger,
                Some(r),
                id,
                RequestAction::Accept { settler_type, settler },
            )->Ok_0.request;
            let expected = |fiat_amount: i128|
                Some(
                    SettlerAssignment {
                        settler,
                        fiat_amount,
                        settlement_asset_amount: r.settler_amount->Some_0,
                        confirmed: false,
                        proof_hash: None,
                    },
                );
            &&& settler_type == SettlerType::Source ==> q.settlers.source == expected(
                r.source_amount->Some_0,
            ) && q.settlers.destination == r.settlers.destination
            &&& settler_type == SettlerType::Destination ==> q.settlers.destination == expected(
                r.destination_amount,
            ) && q.settlers.source == r.settlers.source
        }),
{
}

} // verus!

verus! {

/// A request is created exactly when its amount is positive, its deadline is
/// still ahead, its route is valid and an id is left; it records what it was
/// created with, at the current ledger, under the counter's id.
pub proof fn law_creation_records_its_inputs(
    config: ProtocolConfig,
    ledger: u32,
    creator: Account,
    sender_ref: Digest,
    recipient_ref: Digest,
    route: SettlementRoute,
    settlement_type: SettlementType,
    destination_amount: i128,
    deadline_ledger: u32,
)
    ensures
        ({
            let outcome = creation_outcome(
                config,
                ledger,
                creator,
                sender_ref,
                recipient_ref,
                route,
                settlement_type,
                destination_amount,
                deadline_ledger,
            );
            &&& outcome is Ok <==> (destination_amount > 0 && deadline_ledger > ledger
                && valid_route(settlement_type, route) && config.next_id < u64::MAX)
            &&& outcome matches Ok((id, r, event)) ==> {
                &&& id == config.next_id && r.id == id
                &&& r.creator == creator && r.sender_ref == sender_ref && r.recipient_ref
                    == recipient_ref
                &&& r.route == route && r.settlement_type == settlement_type
                &&& r.destination_amount == destination_amount
                &&& r.created_ledger == ledger && r.deadline_ledger == deadline_ledger
                &&& event.id == id && event.sender_ref == sender_ref && event.recipient_ref
                    == recipient_ref && event.destination_amount == destination_amount
            }
        }),
{
    lemma_route_check_agrees(settlement_type, route);
}

proof fn lemma_route_check_agrees(settlement_type: SettlementType, route: SettlementRoute)
    ensures
        route_check(settlement_type, route) is Ok <==> valid_route(settlement_type, route),
{
}

/// A quote is taken exactly once, on a created, unexpired request still
/// waiting for it, with a positive settler amount and a source amount that is
/// present and positive precisely for fiat-funded requests; it records both
/// amounts and the quote evidence.
pub proof fn law_quotes_are_recorded(
    config: ProtocolConfig,
    ledger: u32,
    r: SettlementRequest,
    id: u64,
    source_amount: Option<i128>,
    settler_amount: i128,
    quote_hash: Digest,
)
    ensures
        ({
            let outcome = step(
                config,
                ledger,
                Some(r),
                id,
                RequestAction::SetQuote { source_amount, settler_amount, quote_hash },
            );
            let source_ok = if r.settlement_type == SettlementType::CryptoToFiat {
                source_amount is None
            } else {
                source_amount matches Some(a) && a > 0
            };
            &&& outcome is Ok <==> (settler_amount > 0 && r.status == RequestStatus::Created
                && !is_expired(ledger, r) && r.funding_status == FundingStatus::PendingQuote
                && source_ok)
            &&& outcome matches Ok(t) ==> {
                &&& t.request.source_amount == source_amount
                &&& t.request.settler_amount == Some(settler_amount)
                &&& t.request.quote_evidence_hash == Some(quote_hash)
                &&& t.request.funding_status == FundingStatus::QuoteSet
                &&& t.request.status == RequestStatus::Created
                &&& t.request.settlers == r.settlers
                &&& t.movement is None
            }
        }),
{
}

/// A settler's acceptance is owed when its leg is needed, still open, and the
/// request has reached the point where that leg starts: a quoted, created
/// request for the source leg; a funded request whose source leg (if any) is
/// confirmed for the destination leg.
pub proof fn law_open_legs_can_be_accepted(
    config: ProtocolConfig,
    ledger: u32,
    r: SettlementRequest,
    id: u64,
    settler_type: SettlerType,
    settler: Account,
)
    requires
        request_wf(r),
        !is_expired(ledger, r),
        settler_type == SettlerType::Source ==> r.settlement_type != SettlementType::CryptoToFiat
            && r.status == RequestStatus::Created && r.funding_status == FundingStatus::QuoteSet
            && r.settlers.source is None,
        settler_type == SettlerType::Destination ==> (r.settlement_type
            == SettlementType::CryptoToFiat && r.status == RequestStatus::SettlementFunded || r.settlement_type
            == SettlementType::FiatToFiat && r.status == RequestStatus::SourceSettlementConfirmed)
            && r.settlers.destination is None,
    ensures
        ({
            let outcome = step(
                config,
                ledger,
                Some(r),
                id,
                RequestAction::Accept { settler_type, settler },
            );
            &&& outcome is Ok
            &&& outcome->Ok_0.request.status == (if settler_type == SettlerType::Source {
                RequestStatus::SourceAccepted
            } else {
                RequestStatus::SettlementInProgress
            })
        }),
{
}

/// A deposit is owed from the request's depositor once the quote is set and
/// before the escrow is funded; it moves exactly the quoted settler amount in.
pub proof fn law_depositor_can_fund_a_quoted_request(
    config: ProtocolConfig,
    ledger: u32,
    r: SettlementRequest,
    id: u64,
    depositor: Account,
)
    requires
        request_wf(r),
        !is_expired(ledger, r),
        r.funding_status == FundingStatus::QuoteSet,
        r.settlement_type == SettlementType::CryptoToFiat ==> r.status == RequestStatus::Created
            && depositor == r.creator,
        r.settlement_type != SettlementType::CryptoToFiat ==> r.status
            == RequestStatus::SourceAccepted && (r.settlers.source matches Some(s) && s.settler
            == depositor && !s.confirmed),
    ensures
        ({
            let outcome = step(config, ledger, Some(r), id, RequestAction::Deposit { depositor });
            &&& outcome is Ok
            &&& outcome->Ok_0.movement == Some(
                EscrowMovement::Deposit { from: depositor, amount: r.settler_amount->Some_0 },
            )
            &&& outcome->Ok_0.request.funding_status == FundingStatus::Ready
            &&& outcome->Ok_0.request.status == RequestStatus::SettlementFunded
        }),
{
}

/// Confirming the source leg of a funded fiat-funded request records its
/// evidence and makes a fiat-to-crypto request claimable, or opens the
/// destination leg of a fiat-to-fiat one; confirming the destination leg of a
/// request in progress records the settler's proof and makes it claimable.
pub proof fn law_legs_can_be_confirmed(
    config: ProtocolConfig,
    ledger: u32,
    r: SettlementRequest,
    id: u64,
    confirmation_type: ConfirmationType,
    evidence_hash: Digest,
)
    requires
        request_wf(r),
        !is_expired(ledger, r),
        confirmation_type == ConfirmationType::SourceSettlement ==> r.settlement_type
            != SettlementType::CryptoToFiat && r.status == RequestStatus::SettlementFunded
            && r.fiat_evidence_hash is None,
        confirmation_type == ConfirmationType::DestinationSettlement ==> r.settlement_type
            != SettlementType::FiatToCrypto && r.status == RequestStatus::SettlementInProgress
            && (r.settlers.destination matches Some(d) && !d.confirmed),
    ensures
        ({
            let outcome = step(
                config,
                ledger,
                Some(r),
                id,
                RequestAction::Confirm { confirmation_type, evidence_hash },
            );
            &&& outcome is Ok
            &&& outcome->Ok_0.movement is None
            &&& confirmation_type == ConfirmationType::SourceSettlement ==> {
                &&& outcome->Ok_0.request.fiat_evidence_hash == Some(evidence_hash)
                &&& outcome->Ok_0.request.status == (if r.settlement_type
                    == SettlementType::FiatToCrypto {
                    RequestStatus::ReadyForClaim
                } else {
                    RequestStatus::SourceSettlementConfirmed
                })
            }
            &&& confirmation_type == ConfirmationType::DestinationSettlement ==> {
                &&& outcome->Ok_0.request.status == RequestStatus::ReadyForClaim
                &&& outcome->Ok_0.request.settlement_evidence_hash == Some(evidence_hash)
                &&& outcome->Ok_0.request.settlers.destination == Some(
                    SettlerAssignment {
                        confirmed: true,
                        proof_hash: Some(evidence_hash),
                        ..r.settlers.destination->Some_0
                    },
                )
            }
        }),
{
}

/// The payouts are owed: a claimable request pays its claimant, a funded
/// request that is neither claimable nor disputed can be refunded, and a
/// disputed request can always be refunded and can be released once it has a
/// claimant.
pub proof fn law_payouts_are_owed(
    config: ProtocolConfig,
    ledger: u32,
    r: SettlementRequest,
    id: u64,
    claimant: Account,
)
    requires
        request_wf(r),
    ensures
        r.status == RequestStatus::ReadyForClaim && claimant_of(r) == Some(claimant) ==> step(
            config,
            ledger,
            Some(r),
            id,
            RequestAction::Claim { claimant },
        ) is Ok,
        r.status == RequestStatus::ReadyForClaim && claimant_of(r) != Some(claimant) ==> step(
            config,
            ledger,
            Some(r),
            id,
            RequestAction::Claim { claimant },
        ) is Err,
        r.funding_status == FundingStatus::Ready && r.status != RequestStatus::ReadyForClaim
            && r.status != RequestStatus::Disputed && !is_terminal(r.status) ==> step(
            config,
            ledger,
            Some(r),
            id,
            RequestAction::Refund,
        ) is Ok,
        r.status == RequestStatus::Disputed ==> step(
            config,
            ledger,
            Some(r),
            id,
            RequestAction::Resolve { resolution: DisputeResolution::RefundDepositor },
        ) is Ok,
        r.status == RequestStatus::Disputed && claimant_of(r) is Some ==> step(
            config,
            ledger,
            Some(r),
            id,
            RequestAction::Resolve { resolution: DisputeResolution::ReleaseToClaimant },
        ) is Ok,
{
}

/// Every event reports the request's id, and the events of escrow movements
/// report the movement's account and amount and the settlement asset.
pub proof fn law_events_report_the_transition(
    config: ProtocolConfig,
    ledger: u32,
    r: SettlementRequest,
    id: u64,
    action: RequestAction,
)
    requires
        step(config, ledger, Some(r), id, action) is Ok,
    ensures
        ({
            let t = step(config, ledger, Some(r), id, action)->Ok_0;
            &&& match t.event {
                RequestEvent::Quote(e) => e.id == id && e.source_amount == t.request.source_amount
                    && Some(e.settler_amount) == t.request.settler_amount && Some(e.quote_hash)
                    == t.request.quote_evidence_hash,
                RequestEvent::Fiat(e) => e.id == id && Some(e.source_amount) == r.source_amount
                    && Some(e.fiat_evidence_hash) == t.request.fiat_evidence_hash,
                RequestEvent::Confirmation(e) => e.id == id && Some(e.proof_hash)
                    == t.request.settlement_evidence_hash && Some(e.settler) == claimant_of(r),
                RequestEvent::Acceptance(e) => e.id == id && (if e.settler_type
                    == SettlerType::Source {
                    t.request.settlers.source matches Some(s) && s.settler == e.settler
                } else {
                    t.request.settlers.destination matches Some(d) && d.settler == e.settler
                }),
                RequestEvent::Deposit(e) => e.id == id && e.asset == config.settlement_asset
                    && t.movement == Some(
                    EscrowMovement::Deposit { from: e.depositor, amount: e.amount },
                ),
                RequestEvent::ClaimAsset(e) => e.id == id && e.asset == config.settlement_asset
                    && t.movement == Some(EscrowMovement::Payout { to: e.claimant, amount: e.amount }),
                RequestEvent::RefundAsset(e) => e.id == id && e.asset == config.settlement_asset
                    && t.movement == Some(
                    EscrowMovement::Payout { to: e.recipient, amount: e.amount },
                ),
                RequestEvent::Dispute(e) => e.id == id && Some(e.dispute_evidence_hash)
                    == t.request.settlement_evidence_hash,
                RequestEvent::DisputeResolution(e) => e.id == id && t.movement == Some(
                    EscrowMovement::Payout { to: e.recipient, amount: e.amount },
                ),
                RequestEvent::Cancellation(e) => e.id == id && (e.caller == r.creator || e.caller
                    == config.manager),
            }
        }),
{
}

} // verus!
