use vstd::prelude::*;

use crate::errors::SettlementError;
use crate::types::{RequestStatus, SettlementRequest};

verus! {

/// A request is expired once the ledger has passed its deadline.
pub open spec fn is_expired(ledger: u32, request: SettlementRequest) -> bool {
    ledger > request.deadline_ledger
}

/// The statuses from which a request can still be disputed.
pub open spec fn active_for_dispute(status: RequestStatus) -> bool {
    !(status == RequestStatus::Completed || status == RequestStatus::Refunded || status
        == RequestStatus::Cancelled || status == RequestStatus::Disputed)
}

/// Whether `request` has expired at ledger sequence `ledger`.
pub fn read_is_expired(ledger: u32, request: &SettlementRequest) -> (r: bool)
    ensures
        r == is_expired(ledger, *request),
{
    ledger > request.deadline_ledger
}

pub fn ensure_positive(amount: i128) -> (r: Result<(), SettlementError>)
    ensures
        r == (if amount > 0 { Ok(()) } else { Err(SettlementError::InvalidAmount) }),
{
    if amount <= 0 {
        return Err(SettlementError::InvalidAmount);
    }
    Ok(())
}

pub fn ensure_status(request: &SettlementRequest, expected: RequestStatus) -> (r: Result<
    (),
    SettlementError,
>)
    ensures
        r == (if request.status == expected {
            Ok(())
        } else {
            Err(SettlementError::InvalidRequestStatus)
        }),
{
    if request.status != expected {
        return Err(SettlementError::InvalidRequestStatus);
    }
    Ok(())
}

pub fn ensure_not_expired(ledger: u32, request: &SettlementRequest) -> (r: Result<
    (),
    SettlementError,
>)
    ensures
        r == (if is_expired(ledger, *request) {
            Err(SettlementError::SettlementExpired)
        } else {
            Ok(())
        }),
{
    if read_is_expired(ledger, request) {
        return Err(SettlementError::SettlementExpired);
    }
    Ok(())
}

pub fn ensure_active_for_dispute(request: &SettlementRequest) -> (r: Result<(), SettlementError>)
    ensures
        r == (if active_for_dispute(request.status) {
            Ok(())
        } else {
            Err(SettlementError::InvalidRequestStatus)
        }),
{
    match request.status {
        RequestStatus::Completed => Err(SettlementError::InvalidRequestStatus),
        RequestStatus::Refunded => Err(SettlementError::InvalidRequestStatus),
        RequestStatus::Cancelled => Err(SettlementError::InvalidRequestStatus),
        RequestStatus::Disputed => Err(SettlementError::InvalidRequestStatus),
        _ => Ok(()),
    }
}

} // verus!
