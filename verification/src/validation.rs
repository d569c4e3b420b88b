use vstd::prelude::*;

use crate::errors::SettlementError;
use crate::types::{
    CurrencyCode, SettlementRoute, SettlementType, CAD, EUR, GBP, GHS, KES, KWD, NGN, USD, ZAR,
};

verus! {

/// The currencies the network settles.
pub open spec fn supported_currency(code: u32) -> bool {
    set![USD, GBP, EUR, CAD, KWD, NGN, KES, GHS, ZAR].contains(code)
}

/// `Ok` exactly for a positive amount.
pub fn require_positive(amount: i128) -> (r: Result<(), SettlementError>)
    ensures
        r == (if amount > 0 { Ok(()) } else { Err(SettlementError::InvalidAmount) }),
{
    if amount <= 0 {
        return Err(SettlementError::InvalidAmount);
    }
    Ok(())
}

pub fn is_supported_currency(code: CurrencyCode) -> (r: bool)
    ensures
        r == supported_currency(code),
{
    code == USD || code == GBP || code == EUR || code == CAD || code == KWD || code == NGN
        || code == KES || code == GHS || code == ZAR
}

pub fn require_supported_currency(code: CurrencyCode) -> (r: Result<(), SettlementError>)
    ensures
        r == (if supported_currency(code) {
            Ok(())
        } else {
            Err(SettlementError::UnsupportedCurrency)
        }),
{
    if !is_supported_currency(code) {
        return Err(SettlementError::UnsupportedCurrency);
    }
    Ok(())
}

/// A route is valid when it names a supported currency exactly on each fiat
/// leg of the settlement type, and the two legs of a fiat-to-fiat route differ.
pub open spec fn valid_route(settlement_type: SettlementType, route: SettlementRoute) -> bool {
    match settlement_type {
        SettlementType::FiatToCrypto => {
            &&& route.origin matches Some(o) && supported_currency(o)
            &&& route.destination is None
        },
        SettlementType::CryptoToFiat => {
            &&& route.origin is None
            &&& route.destination matches Some(d) && supported_currency(d)
        },
        SettlementType::FiatToFiat => {
            &&& route.origin matches Some(o) && supported_currency(o)
            &&& route.destination matches Some(d) && supported_currency(d)
            &&& route.origin != route.destination
        },
    }
}

/// The outcome of route validation, with the error that is reported first.
pub open spec fn route_check(settlement_type: SettlementType, route: SettlementRoute) -> Result<
    (),
    SettlementError,
> {
    match settlement_type {
        SettlementType::FiatToCrypto => match route.origin {
            None => Err(SettlementError::InvalidRoute),
            Some(o) => if !supported_currency(o) {
                Err(SettlementError::UnsupportedCurrency)
            } else if route.destination is Some {
                Err(SettlementError::InvalidRoute)
            } else {
                Ok(())
            },
        },
        SettlementType::CryptoToFiat => if route.origin is Some {
            Err(SettlementError::InvalidRoute)
        } else {
            match route.destination {
                None => Err(SettlementError::InvalidRoute),
                Some(d) => if !supported_currency(d) {
                    Err(SettlementError::UnsupportedCurrency)
                } else {
                    Ok(())
                },
            }
        },
        SettlementType::FiatToFiat => match (route.origin, route.destination) {
            (None, _) => Err(SettlementError::InvalidRoute),
            (Some(_), None) => Err(SettlementError::InvalidRoute),
            (Some(o), Some(d)) => if !supported_currency(o) || !supported_currency(d) {
                Err(SettlementError::UnsupportedCurrency)
            } else if o == d {
                Err(SettlementError::InvalidRoute)
            } else {
                Ok(())
            },
        },
    }
}

pub fn require_valid_route(settlement_type: &SettlementType, route: &SettlementRoute) -> (r: Result<
    (),
    SettlementError,
>)
    ensures
        r == route_check(*settlement_type, *route),
        r is Ok <==> valid_route(*settlement_type, *route),
{
    match settlement_type {
        SettlementType::FiatToCrypto => {
            let origin = match route.origin {
                Some(o) => o,
                None => return Err(SettlementError::InvalidRoute),
            };
            require_supported_currency(origin)?;
            if route.destination.is_some() {
                return Err(SettlementError::InvalidRoute);
            }
        },
        SettlementType::CryptoToFiat => {
            if route.origin.is_some() {
                return Err(SettlementError::InvalidRoute);
            }
            let destination = match route.destination {
                Some(d) => d,
                None => return Err(SettlementError::InvalidRoute),
            };
            require_supported_currency(destination)?;
        },
        SettlementType::FiatToFiat => {
            let origin = match route.origin {
                Some(o) => o,
                None => return Err(SettlementError::InvalidRoute),
            };
            let destination = match route.destination {
                Some(d) => d,
                None => return Err(SettlementError::InvalidRoute),
            };
            require_supported_currency(origin)?;
            require_supported_currency(destination)?;
            if origin == destination {
                return Err(SettlementError::InvalidRoute);
            }
        },
    }
    Ok(())
}

} // verus!
