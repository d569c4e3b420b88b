use oynk_settlement::{
    is_supported_currency, require_positive, require_supported_currency, require_valid_route,
    SettlementError, SettlementRoute, SettlementType, CAD, EUR, GBP, GHS, KES, KWD, NGN, USD, ZAR,
};

#[test]
fn supported_currency_codes_are_accepted() {
    assert!(is_supported_currency(USD));
    assert!(is_supported_currency(GBP));
    assert!(is_supported_currency(EUR));
    assert!(!is_supported_currency(0));
}

#[test]
fn settlement_amounts_must_be_positive() {
    assert_eq!(require_positive(1), Ok(()));
    assert_eq!(require_positive(0), Err(SettlementError::InvalidAmount));
    assert_eq!(require_positive(-1), Err(SettlementError::InvalidAmount));
}

#[test]
fn fiat_to_crypto_requires_only_an_origin_currency() {
    let valid = SettlementRoute {
        origin: Some(USD),
        destination: None,
    };
    let invalid = SettlementRoute {
        origin: Some(USD),
        destination: Some(EUR),
    };

    assert_eq!(
        require_valid_route(&SettlementType::FiatToCrypto, &valid),
        Ok(())
    );
    assert_eq!(
        require_valid_route(&SettlementType::FiatToCrypto, &invalid),
        Err(SettlementError::InvalidRoute)
    );
}

#[test]
fn crypto_to_fiat_requires_only_a_destination_currency() {
    let valid = SettlementRoute {
        origin: None,
        destination: Some(GBP),
    };
    let invalid = SettlementRoute {
        origin: Some(USD),
        destination: Some(GBP),
    };

    assert_eq!(
        require_valid_route(&SettlementType::CryptoToFiat, &valid),
        Ok(())
    );
    assert_eq!(
        require_valid_route(&SettlementType::CryptoToFiat, &invalid),
        Err(SettlementError::InvalidRoute)
    );
}

#[test]
fn fiat_to_fiat_requires_distinct_supported_currencies() {
    let valid = SettlementRoute {
        origin: Some(USD),
        destination: Some(EUR),
    };
    let same_currency = SettlementRoute {
        origin: Some(USD),
        destination: Some(USD),
    };
    let unsupported = SettlementRoute {
        origin: Some(USD),
        destination: Some(999),
    };

    assert_eq!(
        require_valid_route(&SettlementType::FiatToFiat, &valid),
        Ok(())
    );
    assert_eq!(
        require_valid_route(&SettlementType::FiatToFiat, &same_currency),
        Err(SettlementError::InvalidRoute)
    );
    assert_eq!(
        require_valid_route(&SettlementType::FiatToFiat, &unsupported),
        Err(SettlementError::UnsupportedCurrency)
    );
}

#[test]
fn every_listed_currency_is_supported_and_nothing_else_nearby() {
    for code in [USD, GBP, EUR, CAD, KWD, NGN, KES, GHS, ZAR] {
        assert!(is_supported_currency(code));
        assert_eq!(require_supported_currency(code), Ok(()));
    }
    for code in [1, 392, 841, 999, u32::MAX] {
        assert!(!is_supported_currency(code));
        assert_eq!(
            require_supported_currency(code),
            Err(SettlementError::UnsupportedCurrency)
        );
    }
}

#[test]
fn routes_report_missing_legs_before_unsupported_currencies() {
    let no_origin = SettlementRoute { origin: None, destination: None };
    assert_eq!(
        require_valid_route(&SettlementType::FiatToCrypto, &no_origin),
        Err(SettlementError::InvalidRoute)
    );
    assert_eq!(
        require_valid_route(&SettlementType::CryptoToFiat, &no_origin),
        Err(SettlementError::InvalidRoute)
    );
    assert_eq!(
        require_valid_route(&SettlementType::FiatToFiat, &no_origin),
        Err(SettlementError::InvalidRoute)
    );
    let unsupported_origin = SettlementRoute { origin: Some(999), destination: Some(EUR) };
    // FiatToCrypto checks the origin's currency before the stray destination.
    assert_eq!(
        require_valid_route(&SettlementType::FiatToCrypto, &unsupported_origin),
        Err(SettlementError::UnsupportedCurrency)
    );
    // CryptoToFiat refuses any origin at all.
    assert_eq!(
        require_valid_route(&SettlementType::CryptoToFiat, &unsupported_origin),
        Err(SettlementError::InvalidRoute)
    );
    let unsupported_destination = SettlementRoute { origin: None, destination: Some(1) };
    assert_eq!(
        require_valid_route(&SettlementType::CryptoToFiat, &unsupported_destination),
        Err(SettlementError::UnsupportedCurrency)
    );
    let origin_only = SettlementRoute { origin: Some(NGN), destination: None };
    assert_eq!(
        require_valid_route(&SettlementType::FiatToFiat, &origin_only),
        Err(SettlementError::InvalidRoute)
    );
    let same_unsupported = SettlementRoute { origin: Some(7), destination: Some(7) };
    assert_eq!(
        require_valid_route(&SettlementType::FiatToFiat, &same_unsupported),
        Err(SettlementError::UnsupportedCurrency)
    );
}

#[test]
fn error_codes_match_the_published_numbers() {
    let table = [
        (SettlementError::AlreadyInitialized, 200),
        (SettlementError::BadDeadline, 201),
        (SettlementError::IdOverflow, 202),
        (SettlementError::InvalidAmount, 203),
        (SettlementError::InvalidRoute, 204),
        (SettlementError::UnsupportedCurrency, 205),
        (SettlementError::RequestNotFound, 206),
        (SettlementError::InvalidRequestStatus, 207),
        (SettlementError::BadFundingStatus, 208),
        (SettlementError::SettlementExpired, 209),
        (SettlementError::FiatFundingNotRequired, 210),
        (SettlementError::QuoteNotSet, 211),
        (SettlementError::SourceAmountMissing, 212),
        (SettlementError::SettlerAmountMissing, 213),
        (SettlementError::SourceSettlerNotNeeded, 214),
        (SettlementError::DestinationSettlerNotNeeded, 215),
        (SettlementError::FiatNotConfirmed, 216),
        (SettlementError::SourceSettlerMissing, 219),
        (SettlementError::DestinationSettlerMissing, 220),
        (SettlementError::ConditionFailed, 224),
        (SettlementError::SettlementAssetNotDeposited, 228),
        (SettlementError::PayoutExceedsDeposit, 230),
        (SettlementError::NotAuthorized, 232),
        (SettlementError::RequestCancelled, 237),
        (SettlementError::RequestDisputed, 238),
        (SettlementError::ReadyForClaim, 239),
        (SettlementError::NothingToDispute, 240),
        (SettlementError::AlreadyProcessed, 245),
    ];
    for (error, code) in table {
        assert_eq!(error.code(), code);
    }
}
