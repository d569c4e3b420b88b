//! Verified settlement lifecycle of the Oynk two-sided settlement network.
//!
//! The library holds the protocol's rules as functions from plain values to
//! plain values: route and amount validation, the settlement request state
//! machine with its escrow movements and events, and the properties that hold
//! across the whole lifecycle. Storage, authorization and token transfers are
//! performed by the contract host around it.
pub mod disputes;
pub mod errors;
pub mod events;
pub mod laws;
pub mod lifecycle;
pub mod protocol;
pub mod registry;
pub mod treasury;
pub mod types;
pub mod utils;
pub mod validation;

pub use disputes::DisputesContract;
pub use errors::SettlementError;
pub use protocol::OynkSettlementProtocol;
pub use registry::RegistryContract;
pub use treasury::TreasuryContract;
pub use types::{
    Account, ConfirmationType, CurrencyCode, DataKey, Digest, DisputeResolution, FundingStatus,
    RequestSettlers, RequestStatus, SettlementRequest, SettlementRoute, SettlementType,
    SettlerAssignment, SettlerType, CAD, EUR, GBP, GHS, KES, KWD, NGN, USD, ZAR,
};
pub use utils::{
    ensure_active_for_dispute, ensure_not_expired, ensure_positive, ensure_status,
    read_is_expired,
};
pub use validation::{
    is_supported_currency, require_positive, require_supported_currency, require_valid_route,
};
