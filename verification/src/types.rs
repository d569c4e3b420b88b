use vstd::prelude::*;

verus! {

broadcast use vstd::array::group_array_axioms;

/// ISO 4217 numeric code of a fiat currency.
pub type CurrencyCode = u32;

pub const USD: CurrencyCode = 840;
pub const GBP: CurrencyCode = 826;
pub const EUR: CurrencyCode = 978;
pub const CAD: CurrencyCode = 124;
pub const KWD: CurrencyCode = 414;
pub const NGN: CurrencyCode = 566;
pub const KES: CurrencyCode = 404;
pub const GHS: CurrencyCode = 936;
pub const ZAR: CurrencyCode = 710;

/// A 32-byte digest (evidence, proof and reference hashes).
pub type Digest = [u8; 32];

/// A ledger account or contract, identified by its strkey text (`G...` or `C...`).
#[derive(Clone, Copy, Debug, PartialEq, Eq, Hash)]
pub struct Account {
    pub strkey: [u8; 56],
}

impl Account {
    /// Whether two accounts are the same account.
    pub fn same_as(&self, other: &Account) -> (r: bool)
        ensures
            r == (*self == *other),
    {
        let mut i: usize = 0;
        while i < 56
            invariant
                0 <= i <= 56,
                forall|j: int| 0 <= j < i ==> self.strkey@[j] == other.strkey@[j],
            decreases 56 - i,
        {
            if self.strkey[i] != other.strkey[i] {
                return false;
            }
            i = i + 1;
        }
        assert(self.strkey =~= other.strkey);
        true
    }
}

#[derive(Clone, Copy, Debug, PartialEq, Eq, Structural)]
pub enum ConfirmationType {
    SourceSettlement,
    DestinationSettlement,
}

#[derive(Clone, Copy, Debug, PartialEq, Eq, Structural)]
pub enum SettlerType {
    Source,
    Destination,
}

/// The fiat currencies on either side of a settlement.
#[derive(Clone, Copy, Debug, PartialEq, Eq, Structural)]
pub struct SettlementRoute {
    pub origin: Option<u32>,
    pub destination: Option<u32>,
}

#[derive(Clone, Copy, Debug, PartialEq, Eq, Structural)]
pub enum DisputeResolution {
    ReleaseToClaimant,
    RefundDepositor,
}

#[derive(Clone, Copy, Debug, PartialEq, Eq, Structural)]
pub enum SettlementType {
    FiatToCrypto,
    CryptoToFiat,
    FiatToFiat,
}

#[derive(Clone, Copy, Debug, PartialEq, Eq, Structural)]
pub enum FundingStatus {
    PendingQuote,
    QuoteSet,
    FiatConfirmed,
    Ready,
}

#[derive(Clone, Copy, Debug, PartialEq, Eq, Structural)]
pub enum RequestStatus {
    Created,
    SourceAccepted,
    SettlementFunded,
    SourceSettlementConfirmed,
    SettlementInProgress,
    ReadyForClaim,
    Disputed,
    Completed,
    Cancelled,
    Refunded,
}

/// A settler's commitment on one leg of a settlement.
#[derive(Clone, Copy, Debug, PartialEq, Eq)]
pub struct SettlerAssignment {
    pub settler: Account,
    pub fiat_amount: i128,
    pub settlement_asset_amount: i128,
    pub confirmed: bool,
    pub proof_hash: Option<Digest>,
}

#[derive(Clone, Copy, Debug, PartialEq, Eq)]
pub struct RequestSettlers {
    pub source: Option<SettlerAssignment>,
    pub destination: Option<SettlerAssignment>,
}

/// A settlement request as the contract stores it.
#[derive(Clone, Copy, Debug, PartialEq, Eq)]
pub struct SettlementRequest {
    pub id: u64,
    pub creator: Account,
    pub sender_ref: Digest,
    pub recipient_ref: Digest,
    pub route: SettlementRoute,
    pub settlement_type: SettlementType,
    pub source_amount: Option<i128>,
    pub destination_amount: i128,
    pub settler_amount: Option<i128>,
    pub funding_status: FundingStatus,
    pub status: RequestStatus,
    pub created_ledger: u32,
    pub deadline_ledger: u32,
    pub settlers: RequestSettlers,
    pub quote_evidence_hash: Option<Digest>,
    pub fiat_evidence_hash: Option<Digest>,
    pub settlement_evidence_hash: Option<Digest>,
}

/// The keys under which the contract keeps its state.
#[derive(Clone, Copy, Debug, PartialEq, Eq, Structural)]
pub enum DataKey {
    Admin,
    Manager,
    SettlementAsset,
    NextId,
    Request(u64),
}

} // verus!
