use std::collections::HashMap;

use oynk_settlement::events::RequestEvent;
use oynk_settlement::lifecycle::{EntryPoint, EscrowMovement, ProtocolConfig, Transition};
use oynk_settlement::protocol::OynkSettlementProtocol;
use oynk_settlement::{
    ensure_active_for_dispute, ensure_not_expired, ensure_positive, ensure_status,
    read_is_expired,
};
use oynk_settlement::{
    Account, ConfirmationType, Digest, DisputeResolution, FundingStatus, RequestStatus,
    SettlementError, SettlementRequest, SettlementRoute, SettlementType, SettlerType, EUR, USD,
};

/// Why a simulated contract call failed.
#[derive(Debug, PartialEq)]
enum Failure {
    Auth,
    Token,
    Contract(u32),
}

impl From<SettlementError> for Failure {
    fn from(e: SettlementError) -> Self {
        Failure::Contract(e.code())
    }
}

/// The contract's host around the library: instance and request storage,
/// token balances and authorization, as a Soroban test environment keeps them.
struct Fixture {
    config: ProtocolConfig,
    ledger: u32,
    mock_auth: bool,
    auths: Vec<Account>,
    requests: HashMap<u64, SettlementRequest>,
    balances: HashMap<Account, i128>,
    contract_id: Account,
    admin: Account,
    manager: Account,
    generated: u32,
}

fn account(prefix: u8, n: u32) -> Account {
    let mut strkey = [b'A'; 56];
    strkey[0] = prefix;
    let digits = n.to_string();
    for (i, b) in digits.bytes().enumerate() {
        strkey[55 - i] = b;
    }
    Account { strkey }
}

fn hash(byte: u8) -> Digest {
    [byte; 32]
}

fn fixture() -> Fixture {
    fixture_with_auth(true)
}

fn fixture_with_auth(mock_auth: bool) -> Fixture {
    let admin = account(b'G', 1);
    let manager = account(b'G', 2);
    let token_id = account(b'C', 3);
    let contract_id = account(b'C', 4);
    let config =
        OynkSettlementProtocol::__constructor(false, admin, manager, token_id).unwrap();
    Fixture {
        config,
        ledger: 0,
        mock_auth,
        auths: Vec::new(),
        requests: HashMap::new(),
        balances: HashMap::new(),
        contract_id,
        admin,
        manager,
        generated: 100,
    }
}

impl Fixture {
    fn generate(&mut self) -> Account {
        self.generated += 1;
        account(b'G', self.generated)
    }

    fn balance(&self, who: &Account) -> i128 {
        *self.balances.get(who).unwrap_or(&0)
    }

    fn mint(&mut self, to: &Account, amount: i128) {
        *self.balances.entry(*to).or_insert(0) += amount;
    }

    fn transfer(&mut self, from: Account, to: Account, amount: i128) -> Result<(), Failure> {
        if self.balance(&from) < amount {
            return Err(Failure::Token);
        }
        *self.balances.entry(from).or_insert(0) -= amount;
        *self.balances.entry(to).or_insert(0) += amount;
        Ok(())
    }

    fn authorize(&mut self, entry: EntryPoint) -> Result<(), Failure> {
        let signer = self.config.required_signer(&entry);
        if !self.mock_auth {
            return Err(Failure::Auth);
        }
        self.auths = vec![signer];
        Ok(())
    }

    fn stored(&self, id: u64) -> Option<SettlementRequest> {
        self.requests.get(&id).copied()
    }

    fn apply(&mut self, id: u64, t: Transition) -> Result<(), Failure> {
        match t.movement {
            Some(EscrowMovement::Deposit { from, amount }) => {
                self.transfer(from, self.contract_id, amount)?
            }
            Some(EscrowMovement::Payout { to, amount }) => {
                self.transfer(self.contract_id, to, amount)?
            }
            None => {}
        }
        self.requests.insert(id, t.request);
        Ok(())
    }

    fn create_request(
        &mut self,
        creator: &Account,
        settlement_type: SettlementType,
        origin: Option<u32>,
        destination: Option<u32>,
        amount: i128,
        deadline: u32,
        seed: u8,
    ) -> Result<u64, Failure> {
        self.authorize(EntryPoint::CreateSettlementRequest { creator: *creator })?;
        let (id, request, _event) = OynkSettlementProtocol::create_settlement_request(
            &mut self.config,
            self.ledger,
            *creator,
            hash(seed),
            hash(seed.wrapping_add(1)),
            SettlementRoute { origin, destination },
            settlement_type,
            amount,
            deadline,
        )?;
        self.requests.insert(id, request);
        Ok(id)
    }

    fn set_quote(&mut self, id: u64, source_amount: Option<i128>, amount: i128, seed: u8) -> Result<(), Failure> {
        self.authorize(EntryPoint::SetSettlementQuote)?;
        let t = OynkSettlementProtocol::set_settlement_quote(
            self.ledger,
            self.stored(id),
            id,
            source_amount,
            amount,
            hash(seed),
        )?;
        self.apply(id, t)
    }

    fn accept(&mut self, id: u64, kind: SettlerType, settler: &Account) -> Result<(), Failure> {
        self.authorize(EntryPoint::AcceptSettlement { settler: *settler })?;
        let t = OynkSettlementProtocol::accept_settlement(self.ledger, self.stored(id), id, kind, *settler)?;
        self.apply(id, t)
    }

    fn deposit(&mut self, id: u64, depositor: &Account) -> Result<(), Failure> {
        self.authorize(EntryPoint::DepositSettlementAsset { depositor: *depositor })?;
        let t = OynkSettlementProtocol::deposit_settlement_asset(
            &self.config,
            self.ledger,
            self.stored(id),
            id,
            *depositor,
        )?;
        self.apply(id, t)
    }

    fn confirm(&mut self, id: u64, kind: ConfirmationType, seed: u8) -> Result<(), Failure> {
        self.authorize(EntryPoint::ConfirmSettlement)?;
        let t = OynkSettlementProtocol::confirm_settlement(self.ledger, self.stored(id), id, kind, hash(seed))?;
        self.apply(id, t)
    }

    fn claim(&mut self, id: u64, claimant: &Account) -> Result<(), Failure> {
        self.authorize(EntryPoint::ClaimSettlementAsset { claimant: *claimant })?;
        let t = OynkSettlementProtocol::claim_settlement_asset(&self.config, self.stored(id), id, *claimant)?;
        self.apply(id, t)
    }

    fn refund(&mut self, id: u64) -> Result<(), Failure> {
        self.authorize(EntryPoint::RefundSettler)?;
        let t = OynkSettlementProtocol::refund_settler(&self.config, self.stored(id), id)?;
        self.apply(id, t)
    }

    fn dispute(&mut self, caller: &Account, id: u64, seed: u8) -> Result<(), Failure> {
        self.authorize(EntryPoint::Dispute { caller: *caller })?;
        let t = OynkSettlementProtocol::dispute(&self.config, self.stored(id), *caller, id, hash(seed))?;
        self.apply(id, t)
    }

    fn resolve(&mut self, id: u64, resolution: DisputeResolution) -> Result<(), Failure> {
        self.authorize(EntryPoint::Resolve)?;
        let t = OynkSettlementProtocol::resolve(&self.config, self.stored(id), id, resolution)?;
        self.apply(id, t)
    }

    fn cancel(&mut self, id: u64, caller: &Account) -> Result<(), Failure> {
        self.authorize(EntryPoint::Cancel { caller: *caller })?;
        let t = OynkSettlementProtocol::cancel(&self.config, self.stored(id), id, *caller)?;
        self.apply(id, t)
    }

    fn update_manager(&mut self, new_manager: &Account) -> Result<(), Failure> {
        self.authorize(EntryPoint::UpdateManager)?;
        OynkSettlementProtocol::update_manager(&mut self.config, *new_manager);
        Ok(())
    }

    fn upgrade(&mut self) -> Result<(), Failure> {
        self.authorize(EntryPoint::Upgrade)
    }
}

fn funded_fiat_to_crypto(
    fixture: &mut Fixture,
    creator: &Account,
    source_settler: &Account,
    amount: i128,
    seed: u8,
) -> u64 {
    fixture.mint(source_settler, amount);
    let id = fixture
        .create_request(creator, SettlementType::FiatToCrypto, Some(USD), None, amount, 100, seed)
        .unwrap();
    fixture.set_quote(id, Some(amount), amount, 20).unwrap();
    fixture.accept(id, SettlerType::Source, source_settler).unwrap();
    fixture.deposit(id, source_settler).unwrap();
    id
}

#[test]
fn fiat_to_crypto_completes_with_exact_escrow_transfer() {
    let mut fixture = fixture();
    let creator = fixture.generate();
    let source_settler = fixture.generate();
    let amount = 50_000_000i128;

    fixture.mint(&source_settler, amount);

    let id = fixture
        .create_request(&creator, SettlementType::FiatToCrypto, Some(USD), None, amount, 100, 1)
        .unwrap();
    fixture.set_quote(id, Some(amount), amount, 3).unwrap();
    fixture.accept(id, SettlerType::Source, &source_settler).unwrap();
    fixture.deposit(id, &source_settler).unwrap();
    fixture.confirm(id, ConfirmationType::SourceSettlement, 4).unwrap();
    fixture.claim(id, &creator).unwrap();

    assert_eq!(fixture.balance(&source_settler), 0);
    assert_eq!(fixture.balance(&creator), amount);
}

#[test]
fn fiat_to_fiat_requires_both_settlement_legs_before_claim() {
    let mut fixture = fixture();
    let creator = fixture.generate();
    let source_settler = fixture.generate();
    let destination_settler = fixture.generate();
    let amount = 150_000_000i128;

    fixture.mint(&source_settler, amount);

    let id = fixture
        .create_request(&creator, SettlementType::FiatToFiat, Some(USD), Some(EUR), amount, 100, 5)
        .unwrap();
    fixture.set_quote(id, Some(amount), amount, 7).unwrap();
    fixture.accept(id, SettlerType::Source, &source_settler).unwrap();
    fixture.deposit(id, &source_settler).unwrap();
    fixture.confirm(id, ConfirmationType::SourceSettlement, 8).unwrap();
    fixture.accept(id, SettlerType::Destination, &destination_settler).unwrap();
    fixture.confirm(id, ConfirmationType::DestinationSettlement, 9).unwrap();
    fixture.claim(id, &destination_settler).unwrap();

    assert_eq!(fixture.balance(&destination_settler), amount);
}

#[test]
fn state_changing_calls_require_the_expected_authority() {
    let mut unauthenticated = fixture_with_auth(false);
    let creator = unauthenticated.generate();
    let create_result = unauthenticated.create_request(
        &creator,
        SettlementType::FiatToCrypto,
        Some(USD),
        None,
        1,
        100,
        30,
    );
    assert!(create_result.is_err());

    let mut fixture = fixture();
    let creator = fixture.generate();
    let id = fixture
        .create_request(&creator, SettlementType::FiatToCrypto, Some(USD), None, 1, 100, 32)
        .unwrap();
    assert_eq!(id, 1);
    assert_eq!(fixture.auths[0], creator);

    fixture.set_quote(id, Some(1), 1, 20).unwrap();
    assert_eq!(fixture.auths[0], fixture.manager);

    let new_manager = fixture.generate();
    fixture.update_manager(&new_manager).unwrap();
    assert_eq!(fixture.auths[0], fixture.admin);
}

#[test]
fn quotes_acceptance_deposits_and_claims_are_replay_safe() {
    let mut fixture = fixture();
    let creator = fixture.generate();
    let source_settler = fixture.generate();
    let amount = 25_000_000i128;
    fixture.mint(&source_settler, amount);

    let id = fixture
        .create_request(&creator, SettlementType::FiatToCrypto, Some(USD), None, amount, 100, 40)
        .unwrap();
    fixture.set_quote(id, Some(amount), amount, 20).unwrap();
    assert_eq!(fixture.set_quote(id, Some(amount), amount, 41), Err(Failure::Contract(208)));

    fixture.accept(id, SettlerType::Source, &source_settler).unwrap();
    assert_eq!(fixture.auths[0], source_settler);
    assert_eq!(
        fixture.accept(id, SettlerType::Source, &source_settler),
        Err(Failure::Contract(207))
    );

    fixture.deposit(id, &source_settler).unwrap();
    assert_eq!(fixture.auths[0], source_settler);
    assert_eq!(fixture.deposit(id, &source_settler), Err(Failure::Contract(207)));

    fixture.confirm(id, ConfirmationType::SourceSettlement, 42).unwrap();
    assert_eq!(fixture.auths[0], fixture.manager);
    fixture.claim(id, &creator).unwrap();
    assert_eq!(fixture.auths[0], creator);
    assert_eq!(fixture.claim(id, &creator), Err(Failure::Contract(207)));
    assert_eq!(fixture.balance(&creator), amount);
    assert_eq!(fixture.balance(&fixture.contract_id), 0);
}

#[test]
fn expired_requests_reject_late_state_transitions() {
    let mut fixture = fixture();
    let creator = fixture.generate();
    let id = fixture
        .create_request(&creator, SettlementType::FiatToCrypto, Some(USD), None, 100, 5, 50)
        .unwrap();
    fixture.ledger = 6;

    assert_eq!(fixture.set_quote(id, Some(100), 100, 51), Err(Failure::Contract(209)));
}

#[test]
fn cancellation_requires_a_participant_and_is_terminal() {
    let mut fixture = fixture();
    let creator = fixture.generate();
    let stranger = fixture.generate();
    let id = fixture
        .create_request(&creator, SettlementType::FiatToCrypto, Some(USD), None, 100, 100, 60)
        .unwrap();

    assert_eq!(fixture.cancel(id, &stranger), Err(Failure::Contract(232)));
    fixture.cancel(id, &creator).unwrap();
    assert_eq!(fixture.cancel(id, &creator), Err(Failure::Contract(207)));
}

#[test]
fn refund_returns_the_exact_deposit_and_cannot_repeat() {
    let mut fixture = fixture();
    let creator = fixture.generate();
    let source_settler = fixture.generate();
    let amount = 70_000_000i128;
    let id = funded_fiat_to_crypto(&mut fixture, &creator, &source_settler, amount, 70);

    fixture.refund(id).unwrap();
    assert_eq!(fixture.auths[0], fixture.manager);
    assert_eq!(fixture.balance(&source_settler), amount);
    assert_eq!(fixture.balance(&fixture.contract_id), 0);
    assert_eq!(fixture.refund(id), Err(Failure::Contract(207)));
}

#[test]
fn disputes_reject_outsiders_and_refund_the_depositor() {
    let mut fixture = fixture();
    let creator = fixture.generate();
    let source_settler = fixture.generate();
    let outsider = fixture.generate();
    let amount = 80_000_000i128;
    let id = funded_fiat_to_crypto(&mut fixture, &creator, &source_settler, amount, 80);

    assert_eq!(fixture.dispute(&outsider, id, 81), Err(Failure::Contract(232)));
    fixture.dispute(&creator, id, 82).unwrap();
    assert_eq!(fixture.auths[0], creator);
    assert_eq!(fixture.dispute(&creator, id, 83), Err(Failure::Contract(207)));
    fixture.resolve(id, DisputeResolution::RefundDepositor).unwrap();
    assert_eq!(fixture.auths[0], fixture.manager);
    assert_eq!(fixture.balance(&source_settler), amount);
    assert_eq!(fixture.balance(&fixture.contract_id), 0);
}

#[test]
fn dispute_release_pays_the_authorized_claimant_once() {
    let mut fixture = fixture();
    let creator = fixture.generate();
    let source_settler = fixture.generate();
    let amount = 90_000_000i128;
    let id = funded_fiat_to_crypto(&mut fixture, &creator, &source_settler, amount, 90);

    fixture.dispute(&source_settler, id, 91).unwrap();
    assert_eq!(fixture.auths[0], source_settler);
    fixture.resolve(id, DisputeResolution::ReleaseToClaimant).unwrap();
    assert_eq!(fixture.auths[0], fixture.manager);
    assert_eq!(fixture.balance(&creator), amount);
    assert_eq!(fixture.balance(&fixture.contract_id), 0);
    assert_eq!(
        fixture.resolve(id, DisputeResolution::ReleaseToClaimant),
        Err(Failure::Contract(207))
    );
}

#[test]
fn premature_and_wrong_party_actions_fail_without_moving_value() {
    let mut fixture = fixture();
    let creator = fixture.generate();
    let source_settler = fixture.generate();
    let stranger = fixture.generate();
    let amount = 40_000_000i128;
    fixture.mint(&source_settler, amount);
    fixture.mint(&stranger, amount);
    let id = fixture
        .create_request(&creator, SettlementType::FiatToCrypto, Some(USD), None, amount, 100, 100)
        .unwrap();

    assert_eq!(fixture.claim(id, &creator), Err(Failure::Contract(207)));
    assert_eq!(fixture.refund(id), Err(Failure::Contract(228)));
    fixture.set_quote(id, Some(amount), amount, 20).unwrap();
    fixture.accept(id, SettlerType::Source, &source_settler).unwrap();
    assert_eq!(fixture.deposit(id, &stranger), Err(Failure::Contract(232)));
    assert_eq!(fixture.balance(&stranger), amount);
    assert_eq!(fixture.balance(&fixture.contract_id), 0);

    fixture.deposit(id, &source_settler).unwrap();
    assert_eq!(fixture.cancel(id, &creator), Err(Failure::Contract(245)));
    assert_eq!(fixture.balance(&fixture.contract_id), amount);
}

#[test]
fn upgrade_requires_admin_authorization_and_accepts_an_installed_hash() {
    let mut unauthenticated = fixture_with_auth(false);
    assert!(unauthenticated.upgrade().is_err());

    let mut fixture = fixture();
    fixture.upgrade().unwrap();
    assert_eq!(fixture.auths[0], fixture.admin);
}

#[test]
fn amount_conservation_holds_across_representative_positive_values() {
    for (index, amount) in [1i128, 10, 10_000_000, 123_456_789, 9_000_000_000]
        .into_iter()
        .enumerate()
    {
        let mut fixture = fixture();
        let creator = fixture.generate();
        let source_settler = fixture.generate();
        let id = funded_fiat_to_crypto(
            &mut fixture,
            &creator,
            &source_settler,
            amount,
            120u8.wrapping_add(index as u8),
        );
        fixture.confirm(id, ConfirmationType::SourceSettlement, 130).unwrap();
        fixture.claim(id, &creator).unwrap();

        assert_eq!(fixture.balance(&creator), amount);
        assert_eq!(fixture.balance(&source_settler), 0);
        assert_eq!(fixture.balance(&fixture.contract_id), 0);
    }
}

// ---- further scenarios of the library's own ----

#[test]
fn constructor_refuses_a_second_initialization() {
    let admin = account(b'G', 1);
    let manager = account(b'G', 2);
    let asset = account(b'C', 3);
    assert_eq!(
        OynkSettlementProtocol::__constructor(true, admin, manager, asset),
        Err(SettlementError::AlreadyInitialized)
    );
    let config = OynkSettlementProtocol::__constructor(false, admin, manager, asset).unwrap();
    assert_eq!(config.next_id, 1);
    assert_eq!(config.admin, admin);
    assert_eq!(config.manager, manager);
    assert_eq!(config.settlement_asset, asset);
}

#[test]
fn admin_and_manager_updates_report_the_old_admin() {
    let mut fixture = fixture();
    let new_admin = fixture.generate();
    let event = OynkSettlementProtocol::update_admin(&mut fixture.config, new_admin);
    assert_eq!(event.admin, fixture.admin);
    assert_eq!(event.new_admin, new_admin);
    assert_eq!(fixture.config.admin, new_admin);
    let new_manager = fixture.generate();
    let event = OynkSettlementProtocol::update_manager(&mut fixture.config, new_manager);
    assert_eq!(event.admin, new_admin);
    assert_eq!(fixture.config.manager, new_manager);
    assert_eq!(fixture.config.required_signer(&EntryPoint::Resolve), new_manager);
    assert_eq!(fixture.config.required_signer(&EntryPoint::UpdateAdmin), new_admin);
}

#[test]
fn creation_validates_amount_deadline_route_and_id_space() {
    let mut fixture = fixture();
    let creator = fixture.generate();
    fixture.ledger = 10;
    assert_eq!(
        fixture.create_request(&creator, SettlementType::FiatToCrypto, Some(USD), None, 0, 100, 1),
        Err(Failure::Contract(203))
    );
    assert_eq!(
        fixture.create_request(&creator, SettlementType::FiatToCrypto, Some(USD), None, 5, 10, 1),
        Err(Failure::Contract(201))
    );
    assert_eq!(
        fixture.create_request(&creator, SettlementType::FiatToCrypto, Some(1), None, 5, 11, 1),
        Err(Failure::Contract(205))
    );
    assert_eq!(
        fixture.create_request(&creator, SettlementType::CryptoToFiat, Some(USD), None, 5, 11, 1),
        Err(Failure::Contract(204))
    );
    assert_eq!(fixture.config.next_id, 1);
    let first = fixture
        .create_request(&creator, SettlementType::FiatToCrypto, Some(USD), None, 5, 11, 1)
        .unwrap();
    let second = fixture
        .create_request(&creator, SettlementType::CryptoToFiat, None, Some(EUR), 5, 11, 1)
        .unwrap();
    assert_eq!((first, second), (1, 2));
    let stored = fixture.stored(first).unwrap();
    assert_eq!(stored.created_ledger, 10);
    assert_eq!(stored.status, RequestStatus::Created);
    assert_eq!(stored.funding_status, FundingStatus::PendingQuote);

    fixture.config.next_id = u64::MAX;
    assert_eq!(
        fixture.create_request(&creator, SettlementType::FiatToCrypto, Some(USD), None, 5, 11, 1),
        Err(Failure::Contract(202))
    );
    assert_eq!(fixture.config.next_id, u64::MAX);
}

#[test]
fn missing_requests_are_reported() {
    let mut fixture = fixture();
    let someone = fixture.generate();
    assert_eq!(fixture.set_quote(9, Some(1), 1, 1), Err(Failure::Contract(206)));
    assert_eq!(fixture.set_quote(9, Some(1), 0, 1), Err(Failure::Contract(203)));
    assert_eq!(fixture.accept(9, SettlerType::Source, &someone), Err(Failure::Contract(206)));
    assert_eq!(fixture.deposit(9, &someone), Err(Failure::Contract(206)));
    assert_eq!(
        fixture.confirm(9, ConfirmationType::SourceSettlement, 1),
        Err(Failure::Contract(206))
    );
    assert_eq!(fixture.claim(9, &someone), Err(Failure::Contract(206)));
    assert_eq!(fixture.refund(9), Err(Failure::Contract(206)));
    assert_eq!(fixture.dispute(&someone, 9, 1), Err(Failure::Contract(206)));
    assert_eq!(fixture.resolve(9, DisputeResolution::RefundDepositor), Err(Failure::Contract(206)));
    assert_eq!(fixture.cancel(9, &someone), Err(Failure::Contract(206)));
}

#[test]
fn crypto_to_fiat_is_funded_by_the_creator_and_claimed_by_the_destination_settler() {
    let mut fixture = fixture();
    let creator = fixture.generate();
    let destination_settler = fixture.generate();
    let amount = 1_000i128;
    fixture.mint(&creator, amount);
    let id = fixture
        .create_request(&creator, SettlementType::CryptoToFiat, None, Some(EUR), 777, 100, 9)
        .unwrap();
    assert_eq!(fixture.set_quote(id, Some(5), amount, 1), Err(Failure::Contract(203)));
    fixture.set_quote(id, None, amount, 1).unwrap();
    assert_eq!(
        fixture.accept(id, SettlerType::Source, &destination_settler),
        Err(Failure::Contract(214))
    );
    assert_eq!(
        fixture.confirm(id, ConfirmationType::SourceSettlement, 2),
        Err(Failure::Contract(210))
    );
    assert_eq!(fixture.deposit(id, &destination_settler), Err(Failure::Contract(232)));
    fixture.deposit(id, &creator).unwrap();
    assert_eq!(fixture.balance(&fixture.contract_id), amount);
    fixture.accept(id, SettlerType::Destination, &destination_settler).unwrap();
    let assignment = fixture.stored(id).unwrap().settlers.destination.unwrap();
    assert_eq!(assignment.fiat_amount, 777);
    assert_eq!(assignment.settlement_asset_amount, amount);
    assert_eq!(fixture.claim(id, &destination_settler), Err(Failure::Contract(207)));
    fixture.confirm(id, ConfirmationType::DestinationSettlement, 3).unwrap();
    assert_eq!(fixture.claim(id, &creator), Err(Failure::Contract(232)));
    fixture.claim(id, &destination_settler).unwrap();
    assert_eq!(fixture.balance(&destination_settler), amount);
    assert_eq!(fixture.balance(&fixture.contract_id), 0);
    assert_eq!(fixture.stored(id).unwrap().status, RequestStatus::Completed);
}

#[test]
fn crypto_to_fiat_refund_returns_the_deposit_to_the_creator() {
    let mut fixture = fixture();
    let creator = fixture.generate();
    fixture.mint(&creator, 300);
    let id = fixture
        .create_request(&creator, SettlementType::CryptoToFiat, None, Some(GBP_CODE), 50, 100, 9)
        .unwrap();
    fixture.set_quote(id, None, 300, 1).unwrap();
    fixture.deposit(id, &creator).unwrap();
    assert_eq!(fixture.balance(&creator), 0);
    fixture.refund(id).unwrap();
    assert_eq!(fixture.balance(&creator), 300);
    assert_eq!(fixture.stored(id).unwrap().status, RequestStatus::Refunded);
    assert_eq!(fixture.cancel(id, &creator), Err(Failure::Contract(207)));
}

const GBP_CODE: u32 = 826;

#[test]
fn fiat_to_crypto_rejects_destination_legs_and_wrong_quotes() {
    let mut fixture = fixture();
    let creator = fixture.generate();
    let settler = fixture.generate();
    let id = fixture
        .create_request(&creator, SettlementType::FiatToCrypto, Some(USD), None, 10, 100, 9)
        .unwrap();
    assert_eq!(fixture.set_quote(id, None, 10, 1), Err(Failure::Contract(212)));
    assert_eq!(fixture.set_quote(id, Some(0), 10, 1), Err(Failure::Contract(203)));
    assert_eq!(fixture.accept(id, SettlerType::Source, &settler), Err(Failure::Contract(211)));
    fixture.set_quote(id, Some(10), 10, 1).unwrap();
    assert_eq!(
        fixture.accept(id, SettlerType::Destination, &settler),
        Err(Failure::Contract(215))
    );
    assert_eq!(
        fixture.confirm(id, ConfirmationType::DestinationSettlement, 1),
        Err(Failure::Contract(215))
    );
    assert_eq!(fixture.dispute(&creator, id, 1), Err(Failure::Contract(240)));
    assert_eq!(fixture.resolve(id, DisputeResolution::RefundDepositor), Err(Failure::Contract(207)));
}

#[test]
fn disputed_requests_cannot_be_refunded_or_cancelled() {
    let mut fixture = fixture();
    let creator = fixture.generate();
    let settler = fixture.generate();
    let id = funded_fiat_to_crypto(&mut fixture, &creator, &settler, 500, 1);
    let manager = fixture.manager;
    fixture.dispute(&manager, id, 2).unwrap();
    assert_eq!(fixture.refund(id), Err(Failure::Contract(238)));
    assert_eq!(fixture.cancel(id, &creator), Err(Failure::Contract(238)));
    let stored = fixture.stored(id).unwrap();
    assert_eq!(stored.status, RequestStatus::Disputed);
    assert_eq!(stored.settlement_evidence_hash, Some(hash(2)));
}

#[test]
fn ready_requests_cannot_be_refunded_or_cancelled() {
    let mut fixture = fixture();
    let creator = fixture.generate();
    let settler = fixture.generate();
    let id = funded_fiat_to_crypto(&mut fixture, &creator, &settler, 500, 1);
    fixture.confirm(id, ConfirmationType::SourceSettlement, 2).unwrap();
    assert_eq!(
        fixture.confirm(id, ConfirmationType::SourceSettlement, 3),
        Err(Failure::Contract(207))
    );
    assert_eq!(fixture.refund(id), Err(Failure::Contract(239)));
    assert_eq!(fixture.cancel(id, &creator), Err(Failure::Contract(239)));
    assert_eq!(fixture.claim(id, &settler), Err(Failure::Contract(232)));
}

#[test]
fn cancelled_requests_report_cancellation_to_refunds() {
    let mut fixture = fixture();
    let creator = fixture.generate();
    let manager = fixture.manager;
    let id = fixture
        .create_request(&creator, SettlementType::FiatToCrypto, Some(USD), None, 10, 100, 9)
        .unwrap();
    fixture.cancel(id, &manager).unwrap();
    assert_eq!(fixture.refund(id), Err(Failure::Contract(237)));
    assert_eq!(fixture.dispute(&creator, id, 1), Err(Failure::Contract(207)));
}

#[test]
fn quote_records_the_amounts_and_the_event() {
    let mut fixture = fixture();
    let creator = fixture.generate();
    let id = fixture
        .create_request(&creator, SettlementType::FiatToFiat, Some(USD), Some(EUR), 10, 100, 9)
        .unwrap();
    let t = OynkSettlementProtocol::set_settlement_quote(0, fixture.stored(id), id, Some(12), 11, hash(5))
        .unwrap();
    assert_eq!(t.request.source_amount, Some(12));
    assert_eq!(t.request.settler_amount, Some(11));
    assert_eq!(t.request.quote_evidence_hash, Some(hash(5)));
    assert_eq!(t.request.funding_status, FundingStatus::QuoteSet);
    assert_eq!(t.movement, None);
    match t.event {
        RequestEvent::Quote(e) => {
            assert_eq!((e.id, e.source_amount, e.settler_amount, e.quote_hash), (id, Some(12), 11, hash(5)));
        }
        other => panic!("unexpected event {:?}", other),
    }
}

#[test]
fn same_account_compares_every_byte() {
    let a = account(b'G', 12);
    let b = account(b'G', 13);
    let c = account(b'C', 12);
    assert!(a.same_as(&a));
    assert!(!a.same_as(&b));
    assert!(!a.same_as(&c));
}

#[test]
fn expired_requests_cannot_be_accepted_funded_or_confirmed() {
    let mut fixture = fixture();
    let creator = fixture.generate();
    let settler = fixture.generate();
    fixture.mint(&settler, 10);
    let id = fixture
        .create_request(&creator, SettlementType::FiatToCrypto, Some(USD), None, 10, 20, 1)
        .unwrap();
    fixture.set_quote(id, Some(10), 10, 2).unwrap();
    fixture.ledger = 20;
    fixture.accept(id, SettlerType::Source, &settler).unwrap();
    fixture.ledger = 21;
    assert_eq!(fixture.deposit(id, &settler), Err(Failure::Contract(209)));
    fixture.ledger = 20;
    fixture.deposit(id, &settler).unwrap();
    fixture.ledger = 21;
    assert_eq!(
        fixture.confirm(id, ConfirmationType::SourceSettlement, 3),
        Err(Failure::Contract(209))
    );
    // Expiry does not block the way out of escrow.
    fixture.refund(id).unwrap();
    assert_eq!(fixture.balance(&settler), 10);
}

#[test]
fn a_request_keeps_its_identity_through_its_lifecycle() {
    let mut fixture = fixture();
    let creator = fixture.generate();
    let source = fixture.generate();
    let destination = fixture.generate();
    fixture.mint(&source, 64);
    fixture.ledger = 3;
    let id = fixture
        .create_request(&creator, SettlementType::FiatToFiat, Some(USD), Some(EUR), 99, 50, 11)
        .unwrap();
    let created = fixture.stored(id).unwrap();
    let mut statuses = vec![created.status];
    fixture.set_quote(id, Some(70), 64, 1).unwrap();
    statuses.push(fixture.stored(id).unwrap().status);
    fixture.accept(id, SettlerType::Source, &source).unwrap();
    statuses.push(fixture.stored(id).unwrap().status);
    fixture.deposit(id, &source).unwrap();
    statuses.push(fixture.stored(id).unwrap().status);
    fixture.confirm(id, ConfirmationType::SourceSettlement, 2).unwrap();
    statuses.push(fixture.stored(id).unwrap().status);
    fixture.accept(id, SettlerType::Destination, &destination).unwrap();
    statuses.push(fixture.stored(id).unwrap().status);
    fixture.confirm(id, ConfirmationType::DestinationSettlement, 3).unwrap();
    statuses.push(fixture.stored(id).unwrap().status);
    fixture.claim(id, &destination).unwrap();
    let done = fixture.stored(id).unwrap();
    statuses.push(done.status);
    assert_eq!(
        statuses,
        vec![
            RequestStatus::Created,
            RequestStatus::Created,
            RequestStatus::SourceAccepted,
            RequestStatus::SettlementFunded,
            RequestStatus::SourceSettlementConfirmed,
            RequestStatus::SettlementInProgress,
            RequestStatus::ReadyForClaim,
            RequestStatus::Completed,
        ]
    );
    assert_eq!(done.id, created.id);
    assert_eq!(done.creator, created.creator);
    assert_eq!(done.sender_ref, hash(11));
    assert_eq!(done.recipient_ref, hash(12));
    assert_eq!(done.route, created.route);
    assert_eq!(done.settlement_type, created.settlement_type);
    assert_eq!(done.destination_amount, 99);
    assert_eq!(done.created_ledger, 3);
    assert_eq!(done.deadline_ledger, 50);
    assert_eq!(done.fiat_evidence_hash, Some(hash(2)));
    assert_eq!(done.settlement_evidence_hash, Some(hash(3)));
    let source_leg = done.settlers.source.unwrap();
    assert_eq!((source_leg.fiat_amount, source_leg.settlement_asset_amount), (70, 64));
    assert!(source_leg.confirmed);
    assert_eq!(done.settlers.destination.unwrap().proof_hash, Some(hash(3)));
    assert_eq!(fixture.balance(&destination), 64);
    assert_eq!(fixture.balance(&source), 0);
}

#[test]
fn every_call_on_a_closed_request_is_refused() {
    let mut fixture = fixture();
    let creator = fixture.generate();
    let settler = fixture.generate();
    let id = funded_fiat_to_crypto(&mut fixture, &creator, &settler, 5, 1);
    fixture.refund(id).unwrap();
    let manager = fixture.manager;
    assert!(fixture.set_quote(id, Some(5), 5, 1).is_err());
    assert!(fixture.accept(id, SettlerType::Source, &settler).is_err());
    assert!(fixture.deposit(id, &settler).is_err());
    assert!(fixture.confirm(id, ConfirmationType::SourceSettlement, 1).is_err());
    assert!(fixture.claim(id, &creator).is_err());
    assert!(fixture.refund(id).is_err());
    assert!(fixture.dispute(&manager, id, 1).is_err());
    assert!(fixture.resolve(id, DisputeResolution::ReleaseToClaimant).is_err());
    assert!(fixture.cancel(id, &manager).is_err());
    assert_eq!(fixture.balance(&settler), 5);
    assert_eq!(fixture.balance(&fixture.contract_id), 0);
}

#[test]
fn request_checks_report_status_expiry_and_dispute_eligibility() {
    let mut fixture = fixture();
    let creator = fixture.generate();
    let id = fixture
        .create_request(&creator, SettlementType::FiatToCrypto, Some(USD), None, 10, 7, 1)
        .unwrap();
    let mut r = fixture.stored(id).unwrap();
    assert!(!read_is_expired(7, &r));
    assert!(read_is_expired(8, &r));
    assert_eq!(ensure_not_expired(7, &r), Ok(()));
    assert_eq!(ensure_not_expired(8, &r), Err(SettlementError::SettlementExpired));
    assert_eq!(ensure_status(&r, RequestStatus::Created), Ok(()));
    assert_eq!(
        ensure_status(&r, RequestStatus::Completed),
        Err(SettlementError::InvalidRequestStatus)
    );
    assert_eq!(ensure_positive(3), Ok(()));
    assert_eq!(ensure_positive(0), Err(SettlementError::InvalidAmount));
    assert_eq!(ensure_active_for_dispute(&r), Ok(()));
    for closed in [
        RequestStatus::Completed,
        RequestStatus::Refunded,
        RequestStatus::Cancelled,
        RequestStatus::Disputed,
    ] {
        r.status = closed;
        assert_eq!(ensure_active_for_dispute(&r), Err(SettlementError::InvalidRequestStatus));
    }
    r.status = RequestStatus::ReadyForClaim;
    assert_eq!(ensure_active_for_dispute(&r), Ok(()));
}

#[test]
fn fiat_to_fiat_release_pays_the_destination_settler() {
    let mut fixture = fixture();
    let creator = fixture.generate();
    let source = fixture.generate();
    let destination = fixture.generate();
    fixture.mint(&source, 40);
    let id = fixture
        .create_request(&creator, SettlementType::FiatToFiat, Some(USD), Some(EUR), 9, 50, 1)
        .unwrap();
    fixture.set_quote(id, Some(9), 40, 1).unwrap();
    fixture.accept(id, SettlerType::Source, &source).unwrap();
    fixture.deposit(id, &source).unwrap();
    assert_eq!(
        fixture.accept(id, SettlerType::Destination, &destination),
        Err(Failure::Contract(207))
    );
    assert_eq!(
        fixture.resolve(id, DisputeResolution::ReleaseToClaimant),
        Err(Failure::Contract(207))
    );
    fixture.dispute(&source, id, 5).unwrap();
    assert_eq!(
        fixture.resolve(id, DisputeResolution::ReleaseToClaimant),
        Err(Failure::Contract(220))
    );
    fixture.resolve(id, DisputeResolution::RefundDepositor).unwrap();
    assert_eq!(fixture.balance(&source), 40);
    assert_eq!(fixture.stored(id).unwrap().status, RequestStatus::Refunded);
}
