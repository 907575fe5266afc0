use clarity::abi::{encode_call as clarity_encode_call, AbiToken};
use clarity::{Address, PrivateKey, Uint256};
use orchestrator::batch_relaying::{
    batch_nonce_call, encode_batch_payload, oldest_submittable, relay_batches, select_batches,
    start_relaying,
    BatchCandidate, BatchRelay, BatchRelayAction, BatchRelayInput, BatchRelayReport,
    BatchRelayState, BatchStanding, BatchWork, SUBMIT_BATCH_SIGNATURE,
};
use orchestrator::error::BridgeError;
use orchestrator::gas::{AccountStatus, GasCost};
use orchestrator::message_signatures::{batch_confirm_hash, valset_confirm_hash};
use orchestrator::types::{
    BatchTransfer, BridgeId, Confirmation, EthAddress, EthSignature, TransactionBatch, Valset,
    ValsetMember,
};
use orchestrator::uint256::U256;
use orchestrator::valset_update::{
    choose_valset_update, encode_valset_payload, estimate_valset_cost, find_latest_valset,
    newest_submittable,
    send_eth_valset_update, start_valset_update, valset_nonce_call, ValsetCandidate, ValsetStanding, ValsetUpdate,
    ValsetUpdateAction, ValsetUpdateInput, ValsetUpdateOutcome, ValsetUpdateState,
    UPDATE_VALSET_SIGNATURE,
};

const THRESHOLD: u64 = 66;

fn bridge_id() -> BridgeId {
    BridgeId::new("foo").unwrap()
}

fn key(seed: u8) -> PrivateKey {
    PrivateKey::from_bytes([seed; 32]).unwrap()
}

fn address_of(key: &PrivateKey) -> EthAddress {
    EthAddress { bytes: key.to_address().as_bytes().try_into().unwrap() }
}

fn to_clarity(address: &EthAddress) -> Address {
    Address::from_slice(&address.bytes).unwrap()
}

fn to_u256(value: Uint256) -> U256 {
    U256::from_word(&value.to_be_bytes())
}

fn sign(key: &PrivateKey, digest: &[u8; 32]) -> EthSignature {
    let signature = key.sign_hash(digest);
    EthSignature {
        v: to_u256(signature.get_v()),
        r: to_u256(signature.get_r()),
        s: to_u256(signature.get_s()),
    }
}

fn confirm(key: &PrivateKey, digest: &[u8; 32]) -> Confirmation {
    Confirmation { eth_address: address_of(key), signature: sign(key, digest) }
}

/// Three validators with 50, 30 and 20 of 100 voting power.
fn valset(nonce: u64) -> Valset {
    Valset {
        nonce,
        members: vec![
            ValsetMember { power: 50, eth_address: Some(address_of(&key(1))) },
            ValsetMember { power: 30, eth_address: Some(address_of(&key(2))) },
            ValsetMember { power: 20, eth_address: Some(address_of(&key(3))) },
        ],
    }
}

/// A candidate set with the given nonce, confirmed by the validators with the
/// given key seeds.
fn valset_candidate(nonce: u64, signers: &[u8]) -> ValsetCandidate {
    let mut new_valset = valset(nonce);
    new_valset.members[0].power = 40;
    new_valset.members[1].power = 40;
    let digest = valset_confirm_hash(&bridge_id(), &new_valset);
    ValsetCandidate {
        valset: new_valset,
        confirmations: signers.iter().map(|seed| confirm(&key(*seed), &digest)).collect(),
    }
}

fn valset_standings(entries: &[(u64, bool)]) -> Vec<ValsetStanding> {
    entries.iter().map(|(nonce, signed)| ValsetStanding { nonce: *nonce, signed: *signed }).collect()
}

fn batch_standings(entries: &[(EthAddress, u64, bool)]) -> Vec<BatchStanding> {
    entries
        .iter()
        .map(|(token_contract, nonce, signed)| BatchStanding {
            token_contract: *token_contract,
            nonce: *nonce,
            signed: *signed,
        })
        .collect()
}

fn token(byte: u8) -> EthAddress {
    EthAddress { bytes: [byte; 20] }
}

fn batch(token_contract: EthAddress, nonce: u64) -> TransactionBatch {
    TransactionBatch {
        nonce,
        token_contract,
        transfers: vec![BatchTransfer {
            destination: EthAddress { bytes: [0x22; 20] },
            amount: U256::from_u64(1000 + nonce),
            fee: U256::from_u64(1),
        }],
        timeout_block: 5000,
    }
}

/// A candidate batch, confirmed by the validators with the given key seeds.
fn batch_candidate(token_contract: EthAddress, nonce: u64, signers: &[u8]) -> BatchCandidate {
    let batch = batch(token_contract, nonce);
    let digest = batch_confirm_hash(&bridge_id(), &batch);
    BatchCandidate {
        batch,
        confirmations: Ok(signers.iter().map(|seed| confirm(&key(*seed), &digest)).collect()),
    }
}

fn update(new_nonce: u64, old_nonce: u64, signers: &[u8]) -> ValsetUpdate {
    let candidate = valset_candidate(new_nonce, signers);
    ValsetUpdate {
        new_valset: candidate.valset,
        old_valset: valset(old_nonce),
        confirmations: candidate.confirmations,
        bridge_id: bridge_id(),
        threshold: THRESHOLD,
    }
}

/// A bridge contract in memory, as far as the relayers deal with it.
struct FakeContract {
    valset_nonce: u64,
    batch_nonces: Vec<(EthAddress, u64)>,
    transactions: Vec<Vec<u8>>,
}

impl FakeContract {
    fn batch_nonce(&self, token_contract: &EthAddress) -> u64 {
        self.batch_nonces.iter().find(|(t, _)| t == token_contract).map(|(_, n)| *n).unwrap_or(0)
    }
}

/// Runs the submission of `update` against `contract`. Once the transaction
/// is sent, the contract holds `nonce_after`.
fn run_valset_update(
    update: ValsetUpdate,
    contract: &mut FakeContract,
    nonce_after: u64,
) -> Result<ValsetUpdateOutcome, BridgeError> {
    let (mut state, mut action) = start_valset_update(update);
    for _ in 0..10 {
        let input = match action {
            ValsetUpdateAction::ReadValsetNonce => {
                ValsetUpdateInput::ValsetNonce(Ok(contract.valset_nonce))
            }
            ValsetUpdateAction::Broadcast { payload } => {
                contract.transactions.push(payload);
                contract.valset_nonce = nonce_after;
                ValsetUpdateInput::Receipt(Ok(()))
            }
            ValsetUpdateAction::Finish(result) => {
                assert_eq!(state, ValsetUpdateState::Finished);
                return result;
            }
        };
        assert!(state.is_well_formed());
        let step = send_eth_valset_update(state, input);
        state = step.0;
        action = step.1;
    }
    panic!("the submission did not end");
}

/// Runs one cycle of the batch relayer against `contract`, which executes
/// every batch that is sent to it.
fn run_batch_relay(
    candidates: Vec<BatchCandidate>,
    contract: &mut FakeContract,
) -> (BatchRelayReport, Vec<EthAddress>) {
    let relay = BatchRelay {
        current_valset: valset(5),
        bridge_id: bridge_id(),
        threshold: THRESHOLD,
    };
    let mut candidates = Some(candidates);
    let mut asked = vec![];
    let (mut state, mut action) = start_relaying(relay);
    for _ in 0..50 {
        let input = match action {
            BatchRelayAction::FetchBatches => {
                BatchRelayInput::Batches(Ok(candidates.take().unwrap()))
            }
            BatchRelayAction::ReadBatchNonce { token_contract } => {
                asked.push(token_contract);
                BatchRelayInput::BatchNonce(Ok(contract.batch_nonce(&token_contract)))
            }
            BatchRelayAction::EstimateCost { .. } => BatchRelayInput::Cost(Ok(GasCost {
                gas: U256::from_u64(500_000),
                gas_price: U256::from_u64(1),
            })),
            BatchRelayAction::Broadcast { payload } => {
                contract.transactions.push(payload);
                BatchRelayInput::Receipt(Ok(()))
            }
            BatchRelayAction::Finish(report) => {
                assert_eq!(state, BatchRelayState::Finished);
                return (report, asked);
            }
        };
        assert!(state.is_well_formed());
        let step = relay_batches(state, input);
        state = step.0;
        action = step.1;
    }
    panic!("the cycle did not end");
}

fn payload_of(candidate: &BatchCandidate) -> Vec<u8> {
    encode_batch_payload(
        &valset(5),
        &candidate.batch,
        candidate.confirmations.as_ref().unwrap(),
        &bridge_id(),
        THRESHOLD,
    )
    .unwrap()
}

#[test]
fn newest_signed_valset_above_the_contract_is_picked() {
    // nonces 6, 7 and 8 over a contract at 5: only 7 has enough confirmations
    let pick = |entries: &[(u64, bool)]| newest_submittable(&valset_standings(entries), 5);
    assert_eq!(pick(&[(6, false), (7, true), (8, false)]), Some(1));
    assert_eq!(pick(&[(6, true), (7, true), (8, false)]), Some(1));
    assert_eq!(pick(&[(8, true), (7, true), (6, true)]), Some(0));
    assert_eq!(pick(&[(7, true), (8, true), (8, true)]), Some(1));
}

#[test]
fn no_valset_is_picked_at_or_below_the_contract_nonce() {
    let pick = |entries: &[(u64, bool)]| newest_submittable(&valset_standings(entries), 5);
    assert_eq!(pick(&[(3, true), (4, true), (5, true)]), None);
    assert_eq!(pick(&[(6, false), (7, false)]), None);
    assert_eq!(pick(&[]), None);
    assert_eq!(pick(&[(5, true), (6, true)]), Some(1));
}

#[test]
fn valset_relayer_submits_the_only_sufficiently_signed_candidate() {
    let candidates = vec![
        valset_candidate(6, &[3]),
        valset_candidate(7, &[1, 2]),
        valset_candidate(8, &[2, 3]),
    ];
    let current = valset(5);
    let found = find_latest_valset(&current, &candidates, &bridge_id(), THRESHOLD);
    assert_eq!(found, Some(1));
    let chosen = &candidates[1];
    let mut contract = FakeContract { valset_nonce: 5, batch_nonces: vec![], transactions: vec![] };
    let update = ValsetUpdate {
        new_valset: chosen.valset.clone(),
        old_valset: current.clone(),
        confirmations: chosen.confirmations.clone(),
        bridge_id: bridge_id(),
        threshold: THRESHOLD,
    };
    assert_eq!(run_valset_update(update, &mut contract, 7), Ok(ValsetUpdateOutcome::Updated));
    let payload = encode_valset_payload(
        &chosen.valset,
        &current,
        &chosen.confirmations,
        &bridge_id(),
        THRESHOLD,
    )
    .unwrap();
    assert_eq!(contract.transactions, vec![payload]);
}

#[test]
fn the_chosen_valset_update_is_that_of_the_newest_signed_candidate() {
    let candidates = vec![
        valset_candidate(6, &[3]),
        valset_candidate(7, &[1, 2]),
        valset_candidate(8, &[2, 3]),
    ];
    let expected = ValsetUpdate {
        new_valset: candidates[1].valset.clone(),
        old_valset: valset(5),
        confirmations: candidates[1].confirmations.clone(),
        bridge_id: bridge_id(),
        threshold: THRESHOLD,
    };
    assert_eq!(choose_valset_update(valset(5), candidates, bridge_id(), THRESHOLD), Some(expected));
    let unsigned = vec![valset_candidate(6, &[3]), valset_candidate(7, &[2])];
    assert_eq!(choose_valset_update(valset(5), unsigned, bridge_id(), THRESHOLD), None);
    let old = vec![valset_candidate(5, &[1, 2, 3])];
    assert_eq!(choose_valset_update(valset(5), old, bridge_id(), THRESHOLD), None);
}

#[test]
fn find_latest_valset_prefers_the_newest_of_several() {
    let candidates = vec![
        valset_candidate(8, &[1, 3]),
        valset_candidate(6, &[1, 2, 3]),
        valset_candidate(9, &[1]),
        valset_candidate(4, &[1, 2, 3]),
    ];
    assert_eq!(find_latest_valset(&valset(5), &candidates, &bridge_id(), THRESHOLD), Some(0));
    assert_eq!(find_latest_valset(&valset(8), &candidates, &bridge_id(), THRESHOLD), None);
    assert_eq!(find_latest_valset(&valset(5), &vec![], &bridge_id(), THRESHOLD), None);
}

#[test]
fn confirmations_of_another_bridge_do_not_count() {
    let candidates = vec![valset_candidate(7, &[1, 2, 3])];
    assert_eq!(find_latest_valset(&valset(5), &candidates, &bridge_id(), THRESHOLD), Some(0));
    assert_eq!(find_latest_valset(&valset(5), &candidates, &BridgeId::new("bar").unwrap(), THRESHOLD), None);
}

#[test]
fn valset_payload_matches_typed_encoding() {
    let update = update(7, 5, &[1, 3]);
    let payload = encode_valset_payload(
        &update.new_valset,
        &update.old_valset,
        &update.confirmations,
        &bridge_id(),
        THRESHOLD,
    )
    .unwrap();
    let digest = valset_confirm_hash(&bridge_id(), &update.new_valset);
    let addresses = |v: &Valset| -> Vec<Address> {
        v.members.iter().map(|m| to_clarity(&m.eth_address.unwrap())).collect()
    };
    let powers = |v: &Valset| -> Vec<u64> { v.members.iter().map(|m| m.power).collect() };
    let first = sign(&key(1), &digest);
    let third = sign(&key(3), &digest);
    let word = |x: U256| AbiToken::Bytes(x.to_word().to_vec());
    let number = |x: U256| AbiToken::Uint(Uint256::from_be_bytes(&x.to_word()));
    let expected = clarity_encode_call(
        UPDATE_VALSET_SIGNATURE,
        &[
            addresses(&update.new_valset).into(),
            powers(&update.new_valset).into(),
            7u64.into(),
            addresses(&update.old_valset).into(),
            powers(&update.old_valset).into(),
            5u64.into(),
            AbiToken::Dynamic(vec![number(first.v), 0u8.into(), number(third.v)]),
            AbiToken::Dynamic(vec![word(first.r), word(U256::zero()), word(third.r)]),
            AbiToken::Dynamic(vec![word(first.s), word(U256::zero()), word(third.s)]),
        ],
    )
    .unwrap();
    assert_eq!(payload, expected);
}

#[test]
fn valset_payload_needs_enough_signatures_of_the_old_set() {
    let update = update(7, 5, &[2, 3]);
    assert_eq!(
        encode_valset_payload(
            &update.new_valset,
            &update.old_valset,
            &update.confirmations,
            &bridge_id(),
            THRESHOLD,
        ),
        Err(BridgeError::InsufficientSignatures)
    );
}

#[test]
fn stale_valset_relay_ends_quietly_without_a_broadcast() {
    // another relayer has installed the new set already
    let mut contract = FakeContract { valset_nonce: 7, batch_nonces: vec![], transactions: vec![] };
    let outcome = run_valset_update(update(7, 5, &[1, 2, 3]), &mut contract, 7);
    assert_eq!(outcome, Ok(ValsetUpdateOutcome::Stale { found: 7 }));
    assert!(contract.transactions.is_empty());
}

#[test]
fn second_of_two_concurrent_valset_relayers_sends_nothing() {
    let mut contract = FakeContract { valset_nonce: 5, batch_nonces: vec![], transactions: vec![] };
    let first = run_valset_update(update(6, 5, &[1, 2, 3]), &mut contract, 6);
    let second = run_valset_update(update(6, 5, &[1, 2, 3]), &mut contract, 6);
    assert_eq!(first, Ok(ValsetUpdateOutcome::Updated));
    assert_eq!(second, Ok(ValsetUpdateOutcome::Stale { found: 6 }));
    assert_eq!(contract.transactions.len(), 1);
}

#[test]
fn valset_update_overtaken_after_the_receipt_is_no_error() {
    let mut contract = FakeContract { valset_nonce: 5, batch_nonces: vec![], transactions: vec![] };
    let outcome = run_valset_update(update(6, 5, &[1, 2, 3]), &mut contract, 9);
    assert_eq!(outcome, Ok(ValsetUpdateOutcome::Overtaken { found: 9 }));
    assert_eq!(contract.transactions.len(), 1);
}

#[test]
fn valset_update_without_enough_signatures_fails_after_the_preflight() {
    let mut contract = FakeContract { valset_nonce: 5, batch_nonces: vec![], transactions: vec![] };
    let outcome = run_valset_update(update(6, 5, &[3]), &mut contract, 6);
    assert_eq!(outcome, Err(BridgeError::InsufficientSignatures));
    assert!(contract.transactions.is_empty());
    // a stale relay is found out before the signatures are looked at
    let mut moved_on =
        FakeContract { valset_nonce: 6, batch_nonces: vec![], transactions: vec![] };
    let outcome = run_valset_update(update(6, 5, &[3]), &mut moved_on, 6);
    assert_eq!(outcome, Ok(ValsetUpdateOutcome::Stale { found: 6 }));
}

#[test]
fn valset_update_passes_on_the_errors_of_the_driver() {
    let (state, action) = start_valset_update(update(6, 5, &[1, 2, 3]));
    assert_eq!(action, ValsetUpdateAction::ReadValsetNonce);
    let (next, action) = send_eth_valset_update(
        state.clone(),
        ValsetUpdateInput::ValsetNonce(Err(BridgeError::Transport)),
    );
    assert_eq!(next, ValsetUpdateState::Finished);
    assert_eq!(action, ValsetUpdateAction::Finish(Err(BridgeError::Transport)));
    let (state, action) = send_eth_valset_update(state, ValsetUpdateInput::ValsetNonce(Ok(5)));
    assert!(matches!(action, ValsetUpdateAction::Broadcast { .. }));
    assert_eq!(state, ValsetUpdateState::AwaitingReceipt { new_nonce: 6 });
    let (next, action) = send_eth_valset_update(
        state,
        ValsetUpdateInput::Receipt(Err(BridgeError::ContractRevert)),
    );
    assert_eq!(next, ValsetUpdateState::Finished);
    assert_eq!(action, ValsetUpdateAction::Finish(Err(BridgeError::ContractRevert)));
    let (next, action) = send_eth_valset_update(
        ValsetUpdateState::AwaitingFinalNonce { new_nonce: 6 },
        ValsetUpdateInput::ValsetNonce(Err(BridgeError::Cancelled)),
    );
    assert_eq!(next, ValsetUpdateState::Finished);
    assert_eq!(action, ValsetUpdateAction::Finish(Err(BridgeError::Cancelled)));
}

#[test]
fn valset_cost_request_carries_the_payload() {
    let update = update(7, 5, &[1, 2]);
    let account = AccountStatus {
        balance: U256::from_u64(1_000_000),
        nonce: U256::from_u64(3),
        gas_price: U256::from_u64(20),
    };
    let sender = address_of(&key(9));
    let contract = EthAddress { bytes: [0xcc; 20] };
    let request = estimate_valset_cost(
        &update.new_valset,
        &update.old_valset,
        &update.confirmations,
        &account,
        sender,
        contract,
        &bridge_id(),
        THRESHOLD,
    )
    .unwrap();
    let payload = encode_valset_payload(
        &update.new_valset,
        &update.old_valset,
        &update.confirmations,
        &bridge_id(),
        THRESHOLD,
    )
    .unwrap();
    assert_eq!(request.data, payload);
    assert_eq!(request.gas, U256::from_u64(1_000_000));
    assert_eq!((request.from, request.to), (sender, contract));
    assert_eq!(
        estimate_valset_cost(
            &update.new_valset,
            &update.old_valset,
            &vec![],
            &account,
            sender,
            contract,
            &bridge_id(),
            THRESHOLD,
        ),
        Err(BridgeError::InsufficientSignatures)
    );
}

#[test]
fn oldest_signed_batch_of_a_token_is_picked() {
    let t = token(0x11);
    let pick = |entries: &[(EthAddress, u64, bool)]| oldest_submittable(&batch_standings(entries));
    // nonces 5 and 7 of one token, both sufficiently signed
    assert_eq!(pick(&[(t, 5, true), (t, 7, true)]), vec![0]);
    assert_eq!(pick(&[(t, 7, true), (t, 5, true)]), vec![1]);
    assert_eq!(pick(&[(t, 5, false), (t, 7, true)]), vec![1]);
    assert_eq!(pick(&[(t, 5, false), (t, 7, false)]), Vec::<usize>::new());
    assert_eq!(pick(&[(t, 5, true), (t, 5, true)]), vec![0]);
    assert_eq!(pick(&[]), Vec::<usize>::new());
}

#[test]
fn each_token_has_its_own_oldest_batch() {
    let (a, b) = (token(0x11), token(0x22));
    let standings =
        batch_standings(&[(a, 9, true), (b, 4, true), (a, 6, true), (b, 2, true), (a, 3, false)]);
    assert_eq!(oldest_submittable(&standings), vec![2, 3]);
}

#[test]
fn batch_relayer_selects_the_older_of_two_signed_batches() {
    let t = token(0x11);
    let candidates = vec![batch_candidate(t, 7, &[1, 2]), batch_candidate(t, 5, &[1, 2, 3])];
    assert_eq!(select_batches(&valset(5), &candidates, &bridge_id(), THRESHOLD), vec![1]);
    let expected = payload_of(&candidates[1]);
    let mut contract =
        FakeContract { valset_nonce: 5, batch_nonces: vec![(t, 4)], transactions: vec![] };
    let (report, asked) = run_batch_relay(candidates, &mut contract);
    assert_eq!(report, BatchRelayReport { submitted: 1, error: None });
    assert_eq!(asked, vec![t]);
    assert_eq!(contract.transactions, vec![expected]);
}

#[test]
fn batch_relayer_submits_the_oldest_batch_above_the_contract_nonce() {
    let t = token(0x11);
    let candidates = vec![batch_candidate(t, 6, &[1, 2]), batch_candidate(t, 4, &[1, 2])];
    let expected = payload_of(&candidates[1]);
    let mut contract =
        FakeContract { valset_nonce: 5, batch_nonces: vec![(t, 3)], transactions: vec![] };
    let (report, _) = run_batch_relay(candidates, &mut contract);
    assert_eq!(report, BatchRelayReport { submitted: 1, error: None });
    assert_eq!(contract.transactions, vec![expected]);
}

#[test]
fn batch_relayer_skips_a_batch_that_the_contract_has_passed() {
    let t = token(0x11);
    let candidates = vec![batch_candidate(t, 6, &[1, 2]), batch_candidate(t, 4, &[1, 2])];
    let mut contract =
        FakeContract { valset_nonce: 5, batch_nonces: vec![(t, 4)], transactions: vec![] };
    let (report, asked) = run_batch_relay(candidates, &mut contract);
    assert_eq!(report, BatchRelayReport { submitted: 0, error: None });
    assert_eq!(asked, vec![t]);
    assert!(contract.transactions.is_empty());
}

#[test]
fn batch_relayer_waits_for_signatures() {
    let t = token(0x11);
    let mut unfetched = batch_candidate(t, 3, &[1, 2, 3]);
    unfetched.confirmations = Err(BridgeError::Transport);
    let candidates = vec![batch_candidate(t, 4, &[3]), unfetched, batch_candidate(t, 5, &[2])];
    assert_eq!(
        select_batches(&valset(5), &candidates, &bridge_id(), THRESHOLD),
        Vec::<usize>::new()
    );
    let mut contract = FakeContract { valset_nonce: 5, batch_nonces: vec![], transactions: vec![] };
    let (report, asked) = run_batch_relay(candidates, &mut contract);
    assert_eq!(report, BatchRelayReport { submitted: 0, error: None });
    assert!(asked.is_empty());
    assert!(contract.transactions.is_empty());
}

#[test]
fn batch_relayer_takes_up_one_batch_in_a_cycle() {
    let (a, b, c) = (token(0x11), token(0x22), token(0x33));
    let candidates = || {
        vec![
            batch_candidate(a, 9, &[1, 2]),
            batch_candidate(b, 2, &[1, 2]),
            batch_candidate(a, 8, &[1, 3]),
            batch_candidate(c, 1, &[1, 2, 3]),
            batch_candidate(b, 1, &[3]),
        ]
    };
    // the oldest signed batches of b, a and c can be submitted, in the order of the list
    assert_eq!(select_batches(&valset(5), &candidates(), &bridge_id(), THRESHOLD), vec![1, 2, 3]);
    // the cycle takes up the first of them and submits no other, whatever becomes of it
    let mut contract =
        FakeContract { valset_nonce: 5, batch_nonces: vec![(a, 7), (b, 1)], transactions: vec![] };
    let (report, asked) = run_batch_relay(candidates(), &mut contract);
    assert_eq!(report, BatchRelayReport { submitted: 1, error: None });
    assert_eq!(asked, vec![b]);
    assert_eq!(contract.transactions, vec![payload_of(&candidates()[1])]);
    let mut contract =
        FakeContract { valset_nonce: 5, batch_nonces: vec![(a, 7), (b, 2)], transactions: vec![] };
    let (report, asked) = run_batch_relay(candidates(), &mut contract);
    assert_eq!(report, BatchRelayReport { submitted: 0, error: None });
    assert_eq!(asked, vec![b]);
    assert!(contract.transactions.is_empty());
}

#[test]
fn batch_relayer_ends_the_cycle_after_the_receipt() {
    let (a, b) = (token(0x11), token(0x22));
    let candidates = vec![batch_candidate(a, 1, &[1, 2]), batch_candidate(b, 1, &[1, 2])];
    let relay =
        BatchRelay { current_valset: valset(5), bridge_id: bridge_id(), threshold: THRESHOLD };
    let (state, _) = start_relaying(relay);
    let (state, action) = relay_batches(state, BatchRelayInput::Batches(Ok(candidates)));
    assert_eq!(action, BatchRelayAction::ReadBatchNonce { token_contract: a });
    let (state, action) = relay_batches(state, BatchRelayInput::BatchNonce(Ok(0)));
    assert!(matches!(action, BatchRelayAction::EstimateCost { .. }));
    let (state, action) = relay_batches(
        state,
        BatchRelayInput::Cost(Ok(GasCost { gas: U256::from_u64(1), gas_price: U256::from_u64(1) })),
    );
    assert!(matches!(action, BatchRelayAction::Broadcast { .. }));
    let (state, action) = relay_batches(state, BatchRelayInput::Receipt(Ok(())));
    assert_eq!(state, BatchRelayState::Finished);
    assert_eq!(
        action,
        BatchRelayAction::Finish(BatchRelayReport { submitted: 1, error: None })
    );
}

#[test]
fn relayers_end_as_cancelled_on_an_answer_to_nothing_they_asked() {
    let relay =
        BatchRelay { current_valset: valset(5), bridge_id: bridge_id(), threshold: THRESHOLD };
    let cancelled = BatchRelayAction::Finish(BatchRelayReport {
        submitted: 0,
        error: Some(BridgeError::Cancelled),
    });
    let (state, _) = start_relaying(relay);
    assert!(state.is_well_formed());
    let (state, action) = relay_batches(state, BatchRelayInput::Receipt(Ok(())));
    assert_eq!((state, action), (BatchRelayState::Finished, cancelled));
    let cancelled = BatchRelayAction::Finish(BatchRelayReport {
        submitted: 0,
        error: Some(BridgeError::Cancelled),
    });
    let (state, action) =
        relay_batches(BatchRelayState::Finished, BatchRelayInput::BatchNonce(Ok(3)));
    assert_eq!((state, action), (BatchRelayState::Finished, cancelled));
    let (state, _) = start_valset_update(update(6, 5, &[1, 2, 3]));
    let (state, action) = send_eth_valset_update(state, ValsetUpdateInput::Receipt(Ok(())));
    assert_eq!(state, ValsetUpdateState::Finished);
    assert_eq!(action, ValsetUpdateAction::Finish(Err(BridgeError::Cancelled)));
    let (state, action) =
        send_eth_valset_update(ValsetUpdateState::Finished, ValsetUpdateInput::ValsetNonce(Ok(5)));
    assert_eq!(state, ValsetUpdateState::Finished);
    assert_eq!(action, ValsetUpdateAction::Finish(Err(BridgeError::Cancelled)));
}

#[test]
fn an_update_to_an_older_set_is_not_sound() {
    assert!(update(6, 5, &[1]).is_well_formed());
    assert!(!update(5, 5, &[1]).is_well_formed());
    assert!(!update(4, 5, &[1]).is_well_formed());
    let state = ValsetUpdateState::AwaitingPreflight { update: update(4, 5, &[1]) };
    assert!(!state.is_well_formed());
    assert!(ValsetUpdateState::AwaitingReceipt { new_nonce: 4 }.is_well_formed());
}

#[test]
fn batch_relayer_reports_the_error_that_cut_it_short() {
    let relay = BatchRelay {
        current_valset: valset(5),
        bridge_id: bridge_id(),
        threshold: THRESHOLD,
    };
    let (state, action) = start_relaying(relay.clone());
    assert_eq!(action, BatchRelayAction::FetchBatches);
    let (next, action) =
        relay_batches(state, BatchRelayInput::Batches(Err(BridgeError::Transport)));
    assert_eq!(next, BatchRelayState::Finished);
    assert_eq!(
        action,
        BatchRelayAction::Finish(BatchRelayReport {
            submitted: 0,
            error: Some(BridgeError::Transport)
        })
    );
    let (a, b) = (token(0x11), token(0x22));
    let candidates = vec![batch_candidate(a, 1, &[1, 2]), batch_candidate(b, 1, &[1, 2])];
    let (state, _) = start_relaying(relay);
    let (state, _) = relay_batches(state, BatchRelayInput::Batches(Ok(candidates)));
    let (state, action) = relay_batches(state, BatchRelayInput::BatchNonce(Ok(0)));
    assert!(matches!(action, BatchRelayAction::EstimateCost { .. }));
    let (next, action) = relay_batches(state, BatchRelayInput::Cost(Err(BridgeError::Transport)));
    assert_eq!(next, BatchRelayState::Finished);
    assert_eq!(
        action,
        BatchRelayAction::Finish(BatchRelayReport {
            submitted: 0,
            error: Some(BridgeError::Transport)
        })
    );
    let state = BatchRelayState::AwaitingReceipt {
        work: BatchWork {
            relay: BatchRelay {
                current_valset: valset(5),
                bridge_id: bridge_id(),
                threshold: THRESHOLD,
            },
            candidates: vec![batch_candidate(a, 1, &[1, 2])],
            chosen: 0,
        },
    };
    assert!(state.is_well_formed());
    let (next, action) =
        relay_batches(state, BatchRelayInput::Receipt(Err(BridgeError::ContractRevert)));
    assert_eq!(next, BatchRelayState::Finished);
    assert_eq!(
        action,
        BatchRelayAction::Finish(BatchRelayReport {
            submitted: 0,
            error: Some(BridgeError::ContractRevert)
        })
    );
    let beyond = BatchRelayState::AwaitingBatchNonce {
        work: BatchWork {
            relay: BatchRelay {
                current_valset: valset(5),
                bridge_id: bridge_id(),
                threshold: THRESHOLD,
            },
            candidates: vec![batch_candidate(a, 1, &[1, 2])],
            chosen: 1,
        },
    };
    assert!(!beyond.is_well_formed());
}

#[test]
fn nonce_getters_are_called_by_their_selectors() {
    assert_eq!(valset_nonce_call(), clarity_encode_call("state_lastValsetNonce()", &[]).unwrap());
    let t = token(0x11);
    assert_eq!(
        batch_nonce_call(&t),
        clarity_encode_call("lastBatchNonce(address)", &[to_clarity(&t).into()]).unwrap()
    );
    assert_eq!(batch_nonce_call(&t).len(), 36);
    assert_eq!(valset_nonce_call().len(), 4);
    let candidate = batch_candidate(t, 4, &[1, 2]);
    assert_eq!((payload_of(&candidate).len() - 4) % 32, 0);
}

#[test]
fn batch_payload_matches_typed_encoding() {
    let candidate = batch_candidate(token(0x11), 4, &[1, 2]);
    let payload = payload_of(&candidate);
    let digest = batch_confirm_hash(&bridge_id(), &candidate.batch);
    let current = valset(5);
    let addresses: Vec<Address> =
        current.members.iter().map(|m| to_clarity(&m.eth_address.unwrap())).collect();
    let powers: Vec<u64> = current.members.iter().map(|m| m.power).collect();
    let first = sign(&key(1), &digest);
    let second = sign(&key(2), &digest);
    let word = |x: U256| AbiToken::Bytes(x.to_word().to_vec());
    let number = |x: U256| AbiToken::Uint(Uint256::from_be_bytes(&x.to_word()));
    let transfer = candidate.batch.transfers[0];
    let expected = clarity_encode_call(
        SUBMIT_BATCH_SIGNATURE,
        &[
            addresses.into(),
            powers.into(),
            5u64.into(),
            AbiToken::Dynamic(vec![number(first.v), number(second.v), 0u8.into()]),
            AbiToken::Dynamic(vec![word(first.r), word(second.r), word(U256::zero())]),
            AbiToken::Dynamic(vec![word(first.s), word(second.s), word(U256::zero())]),
            AbiToken::Dynamic(vec![number(transfer.amount)]),
            vec![to_clarity(&transfer.destination)].into(),
            AbiToken::Dynamic(vec![number(transfer.fee)]),
            4u64.into(),
            to_clarity(&candidate.batch.token_contract).into(),
            5000u64.into(),
        ],
    )
    .unwrap();
    assert_eq!(payload, expected);
}
