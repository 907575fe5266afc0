use clarity::abi::{encode_call as clarity_encode_call, encode_tokens, AbiToken};
use clarity::utils::get_ethereum_msg_hash as clarity_msg_hash;
use clarity::{Address, PrivateKey, Uint256};
use orchestrator::abi::{
    decode_nonce, encode_call, fixed_string_word, word_from_address, word_from_u64, AbiValue,
};
use orchestrator::crypto::{get_ethereum_msg_hash, signature_signer};
use orchestrator::error::BridgeError;
use orchestrator::gas::{estimate_request, estimated_cost, AccountStatus, GasCost};
use orchestrator::message_signatures::{
    batch_confirm_hash, encode_tx_batch_confirm, encode_valset_confirm, valset_confirm_hash,
};
use orchestrator::types::{
    BatchTransfer, BridgeId, Confirmation, EthAddress, EthSignature, TransactionBatch, Valset,
    ValsetMember,
};
use orchestrator::uint256::U256;
use orchestrator::valset::{CheckedConfirmation, SigArrays};

fn id(text: &str) -> BridgeId {
    BridgeId::new(text).unwrap()
}

fn key(seed: u8) -> PrivateKey {
    PrivateKey::from_bytes([seed; 32]).unwrap()
}

fn address_of(key: &PrivateKey) -> EthAddress {
    EthAddress { bytes: key.to_address().as_bytes().try_into().unwrap() }
}

fn to_clarity(address: &EthAddress) -> Address {
    Address::from_slice(&address.bytes).unwrap()
}

fn to_u256(value: Uint256) -> U256 {
    U256::from_word(&value.to_be_bytes())
}

fn sign(key: &PrivateKey, digest: &[u8; 32]) -> EthSignature {
    let signature = key.sign_hash(digest);
    EthSignature {
        v: to_u256(signature.get_v()),
        r: to_u256(signature.get_r()),
        s: to_u256(signature.get_s()),
    }
}

fn confirm(key: &PrivateKey, digest: &[u8; 32]) -> Confirmation {
    Confirmation { eth_address: address_of(key), signature: sign(key, digest) }
}

fn member(key: &PrivateKey, power: u64) -> ValsetMember {
    ValsetMember { power, eth_address: Some(address_of(key)) }
}

fn three_validators() -> Valset {
    Valset {
        nonce: 5,
        members: vec![member(&key(1), 50), member(&key(2), 30), member(&key(3), 20)],
    }
}

fn sample_batch() -> TransactionBatch {
    TransactionBatch {
        nonce: 4,
        token_contract: EthAddress { bytes: [0x11; 20] },
        transfers: vec![
            BatchTransfer {
                destination: EthAddress { bytes: [0x22; 20] },
                amount: U256::from_u64(1_000_000),
                fee: U256::from_u64(10),
            },
            BatchTransfer {
                destination: EthAddress { bytes: [0x33; 20] },
                amount: U256 { hi: 1, lo: 2 },
                fee: U256::from_u64(0),
            },
        ],
        timeout_block: 12345,
    }
}

#[test]
fn u256_reads_and_writes_words() {
    let mut word = [0u8; 32];
    word[31] = 0x2a;
    word[15] = 0x01;
    let value = U256::from_word(&word);
    assert_eq!(value, U256 { hi: 1, lo: 0x2a });
    assert_eq!(value.to_word(), word);
    assert_eq!(U256::from_u64(0x0102).to_word()[30..], [1, 2]);
    assert_eq!(U256::zero().to_word(), [0u8; 32]);
    assert_eq!(U256 { hi: u128::MAX, lo: u128::MAX }.to_word(), [0xffu8; 32]);
    let mut data = vec![0xeeu8; 3];
    data.extend_from_slice(&word);
    assert_eq!(U256::read_word(&data, 3), value);
}

#[test]
fn u256_orders_and_subtracts() {
    let small = U256::from_u64(210);
    let six = U256::from_u64(6);
    assert_eq!(small.checked_sub(&six), Some(U256::from_u64(204)));
    assert_eq!(six.checked_sub(&small), None);
    assert_eq!(small.checked_sub(&small), Some(U256::zero()));
    // a borrow from the high limb
    let big = U256 { hi: 1, lo: 0 };
    assert_eq!(big.checked_sub(&U256::from_u64(1)), Some(U256 { hi: 0, lo: u128::MAX }));
    assert!(six.lt(&small) && !small.lt(&six) && !small.lt(&small));
    assert!(small.le(&small) && small.le(&big) && !big.le(&small));
    assert_eq!(U256::min(big, small), small);
    assert_eq!(small.to_u64(), Some(210));
    assert_eq!(big.to_u64(), None);
    assert_eq!(U256::from_u128(u64::MAX as u128 + 1).to_u64(), None);
}

#[test]
fn gas_cost_total_is_gas_times_price() {
    let cost = GasCost { gas: U256::from_u64(21_000), gas_price: U256::from_u64(3_000_000_000) };
    assert_eq!(cost.get_total(), Some(U256::from_u64(63_000_000_000_000)));
    let wide = GasCost { gas: U256 { hi: 0, lo: u128::MAX }, gas_price: U256::from_u64(2) };
    assert_eq!(wide.get_total(), Some(U256 { hi: 1, lo: u128::MAX - 1 }));
    let too_much = GasCost { gas: U256 { hi: 1, lo: 0 }, gas_price: U256 { hi: 1, lo: 0 } };
    assert_eq!(too_much.get_total(), None);
}

#[test]
fn gas_limit_is_the_balance_up_to_a_cap() {
    let sender = EthAddress { bytes: [1; 20] };
    let contract = EthAddress { bytes: [2; 20] };
    let poor = AccountStatus {
        balance: U256::from_u64(5000),
        nonce: U256::from_u64(7),
        gas_price: U256::from_u64(9),
    };
    let request = estimate_request(sender, contract, &poor, vec![1, 2, 3]);
    assert_eq!(request.gas, U256::from_u64(5000));
    assert_eq!(request.value, U256::zero());
    assert_eq!(request.nonce, U256::from_u64(7));
    assert_eq!(request.gas_price, U256::from_u64(9));
    assert_eq!((request.from, request.to), (sender, contract));
    assert_eq!(request.data, vec![1, 2, 3]);
    let rich = AccountStatus { balance: U256 { hi: 3, lo: 0 }, ..poor };
    let request = estimate_request(sender, contract, &rich, vec![]);
    assert_eq!(request.gas, U256::from_u64(u64::MAX - 1));
    assert_eq!(
        estimated_cost(&request, U256::from_u64(100)),
        GasCost { gas: U256::from_u64(100), gas_price: U256::from_u64(9) }
    );
}

#[test]
fn words_are_laid_out_as_the_abi_says() {
    let mut expected = [0u8; 32];
    expected[..3].copy_from_slice(b"foo");
    assert_eq!(fixed_string_word(b"foo"), expected);
    assert_eq!(fixed_string_word(b""), [0u8; 32]);
    assert_eq!(fixed_string_word(&[7u8; 32]), [7u8; 32]);
    let word = word_from_address(&EthAddress { bytes: [0xab; 20] });
    assert_eq!(word[..12], [0u8; 12]);
    assert_eq!(word[12..], [0xabu8; 20]);
    assert_eq!(word_from_u64(258)[30..], [1, 2]);
    assert_eq!(word_from_u64(258)[..30], [0u8; 30]);
}

#[test]
fn nonce_answers_are_one_word_within_u64() {
    assert_eq!(decode_nonce(&word_from_u64(0)), Ok(0));
    assert_eq!(decode_nonce(&word_from_u64(77)), Ok(77));
    assert_eq!(decode_nonce(&word_from_u64(u64::MAX)), Ok(u64::MAX));
    assert_eq!(decode_nonce(&U256::from_u128(u64::MAX as u128 + 1).to_word()), Err(BridgeError::Decode));
    assert_eq!(decode_nonce(&[0xff; 32]), Err(BridgeError::Decode));
    assert_eq!(decode_nonce(&[]), Err(BridgeError::Decode));
    assert_eq!(decode_nonce(&[0; 31]), Err(BridgeError::Decode));
    assert_eq!(decode_nonce(&[0; 64]), Err(BridgeError::Decode));
}

#[test]
fn call_data_starts_with_the_selector() {
    let to = EthAddress { bytes: [0x44; 20] };
    let tokens =
        vec![AbiValue::Word(word_from_address(&to)), AbiValue::Word(word_from_u64(1000))];
    let data = encode_call("transfer(address,uint256)", &tokens);
    assert_eq!(data[..4], [0xa9, 0x05, 0x9c, 0xbb]);
    assert_eq!(data.len(), 4 + 64);
    let expected = clarity_encode_call(
        "transfer(address,uint256)",
        &[to_clarity(&to).into(), 1000u64.into()],
    )
    .unwrap();
    assert_eq!(data, expected);
}

#[test]
fn arrays_are_encoded_as_clarity_encodes_them() {
    let tokens = vec![
        AbiValue::Array(vec![word_from_u64(1), word_from_u64(2), word_from_u64(3)]),
        AbiValue::Word(word_from_u64(9)),
        AbiValue::Array(vec![]),
    ];
    let data = encode_call("f(uint256[],uint256,uint256[])", &tokens);
    let expected = clarity_encode_call(
        "f(uint256[],uint256,uint256[])",
        &[vec![1u64, 2, 3].into(), 9u64.into(), Vec::<u64>::new().into()],
    )
    .unwrap();
    assert_eq!(data, expected);
}

#[test]
fn message_hash_is_the_personal_sign_digest() {
    assert_eq!(
        get_ethereum_msg_hash(b"Hello, world!").to_vec(),
        clarity_msg_hash(b"Hello, world!")
    );
    assert_eq!(get_ethereum_msg_hash(b"").to_vec(), clarity_msg_hash(b""));
    assert_ne!(get_ethereum_msg_hash(b"a"), get_ethereum_msg_hash(b"b"));
}

#[test]
fn signer_is_recovered_from_a_signature() {
    let digest = get_ethereum_msg_hash(b"some message");
    let signature = sign(&key(1), &digest);
    assert_eq!(signature_signer(&signature, &digest), Some(address_of(&key(1))));
    let other = get_ethereum_msg_hash(b"another message");
    assert_ne!(signature_signer(&signature, &other), Some(address_of(&key(1))));
    assert_eq!(signature_signer(&EthSignature::zero(), &digest), None);
}

#[test]
fn valset_confirm_preimage_matches_typed_encoding() {
    let valset = three_validators();
    let addresses: Vec<Address> =
        valset.members.iter().map(|m| to_clarity(&m.eth_address.unwrap())).collect();
    let powers: Vec<u64> = valset.members.iter().map(|m| m.power).collect();
    let expected = encode_tokens(&[
        AbiToken::FixedString("foo".to_string()),
        AbiToken::FixedString("checkpoint".to_string()),
        valset.nonce.into(),
        addresses.into(),
        powers.into(),
    ]);
    assert_eq!(encode_valset_confirm(&id("foo"), &valset), expected);
    assert_eq!(valset_confirm_hash(&id("foo"), &valset).to_vec(), clarity_msg_hash(&expected));
}

#[test]
fn valset_confirm_leaves_out_members_without_address() {
    let mut with_gaps = three_validators();
    with_gaps.members.insert(1, ValsetMember { power: 99, eth_address: None });
    with_gaps
        .members
        .push(ValsetMember { power: 77, eth_address: Some(EthAddress { bytes: [0; 20] }) });
    assert_eq!(
        encode_valset_confirm(&id("foo"), &with_gaps),
        encode_valset_confirm(&id("foo"), &three_validators())
    );
    let (addresses, powers) = with_gaps.filter_empty_addresses();
    assert_eq!(addresses, vec![address_of(&key(1)), address_of(&key(2)), address_of(&key(3))]);
    assert_eq!(powers, vec![50, 30, 20]);
}

#[test]
fn batch_confirm_preimage_matches_typed_encoding() {
    let batch = sample_batch();
    let amounts: Vec<Uint256> =
        batch.transfers.iter().map(|t| Uint256::from_be_bytes(&t.amount.to_word())).collect();
    let fees: Vec<Uint256> =
        batch.transfers.iter().map(|t| Uint256::from_be_bytes(&t.fee.to_word())).collect();
    let destinations: Vec<Address> =
        batch.transfers.iter().map(|t| to_clarity(&t.destination)).collect();
    let expected = encode_tokens(&[
        AbiToken::FixedString("foo".to_string()),
        AbiToken::FixedString("transactionBatch".to_string()),
        amounts.into(),
        destinations.into(),
        fees.into(),
        batch.nonce.into(),
        to_clarity(&batch.token_contract).into(),
        batch.timeout_block.into(),
    ]);
    assert_eq!(encode_tx_batch_confirm(&id("foo"), &batch), expected);
    assert_eq!(batch_confirm_hash(&id("foo"), &batch).to_vec(), clarity_msg_hash(&expected));
}

#[test]
fn valset_and_batch_hashes_differ() {
    let valset = three_validators();
    let batch = sample_batch();
    assert_ne!(valset_confirm_hash(&id("foo"), &valset), batch_confirm_hash(&id("foo"), &batch));
    let empty_valset = Valset { nonce: 0, members: vec![] };
    let empty_batch = TransactionBatch {
        nonce: 0,
        token_contract: EthAddress { bytes: [0; 20] },
        transfers: vec![],
        timeout_block: 0,
    };
    assert_ne!(valset_confirm_hash(&id(""), &empty_valset), batch_confirm_hash(&id(""), &empty_batch));
    // the second word of each preimage is its method tag
    let mut checkpoint = [0u8; 32];
    checkpoint[..10].copy_from_slice(b"checkpoint");
    let mut transaction_batch = [0u8; 32];
    transaction_batch[..16].copy_from_slice(b"transactionBatch");
    assert_eq!(encode_valset_confirm(&id(""), &empty_valset)[32..64], checkpoint);
    assert_eq!(encode_tx_batch_confirm(&id(""), &empty_batch)[32..64], transaction_batch);
}

#[test]
fn bridge_id_holds_at_most_one_word() {
    assert_eq!(BridgeId::new("foo").unwrap().as_str(), "foo");
    assert_eq!(BridgeId::new("").unwrap().as_str(), "");
    assert!(BridgeId::new("0123456789abcdef0123456789abcdef").is_some());
    assert_eq!(BridgeId::new("0123456789abcdef0123456789abcdefg"), None);
    // the length is that of the bytes, not of the characters
    assert!(BridgeId::new("ääääääääääääääää").is_some());
    assert_eq!(BridgeId::new("äääääääääääääääää"), None);
}

#[test]
fn hashes_depend_on_the_bridge_id() {
    let valset = three_validators();
    assert_ne!(valset_confirm_hash(&id("foo"), &valset), valset_confirm_hash(&id("bar"), &valset));
    let mut id_word = [0u8; 32];
    id_word[..3].copy_from_slice(b"bar");
    assert_eq!(encode_valset_confirm(&id("bar"), &valset)[..32], id_word);
    let longest = "0123456789abcdef0123456789abcdef";
    assert_eq!(encode_valset_confirm(&id(longest), &valset)[..32], *longest.as_bytes());
}

#[test]
fn order_sigs_puts_signatures_in_valset_order() {
    let valset = three_validators();
    let digest = valset_confirm_hash(&id("foo"), &valset);
    // confirmations arrive in another order than the members
    let confirmations =
        vec![confirm(&key(3), &digest), confirm(&key(1), &digest), confirm(&key(2), &digest)];
    let arrays = valset.order_sigs(&digest, &confirmations, 66).unwrap();
    let expected = [sign(&key(1), &digest), sign(&key(2), &digest), sign(&key(3), &digest)];
    assert_eq!(arrays.v, expected.iter().map(|s| s.v).collect::<Vec<_>>());
    assert_eq!(arrays.r, expected.iter().map(|s| s.r).collect::<Vec<_>>());
    assert_eq!(arrays.s, expected.iter().map(|s| s.s).collect::<Vec<_>>());
}

#[test]
fn order_sigs_fills_missing_signatures_with_zeros() {
    let valset = three_validators();
    let digest = valset_confirm_hash(&id("foo"), &valset);
    let confirmations = vec![confirm(&key(3), &digest), confirm(&key(1), &digest)];
    let arrays = valset.order_sigs(&digest, &confirmations, 70).unwrap();
    let first = sign(&key(1), &digest);
    let third = sign(&key(3), &digest);
    assert_eq!(
        arrays,
        SigArrays {
            v: vec![first.v, U256::zero(), third.v],
            r: vec![first.r, U256::zero(), third.r],
            s: vec![first.s, U256::zero(), third.s],
        }
    );
}

#[test]
fn order_sigs_fails_below_the_threshold() {
    let valset = three_validators();
    let digest = valset_confirm_hash(&id("foo"), &valset);
    let confirmations = vec![confirm(&key(3), &digest), confirm(&key(1), &digest)];
    // 50 + 20 = 70 of 100
    assert!(valset.order_sigs(&digest, &confirmations, 70).is_ok());
    assert_eq!(
        valset.order_sigs(&digest, &confirmations, 71),
        Err(BridgeError::InsufficientSignatures)
    );
    assert_eq!(valset.order_sigs(&digest, &vec![], 1), Err(BridgeError::InsufficientSignatures));
    assert!(valset.order_sigs(&digest, &vec![], 0).is_ok());
}

#[test]
fn order_sigs_ignores_signatures_that_do_not_verify() {
    let valset = three_validators();
    let digest = valset_confirm_hash(&id("foo"), &valset);
    let other_digest = valset_confirm_hash(&id("bar"), &valset);
    let confirmations = vec![
        // signed over another message
        confirm(&key(1), &other_digest),
        // signed by another key than the one it is filed under
        Confirmation { eth_address: address_of(&key(2)), signature: sign(&key(9), &digest) },
        // a validator outside the set
        confirm(&key(7), &digest),
        confirm(&key(3), &digest),
    ];
    let arrays = valset.order_sigs(&digest, &confirmations, 20).unwrap();
    let third = sign(&key(3), &digest);
    assert_eq!(arrays.v, vec![U256::zero(), U256::zero(), third.v]);
    assert_eq!(arrays.r, vec![U256::zero(), U256::zero(), third.r]);
    assert_eq!(arrays.s, vec![U256::zero(), U256::zero(), third.s]);
    assert_eq!(
        valset.order_sigs(&digest, &confirmations, 21),
        Err(BridgeError::InsufficientSignatures)
    );
}

#[test]
fn order_sigs_has_one_entry_for_each_member_that_takes_part() {
    let mut valset = three_validators();
    valset.members.insert(0, ValsetMember { power: 1000, eth_address: None });
    let digest = valset_confirm_hash(&id("foo"), &valset);
    let confirmations = vec![confirm(&key(2), &digest)];
    let arrays = valset.order_sigs(&digest, &confirmations, 30).unwrap();
    let second = sign(&key(2), &digest);
    assert_eq!(arrays.v, vec![U256::zero(), second.v, U256::zero()]);
    assert_eq!(arrays.r.len(), 3);
    assert_eq!(arrays.s.len(), 3);
}

#[test]
fn order_checked_sigs_takes_the_first_confirmation_that_stands() {
    let a = EthAddress { bytes: [0xaa; 20] };
    let b = EthAddress { bytes: [0xbb; 20] };
    let valset = Valset {
        nonce: 1,
        members: vec![
            ValsetMember { power: 10, eth_address: Some(a) },
            ValsetMember { power: 20, eth_address: Some(b) },
        ],
    };
    let signature = |n: u64| EthSignature {
        v: U256::from_u64(27),
        r: U256::from_u64(n),
        s: U256::from_u64(n + 1),
    };
    let checked = |eth_address: EthAddress, n: u64, signer: Option<EthAddress>| {
        CheckedConfirmation {
            confirmation: Confirmation { eth_address, signature: signature(n) },
            signer,
        }
    };
    // the first confirmation of b recovers to another address, the next two are good,
    // and that of a recovers to nothing
    let confirmations = vec![
        checked(b, 1, Some(a)),
        checked(b, 3, Some(b)),
        checked(b, 5, Some(b)),
        checked(a, 7, None),
    ];
    let arrays = valset.order_checked_sigs(&confirmations, 20).unwrap();
    assert_eq!(arrays.v, vec![U256::zero(), U256::from_u64(27)]);
    assert_eq!(arrays.r, vec![U256::zero(), U256::from_u64(3)]);
    assert_eq!(arrays.s, vec![U256::zero(), U256::from_u64(4)]);
    assert_eq!(
        valset.order_checked_sigs(&confirmations, 21),
        Err(BridgeError::InsufficientSignatures)
    );
}
