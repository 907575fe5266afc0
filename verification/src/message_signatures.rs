//! What validators sign: the digest of a validator set, and the digest of a
//! transaction batch. Both must match, byte for byte, what the bridge
//! contract rebuilds before it checks the signatures.

use vstd::prelude::*;
use crate::abi::{
    abi_encode, abi_encoding, abi_items, address_word, address_words, fixed_string_word,
    fixed_word, heads_in_place, power_words, word_from_address, word_from_u64, words_of_addresses,
    words_of_powers, AbiItem, AbiValue,
};
use crate::crypto::{ethereum_msg_hash, get_ethereum_msg_hash, keccak256_digest, signed_message_prefix};
use crate::types::{
    BatchTransfer, BridgeId, EthAddress, TransactionBatch, Valset, ValsetMember,
};
use crate::uint256::word_of;
use crate::valset::{member_addresses, member_powers};

verus! {

/// `checkpoint` in ASCII: the method tag of a validator-set confirmation.
pub open spec fn checkpoint_tag() -> Seq<u8> {
    seq![0x63u8, 0x68, 0x65, 0x63, 0x6b, 0x70, 0x6f, 0x69, 0x6e, 0x74]
}

/// `transactionBatch` in ASCII: the method tag of a batch confirmation.
pub open spec fn transaction_batch_tag() -> Seq<u8> {
    seq![
        0x74u8, 0x72, 0x61, 0x6e, 0x73, 0x61, 0x63, 0x74, 0x69, 0x6f, 0x6e, 0x42, 0x61, 0x74,
        0x63, 0x68,
    ]
}

/// The words of the amounts of a batch's transfers.
pub open spec fn amount_words(transfers: Seq<BatchTransfer>) -> Seq<Seq<u8>> {
    Seq::new(transfers.len(), |i: int| word_of(transfers[i].amount@))
}

/// The words of the destinations of a batch's transfers.
pub open spec fn destination_words(transfers: Seq<BatchTransfer>) -> Seq<Seq<u8>> {
    Seq::new(transfers.len(), |i: int| address_word(transfers[i].destination))
}

/// The words of the fees of a batch's transfers.
pub open spec fn fee_words(transfers: Seq<BatchTransfer>) -> Seq<Seq<u8>> {
    Seq::new(transfers.len(), |i: int| word_of(transfers[i].fee@))
}

/// The arguments that a validator-set confirmation encodes: the bridge id and
/// the method tag as `bytes32`, the set's nonce, and the addresses and powers
/// of the members that take part on the EVM side.
pub open spec fn valset_confirm_items(
    bridge_id: Seq<u8>,
    nonce: u64,
    members: Seq<ValsetMember>,
) -> Seq<AbiItem> {
    seq![
        AbiItem::Word(fixed_word(bridge_id)),
        AbiItem::Word(fixed_word(checkpoint_tag())),
        AbiItem::Word(word_of(nonce as nat)),
        AbiItem::Array(address_words(member_addresses(members))),
        AbiItem::Array(power_words(member_powers(members))),
    ]
}

/// The arguments that a batch confirmation encodes: the bridge id and the
/// method tag as `bytes32`, the amounts, destinations and fees of the
/// transfers, then the batch's nonce, token and timeout.
pub open spec fn batch_confirm_items(
    bridge_id: Seq<u8>,
    nonce: u64,
    token_contract: EthAddress,
    transfers: Seq<BatchTransfer>,
    timeout_block: u64,
) -> Seq<AbiItem> {
    seq![
        AbiItem::Word(fixed_word(bridge_id)),
        AbiItem::Word(fixed_word(transaction_batch_tag())),
        AbiItem::Array(amount_words(transfers)),
        AbiItem::Array(destination_words(transfers)),
        AbiItem::Array(fee_words(transfers)),
        AbiItem::Word(word_of(nonce as nat)),
        AbiItem::Word(address_word(token_contract)),
        AbiItem::Word(word_of(timeout_block as nat)),
    ]
}

/// An encoding whose first two words are the bridge id and a method tag, each
/// filled up to 32 bytes: the domain that a confirmation is signed for.
pub open spec fn with_domain(bridge_id: Seq<u8>, tag: Seq<u8>, encoded: Seq<u8>) -> Seq<u8> {
    fixed_word(bridge_id) + fixed_word(tag) + encoded.skip(64)
}

/// The bytes that are hashed for a validator-set confirmation.
pub open spec fn valset_confirm_preimage(
    bridge_id: Seq<u8>,
    nonce: u64,
    members: Seq<ValsetMember>,
) -> Seq<u8> {
    with_domain(
        bridge_id,
        checkpoint_tag(),
        abi_encoding(valset_confirm_items(bridge_id, nonce, members)),
    )
}

/// The bytes that are hashed for a batch confirmation.
pub open spec fn batch_confirm_preimage(
    bridge_id: Seq<u8>,
    nonce: u64,
    token_contract: EthAddress,
    transfers: Seq<BatchTransfer>,
    timeout_block: u64,
) -> Seq<u8> {
    with_domain(
        bridge_id,
        transaction_batch_tag(),
        abi_encoding(batch_confirm_items(bridge_id, nonce, token_contract, transfers, timeout_block)),
    )
}

/// The digest that validators sign to confirm a validator set.
pub open spec fn valset_confirm_digest(
    bridge_id: Seq<u8>,
    nonce: u64,
    members: Seq<ValsetMember>,
) -> Seq<u8> {
    ethereum_msg_hash(valset_confirm_preimage(bridge_id, nonce, members))
}

/// The digest that validators sign to confirm a batch.
pub open spec fn batch_confirm_digest(
    bridge_id: Seq<u8>,
    nonce: u64,
    token_contract: EthAddress,
    transfers: Seq<BatchTransfer>,
    timeout_block: u64,
) -> Seq<u8> {
    ethereum_msg_hash(
        batch_confirm_preimage(bridge_id, nonce, token_contract, transfers, timeout_block),
    )
}

/// Whether Keccak-256 maps two different byte strings to one digest.
pub open spec fn keccak256_collides() -> bool {
    exists|a: Seq<u8>, b: Seq<u8>| a != b && keccak256_digest(a) == keccak256_digest(b)
}

/// What is hashed for a validator set is never what is hashed for a batch,
/// whatever the bridge ids, the set and the batch: the second word of the
/// one spells `checkpoint`, that of the other `transactionBatch`.
pub proof fn lemma_confirm_preimages_differ(
    valset_bridge_id: Seq<u8>,
    valset_nonce: u64,
    members: Seq<ValsetMember>,
    batch_bridge_id: Seq<u8>,
    batch_nonce: u64,
    token_contract: EthAddress,
    transfers: Seq<BatchTransfer>,
    timeout_block: u64,
)
    ensures
        valset_confirm_preimage(valset_bridge_id, valset_nonce, members) != batch_confirm_preimage(
            batch_bridge_id,
            batch_nonce,
            token_contract,
            transfers,
            timeout_block,
        ),
{
    let a = valset_confirm_preimage(valset_bridge_id, valset_nonce, members);
    let b = batch_confirm_preimage(
        batch_bridge_id,
        batch_nonce,
        token_contract,
        transfers,
        timeout_block,
    );
    assert(a[32] == fixed_word(checkpoint_tag())[0]);
    assert(b[32] == fixed_word(transaction_batch_tag())[0]);
    assert(a[32] == 0x63u8);
    assert(b[32] == 0x74u8);
}

/// Domain separation of the two digests: a validator-set digest can equal a
/// batch digest only where Keccak-256 collides.
pub proof fn lemma_confirm_digests_separate(
    valset_bridge_id: Seq<u8>,
    valset_nonce: u64,
    members: Seq<ValsetMember>,
    batch_bridge_id: Seq<u8>,
    batch_nonce: u64,
    token_contract: EthAddress,
    transfers: Seq<BatchTransfer>,
    timeout_block: u64,
)
    ensures
        valset_confirm_digest(valset_bridge_id, valset_nonce, members) == batch_confirm_digest(
            batch_bridge_id,
            batch_nonce,
            token_contract,
            transfers,
            timeout_block,
        ) ==> keccak256_collides(),
{
    let a = valset_confirm_preimage(valset_bridge_id, valset_nonce, members);
    let b = batch_confirm_preimage(
        batch_bridge_id,
        batch_nonce,
        token_contract,
        transfers,
        timeout_block,
    );
    lemma_confirm_preimages_differ(
        valset_bridge_id,
        valset_nonce,
        members,
        batch_bridge_id,
        batch_nonce,
        token_contract,
        transfers,
        timeout_block,
    );
    if ethereum_msg_hash(a) == ethereum_msg_hash(b) {
        let outer_a = signed_message_prefix() + keccak256_digest(a);
        let outer_b = signed_message_prefix() + keccak256_digest(b);
        if outer_a == outer_b {
            assert(outer_a.skip(28) =~= keccak256_digest(a));
            assert(outer_b.skip(28) =~= keccak256_digest(b));
            assert(a != b && keccak256_digest(a) == keccak256_digest(b));
        } else {
            assert(outer_a != outer_b && keccak256_digest(outer_a) == keccak256_digest(outer_b));
        }
    }
}

/// The bytes that are hashed for a confirmation of `valset` on the bridge
/// `bridge_id`.
pub fn encode_valset_confirm(bridge_id: &BridgeId, valset: &Valset) -> (encoded: Vec<u8>)
    ensures
        encoded@ == valset_confirm_preimage(bridge_id@, valset.nonce, valset.members@),
        encoded@.len() >= 160,
        encoded@.len() % 32 == 0,
{
    let (addresses, powers) = valset.filter_empty_addresses();
    let mut tokens: Vec<AbiValue> = Vec::new();
    tokens.push(AbiValue::Word(fixed_string_word(bridge_id.as_str().as_bytes())));
    tokens.push(AbiValue::Word(fixed_string_word(checkpoint().as_slice())));
    tokens.push(AbiValue::Word(word_from_u64(valset.nonce)));
    tokens.push(AbiValue::Array(words_of_addresses(&addresses)));
    tokens.push(AbiValue::Array(words_of_powers(&powers)));
    let ghost items = valset_confirm_items(bridge_id@, valset.nonce, valset.members@);
    assert(abi_items(tokens@) =~= items);
    let encoded: Vec<u8> = abi_encode(&tokens);
    proof {
        assert(heads_in_place(items, encoded@));
        assert(items[0] is Word && items[1] is Word);
        assert(encoded@.subrange(32 * 0int, 32 * 0int + 32) == fixed_word(bridge_id@));
        assert(encoded@.subrange(32 * 1int, 32 * 1int + 32) == fixed_word(checkpoint_tag()));
        assert(encoded@ =~= encoded@.subrange(0, 32) + encoded@.subrange(32, 64) + encoded@.skip(64));
    }
    encoded
}

/// The method tag of a validator-set confirmation.
fn checkpoint() -> (tag: [u8; 10])
    ensures
        tag@ == checkpoint_tag(),
{
    let tag: [u8; 10] = [0x63, 0x68, 0x65, 0x63, 0x6b, 0x70, 0x6f, 0x69, 0x6e, 0x74];
    assert(tag@ =~= checkpoint_tag());
    tag
}

/// The method tag of a batch confirmation.
fn transaction_batch() -> (tag: [u8; 16])
    ensures
        tag@ == transaction_batch_tag(),
{
    let tag: [u8; 16] = [
        0x74, 0x72, 0x61, 0x6e, 0x73, 0x61, 0x63, 0x74, 0x69, 0x6f, 0x6e, 0x42, 0x61, 0x74, 0x63,
        0x68,
    ];
    assert(tag@ =~= transaction_batch_tag());
    tag
}

/// The digest that validators sign to confirm `valset` on the bridge
/// `bridge_id`.
pub fn valset_confirm_hash(bridge_id: &BridgeId, valset: &Valset) -> (digest: [u8; 32])
    ensures
        digest@ == valset_confirm_digest(bridge_id@, valset.nonce, valset.members@),
{
    let encoded: Vec<u8> = encode_valset_confirm(bridge_id, valset);
    get_ethereum_msg_hash(encoded.as_slice())
}

/// Writes the amounts, the destinations and the fees of a batch's transfers
/// as three lists of words.
pub fn words_of_transfers(transfers: &Vec<BatchTransfer>) -> (words: (
    Vec<[u8; 32]>,
    Vec<[u8; 32]>,
    Vec<[u8; 32]>,
))
    ensures
        Seq::new(words.0@.len(), |i: int| words.0@[i]@) == amount_words(transfers@),
        Seq::new(words.1@.len(), |i: int| words.1@[i]@) == destination_words(transfers@),
        Seq::new(words.2@.len(), |i: int| words.2@[i]@) == fee_words(transfers@),
{
    let mut amounts: Vec<[u8; 32]> = Vec::new();
    let mut destinations: Vec<[u8; 32]> = Vec::new();
    let mut fees: Vec<[u8; 32]> = Vec::new();
    let mut i: usize = 0;
    while i < transfers.len()
        invariant
            i <= transfers@.len(),
            amounts@.len() == i,
            destinations@.len() == i,
            fees@.len() == i,
            forall|j: int|
                0 <= j < i ==> (#[trigger] amounts@[j])@ == word_of(transfers@[j].amount@),
            forall|j: int|
                0 <= j < i ==> (#[trigger] destinations@[j])@ == address_word(
                    transfers@[j].destination,
                ),
            forall|j: int| 0 <= j < i ==> (#[trigger] fees@[j])@ == word_of(transfers@[j].fee@),
        decreases transfers@.len() - i,
    {
        let transfer: BatchTransfer = transfers[i];
        amounts.push(transfer.amount.to_word());
        destinations.push(word_from_address(&transfer.destination));
        fees.push(transfer.fee.to_word());
        i = i + 1;
    }
    assert(Seq::new(amounts@.len(), |i: int| amounts@[i]@) =~= amount_words(transfers@));
    assert(Seq::new(destinations@.len(), |i: int| destinations@[i]@) =~= destination_words(
        transfers@,
    ));
    assert(Seq::new(fees@.len(), |i: int| fees@[i]@) =~= fee_words(transfers@));
    (amounts, destinations, fees)
}

/// The bytes that are hashed for a confirmation of `batch` on the bridge
/// `bridge_id`.
pub fn encode_tx_batch_confirm(bridge_id: &BridgeId, batch: &TransactionBatch) -> (encoded: Vec<u8>)
    ensures
        encoded@ == batch_confirm_preimage(
            bridge_id@,
            batch.nonce,
            batch.token_contract,
            batch.transfers@,
            batch.timeout_block,
        ),
        encoded@.len() >= 256,
        encoded@.len() % 32 == 0,
{
    let (amounts, destinations, fees) = words_of_transfers(&batch.transfers);
    let mut tokens: Vec<AbiValue> = Vec::new();
    tokens.push(AbiValue::Word(fixed_string_word(bridge_id.as_str().as_bytes())));
    tokens.push(AbiValue::Word(fixed_string_word(transaction_batch().as_slice())));
    tokens.push(AbiValue::Array(amounts));
    tokens.push(AbiValue::Array(destinations));
    tokens.push(AbiValue::Array(fees));
    tokens.push(AbiValue::Word(word_from_u64(batch.nonce)));
    tokens.push(AbiValue::Word(word_from_address(&batch.token_contract)));
    tokens.push(AbiValue::Word(word_from_u64(batch.timeout_block)));
    let ghost items = batch_confirm_items(
        bridge_id@,
        batch.nonce,
        batch.token_contract,
        batch.transfers@,
        batch.timeout_block,
    );
    assert(abi_items(tokens@) =~= items);
    let encoded: Vec<u8> = abi_encode(&tokens);
    proof {
        assert(heads_in_place(items, encoded@));
        assert(items[0] is Word && items[1] is Word);
        assert(encoded@.subrange(32 * 0int, 32 * 0int + 32) == fixed_word(bridge_id@));
        assert(encoded@.subrange(32 * 1int, 32 * 1int + 32) == fixed_word(transaction_batch_tag()));
        assert(encoded@ =~= encoded@.subrange(0, 32) + encoded@.subrange(32, 64) + encoded@.skip(64));
    }
    encoded
}

/// The digest that validators sign to confirm `batch` on the bridge
/// `bridge_id`.
pub fn batch_confirm_hash(bridge_id: &BridgeId, batch: &TransactionBatch) -> (digest: [u8; 32])
    ensures
        digest@ == batch_confirm_digest(
            bridge_id@,
            batch.nonce,
            batch.token_contract,
            batch.transfers@,
            batch.timeout_block,
        ),
{
    let encoded: Vec<u8> = encode_tx_batch_confirm(bridge_id, batch);
    get_ethereum_msg_hash(encoded.as_slice())
}

} // verus!
