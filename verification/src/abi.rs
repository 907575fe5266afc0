//! Contract ABI encoding. The library turns each value into 32-byte words
//! itself and leaves the layout of heads and tails to `clarity`.

use vstd::prelude::*;
use vstd::string::StringSliceAdditionalSpecFns;
use crate::crypto::{keccak256, keccak256_digest};
use crate::error::BridgeError;
use crate::types::EthAddress;
use crate::uint256::{be_nat, word_of, U256};

verus! {

/// One argument of an encoding: a single static word, or a dynamic array of
/// static words.
#[derive(Clone, Debug, PartialEq, Eq)]
pub enum AbiValue {
    Word([u8; 32]),
    Array(Vec<[u8; 32]>),
}

/// What an [`AbiValue`] holds.
pub enum AbiItem {
    Word(Seq<u8>),
    Array(Seq<Seq<u8>>),
}

impl View for AbiValue {
    type V = AbiItem;

    open spec fn view(&self) -> AbiItem {
        match self {
            AbiValue::Word(w) => AbiItem::Word(w@),
            AbiValue::Array(ws) => AbiItem::Array(Seq::new(ws@.len(), |i: int| ws@[i]@)),
        }
    }
}

/// What a list of arguments holds.
pub open spec fn abi_items(tokens: Seq<AbiValue>) -> Seq<AbiItem> {
    Seq::new(tokens.len(), |i: int| tokens[i]@)
}

/// The ABI encoding of a list of arguments.
pub uninterp spec fn abi_encoding(items: Seq<AbiItem>) -> Seq<u8>;

/// The head of an encoding has one word per argument, and a static argument
/// stands there itself.
pub open spec fn heads_in_place(items: Seq<AbiItem>, encoded: Seq<u8>) -> bool {
    &&& encoded.len() >= 32 * items.len()
    &&& forall|i: int|
        0 <= i < items.len() && items[i] is Word ==> #[trigger] encoded.subrange(32 * i, 32 * i + 32)
            == items[i]->Word_0
}

/// Calls `clarity::abi::encode_tokens`, with each word as a 32-byte `Bytes`
/// token and each array as a `Dynamic` token of such. The contract names the
/// result, and claims of it what the encoder's loop shows: every token adds
/// one word to the head, in order, and a 32-byte `Bytes` token adds itself;
/// behind the head stand, for each array, a word with its length and its
/// words, so that the encoding is made of whole words.
#[verifier::external_body]
pub(crate) fn abi_encode(tokens: &Vec<AbiValue>) -> (encoded: Vec<u8>)
    ensures
        encoded@ == abi_encoding(abi_items(tokens@)),
        heads_in_place(abi_items(tokens@), encoded@),
        encoded@.len() % 32 == 0,
{
    let tokens: Vec<clarity::abi::AbiToken> = tokens.iter().map(|t| match t {
        AbiValue::Word(w) => clarity::abi::AbiToken::Bytes(w.to_vec()),
        AbiValue::Array(ws) => clarity::abi::AbiToken::Dynamic(
            ws.iter().map(|w| clarity::abi::AbiToken::Bytes(w.to_vec())).collect(),
        ),
    }).collect();
    clarity::abi::encode_tokens(&tokens)
}

/// `bytes`, filled up with zero bytes on the right to one word: how the ABI
/// writes a short string as `bytes32`.
pub open spec fn fixed_word(bytes: Seq<u8>) -> Seq<u8>
    recommends
        bytes.len() <= 32,
{
    Seq::new(32, |i: int| if i < bytes.len() { bytes[i] } else { 0u8 })
}

/// The word of an address: twelve zero bytes, then the address.
pub open spec fn address_word(address: EthAddress) -> Seq<u8> {
    Seq::new(32, |i: int| if i < 12 { 0u8 } else { address.bytes@[i - 12] })
}

/// Writes a string of at most 32 bytes as one word.
pub fn fixed_string_word(bytes: &[u8]) -> (word: [u8; 32])
    requires
        bytes@.len() <= 32,
    ensures
        word@ == fixed_word(bytes@),
{
    let mut word: [u8; 32] = [0u8; 32];
    let len: usize = bytes.len();
    let mut i: usize = 0;
    while i < len
        invariant
            i <= len,
            len == bytes@.len(),
            len <= 32,
            forall|j: int| 0 <= j < i ==> word@[j] == bytes@[j],
            forall|j: int| i <= j < 32 ==> word@[j] == 0,
        decreases len - i,
    {
        word[i] = bytes[i];
        i = i + 1;
    }
    assert(word@ =~= fixed_word(bytes@));
    word
}

/// Writes an address as one word.
pub fn word_from_address(address: &EthAddress) -> (word: [u8; 32])
    ensures
        word@ == address_word(*address),
{
    let mut word: [u8; 32] = [0u8; 32];
    let mut i: usize = 0;
    while i < 20
        invariant
            i <= 20,
            forall|j: int| 0 <= j < 12 ==> word@[j] == 0,
            forall|j: int| 0 <= j < i ==> word@[12 + j] == address.bytes@[j],
        decreases 20 - i,
    {
        word[12 + i] = address.bytes[i];
        i = i + 1;
    }
    assert(word@ =~= address_word(*address));
    word
}

/// Writes a `u64` as one word.
pub fn word_from_u64(x: u64) -> (word: [u8; 32])
    ensures
        word@ == word_of(x as nat),
{
    U256::from_u64(x).to_word()
}

/// The words of a list of addresses.
pub open spec fn address_words(addresses: Seq<EthAddress>) -> Seq<Seq<u8>> {
    Seq::new(addresses.len(), |i: int| address_word(addresses[i]))
}

/// The words of a list of voting powers.
pub open spec fn power_words(powers: Seq<u64>) -> Seq<Seq<u8>> {
    Seq::new(powers.len(), |i: int| word_of(powers[i] as nat))
}

/// Writes each address as a word.
pub fn words_of_addresses(addresses: &Vec<EthAddress>) -> (words: Vec<[u8; 32]>)
    ensures
        Seq::new(words@.len(), |i: int| words@[i]@) == address_words(addresses@),
{
    let mut words: Vec<[u8; 32]> = Vec::new();
    let mut i: usize = 0;
    while i < addresses.len()
        invariant
            i <= addresses@.len(),
            words@.len() == i,
            forall|j: int| 0 <= j < i ==> (#[trigger] words@[j])@ == address_word(addresses@[j]),
        decreases addresses@.len() - i,
    {
        words.push(word_from_address(&addresses[i]));
        i = i + 1;
    }
    assert(Seq::new(words@.len(), |i: int| words@[i]@) =~= address_words(addresses@));
    words
}

/// Writes each voting power as a word.
pub fn words_of_powers(powers: &Vec<u64>) -> (words: Vec<[u8; 32]>)
    ensures
        Seq::new(words@.len(), |i: int| words@[i]@) == power_words(powers@),
{
    let mut words: Vec<[u8; 32]> = Vec::new();
    let mut i: usize = 0;
    while i < powers.len()
        invariant
            i <= powers@.len(),
            words@.len() == i,
            forall|j: int| 0 <= j < i ==> (#[trigger] words@[j])@ == word_of(powers@[j] as nat),
        decreases powers@.len() - i,
    {
        words.push(word_from_u64(powers[i]));
        i = i + 1;
    }
    assert(Seq::new(words@.len(), |i: int| words@[i]@) =~= power_words(powers@));
    words
}

/// The words of a list of numbers.
pub open spec fn number_words(values: Seq<U256>) -> Seq<Seq<u8>> {
    Seq::new(values.len(), |i: int| word_of(values[i]@))
}

/// Writes each number as a word.
pub fn words_of_numbers(values: &Vec<U256>) -> (words: Vec<[u8; 32]>)
    ensures
        Seq::new(words@.len(), |i: int| words@[i]@) == number_words(values@),
{
    let mut words: Vec<[u8; 32]> = Vec::new();
    let mut i: usize = 0;
    while i < values.len()
        invariant
            i <= values@.len(),
            words@.len() == i,
            forall|j: int| 0 <= j < i ==> (#[trigger] words@[j])@ == word_of(values@[j]@),
        decreases values@.len() - i,
    {
        words.push(values[i].to_word());
        i = i + 1;
    }
    assert(Seq::new(words@.len(), |i: int| words@[i]@) =~= number_words(values@));
    words
}

/// Reads the answer of a contract's getter for a nonce: one word that spells
/// a number within `u64`. Anything else is undecodable.
pub fn decode_nonce(response: &[u8]) -> (result: Result<u64, BridgeError>)
    ensures
        result is Ok <==> response@.len() == 32 && be_nat(response@) <= u64::MAX as nat,
        result is Ok ==> result->Ok_0 as nat == be_nat(response@),
        result is Err ==> result == Err::<u64, BridgeError>(BridgeError::Decode),
{
    if response.len() != 32 {
        return Err(BridgeError::Decode);
    }
    assert(response@.subrange(0, 32) =~= response@);
    match U256::read_word(response, 0).to_u64() {
        Some(nonce) => Ok(nonce),
        None => Err(BridgeError::Decode),
    }
}

/// The first four bytes of the Keccak-256 digest of a function's signature.
pub open spec fn selector(signature: Seq<u8>) -> Seq<u8> {
    keccak256_digest(signature).subrange(0, 4)
}

/// The data of a contract call: the selector of the function, then the
/// encoding of its arguments.
pub open spec fn call_data(signature: Seq<u8>, items: Seq<AbiItem>) -> Seq<u8> {
    selector(signature) + abi_encoding(items)
}

/// Whether `data` has the length of the data of a call: the four bytes of a
/// selector, then whole words.
pub open spec fn has_call_length(data: Seq<u8>) -> bool {
    data.len() >= 4 && (data.len() - 4) % 32 == 0
}

/// Encodes a call of the function with the given signature.
pub fn encode_call(signature: &str, tokens: &Vec<AbiValue>) -> (data: Vec<u8>)
    ensures
        data@ == call_data(signature.spec_bytes(), abi_items(tokens@)),
        has_call_length(data@),
{
    let digest: [u8; 32] = keccak256(signature.as_bytes());
    let mut data: Vec<u8> = Vec::new();
    let mut i: usize = 0;
    while i < 4
        invariant
            i <= 4,
            data@ == digest@.subrange(0, i as int),
        decreases 4 - i,
    {
        data.push(digest[i]);
        i = i + 1;
    }
    let mut arguments: Vec<u8> = abi_encode(tokens);
    data.append(&mut arguments);
    data
}

} // verus!
