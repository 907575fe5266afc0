//! The event decoder: reads the logs of the bridge contract as typed events.
//!
//! A log holds topics and data. The first topic is the Keccak-256 digest of
//! the event's signature, the further topics are the indexed parameters of
//! the event, one word each, and the data is the ABI encoding of the other
//! parameters. Which parameters are indexed is part of the contract's ABI and
//! is stated with each decoder.

use vstd::prelude::*;
use vstd::string::StringSliceAdditionalSpecFns;
use crate::crypto::{keccak256, keccak256_digest};
use crate::error::BridgeError;
use crate::events::{
    Erc20DeployedEvent, EthereumEvent, LogicCallExecutedEvent, SendToCosmosEvent,
    TransactionBatchExecutedEvent,
};
use crate::types::{EthAddress, Valset, ValsetMember};
use crate::uint256::{be_nat, U256};

verus! {

/// A log entry of the EVM chain, as far as the decoder reads it.
#[derive(Clone, Debug, PartialEq, Eq)]
pub struct Log {
    pub topics: Vec<Vec<u8>>,
    pub data: Vec<u8>,
}

/// Whether `data` has a whole word at `start`.
pub open spec fn has_word(data: Seq<u8>, start: int) -> bool {
    0 <= start && start + 32 <= data.len()
}

/// The word of `data` at `start`.
pub open spec fn word_at(data: Seq<u8>, start: int) -> Seq<u8> {
    data.subrange(start, start + 32)
}

/// The number that the word of `data` at `start` spells.
pub open spec fn number_at(data: Seq<u8>, start: int) -> nat {
    be_nat(word_at(data, start))
}

/// Whether a word holds an address: its first twelve bytes are zero.
pub open spec fn is_address_word(word: Seq<u8>) -> bool {
    word.len() == 32 && forall|i: int| 0 <= i < 12 ==> word[i] == 0
}

/// Whether `address` is the address that `word` holds.
pub open spec fn is_address_of(address: EthAddress, word: Seq<u8>) -> bool {
    address.bytes@ == word.subrange(12, 32)
}

/// Whether the dynamic parameter whose offset stands in the head of `data` at
/// `head` lies within `data`: the offset points at a word, which holds the
/// number of items, and `item_size` bytes for each item follow it.
pub open spec fn has_dynamic(data: Seq<u8>, head: int, item_size: int) -> bool {
    &&& has_word(data, head)
    &&& has_word(data, number_at(data, head) as int)
    &&& number_at(data, head) + 32 + number_at(data, number_at(data, head) as int) * item_size
        <= data.len()
}

/// Where the items of the dynamic parameter at `head` begin.
pub open spec fn dynamic_start(data: Seq<u8>, head: int) -> int {
    number_at(data, head) as int + 32
}

/// How many items the dynamic parameter at `head` has.
pub open spec fn dynamic_count(data: Seq<u8>, head: int) -> nat {
    number_at(data, number_at(data, head) as int)
}

/// The bytes of the `bytes` or `string` parameter at `head`.
pub open spec fn bytes_at(data: Seq<u8>, head: int) -> Seq<u8> {
    data.subrange(dynamic_start(data, head), dynamic_start(data, head) + dynamic_count(data, head))
}

/// The topic that opens the logs of the event with the given signature.
pub open spec fn event_topic(signature: Seq<u8>) -> Seq<u8> {
    keccak256_digest(signature)
}

/// Whether a log has `count` topics of one word each, the first of which is
/// the topic of the event with the given signature.
pub open spec fn has_topics(log: Log, signature: Seq<u8>, count: int) -> bool {
    &&& log.topics@.len() == count
    &&& count >= 1
    &&& forall|i: int| 0 <= i < count ==> (#[trigger] log.topics@[i])@.len() == 32
    &&& log.topics@[0]@ == event_topic(signature)
}

/// Whether two byte strings are the same.
fn same_bytes(a: &[u8], b: &[u8]) -> (same: bool)
    ensures
        same == (a@ == b@),
{
    if a.len() != b.len() {
        return false;
    }
    let mut i: usize = 0;
    while i < a.len()
        invariant
            i <= a@.len(),
            a@.len() == b@.len(),
            forall|j: int| 0 <= j < i ==> a@[j] == b@[j],
        decreases a@.len() - i,
    {
        if a[i] != b[i] {
            return false;
        }
        i = i + 1;
    }
    assert(a@ =~= b@);
    true
}

/// Checks the number and the size of a log's topics, and its first topic.
fn check_topics(log: &Log, signature: &str, count: usize) -> (ok: bool)
    requires
        count >= 1,
    ensures
        ok == has_topics(*log, signature.spec_bytes(), count as int),
{
    if log.topics.len() != count {
        return false;
    }
    let mut i: usize = 0;
    while i < count
        invariant
            i <= count,
            count == log.topics@.len(),
            forall|j: int| 0 <= j < i ==> (#[trigger] log.topics@[j])@.len() == 32,
        decreases count - i,
    {
        if log.topics[i].len() != 32 {
            return false;
        }
        i = i + 1;
    }
    let topic: [u8; 32] = keccak256(signature.as_bytes());
    same_bytes(log.topics[0].as_slice(), topic.as_slice())
}

/// Reads a word as an address.
fn address_of_word(word: &[u8]) -> (address: Option<EthAddress>)
    requires
        word@.len() == 32,
    ensures
        address is Some <==> is_address_word(word@),
        address is Some ==> is_address_of(address->0, word@),
{
    let mut i: usize = 0;
    while i < 12
        invariant
            i <= 12,
            word@.len() == 32,
            forall|j: int| 0 <= j < i ==> word@[j] == 0,
        decreases 12 - i,
    {
        if word[i] != 0 {
            return None;
        }
        i = i + 1;
    }
    let mut bytes: [u8; 20] = [0u8; 20];
    let mut k: usize = 0;
    while k < 20
        invariant
            k <= 20,
            word@.len() == 32,
            forall|j: int| 0 <= j < k ==> bytes@[j] == word@[12 + j],
        decreases 20 - k,
    {
        bytes[k] = word[12 + k];
        k = k + 1;
    }
    assert(bytes@ =~= word@.subrange(12, 32));
    Some(EthAddress { bytes })
}

/// Reads the word of `data` at `start` as an address.
fn address_at(data: &[u8], start: usize) -> (address: Option<EthAddress>)
    requires
        has_word(data@, start as int),
    ensures
        address is Some <==> is_address_word(word_at(data@, start as int)),
        address is Some ==> is_address_of(address->0, word_at(data@, start as int)),
{
    let word: [u8; 32] = bytes32_at(data, start);
    address_of_word(word.as_slice())
}

/// Reads the word of `data` at `start` as a number within `u64`.
fn u64_at(data: &[u8], start: usize) -> (number: Option<u64>)
    requires
        has_word(data@, start as int),
    ensures
        number is Some <==> number_at(data@, start as int) <= u64::MAX as nat,
        number is Some ==> number->0 as nat == number_at(data@, start as int),
{
    U256::read_word(data, start).to_u64()
}

/// Reads the word of `data` at `start` as a position or a count: a number
/// within `usize`.
fn usize_at(data: &[u8], start: usize) -> (number: Option<usize>)
    requires
        has_word(data@, start as int),
    ensures
        number is Some <==> number_at(data@, start as int) <= usize::MAX as nat,
        number is Some ==> number->0 as nat == number_at(data@, start as int),
{
    match U256::read_word(data, start).to_u64() {
        Some(number) => if number <= usize::MAX as u64 {
            Some(number as usize)
        } else {
            None
        },
        None => None,
    }
}

/// The 32 bytes of `data` from `start` on.
fn bytes32_at(data: &[u8], start: usize) -> (word: [u8; 32])
    requires
        has_word(data@, start as int),
    ensures
        word@ == word_at(data@, start as int),
{
    let len: usize = data.len();
    let mut word: [u8; 32] = [0u8; 32];
    let mut i: usize = 0;
    while i < 32
        invariant
            i <= 32,
            len == data@.len(),
            has_word(data@, start as int),
            forall|j: int| 0 <= j < i ==> word@[j] == data@[start + j],
        decreases 32 - i,
    {
        word[i] = data[start + i];
        i = i + 1;
    }
    assert(word@ =~= word_at(data@, start as int));
    word
}

/// Where the items of a dynamic parameter begin, and how many there are.
struct Span {
    start: usize,
    count: usize,
}

/// Finds the dynamic parameter whose offset stands at `head`: where its items
/// begin and how many there are, or `None` where it does not lie within
/// `data`.
fn dynamic_at(data: &[u8], head: usize, item_size: usize) -> (found: Option<Span>)
    requires
        item_size == 1 || item_size == 32,
    ensures
        found is Some <==> has_dynamic(data@, head as int, item_size as int),
        found is Some ==> found->0.start as int == dynamic_start(data@, head as int)
            && found->0.count as nat == dynamic_count(data@, head as int),
{
    let len: usize = data.len();
    if len < 32 || head > len - 32 {
        return None;
    }
    let offset: usize = match usize_at(data, head) {
        Some(offset) => offset,
        None => { return None; },
    };
    if offset > len - 32 {
        return None;
    }
    let count: usize = match usize_at(data, offset) {
        Some(count) => count,
        None => { return None; },
    };
    let room: usize = len - 32 - offset;
    if count > room / item_size {
        assert(count * item_size > room) by (nonlinear_arith)
            requires
                count > room / item_size,
                item_size == 1 || item_size == 32,
        ;
        return None;
    }
    assert(count * item_size <= room) by (nonlinear_arith)
        requires
            count <= room / item_size,
            item_size == 1 || item_size == 32,
    ;
    Some(Span { start: offset + 32, count })
}

/// Copies `count` bytes of `data` from `start` on.
fn copy_bytes(data: &[u8], start: usize, count: usize) -> (bytes: Vec<u8>)
    requires
        start + count <= data@.len(),
    ensures
        bytes@ == data@.subrange(start as int, start + count),
{
    let len: usize = data.len();
    let mut bytes: Vec<u8> = Vec::new();
    let mut i: usize = 0;
    while i < count
        invariant
            i <= count,
            len == data@.len(),
            start + count <= len,
            bytes@ == data@.subrange(start as int, start + i),
        decreases count - i,
    {
        bytes.push(data[start + i]);
        assert(bytes@ =~= data@.subrange(start as int, start + i + 1));
        i = i + 1;
    }
    bytes
}

/// The signature of the event that the contract logs for a deposit. The
/// token contract, the sender and the destination are indexed; the amount and
/// the event nonce are the data.
pub const SEND_TO_COSMOS_SIGNATURE: &'static str =
    "SendToCosmosEvent(address,address,bytes32,uint256,uint256)";

/// The signature of the event that the contract logs for an executed batch.
/// The batch nonce and the token contract are indexed; the event nonce is the
/// data.
pub const TRANSACTION_BATCH_EXECUTED_SIGNATURE: &'static str =
    "TransactionBatchExecutedEvent(uint256,address,uint256)";

/// The signature of the event that the contract logs for a new validator
/// set. The valset nonce is indexed; the validators and their powers, two
/// arrays of one length, are the data.
pub const VALSET_UPDATED_SIGNATURE: &'static str = "ValsetUpdatedEvent(uint256,address[],uint256[])";

/// The signature of the event that the contract logs for a deployed token.
/// The token contract is indexed; the denomination, the name, the symbol, the
/// decimals and the event nonce are the data, in this order.
pub const ERC20_DEPLOYED_SIGNATURE: &'static str =
    "ERC20DeployedEvent(string,address,string,string,uint8,uint256)";

/// The signature of the event that the contract logs for an executed logic
/// call. Nothing is indexed: the invalidation id, the invalidation nonce, the
/// returned data and the event nonce are the data, in this order.
pub const LOGIC_CALL_SIGNATURE: &'static str = "LogicCallEvent(bytes32,uint256,bytes,uint256)";

/// Whether `log` is the log of a deposit.
pub open spec fn is_send_to_cosmos_log(log: Log) -> bool {
    &&& has_topics(log, SEND_TO_COSMOS_SIGNATURE.spec_bytes(), 4)
    &&& is_address_word(log.topics@[1]@)
    &&& is_address_word(log.topics@[2]@)
    &&& log.data@.len() == 64
    &&& number_at(log.data@, 32) <= u64::MAX as nat
}

/// Whether `event` is the deposit that `log` reports.
pub open spec fn decodes_send_to_cosmos(log: Log, event: SendToCosmosEvent) -> bool {
    &&& is_address_of(event.erc20, log.topics@[1]@)
    &&& is_address_of(event.sender, log.topics@[2]@)
    &&& event.destination@ == log.topics@[3]@
    &&& event.amount@ == number_at(log.data@, 0)
    &&& event.event_nonce as nat == number_at(log.data@, 32)
}

/// Whether `log` is the log of an executed batch.
pub open spec fn is_transaction_batch_executed_log(log: Log) -> bool {
    &&& has_topics(log, TRANSACTION_BATCH_EXECUTED_SIGNATURE.spec_bytes(), 3)
    &&& number_at(log.topics@[1]@, 0) <= u64::MAX as nat
    &&& is_address_word(log.topics@[2]@)
    &&& log.data@.len() == 32
    &&& number_at(log.data@, 0) <= u64::MAX as nat
}

/// Whether `event` is the executed batch that `log` reports.
pub open spec fn decodes_transaction_batch_executed(
    log: Log,
    event: TransactionBatchExecutedEvent,
) -> bool {
    &&& event.batch_nonce as nat == number_at(log.topics@[1]@, 0)
    &&& is_address_of(event.erc20, log.topics@[2]@)
    &&& event.event_nonce as nat == number_at(log.data@, 0)
}

/// Whether `log` is the log of a deployed token.
pub open spec fn is_erc20_deployed_log(log: Log) -> bool {
    &&& has_topics(log, ERC20_DEPLOYED_SIGNATURE.spec_bytes(), 2)
    &&& is_address_word(log.topics@[1]@)
    &&& log.data@.len() >= 160
    &&& has_dynamic(log.data@, 0, 1)
    &&& has_dynamic(log.data@, 32, 1)
    &&& has_dynamic(log.data@, 64, 1)
    &&& number_at(log.data@, 96) <= u8::MAX as nat
    &&& number_at(log.data@, 128) <= u64::MAX as nat
}

/// Whether `event` is the deployed token that `log` reports.
pub open spec fn decodes_erc20_deployed(log: Log, event: Erc20DeployedEvent) -> bool {
    &&& is_address_of(event.erc20, log.topics@[1]@)
    &&& event.cosmos_denom@ == bytes_at(log.data@, 0)
    &&& event.name@ == bytes_at(log.data@, 32)
    &&& event.symbol@ == bytes_at(log.data@, 64)
    &&& event.decimals as nat == number_at(log.data@, 96)
    &&& event.event_nonce as nat == number_at(log.data@, 128)
}

/// Whether `log` is the log of an executed logic call.
pub open spec fn is_logic_call_log(log: Log) -> bool {
    &&& has_topics(log, LOGIC_CALL_SIGNATURE.spec_bytes(), 1)
    &&& log.data@.len() >= 128
    &&& number_at(log.data@, 32) <= u64::MAX as nat
    &&& has_dynamic(log.data@, 64, 1)
    &&& number_at(log.data@, 96) <= u64::MAX as nat
}

/// Whether `event` is the executed logic call that `log` reports.
pub open spec fn decodes_logic_call(log: Log, event: LogicCallExecutedEvent) -> bool {
    &&& event.invalidation_id@ == word_at(log.data@, 0)
    &&& event.invalidation_nonce as nat == number_at(log.data@, 32)
    &&& event.return_data@ == bytes_at(log.data@, 64)
    &&& event.event_nonce as nat == number_at(log.data@, 96)
}

/// Whether `log` is the log of a new validator set: it names as many powers
/// as validators, every validator is an address, and every power is within
/// `u64`.
pub open spec fn is_valset_updated_log(log: Log) -> bool {
    &&& has_topics(log, VALSET_UPDATED_SIGNATURE.spec_bytes(), 2)
    &&& number_at(log.topics@[1]@, 0) <= u64::MAX as nat
    &&& has_dynamic(log.data@, 0, 32)
    &&& has_dynamic(log.data@, 32, 32)
    &&& dynamic_count(log.data@, 0) == dynamic_count(log.data@, 32)
    &&& forall|i: int|
        0 <= i < dynamic_count(log.data@, 0) ==> is_address_word(
            #[trigger] word_at(log.data@, dynamic_start(log.data@, 0) + 32 * i),
        )
    &&& forall|i: int|
        0 <= i < dynamic_count(log.data@, 32) ==> #[trigger] number_at(
            log.data@,
            dynamic_start(log.data@, 32) + 32 * i,
        ) <= u64::MAX as nat
}

/// Whether `valset` is the validator set that `log` reports.
pub open spec fn decodes_valset_updated(log: Log, valset: Valset) -> bool {
    &&& valset.nonce as nat == number_at(log.topics@[1]@, 0)
    &&& valset.members@.len() == dynamic_count(log.data@, 0)
    &&& forall|i: int|
        0 <= i < valset.members@.len() ==> {
            &&& (#[trigger] valset.members@[i]).eth_address is Some
            &&& is_address_of(
                valset.members@[i].eth_address->0,
                word_at(log.data@, dynamic_start(log.data@, 0) + 32 * i),
            )
            &&& valset.members@[i].power as nat == number_at(
                log.data@,
                dynamic_start(log.data@, 32) + 32 * i,
            )
        }
}

impl SendToCosmosEvent {
    /// Reads the log of a deposit. A log of another shape is undecodable.
    pub fn from_log(log: &Log) -> (result: Result<SendToCosmosEvent, BridgeError>)
        ensures
            result is Ok <==> is_send_to_cosmos_log(*log),
            result is Ok ==> decodes_send_to_cosmos(*log, result->Ok_0),
            result is Err ==> result == Err::<SendToCosmosEvent, BridgeError>(BridgeError::Decode),
    {
        if !check_topics(log, SEND_TO_COSMOS_SIGNATURE, 4) || log.data.len() != 64 {
            return Err(BridgeError::Decode);
        }
        let erc20: Option<EthAddress> = address_of_word(log.topics[1].as_slice());
        let sender: Option<EthAddress> = address_of_word(log.topics[2].as_slice());
        let event_nonce: Option<u64> = u64_at(log.data.as_slice(), 32);
        match (erc20, sender, event_nonce) {
            (Some(erc20), Some(sender), Some(event_nonce)) => {
                assert(word_at(log.topics@[3]@, 0) =~= log.topics@[3]@);
                Ok(
                    SendToCosmosEvent {
                        erc20,
                        sender,
                        destination: bytes32_at(log.topics[3].as_slice(), 0),
                        amount: U256::read_word(log.data.as_slice(), 0),
                        event_nonce,
                    },
                )
            },
            _ => Err(BridgeError::Decode),
        }
    }
}

impl TransactionBatchExecutedEvent {
    /// Reads the log of an executed batch. A log of another shape is
    /// undecodable.
    pub fn from_log(log: &Log) -> (result: Result<TransactionBatchExecutedEvent, BridgeError>)
        ensures
            result is Ok <==> is_transaction_batch_executed_log(*log),
            result is Ok ==> decodes_transaction_batch_executed(*log, result->Ok_0),
            result is Err ==> result == Err::<TransactionBatchExecutedEvent, BridgeError>(
                BridgeError::Decode,
            ),
    {
        if !check_topics(log, TRANSACTION_BATCH_EXECUTED_SIGNATURE, 3) || log.data.len() != 32 {
            return Err(BridgeError::Decode);
        }
        let batch_nonce: Option<u64> = u64_at(log.topics[1].as_slice(), 0);
        let erc20: Option<EthAddress> = address_of_word(log.topics[2].as_slice());
        let event_nonce: Option<u64> = u64_at(log.data.as_slice(), 0);
        match (batch_nonce, erc20, event_nonce) {
            (Some(batch_nonce), Some(erc20), Some(event_nonce)) => Ok(
                TransactionBatchExecutedEvent { batch_nonce, erc20, event_nonce },
            ),
            _ => Err(BridgeError::Decode),
        }
    }
}

impl Erc20DeployedEvent {
    /// Reads the log of a deployed token. A log of another shape is
    /// undecodable.
    pub fn from_log(log: &Log) -> (result: Result<Erc20DeployedEvent, BridgeError>)
        ensures
            result is Ok <==> is_erc20_deployed_log(*log),
            result is Ok ==> decodes_erc20_deployed(*log, result->Ok_0),
            result is Err ==> result == Err::<Erc20DeployedEvent, BridgeError>(BridgeError::Decode),
    {
        if !check_topics(log, ERC20_DEPLOYED_SIGNATURE, 2) || log.data.len() < 160 {
            return Err(BridgeError::Decode);
        }
        let data: &[u8] = log.data.as_slice();
        let erc20: Option<EthAddress> = address_of_word(log.topics[1].as_slice());
        let cosmos_denom: Option<Span> = dynamic_at(data, 0, 1);
        let name: Option<Span> = dynamic_at(data, 32, 1);
        let symbol: Option<Span> = dynamic_at(data, 64, 1);
        let decimals: Option<u64> = u64_at(data, 96);
        let event_nonce: Option<u64> = u64_at(data, 128);
        match (erc20, cosmos_denom, name, symbol, decimals, event_nonce) {
            (
                Some(erc20),
                Some(cosmos_denom),
                Some(name),
                Some(symbol),
                Some(decimals),
                Some(event_nonce),
            ) => {
                if decimals > 255 {
                    return Err(BridgeError::Decode);
                }
                Ok(
                    Erc20DeployedEvent {
                        cosmos_denom: copy_bytes(data, cosmos_denom.start, cosmos_denom.count),
                        erc20,
                        name: copy_bytes(data, name.start, name.count),
                        symbol: copy_bytes(data, symbol.start, symbol.count),
                        decimals: decimals as u8,
                        event_nonce,
                    },
                )
            },
            _ => Err(BridgeError::Decode),
        }
    }
}

impl LogicCallExecutedEvent {
    /// Reads the log of an executed logic call. A log of another shape is
    /// undecodable.
    pub fn from_log(log: &Log) -> (result: Result<LogicCallExecutedEvent, BridgeError>)
        ensures
            result is Ok <==> is_logic_call_log(*log),
            result is Ok ==> decodes_logic_call(*log, result->Ok_0),
            result is Err ==> result == Err::<LogicCallExecutedEvent, BridgeError>(
                BridgeError::Decode,
            ),
    {
        if !check_topics(log, LOGIC_CALL_SIGNATURE, 1) || log.data.len() < 128 {
            return Err(BridgeError::Decode);
        }
        let data: &[u8] = log.data.as_slice();
        let invalidation_nonce: Option<u64> = u64_at(data, 32);
        let return_data: Option<Span> = dynamic_at(data, 64, 1);
        let event_nonce: Option<u64> = u64_at(data, 96);
        match (invalidation_nonce, return_data, event_nonce) {
            (Some(invalidation_nonce), Some(return_data), Some(event_nonce)) => Ok(
                LogicCallExecutedEvent {
                    invalidation_id: bytes32_at(data, 0),
                    invalidation_nonce,
                    return_data: copy_bytes(data, return_data.start, return_data.count),
                    event_nonce,
                },
            ),
            _ => Err(BridgeError::Decode),
        }
    }
}

impl Valset {
    /// Reads the log of a new validator set as that set. A log of another
    /// shape is undecodable.
    pub fn from_log(log: &Log) -> (result: Result<Valset, BridgeError>)
        ensures
            result is Ok <==> is_valset_updated_log(*log),
            result is Ok ==> decodes_valset_updated(*log, result->Ok_0),
            result is Err ==> result == Err::<Valset, BridgeError>(BridgeError::Decode),
    {
        if !check_topics(log, VALSET_UPDATED_SIGNATURE, 2) {
            return Err(BridgeError::Decode);
        }
        let data: &[u8] = log.data.as_slice();
        let nonce: u64 = match u64_at(log.topics[1].as_slice(), 0) {
            Some(nonce) => nonce,
            None => { return Err(BridgeError::Decode); },
        };
        let validators: Span = match dynamic_at(data, 0, 32) {
            Some(span) => span,
            None => { return Err(BridgeError::Decode); },
        };
        let powers: Span = match dynamic_at(data, 32, 32) {
            Some(span) => span,
            None => { return Err(BridgeError::Decode); },
        };
        if validators.count != powers.count {
            return Err(BridgeError::Decode);
        }
        let count: usize = validators.count;
        let mut members: Vec<ValsetMember> = Vec::new();
        let mut i: usize = 0;
        while i < count
            invariant
                i <= count,
                data@ == log.data@,
                validators.start as int == dynamic_start(data@, 0),
                powers.start as int == dynamic_start(data@, 32),
                count as nat == dynamic_count(data@, 0),
                count as nat == dynamic_count(data@, 32),
                validators.start + 32 * count <= data@.len(),
                powers.start + 32 * count <= data@.len(),
                members@.len() == i,
                forall|k: int|
                    0 <= k < i ==> is_address_word(
                        #[trigger] word_at(data@, dynamic_start(data@, 0) + 32 * k),
                    ),
                forall|k: int|
                    0 <= k < i ==> #[trigger] number_at(data@, dynamic_start(data@, 32) + 32 * k)
                        <= u64::MAX as nat,
                forall|k: int|
                    0 <= k < i ==> {
                        &&& (#[trigger] members@[k]).eth_address is Some
                        &&& is_address_of(
                            members@[k].eth_address->0,
                            word_at(data@, dynamic_start(data@, 0) + 32 * k),
                        )
                        &&& members@[k].power as nat == number_at(
                            data@,
                            dynamic_start(data@, 32) + 32 * k,
                        )
                    },
            decreases count - i,
        {
            let len: usize = data.len();
            let address: Option<EthAddress> = address_at(data, validators.start + 32 * i);
            let power: Option<u64> = u64_at(data, powers.start + 32 * i);
            match (address, power) {
                (Some(address), Some(power)) => {
                    members.push(ValsetMember { power, eth_address: Some(address) });
                },
                _ => {
                    return Err(BridgeError::Decode);
                },
            }
            i = i + 1;
        }
        Ok(Valset { nonce, members })
    }
}

/// The kinds of events that the bridge contract logs.
#[derive(Clone, Copy, Debug, PartialEq, Eq, Hash)]
pub enum EventKind {
    SendToCosmos,
    TransactionBatchExecuted,
    ValsetUpdated,
    Erc20Deployed,
    LogicCall,
}

impl EventKind {
    /// The signature of the events of this kind, by which their logs are
    /// queried.
    pub fn signature(&self) -> (signature: &'static str)
        ensures
            signature == match *self {
                EventKind::SendToCosmos => SEND_TO_COSMOS_SIGNATURE,
                EventKind::TransactionBatchExecuted => TRANSACTION_BATCH_EXECUTED_SIGNATURE,
                EventKind::ValsetUpdated => VALSET_UPDATED_SIGNATURE,
                EventKind::Erc20Deployed => ERC20_DEPLOYED_SIGNATURE,
                EventKind::LogicCall => LOGIC_CALL_SIGNATURE,
            },
    {
        match self {
            EventKind::SendToCosmos => SEND_TO_COSMOS_SIGNATURE,
            EventKind::TransactionBatchExecuted => TRANSACTION_BATCH_EXECUTED_SIGNATURE,
            EventKind::ValsetUpdated => VALSET_UPDATED_SIGNATURE,
            EventKind::Erc20Deployed => ERC20_DEPLOYED_SIGNATURE,
            EventKind::LogicCall => LOGIC_CALL_SIGNATURE,
        }
    }
}

/// Whether `log` is the log of an event of the given kind.
pub open spec fn is_log_of(kind: EventKind, log: Log) -> bool {
    match kind {
        EventKind::SendToCosmos => is_send_to_cosmos_log(log),
        EventKind::TransactionBatchExecuted => is_transaction_batch_executed_log(log),
        EventKind::ValsetUpdated => is_valset_updated_log(log),
        EventKind::Erc20Deployed => is_erc20_deployed_log(log),
        EventKind::LogicCall => is_logic_call_log(log),
    }
}

/// Whether `event` is the event to claim that `log`, a log of the given kind,
/// reports. The log of a new validator set names no event nonce, so there is
/// no event to claim for it.
pub open spec fn is_claim_of(kind: EventKind, log: Log, event: EthereumEvent) -> bool {
    match (kind, event) {
        (EventKind::SendToCosmos, EthereumEvent::SendToCosmos(e)) => decodes_send_to_cosmos(log, e),
        (
            EventKind::TransactionBatchExecuted,
            EthereumEvent::TransactionBatchExecuted(e),
        ) => decodes_transaction_batch_executed(log, e),
        (EventKind::Erc20Deployed, EthereumEvent::Erc20Deployed(e)) => decodes_erc20_deployed(log, e),
        (EventKind::LogicCall, EthereumEvent::LogicCallExecuted(e)) => decodes_logic_call(log, e),
        _ => false,
    }
}

/// Whether `events` are the events to claim for `logs`, logs of the given
/// kind: one for each log, in order, but none for the logs of new validator
/// sets.
pub open spec fn are_claims_of(kind: EventKind, logs: Seq<Log>, events: Seq<EthereumEvent>) -> bool {
    if kind == EventKind::ValsetUpdated {
        events.len() == 0
    } else {
        &&& events.len() == logs.len()
        &&& forall|i: int| 0 <= i < logs.len() ==> is_claim_of(kind, #[trigger] logs[i], events[i])
    }
}

/// Reads the logs of one kind as the events to claim.
///
/// Every log must be a log of that kind, or the whole list is undecodable.
/// The logs of new validator sets are read like the others, but they name no
/// event nonce and so yield no events to claim.
pub fn decode_logs(kind: EventKind, logs: &Vec<Log>) -> (result: Result<
    Vec<EthereumEvent>,
    BridgeError,
>)
    ensures
        result is Ok <==> forall|i: int| 0 <= i < logs@.len() ==> is_log_of(kind, #[trigger] logs@[i]),
        result is Ok ==> are_claims_of(kind, logs@, result->Ok_0@),
        result is Err ==> result == Err::<Vec<EthereumEvent>, BridgeError>(BridgeError::Decode),
{
    let mut events: Vec<EthereumEvent> = Vec::new();
    let mut i: usize = 0;
    while i < logs.len()
        invariant
            i <= logs@.len(),
            forall|k: int| 0 <= k < i ==> is_log_of(kind, #[trigger] logs@[k]),
            kind == EventKind::ValsetUpdated ==> events@.len() == 0,
            kind != EventKind::ValsetUpdated ==> events@.len() == i,
            kind != EventKind::ValsetUpdated ==> forall|k: int|
                0 <= k < i ==> is_claim_of(kind, #[trigger] logs@[k], events@[k]),
        decreases logs@.len() - i,
    {
        let log: &Log = &logs[i];
        match kind {
            EventKind::SendToCosmos => match SendToCosmosEvent::from_log(log) {
                Ok(event) => events.push(EthereumEvent::SendToCosmos(event)),
                Err(error) => { return Err(error); },
            },
            EventKind::TransactionBatchExecuted => match TransactionBatchExecutedEvent::from_log(
                log,
            ) {
                Ok(event) => events.push(EthereumEvent::TransactionBatchExecuted(event)),
                Err(error) => { return Err(error); },
            },
            EventKind::ValsetUpdated => match Valset::from_log(log) {
                Ok(_) => {},
                Err(error) => { return Err(error); },
            },
            EventKind::Erc20Deployed => match Erc20DeployedEvent::from_log(log) {
                Ok(event) => events.push(EthereumEvent::Erc20Deployed(event)),
                Err(error) => { return Err(error); },
            },
            EventKind::LogicCall => match LogicCallExecutedEvent::from_log(log) {
                Ok(event) => events.push(EthereumEvent::LogicCallExecuted(event)),
                Err(error) => { return Err(error); },
            },
        }
        i = i + 1;
    }
    Ok(events)
}

} // verus!
