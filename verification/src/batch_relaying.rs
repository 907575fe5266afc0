//! The batch relayer: which withdrawal batch to bring to the bridge contract,
//! the call that brings it, and the steps of a relaying cycle. A cycle takes
//! up one batch, the oldest sufficiently signed batch of its token, and
//! submits that one or none.

use vstd::prelude::*;
use vstd::string::StringSliceAdditionalSpecFns;
use crate::abi::{
    abi_items, address_word, address_words, call_data, encode_call, has_call_length, number_words,
    power_words,
    word_from_address, word_from_u64, words_of_addresses, words_of_numbers, words_of_powers,
    AbiItem, AbiValue,
};
use crate::error::BridgeError;
use crate::gas::GasCost;
use crate::message_signatures::{
    amount_words, batch_confirm_digest, batch_confirm_hash, destination_words, fee_words,
    words_of_transfers,
};
use crate::types::{
    BatchTransfer, BridgeId, Confirmation, EthAddress, EthSignature, TransactionBatch, Valset,
    ValsetMember,
};
use crate::uint256::word_of;
use crate::valset::{
    confirmed_power, confirmed_signatures, member_addresses, member_powers, r_values, s_values,
    v_values, SigArrays,
};

verus! {

/// The signature of the bridge contract's function that executes a batch:
/// the current validator set, its signatures as three parallel arrays, then
/// the batch.
pub const SUBMIT_BATCH_SIGNATURE: &'static str =
    "submitBatch(address[],uint256[],uint256,uint8[],bytes32[],bytes32[],uint256[],address[],uint256[],uint256,address,uint256)";

/// The signature of the bridge contract's getter for the nonce of the last
/// batch that it executed for a token.
pub const BATCH_NONCE_SIGNATURE: &'static str = "lastBatchNonce(address)";

/// The data of the call that reads the nonce of the last batch that the
/// bridge contract executed for the token at `token_contract`. The answer is
/// read with [`crate::abi::decode_nonce`].
pub fn batch_nonce_call(token_contract: &EthAddress) -> (data: Vec<u8>)
    ensures
        data@ == call_data(
            BATCH_NONCE_SIGNATURE.spec_bytes(),
            seq![AbiItem::Word(address_word(*token_contract))],
        ),
        has_call_length(data@),
{
    let mut tokens: Vec<AbiValue> = Vec::new();
    tokens.push(AbiValue::Word(word_from_address(token_contract)));
    assert(abi_items(tokens@) =~= seq![AbiItem::Word(address_word(*token_contract))]);
    encode_call(BATCH_NONCE_SIGNATURE, &tokens)
}

/// The arguments of a call that executes a batch.
pub open spec fn submit_batch_items(
    valset_nonce: u64,
    members: Seq<ValsetMember>,
    signatures: Seq<EthSignature>,
    nonce: u64,
    token_contract: EthAddress,
    transfers: Seq<BatchTransfer>,
    timeout_block: u64,
) -> Seq<AbiItem> {
    seq![
        AbiItem::Array(address_words(member_addresses(members))),
        AbiItem::Array(power_words(member_powers(members))),
        AbiItem::Word(word_of(valset_nonce as nat)),
        AbiItem::Array(number_words(v_values(signatures))),
        AbiItem::Array(number_words(r_values(signatures))),
        AbiItem::Array(number_words(s_values(signatures))),
        AbiItem::Array(amount_words(transfers)),
        AbiItem::Array(destination_words(transfers)),
        AbiItem::Array(fee_words(transfers)),
        AbiItem::Word(word_of(nonce as nat)),
        AbiItem::Word(address_word(token_contract)),
        AbiItem::Word(word_of(timeout_block as nat)),
    ]
}

/// The digest that confirms `batch` on the bridge `bridge_id`.
pub open spec fn digest_of_batch(bridge_id: Seq<u8>, batch: TransactionBatch) -> Seq<u8> {
    batch_confirm_digest(
        bridge_id,
        batch.nonce,
        batch.token_contract,
        batch.transfers@,
        batch.timeout_block,
    )
}

/// The data of the call that executes `batch`, signed by the members of the
/// set that the contract holds.
pub open spec fn batch_payload(
    bridge_id: Seq<u8>,
    valset_nonce: u64,
    members: Seq<ValsetMember>,
    batch: TransactionBatch,
    confirmations: Seq<Confirmation>,
) -> Seq<u8> {
    call_data(
        SUBMIT_BATCH_SIGNATURE.spec_bytes(),
        submit_batch_items(
            valset_nonce,
            members,
            confirmed_signatures(members, confirmations, digest_of_batch(bridge_id, batch)),
            batch.nonce,
            batch.token_contract,
            batch.transfers@,
            batch.timeout_block,
        ),
    )
}

/// Whether the members that confirmed `batch` hold at least `threshold`
/// voting power.
pub open spec fn batch_signed(
    bridge_id: Seq<u8>,
    members: Seq<ValsetMember>,
    batch: TransactionBatch,
    confirmations: Seq<Confirmation>,
    threshold: u64,
) -> bool {
    confirmed_power(members, confirmations, digest_of_batch(bridge_id, batch)) >= threshold
}

/// Encodes the call that executes `batch` in the bridge contract, or fails
/// where the confirmations do not carry `threshold` voting power of
/// `current_valset`, the set that the contract holds.
pub fn encode_batch_payload(
    current_valset: &Valset,
    batch: &TransactionBatch,
    confirmations: &Vec<Confirmation>,
    bridge_id: &BridgeId,
    threshold: u64,
) -> (result: Result<Vec<u8>, BridgeError>)
    ensures
        result is Ok <==> batch_signed(
            bridge_id@,
            current_valset.members@,
            *batch,
            confirmations@,
            threshold,
        ),
        result is Ok ==> result->Ok_0@ == batch_payload(
            bridge_id@,
            current_valset.nonce,
            current_valset.members@,
            *batch,
            confirmations@,
        ),
        result is Ok ==> has_call_length(result->Ok_0@),
        result is Err ==> result == Err::<Vec<u8>, BridgeError>(BridgeError::InsufficientSignatures),
{
    let (addresses, powers) = current_valset.filter_empty_addresses();
    let digest: [u8; 32] = batch_confirm_hash(bridge_id, batch);
    let arrays: SigArrays = match current_valset.order_sigs(&digest, confirmations, threshold) {
        Ok(arrays) => arrays,
        Err(error) => { return Err(error); },
    };
    let ghost signatures = confirmed_signatures(current_valset.members@, confirmations@, digest@);
    proof {
        arrays.lemma_values();
    }
    let (amounts, destinations, fees) = words_of_transfers(&batch.transfers);
    let mut tokens: Vec<AbiValue> = Vec::new();
    tokens.push(AbiValue::Array(words_of_addresses(&addresses)));
    tokens.push(AbiValue::Array(words_of_powers(&powers)));
    tokens.push(AbiValue::Word(word_from_u64(current_valset.nonce)));
    tokens.push(AbiValue::Array(words_of_numbers(&arrays.v)));
    tokens.push(AbiValue::Array(words_of_numbers(&arrays.r)));
    tokens.push(AbiValue::Array(words_of_numbers(&arrays.s)));
    tokens.push(AbiValue::Array(amounts));
    tokens.push(AbiValue::Array(destinations));
    tokens.push(AbiValue::Array(fees));
    tokens.push(AbiValue::Word(word_from_u64(batch.nonce)));
    tokens.push(AbiValue::Word(word_from_address(&batch.token_contract)));
    tokens.push(AbiValue::Word(word_from_u64(batch.timeout_block)));
    assert(abi_items(tokens@) =~= submit_batch_items(
        current_valset.nonce,
        current_valset.members@,
        signatures,
        batch.nonce,
        batch.token_contract,
        batch.transfers@,
        batch.timeout_block,
    ));
    Ok(encode_call(SUBMIT_BATCH_SIGNATURE, &tokens))
}

/// Where a candidate stands: its token, its nonce, and whether it is
/// sufficiently signed.
#[derive(Clone, Copy, Debug, PartialEq, Eq)]
pub struct BatchStanding {
    pub token_contract: EthAddress,
    pub nonce: u64,
    pub signed: bool,
}

/// Whether entry `j` is a sufficiently signed batch of the token of entry
/// `i` that the contract would execute before it: its nonce is lower, or it
/// has the same nonce and stands earlier in the list.
pub open spec fn goes_before(standings: Seq<BatchStanding>, j: int, i: int) -> bool {
    &&& 0 <= j < standings.len()
    &&& standings[j].signed
    &&& standings[j].token_contract == standings[i].token_contract
    &&& (standings[j].nonce < standings[i].nonce || (standings[j].nonce == standings[i].nonce && j
        < i))
}

/// Whether entry `i` is the oldest of its token that can be submitted: it is
/// sufficiently signed, and no other entry goes before it.
pub open spec fn is_oldest_of_token(standings: Seq<BatchStanding>, i: int) -> bool {
    &&& 0 <= i < standings.len()
    &&& standings[i].signed
    &&& forall|j: int| !#[trigger] goes_before(standings, j, i)
}

/// Whether `chosen` lists, in ascending order, exactly the entries that are
/// the oldest of their token that can be submitted.
pub open spec fn is_selection(standings: Seq<BatchStanding>, chosen: Seq<usize>) -> bool {
    &&& forall|a: int, b: int| 0 <= a < b < chosen.len() ==> chosen[a] < chosen[b]
    &&& forall|k: int|
        0 <= k < chosen.len() ==> is_oldest_of_token(standings, #[trigger] chosen[k] as int)
    &&& forall|i: int| #[trigger] is_oldest_of_token(standings, i) ==> chosen.contains(i as usize)
}

/// The entries among the first `n` that are the oldest of their token that can
/// be submitted, in ascending order.
pub open spec fn oldest_among(standings: Seq<BatchStanding>, n: int) -> Seq<usize>
    decreases n,
{
    if n <= 0 {
        Seq::empty()
    } else if is_oldest_of_token(standings, n - 1) {
        oldest_among(standings, n - 1).push((n - 1) as usize)
    } else {
        oldest_among(standings, n - 1)
    }
}

/// The selection: the entries that are the oldest of their token that can be
/// submitted, in ascending order.
pub open spec fn selection(standings: Seq<BatchStanding>) -> Seq<usize> {
    oldest_among(standings, standings.len() as int)
}

/// The entries that `oldest_among` lists are below `n`, ascending, each the
/// oldest of its token, and none that is so is missing.
proof fn lemma_oldest_among(standings: Seq<BatchStanding>, n: int)
    requires
        0 <= n <= standings.len() <= usize::MAX,
    ensures
        forall|k: int|
            0 <= k < oldest_among(standings, n).len() ==> #[trigger] oldest_among(standings, n)[k]
                < n && is_oldest_of_token(standings, oldest_among(standings, n)[k] as int),
        forall|a: int, b: int|
            0 <= a < b < oldest_among(standings, n).len() ==> oldest_among(standings, n)[a]
                < oldest_among(standings, n)[b],
        forall|i: int|
            0 <= i < n && #[trigger] is_oldest_of_token(standings, i) ==> oldest_among(
                standings,
                n,
            ).contains(i as usize),
    decreases n,
{
    if n > 0 {
        lemma_oldest_among(standings, n - 1);
        let before = oldest_among(standings, n - 1);
        let now = oldest_among(standings, n);
        assert forall|i: int|
            0 <= i < n && #[trigger] is_oldest_of_token(standings, i) implies now.contains(
            i as usize,
        ) by {
            if i < n - 1 {
                assert(before.contains(i as usize));
                let k = choose|k: int| 0 <= k < before.len() && before[k] == i as usize;
                assert(now[k] == i as usize);
            } else {
                assert(now[before.len() as int] == i as usize);
            }
        }
    }
}

/// The selection lists, in ascending order, exactly the entries that are the
/// oldest of their token that can be submitted.
pub proof fn lemma_selection(standings: Seq<BatchStanding>)
    requires
        standings.len() <= usize::MAX,
    ensures
        is_selection(standings, selection(standings)),
{
    lemma_oldest_among(standings, standings.len() as int);
}

/// Where some entry is the oldest of its token that can be submitted, the
/// selection is not empty, and its first entry is the first such entry of the
/// list.
pub proof fn lemma_first_of_selection(standings: Seq<BatchStanding>, i: int)
    requires
        standings.len() <= usize::MAX,
        is_oldest_of_token(standings, i),
    ensures
        selection(standings).len() > 0,
        selection(standings)[0] <= i,
        is_oldest_of_token(standings, selection(standings)[0] as int),
        forall|j: int| 0 <= j < selection(standings)[0] ==> !is_oldest_of_token(standings, j),
{
    lemma_selection(standings);
    let chosen = selection(standings);
    assert(chosen.contains(i as usize));
    let k = choose|k: int| 0 <= k < chosen.len() && chosen[k] == i as usize;
    assert(chosen[0] <= chosen[k]);
    assert forall|j: int| 0 <= j < chosen[0] implies !is_oldest_of_token(standings, j) by {
        if is_oldest_of_token(standings, j) {
            assert(chosen.contains(j as usize));
            let m = choose|m: int| 0 <= m < chosen.len() && chosen[m] == j as usize;
            assert(chosen[0] <= chosen[m]);
        }
    }
}

/// Oldest first: of two sufficiently signed batches of one token, the one with
/// the higher nonce is not chosen.
pub proof fn lemma_older_batch_goes_first(
    standings: Seq<BatchStanding>,
    chosen: Seq<usize>,
    older: int,
    newer: int,
)
    requires
        standings.len() <= usize::MAX,
        is_selection(standings, chosen),
        0 <= older < standings.len(),
        0 <= newer < standings.len(),
        standings[older].signed,
        standings[newer].signed,
        standings[older].token_contract == standings[newer].token_contract,
        standings[older].nonce < standings[newer].nonce,
    ensures
        !chosen.contains(newer as usize),
{
    if chosen.contains(newer as usize) {
        let k = choose|k: int| 0 <= k < chosen.len() && chosen[k] == newer as usize;
        assert(is_oldest_of_token(standings, chosen[k] as int));
        assert(goes_before(standings, older, newer));
    }
}

/// Picks, for each token, the batch with the lowest nonce among those that
/// are sufficiently signed: the contract executes the batches of a token in
/// the order of their nonces, so the oldest one goes first.
pub fn oldest_submittable(standings: &Vec<BatchStanding>) -> (chosen: Vec<usize>)
    ensures
        chosen@ == selection(standings@),
        is_selection(standings@, chosen@),
{
    let mut chosen: Vec<usize> = Vec::new();
    let mut i: usize = 0;
    while i < standings.len()
        invariant
            i <= standings@.len(),
            chosen@ == oldest_among(standings@, i as int),
        decreases standings@.len() - i,
    {
        if standings[i].signed {
            let mut oldest: bool = true;
            let mut j: usize = 0;
            while j < standings.len()
                invariant
                    j <= standings@.len(),
                    i < standings@.len(),
                    oldest == (forall|m: int| 0 <= m < j ==> !#[trigger] goes_before(
                        standings@,
                        m,
                        i as int,
                    )),
                decreases standings@.len() - j,
            {
                if standings[j].signed && standings[j].token_contract.equals(
                    &standings[i].token_contract,
                ) && (standings[j].nonce < standings[i].nonce || (standings[j].nonce
                    == standings[i].nonce && j < i)) {
                    assert(goes_before(standings@, j as int, i as int));
                    oldest = false;
                }
                j = j + 1;
            }
            if oldest {
                assert(is_oldest_of_token(standings@, i as int));
                chosen.push(i);
            } else {
                assert(!is_oldest_of_token(standings@, i as int));
            }
        }
        i = i + 1;
    }
    proof {
        lemma_selection(standings@);
    }
    chosen
}

/// A batch that the native chain offers, with the confirmations of it, or
/// with the reason why they could not be fetched.
#[derive(Debug, PartialEq, Eq)]
pub struct BatchCandidate {
    pub batch: TransactionBatch,
    pub confirmations: Result<Vec<Confirmation>, BridgeError>,
}

/// Whether the confirmations of a candidate were fetched and carry at least
/// `threshold` voting power of the set that the contract holds.
pub open spec fn candidate_signed(
    bridge_id: Seq<u8>,
    members: Seq<ValsetMember>,
    candidate: BatchCandidate,
    threshold: u64,
) -> bool {
    candidate.confirmations is Ok && batch_signed(
        bridge_id,
        members,
        candidate.batch,
        candidate.confirmations->Ok_0@,
        threshold,
    )
}

/// Where each candidate stands.
pub open spec fn candidate_standings(
    bridge_id: Seq<u8>,
    members: Seq<ValsetMember>,
    candidates: Seq<BatchCandidate>,
    threshold: u64,
) -> Seq<BatchStanding> {
    Seq::new(
        candidates.len(),
        |i: int|
            BatchStanding {
                token_contract: candidates[i].batch.token_contract,
                nonce: candidates[i].batch.nonce,
                signed: candidate_signed(bridge_id, members, candidates[i], threshold),
            },
    )
}

/// The candidates that can be submitted: for each token, the oldest candidate
/// that is sufficiently signed, in the order of the list.
pub open spec fn batch_selection(
    bridge_id: Seq<u8>,
    members: Seq<ValsetMember>,
    candidates: Seq<BatchCandidate>,
    threshold: u64,
) -> Seq<usize> {
    selection(candidate_standings(bridge_id, members, candidates, threshold))
}

/// Picks the batches that can be submitted: for each token, the oldest
/// candidate whose confirmations carry at least `threshold` voting power of
/// `current_valset`.
pub fn select_batches(
    current_valset: &Valset,
    candidates: &Vec<BatchCandidate>,
    bridge_id: &BridgeId,
    threshold: u64,
) -> (chosen: Vec<usize>)
    ensures
        chosen@ == batch_selection(bridge_id@, current_valset.members@, candidates@, threshold),
        is_selection(
            candidate_standings(bridge_id@, current_valset.members@, candidates@, threshold),
            chosen@,
        ),
{
    let mut standings: Vec<BatchStanding> = Vec::new();
    let ghost all = candidate_standings(bridge_id@, current_valset.members@, candidates@, threshold);
    let mut i: usize = 0;
    while i < candidates.len()
        invariant
            i <= candidates@.len(),
            all == candidate_standings(bridge_id@, current_valset.members@, candidates@, threshold),
            standings@ == all.take(i as int),
        decreases candidates@.len() - i,
    {
        let candidate: &BatchCandidate = &candidates[i];
        let signed: bool = match &candidate.confirmations {
            Ok(confirmations) => {
                let digest: [u8; 32] = batch_confirm_hash(bridge_id, &candidate.batch);
                match current_valset.order_sigs(&digest, confirmations, threshold) {
                    Ok(_) => true,
                    Err(_) => false,
                }
            },
            Err(_) => false,
        };
        standings.push(
            BatchStanding {
                token_contract: candidate.batch.token_contract,
                nonce: candidate.batch.nonce,
                signed,
            },
        );
        assert(standings@ =~= all.take(i + 1));
        i = i + 1;
    }
    assert(standings@ =~= all);
    oldest_submittable(&standings)
}

/// What a relaying cycle works with: the validator set that the contract
/// holds, the bridge id, and the voting power that signatures must carry.
#[derive(Clone, Debug, PartialEq, Eq)]
pub struct BatchRelay {
    pub current_valset: Valset,
    pub bridge_id: BridgeId,
    pub threshold: u64,
}

/// A cycle at work: the candidates it was given, and the one it has taken up.
/// A cycle takes up one batch and submits at most that one.
#[derive(Debug, PartialEq, Eq)]
pub struct BatchWork {
    pub relay: BatchRelay,
    pub candidates: Vec<BatchCandidate>,
    /// The place among `candidates` of the batch that is taken up.
    pub chosen: usize,
}

impl BatchWork {
    /// The batch that is taken up is one of the candidates.
    pub open spec fn well_formed(&self) -> bool {
        self.chosen < self.candidates@.len()
    }

    /// The candidate that is taken up.
    pub open spec fn current(&self) -> BatchCandidate {
        self.candidates@[self.chosen as int]
    }

    /// Whether the candidate that is taken up is sufficiently signed.
    pub open spec fn current_signed(&self) -> bool {
        candidate_signed(
            self.relay.bridge_id@,
            self.relay.current_valset.members@,
            self.current(),
            self.relay.threshold,
        )
    }

    /// The data of the call that submits the batch that is taken up.
    pub open spec fn current_payload(&self) -> Seq<u8> {
        batch_payload(
            self.relay.bridge_id@,
            self.relay.current_valset.nonce,
            self.relay.current_valset.members@,
            self.current().batch,
            self.current().confirmations->Ok_0@,
        )
    }

    /// Whether the batch that is taken up is one of the candidates.
    pub fn is_well_formed(&self) -> (ok: bool)
        ensures
            ok == self.well_formed(),
    {
        self.chosen < self.candidates.len()
    }
}

/// How a relaying cycle ended: how many batches it submitted, none or one,
/// and the error that cut it short, if one did.
#[derive(Clone, Debug, PartialEq, Eq)]
pub struct BatchRelayReport {
    pub submitted: usize,
    pub error: Option<BridgeError>,
}

/// Where a relaying cycle stands.
#[derive(Debug, PartialEq, Eq)]
pub enum BatchRelayState {
    /// Waits for the native chain's latest batches and their confirmations.
    AwaitingBatches { relay: BatchRelay },
    /// Waits for the nonce of the last batch that the contract executed for
    /// the token of the batch that is taken up.
    AwaitingBatchNonce { work: BatchWork },
    /// Waits for the gas estimate of the call.
    AwaitingCost { work: BatchWork, payload: Vec<u8> },
    /// Waits for the receipt of the transaction.
    AwaitingReceipt { work: BatchWork },
    /// The cycle is over.
    Finished,
}

/// What the driver hands back after it did what the relayer asked for.
#[derive(Debug, PartialEq, Eq)]
pub enum BatchRelayInput {
    /// The latest batches of the native chain, each with its confirmations.
    Batches(Result<Vec<BatchCandidate>, BridgeError>),
    /// The nonce of the last batch that the contract executed for the token.
    BatchNonce(Result<u64, BridgeError>),
    /// The estimated cost of the call.
    Cost(Result<GasCost, BridgeError>),
    /// The broadcast transaction was mined within the timeout, or it was not.
    Receipt(Result<(), BridgeError>),
}

/// What the relayer asks the driver to do next.
#[derive(Debug, PartialEq, Eq)]
pub enum BatchRelayAction {
    /// Fetch the latest batches from the native chain, and for each of them
    /// its confirmations.
    FetchBatches,
    /// Read the nonce of the last batch that the contract executed for the
    /// token.
    ReadBatchNonce { token_contract: EthAddress },
    /// Have a node estimate the cost of a call with this data to the bridge
    /// contract.
    EstimateCost { payload: Vec<u8> },
    /// Send a transaction with this data to the bridge contract and wait for
    /// its receipt.
    Broadcast { payload: Vec<u8> },
    /// End the cycle.
    Finish(BatchRelayReport),
}

impl BatchRelayState {
    /// The state is sound: where a batch is taken up, it is one of the
    /// candidates.
    pub open spec fn well_formed(&self) -> bool {
        match *self {
            BatchRelayState::AwaitingBatchNonce { work } => work.well_formed(),
            BatchRelayState::AwaitingCost { work, .. } => work.well_formed(),
            BatchRelayState::AwaitingReceipt { work } => work.well_formed(),
            _ => true,
        }
    }

    /// Whether the state is sound. A driver that is not verified tests this
    /// before it takes a step from a state that it did not get from a step.
    pub fn is_well_formed(&self) -> (ok: bool)
        ensures
            ok == self.well_formed(),
    {
        match self {
            BatchRelayState::AwaitingBatchNonce { work } => work.is_well_formed(),
            BatchRelayState::AwaitingCost { work, .. } => work.is_well_formed(),
            BatchRelayState::AwaitingReceipt { work } => work.is_well_formed(),
            _ => true,
        }
    }
}

/// The end of a cycle.
pub open spec fn is_finish(
    next: BatchRelayState,
    action: BatchRelayAction,
    submitted: usize,
    error: Option<BridgeError>,
) -> bool {
    next == BatchRelayState::Finished && action == BatchRelayAction::Finish(
        BatchRelayReport { submitted, error },
    )
}

/// The step that a cycle in `state` takes on `input`.
///
/// A cycle takes up one batch: the first of the selection. It submits that
/// batch or none. An input that does not answer what the state waits for
/// ends the cycle as cancelled.
pub open spec fn is_batch_relay_step(
    state: BatchRelayState,
    input: BatchRelayInput,
    next: BatchRelayState,
    action: BatchRelayAction,
) -> bool {
    match (state, input) {
        (BatchRelayState::AwaitingBatches { relay }, BatchRelayInput::Batches(answer)) => {
            match answer {
                Err(error) => is_finish(next, action, 0, Some(error)),
                Ok(candidates) => {
                    let chosen = batch_selection(
                        relay.bridge_id@,
                        relay.current_valset.members@,
                        candidates@,
                        relay.threshold,
                    );
                    if chosen.len() == 0 {
                        // no batch has enough signatures yet
                        is_finish(next, action, 0, None)
                    } else {
                        let work = BatchWork { relay, candidates, chosen: chosen[0] };
                        &&& next == BatchRelayState::AwaitingBatchNonce { work }
                        &&& action == BatchRelayAction::ReadBatchNonce {
                            token_contract: work.current().batch.token_contract,
                        }
                    }
                },
            }
        },
        (BatchRelayState::AwaitingBatchNonce { work }, BatchRelayInput::BatchNonce(answer)) => {
            match answer {
                Err(error) => is_finish(next, action, 0, Some(error)),
                Ok(executed) => {
                    if work.current().batch.nonce <= executed {
                        // the contract is past this batch: it is obsolete for good
                        is_finish(next, action, 0, None)
                    } else if !work.current_signed() {
                        is_finish(next, action, 0, Some(BridgeError::InsufficientSignatures))
                    } else {
                        match (next, action) {
                            (
                                BatchRelayState::AwaitingCost { work: kept, payload: held },
                                BatchRelayAction::EstimateCost { payload },
                            ) => {
                                &&& kept == work
                                &&& held@ == work.current_payload()
                                &&& payload@ == work.current_payload()
                                &&& has_call_length(payload@)
                            },
                            _ => false,
                        }
                    }
                },
            }
        },
        (BatchRelayState::AwaitingCost { work, payload }, BatchRelayInput::Cost(answer)) => {
            match answer {
                Err(error) => is_finish(next, action, 0, Some(error)),
                Ok(_) => {
                    &&& next == BatchRelayState::AwaitingReceipt { work }
                    &&& action == BatchRelayAction::Broadcast { payload }
                },
            }
        },
        (BatchRelayState::AwaitingReceipt { .. }, BatchRelayInput::Receipt(answer)) => {
            match answer {
                Err(error) => is_finish(next, action, 0, Some(error)),
                // one batch is submitted, and the cycle is over
                Ok(_) => is_finish(next, action, 1, None),
            }
        },
        _ => is_finish(next, action, 0, Some(BridgeError::Cancelled)),
    }
}

/// Starts a relaying cycle: the first thing to do is to fetch the batches.
pub fn start_relaying(relay: BatchRelay) -> (step: (BatchRelayState, BatchRelayAction))
    ensures
        step.0 == (BatchRelayState::AwaitingBatches { relay }),
        step.1 == BatchRelayAction::FetchBatches,
{
    (BatchRelayState::AwaitingBatches { relay }, BatchRelayAction::FetchBatches)
}

/// Ends a cycle.
fn finish(submitted: usize, error: Option<BridgeError>) -> (step: (
    BatchRelayState,
    BatchRelayAction,
))
    ensures
        is_finish(step.0, step.1, submitted, error),
{
    (BatchRelayState::Finished, BatchRelayAction::Finish(BatchRelayReport { submitted, error }))
}

/// Takes one step of a relaying cycle: from the state of the cycle and the
/// outcome of what it asked for last, to the next state and the next action.
/// The state it gives is sound again.
pub fn relay_batches(state: BatchRelayState, input: BatchRelayInput) -> (step: (
    BatchRelayState,
    BatchRelayAction,
))
    requires
        state.well_formed(),
    ensures
        is_batch_relay_step(state, input, step.0, step.1),
        step.0.well_formed(),
{
    match (state, input) {
        (BatchRelayState::AwaitingBatches { relay }, BatchRelayInput::Batches(answer)) => {
            match answer {
                Err(error) => finish(0, Some(error)),
                Ok(candidates) => {
                    let selected: Vec<usize> = select_batches(
                        &relay.current_valset,
                        &candidates,
                        &relay.bridge_id,
                        relay.threshold,
                    );
                    if selected.len() == 0 {
                        return finish(0, None);
                    }
                    let chosen: usize = selected[0];
                    proof {
                        let standings = candidate_standings(
                            relay.bridge_id@,
                            relay.current_valset.members@,
                            candidates@,
                            relay.threshold,
                        );
                        assert(is_oldest_of_token(standings, selected@[0] as int));
                    }
                    let token_contract: EthAddress = candidates[chosen].batch.token_contract;
                    let work = BatchWork { relay, candidates, chosen };
                    (
                        BatchRelayState::AwaitingBatchNonce { work },
                        BatchRelayAction::ReadBatchNonce { token_contract },
                    )
                },
            }
        },
        (BatchRelayState::AwaitingBatchNonce { work }, BatchRelayInput::BatchNonce(answer)) => {
            match answer {
                Err(error) => finish(0, Some(error)),
                Ok(executed) => {
                    if work.candidates[work.chosen].batch.nonce <= executed {
                        return finish(0, None);
                    }
                    let encoded: Result<Vec<u8>, BridgeError> = match &work.candidates[work.chosen].confirmations {
                        Ok(confirmations) => encode_batch_payload(
                            &work.relay.current_valset,
                            &work.candidates[work.chosen].batch,
                            confirmations,
                            &work.relay.bridge_id,
                            work.relay.threshold,
                        ),
                        Err(_) => Err(BridgeError::InsufficientSignatures),
                    };
                    match encoded {
                        Err(error) => finish(0, Some(error)),
                        Ok(payload) => {
                            let held: Vec<u8> = payload.clone();
                            assert(held@ =~= payload@);
                            (
                                BatchRelayState::AwaitingCost { work, payload: held },
                                BatchRelayAction::EstimateCost { payload },
                            )
                        },
                    }
                },
            }
        },
        (BatchRelayState::AwaitingCost { work, payload }, BatchRelayInput::Cost(answer)) => {
            match answer {
                Err(error) => finish(0, Some(error)),
                Ok(_) => (
                    BatchRelayState::AwaitingReceipt { work },
                    BatchRelayAction::Broadcast { payload },
                ),
            }
        },
        (BatchRelayState::AwaitingReceipt { .. }, BatchRelayInput::Receipt(answer)) => {
            match answer {
                Err(error) => finish(0, Some(error)),
                Ok(_) => finish(1, None),
            }
        },
        _ => finish(0, Some(BridgeError::Cancelled)),
    }
}

} // verus!
