//! The validator-set relayer: which signed validator set to bring to the
//! bridge contract, the call that brings it, and the steps of submitting it.

use vstd::prelude::*;
use vstd::string::StringSliceAdditionalSpecFns;
use crate::abi::{
    abi_items, address_words, call_data, encode_call, has_call_length, number_words, power_words,
    word_from_u64,
    words_of_addresses, words_of_numbers, words_of_powers, AbiItem, AbiValue,
};
use crate::error::BridgeError;
use crate::gas::{estimate_request, gas_limit, AccountStatus, TransactionRequest};
use crate::message_signatures::{valset_confirm_digest, valset_confirm_hash};
use crate::types::{BridgeId, Confirmation, EthAddress, EthSignature, Valset, ValsetMember};
use crate::uint256::word_of;
use crate::valset::{
    confirmed_power, confirmed_signatures, member_addresses, member_powers, r_values, s_values,
    v_values, SigArrays,
};

verus! {

/// The signature of the bridge contract's function that installs a new
/// validator set: the new set, the current set, and the current set's
/// signatures as three parallel arrays.
pub const UPDATE_VALSET_SIGNATURE: &'static str =
    "updateValset(address[],uint256[],uint256,address[],uint256[],uint256,uint8[],bytes32[],bytes32[])";

/// The signature of the bridge contract's getter for its valset nonce.
pub const VALSET_NONCE_SIGNATURE: &'static str = "state_lastValsetNonce()";

/// The data of the call that reads the bridge contract's valset nonce. The
/// answer is read with [`crate::abi::decode_nonce`].
pub fn valset_nonce_call() -> (data: Vec<u8>)
    ensures
        data@ == call_data(VALSET_NONCE_SIGNATURE.spec_bytes(), Seq::<AbiItem>::empty()),
        has_call_length(data@),
{
    let tokens: Vec<AbiValue> = Vec::new();
    assert(abi_items(tokens@) =~= Seq::<AbiItem>::empty());
    encode_call(VALSET_NONCE_SIGNATURE, &tokens)
}

/// The arguments of a call that installs a new validator set.
pub open spec fn update_valset_items(
    new_nonce: u64,
    new_members: Seq<ValsetMember>,
    old_nonce: u64,
    old_members: Seq<ValsetMember>,
    signatures: Seq<EthSignature>,
) -> Seq<AbiItem> {
    seq![
        AbiItem::Array(address_words(member_addresses(new_members))),
        AbiItem::Array(power_words(member_powers(new_members))),
        AbiItem::Word(word_of(new_nonce as nat)),
        AbiItem::Array(address_words(member_addresses(old_members))),
        AbiItem::Array(power_words(member_powers(old_members))),
        AbiItem::Word(word_of(old_nonce as nat)),
        AbiItem::Array(number_words(v_values(signatures))),
        AbiItem::Array(number_words(r_values(signatures))),
        AbiItem::Array(number_words(s_values(signatures))),
    ]
}

/// The data of the call that replaces the set `old` in the contract by the set
/// `new`. The signatures are those of the members of `old`, which is the set
/// that the contract knows, over the digest of `new`.
pub open spec fn valset_update_payload(
    bridge_id: Seq<u8>,
    new_nonce: u64,
    new_members: Seq<ValsetMember>,
    old_nonce: u64,
    old_members: Seq<ValsetMember>,
    confirmations: Seq<Confirmation>,
) -> Seq<u8> {
    call_data(
        UPDATE_VALSET_SIGNATURE.spec_bytes(),
        update_valset_items(
            new_nonce,
            new_members,
            old_nonce,
            old_members,
            confirmed_signatures(
                old_members,
                confirmations,
                valset_confirm_digest(bridge_id, new_nonce, new_members),
            ),
        ),
    )
}

/// Whether the members of `old` that confirmed the set `new` hold at least
/// `threshold` voting power.
pub open spec fn valset_update_signed(
    bridge_id: Seq<u8>,
    new_nonce: u64,
    new_members: Seq<ValsetMember>,
    old_members: Seq<ValsetMember>,
    confirmations: Seq<Confirmation>,
    threshold: u64,
) -> bool {
    confirmed_power(
        old_members,
        confirmations,
        valset_confirm_digest(bridge_id, new_nonce, new_members),
    ) >= threshold
}

/// Encodes the call that replaces `old_valset` in the bridge contract by
/// `new_valset`, or fails where the confirmations do not carry `threshold`
/// voting power of `old_valset`.
pub fn encode_valset_payload(
    new_valset: &Valset,
    old_valset: &Valset,
    confirmations: &Vec<Confirmation>,
    bridge_id: &BridgeId,
    threshold: u64,
) -> (result: Result<Vec<u8>, BridgeError>)
    ensures
        result is Ok <==> valset_update_signed(
            bridge_id@,
            new_valset.nonce,
            new_valset.members@,
            old_valset.members@,
            confirmations@,
            threshold,
        ),
        result is Ok ==> result->Ok_0@ == valset_update_payload(
            bridge_id@,
            new_valset.nonce,
            new_valset.members@,
            old_valset.nonce,
            old_valset.members@,
            confirmations@,
        ),
        result is Ok ==> has_call_length(result->Ok_0@),
        result is Err ==> result == Err::<Vec<u8>, BridgeError>(BridgeError::InsufficientSignatures),
{
    let (old_addresses, old_powers) = old_valset.filter_empty_addresses();
    let (new_addresses, new_powers) = new_valset.filter_empty_addresses();
    // the signatures are over the new set, and they are lined up with the old
    // set, whose members the contract checks them against
    let digest: [u8; 32] = valset_confirm_hash(bridge_id, new_valset);
    let arrays: SigArrays = match old_valset.order_sigs(&digest, confirmations, threshold) {
        Ok(arrays) => arrays,
        Err(error) => { return Err(error); },
    };
    let ghost signatures = confirmed_signatures(old_valset.members@, confirmations@, digest@);
    proof {
        arrays.lemma_values();
    }
    let mut tokens: Vec<AbiValue> = Vec::new();
    tokens.push(AbiValue::Array(words_of_addresses(&new_addresses)));
    tokens.push(AbiValue::Array(words_of_powers(&new_powers)));
    tokens.push(AbiValue::Word(word_from_u64(new_valset.nonce)));
    tokens.push(AbiValue::Array(words_of_addresses(&old_addresses)));
    tokens.push(AbiValue::Array(words_of_powers(&old_powers)));
    tokens.push(AbiValue::Word(word_from_u64(old_valset.nonce)));
    tokens.push(AbiValue::Array(words_of_numbers(&arrays.v)));
    tokens.push(AbiValue::Array(words_of_numbers(&arrays.r)));
    tokens.push(AbiValue::Array(words_of_numbers(&arrays.s)));
    assert(abi_items(tokens@) =~= update_valset_items(
        new_valset.nonce,
        new_valset.members@,
        old_valset.nonce,
        old_valset.members@,
        signatures,
    ));
    Ok(encode_call(UPDATE_VALSET_SIGNATURE, &tokens))
}

/// The request for a gas estimate of the call that replaces `old_valset` by
/// `new_valset` in the bridge contract at `contract`, paid by `sender`.
pub fn estimate_valset_cost(
    new_valset: &Valset,
    old_valset: &Valset,
    confirmations: &Vec<Confirmation>,
    account: &AccountStatus,
    sender: EthAddress,
    contract: EthAddress,
    bridge_id: &BridgeId,
    threshold: u64,
) -> (result: Result<TransactionRequest, BridgeError>)
    ensures
        result is Ok <==> valset_update_signed(
            bridge_id@,
            new_valset.nonce,
            new_valset.members@,
            old_valset.members@,
            confirmations@,
            threshold,
        ),
        result is Ok ==> ({
            let request = result->Ok_0;
            &&& request.from == sender
            &&& request.to == contract
            &&& request.nonce == account.nonce
            &&& request.gas_price == account.gas_price
            &&& request.gas@ == gas_limit(account.balance)
            &&& request.value@ == 0
            &&& request.data@ == valset_update_payload(
                bridge_id@,
                new_valset.nonce,
                new_valset.members@,
                old_valset.nonce,
                old_valset.members@,
                confirmations@,
            )
            &&& has_call_length(request.data@)
        }),
        result is Err ==> result == Err::<TransactionRequest, BridgeError>(
            BridgeError::InsufficientSignatures,
        ),
{
    match encode_valset_payload(new_valset, old_valset, confirmations, bridge_id, threshold) {
        Ok(payload) => Ok(estimate_request(sender, contract, account, payload)),
        Err(error) => Err(error),
    }
}

/// A validator set that the native chain has rotated to, with the
/// confirmations of it that were fetched.
#[derive(Clone, Debug, PartialEq, Eq)]
pub struct ValsetCandidate {
    pub valset: Valset,
    pub confirmations: Vec<Confirmation>,
}

/// Where a candidate stands: its nonce, and whether it is sufficiently
/// signed.
#[derive(Clone, Copy, Debug, PartialEq, Eq, Structural)]
pub struct ValsetStanding {
    pub nonce: u64,
    pub signed: bool,
}

/// Whether entry `i` can be relayed: it is sufficiently signed, and its nonce
/// is above `floor`, the nonce that the contract has reached.
pub open spec fn is_eligible(standings: Seq<ValsetStanding>, floor: u64, i: int) -> bool {
    0 <= i < standings.len() && standings[i].signed && standings[i].nonce > floor
}

/// Whether entry `i` is the newest that can be relayed: none that can be
/// relayed has a higher nonce, and of those with its nonce it is the first.
pub open spec fn is_newest_eligible(standings: Seq<ValsetStanding>, floor: u64, i: int) -> bool {
    &&& is_eligible(standings, floor, i)
    &&& forall|j: int| #[trigger]
        is_eligible(standings, floor, j) ==> standings[j].nonce < standings[i].nonce || (
        standings[j].nonce == standings[i].nonce && i <= j)
}

/// Picks the entry with the highest nonce among those that are sufficiently
/// signed and above `floor`. Waiting for more signatures on an older one
/// would be pointless.
pub fn newest_submittable(standings: &Vec<ValsetStanding>, floor: u64) -> (found: Option<usize>)
    ensures
        found is Some ==> is_newest_eligible(standings@, floor, found->0 as int),
        found is None ==> forall|j: int| !is_eligible(standings@, floor, j),
{
    let mut found: Option<usize> = None;
    let mut i: usize = 0;
    while i < standings.len()
        invariant
            i <= standings@.len(),
            found is Some ==> found->0 < i && is_eligible(standings@, floor, found->0 as int),
            found is Some ==> forall|j: int|
                0 <= j < i && #[trigger] is_eligible(standings@, floor, j) ==> standings@[j].nonce
                    < standings@[found->0 as int].nonce || (standings@[j].nonce
                    == standings@[found->0 as int].nonce && found->0 <= j),
            found is None ==> forall|j: int|
                0 <= j < i ==> !#[trigger] is_eligible(standings@, floor, j),
        decreases standings@.len() - i,
    {
        if standings[i].signed && standings[i].nonce > floor {
            let better: bool = match found {
                Some(best) => standings[i].nonce > standings[best].nonce,
                None => true,
            };
            if better {
                found = Some(i);
            }
        }
        i = i + 1;
    }
    found
}

/// Where each candidate stands: its nonce, and whether the members of the
/// current set that confirmed it hold at least `threshold` voting power.
pub open spec fn candidate_standings(
    current_members: Seq<ValsetMember>,
    candidates: Seq<ValsetCandidate>,
    bridge_id: Seq<u8>,
    threshold: u64,
) -> Seq<ValsetStanding> {
    Seq::new(
        candidates.len(),
        |i: int|
            ValsetStanding {
                nonce: candidates[i].valset.nonce,
                signed: valset_update_signed(
                    bridge_id,
                    candidates[i].valset.nonce,
                    candidates[i].valset.members@,
                    current_members,
                    candidates[i].confirmations@,
                    threshold,
                ),
            },
    )
}

/// Picks the validator set to relay: of the candidates above the nonce of
/// `current`, the set that the contract holds, the newest one that enough of
/// the members of `current` have confirmed.
pub fn find_latest_valset(
    current: &Valset,
    candidates: &Vec<ValsetCandidate>,
    bridge_id: &BridgeId,
    threshold: u64,
) -> (found: Option<usize>)
    ensures
        found is Some ==> is_newest_eligible(
            candidate_standings(current.members@, candidates@, bridge_id@, threshold),
            current.nonce,
            found->0 as int,
        ),
        found is None ==> forall|j: int|
            !is_eligible(
                candidate_standings(current.members@, candidates@, bridge_id@, threshold),
                current.nonce,
                j,
            ),
{
    let mut standings: Vec<ValsetStanding> = Vec::new();
    let mut i: usize = 0;
    let ghost all = candidate_standings(current.members@, candidates@, bridge_id@, threshold);
    while i < candidates.len()
        invariant
            i <= candidates@.len(),
            all == candidate_standings(current.members@, candidates@, bridge_id@, threshold),
            standings@ == all.take(i as int),
        decreases candidates@.len() - i,
    {
        let candidate: &ValsetCandidate = &candidates[i];
        let digest: [u8; 32] = valset_confirm_hash(bridge_id, &candidate.valset);
        let signed: bool = match current.order_sigs(&digest, &candidate.confirmations, threshold) {
            Ok(_) => true,
            Err(_) => false,
        };
        standings.push(ValsetStanding { nonce: candidate.valset.nonce, signed });
        assert(standings@ =~= all.take(i + 1));
        i = i + 1;
    }
    assert(standings@ =~= all);
    newest_submittable(&standings, current.nonce)
}

/// What there is to submit: the set `new_valset` is to replace `old_valset`,
/// the set that the contract holds, on the strength of `confirmations`.
#[derive(Clone, Debug, PartialEq, Eq)]
pub struct ValsetUpdate {
    pub new_valset: Valset,
    pub old_valset: Valset,
    pub confirmations: Vec<Confirmation>,
    pub bridge_id: BridgeId,
    pub threshold: u64,
}

impl ValsetUpdate {
    /// The new set is newer than the old one.
    pub open spec fn well_formed(&self) -> bool {
        self.new_valset.nonce > self.old_valset.nonce
    }

    /// Whether the new set is newer than the old one.
    pub fn is_well_formed(&self) -> (ok: bool)
        ensures
            ok == self.well_formed(),
    {
        self.new_valset.nonce > self.old_valset.nonce
    }

    /// Whether enough members of the old set have confirmed the new one.
    pub open spec fn signed(&self) -> bool {
        valset_update_signed(
            self.bridge_id@,
            self.new_valset.nonce,
            self.new_valset.members@,
            self.old_valset.members@,
            self.confirmations@,
            self.threshold,
        )
    }

    /// The data of the call that submits the update.
    pub open spec fn payload(&self) -> Seq<u8> {
        valset_update_payload(
            self.bridge_id@,
            self.new_valset.nonce,
            self.new_valset.members@,
            self.old_valset.nonce,
            self.old_valset.members@,
            self.confirmations@,
        )
    }
}

/// Picks what to submit: the newest candidate above `current`, the set that
/// the contract holds, that enough members of `current` have confirmed; or
/// nothing, where no candidate is that far yet.
pub fn choose_valset_update(
    current: Valset,
    candidates: Vec<ValsetCandidate>,
    bridge_id: BridgeId,
    threshold: u64,
) -> (chosen: Option<ValsetUpdate>)
    ensures
        chosen is None <==> forall|j: int|
            !is_eligible(
                candidate_standings(current.members@, candidates@, bridge_id@, threshold),
                current.nonce,
                j,
            ),
        chosen is Some ==> exists|i: int|
            {
                &&& #[trigger] is_newest_eligible(
                    candidate_standings(current.members@, candidates@, bridge_id@, threshold),
                    current.nonce,
                    i,
                )
                &&& chosen->0 == ValsetUpdate {
                    new_valset: candidates@[i].valset,
                    old_valset: current,
                    confirmations: candidates@[i].confirmations,
                    bridge_id,
                    threshold,
                }
            },
        chosen is Some ==> chosen->0.well_formed(),
{
    match find_latest_valset(&current, &candidates, &bridge_id, threshold) {
        None => None,
        Some(found) => {
            let mut rest: Vec<ValsetCandidate> = candidates;
            let candidate: ValsetCandidate = rest.remove(found);
            let update = ValsetUpdate {
                new_valset: candidate.valset,
                old_valset: current,
                confirmations: candidate.confirmations,
                bridge_id,
                threshold,
            };
            assert(is_newest_eligible(
                candidate_standings(current.members@, candidates@, bridge_id@, threshold),
                current.nonce,
                found as int,
            ));
            Some(update)
        },
    }
}

/// Where the submission of a validator set stands.
#[derive(Clone, Debug, PartialEq, Eq)]
pub enum ValsetUpdateState {
    /// Waits for the contract's valset nonce, read right before the
    /// broadcast.
    AwaitingPreflight { update: ValsetUpdate },
    /// Waits for the receipt of the transaction.
    AwaitingReceipt { new_nonce: u64 },
    /// Waits for the contract's valset nonce after the transaction.
    AwaitingFinalNonce { new_nonce: u64 },
    /// The submission is over.
    Finished,
}

/// What the driver hands back after it did what the relayer asked for.
#[derive(Debug, PartialEq, Eq)]
pub enum ValsetUpdateInput {
    /// The valset nonce that the bridge contract holds.
    ValsetNonce(Result<u64, BridgeError>),
    /// The broadcast transaction was mined within the timeout, or it was not.
    Receipt(Result<(), BridgeError>),
}

/// How a submission without error ended.
#[derive(Clone, Copy, Debug, PartialEq, Eq)]
pub enum ValsetUpdateOutcome {
    /// The contract had moved on before the broadcast: another relayer was
    /// faster, and nothing was sent.
    Stale { found: u64 },
    /// The contract holds the new set.
    Updated,
    /// The transaction was mined, but the contract holds another nonce than
    /// the new set's: another relayer's update got in between. The next
    /// cycle starts from what the contract then holds.
    Overtaken { found: u64 },
}

/// What the relayer asks the driver to do next.
#[derive(Debug, PartialEq, Eq)]
pub enum ValsetUpdateAction {
    /// Read the bridge contract's valset nonce.
    ReadValsetNonce,
    /// Send a transaction with this data to the bridge contract and wait for
    /// its receipt.
    Broadcast { payload: Vec<u8> },
    /// End the submission.
    Finish(Result<ValsetUpdateOutcome, BridgeError>),
}

/// The step that a submission in `state` takes on `input`. An input that does
/// not answer what the state waits for ends the submission as cancelled.
pub open spec fn is_valset_update_step(
    state: ValsetUpdateState,
    input: ValsetUpdateInput,
    next: ValsetUpdateState,
    action: ValsetUpdateAction,
) -> bool {
    match (state, input) {
        (
            ValsetUpdateState::AwaitingPreflight { update },
            ValsetUpdateInput::ValsetNonce(answer),
        ) => {
            match answer {
                Err(error) => next == ValsetUpdateState::Finished && action
                    == ValsetUpdateAction::Finish(Err(error)),
                Ok(found) => if found != update.old_valset.nonce {
                    // someone else has updated the contract: this attempt is stale
                    next == ValsetUpdateState::Finished && action == ValsetUpdateAction::Finish(
                        Ok(ValsetUpdateOutcome::Stale { found }),
                    )
                } else if !update.signed() {
                    next == ValsetUpdateState::Finished && action == ValsetUpdateAction::Finish(
                        Err(BridgeError::InsufficientSignatures),
                    )
                } else {
                    &&& next == ValsetUpdateState::AwaitingReceipt {
                        new_nonce: update.new_valset.nonce,
                    }
                    &&& match action {
                        ValsetUpdateAction::Broadcast { payload } => payload@ == update.payload()
                            && has_call_length(payload@),
                        _ => false,
                    }
                },
            }
        },
        (ValsetUpdateState::AwaitingReceipt { new_nonce }, ValsetUpdateInput::Receipt(answer)) => {
            match answer {
                Err(error) => next == ValsetUpdateState::Finished && action
                    == ValsetUpdateAction::Finish(Err(error)),
                Ok(_) => next == ValsetUpdateState::AwaitingFinalNonce { new_nonce } && action
                    == ValsetUpdateAction::ReadValsetNonce,
            }
        },
        (
            ValsetUpdateState::AwaitingFinalNonce { new_nonce },
            ValsetUpdateInput::ValsetNonce(answer),
        ) => {
            &&& next == ValsetUpdateState::Finished
            &&& match answer {
                Err(error) => action == ValsetUpdateAction::Finish(Err(error)),
                Ok(found) => if found == new_nonce {
                    action == ValsetUpdateAction::Finish(Ok(ValsetUpdateOutcome::Updated))
                } else {
                    // not a failure: whoever got in first is dealt with next cycle
                    action == ValsetUpdateAction::Finish(
                        Ok(ValsetUpdateOutcome::Overtaken { found }),
                    )
                },
            }
        },
        _ => next == ValsetUpdateState::Finished && action == ValsetUpdateAction::Finish(
            Err(BridgeError::Cancelled),
        ),
    }
}

impl ValsetUpdateState {
    /// The state is sound: an update that waits for its preflight replaces a
    /// set by a newer one.
    pub open spec fn well_formed(&self) -> bool {
        match *self {
            ValsetUpdateState::AwaitingPreflight { update } => update.well_formed(),
            _ => true,
        }
    }

    /// Whether the state is sound. A driver that is not verified tests this
    /// before it takes a step from a state that it did not get from a step.
    pub fn is_well_formed(&self) -> (ok: bool)
        ensures
            ok == self.well_formed(),
    {
        match self {
            ValsetUpdateState::AwaitingPreflight { update } => update.is_well_formed(),
            _ => true,
        }
    }
}

/// Starts the submission of `update`, which must replace a set by a newer
/// one: the first thing to do is to read the contract's valset nonce once
/// more.
pub fn start_valset_update(update: ValsetUpdate) -> (step: (ValsetUpdateState, ValsetUpdateAction))
    requires
        update.well_formed(),
    ensures
        step.0 == (ValsetUpdateState::AwaitingPreflight { update }),
        step.1 == ValsetUpdateAction::ReadValsetNonce,
        step.0.well_formed(),
{
    (ValsetUpdateState::AwaitingPreflight { update }, ValsetUpdateAction::ReadValsetNonce)
}

/// Takes one step of the submission of a validator set: from the state of
/// the submission and the outcome of what it asked for last, to the next
/// state and the next action.
pub fn send_eth_valset_update(state: ValsetUpdateState, input: ValsetUpdateInput) -> (step: (
    ValsetUpdateState,
    ValsetUpdateAction,
))
    requires
        state.well_formed(),
    ensures
        is_valset_update_step(state, input, step.0, step.1),
        step.0.well_formed(),
{
    match (state, input) {
        (
            ValsetUpdateState::AwaitingPreflight { update },
            ValsetUpdateInput::ValsetNonce(answer),
        ) => {
            match answer {
                Err(error) => (ValsetUpdateState::Finished, ValsetUpdateAction::Finish(Err(error))),
                Ok(found) => {
                    if found != update.old_valset.nonce {
                        return (
                            ValsetUpdateState::Finished,
                            ValsetUpdateAction::Finish(Ok(ValsetUpdateOutcome::Stale { found })),
                        );
                    }
                    let encoded = encode_valset_payload(
                        &update.new_valset,
                        &update.old_valset,
                        &update.confirmations,
                        &update.bridge_id,
                        update.threshold,
                    );
                    match encoded {
                        Err(error) => (
                            ValsetUpdateState::Finished,
                            ValsetUpdateAction::Finish(Err(error)),
                        ),
                        Ok(payload) => (
                            ValsetUpdateState::AwaitingReceipt {
                                new_nonce: update.new_valset.nonce,
                            },
                            ValsetUpdateAction::Broadcast { payload },
                        ),
                    }
                },
            }
        },
        (ValsetUpdateState::AwaitingReceipt { new_nonce }, ValsetUpdateInput::Receipt(answer)) => {
            match answer {
                Err(error) => (ValsetUpdateState::Finished, ValsetUpdateAction::Finish(Err(error))),
                Ok(_) => (
                    ValsetUpdateState::AwaitingFinalNonce { new_nonce },
                    ValsetUpdateAction::ReadValsetNonce,
                ),
            }
        },
        (
            ValsetUpdateState::AwaitingFinalNonce { new_nonce },
            ValsetUpdateInput::ValsetNonce(answer),
        ) => {
            match answer {
                Err(error) => (ValsetUpdateState::Finished, ValsetUpdateAction::Finish(Err(error))),
                Ok(found) => if found == new_nonce {
                    (
                        ValsetUpdateState::Finished,
                        ValsetUpdateAction::Finish(Ok(ValsetUpdateOutcome::Updated)),
                    )
                } else {
                    (
                        ValsetUpdateState::Finished,
                        ValsetUpdateAction::Finish(Ok(ValsetUpdateOutcome::Overtaken { found })),
                    )
                },
            }
        },
        _ => (ValsetUpdateState::Finished, ValsetUpdateAction::Finish(Err(BridgeError::Cancelled))),
    }
}

/// A stale relay is given up without a broadcast: where the contract's valset
/// nonce, read right before the broadcast, is no longer that of the old set
/// (for one, because it is that of the new set already), the submission ends
/// at once, as a success, and asks for no transaction.
pub proof fn lemma_stale_relay_aborts(
    update: ValsetUpdate,
    found: u64,
    next: ValsetUpdateState,
    action: ValsetUpdateAction,
)
    requires
        update.well_formed(),
        found != update.old_valset.nonce,
        is_valset_update_step(
            ValsetUpdateState::AwaitingPreflight { update },
            ValsetUpdateInput::ValsetNonce(Ok(found)),
            next,
            action,
        ),
    ensures
        next == ValsetUpdateState::Finished,
        action == ValsetUpdateAction::Finish(Ok(ValsetUpdateOutcome::Stale { found })),
        !(action is Broadcast),
{
}

} // verus!
