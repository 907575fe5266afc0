//! The EVM event watcher. One cycle scans the bridge contract's logs up to a
//! block that is old enough to be final, picks the events that the native
//! chain has not applied yet, and has them submitted as one claims
//! transaction. The decisions of a cycle are made here; reading the chains
//! and sending the transaction is the driver's part.

use vstd::prelude::*;
use crate::error::BridgeError;
use crate::events::{filter_by_event_nonce, is_choice_from, no_ties_from, nonce_of, EthereumEvent};
use crate::logs::{are_claims_of, decode_logs, is_log_of, EventKind, Log};
use crate::uint256::U256;

verus! {

/// The number of confirmations that the watcher keeps between the chain head
/// and the last block it scans, by network id.
///
/// Proof-of-work networks can reorganise their last blocks, so events are
/// claimed only once six blocks lie on top of them. Networks with finality and
/// test networks need no such buffer. An unknown network is treated as
/// proof-of-work, the safe choice.
pub open spec fn block_delay(net_version: u64) -> u64 {
    if net_version == 1 || net_version == 3 || net_version == 7 {
        6
    } else if net_version == 4 || net_version == 5 || net_version == 6 || net_version == 15
        || net_version == 2018 {
        0
    } else {
        6
    }
}

/// The block delay for the network that the EVM node reports.
pub fn get_block_delay(net_version: u64) -> (delay: u64)
    ensures
        delay == block_delay(net_version),
{
    match net_version {
        // Mainnet, Ropsten and Ethereum Classic: proof of work
        1 | 3 | 7 => 6,
        // Rinkeby, Goerli, Kotti, the development chain and the private test network
        4 | 5 | 6 | 15 | 2018 => 0,
        // unknown: assume proof of work
        _ => 6,
    }
}

/// What the five log queries of one scan gave: for each kind of event, the
/// logs, or why the query failed.
#[derive(Debug, PartialEq, Eq)]
pub struct ScannedLogs {
    pub deposits: Result<Vec<Log>, BridgeError>,
    pub batches: Result<Vec<Log>, BridgeError>,
    pub valsets: Result<Vec<Log>, BridgeError>,
    pub erc20_deploys: Result<Vec<Log>, BridgeError>,
    pub logic_calls: Result<Vec<Log>, BridgeError>,
}

/// Whether every log of the list is a log of the given kind.
pub open spec fn are_logs_of(kind: EventKind, logs: Seq<Log>) -> bool {
    forall|i: int| 0 <= i < logs.len() ==> is_log_of(kind, #[trigger] logs[i])
}

impl ScannedLogs {
    /// The first query that failed, in the order of the fields.
    pub open spec fn first_error(&self) -> Option<BridgeError> {
        if self.deposits is Err {
            Some(self.deposits->Err_0)
        } else if self.batches is Err {
            Some(self.batches->Err_0)
        } else if self.valsets is Err {
            Some(self.valsets->Err_0)
        } else if self.erc20_deploys is Err {
            Some(self.erc20_deploys->Err_0)
        } else if self.logic_calls is Err {
            Some(self.logic_calls->Err_0)
        } else {
            None
        }
    }

    /// Whether every log of a scan without failure is a log of its kind.
    pub open spec fn decodable(&self) -> bool {
        &&& are_logs_of(EventKind::SendToCosmos, self.deposits->Ok_0@)
        &&& are_logs_of(EventKind::TransactionBatchExecuted, self.batches->Ok_0@)
        &&& are_logs_of(EventKind::ValsetUpdated, self.valsets->Ok_0@)
        &&& are_logs_of(EventKind::Erc20Deployed, self.erc20_deploys->Ok_0@)
        &&& are_logs_of(EventKind::LogicCall, self.logic_calls->Ok_0@)
    }

    /// Whether `events` are the events to claim for a scan without failure:
    /// those of the deposits, of the executed batches, of the deployed tokens
    /// and of the logic calls, in this order. The logs of new validator sets
    /// name no event nonce and make no claims.
    pub open spec fn are_claims(&self, events: Seq<EthereumEvent>) -> bool {
        let deposits = self.deposits->Ok_0@.len() as int;
        let batches = self.batches->Ok_0@.len() as int;
        let erc20_deploys = self.erc20_deploys->Ok_0@.len() as int;
        let logic_calls = self.logic_calls->Ok_0@.len() as int;
        &&& events.len() == deposits + batches + erc20_deploys + logic_calls
        &&& are_claims_of(
            EventKind::SendToCosmos,
            self.deposits->Ok_0@,
            events.subrange(0, deposits),
        )
        &&& are_claims_of(
            EventKind::TransactionBatchExecuted,
            self.batches->Ok_0@,
            events.subrange(deposits, deposits + batches),
        )
        &&& are_claims_of(
            EventKind::Erc20Deployed,
            self.erc20_deploys->Ok_0@,
            events.subrange(deposits + batches, deposits + batches + erc20_deploys),
        )
        &&& are_claims_of(
            EventKind::LogicCall,
            self.logic_calls->Ok_0@,
            events.subrange(deposits + batches + erc20_deploys, events.len() as int),
        )
    }
}

/// Decodes the logs of a scan: gives the first failure of a query, if there
/// is one, else the events to claim, all kinds in one list, unless a log is
/// undecodable.
pub fn decode_scan(scan: ScannedLogs) -> (result: Result<Vec<EthereumEvent>, BridgeError>)
    ensures
        match scan.first_error() {
            Some(error) => result == Err::<Vec<EthereumEvent>, BridgeError>(error),
            None => if scan.decodable() {
                result is Ok && scan.are_claims(result->Ok_0@)
            } else {
                result == Err::<Vec<EthereumEvent>, BridgeError>(BridgeError::Decode)
            },
        },
{
    let deposits: Vec<Log> = match scan.deposits {
        Ok(logs) => logs,
        Err(error) => { return Err(error); },
    };
    let batches: Vec<Log> = match scan.batches {
        Ok(logs) => logs,
        Err(error) => { return Err(error); },
    };
    let valsets: Vec<Log> = match scan.valsets {
        Ok(logs) => logs,
        Err(error) => { return Err(error); },
    };
    let erc20_deploys: Vec<Log> = match scan.erc20_deploys {
        Ok(logs) => logs,
        Err(error) => { return Err(error); },
    };
    let logic_calls: Vec<Log> = match scan.logic_calls {
        Ok(logs) => logs,
        Err(error) => { return Err(error); },
    };
    let mut all: Vec<EthereumEvent> = match decode_logs(EventKind::SendToCosmos, &deposits) {
        Ok(events) => events,
        Err(error) => { return Err(error); },
    };
    let mut of_batches: Vec<EthereumEvent> = match decode_logs(
        EventKind::TransactionBatchExecuted,
        &batches,
    ) {
        Ok(events) => events,
        Err(error) => { return Err(error); },
    };
    match decode_logs(EventKind::ValsetUpdated, &valsets) {
        Ok(_) => {},
        Err(error) => { return Err(error); },
    }
    let mut of_erc20_deploys: Vec<EthereumEvent> = match decode_logs(
        EventKind::Erc20Deployed,
        &erc20_deploys,
    ) {
        Ok(events) => events,
        Err(error) => { return Err(error); },
    };
    let mut of_logic_calls: Vec<EthereumEvent> = match decode_logs(
        EventKind::LogicCall,
        &logic_calls,
    ) {
        Ok(events) => events,
        Err(error) => { return Err(error); },
    };
    let ghost a = all@;
    let ghost b = of_batches@;
    let ghost c = of_erc20_deploys@;
    let ghost d = of_logic_calls@;
    all.append(&mut of_batches);
    all.append(&mut of_erc20_deploys);
    all.append(&mut of_logic_calls);
    proof {
        let (na, nb, nc) = (a.len() as int, b.len() as int, c.len() as int);
        assert(all@ == a + b + c + d);
        assert(all@.subrange(0, na) =~= a);
        assert(all@.subrange(na, na + nb) =~= b);
        assert(all@.subrange(na + nb, na + nb + nc) =~= c);
        assert(all@.subrange(na + nb + nc, all@.len() as int) =~= d);
    }
    Ok(all)
}

/// Where a cycle of the watcher stands: what it has asked for and waits on.
#[derive(Clone, Debug, PartialEq, Eq)]
pub enum WatcherState {
    /// Waits for the EVM chain's head and network id.
    AwaitingHead { starting_block: U256 },
    /// Waits for the events logged up to block `latest`.
    AwaitingLogs { latest: U256 },
    /// Waits for the event nonce that the native chain has applied last.
    AwaitingLastNonce { latest: U256, events: Vec<EthereumEvent> },
    /// Waits for the claims transaction to be sent.
    AwaitingSubmission { latest: U256, last_event_nonce: u64 },
    /// Waits for the event nonce after the claims transaction.
    AwaitingNewNonce { latest: U256, last_event_nonce: u64, tx_hash: String },
    /// The cycle is over.
    Finished,
}

/// What the driver hands back after it did what the watcher asked for.
#[derive(Debug, PartialEq, Eq)]
pub enum WatcherInput {
    /// The EVM chain's latest block and network id. The driver repeats both
    /// reads until they succeed.
    Head { latest_block: U256, net_version: u64 },
    /// The outcome of the five log queries.
    Logs(ScannedLogs),
    /// The last event nonce that the native chain has applied for this
    /// orchestrator's validator.
    LastEventNonce(Result<u64, BridgeError>),
    /// The hash of the claims transaction that was sent.
    Submitted(Result<String, BridgeError>),
}

/// What the watcher asks the driver to do next.
#[derive(Debug, PartialEq, Eq)]
pub enum WatcherAction {
    /// Read the EVM chain's latest block and network id.
    ReadHead,
    /// Query the bridge contract's logs of all five kinds in the blocks from
    /// `from_block` to `to_block`, both included.
    QueryLogs { from_block: U256, to_block: U256 },
    /// Read the last event nonce from the native chain.
    ReadLastEventNonce,
    /// Send one transaction with these claims, in this order.
    SubmitClaims { claims: Vec<EthereumEvent> },
    /// End the cycle: with the block to start the next scan from, or with the
    /// error, in which case the next scan starts where this one did.
    Finish(Result<U256, BridgeError>),
}

/// What a step asks of its input: a chain head that a cycle waits for is at
/// least as high as the block delay, so that there is a block to scan up to.
pub open spec fn watcher_expects(state: WatcherState, input: WatcherInput) -> bool {
    match (state, input) {
        (WatcherState::AwaitingHead { .. }, WatcherInput::Head { latest_block, net_version }) => {
            latest_block@ >= block_delay(net_version)
        },
        _ => true,
    }
}

/// Whether some event of the list has an event nonce above `last_event_nonce`.
pub open spec fn has_news(events: Seq<EthereumEvent>, last_event_nonce: u64) -> bool {
    exists|i: int| 0 <= i < events.len() && nonce_of(#[trigger] events[i]) > last_event_nonce
}

/// The step that a cycle in `state` takes on `input`: the state it moves to
/// and the action it asks for. An input that does not answer what the state
/// waits for ends the cycle as cancelled.
pub open spec fn is_watcher_step(
    state: WatcherState,
    input: WatcherInput,
    next: WatcherState,
    action: WatcherAction,
) -> bool {
    match (state, input) {
        (
            WatcherState::AwaitingHead { starting_block },
            WatcherInput::Head { latest_block, net_version },
        ) => {
            // the scan stops short of the head by the block delay
            match (next, action) {
                (
                    WatcherState::AwaitingLogs { latest },
                    WatcherAction::QueryLogs { from_block, to_block },
                ) => {
                    &&& latest@ == latest_block@ - block_delay(net_version)
                    &&& from_block == starting_block
                    &&& to_block == latest
                },
                _ => false,
            }
        },
        (WatcherState::AwaitingLogs { latest }, WatcherInput::Logs(scan)) => {
            match scan.first_error() {
                // a failed query ends the cycle, and so does an undecodable log
                Some(error) => next == WatcherState::Finished && action == WatcherAction::Finish(
                    Err(error),
                ),
                None => if !scan.decodable() {
                    next == WatcherState::Finished && action == WatcherAction::Finish(
                        Err(BridgeError::Decode),
                    )
                } else {
                    match next {
                        WatcherState::AwaitingLastNonce { latest: kept, events } => {
                            &&& kept == latest
                            &&& scan.are_claims(events@)
                            &&& action == WatcherAction::ReadLastEventNonce
                        },
                        _ => false,
                    }
                },
            }
        },
        (
            WatcherState::AwaitingLastNonce { latest, events },
            WatcherInput::LastEventNonce(answer),
        ) => {
            match answer {
                Err(error) => next == WatcherState::Finished && action == WatcherAction::Finish(
                    Err(error),
                ),
                Ok(last_event_nonce) => {
                    if !has_news(events@, last_event_nonce) {
                        // nothing to claim: the scan is done
                        next == WatcherState::Finished && action == WatcherAction::Finish(
                            Ok(latest),
                        )
                    } else if !no_ties_from((last_event_nonce + 1) as u64, events@) {
                        next == WatcherState::Finished && action == WatcherAction::Finish(
                            Err(BridgeError::Decode),
                        )
                    } else {
                        &&& next == WatcherState::AwaitingSubmission { latest, last_event_nonce }
                        &&& match action {
                            WatcherAction::SubmitClaims { claims } => is_choice_from(
                                (last_event_nonce + 1) as u64,
                                events@,
                                claims@,
                            ),
                            _ => false,
                        }
                    }
                },
            }
        },
        (
            WatcherState::AwaitingSubmission { latest, last_event_nonce },
            WatcherInput::Submitted(answer),
        ) => {
            match answer {
                Err(error) => next == WatcherState::Finished && action == WatcherAction::Finish(
                    Err(error),
                ),
                Ok(tx_hash) => {
                    &&& next == WatcherState::AwaitingNewNonce { latest, last_event_nonce, tx_hash }
                    &&& action == WatcherAction::ReadLastEventNonce
                },
            }
        },
        (
            WatcherState::AwaitingNewNonce { latest, last_event_nonce, tx_hash },
            WatcherInput::LastEventNonce(answer),
        ) => {
            &&& next == WatcherState::Finished
            &&& match answer {
                Err(error) => action == WatcherAction::Finish(Err(error)),
                Ok(new_event_nonce) => if new_event_nonce > last_event_nonce {
                    action == WatcherAction::Finish(Ok(latest))
                } else {
                    // the transaction went through, yet nothing was applied
                    action == WatcherAction::Finish(
                        Err(BridgeError::InvalidBridgeState { tx_hash, last_event_nonce }),
                    )
                },
            }
        },
        _ => next == WatcherState::Finished && action == WatcherAction::Finish(
            Err(BridgeError::Cancelled),
        ),
    }
}

/// Starts a cycle that scans from `starting_block` on: the block that the
/// cycle before ended with. That block is scanned again, since a cycle may
/// have been cut short between two events of one block.
pub fn start_watching(starting_block: U256) -> (step: (WatcherState, WatcherAction))
    ensures
        step.0 == (WatcherState::AwaitingHead { starting_block }),
        step.1 == WatcherAction::ReadHead,
{
    (WatcherState::AwaitingHead { starting_block }, WatcherAction::ReadHead)
}

impl WatcherState {
    /// Whether a step can be taken on `input`: a chain head that the cycle
    /// waits for is high enough. A driver that is not verified tests this
    /// before it takes a step.
    pub fn accepts(&self, input: &WatcherInput) -> (ok: bool)
        ensures
            ok == watcher_expects(*self, *input),
    {
        match (self, input) {
            (WatcherState::AwaitingHead { .. }, WatcherInput::Head { latest_block, net_version }) => {
                U256::from_u64(get_block_delay(*net_version)).le(latest_block)
            },
            _ => true,
        }
    }
}

/// Takes one step of a watcher cycle: from the state of the cycle and the
/// outcome of what it asked for last, to the next state and the next action.
pub fn check_for_events(state: WatcherState, input: WatcherInput) -> (step: (
    WatcherState,
    WatcherAction,
))
    requires
        watcher_expects(state, input),
    ensures
        is_watcher_step(state, input, step.0, step.1),
{
    match (state, input) {
        (
            WatcherState::AwaitingHead { starting_block },
            WatcherInput::Head { latest_block, net_version },
        ) => {
            let delay: U256 = U256::from_u64(get_block_delay(net_version));
            let latest: U256 = latest_block.checked_sub(&delay).unwrap();
            (
                WatcherState::AwaitingLogs { latest },
                WatcherAction::QueryLogs { from_block: starting_block, to_block: latest },
            )
        },
        (WatcherState::AwaitingLogs { latest }, WatcherInput::Logs(scan)) => {
            match decode_scan(scan) {
                Ok(events) => (
                    WatcherState::AwaitingLastNonce { latest, events },
                    WatcherAction::ReadLastEventNonce,
                ),
                Err(error) => (WatcherState::Finished, WatcherAction::Finish(Err(error))),
            }
        },
        (
            WatcherState::AwaitingLastNonce { latest, events },
            WatcherInput::LastEventNonce(answer),
        ) => {
            match answer {
                Err(error) => (WatcherState::Finished, WatcherAction::Finish(Err(error))),
                Ok(last_event_nonce) => {
                    if last_event_nonce == u64::MAX {
                        return (WatcherState::Finished, WatcherAction::Finish(Ok(latest)));
                    }
                    let ghost all = events@;
                    match filter_by_event_nonce(last_event_nonce + 1, events) {
                        Err(error) => {
                            proof {
                                lemma_ties_are_news(all, last_event_nonce);
                            }
                            (WatcherState::Finished, WatcherAction::Finish(Err(error)))
                        },
                        Ok(claims) => {
                            if claims.len() == 0 {
                                proof {
                                    if has_news(all, last_event_nonce) {
                                        let i = choose|i: int|
                                            0 <= i < all.len() && nonce_of(#[trigger] all[i])
                                                > last_event_nonce;
                                        assert(all.contains(all[i]));
                                        assert(claims@.contains(all[i]));
                                    }
                                }
                                (WatcherState::Finished, WatcherAction::Finish(Ok(latest)))
                            } else {
                                proof {
                                    assert(claims@.contains(claims@[0]));
                                    let i = choose|i: int|
                                        0 <= i < all.len() && all[i] == claims@[0];
                                    assert(nonce_of(all[i]) > last_event_nonce);
                                }
                                (
                                    WatcherState::AwaitingSubmission { latest, last_event_nonce },
                                    WatcherAction::SubmitClaims { claims },
                                )
                            }
                        },
                    }
                },
            }
        },
        (
            WatcherState::AwaitingSubmission { latest, last_event_nonce },
            WatcherInput::Submitted(answer),
        ) => {
            match answer {
                Err(error) => (WatcherState::Finished, WatcherAction::Finish(Err(error))),
                Ok(tx_hash) => (
                    WatcherState::AwaitingNewNonce { latest, last_event_nonce, tx_hash },
                    WatcherAction::ReadLastEventNonce,
                ),
            }
        },
        (
            WatcherState::AwaitingNewNonce { latest, last_event_nonce, tx_hash },
            WatcherInput::LastEventNonce(answer),
        ) => {
            match answer {
                Err(error) => (WatcherState::Finished, WatcherAction::Finish(Err(error))),
                Ok(new_event_nonce) => if new_event_nonce > last_event_nonce {
                    (WatcherState::Finished, WatcherAction::Finish(Ok(latest)))
                } else {
                    (
                        WatcherState::Finished,
                        WatcherAction::Finish(
                            Err(BridgeError::InvalidBridgeState { tx_hash, last_event_nonce }),
                        ),
                    )
                },
            }
        },
        _ => (WatcherState::Finished, WatcherAction::Finish(Err(BridgeError::Cancelled))),
    }
}

/// The error that the driver handed in with `input`, if it handed one in.
pub open spec fn input_error(input: WatcherInput) -> Option<BridgeError> {
    match input {
        WatcherInput::Head { .. } => None,
        WatcherInput::Logs(scan) => scan.first_error(),
        WatcherInput::LastEventNonce(Err(error)) => Some(error),
        WatcherInput::Submitted(Err(error)) => Some(error),
        _ => None,
    }
}

/// An invalid bridge state that the watcher reports itself, rather than
/// passes on from the driver, comes from one place only: the cycle waited for
/// the event nonce after the claims transaction `tx_hash`, and the nonce it
/// was given is not above `last_event_nonce`, the one read before the claims.
pub proof fn lemma_invalid_bridge_state_follows_claims(
    state: WatcherState,
    input: WatcherInput,
    next: WatcherState,
    action: WatcherAction,
    tx_hash: String,
    last_event_nonce: u64,
)
    requires
        is_watcher_step(state, input, next, action),
        action == WatcherAction::Finish(
            Err(BridgeError::InvalidBridgeState { tx_hash, last_event_nonce }),
        ),
        input_error(input) != Some(BridgeError::InvalidBridgeState { tx_hash, last_event_nonce }),
    ensures
        state matches WatcherState::AwaitingNewNonce {
            last_event_nonce: read_before,
            tx_hash: sent,
            ..
        } && read_before == last_event_nonce && sent == tx_hash,
        input matches WatcherInput::LastEventNonce(Ok(new_event_nonce)) && new_event_nonce
            <= last_event_nonce,
{
}

/// A cycle waits for the event nonce after a claims transaction only once the
/// driver has sent that transaction, with success, and has handed in its hash.
pub proof fn lemma_new_nonce_is_read_after_the_claims(
    state: WatcherState,
    input: WatcherInput,
    next: WatcherState,
    action: WatcherAction,
)
    requires
        is_watcher_step(state, input, next, action),
        next is AwaitingNewNonce,
    ensures
        state matches WatcherState::AwaitingSubmission { last_event_nonce, .. } && last_event_nonce
            == next->AwaitingNewNonce_last_event_nonce,
        input == WatcherInput::Submitted(Ok(next->AwaitingNewNonce_tx_hash)),
        action == WatcherAction::ReadLastEventNonce,
{
}

/// A cycle waits for a claims transaction only once it has asked for one:
/// with claims, all of them above the event nonce that was read before.
pub proof fn lemma_claims_are_sent_when_awaited(
    state: WatcherState,
    input: WatcherInput,
    next: WatcherState,
    action: WatcherAction,
)
    requires
        is_watcher_step(state, input, next, action),
        next is AwaitingSubmission,
    ensures
        state is AwaitingLastNonce,
        input == WatcherInput::LastEventNonce(Ok(next->AwaitingSubmission_last_event_nonce)),
        action matches WatcherAction::SubmitClaims { claims } && claims@.len() > 0 && forall|
            i: int,
        |
            0 <= i < claims@.len() ==> nonce_of(#[trigger] claims@[i])
                > next->AwaitingSubmission_last_event_nonce,
{
    let events = state->AwaitingLastNonce_events@;
    let last_event_nonce = next->AwaitingSubmission_last_event_nonce;
    let claims = action->SubmitClaims_claims@;
    assert forall|i: int| 0 <= i < claims.len() implies nonce_of(#[trigger] claims[i])
        > last_event_nonce by {
        assert(claims.contains(claims[i]));
    }
    let k = choose|k: int| 0 <= k < events.len() && nonce_of(#[trigger] events[k]) > last_event_nonce;
    assert(events.contains(events[k]));
    assert(claims.contains(events[k]));
}

/// Two events above the last event nonce with one event nonce are, each of
/// them, news.
proof fn lemma_ties_are_news(events: Seq<EthereumEvent>, last_event_nonce: u64)
    requires
        last_event_nonce < u64::MAX,
        !no_ties_from((last_event_nonce + 1) as u64, events),
    ensures
        has_news(events, last_event_nonce),
{
    let threshold = (last_event_nonce + 1) as u64;
    let (i, j) = choose|i: int, j: int|
        0 <= i < j < events.len() && nonce_of(#[trigger] events[i]) >= threshold && nonce_of(
            #[trigger] events[j],
        ) >= threshold && nonce_of(events[i]) == nonce_of(events[j]);
    assert(0 <= i < events.len() && nonce_of(events[i]) > last_event_nonce);
}

} // verus!
