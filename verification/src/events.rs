//! The events that the bridge contract emits, and the choice of those that
//! the native chain has not seen yet.

use vstd::prelude::*;
use crate::error::BridgeError;
use crate::types::{EthAddress, ValsetMember};
use crate::uint256::U256;

verus! {

/// A deposit: `amount` of the token `erc20` was locked for `destination`, a
/// native-chain address given as the contract logged it.
#[derive(Clone, Debug, PartialEq, Eq)]
pub struct SendToCosmosEvent {
    pub erc20: EthAddress,
    pub sender: EthAddress,
    pub destination: [u8; 32],
    pub amount: U256,
    pub event_nonce: u64,
}

/// A batch of withdrawals of the token `erc20` was executed.
#[derive(Clone, Debug, PartialEq, Eq)]
pub struct TransactionBatchExecutedEvent {
    pub batch_nonce: u64,
    pub erc20: EthAddress,
    pub event_nonce: u64,
}

/// The contract took over a new validator set. A contract whose log of this
/// event names no event nonce gives nothing to claim: such a log is read as
/// the [`crate::types::Valset`] it holds.
#[derive(Clone, Debug, PartialEq, Eq)]
pub struct ValsetUpdatedEvent {
    pub valset_nonce: u64,
    pub members: Vec<ValsetMember>,
    pub event_nonce: u64,
}

/// The contract deployed an ERC-20 token for a native-chain denomination.
/// The three texts are held as the bytes that the contract logged.
#[derive(Clone, Debug, PartialEq, Eq)]
pub struct Erc20DeployedEvent {
    pub cosmos_denom: Vec<u8>,
    pub erc20: EthAddress,
    pub name: Vec<u8>,
    pub symbol: Vec<u8>,
    pub decimals: u8,
    pub event_nonce: u64,
}

/// The contract executed an arbitrary logic call.
#[derive(Clone, Debug, PartialEq, Eq)]
pub struct LogicCallExecutedEvent {
    pub invalidation_id: [u8; 32],
    pub invalidation_nonce: u64,
    pub return_data: Vec<u8>,
    pub event_nonce: u64,
}

/// An event of the bridge contract. The contract numbers its events, of all
/// kinds together, with one strictly growing event nonce, and the native
/// chain takes claims in exactly that order.
#[derive(Clone, Debug, PartialEq, Eq)]
pub enum EthereumEvent {
    SendToCosmos(SendToCosmosEvent),
    TransactionBatchExecuted(TransactionBatchExecutedEvent),
    ValsetUpdated(ValsetUpdatedEvent),
    Erc20Deployed(Erc20DeployedEvent),
    LogicCallExecuted(LogicCallExecutedEvent),
}

/// The event nonce of an event.
pub open spec fn nonce_of(event: EthereumEvent) -> u64 {
    match event {
        EthereumEvent::SendToCosmos(e) => e.event_nonce,
        EthereumEvent::TransactionBatchExecuted(e) => e.event_nonce,
        EthereumEvent::ValsetUpdated(e) => e.event_nonce,
        EthereumEvent::Erc20Deployed(e) => e.event_nonce,
        EthereumEvent::LogicCallExecuted(e) => e.event_nonce,
    }
}

impl EthereumEvent {
    /// The event nonce that the contract gave the event.
    pub fn event_nonce(&self) -> (nonce: u64)
        ensures
            nonce == nonce_of(*self),
    {
        match self {
            EthereumEvent::SendToCosmos(e) => e.event_nonce,
            EthereumEvent::TransactionBatchExecuted(e) => e.event_nonce,
            EthereumEvent::ValsetUpdated(e) => e.event_nonce,
            EthereumEvent::Erc20Deployed(e) => e.event_nonce,
            EthereumEvent::LogicCallExecuted(e) => e.event_nonce,
        }
    }
}

/// Whether the event nonces grow strictly along the list.
pub open spec fn strictly_ascending(events: Seq<EthereumEvent>) -> bool {
    forall|i: int, j: int|
        0 <= i < j < events.len() ==> nonce_of(#[trigger] events[i]) < nonce_of(#[trigger] events[j])
}

/// Whether no two entries of the list with an event nonce of at least
/// `threshold` have the same event nonce.
pub open spec fn no_ties_from(threshold: u64, events: Seq<EthereumEvent>) -> bool {
    forall|i: int, j: int|
        0 <= i < j < events.len() && nonce_of(#[trigger] events[i]) >= threshold && nonce_of(
            #[trigger] events[j],
        ) >= threshold ==> nonce_of(events[i]) != nonce_of(events[j])
}

/// Whether `chosen` is the choice from `events` at `threshold`: it holds
/// exactly the events with an event nonce of at least `threshold`, in
/// strictly ascending order of their event nonces.
pub open spec fn is_choice_from(
    threshold: u64,
    events: Seq<EthereumEvent>,
    chosen: Seq<EthereumEvent>,
) -> bool {
    &&& strictly_ascending(chosen)
    &&& forall|e: EthereumEvent|
        chosen.contains(e) <==> events.contains(e) && nonce_of(e) >= threshold
}

/// Two lists in strictly ascending order that hold the same events are the
/// same list.
pub proof fn lemma_ascending_unique(a: Seq<EthereumEvent>, b: Seq<EthereumEvent>)
    requires
        strictly_ascending(a),
        strictly_ascending(b),
        forall|e: EthereumEvent| a.contains(e) <==> b.contains(e),
    ensures
        a == b,
    decreases a.len(),
{
    if a.len() == 0 {
        if b.len() > 0 {
            assert(b.contains(b[0]));
        }
        assert(a =~= b);
    } else {
        assert(a.contains(a[0]));
        let x = a.last();
        let y = b.last();
        assert(a.contains(x));
        assert(b.contains(y));
        let m = choose|m: int| 0 <= m < b.len() && b[m] == x;
        let n = choose|n: int| 0 <= n < a.len() && a[n] == y;
        assert(n == a.len() - 1) by {
            if n < a.len() - 1 {
                assert(nonce_of(a[n]) < nonce_of(a[a.len() - 1]));
                assert(m == b.len() - 1 || nonce_of(b[m]) < nonce_of(b[b.len() - 1]));
            }
        }
        assert(x == y);
        let a0 = a.drop_last();
        let b0 = b.drop_last();
        assert forall|e: EthereumEvent| a0.contains(e) <==> b0.contains(e) by {
            if a0.contains(e) {
                let i = choose|i: int| 0 <= i < a0.len() && a0[i] == e;
                assert(a[i] == e);
                assert(nonce_of(a[i]) < nonce_of(a[a.len() - 1]));
                assert(b.contains(e));
                let j = choose|j: int| 0 <= j < b.len() && b[j] == e;
                assert(b0[j] == e);
            }
            if b0.contains(e) {
                let j = choose|j: int| 0 <= j < b0.len() && b0[j] == e;
                assert(b[j] == e);
                assert(nonce_of(b[j]) < nonce_of(b[b.len() - 1]));
                assert(a.contains(e));
                let i = choose|i: int| 0 <= i < a.len() && a[i] == e;
                assert(a0[i] == e);
            }
        }
        assert forall|i: int, j: int| 0 <= i < j < a0.len() implies nonce_of(#[trigger] a0[i])
            < nonce_of(#[trigger] a0[j]) by {
            assert(nonce_of(a[i]) < nonce_of(a[j]));
        }
        assert forall|i: int, j: int| 0 <= i < j < b0.len() implies nonce_of(#[trigger] b0[i])
            < nonce_of(#[trigger] b0[j]) by {
            assert(nonce_of(b[i]) < nonce_of(b[j]));
        }
        lemma_ascending_unique(a0, b0);
        assert(a =~= a0.push(x));
        assert(b =~= b0.push(y));
    }
}

/// What is chosen depends only on the threshold and on which events of at
/// least that event nonce the list holds: neither their order in the list,
/// nor how often an event below the threshold occurs, changes the choice.
pub proof fn lemma_choice_determined(
    threshold: u64,
    events: Seq<EthereumEvent>,
    other_events: Seq<EthereumEvent>,
    chosen: Seq<EthereumEvent>,
    other_chosen: Seq<EthereumEvent>,
)
    requires
        is_choice_from(threshold, events, chosen),
        is_choice_from(threshold, other_events, other_chosen),
        forall|e: EthereumEvent|
            nonce_of(e) >= threshold ==> (events.contains(e) <==> other_events.contains(e)),
    ensures
        chosen == other_chosen,
{
    lemma_ascending_unique(chosen, other_chosen);
}

/// Scanning blocks again is harmless: events below the threshold, which the
/// native chain has applied already, add nothing to the choice.
pub proof fn lemma_rescan_adds_nothing(
    threshold: u64,
    seen: Seq<EthereumEvent>,
    fresh: Seq<EthereumEvent>,
    chosen: Seq<EthereumEvent>,
)
    requires
        forall|i: int| 0 <= i < seen.len() ==> nonce_of(#[trigger] seen[i]) < threshold,
        is_choice_from(threshold, fresh, chosen),
    ensures
        is_choice_from(threshold, seen + fresh, chosen),
{
    let both = seen + fresh;
    assert forall|e: EthereumEvent|
        chosen.contains(e) <==> both.contains(e) && nonce_of(e) >= threshold by {
        if chosen.contains(e) {
            let i = choose|i: int| 0 <= i < fresh.len() && fresh[i] == e;
            assert(both[seen.len() + i] == e);
        }
        if both.contains(e) && nonce_of(e) >= threshold {
            let i = choose|i: int| 0 <= i < both.len() && both[i] == e;
            if i < seen.len() {
                assert(nonce_of(seen[i]) < threshold);
            } else {
                assert(fresh[i - seen.len()] == e);
            }
        }
    }
}

/// Keeps the events with an event nonce of at least `threshold` and puts them
/// in ascending order of their event nonces.
///
/// Two events to keep with one event nonce cannot come from a sound bridge
/// contract: the list is then refused as undecodable.
pub fn filter_by_event_nonce(threshold: u64, events: Vec<EthereumEvent>) -> (result: Result<
    Vec<EthereumEvent>,
    BridgeError,
>)
    ensures
        result is Ok <==> no_ties_from(threshold, events@),
        result is Ok ==> is_choice_from(threshold, events@, result->Ok_0@),
        result is Err ==> result == Err::<Vec<EthereumEvent>, BridgeError>(BridgeError::Decode),
{
    let ghost all = events@;
    let mut rest = events;
    let mut chosen: Vec<EthereumEvent> = Vec::new();
    while rest.len() > 0
        invariant
            all == events@,
            rest@ == all.take(rest@.len() as int),
            rest@.len() <= all.len(),
            strictly_ascending(chosen@),
            forall|m: int|
                0 <= m < chosen@.len() ==> nonce_of(#[trigger] chosen@[m]) >= threshold && exists|
                    i: int,
                | rest@.len() <= i < all.len() && all[i] == chosen@[m],
            forall|i: int|
                rest@.len() <= i < all.len() && nonce_of(#[trigger] all[i]) >= threshold
                    ==> chosen@.contains(all[i]),
            forall|i: int, j: int|
                rest@.len() <= i < j < all.len() && nonce_of(#[trigger] all[i]) >= threshold
                    && nonce_of(#[trigger] all[j]) >= threshold ==> nonce_of(all[i]) != nonce_of(
                    all[j],
                ),
        decreases rest@.len(),
    {
        let ghost k = rest@.len() - 1;
        let ghost before = chosen@;
        let event: EthereumEvent = rest.pop().unwrap();
        assert(event == all[k]);
        assert(rest@ =~= all.take(k));
        let nonce: u64 = event.event_nonce();
        if nonce >= threshold {
            let mut p: usize = 0;
            while p < chosen.len() && chosen[p].event_nonce() < nonce
                invariant
                    p <= chosen@.len(),
                    forall|m: int| 0 <= m < p ==> nonce_of(#[trigger] chosen@[m]) < nonce,
                decreases chosen@.len() - p,
            {
                p = p + 1;
            }
            if p < chosen.len() && chosen[p].event_nonce() == nonce {
                proof {
                    let i = choose|i: int| k < i < all.len() && all[i] == chosen@[p as int];
                    assert(nonce_of(all[k]) >= threshold && nonce_of(all[i]) >= threshold);
                    assert(nonce_of(all[k]) == nonce_of(all[i]));
                    assert(!no_ties_from(threshold, all));
                }
                return Err(BridgeError::Decode);
            }
            chosen.insert(p, event);
            proof {
                let after = chosen@;
                assert(after.len() == before.len() + 1);
                assert(forall|m: int| 0 <= m < p ==> after[m] == before[m]);
                assert(after[p as int] == event);
                assert(forall|m: int| p < m < after.len() ==> after[m] == before[m - 1]);
                assert forall|i: int, j: int| 0 <= i < j < after.len() implies nonce_of(
                    #[trigger] after[i],
                ) < nonce_of(#[trigger] after[j]) by {
                    if j < p {
                        assert(nonce_of(before[i]) < nonce_of(before[j]));
                    } else if j == p {
                        assert(nonce_of(before[i]) < nonce);
                    } else if i < p {
                        assert(nonce_of(before[i]) < nonce_of(before[j - 1]) || i == j - 1);
                        if i == j - 1 {
                            assert(nonce_of(before[i]) < nonce);
                            assert(nonce_of(before[p as int]) > nonce);
                        }
                    } else if i == p {
                        assert(nonce_of(before[p as int]) > nonce);
                        assert(p as int == j - 1 || nonce_of(before[p as int]) < nonce_of(
                            before[j - 1],
                        ));
                    } else {
                        assert(nonce_of(before[i - 1]) < nonce_of(before[j - 1]));
                    }
                }
                assert forall|m: int| 0 <= m < after.len() implies nonce_of(#[trigger] after[m])
                    >= threshold && exists|i: int| k <= i < all.len() && all[i] == after[m] by {
                    if m < p {
                        let i = choose|i: int| k < i < all.len() && all[i] == before[m];
                        assert(k <= i < all.len() && all[i] == after[m]);
                    } else if m == p {
                        assert(k <= k < all.len() && all[k] == after[m]);
                    } else {
                        let i = choose|i: int| k < i < all.len() && all[i] == before[m - 1];
                        assert(k <= i < all.len() && all[i] == after[m]);
                    }
                }
                assert forall|i: int|
                    k <= i < all.len() && nonce_of(#[trigger] all[i]) >= threshold implies after.contains(
                    all[i],
                ) by {
                    if i == k {
                        assert(after[p as int] == all[i]);
                    } else {
                        assert(before.contains(all[i]));
                        let m = choose|m: int| 0 <= m < before.len() && before[m] == all[i];
                        if m < p {
                            assert(after[m] == all[i]);
                        } else {
                            assert(after[m + 1] == all[i]);
                        }
                    }
                }
                assert forall|i: int, j: int|
                    k <= i < j < all.len() && nonce_of(#[trigger] all[i]) >= threshold && nonce_of(
                        #[trigger] all[j],
                    ) >= threshold implies nonce_of(all[i]) != nonce_of(all[j]) by {
                    if i == k {
                        assert(before.contains(all[j]));
                        let m = choose|m: int| 0 <= m < before.len() && before[m] == all[j];
                        if m < p {
                            assert(nonce_of(before[m]) < nonce);
                        } else {
                            assert(nonce_of(before[p as int]) > nonce);
                            assert(m == p || nonce_of(before[p as int]) < nonce_of(before[m]));
                        }
                    }
                }
            }
        }
    }
    proof {
        assert forall|e: EthereumEvent|
            chosen@.contains(e) <==> all.contains(e) && nonce_of(e) >= threshold by {
            if chosen@.contains(e) {
                let m = choose|m: int| 0 <= m < chosen@.len() && chosen@[m] == e;
                assert(nonce_of(chosen@[m]) >= threshold);
            }
            if all.contains(e) && nonce_of(e) >= threshold {
                let i = choose|i: int| 0 <= i < all.len() && all[i] == e;
                assert(chosen@.contains(all[i]));
            }
        }
    }
    Ok(chosen)
}

} // verus!
