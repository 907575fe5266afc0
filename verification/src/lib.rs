//! Verified core of a bridge orchestrator between a proof-of-stake chain and
//! an EVM chain: the decisions of the event watcher and of the validator-set
//! and batch relayers, with the hashing, signature ordering and event
//! filtering they rest on. All chain I/O is left to the embedding program,
//! which performs the actions this crate asks for and hands back the results.

pub mod error;
pub mod uint256;
pub mod types;
pub mod crypto;
pub mod abi;
pub mod valset;
pub mod message_signatures;
pub mod events;
pub mod logs;
pub mod gas;
pub mod event_watcher;
pub mod valset_update;
pub mod batch_relaying;
