//! The values that both relayers and the watcher pass around: addresses,
//! signatures, validator sets and the confirmations that validators sign.

use vstd::prelude::*;
use vstd::string::StringSliceAdditionalSpecFns;
use vstd::utf8::encode_utf8;
use crate::uint256::U256;

verus! {

/// The id of a bridge: a short text that goes into every digest that
/// validators sign, so that a signature for one deployment of the bridge is
/// worth nothing in another. Its UTF-8 form has at most 32 bytes, since it is
/// signed as one word.
#[derive(Debug, PartialEq, Eq)]
pub struct BridgeId {
    text: String,
}

impl Clone for BridgeId {
    fn clone(&self) -> (id: BridgeId)
        ensures
            id == *self,
    {
        proof {
            use_type_invariant(self);
        }
        BridgeId { text: self.text.clone() }
    }
}

impl View for BridgeId {
    type V = Seq<u8>;

    /// The bytes of the id.
    closed spec fn view(&self) -> Seq<u8> {
        encode_utf8(self.text@)
    }
}

impl BridgeId {
    /// The id fits in one word.
    #[verifier::type_invariant]
    spec fn fits_a_word(self) -> bool {
        encode_utf8(self.text@).len() <= 32
    }

    /// The id with the given text, or `None` where the text has more than 32
    /// bytes.
    pub fn new(text: &str) -> (id: Option<BridgeId>)
        ensures
            id is Some <==> text.spec_bytes().len() <= 32,
            id is Some ==> id->0@ == text.spec_bytes(),
    {
        if text.as_bytes().len() <= 32 {
            Some(BridgeId { text: text.to_owned() })
        } else {
            None
        }
    }

    /// The text of the id.
    pub fn as_str(&self) -> (text: &str)
        ensures
            text.spec_bytes() == self@,
            self@.len() <= 32,
    {
        proof {
            use_type_invariant(self);
        }
        self.text.as_str()
    }
}

/// A 20-byte EVM address.
#[derive(Clone, Copy, Debug, PartialEq, Eq, Hash)]
pub struct EthAddress {
    pub bytes: [u8; 20],
}

impl EthAddress {
    /// The address of twenty zero bytes, which no validator can hold.
    pub open spec fn is_zero_spec(&self) -> bool {
        forall|i: int| 0 <= i < 20 ==> self.bytes@[i] == 0
    }

    /// Whether every byte is zero.
    pub fn is_zero(&self) -> (r: bool)
        ensures
            r == self.is_zero_spec(),
    {
        let mut i: usize = 0;
        while i < 20
            invariant
                i <= 20,
                forall|j: int| 0 <= j < i ==> self.bytes@[j] == 0,
            decreases 20 - i,
        {
            if self.bytes[i] != 0 {
                return false;
            }
            i = i + 1;
        }
        true
    }

    /// Whether two addresses are the same.
    pub fn equals(&self, other: &EthAddress) -> (r: bool)
        ensures
            r == (*self == *other),
    {
        let mut i: usize = 0;
        while i < 20
            invariant
                i <= 20,
                forall|j: int| 0 <= j < i ==> self.bytes@[j] == other.bytes@[j],
            decreases 20 - i,
        {
            if self.bytes[i] != other.bytes[i] {
                return false;
            }
            i = i + 1;
        }
        assert(self.bytes =~= other.bytes);
        true
    }
}

/// An ECDSA signature as the EVM takes it. Three zeros stand for "no
/// signature": the bridge contract skips such an entry.
#[derive(Clone, Copy, Debug, PartialEq, Eq, Structural, Hash)]
pub struct EthSignature {
    pub v: U256,
    pub r: U256,
    pub s: U256,
}

impl EthSignature {
    /// The all-zero triple.
    pub open spec fn absent() -> EthSignature {
        EthSignature {
            v: U256 { hi: 0, lo: 0 },
            r: U256 { hi: 0, lo: 0 },
            s: U256 { hi: 0, lo: 0 },
        }
    }

    /// The all-zero triple, which marks a missing signature.
    pub fn zero() -> (sig: EthSignature)
        ensures
            sig == EthSignature::absent(),
    {
        EthSignature { v: U256::zero(), r: U256::zero(), s: U256::zero() }
    }
}

/// One validator of a set: its voting power, and its EVM address if it has
/// registered one.
#[derive(Clone, Copy, Debug, PartialEq, Eq, Hash)]
pub struct ValsetMember {
    pub power: u64,
    pub eth_address: Option<EthAddress>,
}

impl ValsetMember {
    /// Whether the member takes part on the EVM side: it has an address, and
    /// the address is not the zero address.
    pub open spec fn is_present(&self) -> bool {
        self.eth_address is Some && !self.eth_address->0.is_zero_spec()
    }

    /// The address of a member that takes part on the EVM side.
    pub fn present_address(&self) -> (r: Option<EthAddress>)
        ensures
            r is Some <==> self.is_present(),
            r is Some ==> self.eth_address == r,
    {
        match self.eth_address {
            Some(address) => if address.is_zero() {
                None
            } else {
                Some(address)
            },
            None => None,
        }
    }
}

/// A validator set: members in the order in which the bridge contract stores
/// them, under a nonce that grows with every new set.
#[derive(Clone, Debug, PartialEq, Eq)]
pub struct Valset {
    pub nonce: u64,
    pub members: Vec<ValsetMember>,
}

/// One withdrawal of a batch: `amount` of the batch's token goes to
/// `destination`, and `fee` to whoever relays the batch.
#[derive(Clone, Copy, Debug, PartialEq, Eq, Hash)]
pub struct BatchTransfer {
    pub destination: EthAddress,
    pub amount: U256,
    pub fee: U256,
}

/// A batch of withdrawals of one ERC-20 token. Batches of a token are
/// numbered by `nonce`, and the bridge contract executes them in that order;
/// after block `timeout_block` it accepts the batch no more.
#[derive(Clone, Debug, PartialEq, Eq)]
pub struct TransactionBatch {
    pub nonce: u64,
    pub token_contract: EthAddress,
    pub transfers: Vec<BatchTransfer>,
    pub timeout_block: u64,
}

/// A validator's signature over a validator set or a batch. What it confirms
/// is given by the candidate that the confirmation is filed under.
#[derive(Clone, Copy, Debug, PartialEq, Eq, Hash)]
pub struct Confirmation {
    pub eth_address: EthAddress,
    pub signature: EthSignature,
}

} // verus!
