//! The cost of an EVM transaction, and the request that asks a node for it.

use vstd::prelude::*;
use crate::types::EthAddress;
use crate::uint256::{be_nat, pow2_128, U256};

verus! {

/// `2^256`, the first number that a [`U256`] cannot hold.
pub open spec fn pow2_256() -> nat {
    pow2_128() * pow2_128()
}

/// Calls `checked_mul` of the integer inside `clarity::Uint256` on the two
/// numbers that `a` and `b` spell, most significant byte first: the product,
/// spelt the same way, or `None` where it does not fit in 256 bits.
#[verifier::external_body]
pub(crate) fn checked_product(a: &[u8; 32], b: &[u8; 32]) -> (product: Option<[u8; 32]>)
    ensures
        product is Some <==> be_nat(a@) * be_nat(b@) < pow2_256(),
        product is Some ==> be_nat(product->0@) == be_nat(a@) * be_nat(b@),
{
    let a = clarity::Uint256::from_be_bytes(a);
    let b = clarity::Uint256::from_be_bytes(b);
    a.0.checked_mul(b.0).map(|p| clarity::Uint256(p).to_be_bytes())
}

/// What a transaction costs: the gas it uses, and the price of one unit.
#[derive(Clone, Copy, Debug, PartialEq, Eq, Structural)]
pub struct GasCost {
    pub gas: U256,
    pub gas_price: U256,
}

impl GasCost {
    /// The total cost, `gas` times `gas_price`, or `None` where the product
    /// is beyond 256 bits.
    pub fn get_total(&self) -> (total: Option<U256>)
        ensures
            total is Some <==> self.gas@ * self.gas_price@ < pow2_256(),
            total is Some ==> total->0@ == self.gas@ * self.gas_price@,
    {
        let gas: [u8; 32] = self.gas.to_word();
        let gas_price: [u8; 32] = self.gas_price.to_word();
        match checked_product(&gas, &gas_price) {
            Some(word) => Some(U256::from_word(&word)),
            None => None,
        }
    }
}

/// What the node knows of the account that pays for a transaction.
#[derive(Clone, Copy, Debug, PartialEq, Eq, Structural)]
pub struct AccountStatus {
    pub balance: U256,
    pub nonce: U256,
    pub gas_price: U256,
}

/// A transaction as a node takes it for a gas estimate.
#[derive(Clone, Debug, PartialEq, Eq)]
pub struct TransactionRequest {
    pub from: EthAddress,
    pub to: EthAddress,
    pub nonce: U256,
    pub gas_price: U256,
    pub gas: U256,
    pub value: U256,
    pub data: Vec<u8>,
}

/// The most gas that an estimate may assume: all that the balance could pay
/// for at a price of one, but no more than `u64::MAX - 1`.
pub open spec fn gas_limit(balance: U256) -> nat {
    if balance@ <= (u64::MAX - 1) as nat {
        balance@
    } else {
        (u64::MAX - 1) as nat
    }
}

/// The request for a gas estimate of a call with `data` to the contract at
/// `to`, paid by the account `from`: the call sends no ether, at the node's
/// current gas price, with the account's next nonce.
pub fn estimate_request(from: EthAddress, to: EthAddress, account: &AccountStatus, data: Vec<u8>) -> (request:
    TransactionRequest)
    ensures
        request.from == from,
        request.to == to,
        request.nonce == account.nonce,
        request.gas_price == account.gas_price,
        request.gas@ == gas_limit(account.balance),
        request.value@ == 0,
        request.data == data,
{
    let gas: U256 = U256::min(U256::from_u64(u64::MAX - 1), account.balance);
    TransactionRequest {
        from,
        to,
        nonce: account.nonce,
        gas_price: account.gas_price,
        gas,
        value: U256::zero(),
        data,
    }
}

/// The cost that a node's estimate of `gas` units means for `request`.
pub fn estimated_cost(request: &TransactionRequest, gas: U256) -> (cost: GasCost)
    ensures
        cost == (GasCost { gas, gas_price: request.gas_price }),
{
    GasCost { gas, gas_price: request.gas_price }
}

} // verus!
