//! The signature aggregator: which validators of a set take part on the EVM
//! side, and how the confirmations at hand line up with them.

use vstd::prelude::*;
use crate::crypto::{signature_signer, signer_of};
use crate::error::BridgeError;
use crate::types::{Confirmation, EthAddress, EthSignature, Valset, ValsetMember};
use crate::uint256::U256;

verus! {

/// The members that take part on the EVM side, in the order of the set.
/// Members without an address, or with the zero address, are left out before
/// anything is hashed or encoded.
pub open spec fn present_members(members: Seq<ValsetMember>) -> Seq<ValsetMember>
    decreases members.len(),
{
    if members.len() == 0 {
        Seq::empty()
    } else {
        let rest = present_members(members.drop_last());
        if members.last().is_present() {
            rest.push(members.last())
        } else {
            rest
        }
    }
}

/// The addresses of the members that take part, in the order of the set.
pub open spec fn member_addresses(members: Seq<ValsetMember>) -> Seq<EthAddress> {
    Seq::new(
        present_members(members).len(),
        |i: int| present_members(members)[i].eth_address->0,
    )
}

/// The voting powers of the members that take part, in the order of the set.
pub open spec fn member_powers(members: Seq<ValsetMember>) -> Seq<u64> {
    Seq::new(present_members(members).len(), |i: int| present_members(members)[i].power)
}

/// A confirmation together with the address that its signature, over the
/// digest at hand, recovers to.
#[derive(Clone, Copy, Debug, PartialEq, Eq, Hash)]
pub struct CheckedConfirmation {
    pub confirmation: Confirmation,
    pub signer: Option<EthAddress>,
}

/// Whether a confirmation stands for `address`: it is filed under that
/// address, and the key that made its signature is the key of that address.
pub open spec fn vouches(checked: CheckedConfirmation, address: EthAddress) -> bool {
    checked.confirmation.eth_address == address && checked.signer == Some(address)
}

/// Whether the confirmation at `k` is the first that stands for `address`.
pub open spec fn is_first_vouching(
    checked: Seq<CheckedConfirmation>,
    address: EthAddress,
    k: int,
) -> bool {
    &&& 0 <= k < checked.len()
    &&& vouches(checked[k], address)
    &&& forall|j: int| 0 <= j < k ==> !vouches(#[trigger] checked[j], address)
}

/// Whether some confirmation stands for `address`.
pub open spec fn has_vouching(checked: Seq<CheckedConfirmation>, address: EthAddress) -> bool {
    exists|k: int| 0 <= k < checked.len() && vouches(#[trigger] checked[k], address)
}

/// The signature to submit for `address`: that of the first confirmation that
/// stands for it, or the all-zero triple where none does.
pub open spec fn signature_for(checked: Seq<CheckedConfirmation>, address: EthAddress) -> EthSignature {
    if has_vouching(checked, address) {
        checked[choose|k: int| is_first_vouching(checked, address, k)].confirmation.signature
    } else {
        EthSignature::absent()
    }
}

/// The signatures to submit for a list of members, one for each, in order.
pub open spec fn ordered_signatures(
    present: Seq<ValsetMember>,
    checked: Seq<CheckedConfirmation>,
) -> Seq<EthSignature> {
    Seq::new(present.len(), |i: int| signature_for(checked, present[i].eth_address->0))
}

/// The voting power of those of `present` for whom a confirmation stands.
pub open spec fn vouched_power(present: Seq<ValsetMember>, checked: Seq<CheckedConfirmation>) -> nat
    decreases present.len(),
{
    if present.len() == 0 {
        0
    } else {
        let rest = vouched_power(present.drop_last(), checked);
        if has_vouching(checked, present.last().eth_address->0) {
            rest + present.last().power as nat
        } else {
            rest
        }
    }
}

/// Each confirmation with the address that signed `digest` with its
/// signature.
pub open spec fn checked_against(confirmations: Seq<Confirmation>, digest: Seq<u8>) -> Seq<
    CheckedConfirmation,
> {
    Seq::new(
        confirmations.len(),
        |i: int|
            CheckedConfirmation {
                confirmation: confirmations[i],
                signer: signer_of(confirmations[i].signature, digest),
            },
    )
}

/// The signatures to submit for the members of a set over `digest`, given the
/// confirmations at hand.
pub open spec fn confirmed_signatures(
    members: Seq<ValsetMember>,
    confirmations: Seq<Confirmation>,
    digest: Seq<u8>,
) -> Seq<EthSignature> {
    ordered_signatures(present_members(members), checked_against(confirmations, digest))
}

/// The voting power of the members of a set for whom a confirmation of
/// `digest` stands.
pub open spec fn confirmed_power(
    members: Seq<ValsetMember>,
    confirmations: Seq<Confirmation>,
    digest: Seq<u8>,
) -> nat {
    vouched_power(present_members(members), checked_against(confirmations, digest))
}

/// The `v` values of a list of signatures.
pub open spec fn v_values(signatures: Seq<EthSignature>) -> Seq<U256> {
    Seq::new(signatures.len(), |i: int| signatures[i].v)
}

/// The `r` values of a list of signatures.
pub open spec fn r_values(signatures: Seq<EthSignature>) -> Seq<U256> {
    Seq::new(signatures.len(), |i: int| signatures[i].r)
}

/// The `s` values of a list of signatures.
pub open spec fn s_values(signatures: Seq<EthSignature>) -> Seq<U256> {
    Seq::new(signatures.len(), |i: int| signatures[i].s)
}

/// The signatures of a validator set's members over one message, as the three
/// parallel arrays that the bridge contract takes.
#[derive(Clone, Debug, PartialEq, Eq)]
pub struct SigArrays {
    pub v: Vec<U256>,
    pub r: Vec<U256>,
    pub s: Vec<U256>,
}

impl SigArrays {
    /// The three arrays have one length.
    pub open spec fn well_formed(&self) -> bool {
        self.v@.len() == self.r@.len() && self.r@.len() == self.s@.len()
    }

    /// The arrays read as a list of signatures.
    pub open spec fn signatures(&self) -> Seq<EthSignature> {
        Seq::new(
            self.v@.len(),
            |i: int| EthSignature { v: self.v@[i], r: self.r@[i], s: self.s@[i] },
        )
    }

    /// The three arrays of well-formed signature arrays are the `v`, `r` and
    /// `s` values of the signatures they read as.
    pub proof fn lemma_values(&self)
        requires
            self.well_formed(),
        ensures
            self.v@ == v_values(self.signatures()),
            self.r@ == r_values(self.signatures()),
            self.s@ == s_values(self.signatures()),
    {
        assert(self.v@ =~= v_values(self.signatures()));
        assert(self.r@ =~= r_values(self.signatures()));
        assert(self.s@ =~= s_values(self.signatures()));
    }
}

/// Finds the first confirmation that stands for `address`.
fn find_vouching(checked: &Vec<CheckedConfirmation>, address: &EthAddress) -> (found: Option<usize>)
    ensures
        found is Some ==> is_first_vouching(checked@, *address, found->0 as int),
        found is Some <==> has_vouching(checked@, *address),
{
    let mut k: usize = 0;
    while k < checked.len()
        invariant
            k <= checked@.len(),
            forall|j: int| 0 <= j < k ==> !vouches(#[trigger] checked@[j], *address),
        decreases checked@.len() - k,
    {
        let stands: bool = checked[k].confirmation.eth_address.equals(address) && match checked[k].signer {
            Some(signer) => signer.equals(address),
            None => false,
        };
        if stands {
            assert(is_first_vouching(checked@, *address, k as int));
            return Some(k);
        }
        k = k + 1;
    }
    None
}

impl Valset {
    /// The addresses and powers of the members that take part on the EVM side,
    /// as two parallel lists in the order of the set.
    pub fn filter_empty_addresses(&self) -> (lists: (Vec<EthAddress>, Vec<u64>))
        ensures
            lists.0@ == member_addresses(self.members@),
            lists.1@ == member_powers(self.members@),
    {
        let mut addresses: Vec<EthAddress> = Vec::new();
        let mut powers: Vec<u64> = Vec::new();
        let mut i: usize = 0;
        assert(self.members@.take(0) =~= Seq::empty());
        while i < self.members.len()
            invariant
                i <= self.members@.len(),
                addresses@ == member_addresses(self.members@.take(i as int)),
                powers@ == member_powers(self.members@.take(i as int)),
            decreases self.members@.len() - i,
        {
            let member: ValsetMember = self.members[i];
            proof {
                assert(self.members@.take(i + 1).drop_last() =~= self.members@.take(i as int));
            }
            if let Some(address) = member.present_address() {
                addresses.push(address);
                powers.push(member.power);
            }
            assert(addresses@ =~= member_addresses(self.members@.take(i + 1)));
            assert(powers@ =~= member_powers(self.members@.take(i + 1)));
            i = i + 1;
        }
        assert(self.members@.take(i as int) =~= self.members@);
        (addresses, powers)
    }

    /// Lines up confirmations with the members of the set, given for each
    /// confirmation the address that its signature recovers to.
    ///
    /// The result has one entry for each member that takes part on the EVM
    /// side, in the order of the set: the signature of the first confirmation
    /// that stands for the member, or three zeros. It is an error if the
    /// members for whom a confirmation stands hold less than `threshold`
    /// voting power together.
    pub fn order_checked_sigs(&self, checked: &Vec<CheckedConfirmation>, threshold: u64) -> (result:
        Result<SigArrays, BridgeError>)
        ensures
            result is Ok <==> vouched_power(present_members(self.members@), checked@) >= threshold,
            result is Err ==> result == Err::<SigArrays, BridgeError>(
                BridgeError::InsufficientSignatures,
            ),
            result is Ok ==> result->Ok_0.well_formed() && result->Ok_0.signatures()
                == ordered_signatures(present_members(self.members@), checked@),
    {
        let mut v: Vec<U256> = Vec::new();
        let mut r: Vec<U256> = Vec::new();
        let mut s: Vec<U256> = Vec::new();
        let mut power: u128 = 0;
        let mut i: usize = 0;
        assert(self.members@.take(0) =~= Seq::empty());
        while i < self.members.len()
            invariant
                i <= self.members@.len(),
                v@.len() == r@.len() == s@.len() == present_members(self.members@.take(i as int)).len(),
                forall|j: int|
                    0 <= j < v@.len() ==> (EthSignature { v: v@[j], r: r@[j], s: s@[j] })
                        == #[trigger] ordered_signatures(
                        present_members(self.members@.take(i as int)),
                        checked@,
                    )[j],
                power as nat == vouched_power(
                    present_members(self.members@.take(i as int)),
                    checked@,
                ),
                power as nat <= i * u64::MAX,
            decreases self.members@.len() - i,
        {
            let member: ValsetMember = self.members[i];
            let ghost before = present_members(self.members@.take(i as int));
            let ghost after = present_members(self.members@.take(i + 1));
            proof {
                assert(self.members@.take(i + 1).drop_last() =~= self.members@.take(i as int));
            }
            if let Some(address) = member.present_address() {
                assert(after == before.push(member));
                assert(after.drop_last() =~= before);
                let signature: EthSignature = match find_vouching(checked, &address) {
                    Some(k) => {
                        power = power + member.power as u128;
                        checked[k].confirmation.signature
                    },
                    None => EthSignature::zero(),
                };
                assert(signature == signature_for(checked@, address));
                let ghost filled = v@.len() as int;
                v.push(signature.v);
                r.push(signature.r);
                s.push(signature.s);
                assert forall|j: int| 0 <= j < v@.len() implies (EthSignature {
                    v: v@[j],
                    r: r@[j],
                    s: s@[j],
                }) == #[trigger] ordered_signatures(after, checked@)[j] by {
                    if j < filled {
                        assert(after[j] == before[j]);
                        assert(ordered_signatures(before, checked@)[j] == ordered_signatures(
                            after,
                            checked@,
                        )[j]);
                    }
                }
            } else {
                assert(after == before);
            }
            i = i + 1;
        }
        assert(self.members@.take(i as int) =~= self.members@);
        if power < threshold as u128 {
            return Err(BridgeError::InsufficientSignatures);
        }
        let arrays = SigArrays { v, r, s };
        assert(arrays.signatures() =~= ordered_signatures(
            present_members(self.members@),
            checked@,
        ));
        Ok(arrays)
    }

    /// Lines up the confirmations of `digest` with the members of the set.
    ///
    /// A confirmation stands for a member if it is filed under the member's
    /// address and its signature over `digest` recovers to that address. The
    /// result is that of [`Valset::order_checked_sigs`] for the recovered
    /// signers.
    pub fn order_sigs(
        &self,
        digest: &[u8; 32],
        confirmations: &Vec<Confirmation>,
        threshold: u64,
    ) -> (result: Result<SigArrays, BridgeError>)
        ensures
            result is Ok <==> confirmed_power(self.members@, confirmations@, digest@) >= threshold,
            result is Err ==> result == Err::<SigArrays, BridgeError>(
                BridgeError::InsufficientSignatures,
            ),
            result is Ok ==> result->Ok_0.well_formed() && result->Ok_0.signatures()
                == confirmed_signatures(self.members@, confirmations@, digest@),
    {
        let mut checked: Vec<CheckedConfirmation> = Vec::new();
        let mut i: usize = 0;
        while i < confirmations.len()
            invariant
                i <= confirmations@.len(),
                checked@ == checked_against(confirmations@, digest@).take(i as int),
            decreases confirmations@.len() - i,
        {
            let confirmation: Confirmation = confirmations[i];
            let signer: Option<EthAddress> = signature_signer(&confirmation.signature, digest);
            checked.push(CheckedConfirmation { confirmation, signer });
            assert(checked@ =~= checked_against(confirmations@, digest@).take(i + 1));
            i = i + 1;
        }
        assert(checked@ =~= checked_against(confirmations@, digest@));
        self.order_checked_sigs(&checked, threshold)
    }
}

} // verus!
