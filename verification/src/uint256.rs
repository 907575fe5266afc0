//! Unsigned 256-bit integers, as the EVM and its ABI use them.

use vstd::prelude::*;

verus! {

/// `2^128`, the weight of the high limb of a [`U256`].
pub open spec fn pow2_128() -> nat {
    0x1_0000_0000_0000_0000_0000_0000_0000_0000nat
}

/// `256^n`.
pub open spec fn pow256(n: nat) -> nat
    decreases n,
{
    if n == 0 {
        1
    } else {
        256 * pow256((n - 1) as nat)
    }
}

/// The number that `bytes` spell in base 256, most significant byte first.
pub open spec fn be_nat(bytes: Seq<u8>) -> nat
    decreases bytes.len(),
{
    if bytes.len() == 0 {
        0
    } else {
        be_nat(bytes.drop_last()) * 256 + bytes.last() as nat
    }
}

/// The powers of 256 grow with the exponent.
pub proof fn lemma_pow256_monotonic(i: nat, j: nat)
    requires
        i <= j,
    ensures
        pow256(i) <= pow256(j),
    decreases j,
{
    if i < j {
        lemma_pow256_monotonic(i, (j - 1) as nat);
    }
}

/// Sixteen bytes hold exactly the numbers below `2^128`.
pub proof fn lemma_pow256_16()
    ensures
        pow256(16) == pow2_128(),
{
    reveal_with_fuel(pow256, 17);
}

/// `n` bytes spell a number below `256^n`.
pub proof fn lemma_be_nat_bound(bytes: Seq<u8>)
    ensures
        be_nat(bytes) < pow256(bytes.len()),
    decreases bytes.len(),
{
    if bytes.len() > 0 {
        lemma_be_nat_bound(bytes.drop_last());
    }
}

/// Writing `b` behind `a` shifts `a` by the length of `b`.
pub proof fn lemma_be_nat_concat(a: Seq<u8>, b: Seq<u8>)
    ensures
        be_nat(a + b) == be_nat(a) * pow256(b.len()) + be_nat(b),
    decreases b.len(),
{
    if b.len() == 0 {
        assert(a + b =~= a);
        assert(pow256(0) == 1);
        assert(be_nat(a) * 1 == be_nat(a)) by (nonlinear_arith);
    } else {
        lemma_be_nat_concat(a, b.drop_last());
        assert((a + b).drop_last() =~= a + b.drop_last());
        assert((a + b).last() == b.last());
        let x = be_nat(a);
        let y = be_nat(b.drop_last());
        let p = pow256((b.len() - 1) as nat);
        assert(pow256(b.len()) == 256 * p);
        assert(be_nat(a + b) == (x * p + y) * 256 + b.last() as nat);
        assert((x * p + y) * 256 == x * (256 * p) + y * 256) by (nonlinear_arith);
    }
}

/// The 32-byte word that spells `n`, most significant byte first: how the ABI
/// writes an unsigned integer. Meaningful for `n` below `2^256`.
pub open spec fn word_of(n: nat) -> Seq<u8> {
    choose|w: Seq<u8>| w.len() == 32 && be_nat(w) == n
}

/// Byte strings of one length that spell the same number are equal.
pub proof fn lemma_be_nat_injective(a: Seq<u8>, b: Seq<u8>)
    requires
        a.len() == b.len(),
        be_nat(a) == be_nat(b),
    ensures
        a == b,
    decreases a.len(),
{
    if a.len() > 0 {
        lemma_be_nat_injective(a.drop_last(), b.drop_last());
        assert(a =~= a.drop_last().push(a.last()));
        assert(b =~= b.drop_last().push(b.last()));
    } else {
        assert(a =~= b);
    }
}

/// Reads sixteen bytes of `data`, from `start` on, as a number.
fn read_u128(data: &[u8], start: usize) -> (r: u128)
    requires
        start + 16 <= data@.len(),
    ensures
        r as nat == be_nat(data@.subrange(start as int, start + 16)),
{
    let len: usize = data.len();
    let mut acc: u128 = 0;
    let mut i: usize = 0;
    assert(data@.subrange(start as int, start + 0) =~= Seq::<u8>::empty());
    while i < 16
        invariant
            i <= 16,
            len == data@.len(),
            start + 16 <= len,
            acc as nat == be_nat(data@.subrange(start as int, start + i)),
        decreases 16 - i,
    {
        let ghost prefix = data@.subrange(start as int, start + i);
        let ghost next = data@.subrange(start as int, start + i + 1);
        proof {
            lemma_be_nat_bound(prefix);
            lemma_pow256_monotonic(i as nat, 15);
            lemma_pow256_16();
            assert(pow256(16) == 256 * pow256(15));
            assert(next.drop_last() =~= prefix);
            assert(next.last() == data@[start + i]);
        }
        acc = acc * 256 + data[start + i] as u128;
        i = i + 1;
    }
    acc
}

/// Spells `x` in sixteen bytes, most significant first.
fn write_u128(x: u128) -> (out: [u8; 16])
    ensures
        be_nat(out@) == x as nat,
{
    let mut out: [u8; 16] = [0u8; 16];
    let mut rest: u128 = x;
    let mut k: usize = 0;
    assert(out@.subrange(16, 16) =~= Seq::<u8>::empty());
    assert(pow256(0) == 1);
    assert(rest as nat * 1 == rest as nat) by (nonlinear_arith);
    while k < 16
        invariant
            k <= 16,
            rest as nat * pow256(k as nat) + be_nat(out@.subrange(16 - k, 16)) == x as nat,
        decreases 16 - k,
    {
        let ghost tail = out@.subrange(16 - k, 16);
        let digit: u8 = (rest % 256) as u8;
        out[15 - k] = digit;
        proof {
            let grown = out@.subrange(15 - k, 16);
            assert(grown =~= seq![digit] + tail);
            lemma_be_nat_concat(seq![digit], tail);
            assert(seq![digit].drop_last() =~= Seq::<u8>::empty());
            assert(be_nat(Seq::<u8>::empty()) == 0);
            assert(be_nat(seq![digit]) == digit as nat);
            let q = (rest / 256) as nat;
            let p = pow256(k as nat);
            assert(rest as nat == 256 * q + digit as nat);
            assert((256 * q + digit as nat) * p == q * (256 * p) + digit as nat * p)
                by (nonlinear_arith);
        }
        rest = rest / 256;
        k = k + 1;
    }
    proof {
        lemma_pow256_16();
        lemma_be_nat_bound(out@.subrange(0, 16));
        assert(out@.subrange(0, 16) =~= out@);
        assert(rest == 0) by (nonlinear_arith)
            requires
                rest as nat * pow256(16) <= x as nat,
                (x as nat) < pow256(16),
        ;
    }
    out
}

/// An unsigned 256-bit integer, held as two 128-bit limbs.
///
/// Every pair of limbs is a value and every value has one pair, so equality of
/// the limbs is equality of the numbers.
#[derive(Clone, Copy, Debug, PartialEq, Eq, Structural, Hash)]
pub struct U256 {
    pub hi: u128,
    pub lo: u128,
}

impl View for U256 {
    type V = nat;

    open spec fn view(&self) -> nat {
        (self.hi as nat) * pow2_128() + (self.lo as nat)
    }
}

impl U256 {
    /// The number zero.
    pub fn zero() -> (r: U256)
        ensures
            r@ == 0,
    {
        U256 { hi: 0, lo: 0 }
    }

    /// Widens a `u64`.
    pub fn from_u64(x: u64) -> (r: U256)
        ensures
            r@ == x as nat,
    {
        U256 { hi: 0, lo: x as u128 }
    }

    /// Widens a `u128`.
    pub fn from_u128(x: u128) -> (r: U256)
        ensures
            r@ == x as nat,
    {
        U256 { hi: 0, lo: x }
    }

    /// The value as a `u64`, where it fits.
    pub fn to_u64(&self) -> (r: Option<u64>)
        ensures
            r is Some <==> self@ <= u64::MAX as nat,
            r is Some ==> r->0 as nat == self@,
    {
        if self.hi == 0 && self.lo <= u64::MAX as u128 {
            Some(self.lo as u64)
        } else {
            None
        }
    }

    /// Whether `self` is strictly below `other`.
    pub fn lt(&self, other: &U256) -> (r: bool)
        ensures
            r == (self@ < other@),
    {
        self.hi < other.hi || (self.hi == other.hi && self.lo < other.lo)
    }

    /// Whether `self` is at most `other`.
    pub fn le(&self, other: &U256) -> (r: bool)
        ensures
            r == (self@ <= other@),
    {
        self.hi < other.hi || (self.hi == other.hi && self.lo <= other.lo)
    }

    /// The smaller of two numbers.
    pub fn min(a: U256, b: U256) -> (r: U256)
        ensures
            r@ == if a@ <= b@ { a@ } else { b@ },
            r == a || r == b,
    {
        if a.le(&b) {
            a
        } else {
            b
        }
    }

    /// `self - other`, or `None` where `other` is the larger.
    pub fn checked_sub(&self, other: &U256) -> (r: Option<U256>)
        ensures
            r is Some <==> self@ >= other@,
            r is Some ==> r->0@ == self@ - other@,
    {
        if self.lt(other) {
            return None;
        }
        if self.lo >= other.lo {
            Some(U256 { hi: self.hi - other.hi, lo: self.lo - other.lo })
        } else {
            let lo: u128 = (u128::MAX - other.lo) + self.lo + 1;
            Some(U256 { hi: self.hi - other.hi - 1, lo })
        }
    }

    /// The number that the 32 bytes of `data` from `offset` on spell, most
    /// significant byte first: one word of ABI-encoded data.
    pub fn read_word(data: &[u8], offset: usize) -> (r: U256)
        requires
            offset + 32 <= data@.len(),
        ensures
            r@ == be_nat(data@.subrange(offset as int, offset + 32)),
    {
        let len: usize = data.len();
        let hi: u128 = read_u128(data, offset);
        let lo: u128 = read_u128(data, offset + 16);
        proof {
            let word = data@.subrange(offset as int, offset + 32);
            let a = data@.subrange(offset as int, offset + 16);
            let b = data@.subrange(offset + 16, offset + 32);
            assert(word =~= a + b);
            lemma_be_nat_concat(a, b);
            lemma_pow256_16();
        }
        U256 { hi, lo }
    }

    /// The number that `bytes` spell, most significant byte first.
    pub fn from_word(bytes: &[u8; 32]) -> (r: U256)
        ensures
            r@ == be_nat(bytes@),
    {
        assert(bytes@.subrange(0, 32) =~= bytes@);
        U256::read_word(bytes.as_slice(), 0)
    }

    /// The 32 bytes that spell the number, most significant byte first.
    pub fn to_word(&self) -> (out: [u8; 32])
        ensures
            be_nat(out@) == self@,
            out@ == word_of(self@),
    {
        let hi: [u8; 16] = write_u128(self.hi);
        let lo: [u8; 16] = write_u128(self.lo);
        let mut out: [u8; 32] = [0u8; 32];
        let mut i: usize = 0;
        while i < 16
            invariant
                i <= 16,
                forall|j: int| 0 <= j < i ==> out@[j] == hi@[j],
                forall|j: int| 0 <= j < i ==> out@[16 + j] == lo@[j],
            decreases 16 - i,
        {
            out[i] = hi[i];
            out[16 + i] = lo[i];
            i = i + 1;
        }
        proof {
            assert(out@ =~= hi@ + lo@);
            lemma_be_nat_concat(hi@, lo@);
            lemma_pow256_16();
            lemma_be_nat_injective(out@, word_of(self@));
        }
        out
    }
}

/// Two numbers with the same value are the same pair of limbs.
pub proof fn lemma_view_injective(a: U256, b: U256)
    requires
        a@ == b@,
    ensures
        a == b,
{
}

} // verus!
