//! Elements of the circuit's native field, as far as this layer needs them:
//! a canonical representative, conversion from unsigned integers and bytes,
//! and the minimal bit count. No modulus is fixed here and no arithmetic is done.

use vstd::arithmetic::power2::{
    lemma2_to64, lemma_pow2_adds, lemma_pow2_pos, lemma_pow2_strictly_increases,
    lemma_pow2_unfold, pow2,
};
use vstd::prelude::*;
use vstd::std_specs::convert::FromSpecImpl;

verus! {

/// The number of binary digits of `v`: `0` for `0`, and otherwise one more
/// than the number of digits of `v / 2`.
pub open spec fn bit_length(v: nat) -> nat
    decreases v,
{
    if v == 0 {
        0
    } else {
        1 + bit_length(v / 2)
    }
}

/// The number that the bytes `s` spell, least significant byte first.
pub open spec fn le_value(s: Seq<u8>) -> nat
    decreases s.len(),
{
    if s.len() == 0 {
        0
    } else {
        le_value(s.drop_last()) + (s.last() as nat) * pow2((8 * (s.len() - 1)) as nat)
    }
}

/// A byte string is canonical when it carries no zero byte at its most
/// significant end; every number has exactly one canonical spelling.
pub open spec fn canonical(s: Seq<u8>) -> bool {
    s.len() == 0 || s.last() != 0
}

/// `bit_length(v)` is the least `k` with `v < 2^k`: `k` digits suffice for
/// `v` exactly when `k` is at least `bit_length(v)`.
pub proof fn lemma_bit_length_is_minimal(v: nat, k: nat)
    ensures
        v < pow2(k) <==> bit_length(v) <= k,
    decreases v,
{
    lemma_pow2_pos(k);
    if v == 0 {
    } else if k == 0 {
        lemma2_to64();
    } else {
        lemma_pow2_unfold(k);
        lemma_bit_length_is_minimal(v / 2, (k - 1) as nat);
    }
}

/// A positive number reaches the power of two below its bit length, and
/// every number stays under the power of two at its bit length.
pub proof fn lemma_bit_length_bounds(v: nat)
    ensures
        v < pow2(bit_length(v)),
        v > 0 ==> pow2((bit_length(v) - 1) as nat) <= v,
{
    lemma_bit_length_is_minimal(v, bit_length(v));
    if v > 0 {
        lemma_bit_length_is_minimal(v, (bit_length(v) - 1) as nat);
    }
}

/// Bytes that spell a number stay under `256^len`.
pub proof fn lemma_le_value_bound(s: Seq<u8>)
    ensures
        le_value(s) < pow2((8 * s.len()) as nat),
    decreases s.len(),
{
    if s.len() == 0 {
        lemma2_to64();
    } else {
        let m = (8 * (s.len() - 1)) as nat;
        lemma_le_value_bound(s.drop_last());
        lemma_pow2_adds(8, m);
        lemma2_to64();
        assert(pow2((8 * s.len()) as nat) == 256 * pow2(m)) by {
            assert((8 * s.len()) as nat == 8 + m);
        }
        assert((s.last() as nat) * pow2(m) <= 255 * pow2(m)) by (nonlinear_arith)
            requires
                s.last() <= 255,
        ;
    }
}

/// Placing a nonzero `top` above `shift` low bits adds `shift` to its bit length.
pub proof fn lemma_bit_length_shifted(low: nat, top: nat, shift: nat)
    requires
        low < pow2(shift),
        top > 0,
    ensures
        bit_length(low + top * pow2(shift)) == shift + bit_length(top),
{
    let b = bit_length(top);
    let v = low + top * pow2(shift);
    lemma_bit_length_bounds(top);
    lemma_pow2_adds(b, shift);
    lemma_pow2_adds((b - 1) as nat, shift);
    assert(v < pow2(b) * pow2(shift)) by (nonlinear_arith)
        requires
            v == low + top * pow2(shift),
            low < pow2(shift),
            top < pow2(b),
    ;
    assert(pow2((b - 1) as nat) * pow2(shift) <= v) by (nonlinear_arith)
        requires
            v == low + top * pow2(shift),
            pow2((b - 1) as nat) <= top,
    ;
    lemma_bit_length_is_minimal(v, b + shift);
    lemma_bit_length_is_minimal(v, ((b - 1) as nat) + shift);
}

/// The bit length of a canonical, nonempty byte string is eight bits for
/// every byte below the last one, plus the bit length of the last byte.
pub proof fn lemma_bit_length_of_bytes(s: Seq<u8>)
    requires
        s.len() > 0,
        s.last() != 0,
    ensures
        bit_length(le_value(s)) == 8 * (s.len() - 1) + bit_length(s.last() as nat),
{
    let m = (8 * (s.len() - 1)) as nat;
    lemma_le_value_bound(s.drop_last());
    lemma_bit_length_shifted(le_value(s.drop_last()), s.last() as nat, m);
}

/// Zero bytes at the most significant end do not change the number spelled.
pub proof fn lemma_le_value_trailing_zeros(s: Seq<u8>, n: int)
    requires
        0 <= n <= s.len(),
        forall|i: int| n <= i < s.len() ==> s[i] == 0,
    ensures
        le_value(s) == le_value(s.subrange(0, n)),
    decreases s.len() - n,
{
    if n == s.len() {
        assert(s.subrange(0, n) == s);
    } else {
        let t = s.drop_last();
        assert(t.subrange(0, n) == s.subrange(0, n));
        lemma_le_value_trailing_zeros(t, n);
        assert(s.last() == 0);
    }
}

/// Two byte strings of one length that spell the same number are the same.
pub proof fn lemma_le_value_injective(a: Seq<u8>, b: Seq<u8>)
    requires
        a.len() == b.len(),
        le_value(a) == le_value(b),
    ensures
        a == b,
    decreases a.len(),
{
    if a.len() > 0 {
        let m = (8 * (a.len() - 1)) as nat;
        let p = pow2(m);
        lemma_pow2_pos(m);
        lemma_le_value_bound(a.drop_last());
        lemma_le_value_bound(b.drop_last());
        let (la, ta) = (le_value(a.drop_last()), a.last() as nat);
        let (lb, tb) = (le_value(b.drop_last()), b.last() as nat);
        assert(ta == tb && la == lb) by (nonlinear_arith)
            requires
                la + ta * p == lb + tb * p,
                la < p,
                lb < p,
                p > 0,
        ;
        lemma_le_value_injective(a.drop_last(), b.drop_last());
        assert(a == a.drop_last().push(a.last()));
        assert(b == b.drop_last().push(b.last()));
    }
}

/// Two canonical byte strings that spell the same number are the same.
pub proof fn lemma_canonical_is_unique(a: Seq<u8>, b: Seq<u8>)
    requires
        canonical(a),
        canonical(b),
        le_value(a) == le_value(b),
    ensures
        a == b,
{
    if a.len() == 0 || b.len() == 0 {
        if a.len() > 0 {
            lemma_bit_length_of_bytes(a);
            lemma_bit_length_bounds(a.last() as nat);
        }
        if b.len() > 0 {
            lemma_bit_length_of_bytes(b);
            lemma_bit_length_bounds(b.last() as nat);
        }
        assert(bit_length(0) == 0);
    } else {
        lemma_bit_length_of_bytes(a);
        lemma_bit_length_of_bytes(b);
        lemma_byte_bit_length(a.last());
        lemma_byte_bit_length(b.last());
        lemma_le_value_injective(a, b);
    }
}

/// A nonzero byte has between one and eight binary digits.
pub proof fn lemma_byte_bit_length(b: u8)
    ensures
        bit_length(b as nat) <= 8,
        b != 0 ==> bit_length(b as nat) >= 1,
{
    lemma2_to64();
    lemma_bit_length_is_minimal(b as nat, 8);
}

/// The most bytes an element may hold, so that every bit count fits in a `u32`.
pub const MAX_BYTES: usize = 0x1FFF_FFFF;

/// A field element, held by its canonical representative: the bytes of a
/// natural number, least significant first, with no zero byte at the top.
#[derive(Debug, Hash)]
pub struct FieldElement {
    bytes: Vec<u8>,
}

impl View for FieldElement {
    type V = nat;

    /// The natural number that stands for the element.
    closed spec fn view(&self) -> nat {
        le_value(self.bytes@)
    }
}

/// Whether two byte slices hold the same bytes.
pub fn slices_equal(a: &[u8], b: &[u8]) -> (r: bool)
    ensures
        r == (a@ == b@),
{
    if a.len() != b.len() {
        return false;
    }
    let mut i: usize = 0;
    while i < a.len()
        invariant
            a@.len() == b@.len(),
            i <= a@.len(),
            forall|j: int| 0 <= j < i ==> a@[j] == b@[j],
        decreases a@.len() - i,
    {
        if a[i] != b[i] {
            return false;
        }
        i = i + 1;
    }
    assert(a@ =~= b@);
    true
}

/// The number of binary digits of one byte.
pub fn byte_bits(b: u8) -> (r: u32)
    ensures
        r == bit_length(b as nat),
        r <= 8,
{
    let mut rest: u8 = b;
    let mut n: u32 = 0;
    proof {
        lemma_byte_bit_length(b);
    }
    while rest != 0
        invariant
            n + bit_length(rest as nat) == bit_length(b as nat),
            bit_length(b as nat) <= 8,
        decreases rest,
    {
        rest = rest / 2;
        n = n + 1;
    }
    n
}

impl FieldElement {
    #[verifier::type_invariant]
    spec fn well_formed(&self) -> bool {
        canonical(self.bytes@) && self.bytes@.len() <= MAX_BYTES
    }

    /// The element that stands for `v`.
    pub fn from_u128(v: u128) -> (r: FieldElement)
        ensures
            r@ == v as nat,
    {
        let mut bytes: Vec<u8> = Vec::new();
        let mut rest: u128 = v;
        proof {
            lemma2_to64();
            let one = pow2((8 * bytes@.len()) as nat);
            assert(rest * one == v) by (nonlinear_arith)
                requires
                    one == 1,
                    rest == v,
            ;
            assert(le_value(bytes@) == 0);
        }
        while rest != 0
            invariant
                le_value(bytes@) + rest * pow2((8 * bytes@.len()) as nat) == v,
                bytes@.len() <= 16,
                rest == 0 ==> canonical(bytes@),
            decreases rest,
        {
            let ghost old_bytes = bytes@;
            let ghost p = pow2((8 * old_bytes.len()) as nat);
            let b: u8 = (rest % 256) as u8;
            proof {
                lemma_pow2_adds(8, (8 * old_bytes.len()) as nat);
                lemma2_to64();
                assert(pow2((8 * (old_bytes.len() + 1)) as nat) == 256 * p) by {
                    assert((8 * (old_bytes.len() + 1)) as nat == 8 + (8 * old_bytes.len()) as nat);
                }
                assert(old_bytes.push(b).drop_last() == old_bytes);
                assert(rest * p == (rest / 256) * (256 * p) + b * p) by (nonlinear_arith)
                    requires
                        b == rest % 256,
                ;
                if old_bytes.len() == 16 {
                    lemma_pow2_adds(64, 64);
                    assert(p == pow2(128));
                    assert(rest * p >= p) by (nonlinear_arith)
                        requires
                            rest >= 1,
                            p >= 0,
                    ;
                    assert(false);
                }
            }
            bytes.push(b);
            rest = rest / 256;
        }
        FieldElement { bytes }
    }

    /// The element that the bytes spell, least significant byte first. Zero
    /// bytes at the top are dropped. `None` when more than `MAX_BYTES` bytes
    /// are left after that.
    pub fn from_le_bytes(bytes: &[u8]) -> (r: Option<FieldElement>)
        ensures
            r is None <==> le_value(bytes@) >= pow2((8 * MAX_BYTES) as nat),
            r matches Some(f) ==> f@ == le_value(bytes@),
    {
        let mut n: usize = bytes.len();
        while n > 0 && bytes[n - 1] == 0
            invariant
                n <= bytes@.len(),
                forall|i: int| n <= i < bytes@.len() ==> bytes@[i] == 0,
            decreases n,
        {
            n = n - 1;
        }
        let ghost kept = bytes@.subrange(0, n as int);
        proof {
            lemma_le_value_trailing_zeros(bytes@, n as int);
            assert(canonical(kept));
        }
        if n > MAX_BYTES {
            proof {
                lemma_bit_length_of_bytes(kept);
                lemma_byte_bit_length(kept.last());
                lemma_bit_length_is_minimal(le_value(kept), (8 * MAX_BYTES) as nat);
            }
            return None;
        }
        let mut out: Vec<u8> = Vec::new();
        let mut i: usize = 0;
        while i < n
            invariant
                i <= n <= bytes@.len(),
                out@ == bytes@.subrange(0, i as int),
            decreases n - i,
        {
            out.push(bytes[i]);
            i = i + 1;
            assert(out@ == bytes@.subrange(0, i as int));
        }
        proof {
            lemma_le_value_bound(kept);
            if n < MAX_BYTES {
                lemma_pow2_strictly_increases((8 * n) as nat, (8 * MAX_BYTES) as nat);
            }
        }
        Some(FieldElement { bytes: out })
    }

    /// The canonical bytes of the element, least significant first.
    pub fn to_le_bytes(&self) -> (r: Vec<u8>)
        ensures
            le_value(r@) == self@,
            canonical(r@),
            r@.len() <= MAX_BYTES,
    {
        proof {
            use_type_invariant(self);
        }
        let r = self.bytes.clone();
        assert(r@ =~= self.bytes@);
        r
    }

    /// The least number of bits that can hold the element.
    pub fn bits(&self) -> (r: u32)
        ensures
            r == bit_length(self@),
    {
        proof {
            use_type_invariant(self);
        }
        let n = self.bytes.len();
        if n == 0 {
            return 0;
        }
        let top = self.bytes[n - 1];
        proof {
            lemma_bit_length_of_bytes(self.bytes@);
        }
        let low: u32 = (8 * (n - 1)) as u32;
        low + byte_bits(top)
    }
}

/// What `to_le_bytes` hands out, `from_le_bytes` takes back, as an element
/// of the same value.
pub proof fn lemma_bytes_round_trip(
    f: FieldElement,
    bytes: Vec<u8>,
    given: &[u8],
    g: Option<FieldElement>,
)
    requires
        call_ensures(FieldElement::to_le_bytes, (&f,), bytes),
        given@ == bytes@,
        call_ensures(FieldElement::from_le_bytes, (given,), g),
    ensures
        g matches Some(e) && e@ == f@,
{
    lemma_le_value_bound(given@);
    if given@.len() < MAX_BYTES {
        lemma_pow2_strictly_increases((8 * given@.len()) as nat, (8 * MAX_BYTES) as nat);
    }
}

impl Clone for FieldElement {
    fn clone(&self) -> (r: Self)
        ensures
            r@ == self@,
    {
        proof {
            use_type_invariant(self);
        }
        let bytes = self.bytes.clone();
        assert(bytes@ =~= self.bytes@);
        FieldElement { bytes }
    }
}

impl PartialEq for FieldElement {
    /// Two elements are equal when they stand for the same number.
    fn eq(&self, other: &Self) -> (r: bool) {
        proof {
            use_type_invariant(self);
            use_type_invariant(other);
            if self@ == other@ {
                lemma_canonical_is_unique(self.bytes@, other.bytes@);
            }
        }
        slices_equal(self.bytes.as_slice(), other.bytes.as_slice())
    }
}

impl vstd::std_specs::cmp::PartialEqSpecImpl for FieldElement {
    open spec fn obeys_eq_spec() -> bool {
        true
    }

    open spec fn eq_spec(&self, other: &Self) -> bool {
        self@ == other@
    }
}

impl Eq for FieldElement {

}

/// The conversion of a value into its own type, `From<T> for T` of the
/// standard library, hands its argument back unchanged.
pub assume_specification<T>[ <T as From<T>>::from ](t: T) -> (r: T)
    ensures
        r == t,
;

/// What each conversion from an unsigned integer returns is stated on `from`
/// itself, over the value of the element: elements are told apart by their
/// value, so the conversions carry no specification over the representation.
impl FromSpecImpl<u128> for FieldElement {
    open spec fn obeys_from_spec() -> bool {
        false
    }

    open spec fn from_spec(v: u128) -> FieldElement {
        arbitrary()
    }
}

impl FromSpecImpl<u32> for FieldElement {
    open spec fn obeys_from_spec() -> bool {
        false
    }

    open spec fn from_spec(v: u32) -> FieldElement {
        arbitrary()
    }
}

impl FromSpecImpl<usize> for FieldElement {
    open spec fn obeys_from_spec() -> bool {
        false
    }

    open spec fn from_spec(v: usize) -> FieldElement {
        arbitrary()
    }
}

impl From<u128> for FieldElement {
    fn from(v: u128) -> (r: FieldElement)
        ensures
            r@ == v as nat,
    {
        FieldElement::from_u128(v)
    }
}

impl From<u32> for FieldElement {
    fn from(v: u32) -> (r: FieldElement)
        ensures
            r@ == v as nat,
    {
        FieldElement::from_u128(v as u128)
    }
}

impl From<usize> for FieldElement {
    fn from(v: usize) -> (r: FieldElement)
        ensures
            r@ == v as nat,
    {
        FieldElement::from_u128(v as u128)
    }
}

} // verus!
