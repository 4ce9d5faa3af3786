use ark_ff::{BigInteger, PrimeField};
use vstd::prelude::*;

verus! {

// The representation of a Grumpkin scalar-field element. Grumpkin is a cycle
// partner of BN254, so its scalar field is BN254's base field. Verus refuses a
// declaration of `ark_grumpkin::Fr` itself (its generics lean on outside
// traits), so the element is held opaquely and every operation on it goes
// through a trusted wrapper below.
#[verifier::external_body]
pub struct FrRepr {
    pub(crate) inner: ark_grumpkin::Fr,
}

impl Clone for FrRepr {
    /// Relies on `Fp` being `Copy`: the clone is the same element.
    #[verifier::external_body]
    fn clone(&self) -> (r: Self)
        ensures
            r == *self,
    {
        FrRepr { inner: self.inner }
    }
}

/// The order of the Grumpkin scalar field (and of the Grumpkin group, whose
/// cofactor is 1).
pub open spec fn scalar_order() -> int {
    21888242871839275222246405745257275088696311157297823662689037894645226208583int
}

/// Addition in the scalar field.
pub open spec fn fadd(a: int, b: int) -> int {
    (a + b) % scalar_order()
}

/// Multiplication in the scalar field.
pub open spec fn fmul(a: int, b: int) -> int {
    (a * b) % scalar_order()
}

/// Negation in the scalar field.
pub open spec fn fneg(a: int) -> int {
    (scalar_order() - (a % scalar_order())) % scalar_order()
}

/// The little-endian encoding of `v` on `n` bytes.
pub open spec fn le_bytes_of(v: int, n: nat) -> Seq<u8>
    decreases n,
{
    if n == 0 {
        Seq::empty()
    } else {
        seq![(v % 256) as u8] + le_bytes_of(v / 256, (n - 1) as nat)
    }
}

/// The big-endian encoding of `v` on 32 bytes, the canonical width of a
/// scalar-field element.
pub open spec fn be_bytes32(v: int) -> Seq<u8> {
    le_bytes_of(v, 32).reverse()
}

/// The integer that a little-endian byte string stands for.
pub open spec fn le_value_of(s: Seq<u8>) -> int
    decreases s.len(),
{
    if s.len() == 0 {
        0
    } else {
        s[0] + 256 * le_value_of(s.drop_first())
    }
}

/// The algebraic heart of Schnorr verification, in discrete logarithms: from
/// a response `z = r + c·x` to a challenge `c` under the key `x`, the
/// verifier's combination `z·g + (-c)·(x·g)` recovers the prover's commitment
/// `r·g`, all modulo the group order.
pub proof fn lemma_commitment_recovery(g: int, r: int, c: int, x: int)
    requires
        0 <= g < scalar_order(),
        0 <= r < scalar_order(),
        0 <= c < scalar_order(),
        0 <= x < scalar_order(),
    ensures
        fadd(fmul(fadd(r, fmul(c, x)), g), fmul(fneg(c), fmul(x, g))) == fmul(r, g),
{
    let p = scalar_order();
    // z = (r + (c·x) % p) % p == (r + c·x) % p
    vstd::arithmetic::div_mod::lemma_add_mod_noop_right(r, c * x, p);
    assert(fadd(r, fmul(c, x)) == (r + c * x) % p);
    // (z % p · g) % p == (z · g) % p
    vstd::arithmetic::div_mod::lemma_mul_mod_noop_left(r + c * x, g, p);
    assert(fmul(fadd(r, fmul(c, x)), g) == ((r + c * x) * g) % p);
    // fneg(c) == (p - c) % p, since c is already reduced
    vstd::arithmetic::div_mod::lemma_small_mod(c as nat, p as nat);
    assert(fneg(c) == (p - c) % p);
    // ((p - c) % p · (x·g) % p) % p == ((p - c) · (x·g)) % p
    vstd::arithmetic::div_mod::lemma_mul_mod_noop_general(p - c, x * g, p);
    assert(fmul(fneg(c), fmul(x, g)) == ((p - c) * (x * g)) % p);
    // the sum of two reduced terms reduces like the sum of the raw terms
    vstd::arithmetic::div_mod::lemma_add_mod_noop((r + c * x) * g, (p - c) * (x * g), p);
    assert(fadd(fmul(fadd(r, fmul(c, x)), g), fmul(fneg(c), fmul(x, g))) == ((r + c * x) * g + (p
        - c) * (x * g)) % p);
    // over the integers, the c·x·g terms cancel but for a multiple of p
    assert((r + c * x) * g + (p - c) * (x * g) == p * (x * g) + r * g) by (nonlinear_arith);
    // and multiples of p vanish modulo p
    vstd::arithmetic::div_mod::lemma_mod_multiples_vanish(x * g, r * g, p);
}

/// An element of the scalar field, held in its canonical representation.
///
/// The view of a `Scalar` is the integer it stands for, in `[0, scalar_order())`.
pub struct Scalar {
    pub(crate) repr: FrRepr,
    value: Ghost<int>,
}

impl Clone for Scalar {
    fn clone(&self) -> (r: Self)
        ensures
            r == *self,
    {
        Scalar { repr: self.repr.clone(), value: Ghost(self@) }
    }
}

impl View for Scalar {
    type V = int;

    closed spec fn view(&self) -> int {
        self.value@
    }
}

impl Scalar {
    pub open spec fn wf(&self) -> bool {
        0 <= self@ < scalar_order()
    }

    /// Relies on ark_ff's `UniformRand` for the scalar field: a uniformly
    /// random field element, nothing assumed of its value beyond canonicity.
    #[verifier::external_body]
    pub fn sample() -> (r: Scalar)
        ensures
            r.wf(),
    {
        Scalar { repr: FrRepr { inner: ark_ff::UniformRand::rand(&mut rand::thread_rng()) }, value: Ghost(0) }
    }

    /// Relies on ark_ff's `Add` for `Fp`: addition in the scalar field.
    #[verifier::external_body]
    pub(crate) fn add_to(&self, other: &Scalar) -> (r: Scalar)
        requires
            self.wf(),
            other.wf(),
        ensures
            r@ == fadd(self@, other@),
    {
        Scalar { repr: FrRepr { inner: self.repr.inner + other.repr.inner }, value: Ghost(0) }
    }

    /// Relies on ark_ff's `Mul` for `Fp`: multiplication in the scalar field.
    #[verifier::external_body]
    pub(crate) fn mul_by(&self, other: &Scalar) -> (r: Scalar)
        requires
            self.wf(),
            other.wf(),
        ensures
            r@ == fmul(self@, other@),
    {
        Scalar { repr: FrRepr { inner: self.repr.inner * other.repr.inner }, value: Ghost(0) }
    }

    /// Relies on ark_ff's `Neg` for `Fp`: negation in the scalar field.
    #[verifier::external_body]
    pub(crate) fn neg_of(&self) -> (r: Scalar)
        requires
            self.wf(),
        ensures
            r@ == fneg(self@),
    {
        Scalar { repr: FrRepr { inner: -self.repr.inner }, value: Ghost(0) }
    }

    /// Relies on ark_ff's `PartialEq` for `Fp`: field elements are kept in a
    /// canonical representation, so representations are equal exactly when the
    /// field elements are.
    #[verifier::external_body]
    pub fn equals(&self, other: &Scalar) -> (r: bool)
        ensures
            r == (self@ == other@),
    {
        self.repr.inner == other.repr.inner
    }

    /// Relies on ark_ff's `into_bigint` and `to_bytes_be`: the canonical value
    /// of the element, big-endian on 32 bytes.
    #[verifier::external_body]
    pub(crate) fn to_bytes_be(&self) -> (r: Vec<u8>)
        requires
            self.wf(),
        ensures
            r@ == be_bytes32(self@),
    {
        self.repr.inner.into_bigint().to_bytes_be()
    }

    /// Relies on ark_ff's `into_bigint` and `to_bytes_le`: the canonical value
    /// of the element, little-endian on 32 bytes.
    #[verifier::external_body]
    pub(crate) fn to_bytes_le(&self) -> (r: Vec<u8>)
        requires
            self.wf(),
        ensures
            r@ == le_bytes_of(self@, 32),
    {
        self.repr.inner.into_bigint().to_bytes_le()
    }

    /// Relies on ark_ff's `from_le_bytes_mod_order`: the little-endian integer
    /// the bytes stand for, reduced modulo the field order.
    #[verifier::external_body]
    pub fn from_le_bytes(bytes: &[u8]) -> (r: Scalar)
        ensures
            r@ == le_value_of(bytes@) % scalar_order(),
    {
        Scalar { repr: FrRepr { inner: ark_grumpkin::Fr::from_le_bytes_mod_order(bytes) }, value: Ghost(0) }
    }
}

} // verus!
