use crate::field::{fadd, fmul, scalar_order, Scalar};
use ark_ec::{AffineRepr, CurveGroup, PrimeGroup};
use ark_serialize::CanonicalSerialize;
use ark_ff::{BigInteger, PrimeField, Zero};
use vstd::prelude::*;

verus! {

// The representation of a point of the Grumpkin curve, in projective
// coordinates. Verus refuses a declaration of `ark_grumpkin::Projective`
// itself (its generics lean on outside traits), so the point is held opaquely
// and every operation on it goes through a trusted wrapper below.
#[verifier::external_body]
pub struct PointRepr {
    pub(crate) inner: ark_grumpkin::Projective,
}

impl Clone for PointRepr {
    /// Relies on `Projective` being `Copy`: the clone is the same point.
    #[verifier::external_body]
    fn clone(&self) -> (r: Self)
        ensures
            r == *self,
    {
        PointRepr { inner: self.inner }
    }
}

/// The canonical byte encoding of the group element whose discrete logarithm
/// (to the fixed generator) is `d`: what ark_serialize's uncompressed affine
/// serialization returns for it. The Grumpkin group is cyclic of prime order
/// with cofactor 1, so a point determines its discrete logarithm and the
/// encoding is a function of it.
pub uninterp spec fn point_bytes_of(d: int) -> Seq<u8>;

/// The 32 little-endian bytes of the affine x coordinate of the group element
/// whose discrete logarithm is `d`.
pub uninterp spec fn point_x_le_of(d: int) -> Seq<u8>;

/// The 32 little-endian bytes of the affine y coordinate of the group element
/// whose discrete logarithm is `d`.
pub uninterp spec fn point_y_le_of(d: int) -> Seq<u8>;

/// An element of the Grumpkin group.
///
/// The group is cyclic of prime order `scalar_order()` (the curve's cofactor
/// is 1), so every element is a unique scalar multiple of the fixed generator.
/// The view of a `GroupElement` is that scalar: its discrete logarithm, in
/// `[0, scalar_order())`. The identity has view 0 and the generator view 1.
pub struct GroupElement {
    pub(crate) repr: PointRepr,
    dlog: Ghost<int>,
}

impl View for GroupElement {
    type V = int;

    closed spec fn view(&self) -> int {
        self.dlog@
    }
}

impl Clone for GroupElement {
    fn clone(&self) -> (r: Self)
        ensures
            r == *self,
    {
        GroupElement { repr: self.repr.clone(), dlog: Ghost(self@) }
    }
}

impl GroupElement {
    pub open spec fn wf(&self) -> bool {
        0 <= self@ < scalar_order()
    }

    /// Relies on ark_ec's `PrimeGroup::generator`: the fixed generator of the
    /// group, discrete logarithm 1 by definition.
    #[verifier::external_body]
    pub(crate) fn generator() -> (r: GroupElement)
        ensures
            r@ == 1,
    {
        GroupElement { repr: PointRepr { inner: ark_grumpkin::Projective::generator() }, dlog: Ghost(0) }
    }

    /// Relies on ark_ec's scalar multiplication for `Projective`: multiplying
    /// a point by a scalar multiplies its discrete logarithm by that scalar,
    /// modulo the group order.
    #[verifier::external_body]
    pub(crate) fn mul_scalar(&self, s: &Scalar) -> (r: GroupElement)
        requires
            self.wf(),
            s.wf(),
        ensures
            r@ == fmul(s@, self@),
    {
        GroupElement { repr: PointRepr { inner: self.repr.inner * s.repr.inner }, dlog: Ghost(0) }
    }

    /// Relies on ark_ec's `Add` for `Projective`: adding two points adds
    /// their discrete logarithms, modulo the group order.
    #[verifier::external_body]
    pub(crate) fn add_point(&self, other: &GroupElement) -> (r: GroupElement)
        requires
            self.wf(),
            other.wf(),
        ensures
            r@ == fadd(self@, other@),
    {
        GroupElement { repr: PointRepr { inner: self.repr.inner + other.repr.inner }, dlog: Ghost(0) }
    }

    /// Relies on ark_ec's `is_zero` for `Projective`: exactly the identity
    /// has discrete logarithm 0.
    #[verifier::external_body]
    pub(crate) fn is_identity(&self) -> (r: bool)
        requires
            self.wf(),
        ensures
            r == (self@ == 0),
    {
        self.repr.inner.is_zero()
    }

    /// Relies on ark_serialize's `serialize_uncompressed` of the affine form
    /// of the point: the canonical uncompressed encoding, a function of the
    /// point alone. Serialization into a byte vector cannot fail.
    #[verifier::external_body]
    pub(crate) fn to_bytes(&self) -> (r: Vec<u8>)
        requires
            self.wf(),
        ensures
            r@ == point_bytes_of(self@),
    {
        let mut out = Vec::new();
        self.repr.inner.into_affine().serialize_uncompressed(&mut out).unwrap();
        out
    }

    /// Relies on ark_ec's `AffineRepr::x` and ark_ff's little-endian encoding:
    /// the canonical 32 bytes of the affine x coordinate. `x` returns a
    /// coordinate for every point but the identity, which is left out here.
    #[verifier::external_body]
    pub(crate) fn x_bytes_le(&self) -> (r: Vec<u8>)
        requires
            self.wf(),
            self@ != 0,
        ensures
            r@ == point_x_le_of(self@),
            r@.len() == 32,
    {
        self.repr.inner.into_affine().x().unwrap().into_bigint().to_bytes_le()
    }

    /// Relies on ark_ec's `AffineRepr::y` and ark_ff's little-endian encoding:
    /// the canonical 32 bytes of the affine y coordinate. `y` returns a
    /// coordinate for every point but the identity, which is left out here.
    #[verifier::external_body]
    pub(crate) fn y_bytes_le(&self) -> (r: Vec<u8>)
        requires
            self.wf(),
            self@ != 0,
        ensures
            r@ == point_y_le_of(self@),
            r@.len() == 32,
    {
        self.repr.inner.into_affine().y().unwrap().into_bigint().to_bytes_le()
    }

    /// Relies on ark_ec's `Affine::new_unchecked`, `is_on_curve` and
    /// `is_in_correct_subgroup_assuming_on_curve`: the same checks that
    /// `Affine::new` asserts. The coordinate bytes are read little-endian
    /// modulo the base field order; a pair that is not on the curve is
    /// rejected. With cofactor 1 every accepted point lies in the prime-order
    /// group; the pair (0, 0), which is not on the curve, stands for the
    /// identity and is accepted as it.
    ///
    /// The second clause is the decode half of the round trip: the canonical
    /// coordinate bytes of a non-identity group element decode to that
    /// element, since `from_le_bytes_mod_order` is the identity on canonical
    /// coordinate encodings and a curve point is determined by its affine
    /// coordinates.
    #[verifier::external_body]
    pub(crate) fn from_coords_le(x: &[u8], y: &[u8]) -> (r: Option<GroupElement>)
        ensures
            r matches Some(p) ==> p.wf() && (forall|d: int|
                (0 < d < scalar_order() && x@ == #[trigger] point_x_le_of(d) && y@
                    == point_y_le_of(d)) ==> p@ == d),
            r is None ==> (forall|d: int|
                !(0 < d < scalar_order() && x@ == #[trigger] point_x_le_of(d) && y@
                    == point_y_le_of(d))),
    {
        let xf = ark_grumpkin::Fq::from_le_bytes_mod_order(x);
        let yf = ark_grumpkin::Fq::from_le_bytes_mod_order(y);
        let aff = ark_grumpkin::Affine::new_unchecked(xf, yf);
        if aff.is_on_curve() && aff.is_in_correct_subgroup_assuming_on_curve() {
            Some(GroupElement { repr: PointRepr { inner: aff.into() }, dlog: Ghost(0) })
        } else {
            None
        }
    }
}

} // verus!
