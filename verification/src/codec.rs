//! Plain byte-level carriers for the scheme's values, for callers that hold
//! scalars and curve points only as bytes: a scalar as its 32 little-endian
//! bytes, a point as the little-endian bytes of its two affine coordinates.

use crate::copy_bytes;
use crate::field::{le_bytes_of, le_value_of, scalar_order, Scalar};
use crate::group::{point_x_le_of, point_y_le_of, GroupElement};
use vstd::prelude::*;

verus! {

/// A scalar-field element carried as bytes. The view is the byte string; the
/// canonical encoding of a scalar is its value little-endian on 32 bytes.
pub struct Fr {
    bytes: Vec<u8>,
}

impl View for Fr {
    type V = Seq<u8>;

    closed spec fn view(&self) -> Seq<u8> {
        self.bytes@
    }
}

impl Clone for Fr {
    fn clone(&self) -> (r: Self)
        ensures
            r@ == self@,
    {
        Fr { bytes: copy_bytes(&self.bytes) }
    }
}

impl Fr {
    pub fn bytes(&self) -> (r: Vec<u8>)
        ensures
            r@ == self@,
    {
        copy_bytes(&self.bytes)
    }

    /// Encodes a scalar as its canonical little-endian bytes.
    pub fn from_scalar(s: &Scalar) -> (r: Fr)
        requires
            s.wf(),
        ensures
            r@ == le_bytes_of(s@, 32),
    {
        Fr { bytes: s.to_bytes_le() }
    }

    /// Reads the bytes back as a scalar, little-endian modulo the field
    /// order.
    pub fn to_scalar(&self) -> (r: Scalar)
        ensures
            r@ == le_value_of(self@) % scalar_order(),
            r.wf(),
    {
        Scalar::from_le_bytes(self.bytes.as_slice())
    }
}

/// A curve point carried as the little-endian bytes of its affine
/// coordinates. The view is the pair of byte strings.
pub struct CurvePoint {
    x: Vec<u8>,
    y: Vec<u8>,
}

impl View for CurvePoint {
    type V = (Seq<u8>, Seq<u8>);

    closed spec fn view(&self) -> (Seq<u8>, Seq<u8>) {
        (self.x@, self.y@)
    }
}

impl Clone for CurvePoint {
    fn clone(&self) -> (r: Self)
        ensures
            r@ == self@,
    {
        CurvePoint { x: copy_bytes(&self.x), y: copy_bytes(&self.y) }
    }
}

impl CurvePoint {
    /// Wraps coordinate bytes as they stand; whether they name a point of
    /// the curve is decided by `to_group`.
    pub fn from_coords(x: Vec<u8>, y: Vec<u8>) -> (r: CurvePoint)
        ensures
            r@ == (x@, y@),
    {
        CurvePoint { x, y }
    }

    pub fn x(&self) -> (r: Vec<u8>)
        ensures
            r@ == self@.0,
    {
        copy_bytes(&self.x)
    }

    pub fn y(&self) -> (r: Vec<u8>)
        ensures
            r@ == self@.1,
    {
        copy_bytes(&self.y)
    }

    /// Encodes a group element by its affine coordinates. The identity has no
    /// affine coordinates and yields `None`.
    pub fn from_group(p: &GroupElement) -> (r: Option<CurvePoint>)
        requires
            p.wf(),
        ensures
            p@ != 0 ==> (r matches Some(c) && c@.0 == point_x_le_of(p@) && c@.1 == point_y_le_of(
                p@,
            )),
            p@ == 0 ==> r is None,
    {
        if p.is_identity() {
            None
        } else {
            Some(CurvePoint { x: p.x_bytes_le(), y: p.y_bytes_le() })
        }
    }

    /// Decodes the coordinates back into a group element; `None` when they
    /// name no point of the curve. The second clause is the decode half of
    /// the round trip: the coordinates that `from_group` wrote for a
    /// non-identity group element decode to that element.
    pub fn to_group(&self) -> (r: Option<GroupElement>)
        ensures
            r matches Some(p) ==> p.wf() && (forall|d: int|
                (0 < d < scalar_order() && self@.0 == #[trigger] point_x_le_of(d) && self@.1
                    == point_y_le_of(d)) ==> p@ == d),
            r is None ==> (forall|d: int|
                !(0 < d < scalar_order() && self@.0 == #[trigger] point_x_le_of(d) && self@.1
                    == point_y_le_of(d))),
    {
        GroupElement::from_coords_le(self.x.as_slice(), self.y.as_slice())
    }
}

/// A long-term key pair, both halves carried as bytes.
pub struct Keypair {
    sk: Fr,
    vk: CurvePoint,
}

impl View for Keypair {
    type V = (Seq<u8>, (Seq<u8>, Seq<u8>));

    closed spec fn view(&self) -> (Seq<u8>, (Seq<u8>, Seq<u8>)) {
        (self.sk@, self.vk@)
    }
}

impl Clone for Keypair {
    fn clone(&self) -> (r: Self)
        ensures
            r@ == self@,
    {
        Keypair { sk: self.sk.clone(), vk: self.vk.clone() }
    }
}

impl Keypair {
    pub fn new(sk: Fr, vk: CurvePoint) -> (r: Keypair)
        ensures
            r@ == (sk@, vk@),
    {
        Keypair { sk, vk }
    }

    pub fn sk(&self) -> (r: Fr)
        ensures
            r@ == self@.0,
    {
        self.sk.clone()
    }

    pub fn vk(&self) -> (r: CurvePoint)
        ensures
            r@ == self@.1,
    {
        self.vk.clone()
    }
}

/// `256^n`: how many values an `n`-byte string can carry.
spec fn pow256(n: nat) -> int
    decreases n,
{
    if n == 0 {
        1
    } else {
        256 * pow256((n - 1) as nat)
    }
}

/// Encoding then decoding is the identity: the little-endian bytes of a
/// value below `256^n` read back as that value.
proof fn lemma_le_bytes_round_trip(v: int, n: nat)
    requires
        0 <= v < pow256(n),
    ensures
        le_value_of(le_bytes_of(v, n)) == v,
    decreases n,
{
    if n == 0 {
    } else {
        let rest = le_bytes_of(v / 256, (n - 1) as nat);
        let s = seq![(v % 256) as u8] + rest;
        assert(le_bytes_of(v, n) == s);
        assert(s[0] == (v % 256) as u8);
        assert(s.drop_first() =~= rest);
        vstd::arithmetic::div_mod::lemma_multiply_divide_lt(v, 256, pow256((n - 1) as nat));
        lemma_le_bytes_round_trip(v / 256, (n - 1) as nat);
        vstd::arithmetic::div_mod::lemma_fundamental_div_mod(v, 256);
    }
}

/// Round trip through the byte carrier: the canonical little-endian encoding
/// of a scalar, read back modulo the field order, is the scalar itself — so
/// a value that went through `Fr::from_scalar` and `Fr::to_scalar` behaves
/// identically in every subsequent operation.
pub proof fn lemma_scalar_bytes_round_trip(v: int)
    requires
        0 <= v < scalar_order(),
    ensures
        le_value_of(le_bytes_of(v, 32)) % scalar_order() == v,
{
    assert(scalar_order() < pow256(32)) by {
        reveal_with_fuel(pow256, 33);
    }
    lemma_le_bytes_round_trip(v, 32);
    vstd::arithmetic::div_mod::lemma_small_mod(v as nat, scalar_order() as nat);
}

} // verus!
