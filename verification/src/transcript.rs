use crate::field::{be_bytes32, le_value_of, scalar_order, Scalar};
use crate::group::{point_bytes_of, GroupElement};
use blake2::Digest;
use vstd::prelude::*;

verus! {

/// The 32-byte Blake2s-256 digest of a byte string.
pub uninterp spec fn blake2s_of(data: Seq<u8>) -> Seq<u8>;

/// Relies on blake2's `Blake2s256`: a 32-byte digest that depends on the
/// input bytes alone.
#[verifier::external_body]
fn blake2s_digest(data: &[u8]) -> (r: Vec<u8>)
    ensures
        r@ == blake2s_of(data@),
        r@.len() == 32,
{
    blake2::Blake2s256::digest(data).to_vec()
}

/// The scalar that `hash_to_field` derives from a byte string: the Blake2s
/// digest with its last byte cleared, read as a little-endian integer and
/// reduced modulo the scalar field order. Clearing the top byte keeps the
/// integer below the 254-bit order, so the reduction does not wrap.
pub open spec fn hash_to_scalar(data: Seq<u8>) -> int {
    le_value_of(blake2s_of(data).update(31, 0)) % scalar_order()
}

/// Maps arbitrary bytes to a scalar-field element, for use as a Fiat-Shamir
/// challenge.
pub fn hash_to_field(data: &[u8]) -> (r: Scalar)
    ensures
        r@ == hash_to_scalar(data@),
        r.wf(),
{
    let mut digest = blake2s_digest(data);
    digest.truncate(31);
    digest.push(0);
    proof {
        assert(digest@ =~= blake2s_of(data@).update(31, 0));
    }
    Scalar::from_le_bytes(digest.as_slice())
}

/// One item of a hash transcript: a scalar, a group element, or raw bytes.
pub enum Message {
    Field(Scalar),
    Curve(GroupElement),
    Bytes(Vec<u8>),
}

impl Message {
    pub open spec fn wf(&self) -> bool {
        match self {
            Message::Field(s) => s.wf(),
            Message::Curve(p) => p.wf(),
            Message::Bytes(_) => true,
        }
    }

    /// The canonical encoding of the item: scalars big-endian on 32 bytes,
    /// group elements in their uncompressed affine encoding, bytes as they
    /// stand.
    pub open spec fn bytes_of(&self) -> Seq<u8> {
        match self {
            Message::Field(s) => be_bytes32(s@),
            Message::Curve(p) => point_bytes_of(p@),
            Message::Bytes(b) => b@,
        }
    }

    pub fn to_bytes(&self) -> (r: Vec<u8>)
        requires
            self.wf(),
        ensures
            r@ == self.bytes_of(),
    {
        match self {
            Message::Field(s) => s.to_bytes_be(),
            Message::Curve(p) => p.to_bytes(),
            Message::Bytes(b) => {
                let mut r: Vec<u8> = Vec::new();
                let mut i: usize = 0;
                while i < b.len()
                    invariant
                        0 <= i <= b@.len(),
                        r@ == b@.subrange(0, i as int),
                    decreases b@.len() - i,
                {
                    r.push(b[i]);
                    i = i + 1;
                    proof {
                        assert(r@ =~= b@.subrange(0, i as int));
                    }
                }
                proof {
                    assert(r@ =~= b@);
                }
                r
            },
        }
    }
}

/// The ordered concatenation of the encodings of a sequence of items: the
/// preimage handed to the hash.
pub open spec fn preimage_of(items: Seq<Message>) -> Seq<u8>
    decreases items.len(),
{
    if items.len() == 0 {
        Seq::empty()
    } else {
        items[0].bytes_of() + preimage_of(items.drop_first())
    }
}

proof fn lemma_preimage_take_step(items: Seq<Message>, i: int)
    requires
        0 <= i < items.len(),
    ensures
        preimage_of(items.take(i + 1)) == preimage_of(items.take(i)) + items[i].bytes_of(),
    decreases i,
{
    if i == 0 {
        assert(items.take(1).drop_first() =~= Seq::<Message>::empty());
        assert(items.take(0) =~= Seq::<Message>::empty());
        assert(items.take(1)[0] == items[0]);
        assert(preimage_of(items.take(1)) == items[0].bytes_of() + preimage_of(
            Seq::<Message>::empty(),
        ));
        assert(preimage_of(items.take(1)) =~= items[0].bytes_of());
        assert(preimage_of(items.take(0)) + items[0].bytes_of() =~= items[0].bytes_of());
    } else {
        lemma_preimage_take_step(items.drop_first(), i - 1);
        assert(items.take(i + 1).drop_first() =~= items.drop_first().take(i));
        assert(items.take(i).drop_first() =~= items.drop_first().take(i - 1));
        assert(items.take(i + 1)[0] == items[0]);
        assert(items.take(i)[0] == items[0]);
        assert(items.drop_first()[i - 1] == items[i]);
        assert(preimage_of(items.take(i + 1)) == items[0].bytes_of() + preimage_of(
            items.drop_first().take(i),
        ));
        assert(preimage_of(items.take(i)) == items[0].bytes_of() + preimage_of(
            items.drop_first().take(i - 1),
        ));
        assert((items[0].bytes_of() + preimage_of(items.drop_first().take(i - 1)))
            + items[i].bytes_of() =~= items[0].bytes_of() + (preimage_of(
            items.drop_first().take(i - 1),
        ) + items[i].bytes_of()));
    }
}

/// The Fiat-Shamir challenge derived from a transcript of one scalar and two
/// group elements, in that order; `m` is the scalar and `p1`, `p2` the
/// discrete logarithms of the group elements.
pub open spec fn challenge_of(m: int, p1: int, p2: int) -> int {
    hash_to_scalar(be_bytes32(m) + point_bytes_of(p1) + point_bytes_of(p2))
}

/// Hashes an ordered transcript of items to a scalar challenge.
pub fn hash(message: Vec<Message>) -> (r: Scalar)
    requires
        forall|i: int| 0 <= i < message@.len() ==> (#[trigger] message@[i]).wf(),
    ensures
        r@ == hash_to_scalar(preimage_of(message@)),
        r.wf(),
{
    let mut preimage: Vec<u8> = Vec::new();
    let mut i: usize = 0;
    while i < message.len()
        invariant
            0 <= i <= message@.len(),
            forall|j: int| 0 <= j < message@.len() ==> (#[trigger] message@[j]).wf(),
            preimage@ == preimage_of(message@.take(i as int)),
        decreases message@.len() - i,
    {
        let mut item_bytes = message[i].to_bytes();
        preimage.append(&mut item_bytes);
        proof {
            lemma_preimage_take_step(message@, i as int);
        }
        i = i + 1;
    }
    proof {
        assert(message@.take(message@.len() as int) =~= message@);
    }
    hash_to_field(preimage.as_slice())
}

} // verus!
