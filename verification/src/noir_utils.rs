//! Renders signature values as source-code literals for an embedded-curve
//! circuit in another ecosystem: a scalar as a two-limb hex constructor call,
//! a point by its decimal coordinates, a whole signature as a block of let
//! bindings.

use crate::an23_proxy_signature::{SigModel, Signature};
use crate::field::{scalar_order, Scalar};
use crate::group::GroupElement;
use ark_ec::{AffineRepr, CurveGroup};
use ark_ff::PrimeField;
use vstd::prelude::*;
use vstd::string::StringExecFns;

verus! {

/// The sixteen lowercase hex digits.
pub open spec fn hex_digit(v: int) -> char {
    seq!['0', '1', '2', '3', '4', '5', '6', '7', '8', '9', 'a', 'b', 'c', 'd', 'e', 'f'][v]
}

/// The minimal lowercase hex rendering of a nonnegative value: what `{:x}`
/// formatting prints.
pub open spec fn hex_chars_of(v: int) -> Seq<char>
    decreases v,
{
    if v < 16 {
        seq![hex_digit(v)]
    } else {
        hex_chars_of(v / 16) + seq![hex_digit(v % 16)]
    }
}

/// The scalar literal rendered for the value `v`: its low and high 128-bit
/// halves as hex constructor arguments.
pub open spec fn scalar_nr_code_of(v: int) -> Seq<char> {
    "EmbeddedCurveScalar::new(0x"@ + hex_chars_of(v % 0x100000000000000000000000000000000int)
        + ", 0x"@ + hex_chars_of(v / 0x100000000000000000000000000000000int) + ")"@
}

/// The decimal rendering of the affine x coordinate of the group element
/// with discrete logarithm `d`: what ark's `Display` prints for it. A point
/// determines its coordinates, so the rendering is a function of `d`.
pub uninterp spec fn point_x_dec_of(d: int) -> Seq<char>;

/// The decimal rendering of the affine y coordinate of the group element
/// with discrete logarithm `d`.
pub uninterp spec fn point_y_dec_of(d: int) -> Seq<char>;

/// The point literal rendered for the group element with discrete logarithm
/// `d`: its affine coordinates in decimal, inside the fixed literal template.
pub open spec fn point_nr_code_of(d: int) -> Seq<char> {
    "EmbeddedCurvePoint {x: "@ + point_x_dec_of(d) + ", y: "@ + point_y_dec_of(d)
        + ", is_infinite: false}"@
}

/// Relies on ark_ff's `into_bigint`: the four 64-bit little-endian limbs of
/// the canonical value of the element.
#[verifier::external_body]
fn scalar_limbs(s: &Scalar) -> (r: (u64, u64, u64, u64))
    requires
        s.wf(),
    ensures
        r.0 == s@ % 0x10000000000000000int,
        r.1 == (s@ / 0x10000000000000000int) % 0x10000000000000000int,
        r.2 == (s@ / 0x100000000000000000000000000000000int) % 0x10000000000000000int,
        r.3 == (s@ / 0x1000000000000000000000000000000000000000000000000int) % 0x10000000000000000int,
{
    let bi = s.repr.inner.into_bigint().0;
    (bi[0], bi[1], bi[2], bi[3])
}

/// Relies on std's `format!` with `{:x}`: minimal lowercase hex digits of
/// each half.
#[verifier::external_body]
fn format_embedded_scalar(lo: u128, hi: u128) -> (r: String)
    ensures
        r@ == "EmbeddedCurveScalar::new(0x"@ + hex_chars_of(lo as int) + ", 0x"@ + hex_chars_of(
            hi as int,
        ) + ")"@,
{
    format!("EmbeddedCurveScalar::new(0x{:x}, 0x{:x})", lo, hi)
}

/// Renders a scalar as an embedded-curve scalar literal, its value split
/// into a low and a high 128-bit half.
pub fn grumpkin_fr_to_nr_code(fr: &Scalar) -> (r: String)
    requires
        fr.wf(),
    ensures
        r@ == scalar_nr_code_of(fr@),
{
    let (b0, b1, b2, b3) = scalar_limbs(fr);
    let lo: u128 = (b0 as u128) + (b1 as u128) * 0x10000000000000000u128;
    let hi: u128 = (b2 as u128) + (b3 as u128) * 0x10000000000000000u128;
    proof {
        let v = fr@;
        let h = v / 0x100000000000000000000000000000000int;
        vstd::arithmetic::div_mod::lemma_breakdown(
            v,
            0x10000000000000000int,
            0x10000000000000000int,
        );
        assert(lo == v % 0x100000000000000000000000000000000int);
        vstd::arithmetic::div_mod::lemma_breakdown(
            h,
            0x10000000000000000int,
            0x10000000000000000int,
        );
        vstd::arithmetic::div_mod::lemma_div_denominator(
            v,
            0x100000000000000000000000000000000int,
            0x10000000000000000int,
        );
        assert(h / 0x10000000000000000int
            == v / 0x1000000000000000000000000000000000000000000000000int);
        vstd::arithmetic::div_mod::lemma_multiply_divide_lt(
            v,
            0x100000000000000000000000000000000int,
            0x100000000000000000000000000000000int,
        );
        vstd::arithmetic::div_mod::lemma_small_mod(
            h as nat,
            0x100000000000000000000000000000000nat,
        );
        assert(hi == v / 0x100000000000000000000000000000000int);
    }
    format_embedded_scalar(lo, hi)
}

/// Relies on ark's `Display` for base-field elements: the decimal rendering
/// of the canonical value of each affine coordinate, a function of the point
/// alone, placed into the template that the `ensures` spells out. The
/// identity has no affine coordinates and is left out.
#[verifier::external_body]
pub fn grumpkin_point_to_nr_code(point: &GroupElement) -> (r: String)
    requires
        point.wf(),
        point@ != 0,
    ensures
        r@ == "EmbeddedCurvePoint {x: "@ + point_x_dec_of(point@) + ", y: "@ + point_y_dec_of(
            point@,
        ) + ", is_infinite: false}"@,
{
    let aff = point.repr.inner.into_affine();
    format!("EmbeddedCurvePoint {{x: {}, y: {}, is_infinite: false}}", aff.x().unwrap(), aff.y().unwrap())
}

/// The block of let bindings rendered for a whole signature.
pub open spec fn sig_nr_code_of(s: SigModel) -> Seq<char> {
    "    let sigma = Sigma {\n"@ + "        c0: "@ + scalar_nr_code_of(s.c0) + ",\n"@
        + "        c1: "@ + scalar_nr_code_of(s.c1) + ",\n"@ + "        z1: "@
        + scalar_nr_code_of(s.z1) + "\n"@ + "    };\n"@ + "    let theta = Theta {\n"@
        + "        m0: "@ + scalar_nr_code_of(s.m0) + ",\n"@ + "        Z0: "@ + point_nr_code_of(
        s.z0p,
    ) + "\n"@ + "    };\n"@ + "    let sig = Signature { sigma, theta };\n"@
}

/// Renders a whole signature as a block of let bindings: the `sigma` triple,
/// the `theta` pair, and the signature built from them.
pub fn grumpkin_sig_to_nr_code(signature: &Signature) -> (r: String)
    requires
        crate::an23_proxy_signature::sig_wf(signature@),
        signature@.z0p != 0,
    ensures
        r@ == sig_nr_code_of(signature@),
{
    let mut s = String::new();
    s.append("    let sigma = Sigma {\n");
    s.append("        c0: ");
    let c0_code = grumpkin_fr_to_nr_code(&signature.sigma.c0);
    s.append(c0_code.as_str());
    s.append(",\n");
    s.append("        c1: ");
    let c1_code = grumpkin_fr_to_nr_code(&signature.sigma.c1);
    s.append(c1_code.as_str());
    s.append(",\n");
    s.append("        z1: ");
    let z1_code = grumpkin_fr_to_nr_code(&signature.sigma.z1);
    s.append(z1_code.as_str());
    s.append("\n");
    s.append("    };\n");
    s.append("    let theta = Theta {\n");
    s.append("        m0: ");
    let m0_code = grumpkin_fr_to_nr_code(&signature.theta.m0);
    s.append(m0_code.as_str());
    s.append(",\n");
    s.append("        Z0: ");
    let z0_code = grumpkin_point_to_nr_code(&signature.theta.Z0);
    s.append(z0_code.as_str());
    s.append("\n");
    s.append("    };\n");
    s.append("    let sig = Signature { sigma, theta };\n");
    proof {
        assert(s@ =~= sig_nr_code_of(signature@));
    }
    s
}

} // verus!
