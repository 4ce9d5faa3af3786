use schnorr_tokens::an23_proxy_signature::AN23ProxySignature;
use schnorr_tokens::field::Scalar;
use schnorr_tokens::noir_utils::{
    grumpkin_fr_to_nr_code, grumpkin_point_to_nr_code, grumpkin_sig_to_nr_code,
};

#[test]
fn scalar_literals_render_in_hex_halves() {
    let zero = Scalar::from_le_bytes(&[]);
    assert_eq!(
        grumpkin_fr_to_nr_code(&zero),
        "EmbeddedCurveScalar::new(0x0, 0x0)"
    );

    let one = Scalar::from_le_bytes(&[1]);
    assert_eq!(
        grumpkin_fr_to_nr_code(&one),
        "EmbeddedCurveScalar::new(0x1, 0x0)"
    );

    let byte_ff = Scalar::from_le_bytes(&[0xff]);
    assert_eq!(
        grumpkin_fr_to_nr_code(&byte_ff),
        "EmbeddedCurveScalar::new(0xff, 0x0)"
    );

    // the seventeenth little-endian byte is the first of the high half
    let mut high_bytes = vec![0u8; 17];
    high_bytes[16] = 1;
    let high = Scalar::from_le_bytes(&high_bytes);
    assert_eq!(
        grumpkin_fr_to_nr_code(&high),
        "EmbeddedCurveScalar::new(0x0, 0x1)"
    );
}

#[test]
fn generator_renders_by_its_coordinates() {
    let parameters = AN23ProxySignature::setup().unwrap();
    assert_eq!(
        grumpkin_point_to_nr_code(&parameters.generator),
        "EmbeddedCurvePoint {x: 1, y: 17631683881184975370165255887551781615748388533673675138860, is_infinite: false}"
    );
}

#[test]
fn signature_renders_as_let_bindings() {
    let parameters = AN23ProxySignature::setup().unwrap();
    let (sk, _) = AN23ProxySignature::keygen(&parameters).unwrap();
    let message = Scalar::sample();
    let signature = AN23ProxySignature::sign(&parameters, &sk, &message, None).unwrap();

    let code = grumpkin_sig_to_nr_code(&signature);
    assert!(code.starts_with("    let sigma = Sigma {\n        c0: EmbeddedCurveScalar::new(0x"));
    assert!(code.contains("    let theta = Theta {\n        m0: EmbeddedCurveScalar::new(0x"));
    assert!(code.contains("        Z0: EmbeddedCurvePoint {x: "));
    assert!(code.ends_with("    let sig = Signature { sigma, theta };\n"));
}
