use schnorr_tokens::an23_proxy_signature::{AN23ProxySignature, DelegationSpec, SigningToken};
use schnorr_tokens::codec::{CurvePoint, Fr, Keypair};
use schnorr_tokens::field::Scalar;
use schnorr_tokens::transcript::{hash, hash_to_field, Message};
use schnorr_tokens::Error;

#[test]
fn pool_exhaustion() {
    let parameters = AN23ProxySignature::setup().unwrap();
    let (sk, vk) = AN23ProxySignature::keygen(&parameters).unwrap();
    let message = Scalar::sample();

    let (mut pool, _) = AN23ProxySignature::delegate(
        &parameters,
        &sk,
        &DelegationSpec {
            number_of_tokens: 2,
        },
    )
    .unwrap();
    assert_eq!(pool.len(), 2);

    let first = AN23ProxySignature::delegated_sign(&parameters, &mut pool, &message).unwrap();
    assert_eq!(pool.len(), 1);
    let second = AN23ProxySignature::delegated_sign(&parameters, &mut pool, &message).unwrap();
    assert_eq!(pool.len(), 0);

    let third = AN23ProxySignature::delegated_sign(&parameters, &mut pool, &message);
    assert!(matches!(third, Err(Error::NoDelegationToken)));

    // the two produced signatures are sound
    let mut state = Vec::new();
    assert!(AN23ProxySignature::verify(&parameters, &vk, &message, &first, &mut state).unwrap());
    assert!(AN23ProxySignature::verify(&parameters, &vk, &message, &second, &mut state).unwrap());
}

#[test]
fn empty_delegation_is_valid_but_unusable() {
    let parameters = AN23ProxySignature::setup().unwrap();
    let (sk, _) = AN23ProxySignature::keygen(&parameters).unwrap();
    let message = Scalar::sample();

    let (mut pool, rev_key) = AN23ProxySignature::delegate(
        &parameters,
        &sk,
        &DelegationSpec {
            number_of_tokens: 0,
        },
    )
    .unwrap();
    assert_eq!(pool.len(), 0);
    assert_eq!(rev_key.len(), 0);

    let outcome = AN23ProxySignature::delegated_sign(&parameters, &mut pool, &message);
    assert!(matches!(outcome, Err(Error::NoDelegationToken)));
}

#[test]
fn delegated_sign_consumes_the_last_token() {
    let parameters = AN23ProxySignature::setup().unwrap();
    let (sk, _) = AN23ProxySignature::keygen(&parameters).unwrap();
    let message = Scalar::sample();

    let (mut pool, rev_key) = AN23ProxySignature::delegate(
        &parameters,
        &sk,
        &DelegationSpec {
            number_of_tokens: 3,
        },
    )
    .unwrap();

    let signature = AN23ProxySignature::delegated_sign(&parameters, &mut pool, &message).unwrap();
    // the nonce embedded in theta is the last minted token's
    assert!(signature.theta.m0.equals(&rev_key[2]));
    // and the revocation key mirrors the nonces of the remaining pool
    assert!(pool[0].m0().equals(&rev_key[0]));
    assert!(pool[1].m0().equals(&rev_key[1]));
}

#[test]
fn tampering_fails_verification() {
    let parameters = AN23ProxySignature::setup().unwrap();
    let (sk, vk) = AN23ProxySignature::keygen(&parameters).unwrap();
    let message = Scalar::sample();
    let signature = AN23ProxySignature::sign(&parameters, &sk, &message, None).unwrap();

    // flipping a bit of the message makes the signature invalid, not an error
    let mut message_bytes = Fr::from_scalar(&message).bytes();
    message_bytes[0] ^= 1;
    let flipped = Scalar::from_le_bytes(&message_bytes);
    assert!(!flipped.equals(&message));
    let decision =
        AN23ProxySignature::verify(&parameters, &vk, &flipped, &signature, &mut vec![]).unwrap();
    assert!(!decision);

    // substituting a random value for each signature component does the same
    let (_, random_point) = AN23ProxySignature::keygen(&parameters).unwrap();

    let mut bad_c0 = signature.clone();
    bad_c0.sigma.c0 = Scalar::sample();
    assert!(
        !AN23ProxySignature::verify(&parameters, &vk, &message, &bad_c0, &mut vec![]).unwrap()
    );

    let mut bad_c1 = signature.clone();
    bad_c1.sigma.c1 = Scalar::sample();
    assert!(
        !AN23ProxySignature::verify(&parameters, &vk, &message, &bad_c1, &mut vec![]).unwrap()
    );

    let mut bad_z1 = signature.clone();
    bad_z1.sigma.z1 = Scalar::sample();
    assert!(
        !AN23ProxySignature::verify(&parameters, &vk, &message, &bad_z1, &mut vec![]).unwrap()
    );

    let mut bad_z0 = signature.clone();
    bad_z0.theta.Z0 = random_point;
    assert!(
        !AN23ProxySignature::verify(&parameters, &vk, &message, &bad_z0, &mut vec![]).unwrap()
    );

    // the untampered signature still verifies
    assert!(
        AN23ProxySignature::verify(&parameters, &vk, &message, &signature, &mut vec![]).unwrap()
    );
}

#[test]
fn signing_is_nondeterministic() {
    let parameters = AN23ProxySignature::setup().unwrap();
    let (sk, vk) = AN23ProxySignature::keygen(&parameters).unwrap();
    let message = Scalar::sample();

    let first = AN23ProxySignature::sign(&parameters, &sk, &message, None).unwrap();
    let second = AN23ProxySignature::sign(&parameters, &sk, &message, None).unwrap();

    // distinct nonces and distinct challenges
    assert!(!first.theta.m0.equals(&second.theta.m0));
    assert!(!first.sigma.c1.equals(&second.sigma.c1));

    // both verify against the same shared state: distinct nonces do not
    // block one another
    let mut state = Vec::new();
    assert!(AN23ProxySignature::verify(&parameters, &vk, &message, &first, &mut state).unwrap());
    assert!(AN23ProxySignature::verify(&parameters, &vk, &message, &second, &mut state).unwrap());

    // but each of them verifies at most once
    let replay = AN23ProxySignature::verify(&parameters, &vk, &message, &first, &mut state);
    assert_eq!(replay, Err(Error::UseOfRevokedToken));
}

#[test]
fn revoke_is_idempotent_in_effect() {
    let parameters = AN23ProxySignature::setup().unwrap();
    let (sk, vk) = AN23ProxySignature::keygen(&parameters).unwrap();
    let message = Scalar::sample();
    let mut rev_state = Vec::new();

    let (mut pool, rev_key) = AN23ProxySignature::delegate(
        &parameters,
        &sk,
        &DelegationSpec {
            number_of_tokens: 2,
        },
    )
    .unwrap();

    AN23ProxySignature::revoke(&parameters, &pool, &rev_key, &mut rev_state).unwrap();
    AN23ProxySignature::revoke(&parameters, &pool, &rev_key, &mut rev_state).unwrap();
    assert_eq!(rev_state.len(), 4); // duplicates are kept but harmless

    let signature = AN23ProxySignature::delegated_sign(&parameters, &mut pool, &message).unwrap();
    let decision =
        AN23ProxySignature::verify(&parameters, &vk, &message, &signature, &mut rev_state);
    assert_eq!(decision, Err(Error::UseOfRevokedToken));
}

#[test]
fn token_round_trip_through_parts() {
    let parameters = AN23ProxySignature::setup().unwrap();
    let (sk, vk) = AN23ProxySignature::keygen(&parameters).unwrap();
    let message = Scalar::sample();

    let (mut pool, _) = AN23ProxySignature::delegate(
        &parameters,
        &sk,
        &DelegationSpec {
            number_of_tokens: 1,
        },
    )
    .unwrap();
    let token = pool.pop().unwrap();
    let rebuilt = SigningToken::from_parts(token.z0(), token.c0(), token.m0());

    let mut rebuilt_pool = vec![rebuilt];
    let signature =
        AN23ProxySignature::delegated_sign(&parameters, &mut rebuilt_pool, &message).unwrap();
    assert!(
        AN23ProxySignature::verify(&parameters, &vk, &message, &signature, &mut vec![]).unwrap()
    );
}

#[test]
fn scalar_byte_round_trip() {
    let s = Scalar::sample();
    let encoded = Fr::from_scalar(&s);
    assert_eq!(encoded.bytes().len(), 32);
    let decoded = encoded.to_scalar();
    assert!(decoded.equals(&s));

    // a short encoding reads little-endian: [1] is the scalar one
    let one = Scalar::from_le_bytes(&[1]);
    let also_one = Scalar::from_le_bytes(&[1, 0, 0, 0]);
    assert!(one.equals(&also_one));
    let zero = Scalar::from_le_bytes(&[]);
    assert!(!one.equals(&zero));
}

#[test]
fn point_byte_round_trip() {
    let parameters = AN23ProxySignature::setup().unwrap();
    let (sk, vk) = AN23ProxySignature::keygen(&parameters).unwrap();
    let message = Scalar::sample();
    let signature = AN23ProxySignature::sign(&parameters, &sk, &message, None).unwrap();

    let encoded = CurvePoint::from_group(&vk).unwrap();
    assert_eq!(encoded.x().len(), 32);
    assert_eq!(encoded.y().len(), 32);
    let decoded = encoded.to_group().unwrap();

    // the decoded key behaves like the original in verification
    assert!(
        AN23ProxySignature::verify(&parameters, &decoded, &message, &signature, &mut vec![])
            .unwrap()
    );

    // coordinates that name no curve point are rejected at decoding
    let garbage = CurvePoint::from_coords(vec![7], vec![9]);
    assert!(garbage.to_group().is_none());
}

#[test]
fn keypair_getters_return_what_was_stored() {
    let parameters = AN23ProxySignature::setup().unwrap();
    let (sk, vk) = AN23ProxySignature::keygen(&parameters).unwrap();

    let sk_bytes = Fr::from_scalar(&sk.0);
    let vk_point = CurvePoint::from_group(&vk).unwrap();
    let keypair = Keypair::new(sk_bytes.clone(), vk_point.clone());

    assert_eq!(keypair.sk().bytes(), sk_bytes.bytes());
    assert_eq!(keypair.vk().x(), vk_point.x());
    assert_eq!(keypair.vk().y(), vk_point.y());
}

#[test]
fn hash_to_field_is_deterministic_and_clears_the_top_byte() {
    let first = hash_to_field(b"transcript bytes");
    let second = hash_to_field(b"transcript bytes");
    assert!(first.equals(&second));

    let other = hash_to_field(b"transcript bytez");
    assert!(!first.equals(&other));

    // the digest's last byte is cleared before reduction, so the canonical
    // little-endian encoding ends in zero
    let encoded = Fr::from_scalar(&first).bytes();
    assert_eq!(encoded[31], 0);

    let empty = hash_to_field(b"");
    let encoded_empty = Fr::from_scalar(&empty).bytes();
    assert_eq!(encoded_empty[31], 0);
}

#[test]
fn hash_of_byte_items_matches_hash_to_field() {
    let items = vec![Message::Bytes(b"ab".to_vec())];
    let direct = hash_to_field(b"ab");
    assert!(hash(items).equals(&direct));

    // order matters: the transcript is an ordered concatenation
    let ab = vec![
        Message::Bytes(b"a".to_vec()),
        Message::Bytes(b"b".to_vec()),
    ];
    assert!(hash(ab).equals(&direct));
    let ba = vec![
        Message::Bytes(b"b".to_vec()),
        Message::Bytes(b"a".to_vec()),
    ];
    assert!(!hash(ba).equals(&direct));
}
