//! The AN23 proxy signature scheme: a delegator holding a long-term key mints
//! single-use delegation tokens; a proxy turns a token into a signature on a
//! message of its choice; anyone holding the verification key checks the
//! signature against a shared revocation state, which also records every
//! nonce that has been spent or revoked.

use crate::field::{fadd, fmul, fneg, lemma_commitment_recovery, scalar_order, Scalar};
use crate::group::GroupElement;
use crate::transcript::{challenge_of, hash, preimage_of, Message};
use crate::Error;
use vstd::prelude::*;

verus! {

/// Scheme-wide public constants: the fixed generator of the group.
#[derive(Clone)]
pub struct Parameters {
    pub generator: GroupElement,
}

/// The delegator's long-term secret: one scalar.
#[derive(Clone)]
pub struct SigningKey(pub Scalar);

/// The delegator's long-term public key: the secret times the generator.
pub type VerificationKey = GroupElement;

/// A delegation policy bound. Accepted by `sign`, but not enforced by the
/// signing logic.
pub struct Policy {
    pub amount: u64,
}

/// How many single-use tokens a `delegate` call mints.
pub struct DelegationSpec {
    pub number_of_tokens: u64,
}

/// A token produced by the original signer and used by the proxy to produce a
/// signature. It is removed from its pool when used, never merely marked.
#[derive(Clone)]
pub struct SigningToken {
    z0: Scalar,  // the blinded secret: the response of the inner Schnorr layer
    c0: Scalar,  // the inner challenge
    m0: Scalar,  // the nonce that identifies the token for its whole life
}

/// An AN23 signature. Can be produced by either the original signer or the
/// proxy.
#[derive(Clone)]
pub struct Signature {
    pub sigma: Sigma,
    pub theta: Theta,
}

/// The challenge/response part of a signature.
#[derive(Clone)]
pub struct Sigma {
    pub c0: Scalar,
    pub c1: Scalar,
    pub z1: Scalar,
}

/// The public token part of a signature: the token's nonce and the public
/// commitment to its blinded secret.
#[derive(Clone)]
#[allow(non_snake_case)]
pub struct Theta {
    pub m0: Scalar,
    pub Z0: GroupElement,
}

/// The mathematical content of a token: the values its three scalars stand
/// for.
pub struct TokenModel {
    pub z0: int,
    pub c0: int,
    pub m0: int,
}

impl View for SigningToken {
    type V = TokenModel;

    closed spec fn view(&self) -> TokenModel {
        TokenModel { z0: self.z0@, c0: self.c0@, m0: self.m0@ }
    }
}

impl SigningToken {
    /// Rebuilds a token from its three scalars, for callers that carried it
    /// as plain values.
    pub fn from_parts(z0: Scalar, c0: Scalar, m0: Scalar) -> (r: SigningToken)
        ensures
            r@ == (TokenModel { z0: z0@, c0: c0@, m0: m0@ }),
    {
        SigningToken { z0, c0, m0 }
    }

    pub fn z0(&self) -> (r: Scalar)
        ensures
            r@ == self@.z0,
    {
        self.z0.clone()
    }

    pub fn c0(&self) -> (r: Scalar)
        ensures
            r@ == self@.c0,
    {
        self.c0.clone()
    }

    pub fn m0(&self) -> (r: Scalar)
        ensures
            r@ == self@.m0,
    {
        self.m0.clone()
    }
}

/// The mathematical content of a signature: its three scalars, the nonce, and
/// the discrete logarithm of the published commitment `Z0`.
pub struct SigModel {
    pub c0: int,
    pub c1: int,
    pub z1: int,
    pub m0: int,
    pub z0p: int,
}

impl View for Signature {
    type V = SigModel;

    open spec fn view(&self) -> SigModel {
        SigModel {
            c0: self.sigma.c0@,
            c1: self.sigma.c1@,
            z1: self.sigma.z1@,
            m0: self.theta.m0@,
            z0p: self.theta.Z0@,
        }
    }
}

pub open spec fn token_wf(t: TokenModel) -> bool {
    &&& 0 <= t.z0 < scalar_order()
    &&& 0 <= t.c0 < scalar_order()
    &&& 0 <= t.m0 < scalar_order()
}

/// What `generate_delegation_token` guarantees of a token, relative to the
/// secret `x`, the verification key `vk` hashed into the inner challenge, and
/// the generator `g` (the last two as discrete logarithms): the token hides a
/// fresh ephemeral `r0` whose commitment was hashed into `c0`, and `z0` is
/// the Schnorr response `r0 + c0·x`.
pub open spec fn token_for(t: TokenModel, x: int, vk: int, g: int) -> bool {
    &&& token_wf(t)
    &&& exists|r0: int|
        {
            &&& 0 <= r0 < scalar_order()
            &&& t.c0 == challenge_of(t.m0, vk, fmul(r0, g))
            &&& t.z0 == fadd(r0, fmul(t.c0, x))
        }
}

/// A token honestly minted under the secret `x`: the verification key hashed
/// into its challenge is `x·g`.
pub open spec fn token_valid(t: TokenModel, x: int, g: int) -> bool {
    token_for(t, x, fmul(x, g), g)
}

pub open spec fn sig_wf(s: SigModel) -> bool {
    &&& 0 <= s.c0 < scalar_order()
    &&& 0 <= s.c1 < scalar_order()
    &&& 0 <= s.z1 < scalar_order()
    &&& 0 <= s.m0 < scalar_order()
    &&& 0 <= s.z0p < scalar_order()
}

/// What `delegated_sign` guarantees of its signature, relative to the token
/// it consumed: the inner layer (`c0`, `m0`) is carried over unchanged, `Z0`
/// publishes the commitment to the token's blinded secret, and the outer
/// layer is a Schnorr signature on the message under that blinded secret.
pub open spec fn sig_from_token(s: SigModel, t: TokenModel, msg: int, g: int) -> bool {
    &&& sig_wf(s)
    &&& s.c0 == t.c0
    &&& s.m0 == t.m0
    &&& s.z0p == fmul(t.z0, g)
    &&& exists|r1: int|
        {
            &&& 0 <= r1 < scalar_order()
            &&& s.c1 == challenge_of(msg, s.z0p, fmul(r1, g))
            &&& s.z1 == fadd(r1, fmul(s.c1, t.z0))
        }
}

/// A signature produced from some honestly minted token of the secret `x`:
/// what `sign` guarantees, and what `delegate` followed by `delegated_sign`
/// guarantees.
pub open spec fn honestly_signed(s: SigModel, msg: int, x: int, g: int) -> bool {
    exists|t: TokenModel| #[trigger]
        token_valid(t, x, g) && sig_from_token(s, t, msg, g)
}

/// Whether the nonce `m` is recorded in the revocation state.
pub open spec fn is_revoked(m: int, state: Seq<Scalar>) -> bool {
    exists|i: int| 0 <= i < state.len() && state[i]@ == m
}

/// The cryptographic acceptance condition of `verify`: both Fiat-Shamir
/// challenges recompute from the algebraically recovered commitments. `vk`
/// and `g` are the discrete logarithms of the verification key and the
/// generator.
pub open spec fn verify_checks(s: SigModel, msg: int, vk: int, g: int) -> bool {
    let r0p = fadd(s.z0p, fmul(fneg(s.c0), vk));
    let r1p = fadd(fmul(s.z1, g), fmul(fneg(s.c1), s.z0p));
    &&& s.c0 == challenge_of(s.m0, vk, r0p)
    &&& s.c1 == challenge_of(msg, s.z0p, r1p)
}

/// Derives the Fiat-Shamir challenge of one scalar and two group elements,
/// hashed in that order.
fn challenge(m: &Scalar, p1: &GroupElement, p2: &GroupElement) -> (r: Scalar)
    requires
        m.wf(),
        p1.wf(),
        p2.wf(),
    ensures
        r@ == challenge_of(m@, p1@, p2@),
        r.wf(),
{
    let mut items: Vec<Message> = Vec::new();
    items.push(Message::Field(m.clone()));
    items.push(Message::Curve(p1.clone()));
    items.push(Message::Curve(p2.clone()));
    let r = hash(items);
    proof {
        let s0 = seq![Message::Field(*m), Message::Curve(*p1), Message::Curve(*p2)];
        let s1 = seq![Message::Curve(*p1), Message::Curve(*p2)];
        let s2 = seq![Message::Curve(*p2)];
        assert(items@ =~= s0);
        assert(s0.drop_first() =~= s1);
        assert(s1.drop_first() =~= s2);
        assert(s2.drop_first() =~= Seq::<Message>::empty());
        assert(preimage_of(s2) == s2[0].bytes_of() + preimage_of(Seq::<Message>::empty()));
        assert(preimage_of(s1) == s1[0].bytes_of() + preimage_of(s2));
        assert(preimage_of(s0) == s0[0].bytes_of() + preimage_of(s1));
        assert(preimage_of(s0) =~= crate::field::be_bytes32(m@) + crate::group::point_bytes_of(
            p1@,
        ) + crate::group::point_bytes_of(p2@));
    }
    r
}

/// The AN23 proxy signature scheme over the Grumpkin curve.
pub struct AN23ProxySignature;

impl AN23ProxySignature {
    /// Fixes the generator of the group. The group is a process-wide
    /// constant, so setup always succeeds.
    pub fn setup() -> (r: Result<Parameters, Error>)
        ensures
            r is Ok,
            r->Ok_0.generator@ == 1,
            r->Ok_0.generator.wf(),
    {
        Ok(Parameters { generator: GroupElement::generator() })
    }

    /// Samples a fresh secret scalar; the verification key is the secret
    /// times the generator.
    pub fn keygen(parameters: &Parameters) -> (r: Result<(SigningKey, VerificationKey), Error>)
        requires
            parameters.generator.wf(),
        ensures
            r is Ok,
            r->Ok_0.0.0.wf(),
            r->Ok_0.1.wf(),
            r->Ok_0.1@ == fmul(r->Ok_0.0.0@, parameters.generator@),
    {
        let signing_key = Scalar::sample();
        let verification_key = parameters.generator.mul_scalar(&signing_key);
        Ok((SigningKey(signing_key), verification_key))
    }

    /// Mints one single-use token: a Schnorr proof of knowledge of the secret
    /// bound to a fresh nonce `m0`, whose response `z0` doubles as the
    /// blinded one-time secret of the outer signing layer.
    fn generate_delegation_token(
        parameters: &Parameters,
        sk: &SigningKey,
        vk: &VerificationKey,
    ) -> (r: Result<SigningToken, Error>)
        requires
            parameters.generator.wf(),
            sk.0.wf(),
            vk.wf(),
        ensures
            r is Ok,
            token_for(r->Ok_0@, sk.0@, vk@, parameters.generator@),
    {
        let m0 = Scalar::sample();
        let r0 = Scalar::sample();
        let r0_commit = parameters.generator.mul_scalar(&r0);
        let c0 = challenge(&m0, vk, &r0_commit);
        let z0 = r0.add_to(&c0.mul_by(&sk.0));
        let token = SigningToken { z0, c0, m0 };
        proof {
            let w = r0@;
            assert(0 <= w < scalar_order() && token@.c0 == challenge_of(
                token@.m0,
                vk@,
                fmul(w, parameters.generator@),
            ) && token@.z0 == fadd(w, fmul(token@.c0, sk.0@)));
        }
        Ok(token)
    }

    /// Self-delegation: mints one fresh token and immediately consumes it.
    /// The policy argument is accepted but not enforced.
    pub fn sign(
        parameters: &Parameters,
        sk: &SigningKey,
        message: &Scalar,
        _policy: Option<&Policy>,
    ) -> (r: Result<Signature, Error>)
        requires
            parameters.generator.wf(),
            sk.0.wf(),
            message.wf(),
        ensures
            r is Ok,
            honestly_signed(r->Ok_0@, message@, sk.0@, parameters.generator@),
    {
        let vk = parameters.generator.mul_scalar(&sk.0);
        let token = match Self::generate_delegation_token(parameters, sk, &vk) {
            Ok(t) => t,
            Err(e) => {
                return Err(e);
            },
        };
        let ghost token_model = token@;
        let mut pool: Vec<SigningToken> = Vec::new();
        pool.push(token);
        let r = Self::delegated_sign(parameters, &mut pool, message);
        proof {
            assert(token_valid(token_model, sk.0@, parameters.generator@));
            assert(r is Ok && sig_from_token(r->Ok_0@, token_model, message@,
                parameters.generator@));
        }
        r
    }

    /// Mints `number_of_tokens` single-use tokens. Returns the token pool,
    /// handed to the proxy, and the parallel list of their nonces, retained
    /// by the delegator as its revocation key.
    pub fn delegate(
        parameters: &Parameters,
        sk: &SigningKey,
        deg_spec: &DelegationSpec,
    ) -> (r: Result<(Vec<SigningToken>, Vec<Scalar>), Error>)
        requires
            parameters.generator.wf(),
            sk.0.wf(),
        ensures
            r is Ok,
            r->Ok_0.0@.len() == deg_spec.number_of_tokens,
            r->Ok_0.1@.len() == deg_spec.number_of_tokens,
            forall|i: int|
                0 <= i < deg_spec.number_of_tokens ==> (#[trigger] r->Ok_0.1@[i])@
                    == r->Ok_0.0@[i]@.m0 && r->Ok_0.1@[i].wf(),
            forall|i: int|
                0 <= i < deg_spec.number_of_tokens ==> token_valid(
                    (#[trigger] r->Ok_0.0@[i])@,
                    sk.0@,
                    parameters.generator@,
                ),
    {
        let vk = parameters.generator.mul_scalar(&sk.0);

        let mut delegation_info: Vec<SigningToken> = Vec::new();
        let mut rev_key: Vec<Scalar> = Vec::new();

        let mut minted: u64 = 0;
        while minted < deg_spec.number_of_tokens
            invariant
                parameters.generator.wf(),
                sk.0.wf(),
                vk.wf(),
                vk@ == fmul(sk.0@, parameters.generator@),
                0 <= minted <= deg_spec.number_of_tokens,
                delegation_info@.len() == minted,
                rev_key@.len() == minted,
                forall|i: int|
                    0 <= i < minted ==> (#[trigger] rev_key@[i])@ == delegation_info@[i]@.m0
                        && rev_key@[i].wf(),
                forall|i: int|
                    0 <= i < minted ==> token_valid(
                        (#[trigger] delegation_info@[i])@,
                        sk.0@,
                        parameters.generator@,
                    ),
            decreases deg_spec.number_of_tokens - minted,
        {
            let signing_token = match Self::generate_delegation_token(parameters, sk, &vk) {
                Ok(t) => t,
                Err(e) => {
                    return Err(e);
                },
            };
            rev_key.push(signing_token.m0.clone());  // store m0 as the revocation key
            delegation_info.push(signing_token);
            minted = minted + 1;
        }

        Ok((delegation_info, rev_key))
    }

    /// Consumes the last token of the pool — `NoDelegationToken` if the pool
    /// is empty — and signs the message under the token's blinded secret
    /// `z0`, publishing the commitment `Z0 = z0·generator` and the token's
    /// nonce so a verifier can check both layers.
    pub fn delegated_sign(
        parameters: &Parameters,
        delegation_info: &mut Vec<SigningToken>,
        message: &Scalar,
    ) -> (r: Result<Signature, Error>)
        requires
            parameters.generator.wf(),
            message.wf(),
            forall|i: int|
                0 <= i < old(delegation_info)@.len() ==> token_wf(
                    (#[trigger] old(delegation_info)@[i])@,
                ),
        ensures
            old(delegation_info)@.len() == 0 ==> r == Err::<Signature, Error>(
                Error::NoDelegationToken,
            ) && final(delegation_info)@ == old(delegation_info)@,
            old(delegation_info)@.len() > 0 ==> {
                &&& r is Ok
                &&& final(delegation_info)@ == old(delegation_info)@.drop_last()
                &&& sig_from_token(
                    r->Ok_0@,
                    old(delegation_info)@.last()@,
                    message@,
                    parameters.generator@,
                )
            },
    {
        let signing_token = match delegation_info.pop() {
            Some(t) => t,
            None => {
                return Err(Error::NoDelegationToken);
            },
        };

        // Second layer: uses z0 as the signing key and signs the real message.
        let z0_commit = parameters.generator.mul_scalar(&signing_token.z0);
        let r1 = Scalar::sample();
        let r1_commit = parameters.generator.mul_scalar(&r1);
        let c1 = challenge(message, &z0_commit, &r1_commit);
        let z1 = r1.add_to(&c1.mul_by(&signing_token.z0));

        let sigma = Sigma { c0: signing_token.c0, c1, z1 };
        let theta = Theta { m0: signing_token.m0, Z0: z0_commit };
        let signature = Signature { sigma, theta };

        proof {
            let w = r1@;
            assert(0 <= w < scalar_order() && signature@.c1 == challenge_of(
                message@,
                signature@.z0p,
                fmul(w, parameters.generator@),
            ) && signature@.z1 == fadd(w, fmul(signature@.c1, old(delegation_info)@.last()@.z0)));
        }

        Ok(signature)
    }

    /// Appends every nonce of the revocation key to the shared revocation
    /// state. Duplicates are harmless: membership, not count, is what the
    /// state answers. Never fails.
    pub fn revoke(
        _parameters: &Parameters,
        _delegation_info: &Vec<SigningToken>,
        rev_key: &Vec<Scalar>,
        rev_state: &mut Vec<Scalar>,
    ) -> (r: Result<(), Error>)
        ensures
            r is Ok,
            final(rev_state)@ == old(rev_state)@ + rev_key@,
    {
        let mut i: usize = 0;
        while i < rev_key.len()
            invariant
                0 <= i <= rev_key@.len(),
                rev_state@ == old(rev_state)@ + rev_key@.take(i as int),
            decreases rev_key@.len() - i,
        {
            rev_state.push(rev_key[i].clone());
            i = i + 1;
            proof {
                assert(old(rev_state)@ + rev_key@.take(i - 1) + seq![rev_key@[i - 1]]
                    =~= old(rev_state)@ + rev_key@.take(i as int));
            }
        }
        proof {
            assert(rev_key@.take(rev_key@.len() as int) =~= rev_key@);
        }
        Ok(())
    }

    /// Checks a signature against the shared revocation state.
    ///
    /// A nonce already in the state fails with `UseOfRevokedToken`, whether
    /// it got there by an explicit `revoke` or by a prior successful
    /// verification. Otherwise the two Schnorr layers are recomputed: a
    /// mismatch is reported as `Ok(false)`, an expected outcome, not an
    /// error. On success the nonce is recorded, so the same signature can
    /// verify at most once against a given state.
    pub fn verify(
        parameters: &Parameters,
        vk: &VerificationKey,
        message: &Scalar,
        signature: &Signature,
        rev_state: &mut Vec<Scalar>,
    ) -> (r: Result<bool, Error>)
        requires
            parameters.generator.wf(),
            vk.wf(),
            message.wf(),
            sig_wf(signature@),
        ensures
            is_revoked(signature@.m0, old(rev_state)@) ==> r == Err::<bool, Error>(
                Error::UseOfRevokedToken,
            ) && final(rev_state)@ == old(rev_state)@,
            !is_revoked(signature@.m0, old(rev_state)@) ==> {
                &&& r is Ok
                &&& r->Ok_0 == verify_checks(signature@, message@, vk@, parameters.generator@)
                &&& (verify_checks(signature@, message@, vk@, parameters.generator@)
                    ==> final(rev_state)@ == old(rev_state)@.push(signature.theta.m0))
                &&& (!verify_checks(signature@, message@, vk@, parameters.generator@)
                    ==> final(rev_state)@ == old(rev_state)@)
            },
    {
        let mut i: usize = 0;
        while i < rev_state.len()
            invariant
                0 <= i <= rev_state@.len(),
                rev_state@ == old(rev_state)@,
                sig_wf(signature@),
                forall|j: int| 0 <= j < i ==> (#[trigger] rev_state@[j])@ != signature@.m0,
            decreases rev_state@.len() - i,
        {
            if rev_state[i].equals(&signature.theta.m0) {
                return Err(Error::UseOfRevokedToken);  // token is revoked
            }
            i = i + 1;
        }

        //       R0 = Z0 + [-c0]X
        // => [r0]G = [z0]G - [c0 * x]G
        // =>    z0 = r0 + c0 * x
        let r0_commit = signature.theta.Z0.add_point(&vk.mul_scalar(&signature.sigma.c0.neg_of()));
        //       R1 = [z1]G + [-c1]Z0
        // => [r1]G = [z1]G + [-c1 * z0]G
        // =>    z1 = r1 + c1 * z0
        let r1_commit = parameters.generator.mul_scalar(&signature.sigma.z1).add_point(
            &signature.theta.Z0.mul_scalar(&signature.sigma.c1.neg_of()),
        );

        let c0_check = challenge(&signature.theta.m0, vk, &r0_commit);
        if !c0_check.equals(&signature.sigma.c0) {
            return Ok(false);
        }

        let c1_check = challenge(message, &signature.theta.Z0, &r1_commit);
        if !c1_check.equals(&signature.sigma.c1) {
            return Ok(false);
        }

        rev_state.push(signature.theta.m0.clone());

        Ok(true)
    }
}

/// Completeness of the scheme: a signature produced from any honestly minted
/// token of the secret `x` — by `sign`, or by `delegate` followed by
/// `delegated_sign` — passes both recomputed challenge checks of `verify`
/// against the verification key `x·g`.
pub proof fn lemma_honest_signature_verifies(s: SigModel, msg: int, x: int, g: int)
    requires
        0 <= x < scalar_order(),
        0 <= g < scalar_order(),
        honestly_signed(s, msg, x, g),
    ensures
        verify_checks(s, msg, fmul(x, g), g),
{
    let t = choose|t: TokenModel| #[trigger]
        token_valid(t, x, g) && sig_from_token(s, t, msg, g);
    lemma_delegated_signature_verifies(s, t, msg, x, g);
}

/// Delegation completeness, token by token: a signature that `delegated_sign`
/// produced from a token that `delegate` minted under the secret `x` passes
/// both recomputed challenge checks of `verify` against the verification key
/// `x·g`.
pub proof fn lemma_delegated_signature_verifies(
    s: SigModel,
    t: TokenModel,
    msg: int,
    x: int,
    g: int,
)
    requires
        0 <= x < scalar_order(),
        0 <= g < scalar_order(),
        token_valid(t, x, g),
        sig_from_token(s, t, msg, g),
    ensures
        verify_checks(s, msg, fmul(x, g), g),
{
    let vk = fmul(x, g);
    let r0 = choose|r0: int|
        {
            &&& 0 <= r0 < scalar_order()
            &&& t.c0 == challenge_of(t.m0, vk, fmul(r0, g))
            &&& t.z0 == fadd(r0, fmul(t.c0, x))
        };
    let r1 = choose|r1: int|
        {
            &&& 0 <= r1 < scalar_order()
            &&& s.c1 == challenge_of(msg, s.z0p, fmul(r1, g))
            &&& s.z1 == fadd(r1, fmul(s.c1, t.z0))
        };
    // The inner layer: the recovered commitment is the minting ephemeral's.
    lemma_commitment_recovery(g, r0, t.c0, x);
    assert(fadd(s.z0p, fmul(fneg(s.c0), vk)) == fmul(r0, g));
    // The outer layer: the recovered commitment is the signing ephemeral's,
    // with the blinded secret z0 in the role of the key.
    lemma_commitment_recovery(g, r1, s.c1, t.z0);
    assert(fadd(fmul(s.z1, g), fmul(fneg(s.c1), s.z0p)) == fmul(r1, g));
}

/// Single use: a successful verification pushes the signature's nonce onto
/// the revocation state, and in the new state that nonce is revoked — so an
/// immediately repeated `verify` of the same signature against the same
/// state fails with `UseOfRevokedToken`, however valid the signature is.
pub proof fn lemma_spent_nonce_is_revoked(m0: Scalar, pre: Seq<Scalar>, post: Seq<Scalar>)
    requires
        post == pre.push(m0),
    ensures
        is_revoked(m0@, post),
{
    assert(post[pre.len() as int]@ == m0@);
}

/// Issuer revocation: after `revoke` appended a revocation key to the state,
/// every nonce of that key is revoked in the new state.
pub proof fn lemma_revoked_key_member(
    rev_key: Seq<Scalar>,
    pre: Seq<Scalar>,
    post: Seq<Scalar>,
    i: int,
)
    requires
        post == pre + rev_key,
        0 <= i < rev_key.len(),
    ensures
        is_revoked(rev_key[i]@, post),
{
    assert(post[pre.len() + i]@ == rev_key[i]@);
}

/// Issuer revocation precedes signing validity: when the state holds every
/// nonce of the revocation key that `delegate` returned beside a token pool,
/// and a signature later consumed the last token of that pool, the
/// signature's nonce is revoked — so `verify` reports `UseOfRevokedToken`
/// even though the signature is cryptographically well-formed.
pub proof fn lemma_issuer_revocation(
    info: Seq<SigningToken>,
    rev_key: Seq<Scalar>,
    pre: Seq<Scalar>,
    post: Seq<Scalar>,
    s: SigModel,
)
    requires
        info.len() > 0,
        rev_key.len() == info.len(),
        forall|i: int| 0 <= i < info.len() ==> (#[trigger] rev_key[i])@ == info[i]@.m0,
        post == pre + rev_key,
        s.m0 == info.last()@.m0,
    ensures
        is_revoked(s.m0, post),
{
    lemma_revoked_key_member(rev_key, pre, post, rev_key.len() - 1);
}

/// Distinct nonces do not block one another: recording one nonce leaves every
/// other nonce unrevoked. Two signatures with distinct nonces therefore both
/// verify against the same state, in either order.
pub proof fn lemma_distinct_nonce_stays_unrevoked(m: int, other: Scalar, pre: Seq<Scalar>)
    requires
        !is_revoked(m, pre),
        other@ != m,
    ensures
        !is_revoked(m, pre.push(other)),
{
    let post = pre.push(other);
    assert forall|i: int| 0 <= i < post.len() implies post[i]@ != m by {
        if i < pre.len() {
            assert(!(0 <= i < pre.len() && pre[i]@ == m));
        }
    }
}

} // verus!
