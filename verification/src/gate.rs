//! The authorization gate: a linear pipeline from the inbound request
//! to exactly one of an authorized claims record or a classified
//! rejection. The two fetches are the caller's: each stage consumes the
//! previous stage's state and the fetched bytes, so network work is
//! reachable only after credential extraction succeeded, key material
//! leaves the key-set stage only for an allow-listed algorithm and the
//! key whose identifier the token's header names, and the last stage
//! computes the signature verdict itself.

use vstd::prelude::*;
use vstd::string::StringExecFns;
use crate::base64::b64_decode;
use crate::base64::base64_decode;
use crate::cause::RejectionCause;
use crate::config::Config;
use crate::config::discovery_url_spec;
use crate::config::issuer_v1_spec;
use crate::config::issuer_v2_spec;
use crate::crypto::cert_public_key;
use crate::crypto::cert_public_key_of;
use crate::crypto::rsa_pkcs1v15_verify;
use crate::crypto::rsa_verdict_of;
use crate::jsonio::json_str_field_of;
use crate::jsonio::json_u64_field_of;
use crate::jsonio::key_entries_of;
use crate::jsonio::opt_str_matches;
use crate::jsonio::parse_discovery;
use crate::jsonio::parse_header;
use crate::jsonio::parse_key_set;
use crate::jsonio::parse_payload;
use crate::keyset::lemma_resolve_entries_match;
use crate::keyset::model_resolve;
use crate::keyset::resolve_key;
use crate::scope::has_scope_token;
use crate::token::Claims;
use crate::token::TokenHeader;
use crate::token::bearer_shaped;
use crate::token::bearer_token_of;
use crate::token::extract_bearer;
use crate::token::lemma_valid_split_unique;
use crate::token::split_token;
use crate::token::token_splittable;
use crate::token::valid_split;

verus! {

/// The algorithms signatures are accepted under: asymmetric RSA
/// signatures only. A symmetric algorithm is never accepted, so a
/// public certificate can never be misused as a shared secret.
pub open spec fn alg_allowed_spec(alg: Seq<char>) -> bool {
    alg == "RS256"@ || alg == "RS384"@ || alg == "RS512"@
}

/// Is the declared algorithm on the allow-list?
pub fn alg_allowed(alg: &str) -> (b: bool)
    ensures
        b == alg_allowed_spec(alg@),
{
    crate::text::str_eq(alg, "RS256") || crate::text::str_eq(alg, "RS384") || crate::text::str_eq(
        alg,
        "RS512",
    )
}

/// A token is expired when its expiry, stretched by the tolerated
/// skew, is not strictly in the future.
pub open spec fn expired_spec(exp: u64, skew: u64, now: u64) -> bool {
    now >= exp + skew
}

/// The claims carry exactly the configured audience.
pub open spec fn aud_ok_spec(c: Claims, cfg: Config) -> bool {
    c.aud@ == cfg.audience@
}

/// The claims carry one of the two accepted issuer forms for the
/// configured tenant.
pub open spec fn iss_ok_spec(c: Claims, cfg: Config) -> bool {
    c.iss@ == issuer_v1_spec(cfg.tenant@) || c.iss@ == issuer_v2_spec(cfg.tenant@)
}

/// The claims carry a scope list granting the required scope as one
/// whole token.
pub open spec fn scope_granted_spec(c: Claims, cfg: Config) -> bool {
    match c.scp {
        Option::Some(s) => has_scope_token(s@, cfg.required_scope@),
        Option::None => false,
    }
}

/// The decoded header segment names the two fields the pipeline needs.
pub open spec fn header_fields_present(hb: Seq<u8>) -> bool {
    json_str_field_of(hb, "alg"@) is Some && json_str_field_of(hb, "kid"@) is Some
}

/// The decoded payload segment names the three structural claims.
pub open spec fn payload_fields_present(pb: Seq<u8>) -> bool {
    json_str_field_of(pb, "aud"@) is Some && json_str_field_of(pb, "iss"@) is Some
        && json_u64_field_of(pb, "exp"@) is Some
}

/// Under the split `(i, j)`, all three segments of `t` decode and the
/// decoded header and payload carry the needed fields.
pub open spec fn segments_accepted(t: Seq<char>, i: int, j: int) -> bool {
    &&& (b64_decode(true, t.subrange(0, i)) matches Some(hb) && header_fields_present(hb))
    &&& (b64_decode(true, t.subrange(i + 1, j)) matches Some(pb) && payload_fields_present(pb))
    &&& b64_decode(true, t.subrange(j + 1, t.len() as int)) is Some
}

/// A token the first stage accepts: it splits into three segments, they
/// decode, and the named header and payload fields are present.
pub open spec fn token_accepted(t: Seq<char>) -> bool {
    exists|i: int, j: int| #[trigger] valid_split(t, i, j) && segments_accepted(t, i, j)
}

/// The state `p` carries exactly what the split `(i, j)` of token `t`
/// yields: the signing input is the protected portion, the signature
/// the decoded third segment, and every header and claim field equals
/// its named extraction from the decoded first or second segment.
pub open spec fn pending_matches_token(p: PendingDiscovery, t: Seq<char>, i: int, j: int) -> bool {
    &&& p.signing_input@ == t.subrange(0, j)
    &&& b64_decode(true, t.subrange(j + 1, t.len() as int)) == Some(p.signature@)
    &&& (b64_decode(true, t.subrange(0, i)) matches Some(hb) && json_str_field_of(hb, "alg"@)
        == Some(p.header.alg@) && json_str_field_of(hb, "kid"@) == Some(p.header.kid@))
    &&& (b64_decode(true, t.subrange(i + 1, j)) matches Some(pb) && json_str_field_of(pb, "aud"@)
        == Some(p.unverified_claims.aud@) && json_str_field_of(pb, "iss"@) == Some(
        p.unverified_claims.iss@,
    ) && json_u64_field_of(pb, "exp"@) == Some(p.unverified_claims.exp) && opt_str_matches(
        p.unverified_claims.scp,
        json_str_field_of(pb, "scp"@),
    ) && opt_str_matches(p.unverified_claims.tid, json_str_field_of(pb, "tid"@))
        && opt_str_matches(p.unverified_claims.oid, json_str_field_of(pb, "oid"@))
        && opt_str_matches(p.unverified_claims.email, json_str_field_of(pb, "email"@))
        && opt_str_matches(p.unverified_claims.name, json_str_field_of(pb, "name"@)))
}

/// The certificate the key lookup handed over carries extractable key
/// material.
pub open spec fn key_material_ok_spec(p: PendingVerify) -> bool {
    cert_public_key_of(p.key_der@) is Some
}

/// The signature verdict for the state `p`: the named PKCS#1 v1.5
/// verdict under the certificate's extracted key.
pub open spec fn signature_verdict_spec(p: PendingVerify) -> bool {
    match cert_public_key_of(p.key_der@) {
        Option::Some(k) => rsa_verdict_of(p.alg@, k, p.signing_input@, p.signature@),
        Option::None => false,
    }
}

/// Signature and structural-claim validation, in a fixed order:
/// signature verdict, expiry, audience, issuer. Each check is exact —
/// the audience must equal the configured value character for
/// character, the issuer must equal one of the two derived forms — and
/// the first failing check names the rejection.
pub fn validate_claims(claims: &Claims, signature_valid: bool, now: u64, cfg: &Config) -> (r:
    Result<(), RejectionCause>)
    ensures
        r is Ok <==> (signature_valid && !expired_spec(claims.exp, cfg.clock_skew, now)
            && aud_ok_spec(*claims, *cfg) && iss_ok_spec(*claims, *cfg)),
        !signature_valid ==> r == Err::<(), RejectionCause>(RejectionCause::SignatureInvalid),
        signature_valid && expired_spec(claims.exp, cfg.clock_skew, now) ==> r == Err::<
            (),
            RejectionCause,
        >(RejectionCause::TokenExpired),
        signature_valid && !expired_spec(claims.exp, cfg.clock_skew, now) && !aud_ok_spec(
            *claims,
            *cfg,
        ) ==> r == Err::<(), RejectionCause>(RejectionCause::AudienceMismatch),
        signature_valid && !expired_spec(claims.exp, cfg.clock_skew, now) && aud_ok_spec(
            *claims,
            *cfg,
        ) && !iss_ok_spec(*claims, *cfg) ==> r == Err::<(), RejectionCause>(
            RejectionCause::IssuerMismatch,
        ),
{
    if !signature_valid {
        return Err(RejectionCause::SignatureInvalid);
    }
    if now >= claims.exp && now - claims.exp >= cfg.clock_skew {
        return Err(RejectionCause::TokenExpired);
    }
    if !crate::text::str_eq(claims.aud.as_str(), cfg.audience.as_str()) {
        return Err(RejectionCause::AudienceMismatch);
    }
    let v1 = cfg.issuer_v1();
    let v2 = cfg.issuer_v2();
    if !crate::text::str_eq(claims.iss.as_str(), v1.as_str()) && !crate::text::str_eq(
        claims.iss.as_str(),
        v2.as_str(),
    ) {
        return Err(RejectionCause::IssuerMismatch);
    }
    Ok(())
}

/// Scope enforcement, the pipeline's own policy step: an absent scope claim
/// is `MissingScope`, a present one lacking the required whole token is
/// `InsufficientScope`.
pub fn check_scope(scp: &Option<String>, cfg: &Config) -> (r: Result<(), RejectionCause>)
    requires
        cfg.wf(),
    ensures
        scp is None ==> r == Err::<(), RejectionCause>(RejectionCause::MissingScope),
        scp matches Some(s) ==> (r is Ok <==> has_scope_token(s@, cfg.required_scope@)),
        scp matches Some(s) ==> (!has_scope_token(s@, cfg.required_scope@) ==> r == Err::<
            (),
            RejectionCause,
        >(RejectionCause::InsufficientScope)),
{
    match scp {
        Option::None => Err(RejectionCause::MissingScope),
        Option::Some(s) => {
            if crate::scope::scope_contains(s.as_str(), cfg.required_scope.as_str()) {
                Ok(())
            } else {
                Err(RejectionCause::InsufficientScope)
            }
        },
    }
}

/// State after credential extraction and token parsing: the discovery
/// document at `discovery_url` is to be fetched next. The claims here
/// are parsed but untrusted until `finish` succeeds.
#[derive(Debug)]
pub struct PendingDiscovery {
    /// Where the tenant's metadata document lives.
    pub discovery_url: String,
    /// The token's unverified header.
    pub header: TokenHeader,
    /// The parsed, not yet trusted payload.
    pub unverified_claims: Claims,
    /// The protected portion of the token, as signed.
    pub signing_input: String,
    /// The decoded signature bytes.
    pub signature: Vec<u8>,
}

/// State after the discovery document was read: the key set at
/// `jwks_uri` is to be fetched next.
#[derive(Debug)]
pub struct PendingKeySet {
    /// The key-set location the discovery document named.
    pub jwks_uri: String,
    /// The token's unverified header.
    pub header: TokenHeader,
    /// The parsed, not yet trusted payload.
    pub unverified_claims: Claims,
    /// The protected portion of the token, as signed.
    pub signing_input: String,
    /// The decoded signature bytes.
    pub signature: Vec<u8>,
}

/// State after key resolution: `finish` verifies `signature` over
/// `signing_input` with the certificate in `key_der` under `alg`.
#[derive(Debug)]
pub struct PendingVerify {
    /// DER bytes of the resolved verification certificate.
    pub key_der: Vec<u8>,
    /// The declared algorithm, already known to be allow-listed.
    pub alg: String,
    /// The parsed, not yet trusted payload.
    pub unverified_claims: Claims,
    /// The protected portion of the token, as signed.
    pub signing_input: String,
    /// The decoded signature bytes.
    pub signature: Vec<u8>,
}

/// First stage: extract the bearer credential and parse the token's
/// structure. Exactly a missing or non-bearer-shaped header is
/// `MissingOrMalformedCredential`; no network is reachable before this
/// stage succeeds, since only its success hands out a fetch location.
/// On success the signing input and signature are exactly the token's
/// protected portion and decoded third segment.
pub fn begin_validation(cfg: &Config, authorization: Option<&String>) -> (r: Result<
    PendingDiscovery,
    RejectionCause,
>)
    ensures
        r == Err::<PendingDiscovery, RejectionCause>(RejectionCause::MissingOrMalformedCredential)
            <==> !(authorization matches Some(h) && bearer_shaped(h@)),
        r matches Err(c) ==> (c == RejectionCause::MissingOrMalformedCredential || c
            == RejectionCause::MalformedToken || c == RejectionCause::MissingKeyIdentifier),
        authorization matches Some(h) ==> ((bearer_shaped(h@) && !token_splittable(
            bearer_token_of(h@),
        )) ==> r == Err::<PendingDiscovery, RejectionCause>(RejectionCause::MalformedToken)),
        r is Ok <==> (authorization matches Some(h) && bearer_shaped(h@) && token_accepted(
            bearer_token_of(h@),
        )),
        r matches Ok(p) ==> (authorization matches Some(h) && bearer_shaped(h@)
            && p.discovery_url@ == discovery_url_spec(cfg.tenant@) && ({
            let t = bearer_token_of(h@);
            exists|i: int, j: int| #[trigger] valid_split(t, i, j) && pending_matches_token(p, t, i, j)
        })),
{
    let tok = match extract_bearer(authorization) {
        Err(c) => {
            return Err(c);
        },
        Ok(t) => t,
    };
    let (h64, p64, s64) = match split_token(tok.as_str()) {
        Option::None => {
            proof {
                if token_accepted(tok@) {
                    let (a, b) = choose|a: int, b: int|
                        #[trigger] valid_split(tok@, a, b) && segments_accepted(tok@, a, b);
                    assert(token_splittable(tok@));
                }
            }
            return Err(RejectionCause::MalformedToken);
        },
        Option::Some(parts) => parts,
    };
    let ghost si = h64@.len() as int;
    let ghost sj = si + 1 + p64@.len();
    proof {
        assert(valid_split(tok@, si, sj));
    }
    let hbytes = match base64_decode(h64.as_str(), true) {
        Option::None => {
            proof {
                if token_accepted(tok@) {
                    let (a, b) = choose|a: int, b: int|
                        #[trigger] valid_split(tok@, a, b) && segments_accepted(tok@, a, b);
                    lemma_valid_split_unique(tok@, a, b, si, sj);
                }
            }
            return Err(RejectionCause::MalformedToken);
        },
        Option::Some(b) => b,
    };
    let pbytes = match base64_decode(p64.as_str(), true) {
        Option::None => {
            proof {
                if token_accepted(tok@) {
                    let (a, b) = choose|a: int, b: int|
                        #[trigger] valid_split(tok@, a, b) && segments_accepted(tok@, a, b);
                    lemma_valid_split_unique(tok@, a, b, si, sj);
                }
            }
            return Err(RejectionCause::MalformedToken);
        },
        Option::Some(b) => b,
    };
    let sig = match base64_decode(s64.as_str(), true) {
        Option::None => {
            proof {
                if token_accepted(tok@) {
                    let (a, b) = choose|a: int, b: int|
                        #[trigger] valid_split(tok@, a, b) && segments_accepted(tok@, a, b);
                    lemma_valid_split_unique(tok@, a, b, si, sj);
                }
            }
            return Err(RejectionCause::MalformedToken);
        },
        Option::Some(b) => b,
    };
    let header = match parse_header(&hbytes) {
        Err(c) => {
            proof {
                if token_accepted(tok@) {
                    let (a, b) = choose|a: int, b: int|
                        #[trigger] valid_split(tok@, a, b) && segments_accepted(tok@, a, b);
                    lemma_valid_split_unique(tok@, a, b, si, sj);
                    assert(b64_decode(true, tok@.subrange(0, si)) == Some(hbytes@));
                }
            }
            return Err(c);
        },
        Ok(h) => h,
    };
    let unverified_claims = match parse_payload(&pbytes) {
        Err(c) => {
            proof {
                if token_accepted(tok@) {
                    let (a, b) = choose|a: int, b: int|
                        #[trigger] valid_split(tok@, a, b) && segments_accepted(tok@, a, b);
                    lemma_valid_split_unique(tok@, a, b, si, sj);
                    assert(b64_decode(true, tok@.subrange(si + 1, sj)) == Some(pbytes@));
                }
            }
            return Err(c);
        },
        Ok(c) => c,
    };
    let mut signing_input = h64;
    signing_input.append(".");
    signing_input.append(p64.as_str());
    proof {
        reveal_strlit(".");
        assert(signing_input@ =~= tok@.subrange(0, sj));
        assert(tok@.subrange(sj + 1, tok@.len() as int) == s64@);
    }
    let p = PendingDiscovery {
        discovery_url: cfg.discovery_url(),
        header,
        unverified_claims,
        signing_input,
        signature: sig,
    };
    proof {
        assert(b64_decode(true, tok@.subrange(0, si)) == Some(hbytes@));
        assert(b64_decode(true, tok@.subrange(si + 1, sj)) == Some(pbytes@));
        assert(segments_accepted(tok@, si, sj));
        assert(token_accepted(tok@));
        assert(pending_matches_token(p, tok@, si, sj));
    }
    Ok(p)
}

/// Second stage: take the result of the discovery fetch. A failed
/// fetch is handed in as `None`; it and every unreadable document are
/// `DiscoveryUnavailable`, indistinguishable on the wire. The token
/// data rides through unchanged.
pub fn on_discovery(pending: PendingDiscovery, body: Option<&Vec<u8>>) -> (r: Result<
    PendingKeySet,
    RejectionCause,
>)
    ensures
        body is None ==> r == Err::<PendingKeySet, RejectionCause>(
            RejectionCause::DiscoveryUnavailable,
        ),
        r matches Err(c) ==> c == RejectionCause::DiscoveryUnavailable,
        body matches Some(b) ==> (r is Ok <==> json_str_field_of(b@, "jwks_uri"@) is Some),
        r matches Ok(q) ==> (body matches Some(b) && json_str_field_of(b@, "jwks_uri"@) == Some(
            q.jwks_uri@,
        )),
        r matches Ok(q) ==> (q.header == pending.header && q.unverified_claims
            == pending.unverified_claims && q.signing_input == pending.signing_input && q.signature
            == pending.signature),
{
    let b = match body {
        Option::None => {
            return Err(RejectionCause::DiscoveryUnavailable);
        },
        Option::Some(b) => b,
    };
    let jwks_uri = match parse_discovery(b) {
        Err(c) => {
            return Err(c);
        },
        Ok(u) => u,
    };
    Ok(
        PendingKeySet {
            jwks_uri,
            header: pending.header,
            unverified_claims: pending.unverified_claims,
            signing_input: pending.signing_input,
            signature: pending.signature,
        },
    )
}

/// Third stage: take the result of the key-set fetch, look the token's
/// key identifier up, and vet the declared algorithm. Key material
/// leaves this stage only for a matching identifier and an allow-listed
/// algorithm; `KeyNotFound` precedes any signature work, so no check
/// against an unrelated key can happen.
pub fn on_key_set(pending: PendingKeySet, body: Option<&Vec<u8>>) -> (r: Result<
    PendingVerify,
    RejectionCause,
>)
    ensures
        body is None ==> r == Err::<PendingVerify, RejectionCause>(
            RejectionCause::KeySetUnavailable,
        ),
        r matches Err(c) ==> (c == RejectionCause::KeySetUnavailable || c
            == RejectionCause::KeyNotFound || c == RejectionCause::CertificateMissing || c
            == RejectionCause::InvalidKeyMaterial || c == RejectionCause::SignatureInvalid),
        body matches Some(b) ==> (r == Err::<PendingVerify, RejectionCause>(
            RejectionCause::KeySetUnavailable,
        ) <==> key_entries_of(b@) is None),
        body matches Some(b) ==> (key_entries_of(b@) matches Some(m) ==> (model_resolve(
            m,
            pending.header.kid@,
        ) matches Err(c) ==> r == Err::<PendingVerify, RejectionCause>(c))),
        body matches Some(b) ==> (key_entries_of(b@) matches Some(m) ==> ((model_resolve(
            m,
            pending.header.kid@,
        ) is Ok && !alg_allowed_spec(pending.header.alg@)) ==> r == Err::<
            PendingVerify,
            RejectionCause,
        >(RejectionCause::SignatureInvalid))),
        r == Err::<PendingVerify, RejectionCause>(RejectionCause::SignatureInvalid)
            ==> !alg_allowed_spec(pending.header.alg@),
        r is Ok <==> (body matches Some(b) && key_entries_of(b@) matches Some(m) && model_resolve(
            m,
            pending.header.kid@,
        ) is Ok && alg_allowed_spec(pending.header.alg@)),
        r matches Ok(q) ==> (body matches Some(b) && key_entries_of(b@) matches Some(m)
            && model_resolve(m, pending.header.kid@) == Ok::<Seq<u8>, RejectionCause>(q.key_der@)),
        r matches Ok(q) ==> (alg_allowed_spec(pending.header.alg@) && q.alg == pending.header.alg
            && q.unverified_claims == pending.unverified_claims && q.signing_input
            == pending.signing_input && q.signature == pending.signature),
{
    let b = match body {
        Option::None => {
            return Err(RejectionCause::KeySetUnavailable);
        },
        Option::Some(b) => b,
    };
    let ks = match parse_key_set(b) {
        Err(c) => {
            return Err(c);
        },
        Ok(k) => k,
    };
    proof {
        let m = choose|m: Seq<(Seq<char>, Seq<Seq<char>>)>| key_entries_of(b@) == Some(m);
        assert(crate::keyset::entries_match(ks.keys@, m));
        lemma_resolve_entries_match(ks.keys@, m, pending.header.kid@);
    }
    let key_der = match resolve_key(&ks, pending.header.kid.as_str()) {
        Err(c) => {
            return Err(c);
        },
        Ok(d) => d,
    };
    if !alg_allowed(pending.header.alg.as_str()) {
        return Err(RejectionCause::SignatureInvalid);
    }
    Ok(
        PendingVerify {
            key_der,
            alg: pending.header.alg,
            unverified_claims: pending.unverified_claims,
            signing_input: pending.signing_input,
            signature: pending.signature,
        },
    )
}

/// Resolves the certificate's key material and computes the signature
/// verdict. A certificate whose subjectPublicKeyInfo cannot be
/// extracted is `InvalidKeyMaterial`, a distinct cause never folded
/// into the verdict; otherwise the named PKCS#1 v1.5 verdict comes
/// back.
pub fn verify_signature(p: &PendingVerify) -> (r: Result<bool, RejectionCause>)
    ensures
        r is Err <==> !key_material_ok_spec(*p),
        r matches Err(c) ==> c == RejectionCause::InvalidKeyMaterial,
        r matches Ok(b) ==> b == signature_verdict_spec(*p),
{
    match cert_public_key(&p.key_der) {
        Option::None => Err(RejectionCause::InvalidKeyMaterial),
        Option::Some(k) => Ok(
            rsa_pkcs1v15_verify(p.alg.as_str(), &k, p.signing_input.as_str(), &p.signature),
        ),
    }
}

/// Last stage: compute the signature verdict and run the claim checks
/// and scope enforcement in order. A claims record comes out only here,
/// only when every check passed against the resolved key, and exactly
/// as it was parsed -- no stage alters a claim.
pub fn finish(pending: PendingVerify, now: u64, cfg: &Config) -> (r: Result<
    Claims,
    RejectionCause,
>)
    requires
        cfg.wf(),
    ensures
        !key_material_ok_spec(pending) <==> r == Err::<Claims, RejectionCause>(
            RejectionCause::InvalidKeyMaterial,
        ),
        key_material_ok_spec(pending) && !signature_verdict_spec(pending) ==> r == Err::<
            Claims,
            RejectionCause,
        >(RejectionCause::SignatureInvalid),
        key_material_ok_spec(pending) && signature_verdict_spec(pending) && expired_spec(
            pending.unverified_claims.exp,
            cfg.clock_skew,
            now,
        ) ==> r == Err::<Claims, RejectionCause>(RejectionCause::TokenExpired),
        key_material_ok_spec(pending) && signature_verdict_spec(pending) && !expired_spec(
            pending.unverified_claims.exp,
            cfg.clock_skew,
            now,
        ) && !aud_ok_spec(pending.unverified_claims, *cfg) ==> r == Err::<Claims, RejectionCause>(
            RejectionCause::AudienceMismatch,
        ),
        key_material_ok_spec(pending) && signature_verdict_spec(pending) && !expired_spec(
            pending.unverified_claims.exp,
            cfg.clock_skew,
            now,
        ) && aud_ok_spec(pending.unverified_claims, *cfg) && !iss_ok_spec(
            pending.unverified_claims,
            *cfg,
        ) ==> r == Err::<Claims, RejectionCause>(RejectionCause::IssuerMismatch),
        key_material_ok_spec(pending) && signature_verdict_spec(pending) && !expired_spec(
            pending.unverified_claims.exp,
            cfg.clock_skew,
            now,
        ) && aud_ok_spec(pending.unverified_claims, *cfg) && iss_ok_spec(
            pending.unverified_claims,
            *cfg,
        ) && pending.unverified_claims.scp is None ==> r == Err::<Claims, RejectionCause>(
            RejectionCause::MissingScope,
        ),
        key_material_ok_spec(pending) && signature_verdict_spec(pending) && !expired_spec(
            pending.unverified_claims.exp,
            cfg.clock_skew,
            now,
        ) && aud_ok_spec(pending.unverified_claims, *cfg) && iss_ok_spec(
            pending.unverified_claims,
            *cfg,
        ) && pending.unverified_claims.scp is Some && !scope_granted_spec(
            pending.unverified_claims,
            *cfg,
        ) ==> r == Err::<Claims, RejectionCause>(RejectionCause::InsufficientScope),
        key_material_ok_spec(pending) && signature_verdict_spec(pending) && !expired_spec(
            pending.unverified_claims.exp,
            cfg.clock_skew,
            now,
        ) && aud_ok_spec(pending.unverified_claims, *cfg) && iss_ok_spec(
            pending.unverified_claims,
            *cfg,
        ) && scope_granted_spec(pending.unverified_claims, *cfg) ==> r == Ok::<
            Claims,
            RejectionCause,
        >(pending.unverified_claims),
        r is Ok <==> (key_material_ok_spec(pending) && signature_verdict_spec(pending)
            && !expired_spec(pending.unverified_claims.exp, cfg.clock_skew, now) && aud_ok_spec(
            pending.unverified_claims,
            *cfg,
        ) && iss_ok_spec(pending.unverified_claims, *cfg) && scope_granted_spec(
            pending.unverified_claims,
            *cfg,
        )),
{
    let verdict = match verify_signature(&pending) {
        Err(c) => {
            return Err(c);
        },
        Ok(b) => b,
    };
    match validate_claims(&pending.unverified_claims, verdict, now, cfg) {
        Err(c) => {
            return Err(c);
        },
        Ok(u) => u,
    };
    match check_scope(&pending.unverified_claims.scp, cfg) {
        Err(c) => {
            return Err(c);
        },
        Ok(u) => u,
    };
    Ok(pending.unverified_claims)
}

} // verus!
