use authgate::base64::base64_decode;
use authgate::cause::RejectionCause;
use authgate::cause::http_status;
use authgate::config::Config;
use authgate::gate::alg_allowed;
use authgate::gate::begin_validation;
use authgate::gate::check_scope;
use authgate::gate::validate_claims;
use authgate::jsonio::parse_discovery;
use authgate::jsonio::parse_header;
use authgate::jsonio::parse_key_set;
use authgate::jsonio::parse_payload;
use authgate::keyset::KeyEntry;
use authgate::keyset::KeySet;
use authgate::keyset::resolve_key;
use authgate::scope::scope_contains;
use authgate::token::claims_of_fields;
use authgate::token::extract_bearer;
use authgate::token::header_of_fields;
use authgate::token::split_token;

fn cfg() -> Config {
    Config::new(
        "tenant-1".to_string(),
        Config::audience_for_client("client-1"),
        "access_as_user".to_string(),
        0,
    )
    .unwrap()
}

#[test]
fn base64_standard_exact() {
    assert_eq!(base64_decode("TWFu", false).unwrap(), b"Man".to_vec());
    assert_eq!(base64_decode("TWE=", false).unwrap(), b"Ma".to_vec());
    assert_eq!(base64_decode("TQ==", false).unwrap(), b"M".to_vec());
    assert_eq!(base64_decode("", false).unwrap(), Vec::<u8>::new());
    assert_eq!(base64_decode("/w==", false).unwrap(), vec![255u8]);
}

#[test]
fn base64_url_exact() {
    assert_eq!(base64_decode("aGVsbG8", true).unwrap(), b"hello".to_vec());
    assert_eq!(base64_decode("__", true).unwrap(), vec![255u8]);
    // the URL-safe alphabet refuses the standard specials and vice versa
    assert!(base64_decode("/w==", true).is_none());
    assert!(base64_decode("__", false).is_none());
}

#[test]
fn base64_rejects_bad_shapes() {
    assert!(base64_decode("a", false).is_none());
    assert!(base64_decode("!!!!", false).is_none());
    assert!(base64_decode("ab=cd", false).is_none());
}

#[test]
fn config_derivations_exact() {
    let c = cfg();
    assert_eq!(c.audience, "api://client-1");
    assert_eq!(
        c.discovery_url(),
        "https://login.microsoftonline.com/tenant-1/.well-known/openid-configuration"
    );
    assert_eq!(c.issuer_v1(), "https://sts.windows.net/tenant-1/");
    assert_eq!(c.issuer_v2(), "https://login.microsoftonline.com/tenant-1/v2.0");
}

#[test]
fn config_rejects_bad_inputs() {
    assert!(Config::new("".to_string(), "a".to_string(), "s".to_string(), 0).is_none());
    assert!(Config::new("t".to_string(), "a".to_string(), "".to_string(), 0).is_none());
    assert!(Config::new("t".to_string(), "a".to_string(), "two scopes".to_string(), 0).is_none());
}

#[test]
fn scope_whole_token_order_independent() {
    assert!(scope_contains("a access_as_user b", "access_as_user"));
    assert!(scope_contains("b a access_as_user", "access_as_user"));
    assert!(scope_contains("access_as_user a b", "access_as_user"));
    assert!(scope_contains("access_as_user", "access_as_user"));
}

#[test]
fn scope_boundary_exact() {
    assert!(!scope_contains("access_as_userx", "access_as_user"));
    assert!(!scope_contains("xaccess_as_user", "access_as_user"));
    assert!(!scope_contains("a access_as_userx b", "access_as_user"));
    assert!(!scope_contains("other_scope", "access_as_user"));
    assert!(!scope_contains("", "access_as_user"));
}

#[test]
fn scope_tolerates_repeated_separators() {
    assert!(scope_contains("a  access_as_user  b", "access_as_user"));
    assert!(scope_contains(" access_as_user", "access_as_user"));
    assert!(scope_contains("access_as_user ", "access_as_user"));
}

#[test]
fn validate_claims_check_order() {
    let c = cfg();
    let now: u64 = 1_700_000_000;
    let claims = claims_of_fields(
        Some("wrong".to_string()),
        Some("wrong".to_string()),
        Some(now - 1),
        None,
        None,
        None,
        None,
        None,
    )
    .unwrap();
    // the signature verdict is checked first, then expiry, then audience,
    // then issuer
    assert_eq!(
        validate_claims(&claims, false, now, &c),
        Err(RejectionCause::SignatureInvalid)
    );
    assert_eq!(validate_claims(&claims, true, now, &c), Err(RejectionCause::TokenExpired));
    let claims = claims_of_fields(
        Some("wrong".to_string()),
        Some("wrong".to_string()),
        Some(now + 10),
        None,
        None,
        None,
        None,
        None,
    )
    .unwrap();
    assert_eq!(validate_claims(&claims, true, now, &c), Err(RejectionCause::AudienceMismatch));
    let claims = claims_of_fields(
        Some("api://client-1".to_string()),
        Some("wrong".to_string()),
        Some(now + 10),
        None,
        None,
        None,
        None,
        None,
    )
    .unwrap();
    assert_eq!(validate_claims(&claims, true, now, &c), Err(RejectionCause::IssuerMismatch));
    let claims = claims_of_fields(
        Some("api://client-1".to_string()),
        Some("https://sts.windows.net/tenant-1/".to_string()),
        Some(now + 10),
        None,
        None,
        None,
        None,
        None,
    )
    .unwrap();
    assert_eq!(validate_claims(&claims, true, now, &c), Ok(()));
}

#[test]
fn check_scope_classifies() {
    let c = cfg();
    assert_eq!(check_scope(&None, &c), Err(RejectionCause::MissingScope));
    assert_eq!(
        check_scope(&Some("other".to_string()), &c),
        Err(RejectionCause::InsufficientScope)
    );
    assert_eq!(check_scope(&Some("x access_as_user".to_string()), &c), Ok(()));
}

#[test]
fn bearer_extraction_exact() {
    let good = "Bearer abc.def.ghi".to_string();
    assert_eq!(extract_bearer(Some(&good)).unwrap(), "abc.def.ghi");
    assert_eq!(
        extract_bearer(None),
        Err(RejectionCause::MissingOrMalformedCredential)
    );
    for bad in [
        "bearer abc",
        "Basic abc",
        "Bearer",
        "Bearer ",
        "Bearer  two-spaces",
        "BearerX abc",
    ] {
        let h = bad.to_string();
        assert_eq!(
            extract_bearer(Some(&h)),
            Err(RejectionCause::MissingOrMalformedCredential),
            "header {:?} must be a malformed credential",
            bad
        );
    }
}

#[test]
fn split_token_exact() {
    let (h, p, s) = split_token("aa.bb.cc").unwrap();
    assert_eq!((h.as_str(), p.as_str(), s.as_str()), ("aa", "bb", "cc"));
    let (_, _, s) = split_token("aa.bb.").unwrap();
    assert_eq!(s, "");
    assert!(split_token("aabb").is_none());
    assert!(split_token("aa.bb").is_none());
    assert!(split_token("aa.bb.cc.dd").is_none());
    assert!(split_token(".bb.cc").is_none());
    assert!(split_token("aa..cc").is_none());
}

#[test]
fn header_fields_classified() {
    let h = header_of_fields(Some("RS256".to_string()), Some("k1".to_string())).unwrap();
    assert_eq!(h.alg, "RS256");
    assert_eq!(h.kid, "k1");
    assert!(matches!(
        header_of_fields(None, Some("k1".to_string())),
        Err(RejectionCause::MalformedToken)
    ));
    assert!(matches!(
        header_of_fields(Some("RS256".to_string()), None),
        Err(RejectionCause::MissingKeyIdentifier)
    ));
}

#[test]
fn claims_fields_classified() {
    let c = claims_of_fields(
        Some("aud".to_string()),
        Some("iss".to_string()),
        Some(7),
        None,
        None,
        None,
        None,
        None,
    )
    .unwrap();
    assert_eq!(c.aud, "aud");
    assert_eq!(c.iss, "iss");
    assert_eq!(c.exp, 7);
    assert!(c.scp.is_none());
    assert!(matches!(
        claims_of_fields(None, Some("i".to_string()), Some(7), None, None, None, None, None),
        Err(RejectionCause::MalformedToken)
    ));
    assert!(matches!(
        claims_of_fields(Some("a".to_string()), Some("i".to_string()), None, None, None, None, None, None),
        Err(RejectionCause::MalformedToken)
    ));
}

#[test]
fn parse_header_reads_real_json() {
    let h = parse_header(&br#"{"alg":"RS256","kid":"key1"}"#.to_vec()).unwrap();
    assert_eq!(h.alg, "RS256");
    assert_eq!(h.kid, "key1");
    assert!(matches!(
        parse_header(&b"not json".to_vec()),
        Err(RejectionCause::MalformedToken)
    ));
    assert!(matches!(
        parse_header(&br#"{"alg":"RS256"}"#.to_vec()),
        Err(RejectionCause::MissingKeyIdentifier)
    ));
}

#[test]
fn parse_payload_reads_real_json() {
    let c = parse_payload(
        &br#"{"aud":"api://c","iss":"https://i/","exp":1700000000,"scp":"a b","tid":"t","name":"N"}"#.to_vec(),
    )
    .unwrap();
    assert_eq!(c.aud, "api://c");
    assert_eq!(c.iss, "https://i/");
    assert_eq!(c.exp, 1_700_000_000);
    assert_eq!(c.scp.as_deref(), Some("a b"));
    assert_eq!(c.tid.as_deref(), Some("t"));
    assert_eq!(c.name.as_deref(), Some("N"));
    assert!(c.oid.is_none());
    assert!(matches!(
        parse_payload(&br#"{"iss":"i","exp":1}"#.to_vec()),
        Err(RejectionCause::MalformedToken)
    ));
    assert!(matches!(
        parse_payload(&br#"{"aud":"a","iss":"i","exp":"soon"}"#.to_vec()),
        Err(RejectionCause::MalformedToken)
    ));
}

#[test]
fn parse_discovery_reads_real_json() {
    let u = parse_discovery(&br#"{"token_endpoint":"x","jwks_uri":"https://keys.example/jwks"}"#.to_vec())
        .unwrap();
    assert_eq!(u, "https://keys.example/jwks");
    assert!(matches!(
        parse_discovery(&b"garbage".to_vec()),
        Err(RejectionCause::DiscoveryUnavailable)
    ));
    assert!(matches!(
        parse_discovery(&br#"{"token_endpoint":"x"}"#.to_vec()),
        Err(RejectionCause::DiscoveryUnavailable)
    ));
}

#[test]
fn parse_key_set_reads_real_json() {
    let ks = parse_key_set(
        &br#"{"keys":[{"kid":"a","x5c":["TWFu","QQ=="]},{"kid":"b"}]}"#.to_vec(),
    )
    .unwrap();
    assert_eq!(ks.keys.len(), 2);
    assert_eq!(ks.keys[0].kid, "a");
    assert_eq!(ks.keys[0].x5c, vec!["TWFu".to_string(), "QQ==".to_string()]);
    assert_eq!(ks.keys[1].kid, "b");
    assert!(ks.keys[1].x5c.is_empty());
    assert!(matches!(
        parse_key_set(&b"oops".to_vec()),
        Err(RejectionCause::KeySetUnavailable)
    ));
    assert!(matches!(
        parse_key_set(&br#"{"nokeys":[]}"#.to_vec()),
        Err(RejectionCause::KeySetUnavailable)
    ));
    assert!(matches!(
        parse_key_set(&br#"{"keys":[{"x5c":["QQ=="]}]}"#.to_vec()),
        Err(RejectionCause::KeySetUnavailable)
    ));
}

fn sample_key_set() -> KeySet {
    KeySet {
        keys: vec![
            KeyEntry { kid: "other".to_string(), x5c: vec!["QQ==".to_string()] },
            KeyEntry { kid: "key1".to_string(), x5c: vec!["TWFu".to_string(), "QQ==".to_string()] },
        ],
    }
}

#[test]
fn resolve_key_finds_by_identifier() {
    let der = resolve_key(&sample_key_set(), "key1").unwrap();
    assert_eq!(der, b"Man".to_vec());
    let der = resolve_key(&sample_key_set(), "other").unwrap();
    assert_eq!(der, b"A".to_vec());
}

#[test]
fn resolve_key_classifies_failures() {
    assert_eq!(
        resolve_key(&sample_key_set(), "absent"),
        Err(RejectionCause::KeyNotFound)
    );
    let empty_chain = KeySet { keys: vec![KeyEntry { kid: "k".to_string(), x5c: vec![] }] };
    assert_eq!(resolve_key(&empty_chain, "k"), Err(RejectionCause::CertificateMissing));
    let bad_material =
        KeySet { keys: vec![KeyEntry { kid: "k".to_string(), x5c: vec!["!!".to_string()] }] };
    assert_eq!(resolve_key(&bad_material, "k"), Err(RejectionCause::InvalidKeyMaterial));
}

#[test]
fn resolve_key_takes_first_match() {
    let ks = KeySet {
        keys: vec![
            KeyEntry { kid: "k".to_string(), x5c: vec!["TWFu".to_string()] },
            KeyEntry { kid: "k".to_string(), x5c: vec!["QQ==".to_string()] },
        ],
    };
    assert_eq!(resolve_key(&ks, "k").unwrap(), b"Man".to_vec());
}

#[test]
fn algorithm_allow_list_is_asymmetric_only() {
    assert!(alg_allowed("RS256"));
    assert!(alg_allowed("RS384"));
    assert!(alg_allowed("RS512"));
    assert!(!alg_allowed("HS256"));
    assert!(!alg_allowed("none"));
    assert!(!alg_allowed("rs256"));
}

#[test]
fn status_mapping() {
    assert_eq!(http_status(&RejectionCause::MissingScope), 403);
    assert_eq!(http_status(&RejectionCause::InsufficientScope), 403);
    for c in [
        RejectionCause::MissingOrMalformedCredential,
        RejectionCause::MalformedToken,
        RejectionCause::MissingKeyIdentifier,
        RejectionCause::DiscoveryUnavailable,
        RejectionCause::KeySetUnavailable,
        RejectionCause::KeyNotFound,
        RejectionCause::CertificateMissing,
        RejectionCause::InvalidKeyMaterial,
        RejectionCause::SignatureInvalid,
        RejectionCause::TokenExpired,
        RejectionCause::AudienceMismatch,
        RejectionCause::IssuerMismatch,
    ] {
        assert_eq!(http_status(&c), 401);
    }
}

#[test]
fn begin_validation_rejects_before_any_fetch() {
    let c = cfg();
    assert!(matches!(
        begin_validation(&c, None),
        Err(RejectionCause::MissingOrMalformedCredential)
    ));
    let basic = "Basic abc".to_string();
    assert!(matches!(
        begin_validation(&c, Some(&basic)),
        Err(RejectionCause::MissingOrMalformedCredential)
    ));
    let junk = "Bearer not-a-token".to_string();
    assert!(matches!(begin_validation(&c, Some(&junk)), Err(RejectionCause::MalformedToken)));
}
