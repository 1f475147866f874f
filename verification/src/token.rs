//! The token's structural shape: bearer-credential extraction from the
//! authorization header, splitting a compact token into its three
//! dot-separated segments, and the records assembled from the decoded
//! header and payload fields.

use vstd::prelude::*;
use vstd::string::StrSliceExecFns;
use crate::cause::RejectionCause;

verus! {

/// The token's unverified header: the declared signing algorithm and
/// the identifier of the signing key. Extracted before any trust is
/// established, it must never feed an authorization decision beyond key
/// lookup and algorithm selection.
#[derive(Debug)]
pub struct TokenHeader {
    pub alg: String,
    pub kid: String,
}

/// The asserted facts inside a token. A `Claims` value is handed to the
/// caller only after the signature and every configured check passed.
#[derive(Debug)]
pub struct Claims {
    /// The intended recipient.
    pub aud: String,
    /// The minting authority.
    pub iss: String,
    /// Expiry, in seconds since the epoch.
    pub exp: u64,
    /// Space-delimited delegated-permission scopes, if any.
    pub scp: Option<String>,
    /// Tenant identifier, if present.
    pub tid: Option<String>,
    /// Subject / object identifier, if present.
    pub oid: Option<String>,
    /// E-mail address, if present.
    pub email: Option<String>,
    /// Display name, if present.
    pub name: Option<String>,
}

/// A header value carries a bearer credential when it is exactly the
/// `Bearer` scheme token, one space, and a token that does not begin
/// with a further space.
pub open spec fn bearer_shaped(h: Seq<char>) -> bool {
    h.len() > 7 && h.subrange(0, 7) == "Bearer "@ && h[7] != ' '
}

/// The credential carried by a bearer-shaped header value.
pub open spec fn bearer_token_of(h: Seq<char>) -> Seq<char> {
    h.subrange(7, h.len() as int)
}

/// Pulls the bearer credential out of the request's authorization
/// header. Succeeds exactly on a present, bearer-shaped header; every
/// failure is `MissingOrMalformedCredential`, and no network is ever
/// involved in this step.
pub fn extract_bearer(authorization: Option<&String>) -> (r: Result<String, RejectionCause>)
    ensures
        r is Ok <==> (authorization matches Some(h) && bearer_shaped(h@)),
        r matches Ok(t) ==> (authorization matches Some(h) && t@ == bearer_token_of(h@)),
        r matches Err(c) ==> c == RejectionCause::MissingOrMalformedCredential,
{
    match authorization {
        None => Err(RejectionCause::MissingOrMalformedCredential),
        Some(h) => {
            let hs = h.as_str();
            let n = hs.unicode_len();
            if n <= 7 {
                return Err(RejectionCause::MissingOrMalformedCredential);
            }
            proof {
                reveal_strlit("Bearer ");
            }
            if !crate::text::matches_at(hs, 0, "Bearer ") {
                return Err(RejectionCause::MissingOrMalformedCredential);
            }
            if hs.get_char(7) == ' ' {
                return Err(RejectionCause::MissingOrMalformedCredential);
            }
            let t = hs.substring_char(7, n);
            Ok(t.to_owned())
        },
    }
}

/// Positions `i < j` split `t` into three segments: both carry a dot,
/// no other position does, the first two segments are nonempty.
pub open spec fn valid_split(t: Seq<char>, i: int, j: int) -> bool {
    &&& 1 <= i
    &&& i + 2 <= j
    &&& j < t.len()
    &&& t[i] == '.'
    &&& t[j] == '.'
    &&& forall|k: int| 0 <= k < t.len() && t[k] == '.' ==> k == i || k == j
}

/// `t` has the compact three-segment shape.
pub open spec fn token_splittable(t: Seq<char>) -> bool {
    exists|i: int, j: int| valid_split(t, i, j)
}

/// The three-segment decomposition is unique: two valid splits of the
/// same token name the same two dot positions.
pub proof fn lemma_valid_split_unique(t: Seq<char>, i: int, j: int, i2: int, j2: int)
    requires
        valid_split(t, i, j),
        valid_split(t, i2, j2),
    ensures
        i == i2 && j == j2,
{
    assert(i == i2 || i == j2);
    assert(j == i2 || j == j2);
    assert(i2 == i || i2 == j);
}

/// Splits a compact token into its header, payload and signature
/// segments. Returns `None` exactly where no three-segment shape
/// exists: not exactly two dots, an empty header or payload segment.
pub fn split_token(t: &str) -> (r: Option<(String, String, String)>)
    ensures
        r matches Some(parts) ==> ({
            let i = parts.0@.len() as int;
            let j = i + 1 + parts.1@.len();
            &&& valid_split(t@, i, j)
            &&& parts.0@ == t@.subrange(0, i)
            &&& parts.1@ == t@.subrange(i + 1, j)
            &&& parts.2@ == t@.subrange(j + 1, t@.len() as int)
        }),
        r is None ==> !token_splittable(t@),
{
    let n = t.unicode_len();
    let mut d1: usize = 0;
    let mut d2: usize = 0;
    let mut count: usize = 0;
    let mut i: usize = 0;
    while i < n
        invariant
            n == t@.len(),
            i <= n,
            count <= 2,
            count == 0 ==> forall|k: int| 0 <= k < i ==> t@[k] != '.',
            count == 1 ==> d1 < i && t@[d1 as int] == '.' && (forall|k: int|
                0 <= k < i && t@[k] == '.' ==> k == d1),
            count == 2 ==> d1 < d2 && d2 < i && t@[d1 as int] == '.' && t@[d2 as int] == '.' && (
            forall|k: int| 0 <= k < i && t@[k] == '.' ==> k == d1 || k == d2),
        decreases n - i,
    {
        if t.get_char(i) == '.' {
            if count == 0 {
                d1 = i;
            } else if count == 1 {
                d2 = i;
            } else {
                proof {
                    assert forall|a: int, b: int| !valid_split(t@, a, b) by {
                        if valid_split(t@, a, b) {
                            assert(d1 as int == a || d1 as int == b);
                            assert(d2 as int == a || d2 as int == b);
                            assert(i as int == a || i as int == b);
                        }
                    }
                }
                return None;
            }
            count += 1;
        }
        i += 1;
    }
    if count != 2 || d1 == 0 || d2 < d1 + 2 {
        proof {
            assert forall|a: int, b: int| !valid_split(t@, a, b) by {
                if valid_split(t@, a, b) {
                    if count == 2 {
                        assert(a == d1 && b == d2);
                    }
                }
            }
        }
        return None;
    }
    let h = t.substring_char(0, d1).to_owned();
    let p = t.substring_char(d1 + 1, d2).to_owned();
    let g = t.substring_char(d2 + 1, n).to_owned();
    proof {
        assert(valid_split(t@, d1 as int, d2 as int));
    }
    Some((h, p, g))
}

/// Assembles the unverified header from its decoded fields: a missing
/// algorithm is a malformed token, a missing key identifier is
/// `MissingKeyIdentifier`.
pub fn header_of_fields(alg: Option<String>, kid: Option<String>) -> (r: Result<
    TokenHeader,
    RejectionCause,
>)
    ensures
        r is Ok <==> (alg is Some && kid is Some),
        alg is None ==> (r matches Err(c) && c == RejectionCause::MalformedToken),
        alg is Some && kid is None ==> (r matches Err(c) && c
            == RejectionCause::MissingKeyIdentifier),
        alg matches Some(a) ==> (kid matches Some(k) ==> (r matches Ok(h) && h.alg == a && h.kid
            == k)),
{
    match alg {
        None => Err(RejectionCause::MalformedToken),
        Some(a) => match kid {
            None => Err(RejectionCause::MissingKeyIdentifier),
            Some(k) => Ok(TokenHeader { alg: a, kid: k }),
        },
    }
}

/// Assembles the claims record from the decoded payload fields. The
/// audience, issuer and expiry are structural necessities: a payload
/// lacking any of them is a malformed token. Everything else is
/// optional and carried through unchanged.
pub fn claims_of_fields(
    aud: Option<String>,
    iss: Option<String>,
    exp: Option<u64>,
    scp: Option<String>,
    tid: Option<String>,
    oid: Option<String>,
    email: Option<String>,
    name: Option<String>,
) -> (r: Result<Claims, RejectionCause>)
    ensures
        r is Ok <==> (aud is Some && iss is Some && exp is Some),
        r matches Err(c) ==> c == RejectionCause::MalformedToken,
        aud matches Some(a) ==> (iss matches Some(s) ==> (exp matches Some(e) ==> (r matches Ok(cl)
            && cl.aud == a && cl.iss == s && cl.exp == e && cl.scp == scp && cl.tid == tid && cl.oid
            == oid && cl.email == email && cl.name == name))),
{
    match (aud, iss, exp) {
        (Some(a), Some(s), Some(e)) => Ok(
            Claims { aud: a, iss: s, exp: e, scp, tid, oid, email, name },
        ),
        _ => Err(RejectionCause::MalformedToken),
    }
}

} // verus!
