//! The provider's published key set, and the lookup of a token's key
//! identifier in it. Identity providers rotate signing keys without
//! notice, so the lookup goes by the key identifier alone — never by
//! position or recency.

use vstd::prelude::*;
use crate::base64::b64_decode;
use crate::cause::RejectionCause;

verus! {

/// One published key entry: a key identifier and a certificate chain,
/// each certificate the standard-base64 encoding of its DER form. An
/// entry published without a chain is kept with an empty one.
#[derive(Debug)]
pub struct KeyEntry {
    pub kid: String,
    pub x5c: Vec<String>,
}

/// The published key set, in document order.
#[derive(Debug)]
pub struct KeySet {
    pub keys: Vec<KeyEntry>,
}

/// Index of the first entry at or after `i` whose identifier is `kid`,
/// or -1 where none is.
pub open spec fn first_match(s: Seq<KeyEntry>, kid: Seq<char>, i: int) -> int
    decreases s.len() - i,
    when 0 <= i <= s.len()
{
    if i >= s.len() {
        -1
    } else if s[i].kid@ == kid {
        i
    } else {
        first_match(s, kid, i + 1)
    }
}

/// What resolving a key identifier against a key set yields: the DER
/// bytes of the first certificate of the first matching entry, or the
/// classified failure.
pub open spec fn resolve_spec(s: Seq<KeyEntry>, kid: Seq<char>) -> Result<Seq<u8>, RejectionCause> {
    let m = first_match(s, kid, 0);
    if m == -1 {
        Err(RejectionCause::KeyNotFound)
    } else if s[m].x5c@.len() == 0 {
        Err(RejectionCause::CertificateMissing)
    } else {
        match b64_decode(false, s[m].x5c@[0]@) {
            Option::None => Err(RejectionCause::InvalidKeyMaterial),
            Option::Some(d) => Ok(d),
        }
    }
}

/// A key-entry sequence spells exactly the plain `(kid, x5c)` pairs `m`.
pub open spec fn entries_match(es: Seq<KeyEntry>, m: Seq<(Seq<char>, Seq<Seq<char>>)>) -> bool {
    &&& es.len() == m.len()
    &&& forall|i: int|
        0 <= i < m.len() ==> (#[trigger] es[i]).kid@ == m[i].0 && es[i].x5c@.len() == m[i].1.len()
            && (forall|j: int| 0 <= j < m[i].1.len() ==> (#[trigger] es[i].x5c@[j])@ == m[i].1[j])
}

/// Index of the first pair at or after `i` whose identifier is `kid`,
/// or -1 where none is.
pub open spec fn model_first_match(
    m: Seq<(Seq<char>, Seq<Seq<char>>)>,
    kid: Seq<char>,
    i: int,
) -> int
    decreases m.len() - i,
    when 0 <= i <= m.len()
{
    if i >= m.len() {
        -1
    } else if m[i].0 == kid {
        i
    } else {
        model_first_match(m, kid, i + 1)
    }
}

/// What resolving a key identifier against the plain `(kid, x5c)` pairs
/// of a key-set document yields: the DER bytes decoded from the first
/// certificate of the first matching pair, or the classified failure.
pub open spec fn model_resolve(m: Seq<(Seq<char>, Seq<Seq<char>>)>, kid: Seq<char>) -> Result<
    Seq<u8>,
    RejectionCause,
> {
    let k = model_first_match(m, kid, 0);
    if k == -1 {
        Err(RejectionCause::KeyNotFound)
    } else if m[k].1.len() == 0 {
        Err(RejectionCause::CertificateMissing)
    } else {
        match b64_decode(false, m[k].1[0]) {
            Option::None => Err(RejectionCause::InvalidKeyMaterial),
            Option::Some(d) => Ok(d),
        }
    }
}

proof fn lemma_first_match_model(
    es: Seq<KeyEntry>,
    m: Seq<(Seq<char>, Seq<Seq<char>>)>,
    kid: Seq<char>,
    i: int,
)
    requires
        entries_match(es, m),
        0 <= i <= m.len(),
    ensures
        first_match(es, kid, i) == model_first_match(m, kid, i),
    decreases m.len() - i,
{
    if i < m.len() && es[i].kid@ != kid {
        lemma_first_match_model(es, m, kid, i + 1);
    }
}

/// Matching entries resolve identically: the lookup and the extracted
/// key material depend only on the identifiers and chains.
pub proof fn lemma_resolve_entries_match(
    es: Seq<KeyEntry>,
    m: Seq<(Seq<char>, Seq<Seq<char>>)>,
    kid: Seq<char>,
)
    requires
        entries_match(es, m),
    ensures
        resolve_spec(es, kid) == model_resolve(m, kid),
{
    lemma_first_match_model(es, m, kid, 0);
    lemma_first_match(es, kid, 0);
    let k = first_match(es, kid, 0);
    if k != -1 {
        assert(es[k].x5c@.len() == m[k].1.len());
        if es[k].x5c@.len() > 0 {
            assert(es[k].x5c@[0]@ == m[k].1[0]);
        }
    }
}

/// There is no match from `i` on exactly where every entry from `i` on
/// carries another identifier; a match is the earliest one.
proof fn lemma_first_match(s: Seq<KeyEntry>, kid: Seq<char>, i: int)
    requires
        0 <= i <= s.len(),
    ensures
        first_match(s, kid, i) == -1 <==> (forall|j: int| i <= j < s.len() ==> s[j].kid@ != kid),
        first_match(s, kid, i) != -1 ==> i <= first_match(s, kid, i) < s.len() && s[first_match(
            s,
            kid,
            i,
        )].kid@ == kid,
    decreases s.len() - i,
{
    if i < s.len() && s[i].kid@ != kid {
        lemma_first_match(s, kid, i + 1);
    }
}

/// Scans the key set for the token's key identifier and extracts the
/// verification key material. Fails with `KeyNotFound` exactly where no
/// entry carries the identifier — in that case no key material is ever
/// handed out, so no signature check against an unrelated key can
/// happen. A matching entry with an empty chain is `CertificateMissing`;
/// a first certificate that is not standard base64 is
/// `InvalidKeyMaterial`.
pub fn resolve_key(ks: &KeySet, kid: &str) -> (r: Result<Vec<u8>, RejectionCause>)
    ensures
        r matches Ok(v) ==> resolve_spec(ks.keys@, kid@) == Ok::<Seq<u8>, RejectionCause>(v@),
        r matches Err(c) ==> resolve_spec(ks.keys@, kid@) == Err::<Seq<u8>, RejectionCause>(c),
        r == Err::<Vec<u8>, RejectionCause>(RejectionCause::KeyNotFound) <==> (forall|j: int|
            0 <= j < ks.keys@.len() ==> ks.keys@[j].kid@ != kid@),
{
    let n = ks.keys.len();
    let mut i: usize = 0;
    while i < n
        invariant
            n == ks.keys@.len(),
            i <= n,
            forall|j: int| 0 <= j < i ==> ks.keys@[j].kid@ != kid@,
            first_match(ks.keys@, kid@, 0) == first_match(ks.keys@, kid@, i as int),
        decreases n - i,
    {
        let e = &ks.keys[i];
        if crate::text::str_eq(e.kid.as_str(), kid) {
            proof {
                assert(first_match(ks.keys@, kid@, i as int) == i);
                lemma_first_match(ks.keys@, kid@, 0);
            }
            if e.x5c.len() == 0 {
                return Err(RejectionCause::CertificateMissing);
            }
            let cert = &e.x5c[0];
            return match crate::base64::base64_decode(cert.as_str(), false) {
                Option::None => Err(RejectionCause::InvalidKeyMaterial),
                Option::Some(d) => Ok(d),
            };
        }
        i += 1;
    }
    proof {
        lemma_first_match(ks.keys@, kid@, 0);
    }
    Err(RejectionCause::KeyNotFound)
}

} // verus!
