//! Scope enforcement: a scope claim is a space-delimited list of scope
//! names, and the required scope must appear as one whole token, never
//! as a substring of a longer name.

use vstd::prelude::*;

verus! {

/// `r` spells a whole token of `s` starting at `i`: the characters
/// match and both sides of the window sit on a boundary (the end of the
/// string or a space).
pub open spec fn is_token_at(s: Seq<char>, r: Seq<char>, i: int) -> bool {
    &&& 0 <= i
    &&& i + r.len() <= s.len()
    &&& s.subrange(i, i + r.len()) == r
    &&& (i == 0 || s[i - 1] == ' ')
    &&& (i + r.len() == s.len() || s[i + r.len()] == ' ')
}

/// `r` appears somewhere in `s` as a whole space-delimited token.
pub open spec fn has_scope_token(s: Seq<char>, r: Seq<char>) -> bool {
    exists|i: int| is_token_at(s, r, i)
}

/// The set of all whole tokens of a scope claim. The scope check is
/// exactly membership in this set, so its outcome depends on the set of
/// tokens alone, never on their order or multiplicity.
pub open spec fn scope_set(s: Seq<char>) -> Set<Seq<char>> {
    Set::new(|t: Seq<char>| has_scope_token(s, t))
}

/// The scope check is order-independent and idempotent: two scope
/// claims carrying the same set of whole tokens — in any order, with
/// any repetition — satisfy exactly the same required scopes.
pub proof fn lemma_scope_check_order_independent(s1: Seq<char>, s2: Seq<char>, r: Seq<char>)
    requires
        scope_set(s1) == scope_set(s2),
    ensures
        has_scope_token(s1, r) == has_scope_token(s2, r),
{
    assert(scope_set(s1).contains(r) == scope_set(s2).contains(r));
    assert(scope_set(s1).contains(r) == has_scope_token(s1, r));
    assert(scope_set(s2).contains(r) == has_scope_token(s2, r));
}

/// The scope claim spelled by a list of scope names, joined by single
/// spaces.
pub open spec fn join_scopes(l: Seq<Seq<char>>) -> Seq<char>
    decreases l.len(),
{
    if l.len() == 0 {
        Seq::empty()
    } else if l.len() == 1 {
        l[0]
    } else {
        l[0] + seq![' '] + join_scopes(l.drop_first())
    }
}

/// Every element is a well-formed scope name: nonempty and space-free.
pub open spec fn all_scope_names(l: Seq<Seq<char>>) -> bool {
    forall|k: int| 0 <= k < l.len() ==> (#[trigger] l[k]).len() > 0 && !l[k].contains(' ')
}

/// The claim spelled by a list of scope names grants exactly the names
/// in the list: every listed name is a whole token of the claim, and a
/// whole token of the claim is a listed name.
pub proof fn lemma_join_scopes_tokens(l: Seq<Seq<char>>, r: Seq<char>)
    requires
        all_scope_names(l),
        r.len() > 0,
        !r.contains(' '),
    ensures
        has_scope_token(join_scopes(l), r) <==> l.contains(r),
    decreases l.len(),
{
    let s = join_scopes(l);
    if l.len() == 0 {
        if has_scope_token(s, r) {
            let i = choose|i: int| is_token_at(s, r, i);
            assert(i + r.len() <= 0);
        }
    } else if l.len() == 1 {
        if l.contains(r) {
            let k = choose|k: int| 0 <= k < l.len() && l[k] == r;
            assert(k == 0);
            assert(s.subrange(0, r.len() as int) =~= r);
            assert(is_token_at(s, r, 0));
        }
        if has_scope_token(s, r) {
            let i = choose|i: int| is_token_at(s, r, i);
            if i > 0 {
                assert(0 <= i - 1 < s.len() && s[i - 1] == ' ');
                assert(l[0].contains(' '));
            }
            if i + r.len() < s.len() {
                assert(s[i + r.len()] == ' ');
                assert(l[0].contains(' '));
            }
            assert(i == 0 && i + r.len() == s.len());
            assert(r =~= l[0]) by {
                assert(forall|x: int| 0 <= x < r.len() ==> r[x] == s.subrange(
                    0,
                    r.len() as int,
                )[x]);
            }
            assert(l.contains(r)) by {
                assert(l[0] == r);
            }
        }
    } else {
        let rest = l.drop_first();
        let head = l[0];
        let jr = join_scopes(rest);
        let d = head.len() as int;
        assert(s == head + seq![' '] + jr);
        assert(s.len() == d + 1 + jr.len());
        assert(all_scope_names(rest)) by {
            assert forall|k: int|
                0 <= k < rest.len() implies (#[trigger] rest[k]).len() > 0 && !rest[k].contains(
                ' ',
            ) by {
                assert(rest[k] == l[k + 1]);
            }
        }
        lemma_join_scopes_tokens(rest, r);
        assert(s[d] == ' ');
        if l.contains(r) {
            let k = choose|k: int| 0 <= k < l.len() && l[k] == r;
            if k == 0 {
                assert(s.subrange(0, d) =~= head);
                assert(is_token_at(s, r, 0));
            } else {
                assert(rest.contains(r)) by {
                    assert(rest[k - 1] == l[k]);
                }
                let i = choose|i: int| is_token_at(jr, r, i);
                assert(is_token_at(s, r, d + 1 + i)) by {
                    assert(s.subrange(d + 1 + i, d + 1 + i + r.len()) =~= r) by {
                        assert forall|x: int| 0 <= x < r.len() implies s[d + 1 + i + x] == r[x] by {
                            assert(jr.subrange(i, i + r.len())[x] == jr[i + x]);
                        }
                    }
                    if i > 0 {
                        assert(s[d + i] == jr[i - 1]);
                    }
                    if i + r.len() < jr.len() {
                        assert(s[d + 1 + i + r.len()] == jr[i + r.len()]);
                    }
                }
            }
        }
        if has_scope_token(s, r) {
            let i = choose|i: int| is_token_at(s, r, i);
            if i <= d && d < i + r.len() {
                assert(r[d - i] == s.subrange(i, i + r.len())[d - i]);
                assert(r.contains(' '));
            } else if i + r.len() <= d {
                if i + r.len() < d {
                    assert(s[i + r.len()] == ' ');
                    assert(head[i + r.len()] == ' ');
                    assert(head.contains(' '));
                }
                if i > 0 {
                    assert(s[i - 1] == ' ');
                    assert(head[i - 1] == ' ');
                    assert(head.contains(' '));
                }
                assert(i == 0 && i + r.len() == d);
                assert(r =~= head) by {
                    assert(forall|x: int| 0 <= x < r.len() ==> r[x] == s.subrange(
                        0,
                        r.len() as int,
                    )[x]);
                }
                assert(l.contains(r)) by {
                    assert(l[0] == r);
                }
            } else {
                let i2 = i - d - 1;
                assert(is_token_at(jr, r, i2)) by {
                    assert(jr.subrange(i2, i2 + r.len()) =~= r) by {
                        assert forall|x: int| 0 <= x < r.len() implies jr[i2 + x] == r[x] by {
                            assert(s.subrange(i, i + r.len())[x] == s[i + x]);
                            assert(s[i + x] == jr[i2 + x]);
                        }
                    }
                    if i2 > 0 {
                        assert(jr[i2 - 1] == s[i - 1]);
                    }
                    if i2 + r.len() < jr.len() {
                        assert(jr[i2 + r.len()] == s[i + r.len()]);
                    }
                }
                let k = choose|k: int| 0 <= k < rest.len() && rest[k] == r;
                assert(l.contains(r)) by {
                    assert(l[k + 1] == r);
                }
            }
        }
    }
}

/// Two scope claims listing the same scope names — in any order, with
/// any repetition — grant exactly the same required scopes.
pub proof fn lemma_scope_claim_order_irrelevant(l1: Seq<Seq<char>>, l2: Seq<Seq<char>>, r: Seq<char>)
    requires
        all_scope_names(l1),
        all_scope_names(l2),
        forall|t: Seq<char>| l1.contains(t) <==> l2.contains(t),
        r.len() > 0,
        !r.contains(' '),
    ensures
        has_scope_token(join_scopes(l1), r) == has_scope_token(join_scopes(l2), r),
{
    lemma_join_scopes_tokens(l1, r);
    lemma_join_scopes_tokens(l2, r);
}

/// Does the scope claim `scp` grant the required scope `required`,
/// token-boundary exact?
pub fn scope_contains(scp: &str, required: &str) -> (b: bool)
    requires
        required@.len() >= 1,
    ensures
        b == has_scope_token(scp@, required@),
{
    let n = scp.unicode_len();
    let m = required.unicode_len();
    if m > n {
        proof {
            assert(forall|i: int| !is_token_at(scp@, required@, i));
        }
        return false;
    }
    let mut i: usize = 0;
    while i <= n - m
        invariant
            n == scp@.len(),
            m == required@.len(),
            m <= n,
            1 <= m,
            i <= n - m + 1,
            forall|k: int| 0 <= k < i ==> !is_token_at(scp@, required@, k),
        decreases n - i,
    {
        let left_ok = i == 0 || scp.get_char(i - 1) == ' ';
        let right_ok = i + m == n || scp.get_char(i + m) == ' ';
        if left_ok && right_ok {
            if crate::text::matches_at(scp, i, required) {
                proof {
                    assert(is_token_at(scp@, required@, i as int));
                }
                return true;
            }
        }
        i += 1;
    }
    proof {
        assert(forall|k: int| is_token_at(scp@, required@, k) ==> 0 <= k <= n - m);
    }
    false
}

} // verus!
