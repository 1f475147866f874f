//! A verified base64 decoder covering both alphabets this library needs:
//! the URL-safe alphabet for the token's segments and the standard
//! alphabet for the certificate chain entries of the key set. Up to two
//! trailing `=` padding characters are accepted in either alphabet.

use vstd::prelude::*;

verus! {

/// Is `c` a character of the chosen base64 alphabet? `url` selects the
/// URL-safe alphabet (`-`, `_`) over the standard one (`+`, `/`).
pub open spec fn sextet_ok(url: bool, c: char) -> bool {
    let x = c as u32;
    ||| (65 <= x && x <= 90)
    ||| (97 <= x && x <= 122)
    ||| (48 <= x && x <= 57)
    ||| (!url && (x == 43 || x == 47))
    ||| (url && (x == 45 || x == 95))
}

/// The six-bit value of an alphabet character (meaningful only where
/// `sextet_ok` holds).
pub open spec fn sextet_val(url: bool, c: char) -> u8 {
    let x = c as u32;
    if 65 <= x && x <= 90 {
        (x - 65) as u8
    } else if 97 <= x && x <= 122 {
        (x - 71) as u8
    } else if 48 <= x && x <= 57 {
        (x + 4) as u8
    } else if x == 43 || x == 45 {
        62u8
    } else {
        63u8
    }
}

/// How many `=` padding characters end `s` (at most two are stripped).
pub open spec fn pad_len(s: Seq<char>) -> int {
    if s.len() >= 1 && s[s.len() - 1] == '=' {
        if s.len() >= 2 && s[s.len() - 2] == '=' {
            2
        } else {
            1
        }
    } else {
        0
    }
}

/// A padding-free encoding is acceptable when its length is not 1 mod 4
/// and every character is in the alphabet.
pub open spec fn core_ok(url: bool, s: Seq<char>) -> bool {
    s.len() % 4 != 1 && (forall|i: int| 0 <= i < s.len() ==> sextet_ok(url, s[i]))
}

/// Number of bytes encoded by `n` alphabet characters.
pub open spec fn decoded_len(n: int) -> int {
    (n / 4) * 3 + if n % 4 == 2 {
        1int
    } else if n % 4 == 3 {
        2int
    } else {
        0int
    }
}

/// The `j`-th decoded byte: three output bytes are drawn from each
/// group of four six-bit values.
pub open spec fn group_byte(url: bool, s: Seq<char>, j: int) -> u8 {
    let g = j / 3;
    let r = j % 3;
    if r == 0 {
        ((sextet_val(url, s[4 * g]) as int) * 4 + (sextet_val(url, s[4 * g + 1]) as int) / 16) as u8
    } else if r == 1 {
        ((sextet_val(url, s[4 * g + 1]) as int) % 16 * 16 + (sextet_val(url, s[4 * g + 2]) as int)
            / 4) as u8
    } else {
        ((sextet_val(url, s[4 * g + 2]) as int) % 4 * 64 + (sextet_val(url, s[4 * g + 3]) as int)) as u8
    }
}

/// All bytes encoded by a padding-free acceptable input.
pub open spec fn decoded(url: bool, s: Seq<char>) -> Seq<u8> {
    Seq::new(decoded_len(s.len() as int) as nat, |j: int| group_byte(url, s, j))
}

/// What decoding a full input means: strip the padding, then decode the
/// rest if acceptable.
pub open spec fn b64_decode(url: bool, s: Seq<char>) -> Option<Seq<u8>> {
    let t = s.take(s.len() - pad_len(s));
    if core_ok(url, t) {
        Some(decoded(url, t))
    } else {
        None
    }
}

/// Six-bit value of one character, or `None` when it is outside the
/// alphabet.
fn sextet(url: bool, c: char) -> (r: Option<u8>)
    ensures
        r is Some <==> sextet_ok(url, c),
        r matches Some(v) ==> v == sextet_val(url, c) && v < 64,
{
    let x = c as u32;
    if 65 <= x && x <= 90 {
        Some((x - 65) as u8)
    } else if 97 <= x && x <= 122 {
        Some((x - 71) as u8)
    } else if 48 <= x && x <= 57 {
        Some((x + 4) as u8)
    } else if (!url && (x == 43 || x == 47)) || (url && (x == 45 || x == 95)) {
        if x == 43 || x == 45 {
            Some(62)
        } else {
            Some(63)
        }
    } else {
        None
    }
}

/// Decode `s` under the chosen alphabet. Returns `None` exactly where
/// the input, after stripping padding, has an unacceptable length or a
/// character outside the alphabet.
pub fn base64_decode(s: &str, url: bool) -> (r: Option<Vec<u8>>)
    ensures
        r matches Some(v) ==> b64_decode(url, s@) == Some(v@),
        r is None ==> b64_decode(url, s@) is None,
{
    let n = s.unicode_len();
    let mut p: usize = 0;
    if n >= 1 && s.get_char(n - 1) == '=' {
        p = 1;
        if n >= 2 && s.get_char(n - 2) == '=' {
            p = 2;
        }
    }
    proof {
        assert(p == pad_len(s@));
    }
    let m = n - p;
    let ghost t = s@.take(m as int);
    if m % 4 == 1 {
        return None;
    }
    let full = (m / 4) * 4;
    let mut out: Vec<u8> = Vec::new();
    let mut i: usize = 0;
    while i < full
        invariant
            n == s@.len(),
            p == pad_len(s@),
            m == n - p,
            t == s@.take(m as int),
            m % 4 != 1,
            full == (m / 4) * 4,
            i % 4 == 0,
            i <= full,
            forall|k: int| 0 <= k < i ==> sextet_ok(url, t[k]),
            out@.len() == (i / 4) * 3,
            forall|j: int| 0 <= j < out@.len() ==> out@[j] == group_byte(url, t, j),
        decreases full - i,
    {
        proof {
            assert(i + 4 <= full);
            assert(t[i as int] == s@[i as int]);
            assert(t[i + 1] == s@[i + 1]);
            assert(t[i + 2] == s@[i + 2]);
            assert(t[i + 3] == s@[i + 3]);
        }
        let v0 = match sextet(url, s.get_char(i)) {
            Some(v) => v,
            None => {
                return None;
            },
        };
        let v1 = match sextet(url, s.get_char(i + 1)) {
            Some(v) => v,
            None => {
                return None;
            },
        };
        let v2 = match sextet(url, s.get_char(i + 2)) {
            Some(v) => v,
            None => {
                return None;
            },
        };
        let v3 = match sextet(url, s.get_char(i + 3)) {
            Some(v) => v,
            None => {
                return None;
            },
        };
        let ghost g = i as int / 4;
        proof {
            assert(out@.len() == 3 * g);
            assert((3 * g) / 3 == g && (3 * g) % 3 == 0) by (nonlinear_arith);
            assert((3 * g + 1) / 3 == g && (3 * g + 1) % 3 == 1) by (nonlinear_arith);
            assert((3 * g + 2) / 3 == g && (3 * g + 2) % 3 == 2) by (nonlinear_arith);
            assert(4 * g == i);
        }
        out.push(v0 * 4 + v1 / 16);
        out.push(v1 % 16 * 16 + v2 / 4);
        out.push(v2 % 4 * 64 + v3);
        i += 4;
    }
    let tail = m % 4;
    if tail >= 2 {
        proof {
            assert(i + tail == m);
            assert(t[i as int] == s@[i as int]);
            assert(t[i + 1] == s@[i + 1]);
        }
        let v0 = match sextet(url, s.get_char(i)) {
            Some(v) => v,
            None => {
                return None;
            },
        };
        let v1 = match sextet(url, s.get_char(i + 1)) {
            Some(v) => v,
            None => {
                return None;
            },
        };
        let ghost g = i as int / 4;
        proof {
            assert(out@.len() == 3 * g);
            assert((3 * g) / 3 == g && (3 * g) % 3 == 0) by (nonlinear_arith);
            assert((3 * g + 1) / 3 == g && (3 * g + 1) % 3 == 1) by (nonlinear_arith);
            assert(4 * g == i);
        }
        out.push(v0 * 4 + v1 / 16);
        if tail == 3 {
            proof {
                assert(t[i + 2] == s@[i + 2]);
            }
            let v2 = match sextet(url, s.get_char(i + 2)) {
                Some(v) => v,
                None => {
                    return None;
                },
            };
            out.push(v1 % 16 * 16 + v2 / 4);
        }
    }
    proof {
        assert(forall|k: int| 0 <= k < t.len() ==> sextet_ok(url, t[k]));
        assert(core_ok(url, t));
        assert(out@ =~= decoded(url, t));
    }
    Some(out)
}

} // verus!
