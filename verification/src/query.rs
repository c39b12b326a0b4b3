//! The grammar of the redirect request's target, and the extraction of the
//! `code` query parameter from it.
//!
//! A target is read as `path '?' query` with an optional `'#' fragment`
//! closing the query. The query is a `'&'`-separated list of pairs, each
//! split at its first `'='`; a pair without `'='` has an empty value. Keys
//! and values are form-urlencoded: `'+'` reads as a space and `'%'` with
//! two hex digits as the byte they name (an ill-formed `'%'` passes
//! through unchanged). The code is the decoded value of the first pair
//! whose decoded key is exactly `code`, with no further processing.

use vstd::prelude::*;

verus! {

/// The byte `'?'`, which opens the query of a target.
pub const QUESTION_MARK: u8 = 63;

/// The byte `'#'`, which opens the fragment and closes the query.
pub const HASH_MARK: u8 = 35;

/// The byte `'&'`, which separates query pairs.
pub const AMPERSAND: u8 = 38;

/// The byte `'='`, which splits a pair into key and value.
pub const EQUALS_SIGN: u8 = 61;

/// The byte `'c'`.
pub const LETTER_C: u8 = 99;

/// The byte `'o'`.
pub const LETTER_O: u8 = 111;

/// The byte `'d'`.
pub const LETTER_D: u8 = 100;

/// The byte `'e'`.
pub const LETTER_E: u8 = 101;

/// The byte `'+'`, which a query encodes a space as.
pub const PLUS_SIGN: u8 = 43;

/// The byte `'%'`, which opens a percent escape.
pub const PERCENT_SIGN: u8 = 37;

/// The space byte.
pub const SPACE: u8 = 32;

/// The byte `'0'`.
pub const DIGIT_ZERO: u8 = 48;

/// The byte `'9'`.
pub const DIGIT_NINE: u8 = 57;

/// The byte `'A'`.
pub const UPPER_A: u8 = 65;

/// The byte `'F'`.
pub const UPPER_F: u8 = 70;

/// The byte `'a'`.
pub const LOWER_A: u8 = 97;

/// The byte `'f'`.
pub const LOWER_F: u8 = 102;

/// The value of one hex digit, in either case; `None` for any other byte.
pub open spec fn hex_digit_value(b: u8) -> Option<u8> {
    if DIGIT_ZERO <= b && b <= DIGIT_NINE {
        Some((b - DIGIT_ZERO) as u8)
    } else if UPPER_A <= b && b <= UPPER_F {
        Some((b - UPPER_A + 10) as u8)
    } else if LOWER_A <= b && b <= LOWER_F {
        Some((b - LOWER_A + 10) as u8)
    } else {
        None
    }
}

/// A form-urlencoded component, decoded: `'+'` becomes a space, `'%'`
/// followed by two hex digits becomes the byte they name, and everything
/// else — an ill-formed escape included — passes through unchanged.
pub open spec fn form_decoded(s: Seq<u8>) -> Seq<u8>
    decreases s.len(),
{
    if s.len() == 0 {
        Seq::empty()
    } else if s[0] == PLUS_SIGN {
        seq![SPACE] + form_decoded(s.skip(1))
    } else if s[0] == PERCENT_SIGN && s.len() >= 3 && hex_digit_value(s[1]) is Some
        && hex_digit_value(s[2]) is Some {
        seq![((hex_digit_value(s[1]).unwrap() * 16 + hex_digit_value(s[2]).unwrap()) as u8)]
            + form_decoded(s.skip(3))
    } else {
        seq![s[0]] + form_decoded(s.skip(1))
    }
}

/// Index of the first occurrence of `c` in `s`, if any.
pub open spec fn find_byte(s: Seq<u8>, c: u8) -> Option<int>
    decreases s.len(),
{
    if s.len() == 0 {
        None
    } else if s[0] == c {
        Some(0int)
    } else {
        match find_byte(s.subrange(1, s.len() as int), c) {
            None => None,
            Some(i) => Some(i + 1),
        }
    }
}

/// `find_byte` returns the first index holding `c`, and `None` exactly when
/// `c` does not occur.
pub proof fn lemma_find_byte_spec(s: Seq<u8>, c: u8)
    ensures
        match find_byte(s, c) {
            None => forall|k: int| 0 <= k < s.len() ==> s[k] != c,
            Some(i) => 0 <= i < s.len() && s[i] == c && (forall|k: int| 0 <= k < i ==> s[k] != c),
        },
    decreases s.len(),
{
    if s.len() == 0 {
    } else if s[0] == c {
    } else {
        let rest = s.subrange(1, s.len() as int);
        lemma_find_byte_spec(rest, c);
        match find_byte(rest, c) {
            None => {
                assert forall|k: int| 0 <= k < s.len() implies s[k] != c by {
                    if k >= 1 {
                        assert(rest[k - 1] == s[k]);
                    }
                };
            },
            Some(i) => {
                assert(s[i + 1] == rest[i]);
                assert forall|k: int| 0 <= k < i + 1 implies s[k] != c by {
                    if k >= 1 {
                        assert(rest[k - 1] == s[k]);
                    }
                };
            },
        }
    }
}

/// The query part of a request target: what stands after the first `'?'`,
/// up to the first `'#'`. A target with no `'?'`, or whose first `'#'`
/// comes before it — the `'?'` then belongs to the fragment — has none.
pub open spec fn query_of(t: Seq<u8>) -> Option<Seq<u8>> {
    match find_byte(t, QUESTION_MARK) {
        None => None,
        Some(i) => match find_byte(t, HASH_MARK) {
            None => Some(t.subrange(i + 1, t.len() as int)),
            Some(h) => if h < i {
                None
            } else {
                Some(t.subrange(i + 1, h))
            },
        },
    }
}

/// The key of one `key=value` pair: everything before the first `'='`, or
/// the whole pair when it has none.
pub open spec fn key_of(pair: Seq<u8>) -> Seq<u8> {
    match find_byte(pair, EQUALS_SIGN) {
        None => pair,
        Some(i) => pair.subrange(0, i),
    }
}

/// The value of one `key=value` pair: everything after the first `'='`, or
/// empty when the pair has none.
pub open spec fn value_of(pair: Seq<u8>) -> Seq<u8> {
    match find_byte(pair, EQUALS_SIGN) {
        None => Seq::empty(),
        Some(i) => pair.subrange(i + 1, pair.len() as int),
    }
}

/// The name of the recognized query parameter.
pub open spec fn code_key() -> Seq<u8> {
    seq![LETTER_C, LETTER_O, LETTER_D, LETTER_E]
}

/// The decoded value of the first pair whose decoded key is `code`, among
/// the `'&'`-separated pairs of a query, if any.
pub open spec fn code_of_pairs(q: Seq<u8>) -> Option<Seq<u8>>
    decreases q.len(),
    via code_of_pairs_decreases
{
    match find_byte(q, AMPERSAND) {
        None => if form_decoded(key_of(q)) == code_key() {
            Some(form_decoded(value_of(q)))
        } else {
            None
        },
        Some(i) => {
            let pair = q.subrange(0, i);
            if form_decoded(key_of(pair)) == code_key() {
                Some(form_decoded(value_of(pair)))
            } else {
                code_of_pairs(q.subrange(i + 1, q.len() as int))
            }
        },
    }
}

#[via_fn]
proof fn code_of_pairs_decreases(q: Seq<u8>) {
    lemma_find_byte_spec(q, AMPERSAND);
}

/// The authorization code carried by a request target: the decoded value
/// of the first pair of its query whose decoded key is `code`, if the
/// target has a query at all.
pub open spec fn code_of_target(t: Seq<u8>) -> Option<Seq<u8>> {
    match query_of(t) {
        None => None,
        Some(q) => code_of_pairs(q),
    }
}

/// First index in `[from, to)` where `s` holds `c`, as `find_byte` names it
/// on that range.
fn find_byte_in(s: &[u8], from: usize, to: usize, c: u8) -> (r: Option<usize>)
    requires
        from <= to <= s@.len(),
    ensures
        match find_byte(s@.subrange(from as int, to as int), c) {
            None => r is None,
            Some(i) => r matches Some(k) && k == from + i && from <= k < to && s@[k as int] == c,
        },
{
    let ghost sub = s@.subrange(from as int, to as int);
    let mut i: usize = from;
    while i < to
        invariant
            from <= i <= to <= s@.len(),
            sub == s@.subrange(from as int, to as int),
            forall|k: int| from <= k < i ==> s@[k] != c,
        decreases to - i,
    {
        if s[i] == c {
            proof {
                lemma_find_byte_spec(sub, c);
                assert(sub[i - from] == s@[i as int]);
                assert forall|k: int| 0 <= k < i - from implies sub[k] != c by {
                    assert(sub[k] == s@[from + k]);
                };
            }
            return Some(i);
        }
        i = i + 1;
    }
    proof {
        lemma_find_byte_spec(sub, c);
        assert forall|k: int| 0 <= k < sub.len() implies sub[k] != c by {
            assert(sub[k] == s@[from + k]);
        };
    }
    None
}

/// The value of one hex digit, exactly as `hex_digit_value` names it.
fn hex_value(b: u8) -> (r: Option<u8>)
    ensures
        r == hex_digit_value(b),
{
    if DIGIT_ZERO <= b && b <= DIGIT_NINE {
        Some(b - DIGIT_ZERO)
    } else if UPPER_A <= b && b <= UPPER_F {
        Some(b - UPPER_A + 10)
    } else if LOWER_A <= b && b <= LOWER_F {
        Some(b - LOWER_A + 10)
    } else {
        None
    }
}

/// Decodes `s[from..to]` as a form-urlencoded component, exactly as
/// `form_decoded` names it.
fn decode_component(s: &[u8], from: usize, to: usize) -> (v: Vec<u8>)
    requires
        from <= to <= s@.len(),
    ensures
        v@ == form_decoded(s@.subrange(from as int, to as int)),
{
    let ghost whole = s@.subrange(from as int, to as int);
    let mut v: Vec<u8> = Vec::new();
    let mut k: usize = from;
    while k < to
        invariant
            from <= k <= to <= s@.len(),
            whole == s@.subrange(from as int, to as int),
            form_decoded(whole) == v@ + form_decoded(s@.subrange(k as int, to as int)),
        decreases to - k,
    {
        let ghost rem = s@.subrange(k as int, to as int);
        let ghost v0 = v@;
        proof {
            assert(rem[0] == s@[k as int]);
            if rem.len() >= 3 {
                assert(rem[1] == s@[k + 1]);
                assert(rem[2] == s@[k + 2]);
            }
        }
        let b = s[k];
        if b == PLUS_SIGN {
            v.push(SPACE);
            proof {
                assert(rem.skip(1) =~= s@.subrange(k + 1, to as int));
                assert(form_decoded(rem) == seq![SPACE] + form_decoded(rem.skip(1)));
                assert(v@ =~= v0 + seq![SPACE]);
                assert((v0 + seq![SPACE]) + form_decoded(rem.skip(1)) =~= v0 + (seq![SPACE]
                    + form_decoded(rem.skip(1))));
            }
            k = k + 1;
        } else if b == PERCENT_SIGN && to - k >= 3 {
            let h1 = hex_value(s[k + 1]);
            let h2 = hex_value(s[k + 2]);
            match (h1, h2) {
                (Some(hi), Some(lo)) => {
                    let d = hi * 16 + lo;
                    v.push(d);
                    proof {
                        assert(rem.skip(3) =~= s@.subrange(k + 3, to as int));
                        assert(form_decoded(rem) == seq![d] + form_decoded(rem.skip(3)));
                        assert(v@ =~= v0 + seq![d]);
                        assert((v0 + seq![d]) + form_decoded(rem.skip(3)) =~= v0 + (seq![d]
                            + form_decoded(rem.skip(3))));
                    }
                    k = k + 3;
                },
                _ => {
                    v.push(b);
                    proof {
                        assert(rem.skip(1) =~= s@.subrange(k + 1, to as int));
                        assert(form_decoded(rem) == seq![b] + form_decoded(rem.skip(1)));
                        assert(v@ =~= v0 + seq![b]);
                        assert((v0 + seq![b]) + form_decoded(rem.skip(1)) =~= v0 + (seq![b]
                            + form_decoded(rem.skip(1))));
                    }
                    k = k + 1;
                },
            }
        } else {
            v.push(b);
            proof {
                assert(rem.skip(1) =~= s@.subrange(k + 1, to as int));
                assert(form_decoded(rem) == seq![b] + form_decoded(rem.skip(1)));
                assert(v@ =~= v0 + seq![b]);
                assert((v0 + seq![b]) + form_decoded(rem.skip(1)) =~= v0 + (seq![b]
                    + form_decoded(rem.skip(1))));
            }
            k = k + 1;
        }
    }
    proof {
        assert(s@.subrange(k as int, to as int) =~= Seq::<u8>::empty());
        assert(form_decoded(Seq::<u8>::empty()) =~= Seq::<u8>::empty());
        assert(v@ + Seq::<u8>::empty() =~= v@);
    }
    v
}

/// Whether a decoded key is exactly the parameter name `code`.
fn is_code_word(v: &Vec<u8>) -> (r: bool)
    ensures
        r == (v@ == code_key()),
{
    let r = v.len() == 4 && v[0] == LETTER_C && v[1] == LETTER_O && v[2] == LETTER_D && v[3]
        == LETTER_E;
    proof {
        if r {
            assert(v@ =~= code_key());
        } else {
            if v@ == code_key() {
                assert(v@[0] == code_key()[0]);
                assert(v@[1] == code_key()[1]);
                assert(v@[2] == code_key()[2]);
                assert(v@[3] == code_key()[3]);
            }
        }
    }
    r
}

/// Extracts the authorization code from a request target, exactly as
/// `code_of_target` names it.
pub fn extract_code(target: &[u8]) -> (r: Option<Vec<u8>>)
    ensures
        match code_of_target(target@) {
            None => r is None,
            Some(c) => r matches Some(v) && v@ == c,
        },
{
    let n = target.len();
    proof {
        assert(target@.subrange(0, n as int) =~= target@);
    }
    let q_pos: usize = match find_byte_in(target, 0, n, QUESTION_MARK) {
        None => {
            return None;
        },
        Some(i) => i,
    };
    let q_start: usize = q_pos + 1;
    let q_end: usize = match find_byte_in(target, 0, n, HASH_MARK) {
        None => n,
        Some(h) => {
            if h < q_pos {
                return None;
            }
            h
        },
    };
    let ghost q = target@.subrange(q_start as int, q_end as int);
    proof {
        assert(query_of(target@) == Some(q));
    }
    let mut p: usize = q_start;
    loop
        invariant
            q_start <= p <= q_end <= target@.len(),
            query_of(target@) == Some(q),
            code_of_pairs(target@.subrange(p as int, q_end as int)) == code_of_pairs(q),
        decreases q_end - p,
    {
        let ghost rem = target@.subrange(p as int, q_end as int);
        let amp = find_byte_in(target, p, q_end, AMPERSAND);
        let pair_end: usize = match amp {
            None => q_end,
            Some(a) => a,
        };
        let ghost pair = target@.subrange(p as int, pair_end as int);
        proof {
            if amp is Some {
                assert(rem.subrange(0, pair_end - p) =~= pair);
            } else {
                assert(rem =~= pair);
            }
        }
        let eq_at = find_byte_in(target, p, pair_end, EQUALS_SIGN);
        let key_end: usize = match eq_at {
            None => pair_end,
            Some(x) => x,
        };
        let value_start: usize = match eq_at {
            None => pair_end,
            Some(x) => x + 1,
        };
        proof {
            if eq_at is Some {
                assert(pair.subrange(0, key_end - p) =~= target@.subrange(
                    p as int,
                    key_end as int,
                ));
                assert(pair.subrange(value_start - p, pair.len() as int) =~= target@.subrange(
                    value_start as int,
                    pair_end as int,
                ));
            }
            assert(key_of(pair) == target@.subrange(p as int, key_end as int));
            assert(value_of(pair) == if eq_at is Some {
                target@.subrange(value_start as int, pair_end as int)
            } else {
                Seq::<u8>::empty()
            });
        }
        let key = decode_component(target, p, key_end);
        let is_code = is_code_word(&key);
        if is_code {
            let v = decode_component(target, value_start, pair_end);
            proof {
                if eq_at is None {
                    assert(target@.subrange(value_start as int, pair_end as int)
                        =~= Seq::<u8>::empty());
                    assert(form_decoded(Seq::<u8>::empty()) =~= Seq::<u8>::empty());
                }
                assert(code_of_pairs(rem) == Some(form_decoded(value_of(pair))));
            }
            return Some(v);
        }
        match amp {
            None => {
                proof {
                    assert(code_of_pairs(rem) is None);
                }
                return None;
            },
            Some(a) => {
                proof {
                    assert(rem.subrange(a - p + 1, rem.len() as int) =~= target@.subrange(
                        a + 1,
                        q_end as int,
                    ));
                    assert(code_of_pairs(rem) == code_of_pairs(
                        target@.subrange(a + 1, q_end as int),
                    ));
                }
                p = a + 1;
            },
        }
    }
}

} // verus!
