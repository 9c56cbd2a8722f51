//! Small parsing helpers of the web stack.
use vstd::prelude::*;
use vstd::std_specs::iter::IteratorSpec;
use std::str::Chars;
use crate::html::{is_white_space, is_white_space_char};
use crate::text::chars_of;
use vstd::hash_map::StringHashMap;

verus! {

broadcast use vstd::string::group_string_axioms;

/// The characters left after skipping white space at the front of
/// `cur` followed by `rest`: the new current character and the rest.
pub open spec fn skip_ws_spec(cur: Option<char>, rest: Seq<char>) -> (Option<char>, Seq<char>)
    decreases rest.len(),
{
    match cur {
        Some(c) => if is_white_space(c) {
            if rest.len() == 0 {
                (None, rest)
            } else {
                skip_ws_spec(Some(rest[0]), rest.drop_first())
            }
        } else {
            (cur, rest)
        },
        None => (None, rest),
    }
}

/// Advances past white space: while the current character is white space,
/// the next one is read.
pub fn skip_whitespace(chars: &mut Chars, current_char: &mut Option<char>)
    requires
        (*old(chars)).obeys_prophetic_iter_laws(),
        (*old(chars)).decrease() is Some,
    ensures
        (*final(chars)).obeys_prophetic_iter_laws(),
        (*final(chars)).decrease() is Some,
        (*final(current_char), (*final(chars)).remaining()) == skip_ws_spec(
            *old(current_char),
            (*old(chars)).remaining(),
        ),
{
    loop
        invariant
            (*chars).obeys_prophetic_iter_laws(),
            (*chars).decrease() is Some,
            skip_ws_spec(*current_char, (*chars).remaining()) == skip_ws_spec(
                *old(current_char),
                (*old(chars)).remaining(),
            ),
        ensures
            skip_ws_spec(*current_char, (*chars).remaining()) == (
                *current_char,
                (*chars).remaining(),
            ),
        decreases (*chars).decrease()->0,
    {
        match *current_char {
            Some(c) => {
                if is_white_space_char(c) {
                    let next = chars.next();
                    *current_char = next;
                    if next.is_none() {
                        break;
                    }
                } else {
                    break;
                }
            },
            None => break,
        }
    }
}

/// The outcome of matching `expected` against `cur` followed by `rest`: the
/// current character and the rest where matching stopped, and the expected
/// character with the one found in its place at the first mismatch.
pub open spec fn expect_spec(cur: Option<char>, rest: Seq<char>, expected: Seq<char>) -> (
    Option<char>,
    Seq<char>,
    Option<(char, Option<char>)>,
)
    decreases expected.len(),
{
    if expected.len() == 0 {
        (cur, rest, None)
    } else if cur != Some(expected[0]) {
        (cur, rest, Some((expected[0], cur)))
    } else if rest.len() == 0 {
        expect_spec(None, rest, expected.drop_first())
    } else {
        expect_spec(Some(rest[0]), rest.drop_first(), expected.drop_first())
    }
}

/// The text reporting that `expected` was due and `found` came instead.
pub uninterp spec fn mismatch_text(expected: char, found: Option<char>) -> Seq<char>;

/// Relies on `format!`: the message `Expected '<c>', found '<found>'`, with
/// the found character written as `Option`'s `Debug` writes it; the text
/// depends on the two values alone.
#[verifier::external_body]
fn mismatch_message(expected: char, found: Option<char>) -> (r: String)
    ensures
        r@ == mismatch_text(expected, found),
{
    format!("Expected '{}', found '{:?}'", expected, found)
}

/// Reads the characters of `expected` one by one: each must be the current
/// character, after which the next one is read. At the first mismatch the
/// reading stops and the error names both characters.
pub fn expect_sequence(chars: &mut Chars, current_char: &mut Option<char>, expected: &str) -> (r:
    Result<(), String>)
    requires
        (*old(chars)).obeys_prophetic_iter_laws(),
        (*old(chars)).decrease() is Some,
    ensures
        (*final(chars)).obeys_prophetic_iter_laws(),
        (*final(chars)).decrease() is Some,
        ({
            let e = expect_spec(*old(current_char), (*old(chars)).remaining(), expected@);
            &&& *final(current_char) == e.0
            &&& (*final(chars)).remaining() == e.1
            &&& match e.2 {
                None => r is Ok,
                Some((x, f)) => r matches Err(m) && m@ == mismatch_text(x, f),
            }
        }),
{
    let exp = crate::text::chars_of(expected);
    let mut k: usize = 0;
    assert(exp@.subrange(0, exp@.len() as int) =~= exp@);
    while k < exp.len()
        invariant
            exp@ == expected@,
            k <= exp@.len(),
            (*chars).obeys_prophetic_iter_laws(),
            (*chars).decrease() is Some,
            expect_spec(*current_char, (*chars).remaining(), exp@.subrange(k as int, exp@.len() as int))
                == expect_spec(*old(current_char), (*old(chars)).remaining(), expected@),
        decreases exp@.len() - k,
    {
        let e = exp[k];
        let ghost tail = exp@.subrange(k as int, exp@.len() as int);
        assert(tail[0] == e);
        assert(tail.drop_first() =~= exp@.subrange(k + 1, exp@.len() as int));
        if *current_char != Some(e) {
            return Err(mismatch_message(e, *current_char));
        }
        *current_char = chars.next();
        k = k + 1;
    }
    assert(exp@.subrange(k as int, exp@.len() as int) =~= Seq::<char>::empty());
    Ok(())
}

/// The first index in `[i, j)` whose character is `c`, or `j`.
pub open spec fn find_char(s: Seq<char>, i: int, j: int, c: char) -> int
    decreases j - i,
{
    if i >= j {
        j
    } else if s[i] == c {
        i
    } else {
        find_char(s, i + 1, j, c)
    }
}

/// Finds `c` in `s[i..j)`.
fn find_char_in(s: &Vec<char>, i: usize, j: usize, c: char) -> (r: usize)
    requires
        i <= j <= s@.len(),
    ensures
        r == find_char(s@, i as int, j as int, c),
        i <= r <= j,
{
    let mut k = i;
    while k < j && s[k] != c
        invariant
            i <= k <= j <= s@.len(),
            find_char(s@, i as int, j as int, c) == find_char(s@, k as int, j as int, c),
        decreases j - k,
    {
        k = k + 1;
    }
    k
}

/// The map a query string in `s[i..j)` describes, added to `m`: the text is
/// cut at each `&`; a piece with an `=` gives the key before its first `=`
/// and the value up to the next `=` or the end of the piece; a piece with no
/// `=` gives nothing; a later key replaces an earlier one.
pub open spec fn query_map(s: Seq<char>, i: int, j: int, m: Map<Seq<char>, Seq<char>>) -> Map<
    Seq<char>,
    Seq<char>,
>
    decreases j - i,
{
    if i >= j {
        m
    } else {
        let e = find_char(s, i, j, '&');
        let q = find_char(s, i, e, '=');
        let m2 = if q < e {
            m.insert(s.subrange(i, q), s.subrange(q + 1, find_char(s, q + 1, e, '=')))
        } else {
            m
        };
        if e < i || e >= j {
            m2
        } else {
            query_map(s, e + 1, j, m2)
        }
    }
}

/// Whether the map `r` holds the keys of `m`, each with the text `m` gives it.
pub open spec fn holds_entries(r: Map<Seq<char>, String>, m: Map<Seq<char>, Seq<char>>) -> bool {
    &&& r.dom() == m.dom()
    &&& forall|k: Seq<char>| #[trigger] m.contains_key(k) ==> r[k]@ == m[k]
}

/// Parses the query string in `s[from..to)`, where `s` holds the characters
/// of `text`.
fn query_in(s: &Vec<char>, text: &str, from: usize, to: usize) -> (r: StringHashMap<String>)
    requires
        s@ == text@,
        from <= to <= s@.len(),
    ensures
        holds_entries(r@, query_map(s@, from as int, to as int, Map::empty())),
{
    let mut r: StringHashMap<String> = StringHashMap::new();
    let ghost m: Map<Seq<char>, Seq<char>> = Map::empty();
    let mut i = from;
    while i < to
        invariant
            s@ == text@,
            from <= i <= to <= s@.len(),
            holds_entries(r@, m),
            query_map(s@, from as int, to as int, Map::empty()) == query_map(
                s@,
                i as int,
                to as int,
                m,
            ),
        decreases to - i,
    {
        let e = find_char_in(s, i, to, '&');
        let q = find_char_in(s, i, e, '=');
        let ghost m0 = m;
        if q < e {
            let v = find_char_in(s, q + 1, e, '=');
            let key = String::from_str(text.substring_char(i, q));
            let value = String::from_str(text.substring_char(q + 1, v));
            r.insert(key, value);
            proof {
                m = m.insert(s@.subrange(i as int, q as int), s@.subrange(q + 1, v as int));
                assert forall|k: Seq<char>| #[trigger] m.contains_key(k) implies r@[k]@ == m[k] by {
                    if k != s@.subrange(i as int, q as int) {
                        assert(m0.contains_key(k));
                    }
                }
                assert(r@.dom() =~= m.dom());
            }
        }
        assert(query_map(s@, i as int, to as int, m0) == if e >= to {
            m
        } else {
            query_map(s@, e + 1, to as int, m)
        });
        if e >= to {
            i = to;
        } else {
            i = e + 1;
        }
    }
    r
}

/// Parses a query string: `name=John&age=30` maps `name` to `John` and
/// `age` to `30`.
pub fn parse_query_string(query: &str) -> (r: StringHashMap<String>)
    ensures
        holds_entries(r@, query_map(query@, 0, query@.len() as int, Map::empty())),
{
    let s = chars_of(query);
    query_in(&s, query, 0, s.len())
}

/// The first index from `i` on where `://` starts in `s`, or the length of
/// `s` when there is none.
pub open spec fn find_scheme_end(s: Seq<char>, i: int) -> int
    decreases s.len() - i,
{
    if i < 0 || i + 3 > s.len() {
        s.len() as int
    } else if s[i] == ':' && s[i + 1] == '/' && s[i + 2] == '/' {
        i
    } else {
        find_scheme_end(s, i + 1)
    }
}

/// The parts of a URL: the scheme before the first `://`; the host up to the
/// next `/`; the path from that `/` on, `/` when there is none; the query
/// parameters after a `?`. A `?` in the host ends the host and gives the
/// path `/`. No `://` means no URL.
pub open spec fn url_parts(s: Seq<char>) -> Option<
    (Seq<char>, Seq<char>, Seq<char>, Map<Seq<char>, Seq<char>>),
> {
    let n = s.len() as int;
    let p = find_scheme_end(s, 0);
    if p + 3 > n {
        None
    } else {
        let scheme = s.subrange(0, p);
        let h = p + 3;
        let slash = find_char(s, h, n, '/');
        let hq = find_char(s, h, slash, '?');
        if hq < slash {
            Some((scheme, s.subrange(h, hq), "/"@, query_map(s, hq + 1, slash, Map::empty())))
        } else if slash < n {
            let pq = find_char(s, slash + 1, n, '?');
            if pq < n {
                Some(
                    (
                        scheme,
                        s.subrange(h, slash),
                        "/"@ + s.subrange(slash + 1, pq),
                        query_map(s, pq + 1, n, Map::empty()),
                    ),
                )
            } else {
                Some((scheme, s.subrange(h, slash), "/"@ + s.subrange(slash + 1, n), Map::empty()))
            }
        } else {
            Some((scheme, s.subrange(h, slash), "/"@, Map::empty()))
        }
    }
}

/// `"/"` followed by the characters of `text` in `[from, to)`.
fn rooted(text: &str, from: usize, to: usize) -> (r: String)
    requires
        from <= to <= text@.len(),
    ensures
        r@ == "/"@ + text@.subrange(from as int, to as int),
{
    let mut r = String::from_str("/");
    r.append(text.substring_char(from, to));
    r
}

/// Splits a URL into its scheme, host, path and query parameters;
/// `None` when it has no `://`.
pub fn parse_url(url: &str) -> (r: Option<(String, String, String, StringHashMap<String>)>)
    ensures
        match r {
            None => url_parts(url@) is None,
            Some((scheme, host, path, query)) => url_parts(url@) matches Some((a, b, c, m)) && scheme@
                == a && host@ == b && path@ == c && holds_entries(query@, m),
        },
{
    let s = chars_of(url);
    let n = s.len();
    let mut p: usize = 0;
    while n >= 3 && p <= n - 3 && !(s[p] == ':' && s[p + 1] == '/' && s[p + 2] == '/')
        invariant
            s@ == url@,
            n == s@.len(),
            p <= n,
            find_scheme_end(s@, 0) == find_scheme_end(s@, p as int),
        decreases n - p,
    {
        p = p + 1;
    }
    if n < 3 || p > n - 3 {
        return None;
    }
    let scheme = String::from_str(url.substring_char(0, p));
    let h = p + 3;
    let slash = find_char_in(&s, h, n, '/');
    let hq = find_char_in(&s, h, slash, '?');
    if hq < slash {
        let host = String::from_str(url.substring_char(h, hq));
        let query = query_in(&s, url, hq + 1, slash);
        Some((scheme, host, String::from_str("/"), query))
    } else if slash < n {
        let host = String::from_str(url.substring_char(h, slash));
        let pq = find_char_in(&s, slash + 1, n, '?');
        if pq < n {
            let query = query_in(&s, url, pq + 1, n);
            Some((scheme, host, rooted(url, slash + 1, pq), query))
        } else {
            let query = StringHashMap::new();
            assert(holds_entries(query@, Map::empty()));
            Some((scheme, host, rooted(url, slash + 1, n), query))
        }
    } else {
        let host = String::from_str(url.substring_char(h, slash));
        let query = StringHashMap::new();
        assert(holds_entries(query@, Map::empty()));
        Some((scheme, host, String::from_str("/"), query))
    }
}

} // verus!
