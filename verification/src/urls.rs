//! Pieces of URLs and links: percent-encoding a query value, and cutting
//! playlist ids out of the links users paste.

use vstd::prelude::*;
use vstd::string::*;
use vstd::utf8::*;

use crate::text::{chars_of, find_from, occurs_at, push_char, string_from_range, trim, trimmed};

verus! {

broadcast use vstd::string::group_string_axioms;

// ---------------------------------------------------------------------------
// Percent-encoding

/// The bytes a query value keeps as they are: ASCII letters, digits, `-`, `_`, `.` and `~`.
pub open spec fn unreserved(b: u8) -> bool {
    (65 <= b <= 90) || (97 <= b <= 122) || (48 <= b <= 57) || b == 45 || b == 95 || b == 46 || b == 126
}

/// The upper-case hexadecimal digit of `n` (below 16).
pub open spec fn hex_digit(n: u8) -> char {
    if n < 10 {
        (48 + n) as char
    } else {
        (55 + n) as char
    }
}

/// How one byte is written: itself when unreserved, else `%` and two upper-case hex digits.
pub open spec fn encode_byte(b: u8) -> Seq<char> {
    if unreserved(b) {
        seq![b as char]
    } else {
        seq!['%', hex_digit(b / 16), hex_digit(b % 16)]
    }
}

/// Bytes percent-encoded, one after the other.
pub open spec fn percent_encoded(bytes: Seq<u8>) -> Seq<char>
    decreases bytes.len(),
{
    if bytes.len() == 0 {
        Seq::empty()
    } else {
        encode_byte(bytes[0]) + percent_encoded(bytes.drop_first())
    }
}

/// The value of a hexadecimal digit.
pub open spec fn hex_value(c: char) -> int {
    if '0' <= c <= '9' {
        c as int - 48
    } else if 'A' <= c <= 'F' {
        c as int - 55
    } else if 'a' <= c <= 'f' {
        c as int - 87
    } else {
        0
    }
}

/// Percent-decoding: `%` and two hex digits stand for one byte, any other
/// character for its own code.
pub open spec fn percent_decoded(s: Seq<char>) -> Seq<u8>
    decreases s.len(),
{
    if s.len() == 0 {
        Seq::empty()
    } else if s[0] == '%' && s.len() >= 3 {
        seq![(hex_value(s[1]) * 16 + hex_value(s[2])) as u8] + percent_decoded(s.skip(3))
    } else {
        seq![s[0] as u8] + percent_decoded(s.drop_first())
    }
}

proof fn lemma_encoded_push(bytes: Seq<u8>, b: u8)
    ensures
        percent_encoded(bytes.push(b)) == percent_encoded(bytes) + encode_byte(b),
    decreases bytes.len(),
{
    if bytes.len() == 0 {
        assert(bytes.push(b).drop_first() =~= Seq::<u8>::empty());
        assert(bytes.push(b)[0] == b);
        assert(percent_encoded(Seq::<u8>::empty()) =~= Seq::<char>::empty());
        assert(percent_encoded(bytes.push(b).drop_first()) =~= Seq::<char>::empty());
        assert(percent_encoded(bytes.push(b)) =~= encode_byte(b) + Seq::<char>::empty());
        assert(percent_encoded(bytes) + encode_byte(b) =~= encode_byte(b));
    } else {
        assert(bytes.push(b).drop_first() =~= bytes.drop_first().push(b));
        lemma_encoded_push(bytes.drop_first(), b);
        assert(percent_encoded(bytes.push(b)) =~= encode_byte(bytes[0]) + (percent_encoded(bytes.drop_first())
            + encode_byte(b)));
    }
}

/// Percent-decoding what was percent-encoded gives back the bytes.
pub proof fn lemma_percent_round_trip(bytes: Seq<u8>)
    ensures
        percent_decoded(percent_encoded(bytes)) == bytes,
    decreases bytes.len(),
{
    if bytes.len() > 0 {
        let b = bytes[0];
        let rest = percent_encoded(bytes.drop_first());
        let s = encode_byte(b) + rest;
        lemma_percent_round_trip(bytes.drop_first());
        if unreserved(b) {
            assert(s[0] == b as char);
            assert(s.drop_first() =~= rest);
            assert((b as char) as u8 == b);
        } else {
            let hi = (b / 16) as u8;
            let lo = (b % 16) as u8;
            assert(s[0] == '%' && s[1] == hex_digit(hi) && s[2] == hex_digit(lo));
            assert(s.skip(3) =~= rest);
            assert(hex_value(hex_digit(hi)) == hi as int);
            assert(hex_value(hex_digit(lo)) == lo as int);
            assert(hi * 16 + lo == b);
        }
        assert(percent_decoded(s) =~= bytes);
    }
}

fn hex_char(n: u8) -> (c: char)
    requires
        n < 16,
    ensures
        c == hex_digit(n),
{
    if n < 10 {
        (48u8 + n) as char
    } else {
        (55u8 + n) as char
    }
}

/// The UTF-8 bytes of `input` with every byte but ASCII letters, digits, `-`,
/// `_`, `.` and `~` written as `%` and two upper-case hex digits.
pub fn percent_encode(input: &str) -> (r: String)
    ensures
        r@ == percent_encoded(input.spec_bytes()),
{
    let bytes = input.as_bytes();
    let mut out = String::new();
    let mut i: usize = 0;
    assert(bytes@.take(0) =~= Seq::<u8>::empty());
    while i < bytes.len()
        invariant
            bytes@ == input.spec_bytes(),
            i <= bytes.len(),
            out@ == percent_encoded(bytes@.take(i as int)),
        decreases bytes.len() - i,
    {
        let b = bytes[i];
        proof {
            assert(bytes@.take(i + 1) =~= bytes@.take(i as int).push(b));
            lemma_encoded_push(bytes@.take(i as int), b);
        }
        if (65 <= b && b <= 90) || (97 <= b && b <= 122) || (48 <= b && b <= 57) || b == 45 || b == 95 || b == 46
            || b == 126 {
            push_char(&mut out, b as char);
            assert(out@ =~= percent_encoded(bytes@.take(i + 1)));
        } else {
            push_char(&mut out, '%');
            push_char(&mut out, hex_char(b / 16));
            push_char(&mut out, hex_char(b % 16));
            assert(out@ =~= percent_encoded(bytes@.take(i + 1)));
        }
        i = i + 1;
    }
    assert(bytes@.take(bytes.len() as int) =~= bytes@);
    out
}

// ---------------------------------------------------------------------------
// Cutting links apart

/// The first position at or after `i` where `needle` occurs in `hay`.
pub open spec fn first_match(hay: Seq<char>, needle: Seq<char>, i: int) -> Option<int>
    decreases hay.len() + 1 - i,
{
    if i < 0 || i > hay.len() {
        None
    } else if occurs_at(hay, needle, i) {
        Some(i)
    } else {
        first_match(hay, needle, i + 1)
    }
}

proof fn lemma_first_match(hay: Seq<char>, needle: Seq<char>, i: int, k: Option<int>)
    requires
        0 <= i,
        match k {
            Some(m) => i <= m && occurs_at(hay, needle, m) && forall|j: int| i <= j < m ==> !occurs_at(hay, needle, j),
            None => forall|j: int| i <= j ==> !occurs_at(hay, needle, j),
        },
    ensures
        first_match(hay, needle, i) == k,
    decreases hay.len() + 1 - i,
{
    if i <= hay.len() && !occurs_at(hay, needle, i) {
        lemma_first_match(hay, needle, i + 1, k);
    } else if i > hay.len() {
        match k {
            Some(m) => {
                assert(occurs_at(hay, needle, m));
            },
            None => {},
        }
    }
}

pub proof fn lemma_first_match_occurs(hay: Seq<char>, needle: Seq<char>, i: int)
    requires
        first_match(hay, needle, i) is Some,
    ensures
        occurs_at(hay, needle, first_match(hay, needle, i).unwrap()),
        i <= first_match(hay, needle, i).unwrap(),
    decreases hay.len() + 1 - i,
{
    if 0 <= i <= hay.len() && !occurs_at(hay, needle, i) {
        lemma_first_match_occurs(hay, needle, i + 1);
    }
}

/// Where `needle` first occurs in `hay` at or after `from`.
pub fn locate(hay: &Vec<char>, needle: &Vec<char>, from: usize) -> (r: Option<usize>)
    ensures
        match r {
            Some(m) => first_match(hay@, needle@, from as int) == Some(m as int),
            None => first_match(hay@, needle@, from as int) is None,
        },
{
    let r = find_from(hay, needle, from);
    proof {
        lemma_first_match(
            hay@,
            needle@,
            from as int,
            match r {
                Some(m) => Some(m as int),
                None => None,
            },
        );
    }
    r
}

/// The part of `s` before the first `a` or `b` (all of `s` when it has neither).
pub open spec fn before_either(s: Seq<char>, a: char, b: char) -> Seq<char>
    decreases s.len(),
{
    if s.len() == 0 {
        s
    } else if s[0] == a || s[0] == b {
        Seq::empty()
    } else {
        seq![s[0]] + before_either(s.drop_first(), a, b)
    }
}

/// `s` without the characters `c` at its end.
pub open spec fn trim_trailing(s: Seq<char>, c: char) -> Seq<char>
    decreases s.len(),
{
    if s.len() > 0 && s.last() == c {
        trim_trailing(s.drop_last(), c)
    } else {
        s
    }
}

/// The part of `s` after its last `c` (all of `s` when it has none).
pub open spec fn after_last(s: Seq<char>, c: char) -> Seq<char>
    decreases s.len(),
{
    if s.len() == 0 {
        s
    } else if s.last() == c {
        Seq::empty()
    } else {
        after_last(s.drop_last(), c).push(s.last())
    }
}

fn before_either_len(v: &Vec<char>, a: char, b: char) -> (n: usize)
    ensures
        n <= v.len(),
        v@.take(n as int) == before_either(v@, a, b),
{
    let mut n: usize = 0;
    assert(v@.skip(0) =~= v@);
    assert(v@.take(0) + before_either(v@, a, b) =~= before_either(v@, a, b));
    while n < v.len() && v[n] != a && v[n] != b
        invariant
            n <= v.len(),
            before_either(v@, a, b) == v@.take(n as int) + before_either(v@.skip(n as int), a, b),
        decreases v.len() - n,
    {
        assert(v@.skip(n as int).drop_first() =~= v@.skip(n + 1));
        assert(v@.take(n + 1) =~= v@.take(n as int) + seq![v@[n as int]]);
        n = n + 1;
    }
    if n < v.len() {
        assert(v@.skip(n as int)[0] == v@[n as int]);
    } else {
        assert(v@.skip(n as int) =~= Seq::<char>::empty());
    }
    assert(v@.take(n as int) + Seq::<char>::empty() =~= v@.take(n as int));
    n
}

fn trailing_start(v: &Vec<char>, end: usize, c: char) -> (n: usize)
    requires
        end <= v.len(),
    ensures
        n <= end,
        v@.take(n as int) == trim_trailing(v@.take(end as int), c),
{
    let mut n = end;
    while n > 0 && v[n - 1] == c
        invariant
            n <= end <= v.len(),
            trim_trailing(v@.take(end as int), c) == trim_trailing(v@.take(n as int), c),
        decreases n,
    {
        assert(v@.take(n as int).drop_last() =~= v@.take(n - 1));
        n = n - 1;
    }
    n
}

fn last_piece_start(v: &Vec<char>, end: usize, c: char) -> (n: usize)
    requires
        end <= v.len(),
    ensures
        n <= end,
        v@.subrange(n as int, end as int) == after_last(v@.take(end as int), c),
{
    let mut n = end;
    assert(v@.subrange(end as int, end as int) =~= Seq::<char>::empty());
    while n > 0 && v[n - 1] != c
        invariant
            n <= end <= v.len(),
            after_last(v@.take(end as int), c) == after_last(v@.take(n as int), c) + v@.subrange(n as int, end as int),
        decreases n,
    {
        assert(v@.take(n as int).drop_last() =~= v@.take(n - 1));
        assert(v@.subrange(n - 1, end as int) =~= seq![v@[n - 1]] + v@.subrange(n as int, end as int));
        assert(after_last(v@.take(n as int), c) == after_last(v@.take(n - 1), c).push(v@[n - 1]));
        n = n - 1;
    }
    if n > 0 {
        assert(v@.take(n as int).last() == c);
    }
    assert(after_last(v@.take(n as int), c) =~= Seq::<char>::empty());
    n
}

/// The id at the end of a Tidal playlist link: the last path segment, after
/// dropping the query or fragment and any trailing `/`.
pub open spec fn tidal_playlist_id(url: Seq<char>) -> Option<Seq<char>> {
    let id = after_last(trim_trailing(before_either(url, '?', '#'), '/'), '/');
    if id.len() > 0 {
        Some(id)
    } else {
        None
    }
}

/// The id of a Spotify playlist link: what follows `spotify:playlist:`, or what
/// follows the first `/playlist/` up to the next one, without a query or
/// fragment; the link is trimmed first.
pub open spec fn spotify_playlist_id(link: Seq<char>) -> Option<Seq<char>> {
    let t = trimmed(link);
    if occurs_at(t, "spotify:playlist:"@, 0) {
        Some(t.skip("spotify:playlist:"@.len() as int))
    } else {
        match first_match(t, "/playlist/"@, 0) {
            None => None,
            Some(k) => {
                let rest = t.skip(k + "/playlist/"@.len());
                let piece = match first_match(rest, "/playlist/"@, 0) {
                    Some(e) => rest.take(e),
                    None => rest,
                };
                let id = before_either(piece, '?', '#');
                if id.len() > 0 {
                    Some(id)
                } else {
                    None
                }
            },
        }
    }
}

/// The id of a Tidal playlist link (`https://tidal.com/browse/playlist/<id>`,
/// with or without a query string or a trailing `/`).
pub fn tidal_extract_playlist_id(url: &str) -> (r: Option<String>)
    ensures
        match r {
            Some(id) => tidal_playlist_id(url@) == Some(id@),
            None => tidal_playlist_id(url@) is None,
        },
{
    let v = chars_of(url);
    let a = before_either_len(&v, '?', '#');
    let b = trailing_start(&v, a, '/');
    assert(v@.take(a as int).take(b as int) =~= v@.take(b as int));
    assert(trim_trailing(v@.take(a as int), '/') == v@.take(b as int));
    let c = last_piece_start(&v, b, '/');
    if c == b {
        assert(v@.subrange(c as int, b as int) =~= Seq::<char>::empty());
        return None;
    }
    Some(string_from_range(&v, c, b))
}

/// The id of a Spotify playlist link (`https://open.spotify.com/playlist/<id>`
/// or `spotify:playlist:<id>`).
pub fn spotify_extract_playlist_id(link: &str) -> (r: Option<String>)
    ensures
        match r {
            Some(id) => spotify_playlist_id(link@) == Some(id@),
            None => spotify_playlist_id(link@) is None,
        },
{
    let t = trim(link);
    let v = chars_of(t.as_str());
    let scheme = chars_of("spotify:playlist:");
    let marker = chars_of("/playlist/");
    proof {
        reveal_strlit("spotify:playlist:");
        reveal_strlit("/playlist/");
    }
    if crate::text::matches_at(&v, &scheme, 0) {
        let n = v.len();
        return Some(string_from_range(&v, scheme.len(), n));
    }
    let k = match locate(&v, &marker, 0) {
        Some(k) => k,
        None => return None,
    };
    proof {
        lemma_first_match_occurs(v@, marker@, 0);
        assert(first_match(v@, marker@, 0) == Some(k as int));
        assert(occurs_at(v@, marker@, k as int));
        assert(k + marker@.len() <= v@.len());
        assert(marker@.len() == marker.len());
        assert(k + marker.len() <= v.len());
    }
    let start = k + marker.len();
    let rest_v = {
        let n = v.len();
        let mut r: Vec<char> = Vec::new();
        let mut i = start;
        while i < n
            invariant
                start <= i <= n,
                n == v.len(),
                r@ == v@.subrange(start as int, i as int),
            decreases n - i,
        {
            r.push(v[i]);
            assert(r@ =~= v@.subrange(start as int, i + 1));
            i = i + 1;
        }
        r
    };
    assert(rest_v@ =~= v@.skip(start as int));
    let end = match locate(&rest_v, &marker, 0) {
        Some(e) => {
            proof {
                lemma_first_match_occurs(rest_v@, marker@, 0);
            }
            e
        },
        None => rest_v.len(),
    };
    let piece = {
        let mut r: Vec<char> = Vec::new();
        let mut i: usize = 0;
        while i < end
            invariant
                i <= end <= rest_v.len(),
                r@ == rest_v@.take(i as int),
            decreases end - i,
        {
            r.push(rest_v[i]);
            assert(r@ =~= rest_v@.take(i + 1));
            i = i + 1;
        }
        r
    };
    proof {
        if locate_none(rest_v@, marker@) {
            assert(rest_v@.take(rest_v.len() as int) =~= rest_v@);
        }
    }
    let n = before_either_len(&piece, '?', '#');
    if n == 0 {
        return None;
    }
    Some(string_from_range(&piece, 0, n))
}

spec fn locate_none(hay: Seq<char>, needle: Seq<char>) -> bool {
    first_match(hay, needle, 0) is None
}

} // verus!
