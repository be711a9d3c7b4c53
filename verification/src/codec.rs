//! Byte-level codec for the query-string portion of the URLs this library
//! builds and receives: percent-encoding of values, and composing and parsing
//! `key=value` pairs joined by `&`.
use vstd::prelude::*;

verus! {

/// `%`, the escape byte of percent-encoding.
pub const PERCENT: u8 = 37;

/// `&`, the separator between query pairs.
pub const AMPERSAND: u8 = 38;

/// `+`, decoded as a space in query strings.
pub const PLUS: u8 = 43;

/// `=`, the separator between a key and its value.
pub const EQUALS: u8 = 61;

/// `?`, the separator between a URL's path and its query.
pub const QUESTION: u8 = 63;

/// `#`, the separator between a URL's query and its fragment.
pub const HASH: u8 = 35;

/// ` `, what `+` decodes to.
pub const SPACE: u8 = 32;

/// True of the bytes that percent-encoding leaves as they are:
/// ASCII letters, digits, `-`, `.`, `_` and `~`.
pub open spec fn is_unreserved(b: u8) -> bool {
    ||| 65 <= b <= 90  // A-Z
    ||| 97 <= b <= 122  // a-z
    ||| 48 <= b <= 57  // 0-9
    ||| b == 45  // -
    ||| b == 46  // .
    ||| b == 95  // _
    ||| b == 126  // ~

}

/// True of the ASCII bytes that stand for a hexadecimal digit.
pub open spec fn is_hex_digit(b: u8) -> bool {
    ||| 48 <= b <= 57  // 0-9
    ||| 65 <= b <= 70  // A-F
    ||| 97 <= b <= 102  // a-f

}

/// The upper-case hexadecimal digit for a value below 16.
pub open spec fn hex_digit_of(n: u8) -> u8
    recommends
        n < 16,
{
    if n < 10 {
        (48 + n) as u8
    } else {
        (55 + n) as u8
    }
}

/// The value of a hexadecimal digit byte.
pub open spec fn hex_value_of(b: u8) -> u8
    recommends
        is_hex_digit(b),
{
    if b <= 57 {
        (b - 48) as u8
    } else if b <= 70 {
        (b - 55) as u8
    } else {
        (b - 87) as u8
    }
}

/// The percent-encoding of a single byte: itself when unreserved, else
/// `%` and two upper-case hexadecimal digits.
pub open spec fn encode_byte(b: u8) -> Seq<u8> {
    if is_unreserved(b) {
        seq![b]
    } else {
        seq![PERCENT, hex_digit_of(b / 16), hex_digit_of(b % 16)]
    }
}

/// The percent-encoding of a byte sequence.
pub open spec fn percent_encoded(s: Seq<u8>) -> Seq<u8>
    decreases s.len(),
{
    if s.len() == 0 {
        Seq::empty()
    } else {
        encode_byte(s[0]) + percent_encoded(s.drop_first())
    }
}

/// The lenient percent-decoding of a byte sequence: a well-formed `%XY`
/// becomes one byte, `+` becomes a space, and anything else stays.
pub open spec fn percent_decoded(s: Seq<u8>) -> Seq<u8>
    decreases s.len(),
{
    if s.len() == 0 {
        Seq::empty()
    } else if s[0] == PERCENT && s.len() >= 3 && is_hex_digit(s[1]) && is_hex_digit(s[2]) {
        seq![(hex_value_of(s[1]) * 16 + hex_value_of(s[2])) as u8] + percent_decoded(s.skip(3))
    } else if s[0] == PLUS {
        seq![SPACE] + percent_decoded(s.drop_first())
    } else {
        seq![s[0]] + percent_decoded(s.drop_first())
    }
}

/// The index of the first occurrence of `c` in `s`, or `s.len()` if absent.
pub open spec fn first_index(s: Seq<u8>, c: u8) -> int
    decreases s.len(),
{
    if s.len() == 0 {
        0
    } else if s[0] == c {
        0
    } else {
        1 + first_index(s.drop_first(), c)
    }
}

/// One query pair rendered on the wire: encoded key, `=`, encoded value.
pub open spec fn encoded_pair(p: (Seq<u8>, Seq<u8>)) -> Seq<u8> {
    percent_encoded(p.0) + seq![EQUALS] + percent_encoded(p.1)
}

/// A whole query string rendered from decoded pairs, joined by `&`.
pub open spec fn query_of_pairs(pairs: Seq<(Seq<u8>, Seq<u8>)>) -> Seq<u8>
    decreases pairs.len(),
{
    if pairs.len() == 0 {
        Seq::empty()
    } else if pairs.len() == 1 {
        encoded_pair(pairs[0])
    } else {
        encoded_pair(pairs[0]) + seq![AMPERSAND] + query_of_pairs(pairs.drop_first())
    }
}

/// One `key=value` part of a query string, decoded. A part without `=`
/// is a key with an empty value.
pub open spec fn parsed_pair(part: Seq<u8>) -> (Seq<u8>, Seq<u8>) {
    let j = first_index(part, EQUALS);
    if j == part.len() {
        (percent_decoded(part), Seq::empty())
    } else {
        (percent_decoded(part.take(j)), percent_decoded(part.skip(j + 1)))
    }
}

/// A query string parsed into decoded pairs: split on `&`, empty parts
/// skipped, each part split on its first `=` and decoded.
pub open spec fn parsed_query(s: Seq<u8>) -> Seq<(Seq<u8>, Seq<u8>)>
    decreases s.len(),
    via parsed_query_decreases
{
    if s.len() == 0 {
        Seq::empty()
    } else {
        let j = first_index(s, AMPERSAND);
        if j == s.len() {
            seq![parsed_pair(s)]
        } else if j == 0 {
            parsed_query(s.skip(1))
        } else {
            seq![parsed_pair(s.take(j))] + parsed_query(s.skip(j + 1))
        }
    }
}

#[via_fn]
proof fn parsed_query_decreases(s: Seq<u8>) {
    lemma_first_index_bounds(s, AMPERSAND);
}

/// `first_index` never leaves the sequence: it lies between 0 and the length.
pub proof fn lemma_first_index_bounds(s: Seq<u8>, c: u8)
    ensures
        0 <= first_index(s, c) <= s.len(),
    decreases s.len(),
{
    if s.len() > 0 && s[0] != c {
        lemma_first_index_bounds(s.drop_first(), c);
    }
}

/// The value of the first pair whose key is `key`, if any.
pub open spec fn first_value(pairs: Seq<(Seq<u8>, Seq<u8>)>, key: Seq<u8>) -> Option<Seq<u8>>
    decreases pairs.len(),
{
    if pairs.len() == 0 {
        None
    } else if pairs[0].0 == key {
        Some(pairs[0].1)
    } else {
        first_value(pairs.drop_first(), key)
    }
}

/// The query portion of a URL: what follows the first `?`, cut before
/// the first `#` after it; empty when the URL has no `?`.
pub open spec fn query_of_url(u: Seq<u8>) -> Seq<u8> {
    let q = first_index(u, QUESTION);
    if q == u.len() {
        Seq::empty()
    } else {
        let rest = u.skip(q + 1);
        rest.take(first_index(rest, HASH))
    }
}

/// True when no byte of `s` equals `c`.
pub open spec fn avoids(s: Seq<u8>, c: u8) -> bool {
    forall|i: int| 0 <= i < s.len() ==> s[i] != c
}

/// A hexadecimal digit of a value below 16 is a hexadecimal digit byte
/// and decodes back to that value.
proof fn lemma_hex_digit_round_trip(n: u8)
    requires
        n < 16,
    ensures
        is_hex_digit(hex_digit_of(n)),
        hex_value_of(hex_digit_of(n)) == n,
{
}

/// Percent-encoding distributes over concatenation.
pub proof fn lemma_percent_encoded_concat(a: Seq<u8>, b: Seq<u8>)
    ensures
        percent_encoded(a + b) == percent_encoded(a) + percent_encoded(b),
    decreases a.len(),
{
    if a.len() == 0 {
        assert(a + b =~= b);
        assert(percent_encoded(a) + percent_encoded(b) =~= percent_encoded(b));
    } else {
        assert((a + b).drop_first() =~= a.drop_first() + b);
        lemma_percent_encoded_concat(a.drop_first(), b);
        assert(percent_encoded(a + b) =~= percent_encoded(a) + percent_encoded(b));
    }
}

/// The encoding of one byte never holds a query separator, `?` or `#`.
proof fn lemma_encode_byte_avoids(b: u8)
    ensures
        avoids(encode_byte(b), AMPERSAND),
        avoids(encode_byte(b), EQUALS),
        avoids(encode_byte(b), QUESTION),
        avoids(encode_byte(b), HASH),
{
    if !is_unreserved(b) {
        lemma_hex_digit_round_trip(b / 16);
        lemma_hex_digit_round_trip(b % 16);
    }
}

/// A percent-encoded sequence never holds a query separator, `?` or `#`.
pub proof fn lemma_percent_encoded_avoids(s: Seq<u8>)
    ensures
        avoids(percent_encoded(s), AMPERSAND),
        avoids(percent_encoded(s), EQUALS),
        avoids(percent_encoded(s), QUESTION),
        avoids(percent_encoded(s), HASH),
    decreases s.len(),
{
    if s.len() > 0 {
        lemma_encode_byte_avoids(s[0]);
        lemma_percent_encoded_avoids(s.drop_first());
    }
}

/// Decoding inverts encoding: the round trip gives the bytes back,
/// whatever they are.
pub proof fn lemma_percent_round_trip(s: Seq<u8>)
    ensures
        percent_decoded(percent_encoded(s)) == s,
    decreases s.len(),
{
    if s.len() == 0 {
        assert(percent_decoded(percent_encoded(s)) =~= s);
    } else {
        let b = s[0];
        let e = percent_encoded(s);
        lemma_percent_round_trip(s.drop_first());
        if is_unreserved(b) {
            assert(e.drop_first() =~= percent_encoded(s.drop_first()));
            assert(percent_decoded(e) =~= s);
        } else {
            lemma_hex_digit_round_trip(b / 16);
            lemma_hex_digit_round_trip(b % 16);
            assert(e[0] == PERCENT && e.len() >= 3);
            assert(hex_value_of(e[1]) * 16 + hex_value_of(e[2]) == (b / 16) * 16 + b % 16);
            assert((b / 16) * 16 + b % 16 == b) by (nonlinear_arith);
            assert(e.skip(3) =~= percent_encoded(s.drop_first()));
            assert(percent_decoded(e) =~= s);
        }
    }
}

/// `first_index` is pinned by a witness: no `c` before `n`, and `c` at
/// `n` unless `n` is the length.
pub proof fn lemma_first_index_at(s: Seq<u8>, c: u8, n: int)
    requires
        0 <= n <= s.len(),
        forall|k: int| 0 <= k < n ==> s[k] != c,
        n < s.len() ==> s[n] == c,
    ensures
        first_index(s, c) == n,
    decreases n,
{
    if n == 0 {
    } else {
        lemma_first_index_at(s.drop_first(), c, n - 1);
    }
}

/// Parsing inverts rendering for a single pair.
proof fn lemma_parsed_pair_round_trip(p: (Seq<u8>, Seq<u8>))
    ensures
        parsed_pair(encoded_pair(p)) == p,
{
    let e = encoded_pair(p);
    let ek = percent_encoded(p.0);
    lemma_percent_encoded_avoids(p.0);
    lemma_first_index_at(e, EQUALS, ek.len() as int);
    assert(e.take(ek.len() as int) =~= ek);
    assert(e.skip(ek.len() as int + 1) =~= percent_encoded(p.1));
    lemma_percent_round_trip(p.0);
    lemma_percent_round_trip(p.1);
    assert(parsed_pair(e) == p);
}

/// A rendered query string never holds `?` or `#`, so it survives as the
/// query portion of a URL.
pub proof fn lemma_query_of_pairs_avoids(pairs: Seq<(Seq<u8>, Seq<u8>)>)
    ensures
        avoids(query_of_pairs(pairs), QUESTION),
        avoids(query_of_pairs(pairs), HASH),
    decreases pairs.len(),
{
    if pairs.len() > 0 {
        lemma_percent_encoded_avoids(pairs[0].0);
        lemma_percent_encoded_avoids(pairs[0].1);
        lemma_query_of_pairs_avoids(pairs.drop_first());
    }
}

/// Parsing inverts rendering: a query string built from decoded pairs
/// parses back to exactly those pairs.
pub proof fn lemma_query_round_trip(pairs: Seq<(Seq<u8>, Seq<u8>)>)
    ensures
        parsed_query(query_of_pairs(pairs)) == pairs,
    decreases pairs.len(),
{
    let q = query_of_pairs(pairs);
    if pairs.len() == 0 {
        assert(parsed_query(q) =~= pairs);
    } else {
        let e = encoded_pair(pairs[0]);
        lemma_percent_encoded_avoids(pairs[0].0);
        lemma_percent_encoded_avoids(pairs[0].1);
        lemma_parsed_pair_round_trip(pairs[0]);
        if pairs.len() == 1 {
            lemma_first_index_at(q, AMPERSAND, q.len() as int);
            assert(parsed_query(q) =~= pairs);
        } else {
            lemma_first_index_at(q, AMPERSAND, e.len() as int);
            assert(e.len() > 0);
            assert(q.take(e.len() as int) =~= e);
            assert(q.skip(e.len() as int + 1) =~= query_of_pairs(pairs.drop_first()));
            lemma_query_round_trip(pairs.drop_first());
            assert(parsed_query(q) =~= pairs);
        }
    }
}

/// The index of the first occurrence of `c` in `s` at or after `from`,
/// or `s.len()` if there is none.
pub fn find_byte(s: &[u8], from: usize, c: u8) -> (r: usize)
    requires
        from <= s@.len(),
    ensures
        from <= r <= s@.len(),
        forall|k: int| from <= k < r ==> s@[k] != c,
        r < s@.len() ==> s@[r as int] == c,
{
    let mut i = from;
    while i < s.len()
        invariant
            from <= i <= s@.len(),
            forall|k: int| from <= k < i ==> s@[k] != c,
        decreases s@.len() - i,
    {
        if s[i] == c {
            return i;
        }
        i = i + 1;
    }
    i
}

/// Appends the percent-encoding of one byte.
fn push_encoded_byte(out: &mut Vec<u8>, b: u8)
    ensures
        final(out)@ == old(out)@ + encode_byte(b),
{
    let unreserved = (b >= 65 && b <= 90) || (b >= 97 && b <= 122) || (b >= 48 && b <= 57) || b
        == 45 || b == 46 || b == 95 || b == 126;
    if unreserved {
        out.push(b);
        assert(out@ =~= old(out)@ + encode_byte(b));
    } else {
        let hi = b / 16;
        let lo = b % 16;
        out.push(PERCENT);
        out.push(if hi < 10 { 48 + hi } else { 55 + hi });
        out.push(if lo < 10 { 48 + lo } else { 55 + lo });
        assert(out@ =~= old(out)@ + encode_byte(b));
    }
}

/// The percent-encoding of `s`.
pub fn percent_encode(s: &[u8]) -> (r: Vec<u8>)
    ensures
        r@ == percent_encoded(s@),
{
    let mut out: Vec<u8> = Vec::new();
    let mut i: usize = 0;
    while i < s.len()
        invariant
            i <= s@.len(),
            out@ == percent_encoded(s@.take(i as int)),
        decreases s@.len() - i,
    {
        proof {
            let one = seq![s@[i as int]];
            assert(s@.take(i + 1) =~= s@.take(i as int) + one);
            lemma_percent_encoded_concat(s@.take(i as int), one);
            assert(one.drop_first() =~= Seq::<u8>::empty());
            assert(percent_encoded(Seq::<u8>::empty()) =~= Seq::<u8>::empty());
            assert(percent_encoded(one) =~= encode_byte(s@[i as int]));
        }
        push_encoded_byte(&mut out, s[i]);
        i = i + 1;
    }
    proof {
        assert(s@.take(s@.len() as int) =~= s@);
    }
    out
}

/// The lenient percent-decoding of `s`.
pub fn percent_decode(s: &[u8]) -> (r: Vec<u8>)
    ensures
        r@ == percent_decoded(s@),
{
    let mut out: Vec<u8> = Vec::new();
    let mut i: usize = 0;
    proof {
        assert(s@.skip(0) =~= s@);
        assert(out@ + percent_decoded(s@) =~= percent_decoded(s@));
    }
    while i < s.len()
        invariant
            i <= s@.len(),
            percent_decoded(s@) == out@ + percent_decoded(s@.skip(i as int)),
        decreases s@.len() - i,
    {
        let b = s[i];
        let ghost suffix = s@.skip(i as int);
        assert(suffix[0] == b);
        if b == PERCENT && s.len() - i >= 3 && is_hex_digit_byte(s[i + 1]) && is_hex_digit_byte(
            s[i + 2],
        ) {
            let v = hex_value_byte(s[i + 1]) * 16 + hex_value_byte(s[i + 2]);
            out.push(v);
            proof {
                assert(suffix.len() >= 3 && suffix[1] == s@[i + 1] && suffix[2] == s@[i + 2]);
                assert(suffix.skip(3) =~= s@.skip(i + 3));
            }
            i = i + 3;
        } else if b == PLUS {
            out.push(SPACE);
            proof {
                assert(suffix.drop_first() =~= s@.skip(i + 1));
            }
            i = i + 1;
        } else {
            out.push(b);
            proof {
                assert(!(suffix[0] == PERCENT && suffix.len() >= 3 && is_hex_digit(suffix[1])
                    && is_hex_digit(suffix[2])));
                assert(suffix.drop_first() =~= s@.skip(i + 1));
            }
            i = i + 1;
        }
    }
    proof {
        assert(s@.skip(s@.len() as int) =~= Seq::<u8>::empty());
    }
    out
}

/// True of a byte standing for a hexadecimal digit.
pub fn is_hex_digit_byte(b: u8) -> (r: bool)
    ensures
        r == is_hex_digit(b),
{
    (b >= 48 && b <= 57) || (b >= 65 && b <= 70) || (b >= 97 && b <= 102)
}

/// The value of a hexadecimal digit byte.
pub fn hex_value_byte(b: u8) -> (r: u8)
    requires
        is_hex_digit(b),
    ensures
        r == hex_value_of(b),
        r < 16,
{
    if b <= 57 {
        b - 48
    } else if b <= 70 {
        b - 55
    } else {
        b - 87
    }
}

/// What follows the first `?` of `base + "?" + q` is exactly `q`, provided
/// `base` holds no `?` and `q` holds no `#`.
pub proof fn lemma_query_of_url_build(base: Seq<u8>, q: Seq<u8>)
    requires
        avoids(base, QUESTION),
        avoids(q, HASH),
    ensures
        query_of_url(base + seq![QUESTION] + q) == q,
{
    let u = base + seq![QUESTION] + q;
    assert(u[base.len() as int] == QUESTION);
    lemma_first_index_at(u, QUESTION, base.len() as int);
    assert(u.skip(base.len() as int + 1) =~= q);
    lemma_first_index_at(q, HASH, q.len() as int);
    assert(q.take(q.len() as int) =~= q);
}

/// The decoded pairs of a vector of byte pairs, as sequences.
pub open spec fn pairs_view(v: Seq<(Vec<u8>, Vec<u8>)>) -> Seq<(Seq<u8>, Seq<u8>)> {
    Seq::new(v.len(), |i: int| (v[i].0@, v[i].1@))
}

/// Rendering a query grows pair by pair: appending a pair appends its
/// rendering, after a `&` when the query was not empty.
proof fn lemma_query_of_pairs_push(pairs: Seq<(Seq<u8>, Seq<u8>)>, p: (Seq<u8>, Seq<u8>))
    ensures
        query_of_pairs(pairs.push(p)) == if pairs.len() == 0 {
            encoded_pair(p)
        } else {
            query_of_pairs(pairs) + seq![AMPERSAND] + encoded_pair(p)
        },
    decreases pairs.len(),
{
    let q = pairs.push(p);
    if pairs.len() == 0 {
        assert(q.len() == 1 && q[0] == p);
    } else {
        assert(q.drop_first() =~= pairs.drop_first().push(p));
        lemma_query_of_pairs_push(pairs.drop_first(), p);
        assert(query_of_pairs(q) =~= query_of_pairs(pairs) + seq![AMPERSAND] + encoded_pair(p));
    }
}

/// Renders decoded pairs as a query string: keys and values
/// percent-encoded, a `=` between them, pairs joined by `&`.
pub fn build_query(pairs: &Vec<(Vec<u8>, Vec<u8>)>) -> (r: Vec<u8>)
    ensures
        r@ == query_of_pairs(pairs_view(pairs@)),
{
    let ghost pv = pairs_view(pairs@);
    let mut out: Vec<u8> = Vec::new();
    let mut i: usize = 0;
    proof {
        assert(pv.take(0) =~= Seq::<(Seq<u8>, Seq<u8>)>::empty());
    }
    while i < pairs.len()
        invariant
            i <= pairs@.len(),
            pv == pairs_view(pairs@),
            out@ == query_of_pairs(pv.take(i as int)),
        decreases pairs@.len() - i,
    {
        proof {
            assert(pv.take(i + 1) =~= pv.take(i as int).push(pv[i as int]));
            lemma_query_of_pairs_push(pv.take(i as int), pv[i as int]);
        }
        if i > 0 {
            out.push(AMPERSAND);
        }
        let mut ek = percent_encode(pairs[i].0.as_slice());
        out.append(&mut ek);
        out.push(EQUALS);
        let mut ev = percent_encode(pairs[i].1.as_slice());
        out.append(&mut ev);
        proof {
            assert(out@ =~= query_of_pairs(pv.take(i + 1)));
        }
        i = i + 1;
    }
    proof {
        assert(pv.take(pv.len() as int) =~= pv);
    }
    out
}

/// Splits one query part on its first `=` and decodes both sides.
pub fn parse_pair(part: &[u8]) -> (r: (Vec<u8>, Vec<u8>))
    ensures
        (r.0@, r.1@) == parsed_pair(part@),
{
    let j = find_byte(part, 0, EQUALS);
    proof {
        lemma_first_index_at(part@, EQUALS, j as int);
    }
    if j == part.len() {
        (percent_decode(part), Vec::new())
    } else {
        let key = vstd::slice::slice_subrange(part, 0, j);
        let value = vstd::slice::slice_subrange(part, j + 1, part.len());
        proof {
            assert(key@ =~= part@.take(j as int));
            assert(value@ =~= part@.skip(j + 1));
        }
        (percent_decode(key), percent_decode(value))
    }
}

/// Parses a query string into its decoded pairs, in order of arrival;
/// empty parts between `&`s are skipped.
pub fn parse_query(s: &[u8]) -> (r: Vec<(Vec<u8>, Vec<u8>)>)
    ensures
        pairs_view(r@) == parsed_query(s@),
{
    let mut out: Vec<(Vec<u8>, Vec<u8>)> = Vec::new();
    let mut i: usize = 0;
    proof {
        assert(s@.skip(0) =~= s@);
        assert(pairs_view(out@) + parsed_query(s@) =~= parsed_query(s@));
    }
    while i < s.len()
        invariant
            i <= s@.len(),
            parsed_query(s@) == pairs_view(out@) + parsed_query(s@.skip(i as int)),
        decreases s@.len() - i,
    {
        let ghost suffix = s@.skip(i as int);
        let j = find_byte(s, i, AMPERSAND);
        proof {
            assert forall|k: int| 0 <= k < j - i implies suffix[k] != AMPERSAND by {
                assert(suffix[k] == s@[i + k]);
            }
            lemma_first_index_at(suffix, AMPERSAND, j - i);
        }
        if j == i {
            proof {
                assert(suffix.skip(1) =~= s@.skip(i + 1));
            }
            i = i + 1;
        } else {
            let part = vstd::slice::slice_subrange(s, i, j);
            let p = parse_pair(part);
            let ghost out0 = out@;
            out.push(p);
            proof {
                assert(pairs_view(out@) =~= pairs_view(out0).push((p.0@, p.1@)));
            }
            if j == s.len() {
                proof {
                    assert(part@ =~= suffix);
                    assert(pairs_view(out@) + parsed_query(s@.skip(s@.len() as int)) =~=
                        pairs_view(out0) + seq![parsed_pair(suffix)]);
                }
                i = s.len();
            } else {
                proof {
                    assert(part@ =~= suffix.take(j - i));
                    assert(suffix.skip(j - i + 1) =~= s@.skip(j + 1));
                    assert(pairs_view(out@) + parsed_query(s@.skip(j + 1)) =~= pairs_view(out0)
                        + (seq![parsed_pair(suffix.take(j - i))] + parsed_query(
                        suffix.skip(j - i + 1),
                    )));
                }
                i = j + 1;
            }
        }
    }
    proof {
        assert(s@.skip(s@.len() as int) =~= Seq::<u8>::empty());
        assert(pairs_view(out@) + parsed_query(Seq::<u8>::empty()) =~= pairs_view(out@));
    }
    out
}

/// Looks up the value of the first pair carrying `key`.
pub fn lookup_first(pairs: &Vec<(Vec<u8>, Vec<u8>)>, key: &[u8]) -> (r: Option<Vec<u8>>)
    ensures
        match r {
            Some(v) => first_value(pairs_view(pairs@), key@) == Some(v@),
            None => first_value(pairs_view(pairs@), key@) is None,
        },
{
    let ghost pv = pairs_view(pairs@);
    let mut i: usize = 0;
    proof {
        assert(pv.skip(0) =~= pv);
    }
    while i < pairs.len()
        invariant
            i <= pairs@.len(),
            pv == pairs_view(pairs@),
            first_value(pv, key@) == first_value(pv.skip(i as int), key@),
        decreases pairs@.len() - i,
    {
        proof {
            assert(pv.skip(i as int)[0] == pv[i as int]);
            assert(pv.skip(i as int).drop_first() =~= pv.skip(i + 1));
        }
        if bytes_eq(pairs[i].0.as_slice(), key) {
            let v = vstd::slice::slice_to_vec(pairs[i].1.as_slice());
            return Some(v);
        }
        i = i + 1;
    }
    proof {
        assert(pv.skip(pv.len() as int) =~= Seq::<(Seq<u8>, Seq<u8>)>::empty());
    }
    None
}

/// Extracts the query portion of a URL: the bytes after the first `?`,
/// cut before the first `#` that follows it.
pub fn url_query(url: &[u8]) -> (r: Vec<u8>)
    ensures
        r@ == query_of_url(url@),
{
    let q = find_byte(url, 0, QUESTION);
    proof {
        lemma_first_index_at(url@, QUESTION, q as int);
    }
    if q == url.len() {
        Vec::new()
    } else {
        let rest = vstd::slice::slice_subrange(url, q + 1, url.len());
        proof {
            assert(rest@ =~= url@.skip(q + 1));
        }
        let h = find_byte(rest, 0, HASH);
        proof {
            lemma_first_index_at(rest@, HASH, h as int);
        }
        let cut = vstd::slice::slice_subrange(rest, 0, h);
        let r = vstd::slice::slice_to_vec(cut);
        proof {
            assert(r@ =~= rest@.take(h as int));
        }
        r
    }
}

/// True when the two byte slices hold the same bytes.
pub fn bytes_eq(a: &[u8], b: &[u8]) -> (r: bool)
    ensures
        r == (a@ == b@),
{
    if a.len() != b.len() {
        assert(a@ != b@);
        return false;
    }
    let mut i: usize = 0;
    while i < a.len()
        invariant
            i <= a@.len(),
            a@.len() == b@.len(),
            forall|k: int| 0 <= k < i ==> a@[k] == b@[k],
        decreases a@.len() - i,
    {
        if a[i] != b[i] {
            return false;
        }
        i = i + 1;
    }
    proof {
        assert(a@ =~= b@);
    }
    true
}

} // verus!
