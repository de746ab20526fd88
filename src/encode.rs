//! Query and form-body encoding under the OAuth percent-encoding rules.

use vstd::prelude::*;
use vstd::string::*;
use vstd::utf8::*;

verus! {

/// The bytes that OAuth leaves unescaped: ASCII letters, digits and `-._~`.
pub open spec fn oauth_unreserved(b: u8) -> bool {
    (0x30 <= b && b <= 0x39) || (0x41 <= b && b <= 0x5A) || (0x61 <= b && b <= 0x7A) || b == 0x2D
        || b == 0x2E || b == 0x5F || b == 0x7E
}

/// Upper-case hexadecimal digit of a value below 16.
pub open spec fn hex_digit(n: u8) -> char {
    if n < 10 {
        (n + 0x30) as char
    } else {
        (n + 0x37) as char
    }
}

/// The encoding of a single byte: itself when unreserved, `%XY` otherwise.
pub open spec fn pct_encode_byte(b: u8) -> Seq<char> {
    if oauth_unreserved(b) {
        seq![b as char]
    } else {
        seq!['%', hex_digit(b / 16), hex_digit(b % 16)]
    }
}

/// Percent-encoding of a byte sequence.
pub open spec fn pct_encode(bs: Seq<u8>) -> Seq<char>
    decreases bs.len(),
{
    if bs.len() == 0 {
        seq![]
    } else {
        pct_encode_byte(bs[0]) + pct_encode(bs.drop_first())
    }
}

/// Percent-encoding of the UTF-8 form of a text.
pub open spec fn encode_text(s: Seq<char>) -> Seq<char> {
    pct_encode(encode_utf8(s))
}

/// `key=value`, both sides encoded.
pub open spec fn encode_pair(p: (Seq<char>, Seq<char>)) -> Seq<char> {
    encode_text(p.0) + seq!['='] + encode_text(p.1)
}

/// The encoded pairs joined by `&`, in their order.
pub open spec fn encode_query(ps: Seq<(Seq<char>, Seq<char>)>) -> Seq<char>
    decreases ps.len(),
{
    if ps.len() == 0 {
        seq![]
    } else if ps.len() == 1 {
        encode_pair(ps[0])
    } else {
        encode_query(ps.drop_last()) + seq!['&'] + encode_pair(ps.last())
    }
}

/// The value of a hexadecimal digit of either case.
pub open spec fn hex_value(c: char) -> int {
    if '0' <= c <= '9' {
        c as int - '0' as int
    } else if 'A' <= c <= 'F' {
        c as int - 'A' as int + 10
    } else if 'a' <= c <= 'f' {
        c as int - 'a' as int + 10
    } else {
        0
    }
}

/// Percent-decoding: `%XY` is the byte with hex value `XY`; any other
/// character stands for its own code.
pub open spec fn pct_decode(cs: Seq<char>) -> Seq<u8>
    decreases cs.len(),
{
    if cs.len() == 0 {
        seq![]
    } else if cs[0] == '%' && cs.len() >= 3 {
        seq![(hex_value(cs[1]) * 16 + hex_value(cs[2])) as u8] + pct_decode(cs.subrange(3, cs.len() as int))
    } else {
        seq![cs[0] as u8] + pct_decode(cs.drop_first())
    }
}

/// The part of `s` before the first `c` (all of `s` if there is none).
pub open spec fn take_until(s: Seq<char>, c: char) -> Seq<char>
    decreases s.len(),
{
    if s.len() == 0 {
        s
    } else if s[0] == c {
        seq![]
    } else {
        seq![s[0]] + take_until(s.drop_first(), c)
    }
}

/// A `key=value` segment, decoded back to text.
pub open spec fn decode_pair(seg: Seq<char>) -> (Seq<char>, Seq<char>) {
    let k = take_until(seg, '=');
    let v = seg.subrange(k.len() as int + 1, seg.len() as int);
    (decode_utf8(pct_decode(k)), decode_utf8(pct_decode(v)))
}

/// A query string split at `&` and decoded, pair by pair.
pub open spec fn decode_query(s: Seq<char>) -> Seq<(Seq<char>, Seq<char>)>
    decreases s.len(),
{
    if s.len() == 0 {
        seq![]
    } else {
        let seg = take_until(s, '&');
        if seg.len() >= s.len() {
            seq![decode_pair(s)]
        } else {
            seq![decode_pair(seg)] + decode_query(s.subrange(seg.len() as int + 1, s.len() as int))
        }
    }
}

proof fn lemma_hex_digit(n: u8)
    requires
        n < 16,
    ensures
        hex_value(hex_digit(n)) == n,
        hex_digit(n) != '&' && hex_digit(n) != '=' && hex_digit(n) != '%',
{
}

proof fn lemma_byte_round_trip(b: u8)
    ensures
        pct_encode_byte(b)[0] == '%' <==> !oauth_unreserved(b),
        oauth_unreserved(b) ==> pct_encode_byte(b)[0] as u8 == b,
        !oauth_unreserved(b) ==> (hex_value(pct_encode_byte(b)[1]) * 16 + hex_value(
            pct_encode_byte(b)[2],
        )) as u8 == b,
        forall|i: int|
            0 <= i < pct_encode_byte(b).len() ==> #[trigger] pct_encode_byte(b)[i] != '&'
                && pct_encode_byte(b)[i] != '=',
{
    lemma_hex_digit(b / 16);
    lemma_hex_digit(b % 16);
}

/// Percent-decoding undoes percent-encoding, and the encoding holds no `&`
/// and no `=`.
proof fn lemma_pct_round_trip(bs: Seq<u8>)
    ensures
        pct_decode(pct_encode(bs)) == bs,
        forall|i: int|
            0 <= i < pct_encode(bs).len() ==> #[trigger] pct_encode(bs)[i] != '&' && pct_encode(
                bs,
            )[i] != '=',
    decreases bs.len(),
{
    if bs.len() > 0 {
        let e = pct_encode(bs);
        let first = pct_encode_byte(bs[0]);
        let rest = pct_encode(bs.drop_first());
        lemma_pct_round_trip(bs.drop_first());
        lemma_byte_round_trip(bs[0]);
        assert(e == first + rest);
        if oauth_unreserved(bs[0]) {
            assert(e.drop_first() =~= rest);
        } else {
            assert(e.subrange(3, e.len() as int) =~= rest);
        }
        assert(pct_decode(e) =~= bs);
        assert forall|i: int| 0 <= i < e.len() implies #[trigger] e[i] != '&' && e[i] != '=' by {
            if i < first.len() {
                assert(e[i] == first[i]);
            } else {
                assert(e[i] == rest[i - first.len()]);
            }
        }
    }
}

proof fn lemma_take_until(a: Seq<char>, c: char, b: Seq<char>)
    requires
        forall|i: int| 0 <= i < a.len() ==> a[i] != c,
    ensures
        take_until(a + seq![c] + b, c) == a,
        take_until(a, c) == a,
    decreases a.len(),
{
    if a.len() == 0 {
        assert((a + seq![c] + b)[0] == c);
    } else {
        lemma_take_until(a.drop_first(), c, b);
        assert((a + seq![c] + b).drop_first() =~= a.drop_first() + seq![c] + b);
        assert(seq![a[0]] + a.drop_first() =~= a);
    }
}

proof fn lemma_encode_query_front(ps: Seq<(Seq<char>, Seq<char>)>)
    requires
        ps.len() >= 2,
    ensures
        encode_query(ps) == encode_pair(ps[0]) + seq!['&'] + encode_query(ps.drop_first()),
    decreases ps.len(),
{
    if ps.len() == 2 {
        assert(ps.drop_last() =~= seq![ps[0]]);
        assert(ps.drop_first() =~= seq![ps[1]]);
        assert(encode_query(ps.drop_last()) == encode_pair(ps[0]));
        assert(encode_query(ps.drop_first()) == encode_pair(ps[1]));
        assert(ps.last() == ps[1]);
    } else {
        lemma_encode_query_front(ps.drop_last());
        assert(ps.drop_last().drop_first() =~= ps.drop_first().drop_last());
        assert(ps.drop_first().last() == ps.last());
        assert(encode_query(ps) =~= encode_pair(ps[0]) + seq!['&'] + encode_query(ps.drop_first()));
    }
}

proof fn lemma_pair_round_trip(p: (Seq<char>, Seq<char>))
    ensures
        decode_pair(encode_pair(p)) == p,
        forall|i: int| 0 <= i < encode_pair(p).len() ==> #[trigger] encode_pair(p)[i] != '&',
{
    let k = encode_text(p.0);
    let v = encode_text(p.1);
    lemma_pct_round_trip(encode_utf8(p.0));
    lemma_pct_round_trip(encode_utf8(p.1));
    lemma_take_until(k, '=', v);
    encode_utf8_decode_utf8(p.0);
    encode_utf8_decode_utf8(p.1);
    let e = encode_pair(p);
    assert(e.subrange(k.len() as int + 1, e.len() as int) =~= v);
    assert forall|i: int| 0 <= i < e.len() implies #[trigger] e[i] != '&' by {
        if i < k.len() {
            assert(e[i] == k[i]);
        } else if i > k.len() {
            assert(e[i] == v[i - k.len() - 1]);
        }
    }
}

/// Decoding an encoded query gives back the pairs, in their order: no pair is
/// lost, merged or split, whatever `&`, `=`, spaces or non-ASCII characters
/// the keys and values hold.
pub proof fn lemma_query_round_trip(ps: Seq<(Seq<char>, Seq<char>)>)
    ensures
        decode_query(encode_query(ps)) == ps,
    decreases ps.len(),
{
    if ps.len() == 1 {
        let e = encode_pair(ps[0]);
        lemma_pair_round_trip(ps[0]);
        lemma_take_until(e, '&', seq![]);
        assert(e.len() > 0) by {
            assert(e[encode_text(ps[0].0).len() as int] == '=');
        }
        assert(decode_query(e) =~= ps);
    } else if ps.len() >= 2 {
        let first = encode_pair(ps[0]);
        let rest = encode_query(ps.drop_first());
        lemma_encode_query_front(ps);
        lemma_pair_round_trip(ps[0]);
        lemma_take_until(first, '&', rest);
        lemma_query_round_trip(ps.drop_first());
        let e = encode_query(ps);
        assert(e.subrange(first.len() as int + 1, e.len() as int) =~= rest);
        assert(decode_query(e) =~= seq![ps[0]] + ps.drop_first());
        assert(seq![ps[0]] + ps.drop_first() =~= ps);
    }
}

/// The text pairs that a sequence of owned string pairs stands for.
pub open spec fn pairs_view(v: Seq<(String, String)>) -> Seq<(Seq<char>, Seq<char>)> {
    v.map_values(|p: (String, String)| (p.0@, p.1@))
}

/// Relies on url's `utf8_percent_encode` with oauthcli's `OAUTH_ENCODE_SET`:
/// every UTF-8 byte outside the unreserved set becomes `%XY` in upper-case hex.
#[verifier::external_body]
fn oauth_percent_encode(s: &str) -> (r: String)
    ensures
        r@ == encode_text(s@),
{
    url::percent_encoding::utf8_percent_encode(s, oauthcli::OAUTH_ENCODE_SET).to_string()
}

/// Encodes the pairs as `k1=v1&k2=v2...`, in their order.
pub fn create_query(pairs: &Vec<(String, String)>) -> (r: String)
    ensures
        r@ == encode_query(pairs_view(pairs@)),
{
    let ghost ps = pairs_view(pairs@);
    let mut s = String::new();
    let mut i: usize = 0;
    while i < pairs.len()
        invariant
            0 <= i <= pairs.len(),
            ps == pairs_view(pairs@),
            s@ == encode_query(ps.take(i as int)),
        decreases pairs.len() - i,
    {
        let ghost prev = s@;
        if i > 0 {
            s.append("&");
        }
        let k = oauth_percent_encode(pairs[i].0.as_str());
        let v = oauth_percent_encode(pairs[i].1.as_str());
        s.append(k.as_str());
        s.append("=");
        s.append(v.as_str());
        proof {
            reveal_strlit("&");
            reveal_strlit("=");
            let t = ps.take(i + 1);
            assert(t.drop_last() =~= ps.take(i as int));
            assert(t.last() == ps[i as int]);
            if i == 0 {
                assert(s@ =~= encode_pair(ps[0]));
            } else {
                assert(s@ =~= prev + seq!['&'] + encode_pair(ps[i as int]));
            }
        }
        i = i + 1;
    }
    proof {
        assert(ps.take(i as int) =~= ps);
    }
    s
}

} // verus!
