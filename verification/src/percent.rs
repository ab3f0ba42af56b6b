//! Percent-encoding of query-string values, as the daemon's `filters`
//! parameter requires.

use vstd::prelude::*;

use crate::parse::hex_val;
use vstd::utf8::{
    char_is_scalar, decode_utf8, encode_scalar, encode_utf8, encode_utf8_decode_utf8,
};

verus! {

/// Characters that percent-encoding leaves as they are: ASCII alphanumerics
/// and `-`, `.`, `_`, `~`.
pub open spec fn is_unreserved(c: char) -> bool {
    (48 <= c as u32 && c as u32 <= 57) || (65 <= c as u32 && c as u32 <= 90) || (97 <= c as u32
        && c as u32 <= 122) || c == '-' || c == '.' || c == '_' || c == '~'
}

/// The uppercase hex digit of a value below 16.
pub open spec fn hex_upper(d: u8) -> char
    recommends
        d < 16,
{
    if d < 10 {
        (d + 48) as char
    } else {
        (d + 55) as char
    }
}

/// One percent-encoded byte: `%` and two uppercase hex digits.
pub open spec fn pct_byte(b: u8) -> Seq<char> {
    seq!['%', hex_upper(b / 16), hex_upper(b % 16)]
}

/// A run of bytes, each percent-encoded.
pub open spec fn pct_bytes(bs: Seq<u8>) -> Seq<char>
    decreases bs.len(),
{
    if bs.len() == 0 {
        Seq::empty()
    } else {
        pct_bytes(bs.drop_last()) + pct_byte(bs.last())
    }
}

/// How one character appears in percent-encoded text: unreserved characters
/// stand as themselves, every other character as each byte of its UTF-8 form
/// percent-encoded.
pub open spec fn pct_char(c: char) -> Seq<char> {
    if is_unreserved(c) {
        seq![c]
    } else {
        pct_bytes(encode_utf8(seq![c]))
    }
}

/// The percent-encoded form of a string.
pub open spec fn percent_encoded(s: Seq<char>) -> Seq<char>
    decreases s.len(),
{
    if s.len() == 0 {
        Seq::empty()
    } else {
        percent_encoded(s.drop_last()) + pct_char(s.last())
    }
}

/// Reads percent-encoded text back into the bytes it stands for: `%` and two
/// hex digits give that byte, an unreserved character gives its own byte,
/// anything else is refused.
pub open spec fn percent_decode(s: Seq<char>) -> Option<Seq<u8>>
    decreases s.len(),
{
    if s.len() == 0 {
        Option::Some(Seq::empty())
    } else if s[0] == '%' {
        if s.len() >= 3 && hex_val(s[1]) >= 0 && hex_val(s[2]) >= 0 {
            match percent_decode(s.skip(3)) {
                Option::None => Option::None,
                Option::Some(rest) => Option::Some(
                    seq![(16 * hex_val(s[1]) + hex_val(s[2])) as u8] + rest,
                ),
            }
        } else {
            Option::None
        }
    } else if is_unreserved(s[0]) {
        match percent_decode(s.skip(1)) {
            Option::None => Option::None,
            Option::Some(rest) => Option::Some(seq![((s[0] as u32) as u8)] + rest),
        }
    } else {
        Option::None
    }
}

/// Decoding walks a decodable prefix without looking past it: dropping it
/// off the front leaves the rest to decode on its own.
proof fn lemma_decode_append(a: Seq<char>, b: Seq<char>)
    requires
        percent_decode(a) is Some,
    ensures
        percent_decode(a + b) == (match percent_decode(b) {
            Option::Some(y) => Option::Some(percent_decode(a).unwrap() + y),
            Option::None => Option::None::<Seq<u8>>,
        }),
    decreases a.len(),
{
    if a.len() == 0 {
        assert(a + b =~= b);
        match percent_decode(b) {
            Option::Some(y) => {
                assert(percent_decode(a).unwrap() + y =~= y);
            },
            Option::None => {},
        }
    } else if a[0] == '%' {
        assert((a + b)[0] == '%');
        assert((a + b)[1] == a[1] && (a + b)[2] == a[2]);
        assert((a + b).skip(3) =~= a.skip(3) + b);
        lemma_decode_append(a.skip(3), b);
        let bb = (16 * hex_val(a[1]) + hex_val(a[2])) as u8;
        let rest = percent_decode(a.skip(3)).unwrap();
        match percent_decode(b) {
            Option::Some(y) => {
                assert(seq![bb] + (rest + y) =~= (seq![bb] + rest) + y);
            },
            Option::None => {},
        }
    } else {
        assert((a + b)[0] == a[0]);
        assert((a + b).skip(1) =~= a.skip(1) + b);
        lemma_decode_append(a.skip(1), b);
        let bb = ((a[0] as u32) as u8);
        let rest = percent_decode(a.skip(1)).unwrap();
        match percent_decode(b) {
            Option::Some(y) => {
                assert(seq![bb] + (rest + y) =~= (seq![bb] + rest) + y);
            },
            Option::None => {},
        }
    }
}

/// A run of percent-encoded bytes decodes back to exactly those bytes.
proof fn lemma_decode_pct_bytes(bs: Seq<u8>)
    ensures
        percent_decode(pct_bytes(bs)) == Option::Some(bs),
    decreases bs.len(),
{
    if bs.len() == 0 {
        assert(pct_bytes(bs) =~= Seq::<char>::empty());
        assert(percent_decode(pct_bytes(bs)) == Option::Some(Seq::<u8>::empty()));
        assert(Seq::<u8>::empty() =~= bs);
    } else {
        let b = bs.last();
        let p = pct_byte(b);
        lemma_decode_pct_bytes(bs.drop_last());
        assert(hex_val(p[1]) == b / 16 && hex_val(p[2]) == b % 16);
        assert(16 * (b / 16) as int + (b % 16) as int == b as int);
        assert(p.skip(3) =~= Seq::<char>::empty());
        assert(percent_decode(Seq::<char>::empty()) == Option::Some(Seq::<u8>::empty()));
        assert(percent_decode(p) == Option::Some(seq![b] + Seq::<u8>::empty()));
        assert(seq![b] + Seq::<u8>::empty() =~= seq![b]);
        lemma_decode_append(pct_bytes(bs.drop_last()), p);
        assert(bs.drop_last() + seq![b] =~= bs);
    }
}

/// The encoded form of one character decodes back to that character's UTF-8
/// bytes.
proof fn lemma_decode_pct_char(c: char)
    ensures
        percent_decode(pct_char(c)) == Option::Some(encode_utf8(seq![c])),
{
    char_is_scalar(c);
    assert(seq![c].drop_first() =~= Seq::<char>::empty());
    assert(encode_utf8(Seq::<char>::empty()) =~= Seq::<u8>::empty());
    assert(encode_utf8(seq![c]) =~= encode_scalar(c as u32) + encode_utf8(seq![c].drop_first()));
    assert(encode_utf8(seq![c]) =~= encode_scalar(c as u32));
    if is_unreserved(c) {
        let u = c as u32;
        assert(u < 0x80);
        assert(u < 0x80 ==> (u & 0x7F) as u8 == u as u8) by (bit_vector);
        assert(encode_scalar(u) =~= seq![(u as u8)]);
        assert(pct_char(c) == seq![c]);
        assert(seq![c][0] == c && seq![c].len() == 1);
        assert(c != '%');
        assert(seq![c].skip(1) =~= Seq::<char>::empty());
        assert(percent_decode(Seq::<char>::empty()) == Option::Some(Seq::<u8>::empty()));
        assert(percent_decode(seq![c]) == Option::Some(seq![(u as u8)] + Seq::<u8>::empty()));
        assert(seq![(u as u8)] + Seq::<u8>::empty() =~= encode_utf8(seq![c]));
    } else {
        lemma_decode_pct_bytes(encode_utf8(seq![c]));
    }
}

/// UTF-8 encoding read one character off the end.
proof fn lemma_encode_utf8_snoc(s: Seq<char>)
    requires
        s.len() > 0,
    ensures
        encode_utf8(s) == encode_utf8(s.drop_last()) + encode_scalar(s.last() as u32),
    decreases s.len(),
{
    if s.len() == 1 {
        assert(s.drop_first() =~= Seq::<char>::empty());
        assert(s.drop_last() =~= Seq::<char>::empty());
        assert(encode_utf8(s) =~= encode_utf8(s.drop_last()) + encode_scalar(s.last() as u32));
    } else {
        let t = s.drop_first();
        lemma_encode_utf8_snoc(t);
        assert(t.last() == s.last());
        assert(t.drop_last() =~= s.drop_last().drop_first());
        assert(s.drop_last().len() > 0 && s.drop_last()[0] == s[0]);
        assert(encode_utf8(s.drop_last()) == encode_scalar(s[0] as u32) + encode_utf8(
            s.drop_last().drop_first(),
        ));
        assert(encode_scalar(s[0] as u32) + (encode_utf8(t.drop_last()) + encode_scalar(
            s.last() as u32,
        )) =~= (encode_scalar(s[0] as u32) + encode_utf8(t.drop_last())) + encode_scalar(
            s.last() as u32,
        ));
    }
}

/// Law: percent-encoding loses nothing. For every string, the encoded text
/// decodes back to exactly the string's UTF-8 bytes, and those bytes decode
/// back to the string. In particular the `filters` query value each listing
/// request sends decodes to exactly the filter JSON it was built from.
pub proof fn lemma_percent_round_trip(s: Seq<char>)
    ensures
        percent_decode(percent_encoded(s)) == Option::Some(encode_utf8(s)),
        decode_utf8(encode_utf8(s)) == s,
    decreases s.len(),
{
    encode_utf8_decode_utf8(s);
    if s.len() == 0 {
        assert(percent_encoded(s) =~= Seq::<char>::empty());
        assert(encode_utf8(s) =~= Seq::<u8>::empty());
    } else {
        lemma_percent_round_trip(s.drop_last());
        lemma_decode_append(percent_encoded(s.drop_last()), pct_char(s.last()));
        lemma_decode_pct_char(s.last());
        lemma_encode_utf8_snoc(s);
        assert(seq![s.last()].drop_first() =~= Seq::<char>::empty());
        assert(encode_utf8(Seq::<char>::empty()) =~= Seq::<u8>::empty());
        assert(encode_utf8(seq![s.last()]) =~= encode_scalar(s.last() as u32) + encode_utf8(
            seq![s.last()].drop_first(),
        ));
        assert(encode_utf8(seq![s.last()]) =~= encode_scalar(s.last() as u32));
        assert(encode_utf8(s.drop_last()) + encode_utf8(seq![s.last()]) =~= encode_utf8(s));
    }
}

/// Relies on `urlencoding::encode`: percent-encodes every byte of the
/// string's UTF-8 form except ASCII alphanumerics and `-`, `.`, `_`, `~`,
/// with uppercase hex digits.
#[verifier::external_body]
pub fn percent_encode(s: &str) -> (r: String)
    ensures
        r@ == percent_encoded(s@),
{
    urlencoding::encode(s).into_owned()
}

} // verus!
