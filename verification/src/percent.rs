//! Percent-decoding of header values.

use vstd::prelude::*;
use vstd::string::*;
use vstd::utf8::*;

verus! {

/// Declares `std::string::FromUtf8Error`, which `String::from_utf8` gives back on bad input.
#[verifier::external_type_specification]
#[verifier::external_body]
pub struct ExFromUtf8Error(std::string::FromUtf8Error);

/// `String::from_utf8` succeeds exactly on well-formed UTF-8, and the string it then returns holds
/// the characters that the bytes encode.
pub assume_specification[ String::from_utf8 ](vec: Vec<u8>) -> (res: Result<
    String,
    std::string::FromUtf8Error,
>)
    ensures
        res is Ok <==> valid_utf8(vec@),
        res matches Ok(s) ==> s@ == decode_utf8(vec@),
;

pub const PERCENT: u8 = 37;

pub const PLUS: u8 = 43;

pub const SPACE: u8 = 32;

/// The value of one hexadecimal digit, in either case.
pub open spec fn hex_digit(b: u8) -> Option<u8> {
    if 48 <= b <= 57 {
        Some((b - 48) as u8)
    } else if 97 <= b <= 102 {
        Some((b - 87) as u8)
    } else if 65 <= b <= 70 {
        Some((b - 55) as u8)
    } else {
        None
    }
}

/// The byte that the two characters behind a `%` stand for: two hexadecimal digits, or a plus sign
/// and one digit.
pub open spec fn escape_value(first: u8, second: u8) -> Option<u8> {
    match (hex_digit(first), hex_digit(second)) {
        (Some(h), Some(l)) => Some((16 * h + l) as u8),
        (None, Some(l)) => if first == PLUS {
            Some(l)
        } else {
            None
        },
        _ => None,
    }
}

/// The bytes that `s` stands for: `%` begins an escape, `+` is a space, any other byte is itself.
/// `None` where an escape is cut short or is no number.
pub open spec fn unescaped(s: Seq<u8>) -> Option<Seq<u8>>
    decreases s.len(),
{
    if s.len() == 0 {
        Some(Seq::empty())
    } else if s[0] == PERCENT {
        if s.len() < 3 {
            None
        } else {
            match (escape_value(s[1], s[2]), unescaped(s.skip(3))) {
                (Some(b), Some(rest)) => Some(seq![b] + rest),
                _ => None,
            }
        }
    } else {
        match unescaped(s.skip(1)) {
            Some(rest) => Some(
                seq![
                    if s[0] == PLUS {
                        SPACE
                    } else {
                        s[0]
                    },
                ] + rest,
            ),
            None => None,
        }
    }
}

/// The text that `s` stands for once its escapes are undone; `None` also where the bytes are no
/// UTF-8.
pub open spec fn percent_decoded(s: Seq<char>) -> Option<Seq<char>> {
    match unescaped(encode_utf8(s)) {
        Some(bytes) => if valid_utf8(bytes) {
            Some(decode_utf8(bytes))
        } else {
            None
        },
        None => None,
    }
}

fn hex_value(b: u8) -> (res: Option<u8>)
    ensures
        res == hex_digit(b),
{
    if 48 <= b && b <= 57 {
        Some(b - 48)
    } else if 97 <= b && b <= 102 {
        Some(b - 87)
    } else if 65 <= b && b <= 70 {
        Some(b - 55)
    } else {
        None
    }
}

fn escaped_byte(first: u8, second: u8) -> (res: Option<u8>)
    ensures
        res == escape_value(first, second),
{
    match (hex_value(first), hex_value(second)) {
        (Some(h), Some(l)) => Some(16 * h + l),
        (None, Some(l)) => if first == PLUS {
            Some(l)
        } else {
            None
        },
        _ => None,
    }
}

/// Undoes percent-encoding. Fails on a broken escape and on bytes that are no UTF-8.
pub fn percent_decode(value: &str) -> (res: Option<String>)
    ensures
        res is Some <==> percent_decoded(value@) is Some,
        res matches Some(text) ==> percent_decoded(value@) == Some(text@),
{
    let bytes = value.as_bytes();
    let ghost all = bytes@;
    let mut out: Vec<u8> = Vec::with_capacity(bytes.len());
    let mut i: usize = 0;
    assert(all.skip(0) =~= all);
    while i < bytes.len()
        invariant
            i <= bytes@.len(),
            all == bytes@,
            all == encode_utf8(value@),
            unescaped(all) == (match unescaped(all.skip(i as int)) {
                Some(rest) => Some(out@ + rest),
                None => None,
            }),
        decreases bytes@.len() - i,
    {
        let b = bytes[i];
        let ghost left = all.skip(i as int);
        let ghost before = out@;
        if b == PERCENT {
            if bytes.len() - i < 3 {
                return None;
            }
            assert(left[1] == bytes@[i + 1] && left[2] == bytes@[i + 2]);
            match escaped_byte(bytes[i + 1], bytes[i + 2]) {
                Some(v) => {
                    out.push(v);
                    assert(left.skip(3) =~= all.skip(i + 3));
                    i = i + 3;
                    assert(forall|rest: Seq<u8>|
                        before + (seq![v] + rest) =~= #[trigger] (before.push(v) + rest));
                },
                None => {
                    return None;
                },
            }
        } else {
            let v: u8 = if b == PLUS {
                SPACE
            } else {
                b
            };
            out.push(v);
            assert(left.skip(1) =~= all.skip(i + 1));
            i = i + 1;
            assert(forall|rest: Seq<u8>|
                before + (seq![v] + rest) =~= #[trigger] (before.push(v) + rest));
        }
    }
    assert(all.skip(i as int) =~= Seq::<u8>::empty());
    assert(out@ + Seq::<u8>::empty() =~= out@);
    match String::from_utf8(out) {
        Ok(text) => Some(text),
        Err(_) => None,
    }
}

/// Whether the character of code `x` is the hexadecimal digit of value `v`, in either case.
pub open spec fn is_digit_for(x: int, v: int) -> bool {
    ||| 0 <= v < 10 && x == 48 + v
    ||| 10 <= v < 16 && (x == 55 + v || x == 87 + v)
}

/// Whether `piece` is a way to write the byte `b`: as itself unless it is `%` or `+`, as a `+` where
/// it is a space, or as `%` and its two hexadecimal digits, of which the first may be a `+` in place
/// of a zero.
pub open spec fn writes(piece: Seq<u8>, b: u8) -> bool {
    ||| piece == seq![b] && b != 37 && b != 43
    ||| piece == seq![43u8] && b == 32
    ||| {
        &&& piece.len() == 3
        &&& piece[0] == 37
        &&& is_digit_for(piece[1] as int, b as int / 16) || (piece[1] == 43 && b < 16)
        &&& is_digit_for(piece[2] as int, b as int % 16)
    }
}

/// Whether `pieces` write the bytes of `s` in UTF-8, one piece for each byte.
pub open spec fn writes_text(pieces: Seq<Seq<u8>>, s: Seq<char>) -> bool {
    &&& pieces.len() == encode_utf8(s).len()
    &&& forall|i: int|
        0 <= i < pieces.len() ==> writes(#[trigger] pieces[i], encode_utf8(s)[i])
}

proof fn lemma_unescape_pieces(pieces: Seq<Seq<u8>>, bytes: Seq<u8>)
    requires
        pieces.len() == bytes.len(),
        forall|i: int| 0 <= i < pieces.len() ==> writes(#[trigger] pieces[i], bytes[i]),
    ensures
        unescaped(pieces.flatten()) == Some(bytes),
    decreases pieces.len(),
{
    let e = pieces.flatten();
    if pieces.len() == 0 {
        assert(e =~= Seq::<u8>::empty());
        assert(bytes =~= Seq::<u8>::empty());
    } else {
        let piece = pieces[0];
        let rest = pieces.drop_first().flatten();
        assert forall|i: int| 0 <= i < pieces.drop_first().len() implies writes(
            #[trigger] pieces.drop_first()[i],
            bytes.skip(1)[i],
        ) by {
            assert(writes(pieces[i + 1], bytes[i + 1]));
        }
        lemma_unescape_pieces(pieces.drop_first(), bytes.skip(1));
        assert(writes(piece, bytes[0]));
        assert(e =~= piece + rest);
        assert(e.skip(piece.len() as int) =~= rest);
        assert(seq![bytes[0]] + bytes.skip(1) =~= bytes);
    }
}

/// Percent-encoded text comes back unchanged, however each of its bytes was written. The choice is
/// free byte by byte, so the digits of an escape may be in either case, a space may be a `+`, and
/// characters beyond ASCII may be left alone.
pub proof fn law_percent_round_trip(s: Seq<char>, pieces: Seq<Seq<u8>>, text: Seq<char>)
    requires
        writes_text(pieces, s),
        encode_utf8(text) == pieces.flatten(),
    ensures
        percent_decoded(text) == Some(s),
{
    lemma_unescape_pieces(pieces, encode_utf8(s));
    encode_utf8_valid_utf8(s);
    encode_utf8_decode_utf8(s);
}

/// The upper-case hexadecimal digit for a value below 16.
pub open spec fn hex_char(v: int) -> u8 {
    if v < 10 {
        (48 + v) as u8
    } else {
        (55 + v) as u8
    }
}

/// One way to write each byte: those that `keep` holds of as themselves, any other as an escape.
pub open spec fn escaped(bytes: Seq<u8>, keep: spec_fn(u8) -> bool) -> Seq<Seq<u8>> {
    bytes.map_values(
        |b: u8|
            if keep(b) {
                seq![b]
            } else {
                seq![PERCENT, hex_char(b as int / 16), hex_char(b as int % 16)]
            },
    )
}

/// The percent-encoding of `s` in which the bytes that `keep` holds of stand for themselves.
pub open spec fn percent_encoded(s: Seq<char>, keep: spec_fn(u8) -> bool) -> Seq<char> {
    escaped(encode_utf8(s), keep).flatten().map_values(|b: u8| b as char)
}

proof fn lemma_flat_bytes(pieces: Seq<Seq<u8>>)
    requires
        forall|i: int, j: int|
            0 <= i < pieces.len() && 0 <= j < pieces[i].len() ==> #[trigger] pieces[i][j] < 128,
    ensures
        forall|k: int| 0 <= k < pieces.flatten().len() ==> #[trigger] pieces.flatten()[k] < 128,
    decreases pieces.len(),
{
    if pieces.len() > 0 {
        let rest = pieces.drop_first();
        assert forall|i: int, j: int|
            0 <= i < rest.len() && 0 <= j < rest[i].len() implies #[trigger] rest[i][j] < 128 by {
            assert(pieces[i + 1][j] < 128);
        }
        lemma_flat_bytes(rest);
        assert forall|k: int| 0 <= k < pieces.flatten().len() implies #[trigger] pieces.flatten()[k]
            < 128 by {
            if k < pieces[0].len() {
                assert(pieces[0][k] < 128);
            } else {
                assert(pieces.flatten()[k] == rest.flatten()[k - pieces[0].len()]);
            }
        }
    }
}

/// Every text has an encoding in ASCII that comes back unchanged, whichever ASCII bytes other than
/// `%` and `+` the encoder leaves alone.
pub proof fn law_every_text_can_be_encoded(s: Seq<char>, keep: spec_fn(u8) -> bool)
    requires
        forall|b: u8| #[trigger] keep(b) ==> b < 128 && b != PERCENT && b != PLUS,
    ensures
        writes_text(escaped(encode_utf8(s), keep), s),
        encode_utf8(percent_encoded(s, keep)) == escaped(encode_utf8(s), keep).flatten(),
        percent_decoded(percent_encoded(s, keep)) == Some(s),
{
    let bytes = encode_utf8(s);
    let pieces = escaped(bytes, keep);
    let e = pieces.flatten();
    let text = percent_encoded(s, keep);
    assert forall|i: int| 0 <= i < pieces.len() implies writes(#[trigger] pieces[i], bytes[i]) by {
        let b = bytes[i];
        if !keep(b) {
            assert(hex_digit(hex_char(b as int / 16)) == Some((b / 16) as u8));
            assert(hex_digit(hex_char(b as int % 16)) == Some((b % 16) as u8));
        }
    }
    lemma_flat_bytes(pieces);
    assert forall|i: int| 0 <= i < text.len() implies '\0' <= #[trigger] text[i] <= '\u{7f}' by {
        assert(e[i] < 128);
    }
    is_ascii_chars_encode_utf8(text);
    assert(encode_utf8(text) =~= e) by {
        assert forall|i: int| 0 <= i < e.len() implies encode_utf8(text)[i] == e[i] by {
            assert(text[i] == e[i] as char);
        }
    }
    law_percent_round_trip(s, pieces, text);
}

proof fn lemma_unescape_plain(bytes: Seq<u8>)
    requires
        forall|i: int| 0 <= i < bytes.len() ==> #[trigger] bytes[i] != PERCENT && bytes[i] != PLUS,
    ensures
        unescaped(bytes) == Some(bytes),
    decreases bytes.len(),
{
    if bytes.len() == 0 {
        assert(bytes =~= Seq::<u8>::empty());
    } else {
        lemma_unescape_plain(bytes.skip(1));
        assert(seq![bytes[0]] + bytes.skip(1) =~= bytes);
    }
}

proof fn lemma_encoded_byte(v: u32, i: int)
    requires
        is_scalar(v),
        0 <= i < encode_scalar(v).len(),
    ensures
        v < 128 ==> encode_scalar(v)[i] == v,
        v >= 128 ==> encode_scalar(v)[i] >= 128,
{
    assert(v < 128 ==> (v & 0x7F) as u8 == v) by (bit_vector);
    let x = (v & 0x3F) as u8;
    let y = ((v >> 6) & 0x3F) as u8;
    let z = ((v >> 12) & 0x3F) as u8;
    let a = ((v >> 6) & 0x1F) as u8;
    let b = ((v >> 12) & 0x0F) as u8;
    let c = ((v >> 18) & 0x7) as u8;
    assert(0x80u8 | x >= 128 && 0x80u8 | y >= 128 && 0x80u8 | z >= 128 && 0xC0u8 | a >= 128 && 0xE0u8
        | b >= 128 && 0xF0u8 | c >= 128) by (bit_vector);
}

proof fn lemma_plain_bytes(s: Seq<char>)
    requires
        forall|i: int| 0 <= i < s.len() ==> #[trigger] s[i] != '%' && s[i] != '+',
    ensures
        forall|i: int|
            0 <= i < encode_utf8(s).len() ==> #[trigger] encode_utf8(s)[i] != PERCENT && encode_utf8(
                s,
            )[i] != PLUS,
    decreases s.len(),
{
    if s.len() > 0 {
        lemma_plain_bytes(s.drop_first());
        char_is_scalar(s[0]);
        let head = encode_scalar(s[0] as u32);
        let tail = encode_utf8(s.drop_first());
        assert forall|i: int| 0 <= i < encode_utf8(s).len() implies #[trigger] encode_utf8(s)[i]
            != PERCENT && encode_utf8(s)[i] != PLUS by {
            if i < head.len() {
                let v = s[0] as u32;
                assert(s[0] != '%' && s[0] != '+');
                char_u32_cast(s[0], v);
                assert(v != 37 && v != 43);
                lemma_encoded_byte(v, i);
                assert(encode_utf8(s)[i] == head[i]);
            } else {
                assert(encode_utf8(s)[i] == tail[i - head.len()]);
            }
        }
    }
}

/// Text without `%` and `+` stands for itself.
pub proof fn law_plain_text_is_kept(s: Seq<char>)
    requires
        forall|i: int| 0 <= i < s.len() ==> #[trigger] s[i] != '%' && s[i] != '+',
    ensures
        percent_decoded(s) == Some(s),
{
    lemma_plain_bytes(s);
    lemma_unescape_plain(encode_utf8(s));
    encode_utf8_valid_utf8(s);
    encode_utf8_decode_utf8(s);
}

proof fn lemma_pieces_of_unescaped(s: Seq<u8>) -> (pieces: Seq<Seq<u8>>)
    requires
        unescaped(s) is Some,
    ensures
        pieces.flatten() == s,
        pieces.len() == unescaped(s)->0.len(),
        forall|i: int|
            0 <= i < pieces.len() ==> writes(#[trigger] pieces[i], unescaped(s)->0[i]),
    decreases s.len(),
{
    if s.len() == 0 {
        let none = Seq::<Seq<u8>>::empty();
        assert(none.flatten() =~= s);
        none
    } else {
        let n: int = if s[0] == PERCENT {
            3
        } else {
            1
        };
        let piece = s.take(n);
        let rest = lemma_pieces_of_unescaped(s.skip(n));
        let b = unescaped(s)->0[0];
        assert(writes(piece, b)) by {
            if n == 1 {
                assert(piece =~= seq![s[0]]);
            } else {
                assert(escape_value(s[1], s[2]) == Some(b));
                assert(piece[1] == s[1] && piece[2] == s[2]);
            }
        }
        let pieces = seq![piece] + rest;
        assert(pieces.drop_first() =~= rest);
        assert(s =~= piece + s.skip(n));
        assert forall|i: int| 0 <= i < pieces.len() implies writes(
            #[trigger] pieces[i],
            unescaped(s)->0[i],
        ) by {
            if i > 0 {
                assert(pieces[i] == rest[i - 1]);
                assert(unescaped(s)->0[i] == unescaped(s.skip(n))->0[i - 1]);
            }
        }
        pieces
    }
}

/// A value is decoded exactly where it is an encoding of some text, and to that text: anything with
/// a broken escape, or that stands for bytes which are no UTF-8, is refused.
pub proof fn law_only_encodings_are_decoded(value: &str, res: Option<String>)
    requires
        call_ensures(percent_decode, (value,), res),
    ensures
        res matches Some(text) ==> exists|pieces: Seq<Seq<u8>>| #[trigger]
            writes_text(pieces, text@) && pieces.flatten() == encode_utf8(value@),
        res is None ==> forall|text: Seq<char>, pieces: Seq<Seq<u8>>| #[trigger]
            writes_text(pieces, text) ==> pieces.flatten() != encode_utf8(value@),
{
    if let Some(text) = res {
        let pieces = lemma_pieces_of_unescaped(encode_utf8(value@));
        decode_utf8_encode_utf8(unescaped(encode_utf8(value@))->0);
        assert(writes_text(pieces, text@));
    } else {
        assert forall|text: Seq<char>, pieces: Seq<Seq<u8>>| #[trigger]
            writes_text(pieces, text) implies pieces.flatten() != encode_utf8(value@) by {
            if pieces.flatten() == encode_utf8(value@) {
                law_percent_round_trip(text, pieces, value@);
            }
        }
    }
}

} // verus!
