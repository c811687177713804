//! Percent-encoding of resource paths.
use vstd::prelude::*;
use percent_encoding::percent_encode_byte;

verus! {

/// The UTF-8 bytes of one character.
pub open spec fn utf8_of_char(c: char) -> Seq<u8> {
    let u = c as u32;
    if u < 0x80 {
        seq![u as u8]
    } else if u < 0x800 {
        seq![(0xC0 + u / 64) as u8, (0x80 + u % 64) as u8]
    } else if u < 0x10000 {
        seq![(0xE0 + u / 4096) as u8, (0x80 + (u / 64) % 64) as u8, (0x80 + u % 64) as u8]
    } else {
        seq![
            (0xF0 + u / 262144) as u8,
            (0x80 + (u / 4096) % 64) as u8,
            (0x80 + (u / 64) % 64) as u8,
            (0x80 + u % 64) as u8,
        ]
    }
}

/// The UTF-8 bytes of a string.
pub open spec fn utf8_of(s: Seq<char>) -> Seq<u8>
    decreases s.len(),
{
    if s.len() == 0 {
        Seq::empty()
    } else {
        utf8_of_char(s[0]) + utf8_of(s.drop_first())
    }
}

/// The ASCII code points that a path escapes: the C0 controls, DEL, and
/// space, `"`, `#`, `<`, `>`, `?`, backtick, `{` and `}`.
pub open spec fn path_escapes(u: u32) -> bool {
    u < 0x20 || u == 0x7F || u == 0x20 || u == 0x22 || u == 0x23 || u == 0x3C || u == 0x3E
        || u == 0x3F || u == 0x60 || u == 0x7B || u == 0x7D
}

/// Whether a character stands for itself in a path: ASCII and not escaped.
pub open spec fn plain_char(c: char) -> bool {
    (c as u32) < 0x80 && !path_escapes(c as u32)
}

/// An upper-case hexadecimal digit.
pub open spec fn hex_digit(d: nat) -> char {
    seq!['0', '1', '2', '3', '4', '5', '6', '7', '8', '9', 'A', 'B', 'C', 'D', 'E', 'F'][d as int]
}

/// `%` and the two upper-case hexadecimal digits of a byte.
pub open spec fn byte_escape(b: u8) -> Seq<char> {
    seq!['%', hex_digit((b / 16) as nat), hex_digit((b % 16) as nat)]
}

/// Every byte of `bs`, escaped.
pub open spec fn escape_bytes(bs: Seq<u8>) -> Seq<char>
    decreases bs.len(),
{
    if bs.len() == 0 {
        Seq::empty()
    } else {
        escape_bytes(bs.drop_last()) + byte_escape(bs.last())
    }
}

/// The text of one character in a path: itself when plain, otherwise each
/// of its UTF-8 bytes escaped.
pub open spec fn encode_char(c: char) -> Seq<char> {
    if plain_char(c) {
        seq![c]
    } else {
        escape_bytes(utf8_of_char(c))
    }
}

/// A string percent-encoded for a path.
pub open spec fn path_encoded(s: Seq<char>) -> Seq<char>
    decreases s.len(),
{
    if s.len() == 0 {
        Seq::empty()
    } else {
        path_encoded(s.drop_last()) + encode_char(s.last())
    }
}

/// Relies on percent_encoding's `percent_encode_byte`: `%` followed by the
/// byte in two upper-case hexadecimal digits.
#[verifier::external_body]
fn escape_byte(b: u8) -> (r: &'static str)
    ensures
        r@ == byte_escape(b),
{
    percent_encode_byte(b)
}

/// The UTF-8 bytes of `c`.
fn char_utf8(c: char) -> (r: Vec<u8>)
    ensures
        r@ == utf8_of_char(c),
{
    let u = c as u32;
    let r = if u < 0x80 {
        vec![u as u8]
    } else if u < 0x800 {
        vec![(0xC0 + u / 64) as u8, (0x80 + u % 64) as u8]
    } else if u < 0x10000 {
        vec![(0xE0 + u / 4096) as u8, (0x80 + (u / 64) % 64) as u8, (0x80 + u % 64) as u8]
    } else {
        vec![
            (0xF0 + u / 262144) as u8,
            (0x80 + (u / 4096) % 64) as u8,
            (0x80 + (u / 64) % 64) as u8,
            (0x80 + u % 64) as u8,
        ]
    };
    assert(r@ =~= utf8_of_char(c));
    r
}

/// `s` percent-encoded for use in a path.
pub fn encode_path(s: &str) -> (r: String)
    ensures
        r@ == path_encoded(s@),
{
    let n = s.unicode_len();
    let mut r = String::new();
    let mut i: usize = 0;
    assert(s@.subrange(0, 0) =~= Seq::<char>::empty());
    while i < n
        invariant
            n == s@.len(),
            i <= n,
            r@ == path_encoded(s@.subrange(0, i as int)),
        decreases n - i,
    {
        let c = s.get_char(i);
        let ghost before = r@;
        let code = c as u32;
        if code < 0x80 && !(code < 0x20 || code == 0x7F || code == 0x20 || code == 0x22 || code
            == 0x23 || code == 0x3C || code == 0x3E || code == 0x3F || code == 0x60 || code == 0x7B
            || code == 0x7D) {
            let one = s.substring_char(i, i + 1);
            assert(one@ =~= seq![c]);
            r.append(one);
        } else {
            let bytes = char_utf8(c);
            let mut j: usize = 0;
            assert(bytes@.subrange(0, 0) =~= Seq::<u8>::empty());
            while j < bytes.len()
                invariant
                    j <= bytes@.len(),
                    r@ == before + escape_bytes(bytes@.subrange(0, j as int)),
                decreases bytes.len() - j,
            {
                r.append(escape_byte(bytes[j]));
                assert(bytes@.subrange(0, j + 1).drop_last() =~= bytes@.subrange(0, j as int));
                assert(r@ =~= before + escape_bytes(bytes@.subrange(0, j + 1)));
                j = j + 1;
            }
            assert(bytes@.subrange(0, j as int) =~= bytes@);
        }
        assert(s@.subrange(0, i + 1).drop_last() =~= s@.subrange(0, i as int));
        assert(r@ =~= path_encoded(s@.subrange(0, i + 1)));
        i = i + 1;
    }
    assert(s@.subrange(0, n as int) =~= s@);
    r
}

/// The value of a hexadecimal digit of either case.
pub open spec fn hex_value(c: char) -> Option<nat> {
    let u = c as u32;
    if 0x30 <= u <= 0x39 {
        Some((u - 0x30) as nat)
    } else if 0x41 <= u <= 0x46 {
        Some((u - 0x41 + 10) as nat)
    } else if 0x61 <= u <= 0x66 {
        Some((u - 0x61 + 10) as nat)
    } else {
        None
    }
}

/// The bytes that percent-decoding gives: `%` and two hexadecimal digits
/// stand for one byte, every other character for its UTF-8 bytes.
pub open spec fn percent_decoded(s: Seq<char>) -> Seq<u8>
    decreases s.len(),
{
    if s.len() == 0 {
        Seq::empty()
    } else if s[0] == '%' && s.len() >= 3 && hex_value(s[1]) is Some && hex_value(s[2]) is Some {
        seq![(hex_value(s[1])->Some_0 * 16 + hex_value(s[2])->Some_0) as u8] + percent_decoded(
            s.skip(3),
        )
    } else {
        utf8_of_char(s[0]) + percent_decoded(s.drop_first())
    }
}

/// Whether `s` holds no `%` followed by two hexadecimal digits: such text
/// is left as it is by encoding and read as an escape by decoding.
pub open spec fn no_escape_lookalike(s: Seq<char>) -> bool {
    forall|i: int|
        0 <= i && i + 2 < s.len() && #[trigger] s[i] == '%' ==> !(hex_value(s[i + 1]) is Some
            && hex_value(s[i + 2]) is Some)
}

proof fn lemma_hex_digit_value(d: nat)
    requires
        d < 16,
    ensures
        hex_value(hex_digit(d)) == Some(d),
{
    assert(d == 0 || d == 1 || d == 2 || d == 3 || d == 4 || d == 5 || d == 6 || d == 7 || d == 8
        || d == 9 || d == 10 || d == 11 || d == 12 || d == 13 || d == 14 || d == 15);
}

proof fn lemma_escape_front(bs: Seq<u8>)
    requires
        bs.len() > 0,
    ensures
        escape_bytes(bs) == byte_escape(bs[0]) + escape_bytes(bs.drop_first()),
    decreases bs.len(),
{
    if bs.len() == 1 {
        assert(bs.drop_last() =~= Seq::<u8>::empty());
        assert(bs.drop_first() =~= Seq::<u8>::empty());
        assert(escape_bytes(bs) =~= byte_escape(bs[0]) + escape_bytes(bs.drop_first()));
    } else {
        lemma_escape_front(bs.drop_last());
        assert(bs.drop_last().drop_first() =~= bs.drop_first().drop_last());
        assert(bs.drop_first().last() == bs.last());
        assert(escape_bytes(bs) =~= byte_escape(bs[0]) + escape_bytes(bs.drop_first()));
    }
}

proof fn lemma_encoded_front(s: Seq<char>)
    requires
        s.len() > 0,
    ensures
        path_encoded(s) == encode_char(s[0]) + path_encoded(s.drop_first()),
    decreases s.len(),
{
    if s.len() == 1 {
        assert(s.drop_last() =~= Seq::<char>::empty());
        assert(s.drop_first() =~= Seq::<char>::empty());
        assert(path_encoded(s) =~= encode_char(s[0]) + path_encoded(s.drop_first()));
    } else {
        lemma_encoded_front(s.drop_last());
        assert(s.drop_last().drop_first() =~= s.drop_first().drop_last());
        assert(s.drop_first().last() == s.last());
        assert(path_encoded(s) =~= encode_char(s[0]) + path_encoded(s.drop_first()));
    }
}

proof fn lemma_utf8_char_nonempty(c: char)
    ensures
        utf8_of_char(c).len() > 0,
{
}

/// The first character of an encoded non-empty string: the first character
/// itself when plain, `%` otherwise.
proof fn lemma_encoded_first(s: Seq<char>)
    requires
        s.len() > 0,
    ensures
        path_encoded(s).len() > 0,
        path_encoded(s)[0] == (if plain_char(s[0]) {
            s[0]
        } else {
            '%'
        }),
        plain_char(s[0]) ==> path_encoded(s) == seq![s[0]] + path_encoded(s.drop_first()),
{
    lemma_encoded_front(s);
    if !plain_char(s[0]) {
        lemma_utf8_char_nonempty(s[0]);
        lemma_escape_front(utf8_of_char(s[0]));
    }
}

proof fn lemma_decode_escaped(bs: Seq<u8>, t: Seq<char>)
    ensures
        percent_decoded(escape_bytes(bs) + t) == bs + percent_decoded(t),
    decreases bs.len(),
{
    if bs.len() == 0 {
        assert(escape_bytes(bs) + t =~= t);
        assert(bs + percent_decoded(t) =~= percent_decoded(t));
    } else {
        lemma_escape_front(bs);
        let b = bs[0];
        let x = escape_bytes(bs.drop_first()) + t;
        let whole = byte_escape(b) + x;
        assert(escape_bytes(bs) + t =~= whole);
        lemma_hex_digit_value((b / 16) as nat);
        lemma_hex_digit_value((b % 16) as nat);
        assert(whole[0] == '%');
        assert(whole[1] == hex_digit((b / 16) as nat));
        assert(whole[2] == hex_digit((b % 16) as nat));
        assert(whole.skip(3) =~= x);
        assert(((b / 16) * 16 + b % 16) as u8 == b);
        lemma_decode_escaped(bs.drop_first(), t);
        assert(seq![b] + (bs.drop_first() + percent_decoded(t)) =~= bs + percent_decoded(t));
    }
}

/// Decoding an encoded path gives back the UTF-8 bytes of the original,
/// for every string without `%` followed by two hexadecimal digits.
pub proof fn lemma_path_round_trip(s: Seq<char>)
    requires
        no_escape_lookalike(s),
    ensures
        percent_decoded(path_encoded(s)) == utf8_of(s),
    decreases s.len(),
{
    if s.len() == 0 {
        assert(path_encoded(s) =~= Seq::<char>::empty());
    } else {
        let c = s[0];
        let rest = s.drop_first();
        assert forall|i: int|
            0 <= i && i + 2 < rest.len() && #[trigger] rest[i] == '%' implies !(hex_value(rest[i + 1])
            is Some && hex_value(rest[i + 2]) is Some) by {
            assert(s[i + 1] == rest[i]);
            assert(s[i + 2] == rest[i + 1]);
            assert(s[i + 3] == rest[i + 2]);
        }
        lemma_path_round_trip(rest);
        lemma_encoded_front(s);
        let r = path_encoded(rest);
        if plain_char(c) {
            let whole = seq![c] + r;
            assert(path_encoded(s) == whole);
            assert(whole.drop_first() =~= r);
            if c == '%' {
                if rest.len() >= 2 {
                    lemma_encoded_first(rest);
                    if plain_char(rest[0]) {
                        lemma_encoded_first(rest.drop_first());
                        assert(r[1] == path_encoded(rest.drop_first())[0]);
                        assert(s[1] == rest[0] && s[2] == rest[1]);
                        assert(s[0] == '%');
                    }
                } else if rest.len() == 1 {
                    lemma_encoded_first(rest);
                    if plain_char(rest[0]) {
                        assert(rest.drop_first() =~= Seq::<char>::empty());
                        assert(r =~= seq![rest[0]]);
                    } else {
                        assert(r[0] == '%');
                    }
                } else {
                    assert(r =~= Seq::<char>::empty());
                }
            }
            assert(percent_decoded(whole) == utf8_of_char(c) + percent_decoded(r));
        } else {
            lemma_decode_escaped(utf8_of_char(c), r);
        }
    }
}

} // verus!
