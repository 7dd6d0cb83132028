//! Hexadecimal line codec.
//!
//! A hex line is a sequence of tokens separated by single space bytes;
//! a token contributes one byte to the decoded command exactly when it
//! consists of two hexadecimal digits.  Malformed tokens are dropped
//! silently.  The encoder renders bytes as two lowercase digits each,
//! space separated, so that every encoded line decodes back to the
//! bytes it came from.

use vstd::prelude::*;
use vstd::string::StringSliceAdditionalSpecFns;

verus! {

/// The byte that separates tokens on a hex line.
pub const TOKEN_SEPARATOR: u8 = 32;

/// The line-terminator byte.
pub const LINE_TERMINATOR: u8 = 10;

/// Is `b` the ASCII code of a hexadecimal digit (either case)?
pub open spec fn is_hex_digit(b: u8) -> bool {
    (48 <= b <= 57) || (65 <= b <= 70) || (97 <= b <= 102)
}

/// The value of the hexadecimal digit with ASCII code `b`.
pub open spec fn hex_digit_val(b: u8) -> u8
    recommends
        is_hex_digit(b),
{
    if 48 <= b <= 57 {
        (b - 48) as u8
    } else if 65 <= b <= 70 {
        (b - 55) as u8
    } else {
        (b - 87) as u8
    }
}

/// A token is well formed exactly when it is two hexadecimal digits.
pub open spec fn is_hex_token(t: Seq<u8>) -> bool {
    t.len() == 2 && is_hex_digit(t[0]) && is_hex_digit(t[1])
}

/// The byte a well-formed token stands for.
pub open spec fn token_value(t: Seq<u8>) -> u8
    recommends
        is_hex_token(t),
{
    (hex_digit_val(t[0]) * 16 + hex_digit_val(t[1])) as u8
}

/// What a token contributes to the decoded line: one byte if it is
/// well formed, nothing otherwise.
pub open spec fn token_bytes(t: Seq<u8>) -> Seq<u8> {
    if is_hex_token(t) {
        seq![token_value(t)]
    } else {
        Seq::empty()
    }
}

/// Scan the bytes of a line left to right, `cur` being the token read
/// so far: each separator ends a token, and the last token ends with
/// the line.
pub open spec fn scan_tokens(s: Seq<u8>, cur: Seq<u8>) -> Seq<u8>
    decreases s.len(),
{
    if s.len() == 0 {
        token_bytes(cur)
    } else if s[0] == TOKEN_SEPARATOR {
        token_bytes(cur) + scan_tokens(s.drop_first(), Seq::empty())
    } else {
        scan_tokens(s.drop_first(), cur.push(s[0]))
    }
}

/// A line with one trailing terminator removed, if it carries one.
pub open spec fn strip_terminator(s: Seq<u8>) -> Seq<u8> {
    if s.len() > 0 && s.last() == LINE_TERMINATOR {
        s.drop_last()
    } else {
        s
    }
}

/// The bytes a whole operator line in hex mode decodes to.
pub open spec fn spec_parse_hex_line(s: Seq<u8>) -> Seq<u8> {
    scan_tokens(strip_terminator(s), Seq::empty())
}

/// The value of the hexadecimal digit `b`, or `None` when `b` is no
/// such digit.
fn hex_digit_value(b: u8) -> (r: Option<u8>)
    ensures
        r is Some <==> is_hex_digit(b),
        r is Some ==> r.unwrap() == hex_digit_val(b) && r.unwrap() < 16,
{
    if 48 <= b && b <= 57 {
        Some(b - 48)
    } else if 65 <= b && b <= 70 {
        Some(b - 55)
    } else if 97 <= b && b <= 102 {
        Some(b - 87)
    } else {
        None
    }
}

/// Append to `out` what the token `tok` stands for: its byte value if
/// it is two hexadecimal digits, nothing otherwise.
fn push_token(out: &mut Vec<u8>, tok: &Vec<u8>)
    ensures
        final(out)@ == old(out)@ + token_bytes(tok@),
{
    proof {
        assert(old(out)@ + Seq::<u8>::empty() =~= old(out)@);
    }
    if tok.len() == 2 {
        let h = hex_digit_value(tok[0]);
        let l = hex_digit_value(tok[1]);
        match (h, l) {
            (Some(h), Some(l)) => {
                let v: u8 = h * 16 + l;
                proof {
                    assert(old(out)@ + seq![v] =~= old(out)@.push(v));
                }
                out.push(v);
            },
            _ => {},
        }
    }
}

/// Decode one operator line of hexadecimal tokens into the bytes it
/// stands for, dropping malformed tokens silently.
pub fn parse_bytes(buf: &str) -> (r: Vec<u8>)
    ensures
        r@ == spec_parse_hex_line(buf.spec_bytes()),
{
    parse_hex_line(buf.as_bytes())
}

/// Decode a line of hexadecimal tokens, given as bytes.
pub fn parse_hex_line(buf: &[u8]) -> (r: Vec<u8>)
    ensures
        r@ == spec_parse_hex_line(buf@),
{
    let len: usize = buf.len();
    let n: usize = if len > 0 && buf[len - 1] == LINE_TERMINATOR {
        len - 1
    } else {
        len
    };
    assert(buf@.subrange(0, n as int) == strip_terminator(buf@)) by {
        assert(buf@.subrange(0, n as int) =~= strip_terminator(buf@));
    }
    let mut out: Vec<u8> = Vec::new();
    let mut cur: Vec<u8> = Vec::new();
    let mut i: usize = 0;
    while i < n
        invariant
            i <= n <= buf@.len(),
            out@ + scan_tokens(buf@.subrange(i as int, n as int), cur@) == scan_tokens(
                buf@.subrange(0, n as int),
                Seq::empty(),
            ),
        decreases n - i,
    {
        let b = buf[i];
        proof {
            let rem = buf@.subrange(i as int, n as int);
            assert(rem[0] == b);
            assert(rem.drop_first() =~= buf@.subrange(i + 1, n as int));
        }
        if b == TOKEN_SEPARATOR {
            push_token(&mut out, &cur);
            cur.clear();
        } else {
            cur.push(b);
        }
        i = i + 1;
    }
    assert(buf@.subrange(i as int, n as int) =~= Seq::<u8>::empty());
    push_token(&mut out, &cur);
    out
}

/// The lowercase ASCII digit for the value `v`.
pub open spec fn hex_digit_char(v: u8) -> u8
    recommends
        v < 16,
{
    if v < 10 {
        (48 + v) as u8
    } else {
        (87 + v) as u8
    }
}

/// The two lowercase digits that render the byte `b`.
pub open spec fn byte_hex(b: u8) -> Seq<u8> {
    seq![hex_digit_char(b / 16), hex_digit_char(b % 16)]
}

/// The rendering of every byte after the first: each is preceded by
/// one separator.
pub open spec fn rest_hex_dump(s: Seq<u8>) -> Seq<u8>
    decreases s.len(),
{
    if s.len() == 0 {
        Seq::empty()
    } else {
        seq![TOKEN_SEPARATOR] + byte_hex(s[0]) + rest_hex_dump(s.drop_first())
    }
}

/// The hex rendering of a byte sequence: two lowercase digits per
/// byte, bytes separated by single spaces.
pub open spec fn spec_hex_dump(s: Seq<u8>) -> Seq<u8> {
    if s.len() == 0 {
        Seq::empty()
    } else {
        byte_hex(s[0]) + rest_hex_dump(s.drop_first())
    }
}

/// Render `bytes` as a hex line: two lowercase digits per byte, bytes
/// separated by single spaces.
pub fn hex_dump(bytes: &[u8]) -> (r: Vec<u8>)
    ensures
        r@ == spec_hex_dump(bytes@),
{
    let mut out: Vec<u8> = Vec::new();
    let len: usize = bytes.len();
    let mut i: usize = 0;
    while i < len
        invariant
            i <= len == bytes@.len(),
            i == 0 ==> out@ == Seq::<u8>::empty(),
            i > 0 ==> out@ + rest_hex_dump(bytes@.subrange(i as int, len as int))
                == spec_hex_dump(bytes@),
        decreases len - i,
    {
        let b = bytes[i];
        proof {
            if i > 0 {
                let rem = bytes@.subrange(i as int, len as int);
                assert(rem[0] == b);
                assert(rem.drop_first() =~= bytes@.subrange(i + 1, len as int));
            } else {
                assert(bytes@.drop_first() =~= bytes@.subrange(1, len as int));
            }
        }
        if i > 0 {
            out.push(TOKEN_SEPARATOR);
        }
        out.push(hex_char_of(b / 16));
        out.push(hex_char_of(b % 16));
        i = i + 1;
        proof {
            if i == 1 {
                assert(out@ =~= byte_hex(bytes@[0]));
            }
            assert(out@ + rest_hex_dump(bytes@.subrange(i as int, len as int))
                =~= spec_hex_dump(bytes@));
        }
    }
    proof {
        if len == 0 {
            assert(out@ =~= spec_hex_dump(bytes@));
        } else {
            assert(rest_hex_dump(bytes@.subrange(len as int, len as int)) =~= Seq::<u8>::empty());
            assert(out@ =~= spec_hex_dump(bytes@));
        }
    }
    out
}

/// A rendered digit is a hexadecimal digit again, carries the value it
/// was rendered from, and is neither a separator nor a terminator.
proof fn lemma_hex_digit_char_inverts(v: u8)
    requires
        v < 16,
    ensures
        is_hex_digit(hex_digit_char(v)),
        hex_digit_val(hex_digit_char(v)) == v,
        hex_digit_char(v) != TOKEN_SEPARATOR,
        hex_digit_char(v) != LINE_TERMINATOR,
{
}

/// The two digits a byte renders to form a well-formed token whose
/// value is that byte.
proof fn lemma_byte_hex_token(b: u8)
    ensures
        is_hex_token(byte_hex(b)),
        token_value(byte_hex(b)) == b,
        byte_hex(b)[0] != TOKEN_SEPARATOR,
        byte_hex(b)[1] != TOKEN_SEPARATOR,
        byte_hex(b)[0] != LINE_TERMINATOR,
        byte_hex(b)[1] != LINE_TERMINATOR,
{
    assert(b / 16 < 16);
    assert(b % 16 < 16);
    lemma_hex_digit_char_inverts(b / 16);
    lemma_hex_digit_char_inverts(b % 16);
    assert(b / 16 * 16 + b % 16 == b) by {
        vstd::arithmetic::div_mod::lemma_fundamental_div_mod(b as int, 16);
    }
}

/// A nonempty tail rendering never ends with a line terminator.
proof fn lemma_rest_dump_last(s: Seq<u8>)
    requires
        s.len() > 0,
    ensures
        rest_hex_dump(s).len() > 0,
        rest_hex_dump(s).last() != LINE_TERMINATOR,
    decreases s.len(),
{
    lemma_byte_hex_token(s[0]);
    if s.drop_first().len() > 0 {
        lemma_rest_dump_last(s.drop_first());
        assert(rest_hex_dump(s).last() == rest_hex_dump(s.drop_first()).last());
    } else {
        assert(rest_hex_dump(s.drop_first()) =~= Seq::<u8>::empty());
        assert(rest_hex_dump(s) =~= seq![TOKEN_SEPARATOR] + byte_hex(s[0]));
        assert(rest_hex_dump(s).last() == byte_hex(s[0])[1]);
    }
}

/// Scanning a rendered byte sequence yields that sequence back.
proof fn lemma_scan_dump(s: Seq<u8>)
    ensures
        scan_tokens(spec_hex_dump(s), Seq::empty()) == s,
    decreases s.len(),
{
    if s.len() == 0 {
        assert(scan_tokens(spec_hex_dump(s), Seq::empty()) =~= s);
    } else {
        let b = s[0];
        let s1 = s.drop_first();
        let d = spec_hex_dump(s);
        lemma_byte_hex_token(b);
        assert(byte_hex(b)[0] == hex_digit_char(b / 16) && byte_hex(b)[1] == hex_digit_char(
            b % 16,
        ));
        assert(d[0] == hex_digit_char(b / 16));
        assert(d[0] != TOKEN_SEPARATOR);
        let d1 = d.drop_first();
        assert(d1 =~= seq![hex_digit_char(b % 16)] + rest_hex_dump(s1));
        assert(Seq::<u8>::empty().push(d[0]) =~= seq![hex_digit_char(b / 16)]);
        assert(scan_tokens(d, Seq::empty()) == scan_tokens(d1, seq![hex_digit_char(b / 16)]));
        assert(d1[0] == hex_digit_char(b % 16));
        assert(d1[0] != TOKEN_SEPARATOR);
        assert(d1.drop_first() =~= rest_hex_dump(s1));
        assert(seq![hex_digit_char(b / 16)].push(d1[0]) =~= byte_hex(b));
        assert(scan_tokens(d1, seq![hex_digit_char(b / 16)]) == scan_tokens(
            rest_hex_dump(s1),
            byte_hex(b),
        ));
        if s1.len() == 0 {
            assert(rest_hex_dump(s1).len() == 0);
            assert(scan_tokens(rest_hex_dump(s1), byte_hex(b)) == token_bytes(byte_hex(b)));
            assert(token_bytes(byte_hex(b)) =~= s);
        } else {
            let r = rest_hex_dump(s1);
            assert(r[0] == TOKEN_SEPARATOR);
            assert(r.drop_first() =~= spec_hex_dump(s1));
            assert(scan_tokens(r, byte_hex(b)) == token_bytes(byte_hex(b)) + scan_tokens(
                spec_hex_dump(s1),
                Seq::empty(),
            ));
            lemma_scan_dump(s1);
            assert(token_bytes(byte_hex(b)) + s1 =~= s);
        }
    }
}

/// Hex round trip: a hex rendering of any byte sequence decodes back
/// to exactly that sequence.  Rendering never produces a terminator
/// byte, so no terminator is stripped before the scan.
pub proof fn lemma_hex_round_trip(s: Seq<u8>)
    ensures
        spec_parse_hex_line(spec_hex_dump(s)) == s,
{
    let d = spec_hex_dump(s);
    if s.len() == 0 {
        assert(strip_terminator(d) == d);
    } else {
        if s.drop_first().len() == 0 {
            lemma_byte_hex_token(s[0]);
            assert(d.last() == byte_hex(s[0])[1]);
        } else {
            lemma_rest_dump_last(s.drop_first());
            assert(d.last() == rest_hex_dump(s.drop_first()).last());
        }
        assert(strip_terminator(d) == d);
    }
    lemma_scan_dump(s);
}

/// The lowercase ASCII digit for a value below sixteen.
fn hex_char_of(v: u8) -> (r: u8)
    requires
        v < 16,
    ensures
        r == hex_digit_char(v),
{
    if v < 10 {
        48 + v
    } else {
        87 + v
    }
}

} // verus!
