//! The persisted cursor format.
//!
//! Each feed's resume position is one JSON-encoded string in a file of its
//! own: a double-quoted token in which `"`, `\` and control characters are
//! escaped. [`encode_cursor`] produces exactly that form; [`decode_cursor`]
//! accepts exactly the well-formed files and reports anything else as
//! malformed. A missing file is not this module's concern: the caller starts
//! from [`default_cursor`] instead.

use vstd::prelude::*;
use vstd::string::*;

use crate::text::push_char;

verus! {

/// Error for a cursor file whose content is not a well-formed encoded token.
#[derive(Clone, Copy, Debug, PartialEq, Eq, Structural)]
pub enum CursorError {
    Malformed,
}

/// The lower-case hex digit for a nibble.
pub open spec fn hex_digit(n: int) -> char {
    if n == 0 {
        '0'
    } else if n == 1 {
        '1'
    } else if n == 2 {
        '2'
    } else if n == 3 {
        '3'
    } else if n == 4 {
        '4'
    } else if n == 5 {
        '5'
    } else if n == 6 {
        '6'
    } else if n == 7 {
        '7'
    } else if n == 8 {
        '8'
    } else if n == 9 {
        '9'
    } else if n == 10 {
        'a'
    } else if n == 11 {
        'b'
    } else if n == 12 {
        'c'
    } else if n == 13 {
        'd'
    } else if n == 14 {
        'e'
    } else {
        'f'
    }
}

/// How one character appears inside the quoted token: itself, a two-character
/// short escape, or a six-character `\u00XX` escape for the control
/// characters that have no short form.
pub open spec fn escape_char(c: char) -> Seq<char> {
    if c == '"' {
        seq!['\\', '"']
    } else if c == '\\' {
        seq!['\\', '\\']
    } else if c == '\u{8}' {
        seq!['\\', 'b']
    } else if c == '\t' {
        seq!['\\', 't']
    } else if c == '\n' {
        seq!['\\', 'n']
    } else if c == '\u{c}' {
        seq!['\\', 'f']
    } else if c == '\r' {
        seq!['\\', 'r']
    } else if (c as u32) < 0x20 {
        seq!['\\', 'u', '0', '0', hex_digit((c as u32) as int / 16), hex_digit((c as u32) as int % 16)]
    } else {
        seq![c]
    }
}

/// The token's characters, each escaped.
pub open spec fn escaped(s: Seq<char>) -> Seq<char>
    decreases s.len(),
{
    if s.len() == 0 {
        Seq::empty()
    } else {
        escape_char(s[0]) + escaped(s.drop_first())
    }
}

/// The full file content for a cursor token: the escaped token in quotes.
pub open spec fn encoded(s: Seq<char>) -> Seq<char> {
    seq!['"'] + escaped(s) + seq!['"']
}

/// The character a short escape `\x` stands for, if `x` is a short escape.
pub open spec fn simple_escape(c: char) -> Option<char> {
    if c == '"' {
        Some('"')
    } else if c == '\\' {
        Some('\\')
    } else if c == '/' {
        Some('/')
    } else if c == 'b' {
        Some('\u{8}')
    } else if c == 'f' {
        Some('\u{c}')
    } else if c == 'n' {
        Some('\n')
    } else if c == 'r' {
        Some('\r')
    } else if c == 't' {
        Some('\t')
    } else {
        None
    }
}

/// Whether `c` is a hex digit, upper or lower case.
pub open spec fn is_hex(c: char) -> bool {
    ('0' <= c && c <= '9') || ('a' <= c && c <= 'f') || ('A' <= c && c <= 'F')
}

/// The value of a hex digit.
pub open spec fn hex_val(c: char) -> int {
    if '0' <= c && c <= '9' {
        c as int - '0' as int
    } else if 'a' <= c && c <= 'f' {
        c as int - 'a' as int + 10
    } else {
        c as int - 'A' as int + 10
    }
}

/// What the characters between the quotes decode to, or `None` where they are
/// not a well-formed escaped token. A `\u` escape is accepted only for the
/// control range, the only range the encoder writes it for; a raw quote or a
/// raw control character is malformed.
pub open spec fn unescaped(s: Seq<char>) -> Option<Seq<char>>
    decreases s.len(),
{
    if s.len() == 0 {
        Some(Seq::empty())
    } else if s[0] == '\\' {
        if s.len() < 2 {
            None
        } else if simple_escape(s[1]) is Some {
            match unescaped(s.skip(2)) {
                Some(t) => Some(seq![simple_escape(s[1])->0] + t),
                None => None,
            }
        } else if s[1] == 'u' {
            if s.len() >= 6 && is_hex(s[2]) && is_hex(s[3]) && is_hex(s[4]) && is_hex(s[5]) {
                let v = hex_val(s[2]) * 4096 + hex_val(s[3]) * 256 + hex_val(s[4]) * 16 + hex_val(s[5]);
                if v < 0x20 {
                    match unescaped(s.skip(6)) {
                        Some(t) => Some(seq![(v as u8) as char] + t),
                        None => None,
                    }
                } else {
                    None
                }
            } else {
                None
            }
        } else {
            None
        }
    } else if s[0] == '"' {
        None
    } else if (s[0] as u32) < 0x20 {
        None
    } else {
        match unescaped(s.skip(1)) {
            Some(t) => Some(seq![s[0]] + t),
            None => None,
        }
    }
}

/// The cursor token a whole file decodes to: quotes around a well-formed
/// escaped token, or `None` for anything else.
pub open spec fn parse_cursor(file: Seq<char>) -> Option<Seq<char>> {
    if file.len() >= 2 && file[0] == '"' && file[file.len() - 1] == '"' {
        unescaped(file.subrange(1, file.len() - 1))
    } else {
        None
    }
}

/// The cursor a feed starts from when nothing was persisted yet.
pub fn default_cursor() -> (r: String)
    ensures
        r@ == seq!['1'],
{
    proof {
        reveal_strlit("1");
    }
    String::from_str("1")
}

/// The lower-case hex digit character for a nibble.
fn hex_digit_char(n: u32) -> (c: char)
    requires
        n < 16,
    ensures
        c == hex_digit(n as int),
{
    if n == 0 {
        '0'
    } else if n == 1 {
        '1'
    } else if n == 2 {
        '2'
    } else if n == 3 {
        '3'
    } else if n == 4 {
        '4'
    } else if n == 5 {
        '5'
    } else if n == 6 {
        '6'
    } else if n == 7 {
        '7'
    } else if n == 8 {
        '8'
    } else if n == 9 {
        '9'
    } else if n == 10 {
        'a'
    } else if n == 11 {
        'b'
    } else if n == 12 {
        'c'
    } else if n == 13 {
        'd'
    } else if n == 14 {
        'e'
    } else {
        'f'
    }
}

proof fn lemma_escaped_snoc(s: Seq<char>, c: char)
    ensures
        escaped(s.push(c)) == escaped(s) + escape_char(c),
    decreases s.len(),
{
    if s.len() == 0 {
        assert(s.push(c).drop_first() =~= Seq::<char>::empty());
        assert(s.push(c)[0] == c);
        assert(escaped(s.push(c)) == escape_char(c) + escaped(Seq::<char>::empty()));
        assert(escaped(s.push(c)) =~= escaped(s) + escape_char(c));
    } else {
        assert(s.push(c).drop_first() =~= s.drop_first().push(c));
        assert(s.push(c)[0] == s[0]);
        lemma_escaped_snoc(s.drop_first(), c);
        assert(escaped(s.push(c)) == escape_char(s[0]) + (escaped(s.drop_first()) + escape_char(c)));
        assert(escaped(s.push(c)) =~= escaped(s) + escape_char(c));
    }
}

/// Encodes a cursor token as the exact file content [`encoded`] describes.
pub fn encode_cursor(cursor: &str) -> (r: String)
    ensures
        r@ == encoded(cursor@),
{
    let mut out = String::new();
    push_char(&mut out, '"');
    let n = cursor.unicode_len();
    let mut i: usize = 0;
    while i < n
        invariant
            n == cursor@.len(),
            i <= n,
            out@ == seq!['"'] + escaped(cursor@.take(i as int)),
        decreases n - i,
    {
        let c = cursor.get_char(i);
        let u = c as u32;
        if c == '"' {
            push_char(&mut out, '\\');
            push_char(&mut out, '"');
        } else if c == '\\' {
            push_char(&mut out, '\\');
            push_char(&mut out, '\\');
        } else if u == 0x8 {
            push_char(&mut out, '\\');
            push_char(&mut out, 'b');
        } else if u == 0x9 {
            push_char(&mut out, '\\');
            push_char(&mut out, 't');
        } else if u == 0xa {
            push_char(&mut out, '\\');
            push_char(&mut out, 'n');
        } else if u == 0xc {
            push_char(&mut out, '\\');
            push_char(&mut out, 'f');
        } else if u == 0xd {
            push_char(&mut out, '\\');
            push_char(&mut out, 'r');
        } else if u < 0x20 {
            push_char(&mut out, '\\');
            push_char(&mut out, 'u');
            push_char(&mut out, '0');
            push_char(&mut out, '0');
            push_char(&mut out, hex_digit_char(u / 16));
            push_char(&mut out, hex_digit_char(u % 16));
        } else {
            push_char(&mut out, c);
        }
        proof {
            assert(out@ =~= seq!['"'] + escaped(cursor@.take(i as int)) + escape_char(c));
            assert(cursor@.take(i as int + 1) =~= cursor@.take(i as int).push(c));
            lemma_escaped_snoc(cursor@.take(i as int), c);
            assert(out@ =~= seq!['"'] + escaped(cursor@.take(i as int + 1)));
        }
        i += 1;
    }
    push_char(&mut out, '"');
    proof {
        assert(cursor@.take(n as int) =~= cursor@);
        assert(out@ =~= encoded(cursor@));
    }
    out
}

/// The hex value of a digit character, where it is one.
fn hex_val_char(c: char) -> (r: Option<u32>)
    ensures
        r is Some <==> is_hex(c),
        r is Some ==> r->0 == hex_val(c) && r->0 < 16,
{
    let u = c as u32;
    if 0x30 <= u && u <= 0x39 {
        Some(u - 0x30)
    } else if 0x61 <= u && u <= 0x66 {
        Some(u - 0x61 + 10)
    } else if 0x41 <= u && u <= 0x46 {
        Some(u - 0x41 + 10)
    } else {
        None
    }
}

/// Decodes a cursor file's content, reporting malformed content as the error
/// the caller treats as cycle-fatal.
pub fn decode_cursor(file: &str) -> (r: Result<String, CursorError>)
    ensures
        r matches Ok(c) ==> parse_cursor(file@) == Some(c@),
        r is Err ==> parse_cursor(file@) is None,
{
    let n = file.unicode_len();
    if n < 2 {
        return Err(CursorError::Malformed);
    }
    if file.get_char(0) != '"' {
        return Err(CursorError::Malformed);
    }
    if file.get_char(n - 1) != '"' {
        return Err(CursorError::Malformed);
    }
    let ghost mid: Seq<char> = file@.subrange(1, n as int - 1);
    assert(parse_cursor(file@) == unescaped(mid));
    let mut out = String::new();
    let mut i: usize = 1;
    proof {
        assert(mid.skip(0) =~= mid);
        if unescaped(mid) is Some {
            let t = unescaped(mid)->0;
            assert(Seq::<char>::empty() + t =~= t);
        }
    }
    while i < n - 1
        invariant
            2 <= n <= usize::MAX,
            n == file@.len(),
            1 <= i <= n - 1,
            mid == file@.subrange(1, n as int - 1),
            parse_cursor(file@) == unescaped(mid),
            unescaped(mid) == match unescaped(mid.skip(i as int - 1)) {
                Some(t) => Some(out@ + t),
                None => None::<Seq<char>>,
            },
        decreases n - i,
    {
        let ghost s = mid.skip(i as int - 1);
        proof {
            assert forall|k: int| 0 <= k < s.len() implies s[k] == file@[i + k] by {
                assert(s[k] == mid[i - 1 + k]);
            }
            assert(s.len() == n - 1 - i);
        }
        let c = file.get_char(i);
        assert(s[0] == c);
        if c == '\\' {
            if i + 1 >= n - 1 {
                assert(s.len() < 2);
                assert(unescaped(s) is None);
                return Err(CursorError::Malformed);
            }
            let e = file.get_char(i + 1);
            assert(s[1] == e);
            let d: Option<char> = if e == '"' {
                Some('"')
            } else if e == '\\' {
                Some('\\')
            } else if e == '/' {
                Some('/')
            } else if e == 'b' {
                Some('\u{8}')
            } else if e == 'f' {
                Some('\u{c}')
            } else if e == 'n' {
                Some('\n')
            } else if e == 'r' {
                Some('\r')
            } else if e == 't' {
                Some('\t')
            } else {
                None
            };
            assert(d == simple_escape(e));
            match d {
                Some(dc) => {
                    let ghost out0 = out@;
                    push_char(&mut out, dc);
                    proof {
                        assert(s.skip(2) =~= mid.skip(i as int + 1));
                        if unescaped(s) is Some {
                            let t = unescaped(mid.skip(i as int + 1))->0;
                            assert(out0 + (seq![dc] + t) =~= (out0 + seq![dc]) + t);
                        }
                    }
                    i += 2;
                },
                None => {
                    if e == 'u' {
                        if n - 1 - i < 6 {
                            assert(s.len() < 6);
                            assert(unescaped(s) is None);
                            return Err(CursorError::Malformed);
                        }
                        let h2 = hex_val_char(file.get_char(i + 2));
                        let h3 = hex_val_char(file.get_char(i + 3));
                        let h4 = hex_val_char(file.get_char(i + 4));
                        let h5 = hex_val_char(file.get_char(i + 5));
                        proof {
                            assert(s[2] == file@[i + 2]);
                            assert(s[3] == file@[i + 3]);
                            assert(s[4] == file@[i + 4]);
                            assert(s[5] == file@[i + 5]);
                        }
                        match (h2, h3, h4, h5) {
                            (Some(a), Some(b), Some(cc), Some(dd)) => {
                                let v: u32 = a * 4096 + b * 256 + cc * 16 + dd;
                                if v >= 0x20 {
                                    assert(unescaped(s) is None);
                                    return Err(CursorError::Malformed);
                                }
                                let dc = (v as u8) as char;
                                let ghost out0 = out@;
                                push_char(&mut out, dc);
                                proof {
                                    assert(s.skip(6) =~= mid.skip(i as int + 5));
                                    if unescaped(s) is Some {
                                        let t = unescaped(mid.skip(i as int + 5))->0;
                                        assert(out0 + (seq![dc] + t) =~= (out0 + seq![dc]) + t);
                                    }
                                }
                                i += 6;
                            },
                            _ => {
                                assert(unescaped(s) is None);
                                return Err(CursorError::Malformed);
                            },
                        }
                    } else {
                        assert(unescaped(s) is None);
                        return Err(CursorError::Malformed);
                    }
                },
            }
        } else if c == '"' {
            assert(unescaped(s) is None);
            return Err(CursorError::Malformed);
        } else if (c as u32) < 0x20 {
            assert(unescaped(s) is None);
            return Err(CursorError::Malformed);
        } else {
            let ghost out0 = out@;
            push_char(&mut out, c);
            proof {
                assert(s.skip(1) =~= mid.skip(i as int));
                if unescaped(s) is Some {
                    let t = unescaped(mid.skip(i as int))->0;
                    assert(out0 + (seq![c] + t) =~= (out0 + seq![c]) + t);
                }
            }
            i += 1;
        }
    }
    proof {
        assert(mid.skip(n as int - 2) =~= Seq::<char>::empty());
        assert(unescaped(mid) == Some(out@ + Seq::<char>::empty()));
        assert(out@ + Seq::<char>::empty() =~= out@);
    }
    Ok(out)
}

proof fn lemma_unescaped_escaped(s: Seq<char>)
    ensures
        unescaped(escaped(s)) == Some(s),
    decreases s.len(),
{
    if s.len() == 0 {
        assert(escaped(s) =~= Seq::<char>::empty());
    } else {
        let c = s[0];
        let rest = s.drop_first();
        lemma_unescaped_escaped(rest);
        let e = escape_char(c);
        let w = escaped(s);
        assert(w == e + escaped(rest));
        if e.len() == 1 {
            assert(w[0] == c);
            assert(w.skip(1) =~= escaped(rest));
            assert(seq![c] + rest =~= s);
        } else if c == '"' || c == '\\' || c == '\u{8}' || c == '\t' || c == '\n' || c == '\u{c}'
            || c == '\r' {
            assert(w[0] == '\\');
            assert(w[1] == e[1]);
            assert(simple_escape(e[1]) == Some(c));
            assert(w.skip(2) =~= escaped(rest));
            assert(seq![c] + rest =~= s);
        } else {
            assert((c as u32) < 0x20);
            assert(w[0] == '\\');
            assert(w[1] == 'u');
            assert(w[2] == '0');
            assert(w[3] == '0');
            assert(w[4] == hex_digit((c as u32) as int / 16));
            assert(w[5] == hex_digit((c as u32) as int % 16));
            assert(simple_escape('u') is None);
            assert(is_hex(w[2]) && hex_val(w[2]) == 0);
            assert(is_hex(w[4]) && hex_val(w[4]) == (c as u32) as int / 16);
            assert(is_hex(w[5]) && hex_val(w[5]) == (c as u32) as int % 16);
            let v = hex_val(w[2]) * 4096 + hex_val(w[3]) * 256 + hex_val(w[4]) * 16 + hex_val(w[5]);
            assert(v == c as u32) by {
                assert(hex_val(w[3]) == 0);
            }
            assert((v as u8) as char == c) by {
                vstd::utf8::char_u32_cast(c, c as u32);
                assert((v as u8) as u32 == v);
            }
            assert(w.skip(6) =~= escaped(rest));
            assert(seq![c] + rest =~= s);
        }
    }
}

/// Law: a persisted cursor reads back as itself. Whatever token a successful
/// cycle saves through [`encode_cursor`], the next start decodes through
/// [`decode_cursor`] to the same token.
pub proof fn lemma_cursor_round_trip(s: Seq<char>)
    ensures
        parse_cursor(encoded(s)) == Some(s),
{
    let f = encoded(s);
    assert(f.len() >= 2);
    assert(f[0] == '"');
    assert(f[f.len() - 1] == '"');
    assert(f.subrange(1, f.len() - 1) =~= escaped(s));
    lemma_unescaped_escaped(s);
}

} // verus!
