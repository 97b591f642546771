//! JSON string literals: how a text is written between quotes, and how such a
//! literal is read back.
//!
//! Writing escapes exactly what JSON requires to be escaped: the quotation
//! mark, the reverse solidus and the control characters below U+0020, the
//! latter by their short forms where they have one and as `\u00xx` in
//! lower-case digits where they have none. Every other character, whatever
//! its script, stands for itself. Reading is stated for the whole escape
//! grammar of JSON, surrogate pairs included, so that a conforming reader
//! agrees with [`parse_string_literal`] on what this module writes.
//!
//! The format is small enough to state in full: [`escape_char`] is all of it.
//! So the writer is written here and proved to write just that, and
//! [`lemma_parse_string_literal`] shows that nothing is lost on the way.

use vstd::prelude::*;

verus! {

/// `String::push` appends the given character to the end of the string and
/// leaves what was there before in place.
pub assume_specification[ String::push ](s: &mut String, c: char)
    ensures
        final(s)@ == old(s)@.push(c),
;

/// The lower-case hexadecimal digit for a value below sixteen.
pub open spec fn hex_digit(n: int) -> char {
    if n < 10 {
        ('0' as int + n) as char
    } else {
        ('a' as int + n - 10) as char
    }
}

/// What stands in a string literal for one character of the text.
pub open spec fn escape_char(c: char) -> Seq<char> {
    if c == '"' {
        seq!['\\', '"']
    } else if c == '\\' {
        seq!['\\', '\\']
    } else if c == '\u{8}' {
        seq!['\\', 'b']
    } else if c == '\u{c}' {
        seq!['\\', 'f']
    } else if c == '\n' {
        seq!['\\', 'n']
    } else if c == '\r' {
        seq!['\\', 'r']
    } else if c == '\t' {
        seq!['\\', 't']
    } else if (c as int) < 0x20 {
        seq!['\\', 'u', '0', '0', hex_digit(c as int / 16), hex_digit(c as int % 16)]
    } else {
        seq![c]
    }
}

/// What stands between the quotes of a string literal for the text `s`.
pub open spec fn escape(s: Seq<char>) -> Seq<char>
    decreases s.len(),
{
    if s.len() == 0 {
        Seq::empty()
    } else {
        escape_char(s[0]) + escape(s.drop_first())
    }
}

/// The JSON string literal for the text `s`.
pub open spec fn string_literal(s: Seq<char>) -> Seq<char> {
    seq!['"'] + escape(s) + seq!['"']
}

/// The value of a hexadecimal digit of either case.
pub open spec fn hex_value(c: char) -> Option<int> {
    if '0' <= c <= '9' {
        Some(c as int - '0' as int)
    } else if 'a' <= c <= 'f' {
        Some(c as int - 'a' as int + 10)
    } else if 'A' <= c <= 'F' {
        Some(c as int - 'A' as int + 10)
    } else {
        None
    }
}

/// The number that four hexadecimal digits write, most significant first.
pub open spec fn hex4(a: char, b: char, c: char, d: char) -> Option<int> {
    match (hex_value(a), hex_value(b), hex_value(c), hex_value(d)) {
        (Some(x), Some(y), Some(z), Some(w)) => Some(((x * 16 + y) * 16 + z) * 16 + w),
        _ => None,
    }
}

/// The character that a two-character escape stands for, by its second
/// character.
pub open spec fn short_escape(c: char) -> Option<char> {
    if c == '"' || c == '\\' || c == '/' {
        Some(c)
    } else if c == 'b' {
        Some('\u{8}')
    } else if c == 'f' {
        Some('\u{c}')
    } else if c == 'n' {
        Some('\n')
    } else if c == 'r' {
        Some('\r')
    } else if c == 't' {
        Some('\t')
    } else {
        None
    }
}

/// `c` in front of a text that was read, where one was.
pub open spec fn prepend(c: char, rest: Option<Seq<char>>) -> Option<Seq<char>> {
    match rest {
        Some(r) => Some(seq![c] + r),
        None => None,
    }
}

/// The number at `t[at]..t[at + 6]`, where a `\u` escape with four
/// hexadecimal digits stands there.
pub open spec fn unicode_escape(t: Seq<char>, at: int) -> Option<int> {
    if 0 <= at && at + 6 <= t.len() && t[at] == '\\' && t[at + 1] == 'u' {
        hex4(t[at + 2], t[at + 3], t[at + 4], t[at + 5])
    } else {
        None
    }
}

/// The text that the inside of a string literal stands for: `None` where a
/// character stands bare that JSON wants escaped, where an escape is cut short
/// or unknown, or where a surrogate stands without its partner.
pub open spec fn unescape(t: Seq<char>) -> Option<Seq<char>>
    decreases t.len(),
{
    if t.len() == 0 {
        Some(Seq::empty())
    } else if t[0] != '\\' {
        if t[0] == '"' || (t[0] as int) < 0x20 {
            None
        } else {
            prepend(t[0], unescape(t.skip(1)))
        }
    } else if t.len() >= 2 && t[1] != 'u' {
        match short_escape(t[1]) {
            Some(c) => prepend(c, unescape(t.skip(2))),
            None => None,
        }
    } else {
        match unicode_escape(t, 0) {
            Some(v) if v < 0xD800 || 0xE000 <= v => prepend(v as char, unescape(t.skip(6))),
            Some(hi) if hi < 0xDC00 => match unicode_escape(t, 6) {
                Some(lo) if 0xDC00 <= lo < 0xE000 => prepend(
                    (0x10000 + (hi - 0xD800) * 0x400 + (lo - 0xDC00)) as char,
                    unescape(t.skip(12)),
                ),
                _ => None,
            },
            _ => None,
        }
    }
}

/// The text that a JSON string literal stands for, where `t` is one.
pub open spec fn parse_string_literal(t: Seq<char>) -> Option<Seq<char>> {
    if t.len() >= 2 && t[0] == '"' && t.last() == '"' {
        unescape(t.subrange(1, t.len() - 1))
    } else {
        None
    }
}

/// Escaping goes through a text piece by piece.
pub proof fn lemma_escape_concat(a: Seq<char>, b: Seq<char>)
    ensures
        escape(a + b) == escape(a) + escape(b),
    decreases a.len(),
{
    if a.len() == 0 {
        assert(a + b == b);
    } else {
        lemma_escape_concat(a.drop_first(), b);
        assert((a + b).drop_first() == a.drop_first() + b);
    }
}

/// Escaping a text with one more character appends the character's escape.
pub proof fn lemma_escape_push(s: Seq<char>, c: char)
    ensures
        escape(s.push(c)) == escape(s) + escape_char(c),
{
    lemma_escape_concat(s, seq![c]);
    assert(escape(seq![c]) == escape_char(c)) by {
        assert(seq![c].drop_first() == Seq::<char>::empty());
        assert(escape(Seq::<char>::empty()) == Seq::<char>::empty());
        assert(escape_char(c) + Seq::<char>::empty() == escape_char(c));
    }
    assert(s.push(c) == s + seq![c]);
}

/// Each hexadecimal digit that is written reads as the value it was written
/// for.
pub proof fn lemma_hex_digit_value(n: int)
    requires
        0 <= n < 16,
    ensures
        hex_value(hex_digit(n)) == Some(n),
{
}

/// Reading what stands for one character gives that character back, whatever
/// follows it.
pub proof fn lemma_unescape_char(c: char, rest: Seq<char>)
    ensures
        unescape(escape_char(c) + rest) == prepend(c, unescape(rest)),
{
    let e = escape_char(c);
    let t = e + rest;
    if c == '"' || c == '\\' || c == '\u{8}' || c == '\u{c}' || c == '\n' || c == '\r' || c
        == '\t' {
        assert(t[0] == '\\' && t[1] == e[1]);
        assert(short_escape(e[1]) == Some(c));
        assert(t.skip(2) == rest);
    } else if (c as int) < 0x20 {
        let hi = c as int / 16;
        let lo = c as int % 16;
        assert(t[0] == '\\' && t[1] == 'u' && t[2] == '0' && t[3] == '0');
        assert(t[4] == hex_digit(hi) && t[5] == hex_digit(lo));
        lemma_hex_digit_value(hi);
        lemma_hex_digit_value(lo);
        assert(unicode_escape(t, 0) == Some(c as int));
        assert((c as int) as char == c);
        assert(t.skip(6) == rest);
    } else {
        assert(t[0] == c);
        assert(t.skip(1) == rest);
    }
}

/// Reading the escaped form of a text gives the text back.
pub proof fn lemma_unescape_escape(s: Seq<char>)
    ensures
        unescape(escape(s)) == Some(s),
    decreases s.len(),
{
    if s.len() > 0 {
        lemma_unescape_escape(s.drop_first());
        lemma_unescape_char(s[0], escape(s.drop_first()));
        assert(seq![s[0]] + s.drop_first() == s);
    }
}

/// Every text can be read back from its string literal, whatever characters
/// it holds.
pub proof fn lemma_parse_string_literal(s: Seq<char>)
    ensures
        parse_string_literal(string_literal(s)) == Some(s),
{
    let t = string_literal(s);
    lemma_unescape_escape(s);
    assert(t.subrange(1, t.len() - 1) == escape(s));
}

fn hex_char(n: u32) -> (c: char)
    requires
        n < 16,
    ensures
        c == hex_digit(n as int),
{
    let digit: u8 = n as u8;
    if digit < 10 {
        ('0' as u8 + digit) as char
    } else {
        ('a' as u8 + (digit - 10)) as char
    }
}

/// Appends to `out` what stands in a string literal for `c`.
fn push_escaped_char(out: &mut String, c: char)
    ensures
        final(out)@ == old(out)@ + escape_char(c),
{
    let n: u32 = c as u32;
    if c == '"' || c == '\\' {
        out.push('\\');
        out.push(c);
    } else if n >= 0x20 {
        out.push(c);
    } else {
        out.push('\\');
        if c == '\u{8}' {
            out.push('b');
        } else if c == '\u{c}' {
            out.push('f');
        } else if c == '\n' {
            out.push('n');
        } else if c == '\r' {
            out.push('r');
        } else if c == '\t' {
            out.push('t');
        } else {
            out.push('u');
            out.push('0');
            out.push('0');
            out.push(hex_char(n / 16));
            out.push(hex_char(n % 16));
        }
    }
}

/// Appends to `out` the JSON string literal for `s`.
pub fn push_string_literal(out: &mut String, s: &str)
    ensures
        final(out)@ == old(out)@ + string_literal(s@),
{
    broadcast use vstd::string::group_string_axioms;

    out.push('"');
    let chars = s.chars();
    for c in it: chars
        invariant
            it.seq() == s@,
            out@ == old(out)@ + seq!['"'] + escape(s@.take(it.index())),
    {
        proof {
            lemma_escape_push(s@.take(it.index()), c);
            assert(s@.take(it.index() + 1) == s@.take(it.index()).push(c));
        }
        push_escaped_char(out, c);
    }
    assert(s@.take(s@.len() as int) == s@);
    out.push('"');
}

} // verus!
