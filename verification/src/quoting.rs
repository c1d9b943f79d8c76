//! Writing a text as a string literal of the scripting language.
//!
//! A literal is the text between two apostrophes. A character is copied as it
//! is when it is printable ASCII and neither an apostrophe nor a backslash;
//! every other character is written as `\U` and the eight hexadecimal digits
//! of its code point. A literal is therefore plain ASCII, holds no line break
//! and no zero byte, and ends exactly at its closing apostrophe; read back, it
//! gives the text it was written for.

use vstd::prelude::*;

verus! {

/// Whether `c` stands for itself inside a literal.
pub open spec fn is_plain(c: char) -> bool {
    ' ' <= c <= '~' && c != '\'' && c != '\\'
}

/// The lower-case hexadecimal digit for `d`, where `0 <= d < 16`.
pub open spec fn hex_digit(d: int) -> char {
    seq!['0', '1', '2', '3', '4', '5', '6', '7', '8', '9', 'a', 'b', 'c', 'd', 'e', 'f'][d]
}

/// The eight hexadecimal digits of `v`, most significant first, where
/// `0 <= v < 0x1_0000_0000`.
pub open spec fn hex8(v: int) -> Seq<char> {
    seq![
        hex_digit(v / 0x1000_0000 % 16),
        hex_digit(v / 0x100_0000 % 16),
        hex_digit(v / 0x10_0000 % 16),
        hex_digit(v / 0x1_0000 % 16),
        hex_digit(v / 0x1000 % 16),
        hex_digit(v / 0x100 % 16),
        hex_digit(v / 0x10 % 16),
        hex_digit(v % 16),
    ]
}

/// What one character of the text becomes inside a literal.
pub open spec fn escape_char(c: char) -> Seq<char> {
    if is_plain(c) {
        seq![c]
    } else {
        seq!['\\', 'U'] + hex8(c as u32 as int)
    }
}

/// What a text becomes inside a literal: its characters' escapes, in order.
pub open spec fn escaped(text: Seq<char>) -> Seq<char>
    decreases text.len(),
{
    if text.len() == 0 {
        Seq::empty()
    } else {
        escaped(text.drop_last()) + escape_char(text.last())
    }
}

/// The literal that denotes `text`.
pub open spec fn quoted(text: Seq<char>) -> Seq<char> {
    seq!['\''] + escaped(text) + seq!['\'']
}

/// Whether every character of `text` is ASCII and none is the zero character.
pub open spec fn ascii_nonzero(text: Seq<char>) -> bool {
    forall|i: int| 0 <= i < text.len() ==> '\0' < #[trigger] text[i] <= '\u{7f}'
}

/// The escape of any character is plain ASCII without a zero character.
pub proof fn lemma_escape_char_ascii(c: char)
    ensures
        ascii_nonzero(escape_char(c)),
{
}

/// What a text becomes inside a literal is plain ASCII without a zero
/// character.
pub proof fn lemma_escaped_ascii(text: Seq<char>)
    ensures
        ascii_nonzero(escaped(text)),
    decreases text.len(),
{
    if text.len() > 0 {
        lemma_escaped_ascii(text.drop_last());
        lemma_escape_char_ascii(text.last());
    }
}

/// A literal is plain ASCII without a zero character, whatever text it
/// denotes.
pub proof fn lemma_quoted_ascii(text: Seq<char>)
    ensures
        ascii_nonzero(quoted(text)),
{
    lemma_escaped_ascii(text);
}

/// The number that the hexadecimal digit `c` writes, if `c` is one.
pub open spec fn hex_value(c: char) -> Option<int> {
    match c {
        '0' => Some(0),
        '1' => Some(1),
        '2' => Some(2),
        '3' => Some(3),
        '4' => Some(4),
        '5' => Some(5),
        '6' => Some(6),
        '7' => Some(7),
        '8' => Some(8),
        '9' => Some(9),
        'a' => Some(10),
        'b' => Some(11),
        'c' => Some(12),
        'd' => Some(13),
        'e' => Some(14),
        'f' => Some(15),
        _ => None,
    }
}

/// The number that eight hexadecimal digits write, most significant first,
/// if `digits` are eight such digits.
pub open spec fn hex8_value(digits: Seq<char>) -> Option<int> {
    if digits.len() == 8 && forall|k: int| 0 <= k < 8 ==> hex_value(#[trigger] digits[k]) is Some {
        Some(
            hex_value(digits[0])->0 * 0x1000_0000 + hex_value(digits[1])->0 * 0x100_0000
                + hex_value(digits[2])->0 * 0x10_0000 + hex_value(digits[3])->0 * 0x1_0000
                + hex_value(digits[4])->0 * 0x1000 + hex_value(digits[5])->0 * 0x100 + hex_value(
                digits[6],
            )->0 * 0x10 + hex_value(digits[7])->0,
        )
    } else {
        None
    }
}

/// Whether `v` is the code point of a character.
pub open spec fn is_code_point(v: int) -> bool {
    0 <= v < 0xd800 || 0xe000 <= v <= 0x10_ffff
}

/// Reads one character off the front of what stands inside a literal: the
/// character, and how much of `body` wrote it. `None` where `body` does not
/// begin with a character that stands for itself or with an escape.
pub open spec fn read_char(body: Seq<char>) -> Option<(char, int)> {
    if body.len() >= 1 && is_plain(body[0]) {
        Some((body[0], 1))
    } else if body.len() >= 10 && body[0] == '\\' && body[1] == 'U' {
        match hex8_value(body.subrange(2, 10)) {
            Some(v) => if is_code_point(v) {
                Some((v as u32 as char, 10))
            } else {
                None
            },
            None => None,
        }
    } else {
        None
    }
}

/// The text that stands inside a literal as `body`, if `body` is made of
/// characters that stand for themselves and of escapes.
pub open spec fn unescaped(body: Seq<char>) -> Option<Seq<char>>
    decreases body.len(),
{
    if body.len() == 0 {
        Some(Seq::empty())
    } else {
        match read_char(body) {
            Some((c, used)) => match unescaped(body.skip(used)) {
                Some(rest) => Some(seq![c] + rest),
                None => None,
            },
            None => None,
        }
    }
}

/// The text that `literal` denotes, if it is a literal: what stands between
/// its two apostrophes, read back.
pub open spec fn denoted(literal: Seq<char>) -> Option<Seq<char>> {
    if literal.len() >= 2 && literal.first() == '\'' && literal.last() == '\'' {
        unescaped(literal.subrange(1, literal.len() - 1))
    } else {
        None
    }
}

/// Every hexadecimal digit writes its own number.
pub proof fn lemma_hex_value(d: int)
    requires
        0 <= d < 16,
    ensures
        hex_value(hex_digit(d)) == Some(d),
{
}

/// A number below sixteen to the eighth is the sum of its eight
/// hexadecimal digits, each times its place value.
pub proof fn lemma_hex_places(v: int)
    requires
        0 <= v < 0x1_0000_0000,
    ensures
        v == (v / 0x1000_0000 % 16) * 0x1000_0000 + (v / 0x100_0000 % 16) * 0x100_0000 + (v
            / 0x10_0000 % 16) * 0x10_0000 + (v / 0x1_0000 % 16) * 0x1_0000 + (v / 0x1000 % 16)
            * 0x1000 + (v / 0x100 % 16) * 0x100 + (v / 0x10 % 16) * 0x10 + v % 16,
{
    let q1 = v / 0x10;
    let q2 = v / 0x100;
    let q3 = v / 0x1000;
    let q4 = v / 0x1_0000;
    let q5 = v / 0x10_0000;
    let q6 = v / 0x100_0000;
    let q7 = v / 0x1000_0000;
    assert(v == q1 * 0x10 + v % 16);
    assert(q1 == q2 * 0x10 + q1 % 16);
    assert(q2 == q3 * 0x10 + q2 % 16);
    assert(q3 == q4 * 0x10 + q3 % 16);
    assert(q4 == q5 * 0x10 + q4 % 16);
    assert(q5 == q6 * 0x10 + q5 % 16);
    assert(q6 == q7 * 0x10 + q6 % 16);
    assert(q7 == q7 % 16);
}

/// The eight digits of a number write that number.
pub proof fn lemma_hex8_value(v: int)
    requires
        0 <= v < 0x1_0000_0000,
    ensures
        hex8_value(hex8(v)) == Some(v),
{
    lemma_hex_places(v);
    lemma_hex_value(v / 0x1000_0000 % 16);
    lemma_hex_value(v / 0x100_0000 % 16);
    lemma_hex_value(v / 0x10_0000 % 16);
    lemma_hex_value(v / 0x1_0000 % 16);
    lemma_hex_value(v / 0x1000 % 16);
    lemma_hex_value(v / 0x100 % 16);
    lemma_hex_value(v / 0x10 % 16);
    lemma_hex_value(v % 16);
}

/// What a character becomes inside a literal is read back as that character,
/// whatever follows it.
pub proof fn lemma_read_escape(c: char, rest: Seq<char>)
    ensures
        read_char(escape_char(c) + rest) == Some((c, escape_char(c).len() as int)),
        escape_char(c).len() >= 1,
{
    if !is_plain(c) {
        let v = c as u32 as int;
        lemma_hex8_value(v);
        assert(v as u32 as char == c);
    }
}

/// What a text becomes inside a literal begins with what its first character
/// becomes.
pub proof fn lemma_escaped_from_the_front(c: char, text: Seq<char>)
    ensures
        escaped(seq![c] + text) == escape_char(c) + escaped(text),
    decreases text.len(),
{
    let whole = seq![c] + text;
    if text.len() == 0 {
        assert(escaped(whole.drop_last()) =~= Seq::<char>::empty());
    } else {
        lemma_escaped_from_the_front(c, text.drop_last());
        assert(whole.drop_last() =~= seq![c] + text.drop_last());
    }
}

/// What a text becomes inside a literal is read back as that text.
pub proof fn lemma_unescaped_escaped(text: Seq<char>)
    ensures
        unescaped(escaped(text)) == Some(text),
    decreases text.len(),
{
    if text.len() > 0 {
        let c = text.first();
        let tail = text.skip(1);
        assert(seq![c] + tail =~= text);
        lemma_escaped_from_the_front(c, tail);
        lemma_read_escape(c, escaped(tail));
        lemma_unescaped_escaped(tail);
        let body = escape_char(c) + escaped(tail);
        assert(body.skip(escape_char(c).len() as int) =~= escaped(tail));
    }
}

/// Quoting loses nothing: the literal of a text denotes that text, so two
/// texts with the same literal are the same text.
pub proof fn lemma_quoted_denotes(text: Seq<char>)
    ensures
        denoted(quoted(text)) == Some(text),
{
    lemma_unescaped_escaped(text);
    let literal = quoted(text);
    assert(literal.subrange(1, literal.len() - 1) =~= escaped(text));
}

/// `String::push` appends one character and changes nothing else.
pub assume_specification[ String::push ](s: &mut String, c: char)
    ensures
        final(s)@ == old(s)@.push(c),
;

fn hex_char(d: u32) -> (c: char)
    requires
        d < 16,
    ensures
        c == hex_digit(d as int),
{
    if d < 10 {
        (48 + d) as u8 as char
    } else {
        (87 + d) as u8 as char
    }
}

fn push_escape(out: &mut String, c: char)
    ensures
        final(out)@ == old(out)@ + escape_char(c),
{
    let v: u32 = c as u32;
    if ' ' <= c && c <= '~' && c != '\'' && c != '\\' {
        out.push(c);
    } else {
        out.push('\\');
        out.push('U');
        out.push(hex_char(v / 0x1000_0000 % 16));
        out.push(hex_char(v / 0x100_0000 % 16));
        out.push(hex_char(v / 0x10_0000 % 16));
        out.push(hex_char(v / 0x1_0000 % 16));
        out.push(hex_char(v / 0x1000 % 16));
        out.push(hex_char(v / 0x100 % 16));
        out.push(hex_char(v / 0x10 % 16));
        out.push(hex_char(v % 16));
    }
}

/// Appends to `out` the literal that denotes `text`.
pub fn push_literal(out: &mut String, text: &str)
    ensures
        final(out)@ == old(out)@ + quoted(text@),
{
    out.push('\'');
    for c in rest: text.chars()
        invariant
            rest.seq() == text@,
            out@ == old(out)@ + seq!['\''] + escaped(text@.take(rest.index() as int)),
    {
        proof {
            let n = rest.index() as int;
            assert(text@.take(n + 1).drop_last() == text@.take(n));
        }
        push_escape(out, c);
    }
    proof {
        assert(text@.take(text@.len() as int) == text@);
    }
    out.push('\'');
}

/// The literal that denotes `text`.
pub fn python_literal(text: &str) -> (literal: String)
    ensures
        literal@ == quoted(text@),
{
    let mut literal = String::new();
    push_literal(&mut literal, text);
    literal
}

} // verus!
