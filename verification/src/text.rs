//! Text building blocks shared by the renderers: decimal numbers and JSON
//! string escaping.

use vstd::prelude::*;
use vstd::string::{StringExecFns, StringSliceAdditionalSpecFns};
use vstd::utf8::{char_u32_cast, encode_utf8, encode_utf8_decode_utf8};

verus! {

/// The character of a decimal digit.
pub open spec fn digit_char(d: int) -> char {
    if d == 0 {
        '0'
    } else if d == 1 {
        '1'
    } else if d == 2 {
        '2'
    } else if d == 3 {
        '3'
    } else if d == 4 {
        '4'
    } else if d == 5 {
        '5'
    } else if d == 6 {
        '6'
    } else if d == 7 {
        '7'
    } else if d == 8 {
        '8'
    } else {
        '9'
    }
}

/// The decimal notation of a natural number, without leading zeros.
pub open spec fn decimal(n: nat) -> Seq<char>
    decreases n,
{
    if n < 10 {
        seq![digit_char(n as int)]
    } else {
        decimal(n / 10).push(digit_char((n % 10) as int))
    }
}

/// The character of a lower-case hexadecimal digit.
pub open spec fn hex_char(d: int) -> char {
    if d < 10 {
        digit_char(d)
    } else if d == 10 {
        'a'
    } else if d == 11 {
        'b'
    } else if d == 12 {
        'c'
    } else if d == 13 {
        'd'
    } else if d == 14 {
        'e'
    } else {
        'f'
    }
}

/// Whether a character is a control code: U+0000 to U+001F and U+007F to
/// U+009F.
pub open spec fn is_control(c: char) -> bool {
    (c as u32) < 0x20 || (0x7f <= (c as u32) && (c as u32) <= 0x9f)
}

/// What one character becomes inside a JSON string: the quote, the
/// backslash, line feed, carriage return and tab get their two-character
/// escapes, any other control code a `\u` escape of four hexadecimal
/// digits, and every other character stands for itself.
pub open spec fn escape_char(c: char) -> Seq<char> {
    if c == '"' {
        seq!['\\', '"']
    } else if c == '\\' {
        seq!['\\', '\\']
    } else if c == '\n' {
        seq!['\\', 'n']
    } else if c == '\r' {
        seq!['\\', 'r']
    } else if c == '\t' {
        seq!['\\', 't']
    } else if is_control(c) {
        seq![
            '\\',
            'u',
            hex_char(((c as u32) as int / 4096) % 16),
            hex_char(((c as u32) as int / 256) % 16),
            hex_char(((c as u32) as int / 16) % 16),
            hex_char((c as u32) as int % 16),
        ]
    } else {
        seq![c]
    }
}

/// A text with every character escaped, in order.
pub open spec fn escape(s: Seq<char>) -> Seq<char>
    decreases s.len(),
{
    if s.len() == 0 {
        Seq::empty()
    } else {
        escape(s.drop_last()) + escape_char(s.last())
    }
}

/// The value of a lower-case hexadecimal digit, and 0 for any other
/// character.
pub open spec fn hex_value(c: char) -> int {
    if c == '1' {
        1
    } else if c == '2' {
        2
    } else if c == '3' {
        3
    } else if c == '4' {
        4
    } else if c == '5' {
        5
    } else if c == '6' {
        6
    } else if c == '7' {
        7
    } else if c == '8' {
        8
    } else if c == '9' {
        9
    } else if c == 'a' {
        10
    } else if c == 'b' {
        11
    } else if c == 'c' {
        12
    } else if c == 'd' {
        13
    } else if c == 'e' {
        14
    } else if c == 'f' {
        15
    } else {
        0
    }
}

/// Reads one escaped character at the front of `t`: the character that it
/// stands for, and how many characters of `t` it takes.
pub open spec fn unescape_first(t: Seq<char>) -> (char, int) {
    if t[0] != '\\' {
        (t[0], 1)
    } else if t[1] == 'u' {
        (
            ((hex_value(t[2]) * 4096 + hex_value(t[3]) * 256 + hex_value(t[4]) * 16 + hex_value(
                t[5],
            )) as u32) as char,
            6,
        )
    } else if t[1] == 'n' {
        ('\n', 2)
    } else if t[1] == 'r' {
        ('\r', 2)
    } else if t[1] == 't' {
        ('\t', 2)
    } else {
        (t[1], 2)
    }
}

/// Reads an escaped text back: the characters that its escapes stand for,
/// in order. Reading ends where an escape is cut short.
pub open spec fn unescape(t: Seq<char>) -> Seq<char>
    decreases t.len(),
{
    if t.len() == 0 {
        Seq::empty()
    } else {
        let (c, taken) = unescape_first(t);
        if taken <= t.len() {
            seq![c] + unescape(t.skip(taken))
        } else {
            Seq::empty()
        }
    }
}

/// The escaped form of a text that starts with `c` is the escape of `c`
/// and then the escaped form of the rest.
pub proof fn lemma_escape_front(c: char, rest: Seq<char>)
    ensures
        escape(seq![c] + rest) == escape_char(c) + escape(rest),
{
    lemma_escape_concat(seq![c], rest);
    assert(seq![c].drop_last() =~= Seq::<char>::empty());
    assert(escape(seq![c].drop_last()) =~= Seq::<char>::empty());
    assert(escape(seq![c]) =~= escape_char(c));
}

/// The escape of a character, with anything behind it, is read back as
/// that character.
pub proof fn lemma_unescape_first(c: char, rest: Seq<char>)
    ensures
        unescape_first(escape_char(c) + rest) == (c, escape_char(c).len() as int),
{
    let t = escape_char(c) + rest;
    if c != '"' && c != '\\' && c != '\n' && c != '\r' && c != '\t' && is_control(c) {
        let u = (c as u32) as int;
        let d3 = (u / 4096) % 16;
        let d2 = (u / 256) % 16;
        let d1 = (u / 16) % 16;
        let d0 = u % 16;
        assert(t[2] == hex_char(d3) && t[3] == hex_char(d2) && t[4] == hex_char(d1) && t[5]
            == hex_char(d0));
        assert(hex_value(hex_char(d3)) == d3);
        assert(hex_value(hex_char(d2)) == d2);
        assert(hex_value(hex_char(d1)) == d1);
        assert(hex_value(hex_char(d0)) == d0);
        assert(d3 * 4096 + d2 * 256 + d1 * 16 + d0 == u);
        char_u32_cast(c, c as u32);
    }
}

/// Escaping loses nothing: an escaped text is read back as the text.
pub proof fn lemma_unescape_escape(s: Seq<char>)
    ensures
        unescape(escape(s)) == s,
    decreases s.len(),
{
    if s.len() == 0 {
        assert(escape(s) =~= Seq::<char>::empty());
    } else {
        let c = s[0];
        let rest = s.drop_first();
        assert(s =~= seq![c] + rest);
        lemma_escape_front(c, rest);
        lemma_unescape_first(c, escape(rest));
        lemma_unescape_escape(rest);
        let t = escape_char(c) + escape(rest);
        assert(t.skip(escape_char(c).len() as int) =~= escape(rest));
        assert(unescape(t) =~= seq![c] + rest);
    }
}

/// Two texts with the same escaped form are the same text.
pub proof fn lemma_escape_is_injective(a: Seq<char>, b: Seq<char>)
    requires
        escape(a) == escape(b),
    ensures
        a == b,
{
    lemma_unescape_escape(a);
    lemma_unescape_escape(b);
}

/// Escaping goes character by character: the escaped form of two texts,
/// one behind the other, is their escaped forms, one behind the other.
pub proof fn lemma_escape_concat(a: Seq<char>, b: Seq<char>)
    ensures
        escape(a + b) == escape(a) + escape(b),
    decreases b.len(),
{
    if b.len() > 0 {
        assert((a + b).drop_last() =~= a + b.drop_last());
        lemma_escape_concat(a, b.drop_last());
    }
}

/// An escaped text holds no control code: every control code of the text
/// was replaced by an escape.
pub proof fn lemma_escape_has_no_control(s: Seq<char>)
    ensures
        forall|i: int| 0 <= i < escape(s).len() ==> !is_control(#[trigger] escape(s)[i]),
    decreases s.len(),
{
    if s.len() > 0 {
        lemma_escape_has_no_control(s.drop_last());
        let c = s.last();
        let tail = escape_char(c);
        assert forall|j: int| 0 <= j < tail.len() implies !is_control(#[trigger] tail[j]) by {
            lemma_hex_char_is_plain(((c as u32) as int / 4096) % 16);
            lemma_hex_char_is_plain(((c as u32) as int / 256) % 16);
            lemma_hex_char_is_plain(((c as u32) as int / 16) % 16);
            lemma_hex_char_is_plain((c as u32) as int % 16);
        }
        let head = escape(s.drop_last());
        assert forall|i: int| 0 <= i < escape(s).len() implies !is_control(
            #[trigger] escape(s)[i],
        ) by {
            if i >= head.len() {
                assert(escape(s)[i] == tail[i - head.len()]);
            }
        }
    }
}

/// A hexadecimal digit is no control code.
proof fn lemma_hex_char_is_plain(d: int)
    ensures
        !is_control(hex_char(d)),
{
}

/// `String::push`: the text grows by exactly the given character.
#[verifier::external_body]
pub(crate) fn push_char(buf: &mut String, c: char)
    ensures
        final(buf)@ == old(buf)@.push(c),
{
    buf.push(c)
}

fn digit_of(d: u32) -> (c: char)
    requires
        d < 10,
    ensures
        c == digit_char(d as int),
{
    if d == 0 {
        '0'
    } else if d == 1 {
        '1'
    } else if d == 2 {
        '2'
    } else if d == 3 {
        '3'
    } else if d == 4 {
        '4'
    } else if d == 5 {
        '5'
    } else if d == 6 {
        '6'
    } else if d == 7 {
        '7'
    } else if d == 8 {
        '8'
    } else {
        '9'
    }
}

fn hex_of(d: u32) -> (c: char)
    requires
        d < 16,
    ensures
        c == hex_char(d as int),
{
    if d < 10 {
        digit_of(d)
    } else if d == 10 {
        'a'
    } else if d == 11 {
        'b'
    } else if d == 12 {
        'c'
    } else if d == 13 {
        'd'
    } else if d == 14 {
        'e'
    } else {
        'f'
    }
}

/// Appends the decimal notation of `n`.
pub fn push_decimal(buf: &mut String, n: u16)
    ensures
        final(buf)@ == old(buf)@ + decimal(n as nat),
{
    let v: u32 = n as u32;
    proof {
        reveal_with_fuel(decimal, 6);
    }
    if v >= 10000 {
        push_char(buf, digit_of(v / 10000));
    }
    if v >= 1000 {
        push_char(buf, digit_of((v / 1000) % 10));
    }
    if v >= 100 {
        push_char(buf, digit_of((v / 100) % 10));
    }
    if v >= 10 {
        push_char(buf, digit_of((v / 10) % 10));
    }
    push_char(buf, digit_of(v % 10));
}

/// Appends `s` to `buf`, escaped for use inside a JSON string.
pub fn write_escaped(buf: &mut String, s: &str)
    ensures
        final(buf)@ == old(buf)@ + escape(s@),
{
    let ghost start = buf@;
    for c in it: s.chars()
        invariant
            it.seq() == s@,
            buf@ == start + escape(s@.take(it.index() as int)),
    {
        proof {
            let k = it.index() as int;
            assert(s@.take(k + 1).drop_last() =~= s@.take(k));
        }
        if c == '"' {
            buf.append("\\\"");
            proof {
                reveal_strlit("\\\"");
            }
        } else if c == '\\' {
            buf.append("\\\\");
            proof {
                reveal_strlit("\\\\");
            }
        } else if c == '\n' {
            buf.append("\\n");
            proof {
                reveal_strlit("\\n");
            }
        } else if c == '\r' {
            buf.append("\\r");
            proof {
                reveal_strlit("\\r");
            }
        } else if c == '\t' {
            buf.append("\\t");
            proof {
                reveal_strlit("\\t");
            }
        } else {
            let u: u32 = c as u32;
            if u < 0x20 || (0x7f <= u && u <= 0x9f) {
                push_char(buf, '\\');
                push_char(buf, 'u');
                push_char(buf, hex_of((u / 4096) % 16));
                push_char(buf, hex_of((u / 256) % 16));
                push_char(buf, hex_of((u / 16) % 16));
                push_char(buf, hex_of(u % 16));
            } else {
                push_char(buf, c);
            }
        }
    }
    assert(s@.take(s@.len() as int) =~= s@);
}

/// Whether two texts are the same, character for character.
pub fn str_eq(a: &str, b: &str) -> (res: bool)
    ensures
        res == (a@ == b@),
{
    let x = a.as_bytes();
    let y = b.as_bytes();
    proof {
        encode_utf8_decode_utf8(a@);
        encode_utf8_decode_utf8(b@);
    }
    if x.len() != y.len() {
        return false;
    }
    let mut i: usize = 0;
    while i < x.len()
        invariant
            i <= x@.len(),
            x@.len() == y@.len(),
            x@ == encode_utf8(a@),
            y@ == encode_utf8(b@),
            forall|j: int| 0 <= j < i ==> x@[j] == y@[j],
        decreases x@.len() - i,
    {
        if x[i] != y[i] {
            return false;
        }
        i += 1;
    }
    assert(x@ =~= y@);
    true
}

} // verus!
