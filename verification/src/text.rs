//! Decimal and boolean rendering of numbers into text.

use vstd::prelude::*;
use crate::digest::hex_char;

verus! {

/// The character of a decimal digit.
pub open spec fn digit_char(d: nat) -> char {
    if d == 0 { '0' }
    else if d == 1 { '1' }
    else if d == 2 { '2' }
    else if d == 3 { '3' }
    else if d == 4 { '4' }
    else if d == 5 { '5' }
    else if d == 6 { '6' }
    else if d == 7 { '7' }
    else if d == 8 { '8' }
    else { '9' }
}

/// The decimal representation of `n`, most significant digit first, with no
/// leading zeros (zero itself is written `0`).
pub open spec fn decimal(n: nat) -> Seq<char>
    decreases n,
{
    if n < 10 {
        seq![digit_char(n)]
    } else {
        decimal(n / 10).push(digit_char(n % 10))
    }
}

/// The text of a boolean, as Rust writes it.
pub open spec fn bool_text(b: bool) -> Seq<char> {
    if b { "true"@ } else { "false"@ }
}

/// The text of one decimal digit.
fn digit_str(d: u64) -> (res: &'static str)
    requires
        d < 10,
    ensures
        res@ == seq![digit_char(d as nat)],
{
    proof {
        reveal_strlit("0");
        reveal_strlit("1");
        reveal_strlit("2");
        reveal_strlit("3");
        reveal_strlit("4");
        reveal_strlit("5");
        reveal_strlit("6");
        reveal_strlit("7");
        reveal_strlit("8");
        reveal_strlit("9");
    }
    if d == 0 { "0" }
    else if d == 1 { "1" }
    else if d == 2 { "2" }
    else if d == 3 { "3" }
    else if d == 4 { "4" }
    else if d == 5 { "5" }
    else if d == 6 { "6" }
    else if d == 7 { "7" }
    else if d == 8 { "8" }
    else { "9" }
}

/// Appends the decimal representation of `n` to `out`.
pub(crate) fn push_decimal(out: &mut String, n: u64)
    ensures
        final(out)@ == old(out)@ + decimal(n as nat),
    decreases n,
{
    if n >= 10 {
        push_decimal(out, n / 10);
    }
    out.append(digit_str(n % 10));
}

/// Appends the text of a boolean to `out`.
pub(crate) fn push_bool(out: &mut String, b: bool)
    ensures
        final(out)@ == old(out)@ + bool_text(b),
{
    if b {
        out.append("true");
    } else {
        out.append("false");
    }
}

/// A character as it stands inside a JSON string: the quote, the backslash
/// and the control characters escaped, every other character as it is.
pub open spec fn json_escaped_char(c: char) -> Seq<char> {
    if c == '"' {
        seq!['\\', '"']
    } else if c == '\\' {
        seq!['\\', '\\']
    } else if c == '\n' {
        seq!['\\', 'n']
    } else if c == '\r' {
        seq!['\\', 'r']
    } else if c == '\t' {
        seq!['\\', 't']
    } else if c == '\x08' {
        seq!['\\', 'b']
    } else if c == '\x0c' {
        seq!['\\', 'f']
    } else if (c as u32) < 32 {
        seq!['\\', 'u', '0', '0', hex_char(((c as u32) / 16) as u8), hex_char(((c as u32) % 16) as u8)]
    } else {
        seq![c]
    }
}

/// A text as it stands between the quotes of a JSON string.
pub open spec fn json_escape(s: Seq<char>) -> Seq<char>
    decreases s.len(),
{
    if s.len() == 0 {
        seq![]
    } else {
        json_escape(s.drop_last()) + json_escaped_char(s.last())
    }
}

/// Escaping a text is escaping its parts in turn.
pub proof fn lemma_json_escape_concat(a: Seq<char>, b: Seq<char>)
    ensures
        json_escape(a + b) == json_escape(a) + json_escape(b),
    decreases b.len(),
{
    if b.len() == 0 {
        assert(a + b =~= a);
    } else {
        lemma_json_escape_concat(a, b.drop_last());
        assert((a + b).drop_last() =~= a + b.drop_last());
        assert((a + b).last() == b.last());
    }
}

/// The text of a hexadecimal digit.
fn hex_digit_str(d: u32) -> (res: &'static str)
    requires
        d < 16,
    ensures
        res@ == seq![hex_char(d as u8)],
{
    proof {
        reveal_strlit("0");
        reveal_strlit("1");
        reveal_strlit("2");
        reveal_strlit("3");
        reveal_strlit("4");
        reveal_strlit("5");
        reveal_strlit("6");
        reveal_strlit("7");
        reveal_strlit("8");
        reveal_strlit("9");
        reveal_strlit("a");
        reveal_strlit("b");
        reveal_strlit("c");
        reveal_strlit("d");
        reveal_strlit("e");
        reveal_strlit("f");
    }
    if d == 0 { "0" }
    else if d == 1 { "1" }
    else if d == 2 { "2" }
    else if d == 3 { "3" }
    else if d == 4 { "4" }
    else if d == 5 { "5" }
    else if d == 6 { "6" }
    else if d == 7 { "7" }
    else if d == 8 { "8" }
    else if d == 9 { "9" }
    else if d == 10 { "a" }
    else if d == 11 { "b" }
    else if d == 12 { "c" }
    else if d == 13 { "d" }
    else if d == 14 { "e" }
    else { "f" }
}

/// Appends one character of `s`, the one at `i`, as it stands inside a JSON
/// string.
fn push_json_char(out: &mut String, s: &str, i: usize)
    requires
        i < s@.len(),
        s@.len() <= usize::MAX,
    ensures
        final(out)@ == old(out)@ + json_escaped_char(s@[i as int]),
{
    proof {
        reveal_strlit("\\\"");
        reveal_strlit("\\\\");
        reveal_strlit("\\n");
        reveal_strlit("\\r");
        reveal_strlit("\\t");
        reveal_strlit("\\b");
        reveal_strlit("\\f");
        reveal_strlit("\\u00");
    }
    let c = s.get_char(i);
    if c == '"' {
        out.append("\\\"");
    } else if c == '\\' {
        out.append("\\\\");
    } else if c == '\n' {
        out.append("\\n");
    } else if c == '\r' {
        out.append("\\r");
    } else if c == '\t' {
        out.append("\\t");
    } else if c == '\x08' {
        out.append("\\b");
    } else if c == '\x0c' {
        out.append("\\f");
    } else if (c as u32) < 32 {
        out.append("\\u00");
        out.append(hex_digit_str((c as u32) / 16));
        out.append(hex_digit_str((c as u32) % 16));
    } else {
        out.append(s.substring_char(i, i + 1));
    }
}

/// Appends `s` as it stands between the quotes of a JSON string.
pub(crate) fn push_json_string(out: &mut String, s: &str)
    ensures
        final(out)@ == old(out)@ + json_escape(s@),
{
    let ghost start = out@;
    let n = s.unicode_len();
    let mut i: usize = 0;
    assert(s@.take(0) =~= Seq::<char>::empty());
    while i < n
        invariant
            i <= n,
            n == s@.len(),
            out@ == start + json_escape(s@.take(i as int)),
        decreases n - i,
    {
        push_json_char(out, s, i);
        assert(s@.take(i + 1).drop_last() =~= s@.take(i as int));
        i = i + 1;
    }
    assert(s@.take(n as int) =~= s@);
}

/// The value of a hexadecimal digit character, of either case.
pub open spec fn hex_value(c: char) -> Option<u32> {
    if 48 <= (c as u32) && (c as u32) <= 57 {
        Some((c as u32 - 48) as u32)
    } else if 97 <= (c as u32) && (c as u32) <= 102 {
        Some((c as u32 - 87) as u32)
    } else if 65 <= (c as u32) && (c as u32) <= 70 {
        Some((c as u32 - 55) as u32)
    } else {
        None
    }
}

/// The character that a one-letter JSON escape (after the backslash) stands
/// for.
pub open spec fn json_short_escape(e: char) -> Option<char> {
    if e == '"' {
        Some('"')
    } else if e == '\\' {
        Some('\\')
    } else if e == '/' {
        Some('/')
    } else if e == 'n' {
        Some('\n')
    } else if e == 'r' {
        Some('\r')
    } else if e == 't' {
        Some('\t')
    } else if e == 'b' {
        Some('\x08')
    } else if e == 'f' {
        Some('\x0c')
    } else {
        None
    }
}

/// The code that four hexadecimal digits at the front of `t` spell, if they
/// do.
pub open spec fn hex4_value(t: Seq<char>) -> Option<u32> {
    if t.len() >= 4 && hex_value(t[0]) is Some && hex_value(t[1]) is Some
        && hex_value(t[2]) is Some && hex_value(t[3]) is Some {
        Some((4096 * hex_value(t[0]).unwrap() + 256 * hex_value(t[1]).unwrap()
            + 16 * hex_value(t[2]).unwrap() + hex_value(t[3]).unwrap()) as u32)
    } else {
        None
    }
}

/// Prepends a character to the text of a read, if the read succeeded.
pub open spec fn prepend_read(
    c: char,
    read: Option<(Seq<char>, Seq<char>)>,
) -> Option<(Seq<char>, Seq<char>)> {
    match read {
        Some((text, after)) => Some((seq![c] + text, after)),
        None => None,
    }
}

/// Reads a JSON string from just after its opening quote: the decoded text
/// up to the closing quote, and what follows that quote. `None` where the
/// string is not closed, holds a bare control character or a malformed
/// escape. Escapes of UTF-16 surrogates are not decoded.
pub open spec fn read_json_string(t: Seq<char>) -> Option<(Seq<char>, Seq<char>)>
    decreases t.len(),
{
    if t.len() == 0 {
        None
    } else if t[0] == '"' {
        Some((seq![], t.skip(1)))
    } else if t[0] == '\\' {
        if t.len() < 2 {
            None
        } else if json_short_escape(t[1]) is Some {
            prepend_read(json_short_escape(t[1]).unwrap(), read_json_string(t.skip(2)))
        } else if t[1] == 'u' && hex4_value(t.skip(2)) is Some {
            let code = hex4_value(t.skip(2)).unwrap();
            if 0xD800 <= code && code < 0xE000 {
                None
            } else {
                prepend_read(code as char, read_json_string(t.skip(6)))
            }
        } else {
            None
        }
    } else if (t[0] as u32) < 32 {
        None
    } else {
        prepend_read(t[0], read_json_string(t.skip(1)))
    }
}

/// Reading an escaped character followed by more text gives the character
/// followed by what the rest reads as.
proof fn lemma_read_escaped_char(c: char, rest: Seq<char>)
    ensures
        read_json_string(json_escaped_char(c) + rest) == prepend_read(c, read_json_string(rest)),
{
    let t = json_escaped_char(c) + rest;
    if c == '"' || c == '\\' || c == '\n' || c == '\r' || c == '\t' || c == '\x08' || c == '\x0c' {
        assert(t.skip(2) =~= rest);
    } else if (c as u32) < 32 {
        let hi = ((c as u32) / 16) as u8;
        let lo = ((c as u32) % 16) as u8;
        assert(t.skip(6) =~= rest);
        assert(t[2] == '0' && t[3] == '0');
        assert(t[4] == crate::digest::hex_char(hi) && t[5] == crate::digest::hex_char(lo));
        assert(hex_value(t[4]) == Some(hi as u32));
        assert(hex_value(t[5]) == Some(lo as u32));
        assert(t.skip(2)[2] == t[4] && t.skip(2)[3] == t[5]);
        assert(hex4_value(t.skip(2)) == Some(c as u32));
        assert((c as u32) as char == c);
    } else {
        assert(t.skip(1) =~= rest);
    }
}

/// Escaping can be undone, and the escaped text never ends a JSON string
/// early: a JSON string written as the escaped text of `s` and its closing
/// quote reads back as `s`, and reading goes on right after that quote.
pub proof fn lemma_json_string_round_trip(s: Seq<char>, after: Seq<char>)
    ensures
        read_json_string(json_escape(s) + seq!['"'] + after) == Some((s, after)),
    decreases s.len(),
{
    if s.len() == 0 {
        assert(json_escape(s) + seq!['"'] + after =~= seq!['"'] + after);
        assert((seq!['"'] + after).skip(1) =~= after);
    } else {
        let c = s[0];
        let rest = s.drop_first();
        assert(s =~= seq![c] + rest);
        lemma_json_escape_concat(seq![c], rest);
        assert(json_escape(seq![c]) =~= json_escaped_char(c)) by {
            assert(seq![c].drop_last() =~= Seq::<char>::empty());
            reveal_with_fuel(json_escape, 2);
        }
        let tail = json_escape(rest) + seq!['"'] + after;
        assert(json_escape(s) + seq!['"'] + after =~= json_escaped_char(c) + tail);
        lemma_read_escaped_char(c, tail);
        lemma_json_string_round_trip(rest, after);
        assert(seq![c] + rest =~= s);
    }
}

/// The value of a decimal digit character.
pub open spec fn digit_value(c: char) -> Option<nat> {
    if 48 <= (c as u32) && (c as u32) <= 57 {
        Some((c as u32 - 48) as nat)
    } else {
        None
    }
}

/// Reads the decimal digits at the front of `t` after the value `acc` read
/// so far: the value, and what follows the digits.
pub open spec fn read_digits(acc: nat, t: Seq<char>) -> (nat, Seq<char>)
    decreases t.len(),
{
    if t.len() > 0 && digit_value(t[0]) is Some {
        read_digits(acc * 10 + digit_value(t[0]).unwrap(), t.skip(1))
    } else {
        (acc, t)
    }
}

/// Reads a JSON number of decimal digits at the front of `t`: its value and
/// what follows it; `None` where `t` does not start with a digit.
pub open spec fn read_decimal(t: Seq<char>) -> Option<(nat, Seq<char>)> {
    if t.len() > 0 && digit_value(t[0]) is Some {
        Some(read_digits(0, t))
    } else {
        None
    }
}

/// The value that digits `d` give after the value `acc`.
pub open spec fn digits_value(acc: nat, d: Seq<char>) -> nat
    decreases d.len(),
{
    if d.len() == 0 {
        acc
    } else {
        digits_value(acc * 10 + digit_value(d[0]).unwrap(), d.skip(1))
    }
}

/// Every character of a decimal text is a digit.
pub open spec fn all_digits(d: Seq<char>) -> bool {
    forall|i: int| 0 <= i < d.len() ==> #[trigger] digit_value(d[i]) is Some
}

proof fn lemma_digit_char_value(d: nat)
    requires
        d < 10,
    ensures
        digit_value(digit_char(d)) == Some(d),
{
}

/// Decimal text is made of digits, and its value is the number written.
proof fn lemma_decimal_digits(n: nat)
    ensures
        all_digits(decimal(n)),
        decimal(n).len() > 0,
        digits_value(0, decimal(n)) == n,
    decreases n,
{
    lemma_digit_char_value(n % 10);
    if n >= 10 {
        lemma_decimal_digits(n / 10);
        lemma_digits_value_push(0, decimal(n / 10), digit_char(n % 10));
        assert(n == (n / 10) * 10 + n % 10);
        assert forall|i: int| 0 <= i < decimal(n).len() implies #[trigger] digit_value(decimal(n)[i]) is Some by {
            if i < decimal(n / 10).len() {
                assert(decimal(n)[i] == decimal(n / 10)[i]);
            }
        }
    } else {
        assert(seq![digit_char(n)].skip(1) =~= Seq::<char>::empty());
        assert(digits_value(n, Seq::<char>::empty()) == n);
    }
}

/// One more digit at the end multiplies the value by ten and adds it.
proof fn lemma_digits_value_push(acc: nat, d: Seq<char>, c: char)
    requires
        digit_value(c) is Some,
    ensures
        digits_value(acc, d.push(c)) == digits_value(acc, d) * 10 + digit_value(c).unwrap(),
    decreases d.len(),
{
    if d.len() == 0 {
        assert(d.push(c).skip(1) =~= Seq::<char>::empty());
        assert(d.push(c)[0] == c);
        assert(digits_value(acc * 10 + digit_value(c).unwrap(), Seq::<char>::empty())
            == acc * 10 + digit_value(c).unwrap());
        assert(digits_value(acc, d) == acc);
    } else {
        assert(d.push(c).skip(1) =~= d.skip(1).push(c));
        assert(d.push(c)[0] == d[0]);
        lemma_digits_value_push(acc * 10 + digit_value(d[0]).unwrap(), d.skip(1), c);
    }
}

/// Reading digits goes through all of them and stops at the first
/// character that is not one.
proof fn lemma_read_digits(acc: nat, d: Seq<char>, after: Seq<char>)
    requires
        all_digits(d),
        after.len() == 0 || digit_value(after[0]) is None,
    ensures
        read_digits(acc, d + after) == (digits_value(acc, d), after),
    decreases d.len(),
{
    if d.len() == 0 {
        assert(d + after =~= after);
    } else {
        assert((d + after).skip(1) =~= d.skip(1) + after);
        assert(all_digits(d.skip(1))) by {
            assert forall|i: int| 0 <= i < d.skip(1).len() implies #[trigger] digit_value(d.skip(1)[i]) is Some by {
                assert(d.skip(1)[i] == d[i + 1]);
            }
        }
        assert(digit_value(d[0]) is Some);
        lemma_read_digits(acc * 10 + digit_value(d[0]).unwrap(), d.skip(1), after);
    }
}

/// A number written in decimal reads back as that number, up to the first
/// character that is not a digit.
pub proof fn lemma_decimal_round_trip(n: nat, after: Seq<char>)
    requires
        after.len() == 0 || digit_value(after[0]) is None,
    ensures
        read_decimal(decimal(n) + after) == Some((n, after)),
{
    lemma_decimal_digits(n);
    lemma_read_digits(0, decimal(n), after);
    assert((decimal(n) + after)[0] == decimal(n)[0]);
}

/// Reads the text `lit` at the front of `t`: what follows it, or `None`
/// where `t` does not start with it.
pub open spec fn read_literal(lit: Seq<char>, t: Seq<char>) -> Option<Seq<char>> {
    if t.len() >= lit.len() && t.take(lit.len() as int) == lit {
        Some(t.skip(lit.len() as int))
    } else {
        None
    }
}

/// A text reads as itself.
pub proof fn lemma_read_literal(lit: Seq<char>, after: Seq<char>)
    ensures
        read_literal(lit, lit + after) == Some(after),
{
    assert((lit + after).take(lit.len() as int) =~= lit);
    assert((lit + after).skip(lit.len() as int) =~= after);
}

/// Reads a JSON boolean at the front of `t`: its value and what follows it.
pub open spec fn read_bool(t: Seq<char>) -> Option<(bool, Seq<char>)> {
    if read_literal("true"@, t) is Some {
        Some((true, read_literal("true"@, t).unwrap()))
    } else if read_literal("false"@, t) is Some {
        Some((false, read_literal("false"@, t).unwrap()))
    } else {
        None
    }
}

/// A boolean written as JSON reads back as itself.
pub proof fn lemma_bool_round_trip(b: bool, after: Seq<char>)
    ensures
        read_bool(bool_text(b) + after) == Some((b, after)),
{
    reveal_strlit("true");
    reveal_strlit("false");
    lemma_read_literal(bool_text(b), after);
    if !b {
        let t = bool_text(b) + after;
        assert(t[0] == 'f');
        assert(t.take(4)[0] == 'f');
        assert(t.take(4) != "true"@);
    }
}

} // verus!
