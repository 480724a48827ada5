//! The JSON text that an integer or a string is written as.
use vstd::prelude::*;

verus! {

/// The character of a decimal digit `d` (`0 <= d < 10`).
pub open spec fn digit_char(d: nat) -> char {
    ((48 + d) as u8) as char
}

/// `n` in decimal digits, most significant first, without leading zeros.
pub open spec fn decimal(n: nat) -> Seq<char>
    decreases n,
{
    if n < 10 {
        seq![digit_char(n)]
    } else {
        decimal(n / 10).push(digit_char(n % 10))
    }
}

/// `n` as a JSON number: its decimal digits, after a minus sign if it is
/// negative.
pub open spec fn int_text(n: int) -> Seq<char> {
    if n < 0 {
        seq!['-'] + decimal((-n) as nat)
    } else {
        decimal(n as nat)
    }
}

/// The number that a run of decimal digits spells.
pub open spec fn decimal_value(s: Seq<char>) -> int
    decreases s.len(),
{
    if s.len() == 0 {
        0
    } else {
        decimal_value(s.drop_last()) * 10 + (s.last() as int - 48)
    }
}

proof fn lemma_digit_char(d: nat)
    requires
        d < 10,
    ensures
        digit_char(d) as int - 48 == d,
        digit_char(d) != '-',
{
    assert(((48 + d) as u8) as char as int == 48 + d);
}

/// Reading back the digits of `n` gives `n`; they are never empty and never
/// start with a minus sign.
pub proof fn lemma_decimal_value(n: nat)
    ensures
        decimal_value(decimal(n)) == n,
        decimal(n).len() > 0,
        decimal(n)[0] != '-',
    decreases n,
{
    lemma_digit_char(n % 10);
    if n >= 10 {
        lemma_decimal_value(n / 10);
        let d = decimal(n / 10);
        assert(decimal(n).drop_last() =~= d);
        assert(decimal(n).last() == digit_char(n % 10));
        assert(decimal_value(decimal(n)) == decimal_value(d) * 10 + (n % 10));
        assert(n == (n / 10) * 10 + n % 10) by (nonlinear_arith);
    } else {
        assert(decimal(n).drop_last() =~= Seq::<char>::empty());
        assert(n % 10 == n);
        assert(decimal_value(decimal(n)) == decimal_value(Seq::<char>::empty()) * 10 + (n % 10));
    }
}

/// Distinct integers are written as distinct texts.
pub proof fn lemma_int_text_injective(a: int, b: int)
    requires
        int_text(a) == int_text(b),
    ensures
        a == b,
{
    if a < 0 {
        lemma_decimal_value((-a) as nat);
        lemma_decimal_value(b as nat);
        if b < 0 {
            lemma_decimal_value((-b) as nat);
            assert(int_text(a).skip(1) =~= decimal((-a) as nat));
            assert(int_text(b).skip(1) =~= decimal((-b) as nat));
        } else {
            assert(int_text(a)[0] == '-');
        }
    } else {
        lemma_decimal_value(a as nat);
        if b < 0 {
            lemma_decimal_value((-b) as nat);
            assert(int_text(b)[0] == '-');
        } else {
            lemma_decimal_value(b as nat);
        }
    }
}

/// The character of a hexadecimal digit `d` (`0 <= d < 16`), lower case.
pub open spec fn hex_char(d: nat) -> char {
    if d < 10 {
        digit_char(d)
    } else {
        ((87 + d) as u8) as char
    }
}

/// How one character is written inside a JSON string: quote and backslash
/// behind a backslash, the five control characters that have a short
/// escape by it, any other control character as `\u00` and two hex digits,
/// and everything else as it is.
pub open spec fn escape_char(c: char) -> Seq<char> {
    if c == '"' {
        seq!['\\', '"']
    } else if c == '\\' {
        seq!['\\', '\\']
    } else if c == '\x08' {
        seq!['\\', 'b']
    } else if c == '\t' {
        seq!['\\', 't']
    } else if c == '\n' {
        seq!['\\', 'n']
    } else if c == '\x0c' {
        seq!['\\', 'f']
    } else if c == '\r' {
        seq!['\\', 'r']
    } else if (c as u32) < 32 {
        seq!['\\', 'u', '0', '0', hex_char((c as u32 / 16) as nat), hex_char((c as u32 % 16) as nat)]
    } else {
        seq![c]
    }
}

/// The characters of `s`, each escaped.
pub open spec fn escaped(s: Seq<char>) -> Seq<char>
    decreases s.len(),
{
    if s.len() == 0 {
        Seq::empty()
    } else {
        escape_char(s[0]) + escaped(s.skip(1))
    }
}

/// `s` as a JSON string: escaped, between double quotes.
pub open spec fn quoted(s: Seq<char>) -> Seq<char> {
    seq!['"'] + escaped(s) + seq!['"']
}

/// How many characters the escape at the start of `t` takes, read off `t`
/// alone.
spec fn escape_len(t: Seq<char>) -> nat {
    if t[0] != '\\' {
        1
    } else if t[1] == 'u' {
        6
    } else {
        2
    }
}

proof fn lemma_hex_char(d: nat)
    requires
        d < 16,
    ensures
        hex_char(d) as int == if d < 10 { 48 + d } else { 87 + d },
{
    if d < 10 {
        lemma_digit_char(d);
    } else {
        assert(((87 + d) as u8) as char as int == 87 + d);
    }
}

/// The escape of a character is never empty, and where it stands at the
/// start of a text, that text alone tells how long it is.
proof fn lemma_escape_char_len(c: char, rest: Seq<char>)
    ensures
        escape_char(c).len() > 0,
        escape_len(escape_char(c) + rest) == escape_char(c).len(),
{
    let e = escape_char(c);
    assert((e + rest)[0] == e[0]);
    if e.len() > 1 {
        assert((e + rest)[1] == e[1]);
    }
}

/// Distinct characters have distinct escapes.
proof fn lemma_escape_char_injective(c: char, d: char)
    requires
        escape_char(c) == escape_char(d),
    ensures
        c == d,
{
    let e = escape_char(c);
    if e.len() == 6 {
        let (x, y) = (c as u32, d as u32);
        lemma_hex_char((x / 16) as nat);
        lemma_hex_char((x % 16) as nat);
        lemma_hex_char((y / 16) as nat);
        lemma_hex_char((y % 16) as nat);
        assert(e[4] == escape_char(d)[4]);
        assert(e[5] == escape_char(d)[5]);
        assert(x == (x / 16) * 16 + x % 16);
        assert(y == (y / 16) * 16 + y % 16);
        assert(x == y);
        assert(c == d);
    } else if e.len() == 2 {
        assert(e[1] == escape_char(d)[1]);
        assert(c == d);
    } else {
        assert(e == seq![c]);
        assert(escape_char(d) == seq![d]);
        assert(seq![c][0] == c && seq![d][0] == d);
    }
}

/// Distinct strings are escaped as distinct texts.
pub proof fn lemma_escaped_injective(a: Seq<char>, b: Seq<char>)
    requires
        escaped(a) == escaped(b),
    ensures
        a == b,
    decreases a.len(),
{
    if a.len() == 0 {
        if b.len() > 0 {
            lemma_escape_char_len(b[0], escaped(b.skip(1)));
        }
        assert(b.len() == 0);
        assert(a =~= b);
    } else {
        lemma_escape_char_len(a[0], escaped(a.skip(1)));
        if b.len() == 0 {
            assert(escaped(a) == escape_char(a[0]) + escaped(a.skip(1)));
            assert(escaped(a).len() > 0);
            assert(false);
        } else {
            let (ea, eb) = (escape_char(a[0]), escape_char(b[0]));
            lemma_escape_char_len(b[0], escaped(b.skip(1)));
            let t = escaped(a);
            assert(ea.len() == eb.len());
            assert(ea =~= t.take(ea.len() as int));
            assert(eb =~= t.take(eb.len() as int));
            lemma_escape_char_injective(a[0], b[0]);
            assert(escaped(a.skip(1)) =~= t.skip(ea.len() as int));
            assert(escaped(b.skip(1)) =~= t.skip(eb.len() as int));
            lemma_escaped_injective(a.skip(1), b.skip(1));
            assert(a =~= seq![a[0]] + a.skip(1));
            assert(b =~= seq![b[0]] + b.skip(1));
        }
    }
}

/// Distinct strings are quoted as distinct texts.
pub proof fn lemma_quoted_injective(a: Seq<char>, b: Seq<char>)
    requires
        quoted(a) == quoted(b),
    ensures
        a == b,
{
    assert(escaped(a) =~= quoted(a).subrange(1, quoted(a).len() - 1));
    assert(escaped(b) =~= quoted(b).subrange(1, quoted(b).len() - 1));
    lemma_escaped_injective(a, b);
}

} // verus!
