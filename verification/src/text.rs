//! Decimal rendering of fixed-point readings, and JSON string escaping.
//!
//! Every payload this library emits is built here, character by
//! character, against exact `Seq<char>` specifications.

use vstd::prelude::*;

use crate::measurement::MAX_ABS_MILLI;
use crate::measurement::Measurement;

verus! {

/// The character for one decimal digit value.
pub open spec fn digit_char(d: int) -> char
    recommends
        0 <= d < 10,
{
    if d == 0 {
        '0'
    } else if d == 1 {
        '1'
    } else if d == 2 {
        '2'
    } else if d == 3 {
        '3'
    } else if d == 4 {
        '4'
    } else if d == 5 {
        '5'
    } else if d == 6 {
        '6'
    } else if d == 7 {
        '7'
    } else if d == 8 {
        '8'
    } else {
        '9'
    }
}

/// The decimal digits of a natural number, most significant first.
pub open spec fn dec_str(n: nat) -> Seq<char>
    decreases n,
{
    if n < 10 {
        seq![digit_char(n as int)]
    } else {
        dec_str(n / 10) + seq![digit_char((n % 10) as int)]
    }
}

/// A one-character string slice for one decimal digit value.
fn digit_str(d: u64) -> (r: &'static str)
    requires
        d < 10,
    ensures
        r@ =~= seq![digit_char(d as int)],
{
    proof {
        reveal_strlit("0");
        reveal_strlit("1");
        reveal_strlit("2");
        reveal_strlit("3");
        reveal_strlit("4");
        reveal_strlit("5");
        reveal_strlit("6");
        reveal_strlit("7");
        reveal_strlit("8");
        reveal_strlit("9");
    }
    match d {
        0 => "0",
        1 => "1",
        2 => "2",
        3 => "3",
        4 => "4",
        5 => "5",
        6 => "6",
        7 => "7",
        8 => "8",
        _ => "9",
    }
}

/// Appends the decimal digits of `n` to `out`.
pub fn append_u64(out: &mut String, n: u64)
    ensures
        final(out)@ == old(out)@ + dec_str(n as nat),
    decreases n,
{
    if n < 10 {
        out.append(digit_str(n));
    } else {
        append_u64(out, n / 10);
        out.append(digit_str(n % 10));
        assert(final(out)@ == old(out)@ + dec_str(n as nat / 10) + seq![
            digit_char((n as nat % 10) as int),
        ]);
        assert(old(out)@ + dec_str(n as nat / 10) + seq![digit_char((n as nat % 10) as int)]
            =~= old(out)@ + dec_str(n as nat));
    }
}

/// The three zero-padded digits of a number below one thousand.
pub open spec fn frac3_str(n: int) -> Seq<char>
    recommends
        0 <= n < 1000,
{
    seq![digit_char(n / 100), digit_char((n / 10) % 10), digit_char(n % 10)]
}

/// The decimal rendering of a fixed-point value held in thousandths:
/// optional minus sign, integer part, a dot, and exactly three
/// fractional digits.
pub open spec fn milli_str(v: int) -> Seq<char> {
    if v < 0 {
        seq!['-'] + milli_str_abs(-v)
    } else {
        milli_str_abs(v)
    }
}

/// The decimal rendering of the magnitude of a fixed-point value.
pub open spec fn milli_str_abs(u: int) -> Seq<char>
    recommends
        0 <= u,
{
    dec_str((u / 1000) as nat) + seq!['.'] + frac3_str(u % 1000)
}

/// Appends the three zero-padded fractional digits of `n`.
fn append_frac3(out: &mut String, n: u64)
    requires
        n < 1000,
    ensures
        final(out)@ == old(out)@ + frac3_str(n as int),
{
    out.append(digit_str(n / 100));
    out.append(digit_str((n / 10) % 10));
    out.append(digit_str(n % 10));
    assert(final(out)@ =~= old(out)@ + frac3_str(n as int));
}

/// Appends the decimal rendering of a fixed-point value in thousandths.
pub fn append_milli(out: &mut String, v: i64)
    requires
        -MAX_ABS_MILLI <= v <= MAX_ABS_MILLI,
    ensures
        final(out)@ == old(out)@ + milli_str(v as int),
{
    proof {
        reveal_strlit("-");
        reveal_strlit(".");
    }
    let u: u64 = if v < 0 {
        out.append("-");
        assert(out@ =~= old(out)@ + seq!['-']);
        (-v) as u64
    } else {
        v as u64
    };
    append_u64(out, u / 1000);
    out.append(".");
    assert(out@ =~= if v < 0 {
        old(out)@ + seq!['-'] + dec_str((u / 1000) as nat) + seq!['.']
    } else {
        old(out)@ + dec_str((u / 1000) as nat) + seq!['.']
    });
    append_frac3(out, u % 1000);
    assert(final(out)@ =~= old(out)@ + milli_str(v as int));
}

/// The value of one decimal digit character; negative for any other
/// character.
pub open spec fn digit_val(c: char) -> int {
    if c == '0' {
        0
    } else if c == '1' {
        1
    } else if c == '2' {
        2
    } else if c == '3' {
        3
    } else if c == '4' {
        4
    } else if c == '5' {
        5
    } else if c == '6' {
        6
    } else if c == '7' {
        7
    } else if c == '8' {
        8
    } else if c == '9' {
        9
    } else {
        -1
    }
}

/// Whether a character is a decimal digit.
pub open spec fn is_digit(c: char) -> bool {
    digit_val(c) >= 0
}

/// The number a digit string stands for, most significant digit first.
pub open spec fn dec_val(s: Seq<char>) -> int
    decreases s.len(),
{
    if s.len() == 0 {
        0
    } else {
        dec_val(s.drop_last()) * 10 + digit_val(s.last())
    }
}

/// Reading a digit character back gives the digit.
pub proof fn lemma_digit_roundtrip(d: int)
    requires
        0 <= d < 10,
    ensures
        digit_val(digit_char(d)) == d,
{
}

/// Every character of a rendered natural number is a digit.
pub proof fn lemma_dec_str_digits(n: nat)
    ensures
        forall|i: int| 0 <= i < dec_str(n).len() ==> is_digit(#[trigger] dec_str(n)[i]),
        dec_str(n).len() >= 1,
    decreases n,
{
    if n >= 10 {
        lemma_dec_str_digits(n / 10);
    }
}

/// Reading a rendered natural number back gives the number.
pub proof fn lemma_dec_roundtrip(n: nat)
    ensures
        dec_val(dec_str(n)) == n,
    decreases n,
{
    if n < 10 {
        assert(dec_str(n).drop_last() =~= Seq::<char>::empty());
        assert(dec_val(Seq::<char>::empty()) == 0);
        assert(dec_str(n).last() == digit_char(n as int));
        lemma_digit_roundtrip(n as int);
    } else {
        lemma_dec_roundtrip(n / 10);
        lemma_digit_roundtrip((n % 10) as int);
        assert(dec_str(n).drop_last() =~= dec_str(n / 10));
        assert(dec_str(n).last() == digit_char((n % 10) as int));
    }
}

/// The number a rendered fixed-point value stands for, in
/// thousandths: an optional minus sign, then the integer digits, a
/// dot, and three fractional digits.
pub open spec fn milli_val(s: Seq<char>) -> int {
    if s.len() > 0 && s[0] == '-' {
        -milli_val_abs(s.subrange(1, s.len() as int))
    } else {
        milli_val_abs(s)
    }
}

/// The magnitude a rendered fixed-point value stands for: everything
/// but the last four characters as the integer part, the last three
/// as thousandths.
pub open spec fn milli_val_abs(s: Seq<char>) -> int {
    dec_val(s.subrange(0, s.len() - 4)) * 1000 + dec_val(s.subrange(s.len() - 3, s.len() as int))
}

/// Reading the three zero-padded fractional digits back gives the
/// fraction.
proof fn lemma_frac3_roundtrip(f: int)
    requires
        0 <= f < 1000,
    ensures
        dec_val(frac3_str(f)) == f,
{
    let s0 = Seq::<char>::empty();
    let s1 = seq![digit_char(f / 100)];
    let s2 = seq![digit_char(f / 100), digit_char((f / 10) % 10)];
    let s3 = frac3_str(f);
    assert(s1.drop_last() =~= s0);
    assert(s2.drop_last() =~= s1);
    assert(s3.drop_last() =~= s2);
    assert(s3.last() == digit_char(f % 10));
    assert(dec_val(s0) == 0);
    assert(dec_val(s1) == digit_val(digit_char(f / 100)));
    assert(dec_val(s2) == dec_val(s1) * 10 + digit_val(digit_char((f / 10) % 10)));
    assert(dec_val(s3) == dec_val(s2) * 10 + digit_val(digit_char(f % 10)));
    lemma_digit_roundtrip(f / 100);
    lemma_digit_roundtrip((f / 10) % 10);
    lemma_digit_roundtrip(f % 10);
    assert(100 * (f / 100) + 10 * ((f / 10) % 10) + f % 10 == f) by (nonlinear_arith)
        requires
            0 <= f < 1000,
    ;
}

/// No character of a rendered fixed-point value is a comma or a
/// closing brace, and reading the rendering back gives the value.
pub proof fn lemma_milli_roundtrip(v: int)
    requires
        -MAX_ABS_MILLI <= v <= MAX_ABS_MILLI,
    ensures
        milli_val(milli_str(v)) == v,
        forall|i: int|
            0 <= i < milli_str(v).len() ==> #[trigger] milli_str(v)[i] != ',' && milli_str(v)[i]
                != '}',
{
    let u = if v < 0 {
        -v
    } else {
        v
    };
    let d = dec_str((u / 1000) as nat);
    let f = frac3_str(u % 1000);
    let a = milli_str_abs(u);
    lemma_dec_str_digits((u / 1000) as nat);
    lemma_dec_roundtrip((u / 1000) as nat);
    lemma_frac3_roundtrip(u % 1000);
    assert(a.len() == d.len() + 4);
    assert(a.subrange(0, a.len() - 4) =~= d);
    assert(a.subrange(a.len() - 3, a.len() as int) =~= f);
    assert(milli_val_abs(a) == (u / 1000) * 1000 + u % 1000);
    assert((u / 1000) * 1000 + u % 1000 == u);
    assert(a[0] == d[0]);
    assert(is_digit(a[0]));
    if v < 0 {
        assert(milli_str(v) =~= seq!['-'] + a);
        assert(milli_str(v)[0] == '-');
        assert((seq!['-'] + a).subrange(1, (seq!['-'] + a).len() as int) =~= a);
    } else {
        assert(milli_str(v) == a);
        assert(a[0] != '-');
    }
    assert(digit_val(',') == -1);
    assert(digit_val('}') == -1);
    assert forall|j: int| 0 <= j < a.len() implies #[trigger] a[j] != ',' && a[j] != '}' by {
        if j < d.len() {
            assert(a[j] == d[j]);
            assert(is_digit(d[j]));
        } else if j == d.len() {
            assert(a[j] == '.');
        } else {
            assert(a[j] == f[j - d.len() - 1]);
            assert(is_digit(f[0]) && is_digit(f[1]) && is_digit(f[2]));
        }
    };
    assert forall|i: int|
        0 <= i < milli_str(v).len() implies #[trigger] milli_str(v)[i] != ',' && milli_str(v)[i]
        != '}' by {
        let s = milli_str(v);
        if v < 0 {
            if i == 0 {
                assert(s[i] == '-');
            } else {
                assert(s[i] == a[i - 1]);
            }
        } else {
            assert(s[i] == a[i]);
        }
    };
}

/// The character for one hexadecimal digit value, lower case.
pub open spec fn hex_char(d: int) -> char
    recommends
        0 <= d < 16,
{
    if d < 10 {
        digit_char(d)
    } else if d == 10 {
        'a'
    } else if d == 11 {
        'b'
    } else if d == 12 {
        'c'
    } else if d == 13 {
        'd'
    } else if d == 14 {
        'e'
    } else {
        'f'
    }
}

/// How one character appears inside a JSON string literal: quotes and
/// backslashes are escaped, control characters become `\u00XX`, and
/// every other character stands as itself.
pub open spec fn escape_char(c: char) -> Seq<char> {
    if c == '"' {
        seq!['\\', '"']
    } else if c == '\\' {
        seq!['\\', '\\']
    } else if (c as u32) < 32 {
        seq!['\\', 'u', '0', '0', hex_char(c as u32 as int / 16), hex_char(c as u32 as int % 16)]
    } else {
        seq![c]
    }
}

/// The body of a JSON string literal for a character sequence.
pub open spec fn escape_seq(s: Seq<char>) -> Seq<char>
    decreases s.len(),
{
    if s.len() == 0 {
        Seq::empty()
    } else {
        escape_char(s[0]) + escape_seq(s.subrange(1, s.len() as int))
    }
}

/// A full JSON string literal, quotes included.
pub open spec fn json_quoted(s: Seq<char>) -> Seq<char> {
    seq!['"'] + escape_seq(s) + seq!['"']
}

/// Escaping a sequence extended by one character escapes the sequence
/// and then the character.
pub proof fn lemma_escape_snoc(s: Seq<char>, c: char)
    ensures
        escape_seq(s.push(c)) == escape_seq(s) + escape_char(c),
    decreases s.len(),
{
    let e = s.push(c);
    if s.len() == 0 {
        assert(e[0] == c);
        assert(e.subrange(1, e.len() as int) =~= Seq::<char>::empty());
        assert(escape_seq(Seq::<char>::empty()) == Seq::<char>::empty());
        assert(escape_seq(e) == escape_char(c) + Seq::<char>::empty());
        assert(escape_char(c) + Seq::<char>::empty() =~= escape_char(c));
        assert(escape_seq(s) + escape_char(c) =~= escape_char(c));
    } else {
        assert(e.subrange(1, e.len() as int) =~= s.subrange(1, s.len() as int).push(c));
        lemma_escape_snoc(s.subrange(1, s.len() as int), c);
        assert(escape_seq(s.push(c)) =~= escape_seq(s) + escape_char(c));
    }
}

/// Relies on `String::push` of std: appends the given character to the
/// end of the string.
#[verifier::external_body]
fn push_char(out: &mut String, c: char)
    ensures
        final(out)@ == old(out)@.push(c),
{
    out.push(c);
}

/// A one-character string slice for one hexadecimal digit value.
fn hex_str(d: u32) -> (r: &'static str)
    requires
        d < 16,
    ensures
        r@ =~= seq![hex_char(d as int)],
{
    proof {
        reveal_strlit("a");
        reveal_strlit("b");
        reveal_strlit("c");
        reveal_strlit("d");
        reveal_strlit("e");
        reveal_strlit("f");
    }
    if d < 10 {
        digit_str(d as u64)
    } else {
        match d {
            10 => "a",
            11 => "b",
            12 => "c",
            13 => "d",
            14 => "e",
            _ => "f",
        }
    }
}

/// Appends the JSON-escaped form of one character.
fn append_escaped_char(out: &mut String, c: char)
    ensures
        final(out)@ == old(out)@ + escape_char(c),
{
    proof {
        reveal_strlit("\\\"");
        reveal_strlit("\\\\");
        reveal_strlit("\\u00");
    }
    if c == '"' {
        out.append("\\\"");
        assert(final(out)@ =~= old(out)@ + escape_char(c));
    } else if c == '\\' {
        out.append("\\\\");
        assert(final(out)@ =~= old(out)@ + escape_char(c));
    } else {
        let code = c as u32;
        if code < 32 {
            out.append("\\u00");
            out.append(hex_str(code / 16));
            out.append(hex_str(code % 16));
            assert(final(out)@ =~= old(out)@ + escape_char(c));
        } else {
            push_char(out, c);
            assert(final(out)@ =~= old(out)@ + escape_char(c));
        }
    }
}

/// Appends the body of the JSON string literal for `s`.
fn append_escaped(out: &mut String, s: &str)
    ensures
        final(out)@ == old(out)@ + escape_seq(s@),
{
    let n = s.unicode_len();
    for i in 0..n
        invariant
            n == s@.len(),
            out@ == old(out)@ + escape_seq(s@.subrange(0, i as int)),
    {
        let c = s.get_char(i);
        proof {
            lemma_escape_snoc(s@.subrange(0, i as int), c);
            assert(s@.subrange(0, i + 1 as int) =~= s@.subrange(0, i as int).push(c));
        }
        append_escaped_char(out, c);
    }
    assert(s@.subrange(0, n as int) =~= s@);
}

/// Appends the full JSON string literal for `s`, quotes included.
pub fn append_json_string(out: &mut String, s: &str)
    ensures
        final(out)@ == old(out)@ + json_quoted(s@),
{
    push_char(out, '"');
    append_escaped(out, s);
    push_char(out, '"');
    assert(final(out)@ =~= old(out)@ + json_quoted(s@));
}

/// The same characters with every dash replaced by an underscore.
pub open spec fn dashes_to_underscores(s: Seq<char>) -> Seq<char> {
    Seq::new(s.len(), |i: int| if s[i] == '-' {
        '_'
    } else {
        s[i]
    })
}

/// Replaces every dash with an underscore.
pub fn dash_to_underscore(s: &str) -> (r: String)
    ensures
        r@ == dashes_to_underscores(s@),
{
    let n = s.unicode_len();
    let mut r = String::new();
    for i in 0..n
        invariant
            n == s@.len(),
            r@ == dashes_to_underscores(s@.subrange(0, i as int)),
    {
        let c = s.get_char(i);
        if c == '-' {
            push_char(&mut r, '_');
        } else {
            push_char(&mut r, c);
        }
        proof {
            assert(r@ =~= dashes_to_underscores(s@.subrange(0, i + 1 as int)));
        }
    }
    proof {
        assert(s@.subrange(0, n as int) =~= s@);
    }
    r
}

/// Renders a reading as a decimal number string.
pub fn measurement_to_string(m: Measurement) -> (s: String)
    requires
        m.valid(),
    ensures
        s@ == milli_str(m.milli as int),
{
    let mut s = String::new();
    append_milli(&mut s, m.milli);
    assert(s@ =~= milli_str(m.milli as int));
    s
}

} // verus!
