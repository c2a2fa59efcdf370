//! Text rendering: decimal and hexadecimal numbers and padded columns,
//! stated over `Seq<char>` so that every rendered line has an exact meaning.
use vstd::prelude::*;
use vstd::string::*;

verus! {

/// The digit character for `d` in a base up to 16 (lower-case letters).
pub open spec fn digit_char(d: nat) -> char {
    if d < 10 {
        (d + 48) as char
    } else {
        (d + 87) as char
    }
}

/// Decimal digits of `n`, most significant first, without leading zeros.
pub open spec fn dec_digits(n: nat) -> Seq<char>
    decreases n,
{
    if n < 10 {
        seq![digit_char(n)]
    } else {
        dec_digits(n / 10).push(digit_char(n % 10))
    }
}

/// Lower-case hexadecimal digits of `n`, most significant first.
pub open spec fn hex_digits(n: nat) -> Seq<char>
    decreases n,
{
    if n < 16 {
        seq![digit_char(n)]
    } else {
        hex_digits(n / 16).push(digit_char(n % 16))
    }
}

/// `n` written as `{:#x}` writes it: `0x` and the hexadecimal digits.
pub open spec fn hex(n: nat) -> Seq<char> {
    seq!['0', 'x'] + hex_digits(n)
}

/// `n` written as `{}` writes an unsigned integer.
pub open spec fn dec(n: nat) -> Seq<char> {
    dec_digits(n)
}

/// `i` written as `{}` writes a signed integer: a minus sign for negatives.
pub open spec fn dec_signed(i: int) -> Seq<char> {
    if i < 0 {
        seq!['-'] + dec_digits((-i) as nat)
    } else {
        dec_digits(i as nat)
    }
}

/// `n` blanks.
pub open spec fn spaces(n: nat) -> Seq<char> {
    Seq::new(n, |i: int| ' ')
}

/// `s` left-aligned in a column of width `w` (`{:<w}`): blanks after it.
pub open spec fn pad_right(s: Seq<char>, w: nat) -> Seq<char> {
    if s.len() < w {
        s + spaces((w - s.len()) as nat)
    } else {
        s
    }
}

/// `s` right-aligned in a column of width `w` (`{:>w}`): blanks before it.
pub open spec fn pad_left(s: Seq<char>, w: nat) -> Seq<char> {
    if s.len() < w {
        spaces((w - s.len()) as nat) + s
    } else {
        s
    }
}

/// Appends one character to a string.
///
/// Trusted: `String::push` appends the character at the end of the string,
/// as std documents it.
#[verifier::external_body]
fn push_char(out: &mut String, c: char)
    ensures
        final(out)@ == old(out)@.push(c),
{
    out.push(c);
}

fn digit(d: usize) -> (c: char)
    requires
        d < 16,
    ensures
        c == digit_char(d as nat),
{
    let b: u8 = d as u8;
    if d < 10 {
        (b + 48) as char
    } else {
        (b + 87) as char
    }
}

/// Appends the decimal digits of `n`.
pub fn append_dec(out: &mut String, n: usize)
    ensures
        final(out)@ == old(out)@ + dec(n as nat),
    decreases n,
{
    if n >= 10 {
        append_dec(out, n / 10);
    }
    push_char(out, digit(n % 10));
    assert(old(out)@ + dec(n as nat) =~= final(out)@);
}

fn append_hex_digits(out: &mut String, n: usize)
    ensures
        final(out)@ == old(out)@ + hex_digits(n as nat),
    decreases n,
{
    if n >= 16 {
        append_hex_digits(out, n / 16);
    }
    push_char(out, digit(n % 16));
    assert(old(out)@ + hex_digits(n as nat) =~= final(out)@);
}

/// Appends `n` as `{:#x}` writes it.
pub fn append_hex(out: &mut String, n: usize)
    ensures
        final(out)@ == old(out)@ + hex(n as nat),
{
    push_char(out, '0');
    push_char(out, 'x');
    append_hex_digits(out, n);
    assert(old(out)@ + hex(n as nat) =~= final(out)@);
}

/// Appends `i` as `{}` writes a signed integer.
pub fn append_signed(out: &mut String, i: isize)
    ensures
        final(out)@ == old(out)@ + dec_signed(i as int),
{
    if i < 0 {
        let m: usize = ((-(i + 1)) as usize) + 1;
        push_char(out, '-');
        append_dec(out, m);
        assert(old(out)@ + dec_signed(i as int) =~= final(out)@);
    } else {
        append_dec(out, i as usize);
    }
}

/// Appends `n` blanks.
pub fn append_spaces(out: &mut String, n: usize)
    ensures
        final(out)@ == old(out)@ + spaces(n as nat),
{
    let mut k: usize = 0;
    while k < n
        invariant
            k <= n,
            out@ == old(out)@ + spaces(k as nat),
        decreases n - k,
    {
        push_char(out, ' ');
        k = k + 1;
        assert(out@ =~= old(out)@ + spaces(k as nat));
    }
}

/// Appends `s` left-aligned in a column of width `w`.
pub fn append_padded_right(out: &mut String, s: &str, w: usize)
    ensures
        final(out)@ == old(out)@ + pad_right(s@, w as nat),
{
    let len = s.unicode_len();
    out.append(s);
    if len < w {
        append_spaces(out, w - len);
    }
    assert(old(out)@ + pad_right(s@, w as nat) =~= final(out)@);
}

/// Appends `s` right-aligned in a column of width `w`.
pub fn append_padded_left(out: &mut String, s: &str, w: usize)
    ensures
        final(out)@ == old(out)@ + pad_left(s@, w as nat),
{
    let len = s.unicode_len();
    if len < w {
        append_spaces(out, w - len);
    }
    out.append(s);
    assert(old(out)@ + pad_left(s@, w as nat) =~= final(out)@);
}

/// The decimal text of `n`.
pub fn dec_string(n: usize) -> (s: String)
    ensures
        s@ == dec(n as nat),
{
    let mut s = String::new();
    append_dec(&mut s, n);
    assert(s@ =~= dec(n as nat));
    s
}

/// The text of a sequence of printed lines.
pub open spec fn text(lines: Seq<String>) -> Seq<Seq<char>> {
    lines.map_values(|l: String| l@)
}

/// Adds one line at the end.
pub fn push_line(out: &mut Vec<String>, line: String)
    ensures
        text(final(out)@) == text(old(out)@).push(line@),
{
    out.push(line);
    assert(text(final(out)@) =~= text(old(out)@).push(line@));
}

/// Adds lines at the end, in order.
pub fn append_lines(out: &mut Vec<String>, more: Vec<String>)
    ensures
        text(final(out)@) == text(old(out)@) + text(more@),
{
    let mut more = more;
    let ghost m = more@;
    let mut i: usize = 0;
    let mut rest: Vec<String> = Vec::new();
    std::mem::swap(&mut rest, &mut more);
    let n = rest.len();
    while i < n
        invariant
            n == rest@.len(),
            rest@ == m,
            i <= n,
            text(out@) == text(old(out)@) + text(m.take(i as int)),
        decreases n - i,
    {
        let line = rest[i].clone();
        push_line(out, line);
        i = i + 1;
        assert(text(m.take(i as int)) =~= text(m.take(i - 1)).push(m[i - 1]@));
        assert(text(out@) =~= text(old(out)@) + text(m.take(i as int)));
    }
    assert(m.take(n as int) =~= m);
}

/// A line made of a literal and a second piece of text.
pub fn cat(a: &str, b: &str) -> (s: String)
    ensures
        s@ == a@ + b@,
{
    let mut s = String::from_str(a);
    s.append(b);
    s
}

/// A line made of a literal and a decimal number.
pub fn cat_dec(a: &str, n: usize) -> (s: String)
    ensures
        s@ == a@ + dec(n as nat),
{
    let mut s = String::from_str(a);
    append_dec(&mut s, n);
    s
}

/// A line made of a literal and a hexadecimal number.
pub fn cat_hex(a: &str, n: usize) -> (s: String)
    ensures
        s@ == a@ + hex(n as nat),
{
    let mut s = String::from_str(a);
    append_hex(&mut s, n);
    s
}

/// Appends `n` in decimal, left-aligned in a column of width `w` (`{:<w}`).
pub fn append_dec_left_aligned(out: &mut String, n: usize, w: usize)
    ensures
        final(out)@ == old(out)@ + pad_right(dec(n as nat), w as nat),
{
    let d = dec_string(n);
    append_padded_right(out, d.as_str(), w);
}

/// Appends `n` in decimal, right-aligned in a column of width `w` (`{:>w}`).
pub fn append_dec_right_aligned(out: &mut String, n: usize, w: usize)
    ensures
        final(out)@ == old(out)@ + pad_left(dec(n as nat), w as nat),
{
    let d = dec_string(n);
    append_padded_left(out, d.as_str(), w);
}

/// The number of bytes that UTF-8 takes for `c`.
pub open spec fn utf8_len(c: char) -> nat {
    if (c as u32) < 0x80 {
        1
    } else if (c as u32) < 0x800 {
        2
    } else if (c as u32) < 0x10000 {
        3
    } else {
        4
    }
}

/// The longest prefix of `s` whose UTF-8 encoding takes at most `n` bytes.
pub open spec fn take_bytes(s: Seq<char>, n: int) -> Seq<char>
    decreases s.len(),
{
    if s.len() == 0 || utf8_len(s[0]) > n {
        Seq::empty()
    } else {
        seq![s[0]] + take_bytes(s.drop_first(), n - utf8_len(s[0]))
    }
}

fn utf8_width(c: char) -> (w: usize)
    ensures
        w == utf8_len(c),
{
    let u = c as u32;
    if u < 0x80 {
        1
    } else if u < 0x800 {
        2
    } else if u < 0x10000 {
        3
    } else {
        4
    }
}

/// The longest prefix of `s` that fits in `n` bytes of UTF-8.
pub fn truncate_bytes(s: &str, n: usize) -> (t: String)
    ensures
        t@ == take_bytes(s@, n as int),
{
    let len = s.unicode_len();
    let mut out = String::new();
    let mut budget: usize = n;
    let mut i: usize = 0;
    let mut done = false;
    assert(s@.skip(0) =~= s@);
    assert(out@ + take_bytes(s@.skip(0), n as int) =~= take_bytes(s@, n as int));
    while i < len && !done
        invariant
            len == s@.len(),
            i <= len,
            out@ + (if done { Seq::empty() } else { take_bytes(s@.skip(i as int), budget as int) })
                == take_bytes(s@, n as int),
        decreases len - i + (if done { 0int } else { 1int }),
    {
        let c = s.get_char(i);
        let w = utf8_width(c);
        assert(s@.skip(i as int)[0] == c);
        assert(s@.skip(i as int).drop_first() =~= s@.skip(i + 1));
        if w > budget {
            done = true;
            assert(out@ + Seq::<char>::empty() =~= out@);
        } else {
            push_char(&mut out, c);
            budget = budget - w;
            i = i + 1;
            assert(out@ + take_bytes(s@.skip(i as int), budget as int) =~= take_bytes(s@, n as int));
        }
    }
    if !done {
        assert(s@.skip(i as int).len() == 0);
        assert(out@ =~= take_bytes(s@, n as int));
    }
    out
}

} // verus!
