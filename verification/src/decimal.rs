use vstd::prelude::*;
use vstd::string::StringExecFns;

verus! {

/// The character that writes the digit `d`.
pub open spec fn digit_char(d: int) -> char {
    if d == 0 {
        '0'
    } else if d == 1 {
        '1'
    } else if d == 2 {
        '2'
    } else if d == 3 {
        '3'
    } else if d == 4 {
        '4'
    } else if d == 5 {
        '5'
    } else if d == 6 {
        '6'
    } else if d == 7 {
        '7'
    } else if d == 8 {
        '8'
    } else {
        '9'
    }
}

/// `c` is one of the ten decimal digits.
pub open spec fn is_digit(c: char) -> bool {
    '0' <= c <= '9'
}

/// The digit that `c` writes.
pub open spec fn digit_value(c: char) -> nat {
    (c as int - '0' as int) as nat
}

/// Every character of `s` is a decimal digit.
pub open spec fn all_digits(s: Seq<char>) -> bool {
    forall|i: int| 0 <= i < s.len() ==> is_digit(#[trigger] s[i])
}

/// `n` in decimal, most significant digit first, with no leading zero but for
/// zero itself.
pub open spec fn decimal_digits(n: nat) -> Seq<char>
    decreases n,
{
    if n < 10 {
        seq![digit_char(n as int)]
    } else {
        decimal_digits(n / 10).push(digit_char((n % 10) as int))
    }
}

/// The number that a string of decimal digits writes; leading zeros count for
/// nothing.
pub open spec fn digits_value(s: Seq<char>) -> nat
    decreases s.len(),
{
    if s.len() == 0 {
        0
    } else {
        digits_value(s.drop_last()) * 10 + digit_value(s.last())
    }
}

/// `count` copies of `fill`.
pub open spec fn filler(fill: char, count: nat) -> Seq<char> {
    Seq::new(count, |i: int| fill)
}

/// `s`, with as many copies of `fill` before it as bring it to `width`
/// characters; `s` itself where it is that long already.
pub open spec fn pad_left(s: Seq<char>, width: nat, fill: char) -> Seq<char> {
    if s.len() >= width {
        s
    } else {
        filler(fill, (width - s.len()) as nat) + s
    }
}

/// `v` in decimal, with a minus sign before a negative number.
pub open spec fn signed_decimal(v: int) -> Seq<char> {
    if v < 0 {
        seq!['-'] + decimal_digits((-v) as nat)
    } else {
        decimal_digits(v as nat)
    }
}

/// A number of hundredths, written with its two decimals: 150 is `1.50`, and
/// -5 is `-0.05`.
pub open spec fn hundredths(v: int) -> Seq<char> {
    let magnitude = if v < 0 {
        -v
    } else {
        v
    };
    let sign = if v < 0 {
        seq!['-']
    } else {
        Seq::<char>::empty()
    };
    sign + decimal_digits((magnitude / 100) as nat) + seq!['.'] + pad_left(
        decimal_digits((magnitude % 100) as nat),
        2,
        '0',
    )
}

/// The digits of a number are digits, and they write that number.
pub proof fn lemma_decimal_digits(n: nat)
    ensures
        decimal_digits(n).len() >= 1,
        all_digits(decimal_digits(n)),
        digits_value(decimal_digits(n)) == n,
    decreases n,
{
    if n < 10 {
        let s = decimal_digits(n);
        assert(s.drop_last() =~= Seq::<char>::empty());
        assert(digits_value(s.drop_last()) == 0);
        assert(s.last() == digit_char(n as int));
    } else {
        lemma_decimal_digits(n / 10);
        let head = decimal_digits(n / 10);
        let s = decimal_digits(n);
        assert(s.drop_last() =~= head);
        assert(s.last() == digit_char((n % 10) as int));
    }
}

/// Zeros before a string of digits do not change the number it writes.
pub proof fn lemma_leading_zeros(count: nat, s: Seq<char>)
    ensures
        digits_value(filler('0', count) + s) == digits_value(s),
    decreases s.len(),
{
    let zeros = filler('0', count);
    if s.len() == 0 {
        assert(zeros + s =~= zeros);
        lemma_zeros_value(count);
    } else {
        assert((zeros + s).drop_last() =~= zeros + s.drop_last());
        assert((zeros + s).last() == s.last());
        lemma_leading_zeros(count, s.drop_last());
    }
}

proof fn lemma_zeros_value(count: nat)
    ensures
        digits_value(filler('0', count)) == 0,
    decreases count,
{
    if count > 0 {
        assert(filler('0', count).drop_last() =~= filler('0', (count - 1) as nat));
        lemma_zeros_value((count - 1) as nat);
    }
}

/// A number padded with zeros is a string of digits that still writes it.
pub proof fn lemma_padded_digits(n: nat, width: nat)
    ensures
        pad_left(decimal_digits(n), width, '0').len() >= 1,
        pad_left(decimal_digits(n), width, '0').len() >= width,
        all_digits(pad_left(decimal_digits(n), width, '0')),
        digits_value(pad_left(decimal_digits(n), width, '0')) == n,
{
    lemma_decimal_digits(n);
    let digits = decimal_digits(n);
    if digits.len() < width {
        lemma_leading_zeros((width - digits.len()) as nat, digits);
    }
}

fn digit_str(d: u32) -> (s: &'static str)
    requires
        d < 10,
    ensures
        s@ == seq![digit_char(d as int)],
{
    proof {
        reveal_strlit("0");
        reveal_strlit("1");
        reveal_strlit("2");
        reveal_strlit("3");
        reveal_strlit("4");
        reveal_strlit("5");
        reveal_strlit("6");
        reveal_strlit("7");
        reveal_strlit("8");
        reveal_strlit("9");
    }
    let s: &'static str = if d == 0 {
        "0"
    } else if d == 1 {
        "1"
    } else if d == 2 {
        "2"
    } else if d == 3 {
        "3"
    } else if d == 4 {
        "4"
    } else if d == 5 {
        "5"
    } else if d == 6 {
        "6"
    } else if d == 7 {
        "7"
    } else if d == 8 {
        "8"
    } else {
        "9"
    };
    assert(s@ =~= seq![digit_char(d as int)]);
    s
}

/// Appends `n` in decimal.
pub fn append_decimal(out: &mut String, n: u32)
    ensures
        final(out)@ == old(out)@ + decimal_digits(n as nat),
    decreases n,
{
    if n >= 10 {
        append_decimal(out, n / 10);
    }
    out.append(digit_str(n % 10));
    proof {
        if n >= 10 {
            assert(old(out)@ + decimal_digits((n / 10) as nat) + seq![
                digit_char((n % 10) as int),
            ] =~= old(out)@ + decimal_digits(n as nat));
        }
    }
}

/// How many digits `n` has in decimal.
pub fn decimal_len(n: u32) -> (len: usize)
    ensures
        len == decimal_digits(n as nat).len(),
        1 <= len <= n / 10 + 2,
    decreases n,
{
    if n < 10 {
        1
    } else {
        decimal_len(n / 10) + 1
    }
}

/// Appends `count` copies of the one character of `fill`.
fn append_filler(out: &mut String, fill: &str, count: usize)
    requires
        fill@.len() == 1,
    ensures
        final(out)@ == old(out)@ + filler(fill@[0], count as nat),
{
    let mut done: usize = 0;
    while done < count
        invariant
            done <= count,
            fill@.len() == 1,
            out@ == old(out)@ + filler(fill@[0], done as nat),
        decreases count - done,
    {
        out.append(fill);
        done = done + 1;
        assert(old(out)@ + filler(fill@[0], (done - 1) as nat) + fill@ =~= old(out)@ + filler(
            fill@[0],
            done as nat,
        ));
    }
}

/// Appends `n` in decimal, with zeros before it where it has fewer than
/// `width` digits.
pub fn append_padded(out: &mut String, n: u32, width: usize)
    ensures
        final(out)@ == old(out)@ + pad_left(decimal_digits(n as nat), width as nat, '0'),
{
    proof {
        reveal_strlit("0");
    }
    let len = decimal_len(n);
    if len < width {
        append_filler(out, "0", width - len);
    }
    append_decimal(out, n);
    proof {
        if len < width {
            assert(old(out)@ + filler('0', (width - len) as nat) + decimal_digits(n as nat)
                =~= old(out)@ + pad_left(decimal_digits(n as nat), width as nat, '0'));
        }
    }
}

fn unsigned(v: i32) -> (m: u32)
    ensures
        v >= 0 ==> m == v,
        v < 0 ==> m == -v,
{
    let wide: i64 = v as i64;
    if wide < 0 {
        (-wide) as u32
    } else {
        wide as u32
    }
}

/// Appends `v` in decimal, with spaces before it where it has fewer than
/// `width` characters, the minus sign counted.
pub fn append_signed(out: &mut String, v: i32, width: usize)
    ensures
        final(out)@ == old(out)@ + pad_left(signed_decimal(v as int), width as nat, ' '),
{
    proof {
        reveal_strlit(" ");
        reveal_strlit("-");
    }
    let m = unsigned(v);
    let sign: usize = if v < 0 {
        1
    } else {
        0
    };
    let len = decimal_len(m) + sign;
    if len < width {
        append_filler(out, " ", width - len);
    }
    let ghost padded = out@;
    if v < 0 {
        out.append("-");
    }
    append_decimal(out, m);
    proof {
        assert(out@ =~= padded + signed_decimal(v as int));
        if len < width {
            assert(old(out)@ + filler(' ', (width - len) as nat) + signed_decimal(v as int)
                =~= old(out)@ + pad_left(signed_decimal(v as int), width as nat, ' '));
        }
    }
}

/// Appends `v` hundredths with two decimals, with spaces before it where that
/// has fewer than `width` characters.
pub fn append_hundredths(out: &mut String, v: i32, width: usize)
    ensures
        final(out)@ == old(out)@ + pad_left(hundredths(v as int), width as nat, ' '),
{
    proof {
        reveal_strlit(" ");
        reveal_strlit("-");
        reveal_strlit(".");
    }
    let m = unsigned(v);
    let sign: usize = if v < 0 {
        1
    } else {
        0
    };
    let whole: u32 = m / 100;
    let part: u32 = m % 100;
    let len = sign + decimal_len(whole) + 1 + 2;
    proof {
        assert(decimal_digits(part as nat).len() <= 2) by {
            reveal_with_fuel(decimal_digits, 2);
        }
        assert(hundredths(v as int).len() == len);
    }
    if len < width {
        append_filler(out, " ", width - len);
    }
    let ghost padded = out@;
    if v < 0 {
        out.append("-");
    }
    append_decimal(out, whole);
    out.append(".");
    append_padded(out, part, 2);
    proof {
        assert(out@ =~= padded + hundredths(v as int));
        if len < width {
            assert(old(out)@ + filler(' ', (width - len) as nat) + hundredths(v as int)
                =~= old(out)@ + pad_left(hundredths(v as int), width as nat, ' '));
        }
    }
}

} // verus!
