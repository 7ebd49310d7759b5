//! Text building blocks: comparison with literals, joining with a separator,
//! and decimal rendering of fixed-point numbers.

use vstd::prelude::*;
use vstd::string::StringExecFns;

verus! {

/// Whether an owned string and a string slice hold the same characters.
pub fn same_text(a: &String, b: &str) -> (r: bool)
    ensures
        r == (a@ == b@),
{
    let other: String = String::from_str(b);
    *a == other
}

/// The character of one decimal digit.
pub open spec fn digit_char(d: int) -> char {
    if d == 0 {
        '0'
    } else if d == 1 {
        '1'
    } else if d == 2 {
        '2'
    } else if d == 3 {
        '3'
    } else if d == 4 {
        '4'
    } else if d == 5 {
        '5'
    } else if d == 6 {
        '6'
    } else if d == 7 {
        '7'
    } else if d == 8 {
        '8'
    } else {
        '9'
    }
}

/// The decimal digits of a natural number, without leading zeros.
pub open spec fn natural_text(n: nat) -> Seq<char>
    decreases n,
{
    if n < 10 {
        seq![digit_char(n as int)]
    } else {
        natural_text(n / 10).push(digit_char((n % 10) as int))
    }
}

/// The digits behind the decimal point for `f` thousandths, `0 < f < 1000`,
/// without trailing zeros.
pub open spec fn fraction_text(f: int) -> Seq<char> {
    if f % 10 != 0 {
        seq![digit_char(f / 100), digit_char((f / 10) % 10), digit_char(f % 10)]
    } else if f % 100 != 0 {
        seq![digit_char(f / 100), digit_char((f / 10) % 10)]
    } else {
        seq![digit_char(f / 100)]
    }
}

/// A count of thousandths written as a decimal number: the whole part, then,
/// unless the rest is zero, a point and the rest without trailing zeros.
pub open spec fn magnitude_text(v: nat) -> Seq<char> {
    if v % 1000 == 0 {
        natural_text(v / 1000)
    } else {
        natural_text(v / 1000) + seq!['.'] + fraction_text((v % 1000) as int)
    }
}

/// A signed count of thousandths written as a decimal number.
pub open spec fn decimal_text(v: int) -> Seq<char> {
    if v < 0 {
        seq!['-'] + magnitude_text((-v) as nat)
    } else {
        magnitude_text(v as nat)
    }
}

/// The parts in order, with the separator between each two neighbours.
pub open spec fn joined(parts: Seq<Seq<char>>, sep: Seq<char>) -> Seq<char>
    decreases parts.len(),
{
    if parts.len() == 0 {
        Seq::<char>::empty()
    } else if parts.len() == 1 {
        parts[0]
    } else {
        joined(parts.drop_last(), sep) + sep + parts.last()
    }
}

/// The views of a sequence of strings.
pub open spec fn texts(parts: Seq<String>) -> Seq<Seq<char>> {
    Seq::new(parts.len(), |i: int| parts[i]@)
}

fn digit_str(d: u64) -> (r: &'static str)
    requires
        d < 10,
    ensures
        r@ == seq![digit_char(d as int)],
{
    proof {
        reveal_strlit("0");
        reveal_strlit("1");
        reveal_strlit("2");
        reveal_strlit("3");
        reveal_strlit("4");
        reveal_strlit("5");
        reveal_strlit("6");
        reveal_strlit("7");
        reveal_strlit("8");
        reveal_strlit("9");
        assert("0"@ =~= seq!['0']);
        assert("1"@ =~= seq!['1']);
        assert("2"@ =~= seq!['2']);
        assert("3"@ =~= seq!['3']);
        assert("4"@ =~= seq!['4']);
        assert("5"@ =~= seq!['5']);
        assert("6"@ =~= seq!['6']);
        assert("7"@ =~= seq!['7']);
        assert("8"@ =~= seq!['8']);
        assert("9"@ =~= seq!['9']);
    }
    if d == 0 {
        "0"
    } else if d == 1 {
        "1"
    } else if d == 2 {
        "2"
    } else if d == 3 {
        "3"
    } else if d == 4 {
        "4"
    } else if d == 5 {
        "5"
    } else if d == 6 {
        "6"
    } else if d == 7 {
        "7"
    } else if d == 8 {
        "8"
    } else {
        "9"
    }
}

/// Appends the decimal digits of `n`.
pub fn push_natural(s: &mut String, n: u64)
    ensures
        final(s)@ == old(s)@ + natural_text(n as nat),
    decreases n,
{
    if n >= 10 {
        push_natural(s, n / 10);
        s.append(digit_str(n % 10));
        assert(final(s)@ =~= old(s)@ + natural_text(n as nat));
    } else {
        s.append(digit_str(n));
    }
}

/// Appends `v` thousandths as a decimal number.
pub fn push_magnitude(s: &mut String, v: u64)
    ensures
        final(s)@ == old(s)@ + magnitude_text(v as nat),
{
    push_natural(s, v / 1000);
    let f: u64 = v % 1000;
    if f != 0 {
        proof {
            reveal_strlit(".");
            assert("."@ =~= seq!['.']);
        }
        s.append(".");
        s.append(digit_str(f / 100));
        if f % 100 != 0 {
            s.append(digit_str((f / 10) % 10));
            if f % 10 != 0 {
                s.append(digit_str(f % 10));
            }
        }
        assert(final(s)@ =~= old(s)@ + magnitude_text(v as nat));
    }
}

/// `v` thousandths as a decimal number: `3000` is `3`, `-1250` is `-1.25`.
pub fn decimal(v: i64) -> (r: String)
    ensures
        r@ == decimal_text(v as int),
{
    let mut s: String = String::new();
    if v < 0 {
        proof {
            reveal_strlit("-");
            assert("-"@ =~= seq!['-']);
        }
        s.append("-");
        let m: u64 = (-(v as i128)) as u64;
        push_magnitude(&mut s, m);
        assert(s@ =~= decimal_text(v as int));
    } else {
        push_magnitude(&mut s, v as u64);
        assert(s@ =~= decimal_text(v as int));
    }
    s
}

/// An unsigned count of thousandths as a decimal number.
pub fn decimal_unsigned(v: u64) -> (r: String)
    ensures
        r@ == magnitude_text(v as nat),
{
    let mut s: String = String::new();
    push_magnitude(&mut s, v);
    assert(s@ =~= magnitude_text(v as nat));
    s
}

/// Joins the parts with the separator between each two neighbours.
pub fn join_with(parts: &Vec<String>, sep: &str) -> (r: String)
    ensures
        r@ == joined(texts(parts@), sep@),
{
    let mut acc: String = String::new();
    let n: usize = parts.len();
    let mut i: usize = 0;
    while i < n
        invariant
            n == parts@.len(),
            0 <= i <= n,
            acc@ == joined(texts(parts@.take(i as int)), sep@),
        decreases n - i,
    {
        let ghost before = texts(parts@.take(i as int));
        let ghost after = texts(parts@.take(i + 1));
        proof {
            assert(after.drop_last() =~= before);
            assert(after.last() == parts@[i as int]@);
        }
        if i > 0 {
            acc.append(sep);
        }
        acc.append(parts[i].as_str());
        proof {
            if i == 0 {
                assert(acc@ =~= after[0]);
            }
        }
        i += 1;
    }
    proof {
        assert(parts@.take(n as int) =~= parts@);
    }
    acc
}

/// The number that a decimal digit stands for.
pub open spec fn digit_value(c: char) -> nat {
    if c == '1' {
        1
    } else if c == '2' {
        2
    } else if c == '3' {
        3
    } else if c == '4' {
        4
    } else if c == '5' {
        5
    } else if c == '6' {
        6
    } else if c == '7' {
        7
    } else if c == '8' {
        8
    } else if c == '9' {
        9
    } else {
        0
    }
}

/// The number that a sequence of decimal digits stands for.
pub open spec fn text_value(s: Seq<char>) -> nat
    decreases s.len(),
{
    if s.len() == 0 {
        0
    } else {
        text_value(s.drop_last()) * 10 + digit_value(s.last())
    }
}

/// The digits written for a number read back as that number, there is at
/// least one of them, and the first is a zero only for zero itself.
pub proof fn law_natural_text_reads_back(n: nat)
    ensures
        text_value(natural_text(n)) == n,
        natural_text(n).len() >= 1,
        n > 0 ==> natural_text(n)[0] != '0',
    decreases n,
{
    if n < 10 {
        let s = seq![digit_char(n as int)];
        assert(s.drop_last() =~= Seq::<char>::empty());
        assert(s.last() == digit_char(n as int));
        assert(text_value(s.drop_last()) == 0);
    } else {
        law_natural_text_reads_back(n / 10);
        let front = natural_text(n / 10);
        let d = digit_char((n % 10) as int);
        assert(front.push(d).drop_last() =~= front);
        assert(front.push(d).last() == d);
        assert(front.push(d)[0] == front[0]);
    }
}

} // verus!
