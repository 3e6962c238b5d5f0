//! Numbers and counters as text.

use vstd::prelude::*;
use vstd::string::StringExecFns;

verus! {

/// The character that stands for a digit below ten.
pub open spec fn digit(d: nat) -> char {
    if d == 0 {
        '0'
    } else if d == 1 {
        '1'
    } else if d == 2 {
        '2'
    } else if d == 3 {
        '3'
    } else if d == 4 {
        '4'
    } else if d == 5 {
        '5'
    } else if d == 6 {
        '6'
    } else if d == 7 {
        '7'
    } else if d == 8 {
        '8'
    } else {
        '9'
    }
}

/// The digit that a character stands for; zero for any other character.
pub open spec fn digit_value(c: char) -> nat {
    if c == '1' {
        1
    } else if c == '2' {
        2
    } else if c == '3' {
        3
    } else if c == '4' {
        4
    } else if c == '5' {
        5
    } else if c == '6' {
        6
    } else if c == '7' {
        7
    } else if c == '8' {
        8
    } else if c == '9' {
        9
    } else {
        0
    }
}

/// Whether a character is one of the ten digits.
pub open spec fn is_digit(c: char) -> bool {
    exists|d: nat| d < 10 && c == #[trigger] digit(d)
}

/// A number in decimal notation, most significant digit first.
pub open spec fn decimal(n: nat) -> Seq<char>
    decreases n,
{
    if n < 10 {
        seq![digit(n)]
    } else {
        decimal(n / 10).push(digit(n % 10))
    }
}

/// The number that a sequence of digits denotes; zero for the empty sequence.
pub open spec fn decimal_value(s: Seq<char>) -> nat
    decreases s.len(),
{
    if s.len() == 0 {
        0
    } else {
        decimal_value(s.drop_last()) * 10 + digit_value(s.last())
    }
}

/// Two numbers with a stroke between them, as in `3/5`.
pub open spec fn fraction(count: nat, total: nat) -> Seq<char> {
    decimal(count) + seq!['/'] + decimal(total)
}

/// A count followed by a caption, as in `2 items`.
pub open spec fn counted(count: nat, caption: Seq<char>) -> Seq<char> {
    decimal(count) + caption
}

/// The text behind a reference, if there is one.
pub open spec fn owned(text: Option<&String>) -> Option<String> {
    match text {
        Some(text) => Some(*text),
        None => None,
    }
}

/// Decimal notation is never empty, holds digits only, and starts with a zero
/// for the number zero alone.
pub proof fn decimal_is_canonical(n: nat)
    ensures
        decimal(n).len() >= 1,
        forall|i: int| 0 <= i < decimal(n).len() ==> is_digit(#[trigger] decimal(n)[i]),
        decimal(n)[0] == '0' <==> n == 0,
    decreases n,
{
    if n < 10 {
        assert(is_digit(decimal(n)[0])) by {
            assert(decimal(n)[0] == digit(n));
        }
    } else {
        decimal_is_canonical(n / 10);
        let head = decimal(n / 10);
        assert forall|i: int| 0 <= i < decimal(n).len() implies is_digit(
            #[trigger] decimal(n)[i],
        ) by {
            if i < head.len() {
                assert(decimal(n)[i] == head[i]);
            } else {
                assert(decimal(n)[i] == digit(n % 10));
            }
        }
        assert(decimal(n)[0] == head[0]);
    }
}

/// Reading a number's decimal notation gives the number back, so two numbers
/// never share a notation.
pub proof fn decimal_is_faithful(n: nat)
    ensures
        decimal_value(decimal(n)) == n,
    decreases n,
{
    if n < 10 {
        assert(decimal(n).drop_last() =~= Seq::<char>::empty());
        assert(decimal_value(decimal(n).drop_last()) == 0);
    } else {
        decimal_is_faithful(n / 10);
        assert(decimal(n).drop_last() =~= decimal(n / 10));
        assert(decimal(n).last() == digit(n % 10));
    }
}

/// Different numbers have different notations.
pub proof fn decimal_is_injective(a: nat, b: nat)
    requires
        decimal(a) == decimal(b),
    ensures
        a == b,
{
    decimal_is_faithful(a);
    decimal_is_faithful(b);
}

/// The one-character text of a digit.
fn digit_str(d: usize) -> (s: &'static str)
    requires
        d < 10,
    ensures
        s@ == seq![digit(d as nat)],
{
    proof {
        reveal_strlit("0");
        reveal_strlit("1");
        reveal_strlit("2");
        reveal_strlit("3");
        reveal_strlit("4");
        reveal_strlit("5");
        reveal_strlit("6");
        reveal_strlit("7");
        reveal_strlit("8");
        reveal_strlit("9");
    }
    let s = if d == 0 {
        "0"
    } else if d == 1 {
        "1"
    } else if d == 2 {
        "2"
    } else if d == 3 {
        "3"
    } else if d == 4 {
        "4"
    } else if d == 5 {
        "5"
    } else if d == 6 {
        "6"
    } else if d == 7 {
        "7"
    } else if d == 8 {
        "8"
    } else {
        "9"
    };
    assert(s@ =~= seq![digit(d as nat)]);
    s
}

/// Appends a number in decimal notation to a text.
pub fn push_decimal(out: &mut String, n: usize)
    ensures
        final(out)@ == old(out)@ + decimal(n as nat),
    decreases n,
{
    if n >= 10 {
        push_decimal(out, n / 10);
    }
    out.append(digit_str(n % 10));
    assert(out@ =~= old(out)@ + decimal(n as nat));
}

/// A number in decimal notation.
pub fn decimal_text(n: usize) -> (out: String)
    ensures
        out@ == decimal(n as nat),
{
    let mut out = String::new();
    push_decimal(&mut out, n);
    assert(out@ =~= decimal(n as nat));
    out
}

/// Two numbers with a stroke between them: how far a sequence of steps has
/// come, or how many of a set of keys must sign.
pub fn fraction_text(count: usize, total: usize) -> (out: String)
    ensures
        out@ == fraction(count as nat, total as nat),
{
    let mut out = String::new();
    push_decimal(&mut out, count);
    proof {
        reveal_strlit("/");
    }
    out.append("/");
    push_decimal(&mut out, total);
    assert(out@ =~= fraction(count as nat, total as nat));
    out
}

/// A count followed by a caption.
pub fn counted_text(count: usize, caption: &str) -> (out: String)
    ensures
        out@ == counted(count as nat, caption@),
{
    let mut out = String::new();
    push_decimal(&mut out, count);
    out.append(caption);
    assert(out@ =~= counted(count as nat, caption@));
    out
}

/// One text after another.
pub fn joined(head: &str, tail: &str) -> (out: String)
    ensures
        out@ == head@ + tail@,
{
    let mut out = String::from_str(head);
    out.append(tail);
    out
}

/// A copy of the text behind a reference, if there is one.
pub fn to_owned_text(text: Option<&String>) -> (copy: Option<String>)
    ensures
        copy == owned(text),
{
    match text {
        Some(text) => Some(text.clone()),
        None => None,
    }
}

} // verus!
