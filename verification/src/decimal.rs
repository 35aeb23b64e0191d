//! Numbers written in decimal digits. A TOML integer ends at `i64::MAX`; a
//! count beyond it is kept in a document as the text of its digits.

use vstd::prelude::*;

verus! {

/// The character for a digit.
pub open spec fn digit_char(digit: nat) -> char {
    if digit == 0 {
        '0'
    } else if digit == 1 {
        '1'
    } else if digit == 2 {
        '2'
    } else if digit == 3 {
        '3'
    } else if digit == 4 {
        '4'
    } else if digit == 5 {
        '5'
    } else if digit == 6 {
        '6'
    } else if digit == 7 {
        '7'
    } else if digit == 8 {
        '8'
    } else {
        '9'
    }
}

/// The digit that a character stands for, if it is one of `0` to `9`.
pub open spec fn digit_of(c: char) -> Option<nat> {
    if c == '0' {
        Some(0)
    } else if c == '1' {
        Some(1)
    } else if c == '2' {
        Some(2)
    } else if c == '3' {
        Some(3)
    } else if c == '4' {
        Some(4)
    } else if c == '5' {
        Some(5)
    } else if c == '6' {
        Some(6)
    } else if c == '7' {
        Some(7)
    } else if c == '8' {
        Some(8)
    } else if c == '9' {
        Some(9)
    } else {
        None
    }
}

/// The decimal digits of a number, without leading zeros.
pub open spec fn decimal(n: nat) -> Seq<char>
    decreases n,
{
    if n < 10 {
        seq![digit_char(n)]
    } else {
        decimal(n / 10).push(digit_char(n % 10))
    }
}

/// Whether a text is made of digits only.
pub open spec fn all_digits(text: Seq<char>) -> bool {
    forall|i: int| 0 <= i < text.len() ==> digit_of(#[trigger] text[i]) is Some
}

/// The number that a text of digits stands for.
pub open spec fn digits_value(text: Seq<char>) -> nat
    decreases text.len(),
{
    if text.len() == 0 {
        0
    } else {
        digits_value(text.drop_last()) * 10 + digit_of(text.last()).unwrap_or(0)
    }
}

/// The count beyond `i64::MAX` that a text stands for, if the text is
/// that count's decimal form.
pub open spec fn large_count(text: Seq<char>) -> Option<u64> {
    let n = digits_value(text);
    if all_digits(text) && i64::MAX < n <= u64::MAX && decimal(n) == text {
        Some(n as u64)
    } else {
        None
    }
}

/// Reading the decimal form of a number gives the number back.
pub proof fn lemma_decimal_reads_back(n: nat)
    ensures
        all_digits(decimal(n)),
        digits_value(decimal(n)) == n,
    decreases n,
{
    let text = decimal(n);
    if n < 10 {
        assert(text.drop_last() =~= Seq::<char>::empty());
        assert(digits_value(text.drop_last()) == 0);
        assert(text.last() == digit_char(n));
    } else {
        lemma_decimal_reads_back(n / 10);
        let front = decimal(n / 10);
        assert(text.drop_last() =~= front);
        assert(text.last() == digit_char(n % 10));
        assert forall|i: int| 0 <= i < text.len() implies digit_of(#[trigger] text[i]) is Some by {
            if i < front.len() {
                assert(text[i] == front[i]);
            }
        }
    }
}

/// A text of digits stands for at least what each of its beginnings
/// stands for.
proof fn lemma_value_grows(text: Seq<char>, length: int)
    requires
        0 <= length <= text.len(),
    ensures
        digits_value(text.take(length)) <= digits_value(text),
    decreases text.len() - length,
{
    if length == text.len() {
        assert(text.take(length) =~= text);
    } else {
        lemma_value_grows(text.drop_last(), length);
        assert(text.drop_last().take(length) =~= text.take(length));
    }
}

fn digit_text(digit: u64) -> (r: &'static str)
    requires
        digit < 10,
    ensures
        r@ == seq![digit_char(digit as nat)],
{
    proof {
        reveal_strlit("0");
        reveal_strlit("1");
        reveal_strlit("2");
        reveal_strlit("3");
        reveal_strlit("4");
        reveal_strlit("5");
        reveal_strlit("6");
        reveal_strlit("7");
        reveal_strlit("8");
        reveal_strlit("9");
    }
    let r = if digit == 0 {
        "0"
    } else if digit == 1 {
        "1"
    } else if digit == 2 {
        "2"
    } else if digit == 3 {
        "3"
    } else if digit == 4 {
        "4"
    } else if digit == 5 {
        "5"
    } else if digit == 6 {
        "6"
    } else if digit == 7 {
        "7"
    } else if digit == 8 {
        "8"
    } else {
        "9"
    };
    assert(r@ =~= seq![digit_char(digit as nat)]);
    r
}

fn digit_value(c: char) -> (r: Option<u64>)
    ensures
        match r {
            Some(d) => digit_of(c) == Some(d as nat),
            None => digit_of(c) is None,
        },
{
    if c == '0' {
        Some(0)
    } else if c == '1' {
        Some(1)
    } else if c == '2' {
        Some(2)
    } else if c == '3' {
        Some(3)
    } else if c == '4' {
        Some(4)
    } else if c == '5' {
        Some(5)
    } else if c == '6' {
        Some(6)
    } else if c == '7' {
        Some(7)
    } else if c == '8' {
        Some(8)
    } else if c == '9' {
        Some(9)
    } else {
        None
    }
}

/// Writes a number in decimal digits.
pub fn to_decimal(n: u64) -> (r: String)
    ensures
        r@ == decimal(n as nat),
    decreases n,
{
    if n < 10 {
        digit_text(n).to_owned()
    } else {
        let mut text = to_decimal(n / 10);
        text.append(digit_text(n % 10));
        assert(text@ =~= decimal(n as nat));
        text
    }
}

/// The number that a text of digits stands for, if the text is made of
/// digits only and the number is a `u64`.
fn read_digits(text: &str) -> (r: Option<u64>)
    ensures
        match r {
            Some(n) => all_digits(text@) && digits_value(text@) == n,
            None => !all_digits(text@) || digits_value(text@) > u64::MAX,
        },
{
    let length = text.unicode_len();
    let mut value: u64 = 0;
    let mut i: usize = 0;
    while i < length
        invariant
            length == text@.len(),
            i <= length,
            all_digits(text@.take(i as int)),
            value == digits_value(text@.take(i as int)),
        decreases length - i,
    {
        let ghost before = text@.take(i as int);
        let ghost next = text@.take(i + 1);
        assert(next.drop_last() =~= before);
        assert(next.last() == text@[i as int]);
        proof {
            lemma_value_grows(text@, i + 1);
        }
        let digit = match digit_value(text.get_char(i)) {
            Some(d) => d,
            None => {
                assert(digit_of(text@[i as int]) is None);
                return None;
            },
        };
        if value > (u64::MAX - digit) / 10 {
            return None;
        }
        value = value * 10 + digit;
        assert forall|j: int| 0 <= j < next.len() implies digit_of(#[trigger] next[j]) is Some by {
            if j < i {
                assert(next[j] == before[j]);
            }
        }
        i += 1;
    }
    assert(text@.take(length as int) =~= text@);
    Some(value)
}

/// Reads a count beyond `i64::MAX` from its decimal form.
pub fn read_large_count(text: &str) -> (r: Option<u64>)
    ensures
        r == large_count(text@),
{
    match read_digits(text) {
        Some(n) => {
            let written = to_decimal(n);
            let given = text.to_owned();
            if n > 0x7fff_ffff_ffff_ffff && written == given {
                Some(n)
            } else {
                None
            }
        },
        None => None,
    }
}

} // verus!
