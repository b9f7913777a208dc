use vstd::prelude::*;
use vstd::string::StringExecFns;

verus! {

/// The character that writes the decimal digit `d` (for `d < 10`).
pub open spec fn digit_char(d: nat) -> char {
    seq!['0', '1', '2', '3', '4', '5', '6', '7', '8', '9'][d as int]
}

/// The base-10 digits of `n`, most significant first, with no leading zero
/// (zero itself is the single digit `0`).
pub open spec fn digits_of(n: nat) -> Seq<char>
    decreases n,
{
    if n < 10 {
        seq![digit_char(n)]
    } else {
        digits_of(n / 10).push(digit_char(n % 10))
    }
}

/// The canonical decimal text of an integer: its digits, preceded by `-`
/// exactly when it is negative.
pub open spec fn decimal_text(n: int) -> Seq<char> {
    if n < 0 {
        seq!['-'] + digits_of((-n) as nat)
    } else {
        digits_of(n as nat)
    }
}

/// The value of a character when it is a decimal digit.
pub open spec fn digit_value(c: char) -> int {
    c as int - '0' as int
}

/// Whether a character is one of `0` to `9`.
pub open spec fn is_digit(c: char) -> bool {
    '0' <= c && c <= '9'
}

/// The number that a sequence of decimal digits reads as.
pub open spec fn value_of_digits(s: Seq<char>) -> int
    decreases s.len(),
{
    if s.len() == 0 {
        0
    } else {
        10 * value_of_digits(s.drop_last()) + digit_value(s.last())
    }
}

/// Each digit character is a decimal digit and reads back as its value.
pub proof fn lemma_digit_char(d: nat)
    requires
        d < 10,
    ensures
        is_digit(digit_char(d)),
        digit_value(digit_char(d)) == d,
{
    let digits = seq!['0', '1', '2', '3', '4', '5', '6', '7', '8', '9'];
    assert(digits[0] == '0' && digits[1] == '1' && digits[2] == '2' && digits[3] == '3'
        && digits[4] == '4' && digits[5] == '5' && digits[6] == '6' && digits[7] == '7'
        && digits[8] == '8' && digits[9] == '9');
}

/// The digits of `n` are decimal digits, read back as `n`, and begin with
/// `0` only when `n` is zero.
pub proof fn lemma_digits_of(n: nat)
    ensures
        digits_of(n).len() >= 1,
        forall|i: int| 0 <= i < digits_of(n).len() ==> #[trigger] is_digit(digits_of(n)[i]),
        value_of_digits(digits_of(n)) == n,
        (digits_of(n)[0] == '0') == (n == 0),
    decreases n,
{
    reveal_with_fuel(digits_of, 2);
    lemma_digit_char(n % 10);
    if n >= 10 {
        lemma_digits_of(n / 10);
        let d = digits_of(n / 10);
        assert(digits_of(n).drop_last() =~= d);
        assert(digits_of(n)[0] == d[0]);
        assert(value_of_digits(digits_of(n)) == 10 * value_of_digits(d) + (n % 10) as int);
    } else {
        assert(digits_of(n).drop_last() =~= Seq::<char>::empty());
        assert(value_of_digits(digits_of(n)) == 10 * value_of_digits(Seq::<char>::empty())
            + digit_value(digit_char(n)));
    }
}

/// Decimal text is canonical: a sign only for negative values, then a
/// non-empty run of digits with no leading zero that reads back as the
/// magnitude of the value.
pub proof fn lemma_decimal_text_canonical(n: int)
    ensures
        decimal_text(n).len() >= 1,
        (decimal_text(n)[0] == '-') == (n < 0),
        ({
            let digits = if n < 0 {
                decimal_text(n).drop_first()
            } else {
                decimal_text(n)
            };
            &&& digits.len() >= 1
            &&& forall|i: int| 0 <= i < digits.len() ==> #[trigger] is_digit(digits[i])
            &&& value_of_digits(digits) == if n < 0 {
                -n
            } else {
                n
            }
            &&& (digits[0] == '0') == (n == 0)
        }),
{
    if n < 0 {
        lemma_digits_of((-n) as nat);
        assert(decimal_text(n).drop_first() =~= digits_of((-n) as nat));
    } else {
        lemma_digits_of(n as nat);
        assert(is_digit(decimal_text(n)[0]));
    }
}

/// Literal text of one decimal digit.
fn digit_str(d: u64) -> (r: &'static str)
    requires
        d < 10,
    ensures
        r@ == seq![digit_char(d as nat)],
{
    proof {
        reveal_strlit("0");
        reveal_strlit("1");
        reveal_strlit("2");
        reveal_strlit("3");
        reveal_strlit("4");
        reveal_strlit("5");
        reveal_strlit("6");
        reveal_strlit("7");
        reveal_strlit("8");
        reveal_strlit("9");
    }
    match d {
        0 => "0",
        1 => "1",
        2 => "2",
        3 => "3",
        4 => "4",
        5 => "5",
        6 => "6",
        7 => "7",
        8 => "8",
        _ => "9",
    }
}

/// Appends the decimal digits of `n` to `out`.
fn append_digits(out: &mut String, n: u64)
    ensures
        final(out)@ == old(out)@ + digits_of(n as nat),
    decreases n,
{
    if n >= 10 {
        append_digits(out, n / 10);
    }
    out.append(digit_str(n % 10));
    proof {
        reveal_with_fuel(digits_of, 2);
        assert(out@ =~= old(out)@ + digits_of(n as nat));
    }
}

/// The canonical base-10 text of `n`: no leading zeros, and a `-` sign only
/// when `n` is negative.
pub fn decimal_string(n: i64) -> (r: String)
    ensures
        r@ == decimal_text(n as int),
{
    let mut out = String::new();
    let magnitude: u64 = if n < 0 {
        proof {
            reveal_strlit("-");
        }
        out.append("-");
        (-(n + 1)) as u64 + 1
    } else {
        n as u64
    };
    append_digits(&mut out, magnitude);
    assert(out@ =~= decimal_text(n as int));
    out
}

} // verus!
