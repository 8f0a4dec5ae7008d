//! Decimal notation of integers.

use vstd::prelude::*;

verus! {

/// The character of a decimal digit.
pub open spec fn digit(d: nat) -> char {
    if d == 0 {
        '0'
    } else if d == 1 {
        '1'
    } else if d == 2 {
        '2'
    } else if d == 3 {
        '3'
    } else if d == 4 {
        '4'
    } else if d == 5 {
        '5'
    } else if d == 6 {
        '6'
    } else if d == 7 {
        '7'
    } else if d == 8 {
        '8'
    } else {
        '9'
    }
}

/// The decimal digits of `n`, the first one first, without leading zeros.
pub open spec fn digits(n: nat) -> Seq<char>
    decreases n,
{
    if n < 10 {
        seq![digit(n)]
    } else {
        digits(n / 10).push(digit(n % 10))
    }
}

/// The decimal notation of `n`.
pub open spec fn decimal(n: int) -> Seq<char> {
    if n < 0 {
        "-"@ + digits((-n) as nat)
    } else {
        digits(n as nat)
    }
}

/// The text of a decimal digit.
fn digit_text(d: u64) -> (r: &'static str)
    requires
        d < 10,
    ensures
        r@ == seq![digit(d as nat)],
{
    proof {
        reveal_strlit("0");
        reveal_strlit("1");
        reveal_strlit("2");
        reveal_strlit("3");
        reveal_strlit("4");
        reveal_strlit("5");
        reveal_strlit("6");
        reveal_strlit("7");
        reveal_strlit("8");
        reveal_strlit("9");
    }
    let r = match d {
        0 => "0",
        1 => "1",
        2 => "2",
        3 => "3",
        4 => "4",
        5 => "5",
        6 => "6",
        7 => "7",
        8 => "8",
        _ => "9",
    };
    assert(r@ =~= seq![digit(d as nat)]);
    r
}

/// Adds the digits of `n` at the end of `text`.
fn append_digits(text: &mut String, n: u64)
    ensures
        final(text)@ == old(text)@ + digits(n as nat),
    decreases n,
{
    if n < 10 {
        text.append(digit_text(n));
    } else {
        append_digits(text, n / 10);
        text.append(digit_text(n % 10));
        assert(text@ =~= old(text)@ + digits(n as nat));
    }
}

/// The decimal notation of `n`.
pub fn decimal_text(n: i64) -> (r: String)
    ensures
        r@ == decimal(n as int),
{
    if n < 0 {
        let magnitude: u64 = (-(n + 1)) as u64 + 1;
        let mut text = "-".to_owned();
        append_digits(&mut text, magnitude);
        text
    } else {
        let mut text = String::new();
        append_digits(&mut text, n as u64);
        assert(text@ =~= decimal(n as int));
        text
    }
}

// LAWS
// ================================================================================================

/// Whether `text` is a numeral: decimal digits, of which the first is a zero only where it is the
/// only one.
pub open spec fn is_numeral(text: Seq<char>) -> bool {
    &&& text.len() > 0
    &&& text.len() > 1 ==> text[0] != '0'
    &&& forall|i: int| 0 <= i < text.len() ==> '0' <= #[trigger] text[i] && text[i] <= '9'
}

/// The number that a numeral stands for: each digit counts ten times as much as the one after it.
pub open spec fn number(text: Seq<char>) -> int
    decreases text.len(),
{
    if text.len() == 0 {
        0
    } else {
        10 * number(text.drop_last()) + (text.last() as int - '0' as int)
    }
}

/// The digits of `n` are the numeral of `n`.
proof fn lemma_digits(n: nat)
    ensures
        is_numeral(digits(n)),
        number(digits(n)) == n,
        n > 0 ==> digits(n)[0] != '0',
    decreases n,
{
    let text = digits(n);
    if n < 10 {
        assert(text.drop_last() =~= Seq::empty());
        assert(number(text.drop_last()) == 0);
    } else {
        lemma_digits(n / 10);
        assert(text.drop_last() =~= digits(n / 10));
        assert(text[0] == digits(n / 10)[0]);
        assert(text.last() as int - '0' as int == n % 10);
    }
}

/// The decimal notation of a number is its numeral, and of a negative number that of its opposite
/// behind a minus sign: reading it gives the number back.
pub proof fn law_decimal_reads_back(n: int)
    ensures
        n >= 0 ==> is_numeral(decimal(n)) && number(decimal(n)) == n,
        n < 0 ==> decimal(n).len() > 1 && decimal(n)[0] == '-' && is_numeral(decimal(n).skip(1))
            && number(decimal(n).skip(1)) == -n,
{
    if n < 0 {
        reveal_strlit("-");
        lemma_digits((-n) as nat);
        assert(decimal(n).skip(1) =~= digits((-n) as nat));
    } else {
        lemma_digits(n as nat);
    }
}

/// The text of a number reads back as the number.
pub proof fn law_decimal_text_outcome(n: i64, r: String)
    requires
        call_ensures(decimal_text, (n,), r),
    ensures
        n >= 0 ==> is_numeral(r@) && number(r@) == n,
        n < 0 ==> r@.len() > 1 && r@[0] == '-' && is_numeral(r@.skip(1)) && number(r@.skip(1))
            == -n,
{
    law_decimal_reads_back(n as int);
}

} // verus!
