//! Decimal text.
use vstd::prelude::*;

verus! {

/// The character of a decimal digit.
pub open spec fn digit_char(digit: int) -> char {
    (0x30 + digit) as char
}

/// `number` in decimal, without leading zeros.
pub open spec fn decimal_text(number: nat) -> Seq<char>
    decreases number,
{
    if number < 10 {
        seq![digit_char(number as int)]
    } else {
        decimal_text(number / 10).push(digit_char(number as int % 10))
    }
}

/// A decimal digit as text.
fn digit(value: u64) -> (text: &'static str)
    requires
        value < 10,
    ensures
        text@ == seq![digit_char(value as int)],
{
    proof {
        reveal_strlit("0");
        reveal_strlit("1");
        reveal_strlit("2");
        reveal_strlit("3");
        reveal_strlit("4");
        reveal_strlit("5");
        reveal_strlit("6");
        reveal_strlit("7");
        reveal_strlit("8");
        reveal_strlit("9");
    }
    let text = match value {
        0 => "0",
        1 => "1",
        2 => "2",
        3 => "3",
        4 => "4",
        5 => "5",
        6 => "6",
        7 => "7",
        8 => "8",
        _ => "9",
    };
    assert(text@ == seq![digit_char(value as int)]);
    text
}

/// Writes `number` in decimal.
pub fn decimal(number: u64) -> (text: String)
    ensures
        text@ == decimal_text(number as nat),
    decreases number,
{
    if number < 10 {
        digit(number).to_owned()
    } else {
        let mut text = decimal(number / 10);
        text.append(digit(number % 10));
        assert(text@ == decimal_text((number / 10) as nat).push(digit_char(number as int % 10)));
        text
    }
}

/// Joins three pieces of text.
pub fn join(first: &str, second: &str, third: &str) -> (text: String)
    ensures
        text@ == first@ + second@ + third@,
{
    let mut text = first.to_owned();
    text.append(second);
    text.append(third);
    text
}

/// The number that a text of decimal digits stands for.
pub open spec fn number_of(text: Seq<char>) -> nat
    decreases text.len(),
{
    if text.len() == 0 {
        0
    } else {
        (number_of(text.drop_last()) * 10 + (text.last() as int - '0' as int)) as nat
    }
}

/// A number written in decimal reads back as that number. The text holds digits only, and leads
/// with a zero only where it is the number zero.
pub proof fn law_decimal_text_reads_back(number: nat)
    ensures
        ({
            let text = decimal_text(number);
            &&& text.len() > 0
            &&& forall|i: int| 0 <= i < text.len() ==> '0' <= #[trigger] text[i] <= '9'
            &&& number_of(text) == number
            &&& text[0] == '0' ==> number == 0 && text.len() == 1
        }),
    decreases number,
{
    let text = decimal_text(number);
    if number < 10 {
        assert(text.drop_last() == Seq::<char>::empty());
        assert(number_of(text.drop_last()) == 0);
    } else {
        law_decimal_text_reads_back(number / 10);
        assert(text.drop_last() == decimal_text(number / 10));
    }
}

} // verus!
