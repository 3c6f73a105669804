//! Pieces of text: joining them, and writing an address in hexadecimal.
use vstd::prelude::*;
use vstd::string::StringExecFns;

verus! {

/// A message followed by the reason that was given for it.
pub fn with_reason(message: &str, reason: &str) -> (text: String)
    ensures
        text@ == message@ + reason@,
{
    let mut text: String = message.to_owned();
    text.append(reason);
    text
}

/// The lower case hexadecimal digit for a number below sixteen.
pub open spec fn hex_digit(digit: int) -> char {
    if digit < 10 {
        ('0' as int + digit) as char
    } else {
        ('a' as int + digit - 10) as char
    }
}

/// A number in lower case hexadecimal, without leading zeros.
pub open spec fn hex(number: nat) -> Seq<char>
    decreases number,
{
    if number < 16 {
        seq![hex_digit(number as int)]
    } else {
        hex(number / 16).push(hex_digit((number % 16) as int))
    }
}

/// The text of one hexadecimal digit.
fn hex_digit_text(digit: usize) -> (text: &'static str)
    requires
        digit < 16,
    ensures
        text@ == seq![hex_digit(digit as int)],
{
    proof {
        reveal_strlit("0");
        reveal_strlit("1");
        reveal_strlit("2");
        reveal_strlit("3");
        reveal_strlit("4");
        reveal_strlit("5");
        reveal_strlit("6");
        reveal_strlit("7");
        reveal_strlit("8");
        reveal_strlit("9");
        reveal_strlit("a");
        reveal_strlit("b");
        reveal_strlit("c");
        reveal_strlit("d");
        reveal_strlit("e");
        reveal_strlit("f");
    }
    match digit {
        0 => "0",
        1 => "1",
        2 => "2",
        3 => "3",
        4 => "4",
        5 => "5",
        6 => "6",
        7 => "7",
        8 => "8",
        9 => "9",
        10 => "a",
        11 => "b",
        12 => "c",
        13 => "d",
        14 => "e",
        _ => "f",
    }
}

/// Writes a number in lower case hexadecimal, without a prefix.
pub fn hex_text(number: usize) -> (text: String)
    ensures
        text@ == hex(number as nat),
    decreases number,
{
    if number < 16 {
        hex_digit_text(number).to_owned()
    } else {
        let mut text: String = hex_text(number / 16);
        text.append(hex_digit_text(number % 16));
        assert(text@ =~= hex((number / 16) as nat).push(hex_digit((number % 16) as int)));
        text
    }
}

/// Different numbers have different hexadecimal texts.
pub proof fn lemma_hex_is_injective(a: nat, b: nat)
    requires
        hex(a) == hex(b),
    ensures
        a == b,
    decreases a,
{
    if a < 16 && b < 16 {
        assert(hex(a)[0] == hex_digit(a as int));
        assert(hex(b)[0] == hex_digit(b as int));
    } else if a >= 16 && b >= 16 {
        assert(hex(a).last() == hex_digit((a % 16) as int));
        assert(hex(b).last() == hex_digit((b % 16) as int));
        assert(hex(a).drop_last() =~= hex(a / 16));
        assert(hex(b).drop_last() =~= hex(b / 16));
        lemma_hex_is_injective(a / 16, b / 16);
    } else {
        lemma_hex_is_not_empty(a / 16);
        lemma_hex_is_not_empty(b / 16);
    }
}

proof fn lemma_hex_is_not_empty(number: nat)
    ensures
        hex(number).len() >= 1,
{
}

/// A message with a reason is both of them, one after the other, and nothing else.
pub proof fn law_reason_follows_the_message(message: &str, reason: &str, text: String)
    requires
        call_ensures(with_reason, (message, reason), text),
    ensures
        text@.len() == message@.len() + reason@.len(),
        forall|i: int| 0 <= i < message@.len() ==> text@[i] == message@[i],
        forall|i: int| 0 <= i < reason@.len() ==> text@[message@.len() + i] == #[trigger] reason@[i],
{
}

/// What a lower case hexadecimal digit is worth, and nothing for any other character.
pub open spec fn digit_worth(digit: char) -> Option<nat> {
    if '0' <= digit <= '9' {
        Some((digit as int - '0' as int) as nat)
    } else if 'a' <= digit <= 'f' {
        Some((digit as int - 'a' as int + 10) as nat)
    } else {
        None
    }
}

/// The number that a text of hexadecimal digits stands for, the last digit being the smallest.
pub open spec fn worth(text: Seq<char>) -> nat
    decreases text.len(),
{
    if text.len() == 0 {
        0
    } else {
        16 * worth(text.drop_last()) + digit_worth(text.last())->0
    }
}

/// A text that is made of lower case hexadecimal digits, and begins with a zero only if it has
/// no other digit.
pub open spec fn plain_digits(text: Seq<char>) -> bool {
    &&& text.len() >= 1
    &&& forall|i: int| 0 <= i < text.len() ==> digit_worth(#[trigger] text[i]) is Some
    &&& text[0] == '0' ==> text.len() == 1
}

/// The hexadecimal text of a number stands for that number.
pub proof fn lemma_hex_stands_for_its_number(number: nat)
    ensures
        plain_digits(hex(number)),
        worth(hex(number)) == number,
        hex(number)[0] == '0' ==> number == 0,
    decreases number,
{
    if number < 16 {
        assert(hex(number).drop_last() =~= Seq::empty());
        assert(worth(hex(number).drop_last()) == 0);
    } else {
        lemma_hex_stands_for_its_number(number / 16);
        assert(hex(number).drop_last() =~= hex(number / 16));
        assert(digit_worth(hex(number).last()) == Some(number % 16));
        assert forall|i: int| 0 <= i < hex(number).len() implies digit_worth(
            #[trigger] hex(number)[i],
        ) is Some by {
            if i < hex(number).len() - 1 {
                assert(hex(number)[i] == hex(number / 16)[i]);
            }
        }
        assert(hex(number)[0] == hex(number / 16)[0]);
    }
}

/// Every number is written as the digits that stand for it.
pub proof fn law_hexadecimal_text_stands_for_its_number(number: usize, text: String)
    requires
        call_ensures(hex_text, (number,), text),
    ensures
        plain_digits(text@),
        worth(text@) == number,
{
    lemma_hex_stands_for_its_number(number as nat);
}

} // verus!
