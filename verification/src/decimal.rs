//! Decimal notation of integers.

use vstd::arithmetic::div_mod::lemma_div_denominator;
use vstd::arithmetic::power::{lemma_pow0, lemma_pow_positive, pow};
use vstd::prelude::*;
use vstd::string::StringExecFns;

verus! {

/// A non-empty run of decimal digits.
pub open spec fn is_digits(text: Seq<char>) -> bool {
    text.len() > 0 && forall|i: int| 0 <= i < text.len() ==> '0' <= #[trigger] text[i] <= '9'
}

/// The number that a run of decimal digits denotes.
pub open spec fn digits_value(text: Seq<char>) -> nat
    decreases text.len(),
{
    if text.len() == 0 {
        0
    } else {
        (10 * digits_value(text.drop_last()) + (text.last() as int - '0' as int)) as nat
    }
}

/// The integer that a text denotes: decimal digits behind an optional sign.
pub open spec fn decimal_value(text: Seq<char>) -> Option<int> {
    if is_digits(text) {
        Some(digits_value(text) as int)
    } else if text.len() > 0 && text[0] == '+' && is_digits(text.drop_first()) {
        Some(digits_value(text.drop_first()) as int)
    } else if text.len() > 0 && text[0] == '-' && is_digits(text.drop_first()) {
        Some(-(digits_value(text.drop_first()) as int))
    } else {
        None
    }
}

/// The digit of a number below ten.
pub open spec fn digit_char(digit: nat) -> char {
    ('0' as int + digit) as char
}

/// The shortest decimal notation of a number: no sign, no leading zero.
pub open spec fn decimal_text(number: nat) -> Seq<char>
    decreases number,
{
    if number < 10 {
        seq![digit_char(number)]
    } else {
        decimal_text(number / 10).push(digit_char(number % 10))
    }
}

/// Reading back what was written gives the number: `decimal_value` undoes
/// `decimal_text`.
pub proof fn law_decimal_round_trip(number: nat)
    ensures
        is_digits(decimal_text(number)),
        digits_value(decimal_text(number)) == number,
        decimal_value(decimal_text(number)) == Some(number as int),
    decreases number,
{
    if number < 10 {
        assert(decimal_text(number).drop_last() =~= Seq::<char>::empty());
        assert(digits_value(Seq::<char>::empty()) == 0);
    } else {
        law_decimal_round_trip(number / 10);
        assert(decimal_text(number).drop_last() =~= decimal_text(number / 10));
    }
}

/// The notation is the shortest one: only zero has a leading zero, and zero is one digit.
pub proof fn law_no_leading_zero(number: nat)
    ensures
        decimal_text(number).len() > 0,
        number > 0 ==> decimal_text(number)[0] != '0',
        number == 0 ==> decimal_text(number) == seq!['0'],
    decreases number,
{
    if number >= 10 {
        law_no_leading_zero(number / 10);
        assert(decimal_text(number)[0] == decimal_text(number / 10)[0]);
    }
}

/// The notation is positional: the digit at a place counted from the right is the number
/// divided by that power of ten, modulo ten.
pub proof fn law_digits_have_their_places(number: nat, place: nat)
    requires
        place < decimal_text(number).len(),
    ensures
        decimal_text(number)[decimal_text(number).len() - 1 - place] as int == '0' as int + (number
            / (pow(10, place) as nat)) % 10,
    decreases number,
{
    lemma_pow_positive(10, place);
    let text = decimal_text(number);
    if place == 0 {
        lemma_pow0(10);
        let one = pow(10, place) as nat;
        assert(number / one == number) by (nonlinear_arith)
            requires
                one == 1,
        ;
        assert(text.last() == digit_char(number % 10));
    } else {
        let rest = number / 10;
        let before = (place - 1) as nat;
        assert(text == decimal_text(rest).push(digit_char(number % 10)));
        law_digits_have_their_places(rest, before);
        lemma_pow_positive(10, before);
        lemma_div_denominator(number as int, 10, pow(10, before));
        assert(pow(10, place) == 10 * pow(10, before)) by {
            reveal(pow);
        }
        assert(text[text.len() - 1 - place] == decimal_text(rest)[decimal_text(rest).len() - 1
            - before]);
        assert(rest / (pow(10, before) as nat) == number / (pow(10, place) as nat));
    }
}

/// The value of a run of digits is positional: a single digit counts for itself, and
/// what stands ahead of a run counts ten times over for each digit of the run.
pub proof fn law_digits_value_is_positional(text: Seq<char>, cut: int)
    requires
        0 <= cut <= text.len(),
        forall|i: int| 0 <= i < text.len() ==> '0' <= #[trigger] text[i] <= '9',
    ensures
        text.len() == 0 ==> digits_value(text) == 0,
        text.len() == 1 ==> digits_value(text) == text[0] as int - '0' as int,
        digits_value(text) == digits_value(text.take(cut)) * pow(10, (text.len() - cut) as nat)
            + digits_value(text.skip(cut)),
    decreases text.len(),
{
    if text.len() == 1 {
        assert(digits_value(text.drop_last()) == 0);
    }
    if cut == text.len() {
        assert(text.take(cut) =~= text);
        lemma_pow0(10);
    } else {
        let shorter = text.drop_last();
        law_digits_value_is_positional(shorter, cut);
        let head = digits_value(text.take(cut));
        let tail = digits_value(shorter.skip(cut));
        let power = pow(10, (shorter.len() - cut) as nat);
        assert(shorter.take(cut) =~= text.take(cut));
        assert(text.skip(cut).drop_last() =~= shorter.skip(cut));
        assert(text.skip(cut).last() == text.last());
        assert(pow(10, (text.len() - cut) as nat) == 10 * power) by {
            reveal(pow);
        }
        assert(10 * (head * power + tail) == head * (10 * power) + 10 * tail)
            by (nonlinear_arith);
    }
}

/// What denotes an integer: digits alone denote their value, as they do behind a plus;
/// behind a minus they denote its negative; nothing else denotes any.
pub proof fn law_signs_mean_what_they_say(text: Seq<char>, digits: Seq<char>)
    ensures
        digits.len() > 0 && (forall|i: int|
            0 <= i < digits.len() ==> '0' <= #[trigger] digits[i] <= '9') ==> {
            &&& decimal_value(digits) == Some(digits_value(digits) as int)
            &&& decimal_value(seq!['+'] + digits) == Some(digits_value(digits) as int)
            &&& decimal_value(seq!['-'] + digits) == Some(-(digits_value(digits) as int))
        },
        text.len() == 0 ==> decimal_value(text) is None,
        text.len() == 1 && !('0' <= text[0] <= '9') ==> decimal_value(text) is None,
        text.len() > 0 && text[0] != '+' && text[0] != '-' && !('0' <= text[0] <= '9')
            ==> decimal_value(text) is None,
        (exists|i: int| 1 <= i < text.len() && !('0' <= #[trigger] text[i] <= '9'))
            ==> decimal_value(text) is None,
{
    if is_digits(digits) {
        assert((seq!['+'] + digits).drop_first() =~= digits);
        assert((seq!['-'] + digits).drop_first() =~= digits);
        assert(!is_digits(seq!['+'] + digits)) by {
            assert((seq!['+'] + digits)[0] == '+');
        }
        assert(!is_digits(seq!['-'] + digits)) by {
            assert((seq!['-'] + digits)[0] == '-');
        }
    }
    if exists|i: int| 1 <= i < text.len() && !('0' <= #[trigger] text[i] <= '9') {
        let i = choose|i: int| 1 <= i < text.len() && !('0' <= #[trigger] text[i] <= '9');
        assert(text.drop_first()[i - 1] == text[i]);
    }
}

/// The one-character text of a digit.
fn digit(d: u64) -> (text: &'static str)
    requires
        d < 10,
    ensures
        text@ == seq![digit_char(d as nat)],
{
    proof {
        reveal_strlit("0");
        reveal_strlit("1");
        reveal_strlit("2");
        reveal_strlit("3");
        reveal_strlit("4");
        reveal_strlit("5");
        reveal_strlit("6");
        reveal_strlit("7");
        reveal_strlit("8");
        reveal_strlit("9");
    }
    if d == 0 {
        "0"
    } else if d == 1 {
        "1"
    } else if d == 2 {
        "2"
    } else if d == 3 {
        "3"
    } else if d == 4 {
        "4"
    } else if d == 5 {
        "5"
    } else if d == 6 {
        "6"
    } else if d == 7 {
        "7"
    } else if d == 8 {
        "8"
    } else {
        "9"
    }
}

/// The decimal notation of a number.
pub fn decimal(number: u64) -> (text: String)
    ensures
        text@ == decimal_text(number as nat),
    decreases number,
{
    let last: &'static str = digit(number % 10);
    if number < 10 {
        String::new().concat(last)
    } else {
        decimal(number / 10).concat(last)
    }
}

} // verus!
