//! Text that the generator writes and reads: decimal numbers, numbers in
//! scientific notation, and the list of candidate names.

use vstd::prelude::*;
use vstd::string::StringExecFns;
use vstd::std_specs::iter::IteratorSpec;

verus! {

/// The character of a decimal digit.
pub open spec fn digit_char(digit: nat) -> char
    recommends
        digit < 10,
{
    if digit == 0 {
        '0'
    } else if digit == 1 {
        '1'
    } else if digit == 2 {
        '2'
    } else if digit == 3 {
        '3'
    } else if digit == 4 {
        '4'
    } else if digit == 5 {
        '5'
    } else if digit == 6 {
        '6'
    } else if digit == 7 {
        '7'
    } else if digit == 8 {
        '8'
    } else {
        '9'
    }
}

/// The decimal notation of a number: no sign, no leading zero but for zero
/// itself.
pub open spec fn decimal_digits(value: nat) -> Seq<char>
    decreases value,
{
    if value < 10 {
        seq![digit_char(value)]
    } else {
        decimal_digits(value / 10).push(digit_char(value % 10))
    }
}

/// A decimal digit as a string of one character.
pub fn digit_str(digit: u8) -> (text: &'static str)
    requires
        digit < 10,
    ensures
        text@ == seq![digit_char(digit as nat)],
{
    proof {
        reveal_strlit("0");
        reveal_strlit("1");
        reveal_strlit("2");
        reveal_strlit("3");
        reveal_strlit("4");
        reveal_strlit("5");
        reveal_strlit("6");
        reveal_strlit("7");
        reveal_strlit("8");
        reveal_strlit("9");
    }
    let text = if digit == 0 {
        "0"
    } else if digit == 1 {
        "1"
    } else if digit == 2 {
        "2"
    } else if digit == 3 {
        "3"
    } else if digit == 4 {
        "4"
    } else if digit == 5 {
        "5"
    } else if digit == 6 {
        "6"
    } else if digit == 7 {
        "7"
    } else if digit == 8 {
        "8"
    } else {
        "9"
    };
    assert(text@ =~= seq![digit_char(digit as nat)]);
    text
}

/// Writes a number in decimal notation.
pub fn decimal_string(value: u128) -> (text: String)
    ensures
        text@ == decimal_digits(value as nat),
    decreases value,
{
    if value < 10 {
        String::from_str(digit_str(value as u8))
    } else {
        let mut text = decimal_string(value / 10);
        text.append(digit_str((value % 10) as u8));
        assert(text@ =~= decimal_digits(value as nat));
        text
    }
}

/// Ten to the power of `exponent`.
pub open spec fn pow10(exponent: nat) -> nat
    decreases exponent,
{
    if exponent == 0 {
        1
    } else {
        10 * pow10((exponent - 1) as nat)
    }
}

/// The power of ten of the first digit of `value`: one less than the number
/// of its digits.
pub open spec fn decimal_exponent(value: nat) -> nat
    decreases value,
{
    if value < 10 {
        0
    } else {
        1 + decimal_exponent(value / 10)
    }
}

/// `value` divided by `unit` and rounded to the nearest number, to the even
/// one where two are equally near.
pub open spec fn round_half_even(value: nat, unit: nat) -> nat {
    let quotient = value / unit;
    let rest = value % unit;
    if 2 * rest > unit || (2 * rest == unit && quotient % 2 == 1) {
        quotient + 1
    } else {
        quotient
    }
}

/// The first four digits of `value` in scientific notation, as a number from
/// 1000 to 9999, with the power of ten of the first of them. Zero gives
/// `(0, 0)`.
pub open spec fn scientific_parts(value: nat) -> (nat, nat) {
    let exponent = decimal_exponent(value);
    if exponent <= 3 {
        (value * pow10((3 - exponent) as nat), exponent)
    } else {
        let rounded = round_half_even(value, pow10((exponent - 3) as nat));
        if rounded == 10_000 {
            (1_000, exponent + 1)
        } else {
            (rounded, exponent)
        }
    }
}

/// A number that is not negative in scientific notation with three digits
/// after the point: `1.235e6` for 1234567.
pub open spec fn scientific_digits(value: nat) -> Seq<char> {
    let (digits, exponent) = scientific_parts(value);
    seq![
        digit_char(digits / 1000),
        '.',
        digit_char(digits / 100 % 10),
        digit_char(digits / 10 % 10),
        digit_char(digits % 10),
        'e',
    ] + decimal_digits(exponent)
}

/// A number in scientific notation with three digits after the point, with a
/// minus sign in front where it is negative.
pub open spec fn scientific_text(value: int) -> Seq<char> {
    if value < 0 {
        seq!['-'] + scientific_digits((-value) as nat)
    } else {
        scientific_digits(value as nat)
    }
}

/// A number lies between the power of ten of its first digit and the next
/// power of ten.
pub proof fn decimal_exponent_bounds(value: nat)
    requires
        value > 0,
    ensures
        pow10(decimal_exponent(value)) <= value < pow10(decimal_exponent(value) + 1),
    decreases value,
{
    reveal_with_fuel(pow10, 2);
    if value >= 10 {
        decimal_exponent_bounds(value / 10);
    }
}

/// Only `decimal_exponent(value)` names a power of ten that `value` reaches
/// while staying under the next one.
pub proof fn decimal_exponent_unique(value: nat, exponent: nat)
    requires
        pow10(exponent) <= value < pow10(exponent + 1),
    ensures
        exponent == decimal_exponent(value),
    decreases exponent,
{
    reveal_with_fuel(pow10, 2);
    if exponent == 0 {
    } else {
        pow10_positive((exponent - 1) as nat);
        decimal_exponent_unique(value / 10, (exponent - 1) as nat);
    }
}

/// A power of ten is positive.
pub proof fn pow10_positive(exponent: nat)
    ensures
        pow10(exponent) > 0,
    decreases exponent,
{
    if exponent > 0 {
        pow10_positive((exponent - 1) as nat);
    }
}

/// The scientific notation of a positive number starts with a digit other
/// than zero, and differs from the number by at most half a unit of its last
/// digit.
pub proof fn scientific_parts_nearest(value: nat)
    requires
        value > 0,
    ensures
        1_000 <= scientific_parts(value).0 <= 9_999,
        scientific_parts(value).1 <= 3 ==> scientific_parts(value).0 == value * pow10(
            (3 - scientific_parts(value).1) as nat,
        ),
        scientific_parts(value).1 > 3 ==> {
            let unit = pow10((scientific_parts(value).1 - 3) as nat);
            let shown = scientific_parts(value).0 * unit;
            2 * (value - shown) <= unit && 2 * (shown - value) <= unit
        },
{
    let exponent = decimal_exponent(value);
    decimal_exponent_bounds(value);
    reveal_with_fuel(pow10, 5);
    if exponent <= 3 {
        let scale = pow10((3 - exponent) as nat);
        assert(value * scale >= 1_000 && value * scale <= 9_999) by (nonlinear_arith)
            requires
                (scale == 1_000 && 1 <= value < 10) || (scale == 100 && 10 <= value < 100) || (
                scale == 10 && 100 <= value < 1_000) || (scale == 1 && 1_000 <= value < 10_000),
        ;
    } else {
        let unit = pow10((exponent - 3) as nat);
        pow10_positive((exponent - 3) as nat);
        assert(pow10(exponent) == 1_000 * unit);
        assert(pow10(exponent + 1) == 10_000 * unit);
        rounding_bounds(value, unit);
        rounding_between(value, unit, 1_000, 10_000);
        let rounded = round_half_even(value, unit);
        if rounded == 10_000 {
            assert(pow10((exponent + 1 - 3) as nat) == 10 * unit);
            assert(1_000 * (10 * unit) == 10_000 * unit) by (nonlinear_arith);
        }
    }
}

/// Rounding `value` to a multiple of `unit` moves it by at most half of
/// `unit`.
pub proof fn rounding_bounds(value: nat, unit: nat)
    requires
        unit > 0,
    ensures
        2 * (value - round_half_even(value, unit) * unit) <= unit,
        2 * (round_half_even(value, unit) * unit - value) <= unit,
{
    let quotient = value / unit;
    let rest = value % unit;
    vstd::arithmetic::div_mod::lemma_fundamental_div_mod(value as int, unit as int);
    vstd::arithmetic::div_mod::lemma_mod_bound(value as int, unit as int);
    assert(value == unit * quotient + rest);
    assert((quotient + 1) * unit == unit * quotient + unit) by (nonlinear_arith);
    assert(quotient * unit == unit * quotient) by (nonlinear_arith);
}

/// Rounding keeps `value` between the multiples of `unit` that enclose it.
pub proof fn rounding_between(value: nat, unit: nat, low: nat, high: nat)
    requires
        unit > 0,
        low * unit <= value < high * unit,
    ensures
        low <= value / unit < high,
        low <= round_half_even(value, unit) <= high,
{
    let quotient = value / unit;
    let rest = value % unit;
    vstd::arithmetic::div_mod::lemma_fundamental_div_mod(value as int, unit as int);
    vstd::arithmetic::div_mod::lemma_mod_bound(value as int, unit as int);
    assert(value == unit * quotient + rest);
    assert(low <= quotient) by (nonlinear_arith)
        requires
            low * unit <= unit * quotient + rest,
            rest < unit,
            unit > 0,
    ;
    assert(quotient < high) by (nonlinear_arith)
        requires
            unit * quotient + rest < high * unit,
            rest >= 0,
            unit > 0,
    ;
}

/// Writes a number that is not negative in scientific notation with three
/// digits after the point.
pub fn scientific(value: u128) -> (text: String)
    ensures
        text@ == scientific_digits(value as nat),
{
    let mut exponent: u128 = 0;
    let mut power: u128 = 1;
    while power <= value / 10
        invariant
            power == pow10(exponent as nat),
            exponent < power,
            power <= value || (value == 0 && exponent == 0),
        decreases value - power,
    {
        power = power * 10;
        exponent = exponent + 1;
    }
    proof {
        reveal_with_fuel(pow10, 5);
        assert(pow10((exponent + 1) as nat) == 10 * power);
        if value > 0 {
            decimal_exponent_unique(value as nat, exponent as nat);
            scientific_parts_nearest(value as nat);
        }
        assert(exponent == decimal_exponent(value as nat));
    }
    let (digits, shown): (u128, u128) = if exponent <= 3 {
        let scale: u128 = if exponent == 0 {
            1_000
        } else if exponent == 1 {
            100
        } else if exponent == 2 {
            10
        } else {
            1
        };
        proof {
            reveal_with_fuel(pow10, 5);
            assert(scale == pow10((3 - exponent) as nat));
        }
        assert(value * scale <= 9_999) by (nonlinear_arith)
            requires
                (scale == 1_000 && value < 10) || (scale == 100 && value < 100) || (scale == 10
                    && value < 1_000) || (scale == 1 && value < 10_000),
        ;
        (value * scale, exponent)
    } else {
        let unit: u128 = power / 1_000;
        proof {
            reveal_with_fuel(pow10, 5);
            pow10_positive((exponent - 3) as nat);
            assert(power == 1_000 * pow10((exponent - 3) as nat));
            assert(unit == pow10((exponent - 3) as nat));
            assert(1_000 * unit <= value < 10_000 * unit);
            rounding_between(value as nat, unit as nat, 1_000, 10_000);
        }
        let quotient: u128 = value / unit;
        let rest: u128 = value % unit;
        let rounded: u128 = if 2 * rest > unit || (2 * rest == unit && quotient % 2 == 1) {
            quotient + 1
        } else {
            quotient
        };
        if rounded == 10_000 {
            (1_000, exponent + 1)
        } else {
            (rounded, exponent)
        }
    };
    assert((digits as nat, shown as nat) == scientific_parts(value as nat));
    proof {
        reveal_strlit(".");
        reveal_strlit("e");
    }
    let mut text = String::from_str(digit_str((digits / 1_000) as u8));
    text.append(".");
    text.append(digit_str((digits / 100 % 10) as u8));
    text.append(digit_str((digits / 10 % 10) as u8));
    text.append(digit_str((digits % 10) as u8));
    text.append("e");
    let tail = decimal_string(shown);
    text.append(tail.as_str());
    assert(text@ =~= scientific_digits(value as nat));
    text
}

/// Writes a number in scientific notation with three digits after the
/// point, with a minus sign in front where it is negative.
pub fn scientific_signed(value: i64) -> (text: String)
    ensures
        text@ == scientific_text(value as int),
{
    if value < 0 {
        proof {
            reveal_strlit("-");
        }
        let mut text = String::from_str("-");
        let digits = scientific((-(value as i128)) as u128);
        text.append(digits.as_str());
        assert(text@ =~= scientific_text(value as int));
        text
    } else {
        scientific(value as u128)
    }
}

/// `String::push` of std: the character is added at the end.
pub assume_specification[ String::push ](text: &mut String, letter: char)
    ensures
        final(text)@ == old(text)@.push(letter),
;

/// The texts of a sequence of strings, one by one.
pub open spec fn texts_of(lines: Seq<String>) -> Seq<Seq<char>> {
    lines.map_values(|line: String| line@)
}

/// What follows the last line break of `text`: the line that is still open
/// at its end.
pub open spec fn open_line(text: Seq<char>) -> Seq<char>
    decreases text.len(),
{
    if text.len() == 0 || text.last() == '\n' {
        Seq::empty()
    } else {
        open_line(text.drop_last()).push(text.last())
    }
}

/// The lines of `text` that a line break ends and that are not empty, in
/// their order.
pub open spec fn closed_lines(text: Seq<char>) -> Seq<Seq<char>>
    decreases text.len(),
{
    if text.len() == 0 {
        Seq::empty()
    } else if text.last() == '\n' && open_line(text.drop_last()).len() > 0 {
        closed_lines(text.drop_last()).push(open_line(text.drop_last()))
    } else {
        closed_lines(text.drop_last())
    }
}

/// The candidate names in the text of a name list: its lines that are not
/// empty, in their order. The last line needs no line break.
pub open spec fn name_candidates(text: Seq<char>) -> Seq<Seq<char>> {
    if open_line(text).len() > 0 {
        closed_lines(text).push(open_line(text))
    } else {
        closed_lines(text)
    }
}

/// The open line holds no line break.
pub proof fn open_line_is_unbroken(text: Seq<char>)
    ensures
        !open_line(text).contains('\n'),
    decreases text.len(),
{
    if text.len() > 0 && text.last() != '\n' {
        open_line_is_unbroken(text.drop_last());
        let before = open_line(text.drop_last());
        assert forall|i: int| 0 <= i < open_line(text).len() implies open_line(text)[i]
            != '\n' by {
            if i < before.len() {
                assert(before.contains(before[i]));
            }
        }
    }
}

/// No candidate name is empty, and none holds a line break.
pub proof fn name_candidates_are_lines(text: Seq<char>)
    ensures
        forall|i: int|
            0 <= i < name_candidates(text).len() ==> (#[trigger] name_candidates(text)[i]).len()
                > 0 && !name_candidates(text)[i].contains('\n'),
{
    closed_lines_are_lines(text);
    open_line_is_unbroken(text);
}

/// No closed line is empty, and none holds a line break.
pub proof fn closed_lines_are_lines(text: Seq<char>)
    ensures
        forall|i: int|
            0 <= i < closed_lines(text).len() ==> (#[trigger] closed_lines(text)[i]).len() > 0
                && !closed_lines(text)[i].contains('\n'),
    decreases text.len(),
{
    if text.len() > 0 {
        let earlier = closed_lines(text.drop_last());
        closed_lines_are_lines(text.drop_last());
        open_line_is_unbroken(text.drop_last());
        assert forall|i: int| 0 <= i < closed_lines(text).len() implies (#[trigger] closed_lines(
            text,
        )[i]).len() > 0 && !closed_lines(text)[i].contains('\n') by {
            if i < earlier.len() {
                assert(closed_lines(text)[i] == earlier[i]);
            }
        }
    }
}

/// Reads a name list: one name to a line, empty lines left out.
pub fn parse_names(text: &str) -> (names: Vec<String>)
    ensures
        texts_of(names@) == name_candidates(text@),
{
    broadcast use vstd::string::axiom_spec_iter, vstd::string::next_postcondition;

    let mut names: Vec<String> = Vec::new();
    let mut line = String::new();
    let mut chars = text.chars();
    let ghost mut seen: Seq<char> = Seq::empty();
    assert(texts_of(names@) =~= closed_lines(seen));
    loop
        invariant
            seen + chars.remaining() == text@,
            texts_of(names@) == closed_lines(seen),
            line@ == open_line(seen),
            chars.decrease() is Some,
        ensures
            seen == text@,
        decreases chars.decrease()->0,
    {
        let ghost before = seen;
        let ghost listed = names@;
        match chars.next() {
            Some(letter) => {
                proof {
                    seen = seen.push(letter);
                    assert(seen.drop_last() =~= before);
                    assert(seen + chars.remaining() =~= text@);
                }
                if letter == '\n' {
                    if !line.as_str().is_empty() {
                        names.push(line);
                        assert(texts_of(names@) =~= texts_of(listed).push(open_line(before)));
                    }
                    line = String::new();
                } else {
                    line.push(letter);
                }
            },
            None => {
                assert(seen =~= text@);
                break ;
            },
        }
    }
    if !line.as_str().is_empty() {
        let ghost listed = names@;
        names.push(line);
        assert(texts_of(names@) =~= texts_of(listed).push(open_line(text@)));
    }
    names
}

} // verus!
