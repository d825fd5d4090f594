//! The target levels that the command line asks for.

use vstd::prelude::*;
use vstd::string::StrSliceExecFns;
use crate::error::VolumeError;

verus! {

/// The left target where the command line names none.
pub const DEFAULT_LEFT: usize = 100;

/// The right target where the command line names none.
pub const DEFAULT_RIGHT: usize = 86;

/// The levels that the two channels are to be set to.
#[derive(Clone, Copy, Debug, PartialEq, Eq, Structural)]
pub struct Targets {
    pub left: usize,
    pub right: usize,
}

/// True of the ten decimal digits `0` to `9`.
pub open spec fn is_digit(c: char) -> bool {
    '0' as u32 <= c as u32 <= '9' as u32
}

/// The number that a decimal digit stands for.
pub open spec fn digit_value(c: char) -> nat {
    (c as u32 - '0' as u32) as nat
}

/// The number that a string of decimal digits stands for; 0 for none.
pub open spec fn decimal_value(digits: Seq<char>) -> nat
    decreases digits.len(),
{
    if digits.len() == 0 {
        0
    } else {
        10 * decimal_value(digits.drop_last()) + digit_value(digits.last())
    }
}

/// True of a string of one or more decimal digits.
pub open spec fn is_decimal(digits: Seq<char>) -> bool {
    digits.len() > 0 && forall|i: int| 0 <= i < digits.len() ==> is_digit(#[trigger] digits[i])
}

/// The digits of `text`: all of it but one leading `+`.
pub open spec fn unsigned_part(text: Seq<char>) -> Seq<char> {
    if text.len() > 0 && text[0] == '+' {
        text.subrange(1, text.len() as int)
    } else {
        text
    }
}

/// The level that `text` denotes: `text` is one or more decimal digits, a `+`
/// may stand before them, and their number fits a `usize`. Any other text
/// denotes none.
pub open spec fn parsed_level(text: Seq<char>) -> Option<usize> {
    let digits = unsigned_part(text);
    if is_decimal(digits) && decimal_value(digits) <= usize::MAX {
        Some(decimal_value(digits) as usize)
    } else {
        None
    }
}

/// A string of digits stands for no less than any of its beginnings.
proof fn lemma_decimal_value_grows(digits: Seq<char>, n: int)
    requires
        0 <= n <= digits.len(),
    ensures
        decimal_value(digits.subrange(0, n)) <= decimal_value(digits),
    decreases digits.len() - n,
{
    if n == digits.len() {
        assert(digits.subrange(0, n) == digits);
    } else {
        lemma_decimal_value_grows(digits, n + 1);
        let longer = digits.subrange(0, n + 1);
        assert(longer.drop_last() == digits.subrange(0, n));
    }
}

/// Reads `text` as a level.
pub fn parse_level(text: &str) -> (r: Option<usize>)
    ensures
        r == parsed_level(text@),
{
    let n = text.unicode_len();
    if n == 0 {
        return None;
    }
    let start: usize = if text.get_char(0) == '+' {
        1
    } else {
        0
    };
    let ghost digits = unsigned_part(text@);
    if start == n {
        return None;
    }
    let mut value: usize = 0;
    let mut i: usize = start;
    while i < n
        invariant
            start <= i <= n,
            n == text@.len(),
            digits == unsigned_part(text@),
            digits.len() == n - start,
            forall|j: int| 0 <= j < digits.len() ==> digits[j] == text@[start + j],
            forall|j: int| 0 <= j < i - start ==> is_digit(#[trigger] digits[j]),
            value == decimal_value(digits.subrange(0, i - start)),
        decreases n - i,
    {
        let c = text.get_char(i);
        let code = c as u32;
        if code < 48 || code > 57 {
            assert(!is_digit(digits[i - start]));
            return None;
        }
        let d: usize = (code - 48) as usize;
        proof {
            let longer = digits.subrange(0, i - start + 1);
            assert(longer.drop_last() == digits.subrange(0, i - start));
            assert(longer.last() == c);
            assert(decimal_value(longer) == 10 * value + d);
            lemma_decimal_value_grows(digits, i - start + 1);
        }
        if value > (usize::MAX - d) / 10 {
            return None;
        }
        value = value * 10 + d;
        i = i + 1;
    }
    assert(digits.subrange(0, i - start) == digits);
    Some(value)
}

/// The targets that the positional arguments `args` ask for.
///
/// With fewer than two arguments the defaults stand, whatever the one
/// argument says. With two or more, the first is the left target and the
/// second the right; the first of them that denotes no level fails the
/// parse, and further arguments are not looked at.
pub open spec fn parsed_targets(args: Seq<String>) -> Result<Targets, VolumeError> {
    if args.len() < 2 {
        Ok(Targets { left: DEFAULT_LEFT, right: DEFAULT_RIGHT })
    } else {
        match parsed_level(args[0]@) {
            None => Err(VolumeError::ArgumentParseFailure { position: 0 }),
            Some(left) => match parsed_level(args[1]@) {
                None => Err(VolumeError::ArgumentParseFailure { position: 1 }),
                Some(right) => Ok(Targets { left, right }),
            },
        }
    }
}

/// Reads the targets off the positional arguments of the command line (the
/// arguments after the program's name).
pub fn parse_targets(args: &Vec<String>) -> (r: Result<Targets, VolumeError>)
    ensures
        r == parsed_targets(args@),
{
    if args.len() < 2 {
        return Ok(Targets { left: DEFAULT_LEFT, right: DEFAULT_RIGHT });
    }
    let left = match parse_level(args[0].as_str()) {
        None => { return Err(VolumeError::ArgumentParseFailure { position: 0 }); },
        Some(level) => level,
    };
    let right = match parse_level(args[1].as_str()) {
        None => { return Err(VolumeError::ArgumentParseFailure { position: 1 }); },
        Some(level) => level,
    };
    Ok(Targets { left, right })
}

/// A text with a character that is neither a decimal digit nor a `+` in
/// front denotes no level.
pub proof fn lemma_non_digit_is_no_level(text: Seq<char>, i: int)
    requires
        0 <= i < text.len(),
        !is_digit(text[i]),
        !(i == 0 && text[0] == '+'),
    ensures
        parsed_level(text) is None,
{
    let digits = unsigned_part(text);
    if text[0] == '+' {
        assert(digits[i - 1] == text[i]);
    } else {
        assert(digits[i] == text[i]);
    }
}

/// With two arguments or more, a first argument that denotes no level fails
/// the parse, whatever the others are; so does a second one after a first
/// that denotes a level.
pub proof fn lemma_bad_argument_fails(args: Seq<String>)
    requires
        args.len() >= 2,
    ensures
        parsed_level(args[0]@) is None ==> parsed_targets(args) == Err::<Targets, VolumeError>(
            VolumeError::ArgumentParseFailure { position: 0 },
        ),
        parsed_level(args[0]@) is Some && parsed_level(args[1]@) is None ==> parsed_targets(args)
            == Err::<Targets, VolumeError>(VolumeError::ArgumentParseFailure { position: 1 }),
        parsed_targets(args) is Ok <==> parsed_level(args[0]@) is Some && parsed_level(
            args[1]@,
        ) is Some,
{
}

/// With fewer than two arguments the defaults stand.
pub proof fn lemma_defaults_without_two_arguments(args: Seq<String>)
    requires
        args.len() < 2,
    ensures
        parsed_targets(args) == Ok::<Targets, VolumeError>(Targets { left: 100, right: 86 }),
{
}

} // verus!
