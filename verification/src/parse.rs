//! Reading a coordinate from text: two decimal numbers around a separator.
//!
//! The separator is the first `x` of the text; where there is none, the first
//! comma; where there is none either, the first space. Whitespace around each number
//! is dropped. A number is a run of decimal digits, which a single `+` may precede.

use vstd::prelude::*;

use crate::coordinate::Coordinate;

verus! {

/// Why a text is not a number that fits the machine word.
#[derive(Clone, Copy, Debug, PartialEq, Eq, Hash, Structural)]
pub enum NumberError {
    /// The text is empty.
    Empty,
    /// The text holds a character that is no decimal digit, or it is a lone sign.
    InvalidDigit,
    /// The number is too large.
    PosOverflow,
}

/// Errors that can occur when parsing a coordinate from a string.
#[derive(Clone, Copy, Debug, PartialEq, Eq, Hash, Structural)]
pub enum CoordinateParseError {
    /// The string does not contain two numbers for x and y.
    NotTwoNumbers,
    /// The value for the x coordinate is invalid.
    InvalidXValue(NumberError),
    /// The value for the y coordinate is invalid.
    InvalidYValue(NumberError),
}

impl NumberError {
    /// The text that describes each error.
    pub open spec fn spec_message(self) -> Seq<char> {
        match self {
            Self::Empty => "cannot parse integer from empty string"@,
            Self::InvalidDigit => "invalid digit found in string"@,
            Self::PosOverflow => "number too large to fit in target type"@,
        }
    }

    /// Describes the error in words.
    pub fn message(&self) -> (message: &'static str)
        ensures
            message@ == self.spec_message(),
    {
        match self {
            Self::Empty => "cannot parse integer from empty string",
            Self::InvalidDigit => "invalid digit found in string",
            Self::PosOverflow => "number too large to fit in target type",
        }
    }
}

impl CoordinateParseError {
    /// The text that describes each error: for an invalid value, which one it is and
    /// then what is wrong with it.
    pub open spec fn spec_message(self) -> Seq<char> {
        match self {
            Self::NotTwoNumbers => "not two numbers"@,
            Self::InvalidXValue(cause) => "invalid x value: "@ + cause.spec_message(),
            Self::InvalidYValue(cause) => "invalid y value: "@ + cause.spec_message(),
        }
    }

    /// The error of the number that could not be read, if that is what went wrong.
    pub open spec fn spec_cause(self) -> Option<NumberError> {
        match self {
            Self::NotTwoNumbers => None,
            Self::InvalidXValue(cause) => Some(cause),
            Self::InvalidYValue(cause) => Some(cause),
        }
    }

    /// Describes the error in words.
    pub fn message(&self) -> (message: String)
        ensures
            message@ == self.spec_message(),
    {
        match self {
            Self::NotTwoNumbers => String::from_str("not two numbers"),
            Self::InvalidXValue(cause) => String::from_str("invalid x value: ").concat(
                cause.message(),
            ),
            Self::InvalidYValue(cause) => String::from_str("invalid y value: ").concat(
                cause.message(),
            ),
        }
    }

    /// Returns the error of the number that could not be read, if that is what went
    /// wrong.
    pub fn cause(&self) -> (cause: Option<NumberError>)
        ensures
            cause == self.spec_cause(),
    {
        match self {
            Self::NotTwoNumbers => None,
            Self::InvalidXValue(cause) => Some(*cause),
            Self::InvalidYValue(cause) => Some(*cause),
        }
    }
}

impl core::str::FromStr for Coordinate {
    type Err = CoordinateParseError;

    /// Reads a coordinate from a text such as `42x1337`, `0, 0` or `3 4`.
    fn from_str(text: &str) -> (coordinate: Result<Self, Self::Err>)
        ensures
            coordinate == spec_parse_coordinate(text@),
    {
        parse_coordinate(text)
    }
}

/// Whether the character has Unicode's property `White_Space`.
pub open spec fn spec_is_whitespace(c: char) -> bool {
    let code = c as u32;
    ||| 0x09 <= code <= 0x0D
    ||| code == 0x20
    ||| code == 0x85
    ||| code == 0xA0
    ||| code == 0x1680
    ||| 0x2000 <= code <= 0x200A
    ||| code == 0x2028
    ||| code == 0x2029
    ||| code == 0x202F
    ||| code == 0x205F
    ||| code == 0x3000
}

/// The value of a decimal digit.
pub open spec fn spec_digit(c: char) -> Option<nat> {
    let code = c as u32;
    if 0x30 <= code <= 0x39 {
        Some((code - 0x30) as nat)
    } else {
        None
    }
}

/// The text without the whitespace at its start.
pub open spec fn spec_trim_start(text: Seq<char>) -> Seq<char>
    decreases text.len(),
{
    if text.len() > 0 && spec_is_whitespace(text.first()) {
        spec_trim_start(text.drop_first())
    } else {
        text
    }
}

/// The text without the whitespace at its end.
pub open spec fn spec_trim_end(text: Seq<char>) -> Seq<char>
    decreases text.len(),
{
    if text.len() > 0 && spec_is_whitespace(text.last()) {
        spec_trim_end(text.drop_last())
    } else {
        text
    }
}

/// The text without the whitespace around it.
pub open spec fn spec_trim(text: Seq<char>) -> Seq<char> {
    spec_trim_end(spec_trim_start(text))
}

/// The number that the digits continue from `value`, read from left to right. The
/// first character that is no digit, or the first digit with which the number no
/// longer fits the machine word, decides the error.
pub open spec fn spec_parse_digits(digits: Seq<char>, value: nat) -> Result<usize, NumberError>
    decreases digits.len(),
{
    if digits.len() == 0 {
        if value <= usize::MAX {
            Ok(value as usize)
        } else {
            Err(NumberError::PosOverflow)
        }
    } else {
        match spec_digit(digits.first()) {
            None => Err(NumberError::InvalidDigit),
            Some(digit) => if value * 10 + digit > usize::MAX {
                Err(NumberError::PosOverflow)
            } else {
                spec_parse_digits(digits.drop_first(), value * 10 + digit)
            },
        }
    }
}

/// The number that the text denotes.
pub open spec fn spec_parse_number(text: Seq<char>) -> Result<usize, NumberError> {
    if text.len() == 0 {
        Err(NumberError::Empty)
    } else if text.len() == 1 && (text[0] == '+' || text[0] == '-') {
        Err(NumberError::InvalidDigit)
    } else if text[0] == '+' {
        spec_parse_digits(text.drop_first(), 0)
    } else {
        spec_parse_digits(text, 0)
    }
}

/// The position of the first `separator` in the text.
pub open spec fn spec_find(text: Seq<char>, separator: char) -> Option<int> {
    if exists|i: int| 0 <= i < text.len() && text[i] == separator {
        Some(
            choose|i: int|
                0 <= i < text.len() && text[i] == separator && forall|j: int|
                    0 <= j < i ==> text[j] != separator,
        )
    } else {
        None
    }
}

/// The position at which the text is split: at its first `x`, else at its first
/// comma, else at its first space.
pub open spec fn spec_separator(text: Seq<char>) -> Option<int> {
    if spec_find(text, 'x') is Some {
        spec_find(text, 'x')
    } else if spec_find(text, ',') is Some {
        spec_find(text, ',')
    } else {
        spec_find(text, ' ')
    }
}

/// The coordinate that two texts denote, one for each component.
pub open spec fn spec_parse_pair(x: Seq<char>, y: Seq<char>) -> Result<
    Coordinate,
    CoordinateParseError,
> {
    match spec_parse_number(x) {
        Err(cause) => Err(CoordinateParseError::InvalidXValue(cause)),
        Ok(x) => match spec_parse_number(y) {
            Err(cause) => Err(CoordinateParseError::InvalidYValue(cause)),
            Ok(y) => Ok(Coordinate { x, y }),
        },
    }
}

/// The coordinate that the text denotes.
pub open spec fn spec_parse_coordinate(text: Seq<char>) -> Result<Coordinate, CoordinateParseError> {
    match spec_separator(text) {
        None => Err(CoordinateParseError::NotTwoNumbers),
        Some(at) => spec_parse_pair(
            spec_trim(text.subrange(0, at)),
            spec_trim(text.subrange(at + 1, text.len() as int)),
        ),
    }
}

/// Determines whether the character has Unicode's property `White_Space`.
pub fn is_whitespace(c: char) -> (whitespace: bool)
    ensures
        whitespace == spec_is_whitespace(c),
{
    let code: u32 = c as u32;
    (0x09 <= code && code <= 0x0D) || code == 0x20 || code == 0x85 || code == 0xA0 || code
        == 0x1680 || (0x2000 <= code && code <= 0x200A) || code == 0x2028 || code == 0x2029
        || code == 0x202F || code == 0x205F || code == 0x3000
}

/// The characters of a string.
fn characters(text: &str) -> (chars: Vec<char>)
    ensures
        chars@ == text@,
{
    let mut chars: Vec<char> = Vec::new();
    for c in it: text.chars()
        invariant
            chars@ == it.seq().take(it.index() as int),
            it.seq() == text@,
    {
        proof {
            it.seq().lemma_take_succ_push(it.index() as int);
        }
        chars.push(c);
    }
    chars
}

/// Finds the first `separator` among the characters.
fn find(chars: &Vec<char>, separator: char) -> (at: Option<usize>)
    ensures
        match at {
            Some(i) => spec_find(chars@, separator) == Some(i as int),
            None => spec_find(chars@, separator) is None,
        },
        at matches Some(i) ==> i < chars@.len() && chars@[i as int] == separator,
{
    let mut i: usize = 0;
    while i < chars.len()
        invariant
            i <= chars@.len(),
            forall|j: int| 0 <= j < i ==> chars@[j] != separator,
        decreases chars@.len() - i,
    {
        if chars[i] == separator {
            proof {
                lemma_first_is_found(chars@, separator, i as int);
            }
            return Some(i);
        }
        i = i + 1;
    }
    None
}

/// Narrows the range `from..to` of the characters to what is left of it without the
/// whitespace around.
fn trim(chars: &Vec<char>, from: usize, to: usize) -> (bounds: (usize, usize))
    requires
        from <= to <= chars@.len(),
    ensures
        from <= bounds.0 <= bounds.1 <= to,
        chars@.subrange(bounds.0 as int, bounds.1 as int) == spec_trim(
            chars@.subrange(from as int, to as int),
        ),
{
    let mut start: usize = from;
    while start < to && is_whitespace(chars[start])
        invariant
            from <= start <= to <= chars@.len(),
            spec_trim_start(chars@.subrange(from as int, to as int)) == spec_trim_start(
                chars@.subrange(start as int, to as int),
            ),
        decreases to - start,
    {
        assert(chars@.subrange(start as int, to as int).drop_first() =~= chars@.subrange(
            start + 1,
            to as int,
        ));
        start = start + 1;
    }
    let mut end: usize = to;
    while start < end && is_whitespace(chars[end - 1])
        invariant
            start <= end <= to <= chars@.len(),
            spec_trim_end(chars@.subrange(start as int, to as int)) == spec_trim_end(
                chars@.subrange(start as int, end as int),
            ),
        decreases end - start,
    {
        assert(chars@.subrange(start as int, end as int).drop_last() =~= chars@.subrange(
            start as int,
            end - 1,
        ));
        end = end - 1;
    }
    (start, end)
}

/// Reads the digits in the range `from..to` of the characters as a number.
fn parse_digits(chars: &Vec<char>, from: usize, to: usize) -> (number: Result<usize, NumberError>)
    requires
        from <= to <= chars@.len(),
    ensures
        number == spec_parse_digits(chars@.subrange(from as int, to as int), 0),
{
    let mut value: usize = 0;
    let mut i: usize = from;
    while i < to
        invariant
            from <= i <= to <= chars@.len(),
            spec_parse_digits(chars@.subrange(from as int, to as int), 0) == spec_parse_digits(
                chars@.subrange(i as int, to as int),
                value as nat,
            ),
        decreases to - i,
    {
        assert(chars@.subrange(i as int, to as int).drop_first() =~= chars@.subrange(
            i + 1,
            to as int,
        ));
        let code: u32 = chars[i] as u32;
        if code < 0x30 || code > 0x39 {
            return Err(NumberError::InvalidDigit);
        }
        let digit: usize = (code - 0x30) as usize;
        value = match value.checked_mul(10) {
            Some(tens) => match tens.checked_add(digit) {
                Some(sum) => sum,
                None => {
                    return Err(NumberError::PosOverflow);
                },
            },
            None => {
                return Err(NumberError::PosOverflow);
            },
        };
        i = i + 1;
    }
    Ok(value)
}

/// Reads the range `from..to` of the characters as a number.
fn parse_number(chars: &Vec<char>, from: usize, to: usize) -> (number: Result<usize, NumberError>)
    requires
        from <= to <= chars@.len(),
    ensures
        number == spec_parse_number(chars@.subrange(from as int, to as int)),
{
    let ghost text = chars@.subrange(from as int, to as int);
    if from == to {
        return Err(NumberError::Empty);
    }
    let first = chars[from];
    if to - from == 1 && (first == '+' || first == '-') {
        return Err(NumberError::InvalidDigit);
    }
    if first == '+' {
        assert(text.drop_first() =~= chars@.subrange(from + 1, to as int));
        parse_digits(chars, from + 1, to)
    } else {
        parse_digits(chars, from, to)
    }
}

/// Reads a coordinate from the texts of its two components.
pub fn parse_pair(x: &str, y: &str) -> (coordinate: Result<Coordinate, CoordinateParseError>)
    ensures
        coordinate == spec_parse_pair(x@, y@),
{
    let x_chars = characters(x);
    let y_chars = characters(y);
    assert(x_chars@.subrange(0, x_chars@.len() as int) =~= x@);
    assert(y_chars@.subrange(0, y_chars@.len() as int) =~= y@);
    match parse_number(&x_chars, 0, x_chars.len()) {
        Err(cause) => Err(CoordinateParseError::InvalidXValue(cause)),
        Ok(x) => match parse_number(&y_chars, 0, y_chars.len()) {
            Err(cause) => Err(CoordinateParseError::InvalidYValue(cause)),
            Ok(y) => Ok(Coordinate::new(x, y)),
        },
    }
}

/// Reads a coordinate from a text such as `42x1337`, `0, 0` or `3 4`.
pub fn parse_coordinate(text: &str) -> (coordinate: Result<Coordinate, CoordinateParseError>)
    ensures
        coordinate == spec_parse_coordinate(text@),
{
    let chars = characters(text);
    let at = match find(&chars, 'x') {
        Some(at) => at,
        None => match find(&chars, ',') {
            Some(at) => at,
            None => match find(&chars, ' ') {
                Some(at) => at,
                None => {
                    return Err(CoordinateParseError::NotTwoNumbers);
                },
            },
        },
    };
    let (x_from, x_to) = trim(&chars, 0, at);
    let (y_from, y_to) = trim(&chars, at + 1, chars.len());
    match parse_number(&chars, x_from, x_to) {
        Err(cause) => Err(CoordinateParseError::InvalidXValue(cause)),
        Ok(x) => match parse_number(&chars, y_from, y_to) {
            Err(cause) => Err(CoordinateParseError::InvalidYValue(cause)),
            Ok(y) => Ok(Coordinate::new(x, y)),
        },
    }
}

/// A separator that nothing equal precedes is the one that `spec_find` names.
proof fn lemma_first_is_found(text: Seq<char>, separator: char, at: int)
    requires
        0 <= at < text.len(),
        text[at] == separator,
        forall|j: int| 0 <= j < at ==> text[j] != separator,
    ensures
        spec_find(text, separator) == Some(at),
{
    let found = choose|i: int|
        0 <= i < text.len() && text[i] == separator && forall|j: int|
            0 <= j < i ==> text[j] != separator;
    if found < at {
        assert(text[found] != separator);
    } else if at < found {
        assert(text[at] != separator);
    }
}

} // verus!
