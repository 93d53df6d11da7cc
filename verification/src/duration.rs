use vstd::prelude::*;
use vstd::slice::slice_subrange;
use vstd::std_specs::iter::IteratorSpec;
use vstd::string::StringExecFns;

verus! {

/// Why a duration such as `90s` or `14d` could not be turned into an instant.
#[derive(Debug, Clone, Copy, PartialEq, Eq, Structural)]
pub enum DurationError {
    /// The text is empty.
    Empty,
    /// The text ends in a character that is no unit.
    UnsupportedUnit(char),
    /// Nothing stands before the unit.
    EmptyNumber,
    /// What stands before the unit is not a decimal number.
    InvalidDigit,
    /// The number is greater than any `i64`.
    TooLarge,
    /// The number is less than any `i64`.
    TooSmall,
    /// The duration in seconds, or the instant it leads to, is beyond `i64`.
    OutOfRange,
}

/// The seconds in one unit: a day, an hour, a minute or a second.
pub open spec fn unit_seconds(unit: char) -> Option<int> {
    if unit == 'd' {
        Some(86400)
    } else if unit == 'h' {
        Some(3600)
    } else if unit == 'm' {
        Some(60)
    } else if unit == 's' {
        Some(1)
    } else {
        None
    }
}

/// The value of a decimal digit.
pub open spec fn digit_value(c: char) -> Option<int> {
    if '0' <= c <= '9' {
        Some(c as int - '0' as int)
    } else {
        None
    }
}

/// `text` without the run of `c` at its end.
pub open spec fn trim_end(text: Seq<char>, c: char) -> Seq<char>
    decreases text.len(),
{
    if text.len() > 0 && text.last() == c {
        trim_end(text.drop_last(), c)
    } else {
        text
    }
}

/// One step of reading a number: the value so far, a digit more.
pub open spec fn shift_in(acc: int, digit: int, negative: bool) -> Result<int, DurationError> {
    let value = if negative {
        acc * 10 - digit
    } else {
        acc * 10 + digit
    };
    if value > i64::MAX {
        Err(DurationError::TooLarge)
    } else if value < i64::MIN {
        Err(DurationError::TooSmall)
    } else {
        Ok(value)
    }
}

/// The number that `digits` spell, read from the left: the first character
/// that is no digit, or that takes the value beyond `i64`, decides the error.
pub open spec fn accumulate(digits: Seq<char>, negative: bool) -> Result<int, DurationError>
    decreases digits.len(),
{
    if digits.len() == 0 {
        Ok(0)
    } else {
        match accumulate(digits.drop_last(), negative) {
            Err(e) => Err(e),
            Ok(acc) => match digit_value(digits.last()) {
                None => Err(DurationError::InvalidDigit),
                Some(digit) => shift_in(acc, digit, negative),
            },
        }
    }
}

/// The `i64` that `text` spells: an optional sign and at least one digit.
pub open spec fn decimal(text: Seq<char>) -> Result<int, DurationError> {
    if text.len() == 0 {
        Err(DurationError::EmptyNumber)
    } else if text.len() == 1 && (text[0] == '+' || text[0] == '-') {
        Err(DurationError::InvalidDigit)
    } else if text[0] == '+' {
        accumulate(text.skip(1), false)
    } else if text[0] == '-' {
        accumulate(text.skip(1), true)
    } else {
        accumulate(text, false)
    }
}

/// `value` where it is an `i64`, and the range error where it is not.
pub open spec fn in_range(value: int) -> Result<int, DurationError> {
    if i64::MIN <= value <= i64::MAX {
        Ok(value)
    } else {
        Err(DurationError::OutOfRange)
    }
}

/// The seconds that a duration stands for. Its last character is the unit;
/// what stands before the unit (and before any repetition of it) is the
/// number of units.
pub open spec fn duration_seconds(text: Seq<char>) -> Result<int, DurationError> {
    if text.len() == 0 {
        Err(DurationError::Empty)
    } else {
        match unit_seconds(text.last()) {
            None => Err(DurationError::UnsupportedUnit(text.last())),
            Some(unit) => match decimal(trim_end(text, text.last())) {
                Err(e) => Err(e),
                Ok(count) => in_range(count * unit),
            },
        }
    }
}

/// The instant that lies the duration `text` after the instant `now`, both
/// in seconds since the epoch.
pub open spec fn instant_after(now: int, text: Seq<char>) -> Result<int, DurationError> {
    match duration_seconds(text) {
        Err(e) => Err(e),
        Ok(seconds) => in_range(now + seconds),
    }
}

/// Whether the executable result `r` is the specified result `expected`.
pub open spec fn gives(r: Result<i64, DurationError>, expected: Result<int, DurationError>) -> bool {
    match r {
        Ok(value) => expected == Ok::<int, DurationError>(value as int),
        Err(e) => expected == Err::<int, DurationError>(e),
    }
}

impl DurationError {
    /// The text of the message for this error.
    pub open spec fn message_spec(&self) -> Seq<char> {
        match self {
            DurationError::Empty => "Empty duration"@,
            DurationError::UnsupportedUnit(unit) => "Unsupported format: "@.push(*unit),
            DurationError::EmptyNumber => "cannot parse integer from empty string"@,
            DurationError::InvalidDigit => "invalid digit found in string"@,
            DurationError::TooLarge => "number too large to fit in target type"@,
            DurationError::TooSmall => "number too small to fit in target type"@,
            DurationError::OutOfRange => "duration out of range"@,
        }
    }

    /// A message for the user.
    pub fn message(&self) -> (text: String)
        ensures
            text@ == self.message_spec(),
    {
        match self {
            DurationError::Empty => String::from_str("Empty duration"),
            DurationError::UnsupportedUnit(unit) => {
                let mut text = String::from_str("Unsupported format: ");
                push_char(&mut text, *unit);
                text
            },
            DurationError::EmptyNumber => String::from_str("cannot parse integer from empty string"),
            DurationError::InvalidDigit => String::from_str("invalid digit found in string"),
            DurationError::TooLarge => String::from_str("number too large to fit in target type"),
            DurationError::TooSmall => String::from_str("number too small to fit in target type"),
            DurationError::OutOfRange => String::from_str("duration out of range"),
        }
    }
}

/// `String::push`: appends one character.
#[verifier::external_body]
fn push_char(text: &mut String, c: char)
    ensures
        final(text)@ == old(text)@.push(c),
{
    text.push(c)
}

/// The characters of `text`, in order.
pub fn chars_of(text: &str) -> (chars: Vec<char>)
    ensures
        chars@ == text@,
{
    broadcast use vstd::string::group_string_axioms;

    let mut chars: Vec<char> = Vec::new();
    let mut rest = text.chars();
    loop
        invariant
            chars@ + rest.remaining() == text@,
            rest.obeys_prophetic_iter_laws(),
            rest.decrease() is Some,
        ensures
            chars@ == text@,
        decreases rest.decrease()->0,
    {
        match rest.next() {
            Some(c) => {
                chars.push(c);
                assert(chars@ + rest.remaining() =~= text@);
            },
            None => {
                assert(chars@ =~= text@);
                break ;
            },
        }
    }
    chars
}

/// Once reading a number has failed, more characters do not mend it.
proof fn lemma_error_stays(digits: Seq<char>, read: int, negative: bool)
    requires
        0 <= read <= digits.len(),
        accumulate(digits.take(read), negative) is Err,
    ensures
        accumulate(digits, negative) == accumulate(digits.take(read), negative),
    decreases digits.len(),
{
    if read == digits.len() {
        assert(digits.take(read) =~= digits);
    } else {
        assert(digits.drop_last().take(read) =~= digits.take(read));
        lemma_error_stays(digits.drop_last(), read, negative);
    }
}

/// Reads the digits of a number from the left.
fn read_digits(digits: &[char], negative: bool) -> (r: Result<i64, DurationError>)
    ensures
        gives(r, accumulate(digits@, negative)),
{
    let mut acc: i64 = 0;
    let mut i: usize = 0;
    assert(digits@.take(0) =~= Seq::<char>::empty());
    while i < digits.len()
        invariant
            i <= digits@.len(),
            accumulate(digits@.take(i as int), negative) == Ok::<int, DurationError>(acc as int),
        decreases digits@.len() - i,
    {
        let c = digits[i];
        proof {
            assert(digits@.take(i + 1).drop_last() =~= digits@.take(i as int));
            assert(digits@.take(i + 1).last() == c);
        }
        if c < '0' || c > '9' {
            proof {
                lemma_error_stays(digits@, i + 1, negative);
            }
            return Err(DurationError::InvalidDigit);
        }
        let digit: i128 = (c as u32 - '0' as u32) as i128;
        let value: i128 = if negative {
            acc as i128 * 10 - digit
        } else {
            acc as i128 * 10 + digit
        };
        if value > i64::MAX as i128 {
            proof {
                lemma_error_stays(digits@, i + 1, negative);
            }
            return Err(DurationError::TooLarge);
        }
        if value < i64::MIN as i128 {
            proof {
                lemma_error_stays(digits@, i + 1, negative);
            }
            return Err(DurationError::TooSmall);
        }
        acc = value as i64;
        i += 1;
    }
    assert(digits@.take(i as int) =~= digits@);
    Ok(acc)
}

/// Reads an `i64` in decimal: an optional sign and at least one digit.
pub fn parse_decimal(text: &[char]) -> (r: Result<i64, DurationError>)
    ensures
        gives(r, decimal(text@)),
{
    if text.len() == 0 {
        return Err(DurationError::EmptyNumber);
    }
    let first = text[0];
    if first == '+' || first == '-' {
        if text.len() == 1 {
            return Err(DurationError::InvalidDigit);
        }
        let digits = slice_subrange(text, 1, text.len());
        assert(digits@ =~= text@.skip(1));
        read_digits(digits, first == '-')
    } else {
        read_digits(text, false)
    }
}

/// The number of characters of `text` that are left when the run of `c` at
/// its end is taken off.
fn trimmed_len(text: &[char], c: char) -> (end: usize)
    ensures
        end <= text@.len(),
        text@.take(end as int) == trim_end(text@, c),
{
    let mut end: usize = text.len();
    assert(text@.take(end as int) =~= text@);
    while end > 0 && text[end - 1] == c
        invariant
            end <= text@.len(),
            trim_end(text@.take(end as int), c) == trim_end(text@, c),
        decreases end,
    {
        assert(text@.take(end as int).drop_last() =~= text@.take(end - 1));
        end -= 1;
    }
    end
}

/// The seconds that the duration `text` stands for.
pub fn parse_duration(text: &str) -> (r: Result<i64, DurationError>)
    ensures
        gives(r, duration_seconds(text@)),
{
    let chars = chars_of(text);
    if chars.len() == 0 {
        return Err(DurationError::Empty);
    }
    let unit = chars[chars.len() - 1];
    let seconds: i64 = if unit == 'd' {
        86400
    } else if unit == 'h' {
        3600
    } else if unit == 'm' {
        60
    } else if unit == 's' {
        1
    } else {
        return Err(DurationError::UnsupportedUnit(unit));
    };
    let end = trimmed_len(chars.as_slice(), unit);
    let number = slice_subrange(chars.as_slice(), 0, end);
    assert(number@ =~= trim_end(text@, unit));
    match parse_decimal(number) {
        Err(e) => Err(e),
        Ok(count) => {
            let total: i128 = count as i128 * seconds as i128;
            if total < i64::MIN as i128 || total > i64::MAX as i128 {
                Err(DurationError::OutOfRange)
            } else {
                Ok(total as i64)
            }
        },
    }
}

/// The instant that lies the duration `text` after the instant `now`.
pub fn timestamp_after(now: i64, text: &str) -> (r: Result<i64, DurationError>)
    ensures
        gives(r, instant_after(now as int, text@)),
{
    match parse_duration(text) {
        Err(e) => Err(e),
        Ok(seconds) => instant_plus(now, seconds),
    }
}

/// The instant that lies `seconds` after the instant `now`, where it is an
/// `i64`.
pub fn instant_plus(now: i64, seconds: i64) -> (r: Result<i64, DurationError>)
    ensures
        gives(r, in_range(now + seconds)),
{
    let instant: i128 = now as i128 + seconds as i128;
    if instant < i64::MIN as i128 || instant > i64::MAX as i128 {
        Err(DurationError::OutOfRange)
    } else {
        Ok(instant as i64)
    }
}

/// `chrono::Local::now` and `DateTime::timestamp`: the seconds since the
/// epoch, by this machine's clock. Nothing is claimed of the value.
#[verifier::external_body]
pub fn current_timestamp_sec() -> (now: i64) {
    chrono::Local::now().timestamp()
}

/// The instant that lies the duration `duration` after the present one.
/// A duration that cannot be read fails as `duration_seconds` says, whatever
/// the time; one that can be read is added to the clock's reading, and fails
/// only where the sum is beyond `i64`. Either way the result is what
/// `instant_after` gives for some reading of the clock.
pub fn parse_str_to_timestamp(duration: &str) -> (r: Result<i64, DurationError>)
    ensures
        duration_seconds(duration@) is Err ==> r is Err && r->Err_0 == duration_seconds(
            duration@,
        )->Err_0,
        duration_seconds(duration@) is Ok ==> r is Ok || r->Err_0 == DurationError::OutOfRange,
        exists|now: int|
            i64::MIN <= now <= i64::MAX && gives(r, #[trigger] instant_after(now, duration@)),
{
    match parse_duration(duration) {
        Err(e) => {
            assert(gives(Err(e), instant_after(0, duration@)));
            Err(e)
        },
        Ok(seconds) => {
            let now = current_timestamp_sec();
            let r = instant_plus(now, seconds);
            assert(gives(r, instant_after(now as int, duration@)));
            r
        },
    }
}

} // verus!
