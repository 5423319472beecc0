//! The `Retry-After` header: a delay in seconds, or an HTTP-date in the
//! IMF-fixdate form `Sun, 06 Nov 1994 08:49:37 GMT` or the obsolete asctime
//! form `Sun Nov  6 08:49:37 1994`.
use vstd::prelude::*;

verus! {

/// The ASCII byte of the digit `0`.
pub const DIGIT_ZERO: u8 = 48;

/// The ASCII byte of the digit `9`.
pub const DIGIT_NINE: u8 = 57;

/// An instant written as an HTTP-date, always in GMT.
#[derive(Debug, Clone, Copy, PartialEq, Eq, Structural)]
pub struct HttpDate {
    pub year: u16,
    pub month: u8,
    pub day: u8,
    pub hour: u8,
    pub minute: u8,
    pub second: u8,
}

/// When the provider asks the caller to retry.
#[derive(Debug, Clone, Copy, PartialEq, Eq, Structural)]
pub enum RetryAfter {
    /// A delay, in seconds.
    Delay(u64),
    /// An absolute instant.
    DateTime(HttpDate),
}

pub open spec fn is_leap_year(year: int) -> bool {
    year % 4 == 0 && (year % 100 != 0 || year % 400 == 0)
}

/// The number of days of `month` (1 to 12) in `year`.
pub open spec fn days_in_month(year: int, month: int) -> int {
    if month == 2 {
        if is_leap_year(year) { 29 } else { 28 }
    } else if month == 4 || month == 6 || month == 9 || month == 11 {
        30
    } else {
        31
    }
}

impl HttpDate {
    /// A real calendar date and time of day; a second of 60 is a leap second.
    pub open spec fn wf(self) -> bool {
        &&& self.year <= 9999
        &&& 1 <= self.month <= 12
        &&& 1 <= self.day <= days_in_month(self.year as int, self.month as int)
        &&& self.hour <= 23
        &&& self.minute <= 59
        &&& self.second <= 60
    }
}

pub open spec fn is_digit(b: u8) -> bool {
    DIGIT_ZERO <= b <= DIGIT_NINE
}

pub open spec fn all_digits(s: Seq<u8>) -> bool {
    forall|i: int| 0 <= i < s.len() ==> is_digit(#[trigger] s[i])
}

/// The number written in decimal by the digits `s`.
pub open spec fn decimal_value(s: Seq<u8>) -> nat
    decreases s.len(),
{
    if s.len() == 0 {
        0
    } else {
        decimal_value(s.drop_last()) * 10 + (s.last() - DIGIT_ZERO) as nat
    }
}

/// The delay-seconds form: one or more digits whose value fits in a `u64`.
pub open spec fn delay_seconds(s: Seq<u8>) -> Option<u64> {
    if s.len() > 0 && all_digits(s) && decimal_value(s) <= u64::MAX {
        Some(decimal_value(s) as u64)
    } else {
        None
    }
}

/// The month (1 to 12) whose three-letter name is `a b c`, or 0.
pub open spec fn month_number(a: u8, b: u8, c: u8) -> u8 {
    if (a, b, c) == (74u8, 97u8, 110u8) { 1 }  // Jan
    else if (a, b, c) == (70u8, 101u8, 98u8) { 2 }  // Feb
    else if (a, b, c) == (77u8, 97u8, 114u8) { 3 }  // Mar
    else if (a, b, c) == (65u8, 112u8, 114u8) { 4 }  // Apr
    else if (a, b, c) == (77u8, 97u8, 121u8) { 5 }  // May
    else if (a, b, c) == (74u8, 117u8, 110u8) { 6 }  // Jun
    else if (a, b, c) == (74u8, 117u8, 108u8) { 7 }  // Jul
    else if (a, b, c) == (65u8, 117u8, 103u8) { 8 }  // Aug
    else if (a, b, c) == (83u8, 101u8, 112u8) { 9 }  // Sep
    else if (a, b, c) == (79u8, 99u8, 116u8) { 10 }  // Oct
    else if (a, b, c) == (78u8, 111u8, 118u8) { 11 }  // Nov
    else if (a, b, c) == (68u8, 101u8, 99u8) { 12 }  // Dec
    else { 0 }
}

/// `a b c` is the three-letter name of a day of the week.
pub open spec fn is_day_name(a: u8, b: u8, c: u8) -> bool {
    ||| (a, b, c) == (77u8, 111u8, 110u8)  // Mon
    ||| (a, b, c) == (84u8, 117u8, 101u8)  // Tue
    ||| (a, b, c) == (87u8, 101u8, 100u8)  // Wed
    ||| (a, b, c) == (84u8, 104u8, 117u8)  // Thu
    ||| (a, b, c) == (70u8, 114u8, 105u8)  // Fri
    ||| (a, b, c) == (83u8, 97u8, 116u8)  // Sat
    ||| (a, b, c) == (83u8, 117u8, 110u8)  // Sun
}

/// The value of the two digits at `i` and `i + 1`.
pub open spec fn two_digits(s: Seq<u8>, i: int) -> int {
    (s[i] - DIGIT_ZERO) * 10 + (s[i + 1] - DIGIT_ZERO)
}

/// `s` has the IMF-fixdate layout `Www, DD Mmm YYYY hh:mm:ss GMT`.
pub open spec fn fixdate_layout(s: Seq<u8>) -> bool {
    &&& s.len() == 29
    &&& is_day_name(s[0], s[1], s[2])
    &&& s[3] == 44u8 && s[4] == 32u8  // ", "
    &&& is_digit(s[5]) && is_digit(s[6]) && s[7] == 32u8
    &&& month_number(s[8], s[9], s[10]) != 0 && s[11] == 32u8
    &&& is_digit(s[12]) && is_digit(s[13]) && is_digit(s[14]) && is_digit(s[15])
    &&& s[16] == 32u8
    &&& is_digit(s[17]) && is_digit(s[18]) && s[19] == 58u8  // ':'
    &&& is_digit(s[20]) && is_digit(s[21]) && s[22] == 58u8
    &&& is_digit(s[23]) && is_digit(s[24]) && s[25] == 32u8
    &&& s[26] == 71u8 && s[27] == 77u8 && s[28] == 84u8  // "GMT"
}

/// The date and time that an IMF-fixdate `s` writes, or `None` where `s` is not
/// one or names no real instant.
pub open spec fn imf_fixdate(s: Seq<u8>) -> Option<HttpDate> {
    if fixdate_layout(s) {
        let d = HttpDate {
            year: (two_digits(s, 12) * 100 + two_digits(s, 14)) as u16,
            month: month_number(s[8], s[9], s[10]),
            day: two_digits(s, 5) as u8,
            hour: two_digits(s, 17) as u8,
            minute: two_digits(s, 20) as u8,
            second: two_digits(s, 23) as u8,
        };
        if d.wf() { Some(d) } else { None }
    } else {
        None
    }
}

/// `s` has the asctime layout `Www Mmm dd hh:mm:ss YYYY`, where the day is two
/// digits or a space and one digit.
pub open spec fn asctime_layout(s: Seq<u8>) -> bool {
    &&& s.len() == 24
    &&& is_day_name(s[0], s[1], s[2]) && s[3] == 32u8
    &&& month_number(s[4], s[5], s[6]) != 0 && s[7] == 32u8
    &&& (is_digit(s[8]) || s[8] == 32u8) && is_digit(s[9]) && s[10] == 32u8
    &&& is_digit(s[11]) && is_digit(s[12]) && s[13] == 58u8
    &&& is_digit(s[14]) && is_digit(s[15]) && s[16] == 58u8
    &&& is_digit(s[17]) && is_digit(s[18]) && s[19] == 32u8
    &&& is_digit(s[20]) && is_digit(s[21]) && is_digit(s[22]) && is_digit(s[23])
}

/// The date and time that an asctime date `s` writes (an obsolete HTTP-date
/// form), or `None` where `s` is not one or names no real instant.
pub open spec fn asctime(s: Seq<u8>) -> Option<HttpDate> {
    if asctime_layout(s) {
        let d = HttpDate {
            year: (two_digits(s, 20) * 100 + two_digits(s, 22)) as u16,
            month: month_number(s[4], s[5], s[6]),
            day: (if s[8] == 32u8 { s[9] - DIGIT_ZERO } else { two_digits(s, 8) }) as u8,
            hour: two_digits(s, 11) as u8,
            minute: two_digits(s, 14) as u8,
            second: two_digits(s, 17) as u8,
        };
        if d.wf() { Some(d) } else { None }
    } else {
        None
    }
}

/// An HTTP-date in either form that this crate reads.
pub open spec fn http_date(s: Seq<u8>) -> Option<HttpDate> {
    match imf_fixdate(s) {
        Some(d) => Some(d),
        None => asctime(s),
    }
}

/// What a `Retry-After` header value `s` says, or `None` where it is neither a
/// delay in seconds nor an HTTP-date.
pub open spec fn retry_after_of(s: Seq<u8>) -> Option<RetryAfter> {
    match delay_seconds(s) {
        Some(n) => Some(RetryAfter::Delay(n)),
        None => match http_date(s) {
            Some(d) => Some(RetryAfter::DateTime(d)),
            None => None,
        },
    }
}

fn digit(b: u8) -> (r: bool)
    ensures
        r == is_digit(b),
{
    DIGIT_ZERO <= b && b <= DIGIT_NINE
}

proof fn lemma_decimal_value_prefix_grows(s: Seq<u8>, i: int, j: int)
    requires
        0 <= i <= j <= s.len(),
    ensures
        decimal_value(s.subrange(0, i)) <= decimal_value(s.subrange(0, j)),
    decreases j - i,
{
    if i < j {
        lemma_decimal_value_prefix_grows(s, i, j - 1);
        assert(s.subrange(0, j).drop_last() == s.subrange(0, j - 1));
    }
}

/// Reads the delay-seconds form; `None` where `s` holds anything but digits,
/// is empty, or is too large for a `u64`.
pub fn parse_delay_seconds(s: &[u8]) -> (r: Option<u64>)
    ensures
        r == delay_seconds(s@),
{
    if s.len() == 0 {
        return None;
    }
    let mut value: u64 = 0;
    let mut i: usize = 0;
    while i < s.len()
        invariant
            0 <= i <= s@.len(),
            all_digits(s@.subrange(0, i as int)),
            value as nat == decimal_value(s@.subrange(0, i as int)),
        decreases s@.len() - i,
    {
        let b = s[i];
        assert(s@.subrange(0, i + 1).drop_last() == s@.subrange(0, i as int));
        if !digit(b) {
            assert(!all_digits(s@));
            return None;
        }
        let d: u64 = (b - DIGIT_ZERO) as u64;
        if value > (u64::MAX - d) / 10 {
            assert(value * 10 + d > u64::MAX) by (nonlinear_arith)
                requires
                    value > (u64::MAX - d) / 10,
                    d <= 9,
            ;
            proof {
                lemma_decimal_value_prefix_grows(s@, i + 1, s@.len() as int);
                assert(s@.subrange(0, s@.len() as int) == s@);
            }
            return None;
        }
        assert(value * 10 + d <= u64::MAX) by (nonlinear_arith)
            requires
                value <= (u64::MAX - d) / 10,
                d <= 9,
        ;
        value = value * 10 + d;
        i += 1;
    }
    assert(s@.subrange(0, s@.len() as int) == s@);
    Some(value)
}

fn month_of(a: u8, b: u8, c: u8) -> (r: u8)
    ensures
        r == month_number(a, b, c),
{
    if a == 74 && b == 97 && c == 110 { 1 }
    else if a == 70 && b == 101 && c == 98 { 2 }
    else if a == 77 && b == 97 && c == 114 { 3 }
    else if a == 65 && b == 112 && c == 114 { 4 }
    else if a == 77 && b == 97 && c == 121 { 5 }
    else if a == 74 && b == 117 && c == 110 { 6 }
    else if a == 74 && b == 117 && c == 108 { 7 }
    else if a == 65 && b == 117 && c == 103 { 8 }
    else if a == 83 && b == 101 && c == 112 { 9 }
    else if a == 79 && b == 99 && c == 116 { 10 }
    else if a == 78 && b == 111 && c == 118 { 11 }
    else if a == 68 && b == 101 && c == 99 { 12 }
    else { 0 }
}

fn day_name(a: u8, b: u8, c: u8) -> (r: bool)
    ensures
        r == is_day_name(a, b, c),
{
    (a == 77 && b == 111 && c == 110) || (a == 84 && b == 117 && c == 101) || (a == 87 && b
        == 101 && c == 100) || (a == 84 && b == 104 && c == 117) || (a == 70 && b == 114 && c
        == 105) || (a == 83 && b == 97 && c == 116) || (a == 83 && b == 117 && c == 110)
}

fn digits_at(s: &[u8], i: usize) -> (r: u8)
    requires
        i + 1 < s@.len(),
        is_digit(s@[i as int]),
        is_digit(s@[i + 1]),
    ensures
        r as int == two_digits(s@, i as int),
        r <= 99,
{
    (s[i] - DIGIT_ZERO) * 10 + (s[i + 1] - DIGIT_ZERO)
}

/// The number of days of `month` in `year`.
pub fn month_length(year: u16, month: u8) -> (r: u8)
    ensures
        r as int == days_in_month(year as int, month as int),
{
    if month == 2 {
        if year % 4 == 0 && (year % 100 != 0 || year % 400 == 0) {
            29
        } else {
            28
        }
    } else if month == 4 || month == 6 || month == 9 || month == 11 {
        30
    } else {
        31
    }
}

/// Reads an IMF-fixdate such as `Sun, 06 Nov 1994 08:49:37 GMT`.
pub fn parse_imf_fixdate(s: &[u8]) -> (r: Option<HttpDate>)
    ensures
        r == imf_fixdate(s@),
        r matches Some(d) ==> d.wf(),
{
    if s.len() != 29 {
        return None;
    }
    let layout = day_name(s[0], s[1], s[2]) && s[3] == 44 && s[4] == 32 && digit(s[5]) && digit(
        s[6],
    ) && s[7] == 32 && month_of(s[8], s[9], s[10]) != 0 && s[11] == 32 && digit(s[12]) && digit(
        s[13],
    ) && digit(s[14]) && digit(s[15]) && s[16] == 32 && digit(s[17]) && digit(s[18]) && s[19]
        == 58 && digit(s[20]) && digit(s[21]) && s[22] == 58 && digit(s[23]) && digit(s[24])
        && s[25] == 32 && s[26] == 71 && s[27] == 77 && s[28] == 84;
    if !layout {
        return None;
    }
    let century = digits_at(s, 12) as u16;
    let year_in_century = digits_at(s, 14) as u16;
    let d = HttpDate {
        year: century * 100 + year_in_century,
        month: month_of(s[8], s[9], s[10]),
        day: digits_at(s, 5),
        hour: digits_at(s, 17),
        minute: digits_at(s, 20),
        second: digits_at(s, 23),
    };
    if d.month <= 12 && 1 <= d.day && d.day <= month_length(d.year, d.month) && d.hour <= 23
        && d.minute <= 59 && d.second <= 60 {
        Some(d)
    } else {
        None
    }
}

/// Reads an asctime date such as `Sun Nov  6 08:49:37 1994`.
pub fn parse_asctime(s: &[u8]) -> (r: Option<HttpDate>)
    ensures
        r == asctime(s@),
        r matches Some(d) ==> d.wf(),
{
    if s.len() != 24 {
        return None;
    }
    let layout = day_name(s[0], s[1], s[2]) && s[3] == 32 && month_of(s[4], s[5], s[6]) != 0
        && s[7] == 32 && (digit(s[8]) || s[8] == 32) && digit(s[9]) && s[10] == 32 && digit(s[11])
        && digit(s[12]) && s[13] == 58 && digit(s[14]) && digit(s[15]) && s[16] == 58 && digit(
        s[17],
    ) && digit(s[18]) && s[19] == 32 && digit(s[20]) && digit(s[21]) && digit(s[22]) && digit(
        s[23],
    );
    if !layout {
        return None;
    }
    let century = digits_at(s, 20) as u16;
    let year_in_century = digits_at(s, 22) as u16;
    let day = if s[8] == 32 {
        s[9] - DIGIT_ZERO
    } else {
        digits_at(s, 8)
    };
    let d = HttpDate {
        year: century * 100 + year_in_century,
        month: month_of(s[4], s[5], s[6]),
        day,
        hour: digits_at(s, 11),
        minute: digits_at(s, 14),
        second: digits_at(s, 17),
    };
    if d.month <= 12 && 1 <= d.day && d.day <= month_length(d.year, d.month) && d.hour <= 23
        && d.minute <= 59 && d.second <= 60 {
        Some(d)
    } else {
        None
    }
}

/// Reads an HTTP-date in the IMF-fixdate or the asctime form.
pub fn parse_http_date(s: &[u8]) -> (r: Option<HttpDate>)
    ensures
        r == http_date(s@),
{
    match parse_imf_fixdate(s) {
        Some(d) => Some(d),
        None => parse_asctime(s),
    }
}

/// Reads a `Retry-After` header value. A value that is neither form gives
/// `None`: the header is advisory, so an unreadable one counts as absent.
pub fn parse_retry_after(s: &[u8]) -> (r: Option<RetryAfter>)
    ensures
        r == retry_after_of(s@),
{
    match parse_delay_seconds(s) {
        Some(n) => Some(RetryAfter::Delay(n)),
        None => match parse_http_date(s) {
            Some(d) => Some(RetryAfter::DateTime(d)),
            None => None,
        },
    }
}

} // verus!
