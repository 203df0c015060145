//! The time fields of a body (`schedule_delivery_time`, `validity_period`,
//! `final_date`): nothing, a point on a wall clock with that clock's offset
//! from UTC, or a span of time. On the wire a time is a C-octet string, empty
//! or of sixteen characters, `YYMMDDhhmmsstnnp`.
//!
//! Whether a day, a time of day or an offset exists is asked of `chrono`.

use crate::smpp::pdu::typedef::c_octet::{lemma_c_octet_round_trip, no_nul, COctet};
use crate::smpp::pdu::wire::{CodecError, Decoder, Encode, Encoder, Malformation};
use vstd::prelude::*;

verus! {

/// The character `0`.
pub const DIGIT_ZERO: u8 = 0x30;

/// The character `+`: the clock is ahead of UTC.
pub const PLUS: u8 = 0x2B;

/// The character `-`: the clock is behind UTC.
pub const MINUS: u8 = 0x2D;

/// The character `R`: the time is a span from now.
pub const RELATIVE: u8 = 0x52;

/// The seconds of a day.
pub const DAY: u64 = 86_400;

/// Whether `year` is a leap year of the Gregorian calendar.
pub open spec fn leap_year(year: int) -> bool {
    year % 4 == 0 && (year % 100 != 0 || year % 400 == 0)
}

/// The number of days of a month of the Gregorian calendar.
pub open spec fn days_in_month(year: int, month: int) -> int {
    if month == 2 {
        if leap_year(year) {
            29
        } else {
            28
        }
    } else if month == 4 || month == 6 || month == 9 || month == 11 {
        30
    } else {
        31
    }
}

/// Whether the Gregorian calendar has the day.
pub open spec fn date_exists(year: int, month: int, day: int) -> bool {
    1 <= month <= 12 && 1 <= day <= days_in_month(year, month)
}

/// Whether a day has the time.
pub open spec fn time_exists(hour: int, minute: int, second: int) -> bool {
    0 <= hour < 24 && 0 <= minute < 60 && 0 <= second < 60
}

/// Whether a clock can be that many seconds ahead of UTC: less than a day
/// either way.
pub open spec fn offset_exists(secs: int) -> bool {
    -86_400 < secs < 86_400
}

/// `chrono::NaiveDate`, looked at only for whether there is one.
#[verifier::external_type_specification]
#[verifier::external_body]
pub struct ExNaiveDate(chrono::NaiveDate);

/// `chrono::NaiveTime`, looked at only for whether there is one.
#[verifier::external_type_specification]
#[verifier::external_body]
pub struct ExNaiveTime(chrono::NaiveTime);

/// `chrono::FixedOffset`, looked at only for whether there is one.
#[verifier::external_type_specification]
#[verifier::external_body]
pub struct ExFixedOffset(chrono::FixedOffset);

/// `chrono::NaiveDate::from_ymd_opt`: for a year of the common era up to 9999
/// it gives a date exactly when the Gregorian calendar has that day.
#[verifier::external_body]
fn calendar_day(year: i32, month: u32, day: u32) -> (r: Option<chrono::NaiveDate>)
    requires
        1 <= year <= 9999,
    ensures
        r is Some <==> date_exists(year as int, month as int, day as int),
{
    chrono::NaiveDate::from_ymd_opt(year, month, day)
}

/// `chrono::NaiveTime::from_hms_opt`: it gives a time of day exactly when the
/// hour is below 24 and minute and second are below 60.
#[verifier::external_body]
fn time_of_day(hour: u32, minute: u32, second: u32) -> (r: Option<chrono::NaiveTime>)
    ensures
        r is Some <==> time_exists(hour as int, minute as int, second as int),
{
    chrono::NaiveTime::from_hms_opt(hour, minute, second)
}

/// `chrono::FixedOffset::east_opt`: it gives an offset exactly when the
/// seconds are less than a day either way.
#[verifier::external_body]
fn offset_east(secs: i32) -> (r: Option<chrono::FixedOffset>)
    ensures
        r is Some <==> offset_exists(secs as int),
{
    chrono::FixedOffset::east_opt(secs)
}

/// A point on a wall clock, to the tenth of a second, and the offset of that
/// clock from UTC.
#[derive(Clone, Copy, Debug, PartialEq, Eq, Structural)]
pub struct AbsoluteTime {
    /// The year, 2000 to 2099: the wire has two digits for it.
    pub year: u16,
    /// The month, 1 to 12.
    pub month: u8,
    /// The day of the month, from 1.
    pub day: u8,
    /// The hour, 0 to 23.
    pub hour: u8,
    /// The minute, 0 to 59.
    pub minute: u8,
    /// The second, 0 to 59.
    pub second: u8,
    /// Tenths of a second, 0 to 9.
    pub tenths: u8,
    /// Seconds that the clock is ahead of UTC; negative when it is behind.
    /// Less than a day either way.
    pub utc_offset_secs: i32,
}

impl AbsoluteTime {
    /// Whether the fields name a moment that the wire can carry.
    pub open spec fn valid(&self) -> bool {
        &&& 2000 <= self.year <= 2099
        &&& date_exists(self.year as int, self.month as int, self.day as int)
        &&& time_exists(self.hour as int, self.minute as int, self.second as int)
        &&& self.tenths < 10
        &&& offset_exists(self.utc_offset_secs as int)
    }

    /// Whether the fields name a moment that the wire can carry.
    pub fn is_valid(&self) -> (b: bool)
        ensures
            b == self.valid(),
    {
        if self.year < 2000 || self.year > 2099 || self.tenths >= 10 {
            return false;
        }
        calendar_day(self.year as i32, self.month as u32, self.day as u32).is_some()
            && time_of_day(self.hour as u32, self.minute as u32, self.second as u32).is_some()
            && offset_east(self.utc_offset_secs).is_some()
    }

    /// The offset in whole quarter hours, rounded towards zero.
    pub open spec fn zone(&self) -> int {
        if self.utc_offset_secs >= 0 {
            self.utc_offset_secs / 900
        } else {
            -((-self.utc_offset_secs) / 900)
        }
    }

    /// The two-digit count of quarter hours that the wire carries, and the
    /// sign behind it. An offset of more than twelve hours is written as the
    /// offset on the other side of UTC that shows the same clock: 96 quarter
    /// hours less the count, with the opposite sign.
    pub open spec fn zone_field(&self) -> (int, u8) {
        let z = self.zone();
        if z > 48 {
            (96 - z, MINUS)
        } else if z < -48 {
            (z + 96, PLUS)
        } else if z < 0 {
            (-z, MINUS)
        } else {
            (z, PLUS)
        }
    }

    /// The same wall clock with the offset that the wire carries for it:
    /// whole quarter hours, twelve hours at most either way.
    pub open spec fn folded(&self) -> AbsoluteTime {
        AbsoluteTime {
            utc_offset_secs: if self.zone_field().1 == PLUS {
                (self.zone_field().0 * 900) as i32
            } else {
                (-(self.zone_field().0 * 900)) as i32
            },
            ..*self
        }
    }
}

/// A time field.
#[derive(Clone, Copy, Debug, PartialEq, Eq, Structural)]
pub enum Time {
    /// No time is given.
    Null,
    /// A point in time.
    Absolute(AbsoluteTime),
    /// A span of time in seconds, counted from the moment the message centre
    /// receives the message.
    Relative(u64),
}

/// Whether `b` is a decimal digit.
pub open spec fn is_digit(b: u8) -> bool {
    0x30 <= b <= 0x39
}

/// Whether the characters of `s` from `from` up to `to` are decimal digits.
pub open spec fn digits(s: Seq<u8>, from: int, to: int) -> bool {
    forall|i: int| from <= i < to ==> is_digit(#[trigger] s[i])
}

/// The number that the two digits of `s` at `i` spell.
pub open spec fn two(s: Seq<u8>, i: int) -> int {
    (s[i] - DIGIT_ZERO) * 10 + (s[i + 1] - DIGIT_ZERO)
}

/// The sixteen characters of a time string, as an error carries them.
pub open spec fn text_of(s: Seq<u8>) -> [u8; 16]
    recommends
        s.len() == 16,
{
    [
        s[0],
        s[1],
        s[2],
        s[3],
        s[4],
        s[5],
        s[6],
        s[7],
        s[8],
        s[9],
        s[10],
        s[11],
        s[12],
        s[13],
        s[14],
        s[15],
    ]
}

/// The two digits of `n`, which is below 100.
pub open spec fn two_digits(n: int) -> Seq<u8> {
    seq![(0x30 + n / 10) as u8, (0x30 + n % 10) as u8]
}

impl Time {
    /// The span that the twelve digits `YYMMDDhhmmss` of `s` spell, in
    /// seconds. A year counts as 365 days and a month as 30.
    pub open spec fn relative_seconds(s: Seq<u8>) -> int {
        (two(s, 0) * 365 + two(s, 2) * 30 + two(s, 4)) * 86_400 + two(s, 6) * 3_600 + two(s, 8)
            * 60 + two(s, 10)
    }

    /// The point in time that the fifteen digits and the sign of `s` spell.
    pub open spec fn absolute_of(s: Seq<u8>) -> AbsoluteTime {
        AbsoluteTime {
            year: (2000 + two(s, 0)) as u16,
            month: two(s, 2) as u8,
            day: two(s, 4) as u8,
            hour: two(s, 6) as u8,
            minute: two(s, 8) as u8,
            second: two(s, 10) as u8,
            tenths: (s[12] - 0x30) as u8,
            utc_offset_secs: if s[15] == PLUS {
                (two(s, 13) * 900) as i32
            } else {
                (-(two(s, 13) * 900)) as i32
            },
        }
    }

    /// What the characters of a time field mean. The empty string is no time.
    /// Any other must have sixteen characters, the last of which tells how to
    /// read those before it: after `R` twelve digits of a span, after `+` or
    /// `-` fifteen digits of a point in time, which must exist. A string that
    /// ends in anything else comes back whole in the error.
    pub open spec fn parse_string(s: Seq<u8>) -> Result<Time, CodecError> {
        if s.len() == 0 {
            Ok(Time::Null)
        } else if s.len() != 16 {
            Err(CodecError::Malformed(Malformation::Length { expected: 17 }))
        } else if s[15] == RELATIVE {
            if digits(s, 0, 12) {
                Ok(Time::Relative(Self::relative_seconds(s) as u64))
            } else {
                Err(CodecError::Malformed(Malformation::Digit))
            }
        } else if s[15] == PLUS || s[15] == MINUS {
            if !digits(s, 0, 15) {
                Err(CodecError::Malformed(Malformation::Digit))
            } else if Self::absolute_of(s).valid() {
                Ok(Time::Absolute(Self::absolute_of(s)))
            } else {
                Err(CodecError::Malformed(Malformation::Calendar))
            }
        } else {
            Err(CodecError::Malformed(Malformation::Indicator(text_of(s))))
        }
    }

    /// What decoding makes of the bytes `s`: a C-octet string and its meaning.
    pub open spec fn parse(s: Seq<u8>) -> Result<(Time, Seq<u8>), CodecError> {
        match COctet::parse(s) {
            Ok((text, tail)) => match Self::parse_string(text) {
                Ok(t) => Ok((t, tail)),
                Err(e) => Err(e),
            },
            Err(e) => Err(e),
        }
    }

    /// Whether the time can be written: a point in time must be valid.
    pub open spec fn representable(&self) -> bool {
        self matches Time::Absolute(a) ==> a.valid()
    }

    /// The characters of the time field. A point in time is written as the
    /// wall clock shows it, `YYMMDDhhmmss` and the tenth of a second, then the
    /// offset as `zone_field` gives it. A span is taken apart into days of
    /// 86 400 seconds, years of 365 days (kept below 100) and months of 30
    /// days, and ends in `000R`.
    pub open spec fn wire_string(&self) -> Seq<u8> {
        match *self {
            Time::Null => Seq::empty(),
            Time::Absolute(a) => two_digits(a.year as int % 100) + two_digits(a.month as int)
                + two_digits(a.day as int) + two_digits(a.hour as int) + two_digits(
                a.minute as int,
            ) + two_digits(a.second as int) + seq![(0x30 + a.tenths) as u8] + two_digits(
                a.zone_field().0,
            ) + seq![a.zone_field().1],
            Time::Relative(t) => {
                let days = t as int / 86_400;
                let secs = t as int % 86_400;
                two_digits(days / 365 % 100) + two_digits(days % 365 / 30) + two_digits(
                    days % 365 % 30,
                ) + two_digits(secs / 3_600) + two_digits(secs % 3_600 / 60) + two_digits(
                    secs % 60,
                ) + seq![DIGIT_ZERO, DIGIT_ZERO, DIGIT_ZERO, RELATIVE]
            },
        }
    }

    /// The time that comes back from the wire: a point in time with its
    /// offset folded, anything else as it is.
    pub open spec fn returning(&self) -> Time {
        match *self {
            Time::Absolute(a) => Time::Absolute(a.folded()),
            other => other,
        }
    }

    /// Reads the characters of a time field, the terminator taken off.
    pub fn from_wire_string(s: &[u8]) -> (r: Result<Time, CodecError>)
        ensures
            r == Self::parse_string(s@),
    {
        if s.len() == 0 {
            return Ok(Time::Null);
        }
        if s.len() != 16 {
            return Err(CodecError::Malformed(Malformation::Length { expected: 17 }));
        }
        let mark = s[15];
        if mark == RELATIVE {
            if !all_digits(s, 0, 12) {
                return Err(CodecError::Malformed(Malformation::Digit));
            }
            let days: u64 = pair(s, 0) as u64 * 365 + pair(s, 2) as u64 * 30 + pair(s, 4) as u64;
            let secs: u64 = days * DAY + pair(s, 6) as u64 * 3_600 + pair(s, 8) as u64 * 60 + pair(
                s,
                10,
            ) as u64;
            Ok(Time::Relative(secs))
        } else if mark == PLUS || mark == MINUS {
            if !all_digits(s, 0, 15) {
                return Err(CodecError::Malformed(Malformation::Digit));
            }
            let quarters: i32 = pair(s, 13) as i32;
            let a = AbsoluteTime {
                year: 2000 + pair(s, 0) as u16,
                month: pair(s, 2),
                day: pair(s, 4),
                hour: pair(s, 6),
                minute: pair(s, 8),
                second: pair(s, 10),
                tenths: s[12] - DIGIT_ZERO,
                utc_offset_secs: if mark == PLUS {
                    quarters * 900
                } else {
                    -(quarters * 900)
                },
            };
            assert(a == Self::absolute_of(s@));
            if a.is_valid() {
                Ok(Time::Absolute(a))
            } else {
                Err(CodecError::Malformed(Malformation::Calendar))
            }
        } else {
            let text: [u8; 16] = [
                s[0],
                s[1],
                s[2],
                s[3],
                s[4],
                s[5],
                s[6],
                s[7],
                s[8],
                s[9],
                s[10],
                s[11],
                s[12],
                s[13],
                s[14],
                s[15],
            ];
            assert(text@ =~= text_of(s@)@);
            Err(CodecError::Malformed(Malformation::Indicator(text)))
        }
    }

    /// The characters of the time field, without a terminator. A point in
    /// time that is not valid is refused.
    pub fn to_wire_string(&self) -> (r: Result<Vec<u8>, CodecError>)
        ensures
            self.representable() ==> r is Ok && r->Ok_0@ == self.wire_string(),
            !self.representable() ==> r == Err::<Vec<u8>, CodecError>(
                CodecError::InvalidArgument,
            ),
    {
        let mut out: Vec<u8> = Vec::new();
        match self {
            Time::Null => {},
            Time::Absolute(a) => {
                if !a.is_valid() {
                    return Err(CodecError::InvalidArgument);
                }
                push_two(&mut out, (a.year % 100) as u8);
                push_two(&mut out, a.month);
                push_two(&mut out, a.day);
                push_two(&mut out, a.hour);
                push_two(&mut out, a.minute);
                push_two(&mut out, a.second);
                out.push(DIGIT_ZERO + a.tenths);
                let behind = a.utc_offset_secs < 0;
                let quarters: u32 = if behind {
                    (0 - a.utc_offset_secs) as u32 / 900
                } else {
                    a.utc_offset_secs as u32 / 900
                };
                if quarters > 48 {
                    push_two(&mut out, (96 - quarters) as u8);
                    out.push(if behind { PLUS } else { MINUS });
                } else {
                    push_two(&mut out, quarters as u8);
                    out.push(if behind && quarters > 0 { MINUS } else { PLUS });
                }
                assert(out@ =~= self.wire_string());
            },
            Time::Relative(t) => {
                let days: u64 = *t / DAY;
                let secs: u64 = *t % DAY;
                push_two(&mut out, (days / 365 % 100) as u8);
                push_two(&mut out, (days % 365 / 30) as u8);
                push_two(&mut out, (days % 365 % 30) as u8);
                push_two(&mut out, (secs / 3_600) as u8);
                push_two(&mut out, (secs % 3_600 / 60) as u8);
                push_two(&mut out, (secs % 60) as u8);
                out.push(DIGIT_ZERO);
                out.push(DIGIT_ZERO);
                out.push(DIGIT_ZERO);
                out.push(RELATIVE);
                assert(out@ =~= self.wire_string());
            },
        }
        Ok(out)
    }

    /// Reads a time field. On failure nothing is consumed.
    pub fn decode(decoder: &mut Decoder<'_>) -> (r: Result<Time, CodecError>)
        ensures
            match Self::parse(old(decoder)@) {
                Ok((v, tail)) => r == Ok::<Time, CodecError>(v) && final(decoder)@ == tail,
                Err(e) => r == Err::<Time, CodecError>(e) && final(decoder)@ == old(decoder)@,
            },
    {
        let mut d = *decoder;
        let text = COctet::decode(&mut d)?;
        let t = Self::from_wire_string(text.as_bytes())?;
        *decoder = d;
        Ok(t)
    }
}

/// Whether the characters of `s` from `from` up to `to` are decimal digits.
fn all_digits(s: &[u8], from: usize, to: usize) -> (b: bool)
    requires
        from <= to <= s@.len(),
    ensures
        b == digits(s@, from as int, to as int),
{
    let mut i: usize = from;
    while i < to
        invariant
            from <= i <= to <= s@.len(),
            digits(s@, from as int, i as int),
        decreases to - i,
    {
        if s[i] < 0x30 || s[i] > 0x39 {
            assert(!is_digit(s@[i as int]));
            return false;
        }
        i = i + 1;
    }
    true
}

/// The number that the two digits of `s` at `i` spell.
fn pair(s: &[u8], i: usize) -> (n: u8)
    requires
        i + 1 < s@.len(),
        is_digit(s@[i as int]),
        is_digit(s@[i + 1]),
    ensures
        n == two(s@, i as int),
        n < 100,
{
    (s[i] - DIGIT_ZERO) * 10 + (s[i + 1] - DIGIT_ZERO)
}

/// Appends the two digits of `n`.
fn push_two(out: &mut Vec<u8>, n: u8)
    requires
        n < 100,
    ensures
        final(out)@ == old(out)@ + two_digits(n as int),
{
    out.push(DIGIT_ZERO + n / 10);
    out.push(DIGIT_ZERO + n % 10);
    assert(out@ =~= old(out)@ + two_digits(n as int));
}

impl Encode for Time {
    open spec fn wire(&self) -> Seq<u8> {
        COctet::wire_of(self.wire_string())
    }

    open spec fn encodable(&self) -> bool {
        self.representable()
    }

    fn encode(&self, encoder: &mut Encoder) -> (r: Result<(), CodecError>) {
        let text = self.to_wire_string()?;
        encoder.write_bytes(text.as_slice());
        encoder.write_u8(0);
        assert(encoder@ =~= old(encoder)@ + COctet::wire_of(self.wire_string()));
        Ok(())
    }
}

/// The two digits of a number below 100 are digits, and spell the number.
pub proof fn lemma_two_digits(n: int)
    requires
        0 <= n < 100,
    ensures
        two_digits(n).len() == 2,
        is_digit(two_digits(n)[0]),
        is_digit(two_digits(n)[1]),
        two(two_digits(n), 0) == n,
{
}

/// A span of less than a hundred years of 365 days survives the trip over the
/// wire.
pub proof fn lemma_relative_round_trip(t: u64)
    requires
        t < 100 * 365 * 86_400,
    ensures
        Time::parse_string(Time::Relative(t).wire_string()) == Ok::<Time, CodecError>(
            Time::Relative(t),
        ),
        no_nul(Time::Relative(t).wire_string()),
{
    let days = t as int / 86_400;
    let secs = t as int % 86_400;
    let yy = days / 365 % 100;
    let mm = days % 365 / 30;
    let dd = days % 365 % 30;
    let hh = secs / 3_600;
    let mi = secs % 3_600 / 60;
    let ss = secs % 60;
    lemma_two_digits(yy);
    lemma_two_digits(mm);
    lemma_two_digits(dd);
    lemma_two_digits(hh);
    lemma_two_digits(mi);
    lemma_two_digits(ss);
    let s = Time::Relative(t).wire_string();
    assert(s =~= seq![
        two_digits(yy)[0],
        two_digits(yy)[1],
        two_digits(mm)[0],
        two_digits(mm)[1],
        two_digits(dd)[0],
        two_digits(dd)[1],
        two_digits(hh)[0],
        two_digits(hh)[1],
        two_digits(mi)[0],
        two_digits(mi)[1],
        two_digits(ss)[0],
        two_digits(ss)[1],
        DIGIT_ZERO,
        DIGIT_ZERO,
        DIGIT_ZERO,
        RELATIVE,
    ]);
    assert(two(s, 0) == yy && two(s, 2) == mm && two(s, 4) == dd);
    assert(two(s, 6) == hh && two(s, 8) == mi && two(s, 10) == ss);
    assert(digits(s, 0, 12));
    assert(yy == days / 365);
    assert(Time::relative_seconds(s) == t);
}

/// A valid point in time survives the trip over the wire as the same wall
/// clock. Its offset comes back in whole quarter hours and folded into
/// twelve hours either way: it differs from the offset that went in, rounded
/// to quarter hours, by a whole day or not at all. An offset of whole quarter
/// hours within twelve hours comes back as it was.
pub proof fn lemma_absolute_round_trip(a: AbsoluteTime)
    requires
        a.valid(),
    ensures
        Time::parse_string(Time::Absolute(a).wire_string()) == Ok::<Time, CodecError>(
            Time::Absolute(a.folded()),
        ),
        a.folded().utc_offset_secs == a.zone() * 900 || a.folded().utc_offset_secs == a.zone()
            * 900 - 86_400 || a.folded().utc_offset_secs == a.zone() * 900 + 86_400,
        -43_200 <= a.folded().utc_offset_secs <= 43_200,
        -43_200 <= a.utc_offset_secs <= 43_200 && a.utc_offset_secs % 900 == 0 ==> a.folded()
            == a,
        no_nul(Time::Absolute(a).wire_string()),
{
    let yy = a.year as int % 100;
    let q = a.zone_field().0;
    assert(0 <= q <= 48);
    lemma_two_digits(yy);
    lemma_two_digits(a.month as int);
    lemma_two_digits(a.day as int);
    lemma_two_digits(a.hour as int);
    lemma_two_digits(a.minute as int);
    lemma_two_digits(a.second as int);
    lemma_two_digits(q);
    let s = Time::Absolute(a).wire_string();
    assert(s =~= seq![
        two_digits(yy)[0],
        two_digits(yy)[1],
        two_digits(a.month as int)[0],
        two_digits(a.month as int)[1],
        two_digits(a.day as int)[0],
        two_digits(a.day as int)[1],
        two_digits(a.hour as int)[0],
        two_digits(a.hour as int)[1],
        two_digits(a.minute as int)[0],
        two_digits(a.minute as int)[1],
        two_digits(a.second as int)[0],
        two_digits(a.second as int)[1],
        (0x30 + a.tenths) as u8,
        two_digits(q)[0],
        two_digits(q)[1],
        a.zone_field().1,
    ]);
    assert(two(s, 0) == yy && two(s, 2) == a.month && two(s, 4) == a.day);
    assert(two(s, 6) == a.hour && two(s, 8) == a.minute && two(s, 10) == a.second);
    assert(two(s, 13) == q);
    assert(digits(s, 0, 15));
    assert(Time::absolute_of(s) == a.folded());
}

/// A time field survives the trip over the wire, whatever bytes follow it: no
/// time and a span of less than a hundred years as they are, a valid point in
/// time as the same wall clock with its offset folded.
pub proof fn lemma_time_round_trip(t: Time, tail: Seq<u8>)
    requires
        t.representable(),
        t matches Time::Relative(span) ==> span < 100 * 365 * 86_400,
    ensures
        Time::parse(t.wire() + tail) == Ok::<(Time, Seq<u8>), CodecError>(
            (t.returning(), tail),
        ),
{
    match t {
        Time::Null => {},
        Time::Absolute(a) => {
            lemma_absolute_round_trip(a);
        },
        Time::Relative(span) => {
            lemma_relative_round_trip(span);
        },
    }
    lemma_c_octet_round_trip(t.wire_string(), tail);
}

} // verus!
