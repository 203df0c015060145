use short_msg::smpp::pdu::typedef::{AbsoluteTime, Time};
use short_msg::smpp::pdu::wire::{encode_to_vec, CodecError, Decoder, Malformation};

fn at(year: u16, month: u8, day: u8, hour: u8, minute: u8, second: u8, tenths: u8, off: i32) -> AbsoluteTime {
    AbsoluteTime { year, month, day, hour, minute, second, tenths, utc_offset_secs: off }
}

fn decode(bytes: &[u8]) -> Result<Time, CodecError> {
    let mut d = Decoder::new(bytes);
    Time::decode(&mut d)
}

#[test]
fn time_null_is_the_empty_string() {
    assert_eq!(encode_to_vec(&Time::Null).unwrap(), vec![0x00]);
    assert_eq!(decode(&[0x00]), Ok(Time::Null));
    assert_eq!(Time::Null.to_wire_string(), Ok(Vec::new()));
    assert_eq!(Time::from_wire_string(b""), Ok(Time::Null));
}

#[test]
fn time_relative_one_day_two_hours_three_minutes_four_seconds() {
    let span = chrono::Duration::days(1)
        + chrono::Duration::hours(2)
        + chrono::Duration::minutes(3)
        + chrono::Duration::seconds(4);
    let t = Time::Relative(span.num_seconds() as u64);
    assert_eq!(t, Time::Relative(93_784));
    assert_eq!(t.to_wire_string().unwrap(), b"000001020304000R".to_vec());
    assert_eq!(encode_to_vec(&t).unwrap(), b"000001020304000R\0".to_vec());
    assert_eq!(decode(b"000001020304000R\0"), Ok(t));
}

#[test]
fn time_relative_years_are_365_days_and_months_30() {
    assert_eq!(Time::from_wire_string(b"010000000000000R"), Ok(Time::Relative(365 * 86_400)));
    assert_eq!(Time::from_wire_string(b"000100000000000R"), Ok(Time::Relative(30 * 86_400)));
    assert_eq!(
        Time::from_wire_string(b"020304050607000R"),
        Ok(Time::Relative((2 * 365 + 3 * 30 + 4) * 86_400 + 5 * 3_600 + 6 * 60 + 7))
    );
    assert_eq!(
        Time::Relative((2 * 365 + 3 * 30 + 4) * 86_400 + 5 * 3_600 + 6 * 60 + 7).to_wire_string(),
        Ok(b"020304050607000R".to_vec())
    );
    // 364 days are twelve months of 30 days and four days
    assert_eq!(Time::Relative(364 * 86_400).to_wire_string(), Ok(b"001204000000000R".to_vec()));
    assert_eq!(Time::from_wire_string(b"001204000000000R"), Ok(Time::Relative(364 * 86_400)));
}

#[test]
fn time_relative_zero_and_largest() {
    assert_eq!(Time::Relative(0).to_wire_string(), Ok(b"000000000000000R".to_vec()));
    assert_eq!(Time::from_wire_string(b"000000000000000R"), Ok(Time::Relative(0)));
    assert_eq!(
        Time::from_wire_string(b"999999999999000R"),
        Ok(Time::Relative((99 * 365 + 99 * 30 + 99) * 86_400 + 99 * 3_600 + 99 * 60 + 99))
    );
    let last = 100 * 365 * 86_400 - 1;
    assert_eq!(Time::Relative(last).to_wire_string(), Ok(b"991204235959000R".to_vec()));
    assert_eq!(Time::from_wire_string(b"991204235959000R"), Ok(Time::Relative(last)));
}

#[test]
fn time_relative_years_wrap_at_one_hundred() {
    assert_eq!(
        Time::Relative(100 * 365 * 86_400).to_wire_string(),
        Ok(b"000000000000000R".to_vec())
    );
    assert_eq!(
        Time::Relative(u64::MAX).to_wire_string().map(|v| v.len()),
        Ok(16)
    );
}

#[test]
fn time_relative_ignores_the_three_characters_before_the_mark() {
    assert_eq!(Time::from_wire_string(b"000001020304xyzR"), Ok(Time::Relative(93_784)));
}

#[test]
fn time_absolute_plain() {
    let t = Time::Absolute(at(2023, 6, 15, 13, 45, 30, 7, 2 * 3_600));
    assert_eq!(t.to_wire_string(), Ok(b"230615134530708+".to_vec()));
    assert_eq!(encode_to_vec(&t).unwrap(), b"230615134530708+\0".to_vec());
    assert_eq!(decode(b"230615134530708+\0"), Ok(t));
    let t = Time::Absolute(at(2000, 1, 1, 0, 0, 0, 0, -(5 * 3_600 + 1_800)));
    assert_eq!(t.to_wire_string(), Ok(b"000101000000022-".to_vec()));
    assert_eq!(Time::from_wire_string(b"000101000000022-"), Ok(t));
}

#[test]
fn time_absolute_offset_of_thirteen_hours_folds_to_eleven_behind() {
    let t = Time::Absolute(at(2024, 2, 29, 23, 59, 58, 0, 13 * 3_600));
    assert_eq!(13 * 3_600 / 900, 52);
    let text = t.to_wire_string().unwrap();
    assert_eq!(text, b"240229235958044-".to_vec());
    let back = Time::from_wire_string(&text).unwrap();
    match back {
        Time::Absolute(a) => {
            assert_eq!(a.utc_offset_secs, -44 * 900);
            assert_eq!((a.utc_offset_secs - 13 * 3_600).rem_euclid(86_400), 0);
            assert_eq!(
                (a.year, a.month, a.day, a.hour, a.minute, a.second, a.tenths),
                (2024, 2, 29, 23, 59, 58, 0)
            );
        }
        other => panic!("{other:?}"),
    }
}

#[test]
fn time_absolute_offsets_at_the_fold() {
    let text = |off: i32| {
        let v = Time::Absolute(at(2030, 12, 31, 0, 0, 0, 0, off)).to_wire_string().unwrap();
        String::from_utf8(v[13..].to_vec()).unwrap()
    };
    assert_eq!(text(0), "00+");
    assert_eq!(text(899), "00+");
    assert_eq!(text(-899), "00+");
    assert_eq!(text(900), "01+");
    assert_eq!(text(-900), "01-");
    assert_eq!(text(48 * 900), "48+");
    assert_eq!(text(-48 * 900), "48-");
    assert_eq!(text(49 * 900), "47-");
    assert_eq!(text(-49 * 900), "47+");
    assert_eq!(text(86_399), "01-");
    assert_eq!(text(-86_399), "01+");
    assert_eq!(text(-13 * 3_600), "44+");
}

#[test]
fn time_absolute_that_is_not_valid_does_not_encode() {
    for a in [
        at(1999, 1, 1, 0, 0, 0, 0, 0),
        at(2100, 1, 1, 0, 0, 0, 0, 0),
        at(2023, 2, 29, 0, 0, 0, 0, 0),
        at(2023, 0, 1, 0, 0, 0, 0, 0),
        at(2023, 13, 1, 0, 0, 0, 0, 0),
        at(2023, 4, 31, 0, 0, 0, 0, 0),
        at(2023, 4, 0, 0, 0, 0, 0, 0),
        at(2023, 1, 1, 24, 0, 0, 0, 0),
        at(2023, 1, 1, 0, 60, 0, 0, 0),
        at(2023, 1, 1, 0, 0, 60, 0, 0),
        at(2023, 1, 1, 0, 0, 0, 10, 0),
        at(2023, 1, 1, 0, 0, 0, 0, 86_400),
        at(2023, 1, 1, 0, 0, 0, 0, -86_400),
    ] {
        assert!(!a.is_valid(), "{a:?}");
        assert_eq!(Time::Absolute(a).to_wire_string(), Err(CodecError::InvalidArgument));
        assert_eq!(encode_to_vec(&Time::Absolute(a)), Err(CodecError::InvalidArgument));
    }
    assert!(at(2024, 2, 29, 23, 59, 59, 9, 86_399).is_valid());
    assert!(at(2099, 12, 31, 0, 0, 0, 0, -86_399).is_valid());
    assert!(at(2000, 2, 29, 0, 0, 0, 0, 0).is_valid());
}

#[test]
fn time_validity_agrees_with_the_calendar() {
    for year in 2000..=2099u16 {
        for month in 0..=13u8 {
            for day in 0..=32u8 {
                let there = chrono::NaiveDate::from_ymd_opt(year as i32, month as u32, day as u32)
                    .is_some();
                assert_eq!(at(year, month, day, 12, 0, 0, 0, 0).is_valid(), there);
            }
        }
    }
}

#[test]
fn time_of_wrong_length_is_malformed() {
    let e = Err(CodecError::Malformed(Malformation::Length { expected: 17 }));
    assert_eq!(Time::from_wire_string(b"00000102030400R"), e);
    assert_eq!(Time::from_wire_string(b"0000010203040000R"), e);
    assert_eq!(Time::from_wire_string(b"R"), e);
    assert_eq!(decode(b"R\0"), e);
}

#[test]
fn time_with_unknown_mark_is_malformed_and_the_error_holds_the_string() {
    assert_eq!(
        Time::from_wire_string(b"000001020304000X"),
        Err(CodecError::Malformed(Malformation::Indicator(*b"000001020304000X")))
    );
    assert_eq!(
        Time::from_wire_string(b"0000010203040000"),
        Err(CodecError::Malformed(Malformation::Indicator(*b"0000010203040000")))
    );
    assert_eq!(
        Time::from_wire_string(b"not a time, no r"),
        Err(CodecError::Malformed(Malformation::Indicator(*b"not a time, no r")))
    );
    assert_eq!(
        decode(b"000001020304000r\0"),
        Err(CodecError::Malformed(Malformation::Indicator(*b"000001020304000r")))
    );
}

#[test]
fn time_with_a_character_in_place_of_a_digit_is_malformed() {
    let e = Err(CodecError::Malformed(Malformation::Digit));
    assert_eq!(Time::from_wire_string(b"0000010203a4000R"), e);
    assert_eq!(Time::from_wire_string(b"/00001020304000R"), e);
    assert_eq!(Time::from_wire_string(b":00001020304000R"), e);
    assert_eq!(Time::from_wire_string(b"23061513453070x+"), e);
    assert_eq!(Time::from_wire_string(b"230615134530x08-"), e);
}

#[test]
fn time_that_names_no_moment_is_malformed() {
    let e = Err(CodecError::Malformed(Malformation::Calendar));
    assert_eq!(Time::from_wire_string(b"230229000000000+"), e);
    assert_eq!(Time::from_wire_string(b"231301000000000+"), e);
    assert_eq!(Time::from_wire_string(b"230100000000000+"), e);
    assert_eq!(Time::from_wire_string(b"230101240000000+"), e);
    assert_eq!(Time::from_wire_string(b"230101006000000+"), e);
    assert_eq!(Time::from_wire_string(b"230101000060000+"), e);
    assert_eq!(Time::from_wire_string(b"230101000000096+"), e);
    assert_eq!(Time::from_wire_string(b"230101000000099-"), e);
    assert!(Time::from_wire_string(b"230101000000095-").is_ok());
    assert!(Time::from_wire_string(b"240229000000000+").is_ok());
}

#[test]
fn time_without_terminator_is_malformed() {
    assert_eq!(
        decode(b"000001020304000R"),
        Err(CodecError::Malformed(Malformation::Unterminated))
    );
}

#[test]
fn time_decode_leaves_what_follows() {
    let bytes = b"000001020304000R\0\x07";
    let mut d = Decoder::new(bytes);
    assert_eq!(Time::decode(&mut d), Ok(Time::Relative(93_784)));
    assert_eq!(d.remaining(), 1);
    let bad = b"bad\0\x07";
    let mut d = Decoder::new(bad);
    assert!(Time::decode(&mut d).is_err());
    assert_eq!(d.remaining(), 5);
}
