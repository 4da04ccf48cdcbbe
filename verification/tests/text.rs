use clinvoice::money::Money;
use clinvoice::text::{int_to_text, repeat_str, str_lt};
use clinvoice::time::{Duration, RoundError, Timestamp};

#[test]
fn decimal_integers()
{
	assert_eq!(int_to_text(0), "0");
	assert_eq!(int_to_text(1234), "1234");
	assert_eq!(int_to_text(-56), "-56");
	assert_eq!(int_to_text(i64::MIN), i64::MIN.to_string());
	assert_eq!(int_to_text(i64::MAX), i64::MAX.to_string());
}

#[test]
fn repeated_text()
{
	assert_eq!(repeat_str("ab", 3), "ababab");
	assert_eq!(repeat_str("ab", 0), "");
}

#[test]
fn text_order_matches_str_order()
{
	let words = ["", "a", "ab", "b", "B", "Work Email", "Place of Work", "é", "z"];
	for a in words
	{
		for b in words
		{
			assert_eq!(str_lt(a, b), a < b, "{a:?} < {b:?}");
		}
	}
}

#[test]
fn money_display()
{
	assert_eq!(Money::new(20_00, 2, "USD".into()).display(), "20.00 USD");
	assert_eq!(Money::new(-5, 1, "EUR".into()).display(), "-0.5 EUR");
	assert_eq!(Money::new(0, 0, "USD".into()).display(), "0 USD");
	assert_eq!(Money::new(0, 2, "USD".into()).display(), "0.00 USD");
	assert_eq!(Money::new(5, 3, "USD".into()).display(), "0.005 USD");
	assert_eq!(Money::new(-1234, 0, "JPY".into()).display(), "-1234 JPY");
	assert_eq!(Money::new(-123_456, 2, "USD".into()).display(), "-1234.56 USD");
	assert!(Money::from_parts(1, 29, "USD".into()).is_none());
}

#[test]
fn timestamp_texts()
{
	let t = Timestamp::new(1_431_648_000, 0).unwrap();
	assert_eq!(t.utc_text(), "2015-05-15 00:00:00 UTC");
	assert_eq!(t.naive_text(), "2015-05-15 00:00:00");
	assert!(Timestamp::new(0, 1_000_000_000).is_none());
	assert!(Timestamp::new(i64::MAX, 0).is_none());
}

#[test]
fn rounding_to_increments()
{
	let quarter = Duration { secs: 900, nanos: 0 };
	let t = Timestamp::new(1_640_995_200 + 449, 0).unwrap();
	assert_eq!(t.round_to(quarter).unwrap().secs(), 1_640_995_200);
	let t = Timestamp::new(1_640_995_200 + 450, 0).unwrap();
	assert_eq!(t.round_to(quarter).unwrap().secs(), 1_640_995_200 + 900);
	assert!(matches!(t.round_to(Duration { secs: 0, nanos: 0 }), Err(RoundError::DurationExceedsLimit)));
	assert!(matches!(t.round_to(Duration { secs: u64::MAX, nanos: 0 }), Err(RoundError::OutOfRange)));
	let far = Timestamp::new(20_000_000_000, 0).unwrap();
	assert!(matches!(far.round_to(quarter), Err(RoundError::TimestampExceedsLimit)));
	let before_epoch = Timestamp::new(-449, 0).unwrap();
	assert_eq!(before_epoch.round_to(quarter).unwrap().secs(), 0);
	let before_epoch = Timestamp::new(-451, 0).unwrap();
	assert_eq!(before_epoch.round_to(quarter).unwrap().secs(), -900);
}

#[test]
fn timestamps_within_chronos_range()
{
	let first = -8_334_601_228_800;
	let last = 8_210_266_876_799;
	assert!(Timestamp::new(first, 0).is_some());
	assert!(Timestamp::new(first - 1, 999_999_999).is_none());
	assert!(Timestamp::new(last, 999_999_999).is_some());
	assert!(Timestamp::new(last + 1, 0).is_none());
}

#[test]
fn leap_seconds()
{
	let leap = Timestamp::new(59, 1_500_000_000).unwrap();
	assert_eq!(leap.nanos(), 1_500_000_000);
	assert_eq!(leap.utc_text(), "1970-01-01 00:00:60.500 UTC");
	assert!(Timestamp::new(58, 1_500_000_000).is_none());
	assert!(Timestamp::new(59, 2_000_000_000).is_none());

	let second = Duration { secs: 1, nanos: 0 };
	let within = |secs: i64, nanos: u32, span: Duration| {
		let r = Timestamp::new(secs, nanos).unwrap().round_to(span).unwrap();
		(r.secs(), r.nanos())
	};
	// Moving back stays in the leap second.
	assert_eq!(within(59, 1_200_000_000, second), (59, 1_000_000_000));
	// Moving forward past its end leaves it, and the leap second is not counted.
	assert_eq!(within(59, 1_700_000_000, second), (60, 0));
	// Moving forward within it stays in it.
	assert_eq!(within(59, 1_300_000_000, Duration { secs: 0, nanos: 500_000_000 }), (59, 1_500_000_000));
	// Moving forward by more than a second leaves it too.
	assert_eq!(within(59, 1_500_000_000, Duration { secs: 7, nanos: 0 }), (62, 0));
	// Moving back by more than a second.
	assert_eq!(within(59, 1_500_000_000, Duration { secs: 3, nanos: 0 }), (59, 1_000_000_000));
	assert_eq!(within(119, 1_500_000_000, Duration { secs: 60, nanos: 0 }), (119, 1_000_000_000));
	assert_eq!(within(59, 1_500_000_000, Duration { secs: 50, nanos: 0 }), (50, 0));
	assert_eq!(within(59, 1_500_000_000, Duration { secs: 40, nanos: 0 }), (79, 0));
}
