use reading_tracker::calendar::{CalendarDate, Timestamp};

fn text(year: i32, month: u32, day: u32) -> String {
    CalendarDate::new(year, month, day).unwrap().to_string()
}

#[test]
fn a_day_that_exists_is_made() {
    let date = CalendarDate::new(2024, 1, 5).unwrap();
    assert_eq!(date.year(), 2024);
    assert_eq!(date.month(), 1);
    assert_eq!(date.day(), 5);
}

#[test]
fn leap_years_have_a_29th_of_february() {
    assert!(CalendarDate::new(2024, 2, 29).is_some());
    assert!(CalendarDate::new(2000, 2, 29).is_some());
    assert!(CalendarDate::new(-4, 2, 29).is_some());
    assert!(CalendarDate::new(0, 2, 29).is_some());
    assert!(CalendarDate::new(2023, 2, 29).is_none());
    assert!(CalendarDate::new(1900, 2, 29).is_none());
    assert!(CalendarDate::new(2100, 2, 29).is_none());
    assert!(CalendarDate::new(-100, 2, 29).is_none());
    assert!(CalendarDate::new(2023, 2, 28).is_some());
    assert!(CalendarDate::new(2024, 2, 30).is_none());
}

#[test]
fn months_have_their_lengths() {
    let lengths: [u32; 12] = [31, 28, 31, 30, 31, 30, 31, 31, 30, 31, 30, 31];
    for (i, length) in lengths.iter().enumerate() {
        let month = i as u32 + 1;
        assert!(CalendarDate::new(2023, month, *length).is_some());
        assert!(CalendarDate::new(2023, month, *length + 1).is_none());
    }
}

#[test]
fn days_and_months_out_of_range_are_refused() {
    assert!(CalendarDate::new(2024, 0, 1).is_none());
    assert!(CalendarDate::new(2024, 13, 1).is_none());
    assert!(CalendarDate::new(2024, 1, 0).is_none());
    assert!(CalendarDate::new(2024, 1, 32).is_none());
    assert!(CalendarDate::new(2024, u32::MAX, 1).is_none());
    assert!(CalendarDate::new(2024, 1, u32::MAX).is_none());
}

#[test]
fn years_have_bounds() {
    assert!(CalendarDate::new(-262143, 1, 1).is_some());
    assert!(CalendarDate::new(262142, 12, 31).is_some());
    assert!(CalendarDate::new(-262144, 12, 31).is_none());
    assert!(CalendarDate::new(262143, 1, 1).is_none());
    assert!(CalendarDate::new(i32::MIN, 1, 1).is_none());
    assert!(CalendarDate::new(i32::MAX, 1, 1).is_none());
}

#[test]
fn a_date_is_made_exactly_where_chrono_makes_one() {
    let years: [i32; 9] = [-262144, -262143, -401, -1, 0, 1900, 2024, 262142, 262143];
    for year in years {
        for month in 0..14u32 {
            for day in 0..33u32 {
                assert_eq!(
                    CalendarDate::new(year, month, day).is_some(),
                    chrono::NaiveDate::from_ymd_opt(year, month, day).is_some()
                );
            }
        }
    }
}

#[test]
fn dates_are_written_in_four_two_and_two_digits() {
    assert_eq!(text(2024, 1, 5), "2024-01-05");
    assert_eq!(text(2015, 9, 5), "2015-09-05");
    assert_eq!(text(0, 1, 1), "0000-01-01");
    assert_eq!(text(33, 10, 9), "0033-10-09");
    assert_eq!(text(9999, 12, 31), "9999-12-31");
}

#[test]
fn years_beyond_four_digits_are_written_with_a_sign() {
    assert_eq!(text(-1, 1, 1), "-0001-01-01");
    assert_eq!(text(-9999, 3, 4), "-9999-03-04");
    assert_eq!(text(-10000, 3, 4), "-10000-03-04");
    assert_eq!(text(10000, 12, 31), "+10000-12-31");
    assert_eq!(text(262142, 12, 31), "+262142-12-31");
    assert_eq!(text(-262143, 1, 1), "-262143-01-01");
}

#[test]
fn a_date_in_iso_form_is_read() {
    assert_eq!(CalendarDate::parse("2024-01-05"), CalendarDate::new(2024, 1, 5));
    assert_eq!(CalendarDate::parse("2024-02-29"), CalendarDate::new(2024, 2, 29));
    assert_eq!(CalendarDate::parse("0000-01-01"), CalendarDate::new(0, 1, 1));
    assert_eq!(CalendarDate::parse("9999-12-31"), CalendarDate::new(9999, 12, 31));
    assert_eq!(CalendarDate::parse("0033-10-09"), CalendarDate::new(33, 10, 9));
    assert!(CalendarDate::parse("2024-01-05").is_some());
}

#[test]
fn a_date_in_another_form_is_refused() {
    assert_eq!(CalendarDate::parse("01-05-2024"), None);
    assert_eq!(CalendarDate::parse("2024/01/05"), None);
    assert_eq!(CalendarDate::parse("20240105"), None);
    assert_eq!(CalendarDate::parse("2024-1-5"), None);
    assert_eq!(CalendarDate::parse("2024-01-5"), None);
    assert_eq!(CalendarDate::parse(" 2024-01-05"), None);
    assert_eq!(CalendarDate::parse("2024-01-05 "), None);
    assert_eq!(CalendarDate::parse("2024-01-05T00:00:00"), None);
    assert_eq!(CalendarDate::parse("+2024-01-05"), None);
    assert_eq!(CalendarDate::parse("-2024-01-5"), None);
    assert_eq!(CalendarDate::parse("2024-01-0\u{ff15}"), None);
    assert_eq!(CalendarDate::parse("yyyy-mm-dd"), None);
    assert_eq!(CalendarDate::parse(""), None);
}

#[test]
fn a_day_that_does_not_exist_is_refused() {
    assert_eq!(CalendarDate::parse("2023-02-29"), None);
    assert_eq!(CalendarDate::parse("2024-02-30"), None);
    assert_eq!(CalendarDate::parse("2024-04-31"), None);
    assert_eq!(CalendarDate::parse("2024-13-01"), None);
    assert_eq!(CalendarDate::parse("2024-00-10"), None);
    assert_eq!(CalendarDate::parse("2024-01-00"), None);
    assert_eq!(CalendarDate::parse("2024-01-32"), None);
    assert_eq!(CalendarDate::parse("1900-02-29"), None);
}

#[test]
fn reading_what_was_written_gives_the_date_back() {
    for year in [0, 1, 999, 1970, 2024, 9999] {
        for month in 1..13u32 {
            for day in [1u32, 15, 28] {
                let date = CalendarDate::new(year, month, day).unwrap();
                assert_eq!(CalendarDate::parse(&date.to_string()), Some(date));
            }
        }
    }
}

#[test]
fn every_day_of_a_leap_year_is_read_as_chrono_reads_it() {
    let mut day = chrono::NaiveDate::from_ymd_opt(2024, 1, 1).unwrap();
    let mut count = 0;
    while chrono::Datelike::year(&day) == 2024 {
        let written = day.to_string();
        let read = CalendarDate::parse(&written).unwrap();
        assert_eq!(read.to_string(), written);
        assert_eq!(read.year(), chrono::Datelike::year(&day));
        assert_eq!(read.month(), chrono::Datelike::month(&day));
        assert_eq!(read.day(), chrono::Datelike::day(&day));
        day = day.succ_opt().unwrap();
        count += 1;
    }
    assert_eq!(count, 366);
}

#[test]
fn today_is_a_day_of_this_century() {
    let today = CalendarDate::today();
    assert!(today.year() >= 2024);
    assert!(today.year() < 2100);
    assert_eq!(CalendarDate::new(today.year(), today.month(), today.day()), Some(today));
}

#[test]
fn now_is_after_the_year_2024_began() {
    let now = Timestamp::now();
    assert!(now.micros > 1_704_067_200_000_000);
    let later = Timestamp::now();
    assert!(later.micros >= now.micros);
}

#[test]
fn every_text_of_the_shape_is_read_exactly_where_it_spells_a_day() {
    for year in [0, 1, 400, 1900, 2000, 2023, 2024, 9999] {
        for month in 0..100u32 {
            for day in 0..100u32 {
                let text = format!("{:04}-{:02}-{:02}", year, month, day);
                assert_eq!(CalendarDate::parse(&text), CalendarDate::new(year, month, day));
                if let Some(date) = CalendarDate::parse(&text) {
                    assert_eq!((date.year(), date.month(), date.day()), (year, month, day));
                    assert_eq!(date.to_string(), text);
                }
            }
        }
    }
}

#[test]
fn every_year_of_four_digits_is_read() {
    for year in 0..10000 {
        let text = format!("{:04}-03-01", year);
        let date = CalendarDate::parse(&text).unwrap();
        assert_eq!((date.year(), date.month(), date.day()), (year, 3, 1));
        let leap = year % 4 == 0 && (year % 100 != 0 || year % 400 == 0);
        assert_eq!(CalendarDate::parse(&format!("{:04}-02-29", year)).is_some(), leap);
    }
}

#[test]
fn a_misplaced_character_is_refused_at_every_position() {
    let good: Vec<char> = "2024-01-05".chars().collect();
    for position in 0..10 {
        for wrong in ['x', ' ', '+', '/', '.', ':'] {
            let mut text = good.clone();
            text[position] = wrong;
            let text: String = text.into_iter().collect();
            assert_eq!(CalendarDate::parse(&text), None);
        }
        if position != 4 && position != 7 {
            let mut text = good.clone();
            text[position] = '-';
            let text: String = text.into_iter().collect();
            assert_eq!(CalendarDate::parse(&text), None);
        } else {
            let mut text = good.clone();
            text[position] = '0';
            let text: String = text.into_iter().collect();
            assert_eq!(CalendarDate::parse(&text), None);
        }
    }
}

#[test]
fn dates_are_written_as_chrono_writes_them() {
    for year in [-262143, -10000, -9999, -1, 0, 1, 999, 1000, 9999, 10000, 99999, 100000, 262142] {
        for (month, day) in [(1u32, 1u32), (2, 28), (7, 4), (10, 31), (12, 31)] {
            let ours = CalendarDate::new(year, month, day).unwrap().to_string();
            let theirs = chrono::NaiveDate::from_ymd_opt(year, month, day).unwrap().to_string();
            assert_eq!(ours, theirs);
        }
    }
}
