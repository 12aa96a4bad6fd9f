// Cross-checks of the wire encodings against the independent time library:
// the epoch day-offset constants and the day/increment decomposition that
// the conversion engine computes must agree with real calendar arithmetic.

use lakeapi2sql::batch::Batch;
use lakeapi2sql::batch::BatchColumn;
use lakeapi2sql::batch::Column;
use lakeapi2sql::batch::DAYS_1900_TO_UNIX_EPOCH;
use lakeapi2sql::batch::DAYS_CE_TO_UNIX_EPOCH;
use lakeapi2sql::batch::MAX_DAYS_CE;
use lakeapi2sql::convert::get_token_rows;
use lakeapi2sql::types::CellValue;
use lakeapi2sql::types::ColumnType;
use time::Date;
use time::Month;
use time::Time;

#[test]
fn the_epoch_offsets_match_calendar_arithmetic() {
    let year_one = Date::from_calendar_date(1, Month::January, 1).unwrap();
    let epoch = Date::from_calendar_date(1970, Month::January, 1).unwrap();
    let sql_1900 = Date::from_calendar_date(1900, Month::January, 1).unwrap();
    let last_day = Date::from_calendar_date(9999, Month::December, 31).unwrap();
    assert_eq!((epoch - year_one).whole_days(), DAYS_CE_TO_UNIX_EPOCH as i64);
    assert_eq!((epoch - sql_1900).whole_days(), DAYS_1900_TO_UNIX_EPOCH as i64);
    assert_eq!((last_day - year_one).whole_days(), MAX_DAYS_CE as i64);
}

#[test]
fn millisecond_timestamps_agree_with_calendar_addition() {
    let year_one = Date::from_calendar_date(1, Month::January, 1).unwrap();
    let epoch = Date::from_calendar_date(1970, Month::January, 1).unwrap()
        .with_time(Time::from_hms(0, 0, 0).unwrap());
    let samples: Vec<i64> = vec![0, 1, 999, 86400000, 86400001, 1700000000000, 253402300799999];
    let batch = Batch {
        num_rows: samples.len(),
        columns: vec![BatchColumn {
            name: "ts".to_string(),
            data: Column::TimestampMillisecond(samples.iter().map(|v| Some(*v)).collect()),
        }],
    };
    let cols = vec![("ts".to_string(), ColumnType::Datetime2)];
    let rows = get_token_rows(&batch, &cols).unwrap();
    for (i, ms) in samples.iter().enumerate() {
        let instant = epoch + time::Duration::milliseconds(*ms);
        let expected_days = (instant.date() - year_one).whole_days() as u32;
        let midnight = instant.date().with_time(Time::from_hms(0, 0, 0).unwrap());
        let expected_increments = ((instant - midnight).whole_nanoseconds() / 100) as u64;
        match &rows[i].data[0] {
            CellValue::DateTime2(Some(dt2)) => {
                assert_eq!(dt2.date.days, expected_days, "day count for {ms} ms");
                assert_eq!(dt2.time.increments, expected_increments, "increments for {ms} ms");
                assert_eq!(dt2.time.scale, 7);
            }
            other => panic!("expected an instant cell for {ms} ms, got {:?}", other),
        }
    }
}

#[test]
fn date_rebasing_agrees_with_calendar_addition() {
    let year_one = Date::from_calendar_date(1, Month::January, 1).unwrap();
    let epoch = Date::from_calendar_date(1970, Month::January, 1).unwrap();
    let samples: Vec<i32> = vec![0, 1, -1, 365, -365, 20000, -719162];
    let batch = Batch {
        num_rows: samples.len(),
        columns: vec![BatchColumn {
            name: "d".to_string(),
            data: Column::Date32(samples.iter().map(|v| Some(*v)).collect()),
        }],
    };
    let cols = vec![("d".to_string(), ColumnType::Daten)];
    let rows = get_token_rows(&batch, &cols).unwrap();
    for (i, d) in samples.iter().enumerate() {
        let date = epoch + time::Duration::days(*d as i64);
        let expected_days = (date - year_one).whole_days() as u32;
        match &rows[i].data[0] {
            CellValue::Date(Some(sd)) => assert_eq!(sd.days, expected_days, "for day offset {d}"),
            other => panic!("expected a date cell for offset {d}, got {:?}", other),
        }
    }
}

#[test]
fn time_of_day_agrees_with_hms_decomposition() {
    // 23:59:59 and a mid-day value, decomposed through real clock arithmetic.
    let samples: Vec<i32> = vec![0, 1, 47655, 86399];
    let batch = Batch {
        num_rows: samples.len(),
        columns: vec![BatchColumn {
            name: "t".to_string(),
            data: Column::Time32Second(samples.iter().map(|v| Some(*v)).collect()),
        }],
    };
    let cols = vec![("t".to_string(), ColumnType::Timen)];
    let rows = get_token_rows(&batch, &cols).unwrap();
    for (i, s) in samples.iter().enumerate() {
        let h = (s / 3600) as u8;
        let m = ((s / 60) % 60) as u8;
        let sec = (s % 60) as u8;
        let clock = Time::from_hms(h, m, sec).unwrap();
        let midnight = Time::from_hms(0, 0, 0).unwrap();
        let expected = ((clock - midnight).whole_nanoseconds() / 100) as u64;
        match &rows[i].data[0] {
            CellValue::Time(Some(st)) => {
                assert_eq!(st.increments, expected, "for {s} seconds");
                assert_eq!(st.scale, 7);
            }
            other => panic!("expected a time cell for {s} seconds, got {:?}", other),
        }
    }
}
