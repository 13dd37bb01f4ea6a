use bikeshare::api::{Coordinate, StationStatus};
use bikeshare::db::{make_copy_data, BikeshareData};
use bikeshare::instant::{Timestamp, MAX_UNIX_NANOS, MIN_UNIX_NANOS};
use bikeshare::text::{push_bool, push_decimal, push_digits};

fn main_street() -> StationStatus {
    StationStatus {
        name: "Main St".to_string(),
        coordinates: Some(Coordinate {
            latitude: 49.28f32.to_bits(),
            longitude: (-123.12f32).to_bits(),
        }),
        total_slots: 16,
        free_slots: 0,
        avl_bikes: 255,
        operative: true,
        style: "classic".to_string(),
        is_estation: false,
    }
}

fn decimal(n: i32) -> String {
    let mut out = String::new();
    push_decimal(&mut out, n);
    out
}

#[test]
fn row_carries_the_station_over() {
    let time = Timestamp::from_unix_nanos(1_546_300_800_000_000_000).unwrap();
    let row = BikeshareData::from_station_status(&main_street(), time);
    assert_eq!(
        row,
        BikeshareData {
            time,
            name: "Main St".to_string(),
            latitude: Some(49.28f32.to_bits()),
            longitude: Some((-123.12f32).to_bits()),
            total_slots: 16,
            free_slots: 0,
            avl_bikes: 255,
            operative: true,
            style: "classic".to_string(),
            is_estation: false,
        }
    );
}

#[test]
fn row_without_coordinates_has_no_angles() {
    let mut status = main_street();
    status.coordinates = None;
    let row = BikeshareData::from_station_status(&status, Timestamp::epoch());
    assert_eq!(row.latitude, None);
    assert_eq!(row.longitude, None);
}

#[test]
fn text_row_has_ten_columns() {
    let time = Timestamp::from_unix_nanos(1_546_300_800_000_000_000).unwrap();
    let row = BikeshareData::from_station_status(&main_street(), time);
    let latitude = format!("{}", f32::from_bits(row.latitude.unwrap()));
    let longitude = format!("{}", f32::from_bits(row.longitude.unwrap()));
    assert_eq!(
        row.to_text_row(&latitude, &longitude),
        "2019-01-01 0:00:00.0 +00:00:00|Main St|49.28|-123.12|16|0|255|true|classic|false"
    );
}

#[test]
fn text_row_leaves_missing_angles_empty() {
    let mut status = main_street();
    status.coordinates = None;
    status.operative = false;
    status.is_estation = true;
    let row = BikeshareData::from_station_status(&status, Timestamp::epoch());
    assert_eq!(
        row.to_text_row("ignored", "ignored"),
        "1970-01-01 0:00:00.0 +00:00:00|Main St|||16|0|255|false|classic|true"
    );
}

#[test]
fn text_row_prints_negative_counts() {
    let mut row = BikeshareData::from_station_status(&main_street(), Timestamp::epoch());
    row.total_slots = -1;
    row.free_slots = i32::MIN;
    row.avl_bikes = i32::MAX;
    assert_eq!(
        row.to_text_row("1", "2"),
        "1970-01-01 0:00:00.0 +00:00:00|Main St|1|2|-1|-2147483648|2147483647|true|classic|false"
    );
}

#[test]
fn timestamp_prints_as_the_calendar_does() {
    assert_eq!(Timestamp::epoch().to_text(), "1970-01-01 0:00:00.0 +00:00:00");
    let later = Timestamp::from_unix_nanos(1_700_000_000_123_456_789).unwrap();
    assert_eq!(later.to_text(), "2023-11-14 22:13:20.123456789 +00:00:00");
    let first = Timestamp::from_unix_nanos(MIN_UNIX_NANOS).unwrap();
    assert_eq!(first.to_text(), "-9999-01-01 0:00:00.0 +00:00:00");
    let last = Timestamp::from_unix_nanos(MAX_UNIX_NANOS).unwrap();
    assert_eq!(last.to_text(), "9999-12-31 23:59:59.999999999 +00:00:00");
}

#[test]
fn timestamp_range_is_the_calendar_range() {
    assert!(Timestamp::from_unix_nanos(MIN_UNIX_NANOS).is_some());
    assert!(Timestamp::from_unix_nanos(MAX_UNIX_NANOS).is_some());
    assert!(Timestamp::from_unix_nanos(MIN_UNIX_NANOS - 1).is_none());
    assert!(Timestamp::from_unix_nanos(MAX_UNIX_NANOS + 1).is_none());
    assert!(Timestamp::from_unix_nanos(i128::MAX).is_none());
    assert!(Timestamp::from_unix_nanos(i128::MIN).is_none());
    assert_eq!(Timestamp::from_unix_nanos(42).unwrap().unix_nanos(), 42);
    assert_eq!(Timestamp::from_unix_nanos(0), Some(Timestamp::epoch()));
}

#[test]
fn clock_reading_is_a_timestamp() {
    let reading = time::OffsetDateTime::now_utc();
    let now = Timestamp::from_unix_nanos(reading.unix_timestamp_nanos()).unwrap();
    assert!(now.unix_nanos() > 1_546_300_800_000_000_000);
    assert_eq!(now.unix_nanos(), reading.unix_timestamp_nanos());
    assert_eq!(now.to_text(), reading.to_string());
}

#[test]
fn decimal_text_of_numbers() {
    assert_eq!(decimal(0), "0");
    assert_eq!(decimal(7), "7");
    assert_eq!(decimal(10), "10");
    assert_eq!(decimal(255), "255");
    assert_eq!(decimal(1000), "1000");
    assert_eq!(decimal(-1), "-1");
    assert_eq!(decimal(-120), "-120");
    for n in [-99999, -10, -9, 9, 99, 100, 101, 65535, i32::MAX, i32::MIN] {
        assert_eq!(decimal(n), n.to_string());
    }
    let mut out = "x".to_string();
    push_digits(&mut out, u64::MAX);
    assert_eq!(out, "x18446744073709551615");
}

#[test]
fn bool_text_is_spelled_out() {
    let mut out = String::new();
    push_bool(&mut out, true);
    push_bool(&mut out, false);
    assert_eq!(out, "truefalse");
}

fn angles(pairs: &[(&str, &str)]) -> Vec<(String, String)> {
    pairs.iter().map(|(latitude, longitude)| (latitude.to_string(), longitude.to_string())).collect()
}

#[test]
fn copy_data_of_nothing_is_empty() {
    assert_eq!(make_copy_data(&Vec::new(), Timestamp::epoch(), &Vec::new()), Some(Vec::new()));
}

#[test]
fn copy_data_has_one_row_per_station_in_order_under_one_timestamp() {
    let time = Timestamp::from_unix_nanos(1_546_300_800_000_000_000).unwrap();
    let mut second = main_street();
    second.name = "Oak Ave".to_string();
    second.coordinates = None;
    let mut third = main_street();
    third.name = "Île é".to_string();
    let stations = vec![main_street(), second, third];
    let printed = angles(&[("49.28", "-123.12"), ("", ""), ("1", "2")]);
    let expected = "2019-01-01 0:00:00.0 +00:00:00|Main St|49.28|-123.12|16|0|255|true|classic|false\n\
                    2019-01-01 0:00:00.0 +00:00:00|Oak Ave|||16|0|255|true|classic|false\n\
                    2019-01-01 0:00:00.0 +00:00:00|Île é|1|2|16|0|255|true|classic|false\n";
    assert_eq!(make_copy_data(&stations, time, &printed), Some(expected.as_bytes().to_vec()));
}

#[test]
fn copy_data_agrees_with_the_rows_one_by_one() {
    let time = Timestamp::epoch();
    let mut second = main_street();
    second.name = "Oak Ave".to_string();
    let stations = vec![second, main_street()];
    let printed = angles(&[("5", "6"), ("7", "8")]);
    let mut expected = String::new();
    for (status, (latitude, longitude)) in stations.iter().zip(printed.iter()) {
        let row = BikeshareData::from_station_status(status, time);
        expected.push_str(&row.to_text_row(latitude, longitude));
        expected.push('\n');
    }
    assert_eq!(make_copy_data(&stations, time, &printed), Some(expected.into_bytes()));
}

#[test]
fn copy_data_ignores_angles_of_a_station_without_coordinates() {
    let mut status = main_street();
    status.coordinates = None;
    let with = make_copy_data(&vec![status.clone()], Timestamp::epoch(), &angles(&[("9", "9")]));
    let without = make_copy_data(&vec![status], Timestamp::epoch(), &angles(&[("", "")]));
    assert_eq!(with, without);
    assert!(with.is_some());
}

#[test]
fn copy_data_needs_the_angles_of_every_station() {
    let stations = vec![main_street(), main_street()];
    assert_eq!(make_copy_data(&stations, Timestamp::epoch(), &angles(&[("1", "2")])), None);
    assert_eq!(make_copy_data(&stations, Timestamp::epoch(), &Vec::new()), None);
    assert_eq!(make_copy_data(&Vec::new(), Timestamp::epoch(), &angles(&[("1", "2")])), None);
}
