use bikeshare::api::{coordinate_fields, BikeshareApi, Coordinate, StatusError};
use bikeshare::text::{find_separator, is_whitespace, parse_unsigned, trimmed_field};

fn bits(text: &str) -> Option<u32> {
    text.parse::<f32>().ok().map(f32::to_bits)
}

fn parse(text: &str) -> Option<Coordinate> {
    match coordinate_fields(text) {
        Some((latitude, longitude)) => Coordinate::from_parsed(bits(&latitude), bits(&longitude)),
        None => None,
    }
}

fn pair(latitude: &str, longitude: &str) -> Option<(String, String)> {
    Some((latitude.to_string(), longitude.to_string()))
}

#[test]
fn well_formed_pair_is_parsed() {
    let parsed = parse("49.28,-123.12").unwrap();
    assert_eq!(f32::from_bits(parsed.latitude), 49.28f32);
    assert_eq!(f32::from_bits(parsed.longitude), -123.12f32);
}

#[test]
fn empty_text_has_no_coordinates() {
    assert_eq!(coordinate_fields(""), None);
    assert_eq!(parse(""), None);
}

#[test]
fn single_number_has_no_coordinates() {
    assert_eq!(coordinate_fields("49.28"), None);
    assert_eq!(parse("49.28"), None);
}

#[test]
fn words_are_not_coordinates() {
    assert_eq!(coordinate_fields("abc,def"), pair("abc", "def"));
    assert_eq!(parse("abc,def"), None);
}

#[test]
fn one_unreadable_half_is_missing_data() {
    assert_eq!(parse("49.28,"), None);
    assert_eq!(parse(",-123.12"), None);
    assert_eq!(parse("49.28,east"), None);
    assert_eq!(Coordinate::from_parsed(Some(1), None), None);
    assert_eq!(Coordinate::from_parsed(None, Some(2)), None);
    assert_eq!(Coordinate::from_parsed(None, None), None);
    assert_eq!(
        Coordinate::from_parsed(Some(1), Some(2)),
        Some(Coordinate { latitude: 1, longitude: 2 })
    );
}

#[test]
fn fields_are_trimmed() {
    assert_eq!(coordinate_fields("  49.28 ,\t-123.12\n"), pair("49.28", "-123.12"));
    assert_eq!(coordinate_fields(" , "), pair("", ""));
    assert_eq!(coordinate_fields("\u{3000}1\u{a0},\u{2003}2\u{85}"), pair("1", "2"));
    assert_eq!(coordinate_fields("4 9,1 2"), pair("4 9", "1 2"));
    let parsed = parse(" 49.28 , -123.12 ").unwrap();
    assert_eq!(f32::from_bits(parsed.latitude), 49.28f32);
    assert_eq!(f32::from_bits(parsed.longitude), -123.12f32);
}

#[test]
fn fields_after_the_second_are_ignored() {
    assert_eq!(coordinate_fields("1,2,3"), pair("1", "2"));
    assert_eq!(coordinate_fields("1,2,"), pair("1", "2"));
    assert_eq!(coordinate_fields(",,"), pair("", ""));
    let parsed = parse("1.5,2.5,north").unwrap();
    assert_eq!(f32::from_bits(parsed.latitude), 1.5f32);
    assert_eq!(f32::from_bits(parsed.longitude), 2.5f32);
}

#[test]
fn fields_agree_with_split_and_trim() {
    let samples = [
        "",
        ",",
        "a",
        "a,b",
        " a , b ",
        "é, ü ,x",
        "\t\n1.0\r,\u{2028}2.0\u{205f},",
        "no comma at all",
        " , , , ",
        "49.2827,-123.1207",
    ];
    for sample in samples {
        let mut parts = sample.split(',').map(|part| part.trim().to_string());
        let expected = match (parts.next(), parts.next()) {
            (Some(first), Some(second)) => Some((first, second)),
            _ => None,
        };
        assert_eq!(coordinate_fields(sample), expected);
    }
}

#[test]
fn white_space_is_what_the_standard_library_says() {
    let mut c = '\0';
    loop {
        assert_eq!(is_whitespace(c), c.is_whitespace());
        if c == char::MAX {
            break;
        }
        c = char::from_u32(c as u32 + 1).unwrap_or('\u{e000}');
    }
}

#[test]
fn separator_is_found_from_a_given_place() {
    assert_eq!(find_separator("a,b,c", ',', 0), 1);
    assert_eq!(find_separator("a,b,c", ',', 1), 1);
    assert_eq!(find_separator("a,b,c", ',', 2), 3);
    assert_eq!(find_separator("a,b,c", ',', 4), 5);
    assert_eq!(find_separator("a,b,c", ',', 5), 5);
    assert_eq!(find_separator("é,ü", ',', 0), 1);
    assert_eq!(find_separator("", ',', 0), 0);
    assert_eq!(find_separator("a,b", ',', 10), 3);
    assert_eq!(find_separator("a,b", '|', 0), 3);
}

#[test]
fn field_is_cut_by_characters_and_trimmed() {
    assert_eq!(trimmed_field("  ab  ", 0, 6), "ab");
    assert_eq!(trimmed_field("  ab  ", 2, 4), "ab");
    assert_eq!(trimmed_field("  ab  ", 3, 6), "b");
    assert_eq!(trimmed_field("    ", 0, 4), "");
    assert_eq!(trimmed_field("é ü ", 0, 4), "é ü");
    assert_eq!(trimmed_field("abc", 1, 1), "");
    assert_eq!(trimmed_field(" ab ", 2, 99), "b");
    assert_eq!(trimmed_field("abc", 2, 1), "");
    assert_eq!(trimmed_field("abc", 7, 9), "");
}

#[test]
fn timeout_defaults_to_five_seconds() {
    assert_eq!(BikeshareApi::new(None).timeout(), 5);
    assert_eq!(BikeshareApi::new(Some("abc")).timeout(), 5);
    assert_eq!(BikeshareApi::new(Some("")).timeout(), 5);
    assert_eq!(BikeshareApi::new(Some("-3")).timeout(), 5);
    assert_eq!(BikeshareApi::new(Some(" 7")).timeout(), 5);
    assert_eq!(BikeshareApi::new(Some("18446744073709551616")).timeout(), 5);
    assert_eq!(BikeshareApi::new(Some("5s")).timeout(), 5);
}

#[test]
fn timeout_follows_the_setting() {
    assert_eq!(BikeshareApi::new(Some("7")).timeout(), 7);
    assert_eq!(BikeshareApi::new(Some("0")).timeout(), 0);
    assert_eq!(BikeshareApi::new(Some("120")).timeout(), 120);
    assert_eq!(BikeshareApi::new(Some("+30")).timeout(), 30);
    assert_eq!(BikeshareApi::new(Some("007")).timeout(), 7);
    assert_eq!(BikeshareApi::new(Some("18446744073709551615")).timeout(), u64::MAX);
}

#[test]
fn upstream_failure_reads_as_a_server_error() {
    let error = StatusError::ApiFailure("connection refused".to_string());
    assert_eq!(
        error.message(),
        "Error fetching station status from the bike share API: connection refused"
    );
    assert_eq!(error.status_code(), 500);
}

#[test]
fn unsigned_numbers_are_read_as_the_standard_library_reads_them() {
    let samples = [
        "",
        "+",
        "-",
        "0",
        "+0",
        "-0",
        "5",
        "+5",
        "-5",
        "++5",
        "5+",
        "05",
        "000",
        " 5",
        "5 ",
        "5_000",
        "0x10",
        "1e3",
        "1.0",
        "٣",
        "５",
        "12345678901234567890",
        "18446744073709551615",
        "18446744073709551616",
        "18446744073709551620",
        "99999999999999999999",
        "184467440737095516150",
        "+18446744073709551615",
        "0000000000000000000000000000018446744073709551615",
        "1844674407370955161a",
    ];
    for sample in samples {
        assert_eq!(parse_unsigned(sample), sample.parse::<u64>().ok());
    }
    assert_eq!(parse_unsigned("300"), Some(300));
    assert_eq!(parse_unsigned("three"), None);
}
