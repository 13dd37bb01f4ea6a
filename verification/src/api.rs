//! The station list as the upstream feed reports it.

use vstd::prelude::*;
use vstd::string::*;
use crate::text::{
    find_separator,
    next_separator,
    parse_unsigned,
    trimmed,
    trimmed_field,
    unsigned_decimal,
};

verus! {

/// How long a request to the upstream feed may take where nothing else is
/// set, in seconds.
pub const DEFAULT_TIMEOUT_SECONDS: u64 = 5;

/// The settings under which the upstream feed is asked.
#[derive(Clone, Copy, Debug, PartialEq, Eq, Structural)]
pub struct BikeshareApi {
    timeout_seconds: u64,
}

impl BikeshareApi {
    /// The timeout that the text of a timeout setting asks for: the number
    /// of seconds it writes, or the default where there is no setting or no
    /// number in it.
    pub open spec fn timeout_for(setting: Option<Seq<char>>) -> u64 {
        match setting {
            Some(text) => match unsigned_decimal(text) {
                Some(seconds) => seconds,
                None => DEFAULT_TIMEOUT_SECONDS,
            },
            None => DEFAULT_TIMEOUT_SECONDS,
        }
    }

    /// Settings from the text of the timeout setting, if one was given.
    pub fn new(timeout_setting: Option<&str>) -> (api: BikeshareApi)
        ensures
            api.timeout_seconds() == Self::timeout_for(
                match timeout_setting {
                    Some(text) => Some(text@),
                    None => None,
                },
            ),
    {
        let seconds = match timeout_setting {
            Some(text) => match parse_unsigned(text) {
                Some(seconds) => seconds,
                None => DEFAULT_TIMEOUT_SECONDS,
            },
            None => DEFAULT_TIMEOUT_SECONDS,
        };
        BikeshareApi { timeout_seconds: seconds }
    }

    /// Seconds after which a request to the upstream feed is given up.
    pub closed spec fn timeout_seconds(&self) -> u64 {
        self.timeout_seconds
    }

    /// Seconds after which a request to the upstream feed is given up.
    #[verifier::when_used_as_spec(timeout_seconds)]
    pub fn timeout(&self) -> (seconds: u64)
        ensures
            seconds == self.timeout_seconds(),
    {
        self.timeout_seconds
    }
}

/// Why the station list could not be had from the upstream feed.
#[derive(Debug, PartialEq, Eq)]
pub enum StatusError {
    ApiFailure(String),
}

impl StatusError {
    /// The text that the message of an upstream failure starts with.
    pub open spec fn prefix() -> Seq<char> {
        "Error fetching station status from the bike share API: "@
    }

    /// The cause of the failure, as the transport worded it.
    pub open spec fn cause(&self) -> Seq<char> {
        match self {
            StatusError::ApiFailure(cause) => cause@,
        }
    }

    /// The message shown to the caller: the fixed prefix, then the cause.
    pub fn message(&self) -> (text: String)
        ensures
            text@ == Self::prefix() + self.cause(),
    {
        match self {
            StatusError::ApiFailure(cause) => {
                String::from_str("Error fetching station status from the bike share API: ").concat(
                    cause.as_str(),
                )
            },
        }
    }

    /// The HTTP status that goes with the failure: 500.
    pub fn status_code(&self) -> (code: u16)
        ensures
            code == 500,
    {
        500
    }
}

/// The two fields of an upstream coordinate pair: the text before the first
/// comma and the text between the first comma and the second (or the end),
/// each without the white space around it. A text without a comma has no
/// second field, and so no fields at all.
pub open spec fn coordinate_fields_of(text: Seq<char>) -> Option<(Seq<char>, Seq<char>)> {
    let first = next_separator(text, ',', 0);
    if first >= text.len() {
        None
    } else {
        let second = next_separator(text, ',', first + 1);
        Some((trimmed(text.subrange(0, first)), trimmed(text.subrange(first + 1, second))))
    }
}

/// Splits an upstream coordinate pair into its latitude and longitude
/// fields, as [`coordinate_fields_of`] says.
pub fn coordinate_fields(text: &str) -> (fields: Option<(String, String)>)
    ensures
        match fields {
            Some((latitude, longitude)) => coordinate_fields_of(text@) == Some(
                (latitude@, longitude@),
            ),
            None => coordinate_fields_of(text@) is None,
        },
{
    let length = text.unicode_len();
    let first = find_separator(text, ',', 0);
    if first >= length {
        None
    } else {
        let second = find_separator(text, ',', first + 1);
        let latitude = trimmed_field(text, 0, first);
        let longitude = trimmed_field(text, first + 1, second);
        Some((latitude, longitude))
    }
}

/// Where a station stands. Each angle is held as the bit pattern of a
/// single-precision number, so that the library can carry it unchanged.
#[derive(Clone, Copy, Debug, PartialEq, Eq, Structural)]
pub struct Coordinate {
    pub latitude: u32,
    pub longitude: u32,
}

impl Coordinate {
    /// A position from the two angles of an upstream pair, each already read
    /// as a number or found unreadable. A pair with an unreadable half is
    /// missing data, never an error.
    pub fn from_parsed(latitude: Option<u32>, longitude: Option<u32>) -> (c: Option<Coordinate>)
        ensures
            c == match (latitude, longitude) {
                (Some(lat), Some(lon)) => Some(Coordinate { latitude: lat, longitude: lon }),
                _ => None,
            },
    {
        match (latitude, longitude) {
            (Some(lat), Some(lon)) => Some(Coordinate { latitude: lat, longitude: lon }),
            _ => None,
        }
    }
}

/// One station's current status.
#[derive(Debug, PartialEq, Eq)]
pub struct StationStatus {
    pub name: String,
    pub coordinates: Option<Coordinate>,
    pub total_slots: u8,
    pub free_slots: u8,
    pub avl_bikes: u8,
    pub operative: bool,
    pub style: String,
    pub is_estation: bool,
}

/// What a [`StationStatus`] holds, with its texts as sequences of characters.
pub ghost struct StationView {
    pub name: Seq<char>,
    pub coordinates: Option<Coordinate>,
    pub total_slots: u8,
    pub free_slots: u8,
    pub avl_bikes: u8,
    pub operative: bool,
    pub style: Seq<char>,
    pub is_estation: bool,
}

impl View for StationStatus {
    type V = StationView;

    open spec fn view(&self) -> StationView {
        StationView {
            name: self.name@,
            coordinates: self.coordinates,
            total_slots: self.total_slots,
            free_slots: self.free_slots,
            avl_bikes: self.avl_bikes,
            operative: self.operative,
            style: self.style@,
            is_estation: self.is_estation,
        }
    }
}

impl Clone for StationStatus {
    fn clone(&self) -> (copy: Self)
        ensures
            copy@ == self@,
    {
        StationStatus {
            name: self.name.clone(),
            coordinates: self.coordinates,
            total_slots: self.total_slots,
            free_slots: self.free_slots,
            avl_bikes: self.avl_bikes,
            operative: self.operative,
            style: self.style.clone(),
            is_estation: self.is_estation,
        }
    }
}

/// The views of a list of stations, in the list's order.
pub open spec fn station_views(stations: Seq<StationStatus>) -> Seq<StationView> {
    stations.map_values(|s: StationStatus| s@)
}

/// The body of one upstream response.
#[derive(Debug, PartialEq, Eq)]
pub struct StatusApiData {
    pub result: Vec<StationStatus>,
}

impl View for StatusApiData {
    type V = Seq<StationView>;

    open spec fn view(&self) -> Seq<StationView> {
        station_views(self.result@)
    }
}

} // verus!
