//! The rows under which a snapshot is archived, and their text form.

use vstd::prelude::*;
use vstd::string::*;
use vstd::utf8::encode_utf8;
use crate::api::{station_views, StationStatus, StationView};
use crate::instant::{calendar_text, Timestamp};
use crate::text::{bool_text, decimal_text, push_bool, push_decimal};

verus! {

/// One station of one snapshot, as the archive stores it.
#[derive(Debug, PartialEq, Eq)]
pub struct BikeshareData {
    pub time: Timestamp,
    pub name: String,
    pub latitude: Option<u32>,
    pub longitude: Option<u32>,
    pub total_slots: i32,
    pub free_slots: i32,
    pub avl_bikes: i32,
    pub operative: bool,
    pub style: String,
    pub is_estation: bool,
}

/// What a [`BikeshareData`] holds, with its texts as sequences of characters.
pub ghost struct BikeshareDataView {
    pub time: int,
    pub name: Seq<char>,
    pub latitude: Option<u32>,
    pub longitude: Option<u32>,
    pub total_slots: int,
    pub free_slots: int,
    pub avl_bikes: int,
    pub operative: bool,
    pub style: Seq<char>,
    pub is_estation: bool,
}

impl View for BikeshareData {
    type V = BikeshareDataView;

    open spec fn view(&self) -> BikeshareDataView {
        BikeshareDataView {
            time: self.time@,
            name: self.name@,
            latitude: self.latitude,
            longitude: self.longitude,
            total_slots: self.total_slots as int,
            free_slots: self.free_slots as int,
            avl_bikes: self.avl_bikes as int,
            operative: self.operative,
            style: self.style@,
            is_estation: self.is_estation,
        }
    }
}

/// The column separator of a text row.
pub open spec fn column_break() -> Seq<char> {
    seq!['|']
}

/// The line end of a text row.
pub open spec fn line_break() -> Seq<char> {
    seq!['\n']
}

/// The text of an angle's column: empty where the row has no angle, else the
/// angle as `printed` gives it.
pub open spec fn angle_text(angle: Option<u32>, printed: Seq<char>) -> Seq<char> {
    match angle {
        Some(_) => printed,
        None => Seq::empty(),
    }
}

impl BikeshareDataView {
    /// The row for `station` as it was seen at `time`: the coordinates split
    /// into two columns, the counts widened, everything else carried over.
    pub open spec fn of(station: StationView, time: int) -> BikeshareDataView {
        BikeshareDataView {
            time,
            name: station.name,
            latitude: match station.coordinates {
                Some(c) => Some(c.latitude),
                None => None,
            },
            longitude: match station.coordinates {
                Some(c) => Some(c.longitude),
                None => None,
            },
            total_slots: station.total_slots as int,
            free_slots: station.free_slots as int,
            avl_bikes: station.avl_bikes as int,
            operative: station.operative,
            style: station.style,
            is_estation: station.is_estation,
        }
    }

    /// The row as one line of text: its ten columns in order, a `|` between
    /// each two. `latitude` and `longitude` are the two angles in print.
    pub open spec fn text_row(self, latitude: Seq<char>, longitude: Seq<char>) -> Seq<char> {
        calendar_text(self.time) + column_break() + self.name + column_break() + angle_text(
            self.latitude,
            latitude,
        ) + column_break() + angle_text(self.longitude, longitude) + column_break() + decimal_text(
            self.total_slots,
        ) + column_break() + decimal_text(self.free_slots) + column_break() + decimal_text(
            self.avl_bikes,
        ) + column_break() + bool_text(self.operative) + column_break() + self.style
            + column_break() + bool_text(self.is_estation)
    }
}

impl BikeshareData {
    /// The row for `status` as it was seen at `time`.
    pub fn from_station_status(status: &StationStatus, time: Timestamp) -> (row: BikeshareData)
        ensures
            row@ == BikeshareDataView::of(status@, time@),
    {
        let latitude = match status.coordinates {
            Some(c) => Some(c.latitude),
            None => None,
        };
        let longitude = match status.coordinates {
            Some(c) => Some(c.longitude),
            None => None,
        };
        BikeshareData {
            time,
            name: status.name.clone(),
            latitude,
            longitude,
            total_slots: status.total_slots as i32,
            free_slots: status.free_slots as i32,
            avl_bikes: status.avl_bikes as i32,
            operative: status.operative,
            style: status.style.clone(),
            is_estation: status.is_estation,
        }
    }

    /// The row as one line of text, without a line end. `latitude` and
    /// `longitude` are the row's two angles in print; they are read only
    /// where the row has the angle.
    pub fn to_text_row(&self, latitude: &str, longitude: &str) -> (line: String)
        ensures
            line@ == self@.text_row(latitude@, longitude@),
    {
        proof {
            reveal_strlit("|");
        }
        let mut line = self.time.to_text();
        line.append("|");
        line.append(self.name.as_str());
        line.append("|");
        if self.latitude.is_some() {
            line.append(latitude);
        }
        line.append("|");
        if self.longitude.is_some() {
            line.append(longitude);
        }
        line.append("|");
        push_decimal(&mut line, self.total_slots);
        line.append("|");
        push_decimal(&mut line, self.free_slots);
        line.append("|");
        push_decimal(&mut line, self.avl_bikes);
        line.append("|");
        push_bool(&mut line, self.operative);
        line.append("|");
        line.append(self.style.as_str());
        line.append("|");
        push_bool(&mut line, self.is_estation);
        assert(line@ =~= self@.text_row(latitude@, longitude@));
        line
    }
}

/// The texts of a list of printed angle pairs, latitude first.
pub open spec fn angle_views(angles: Seq<(String, String)>) -> Seq<(Seq<char>, Seq<char>)> {
    angles.map_values(|pair: (String, String)| (pair.0@, pair.1@))
}

/// The text rows of `stations` as they were seen at `time`: one row for each
/// station, in the stations' order, all under the one timestamp, the angles
/// of each station in print as its pair in `angles` gives them.
pub open spec fn copy_rows(
    stations: Seq<StationView>,
    time: int,
    angles: Seq<(Seq<char>, Seq<char>)>,
) -> Seq<Seq<char>> {
    Seq::new(
        stations.len(),
        |i: int| BikeshareDataView::of(stations[i], time).text_row(angles[i].0, angles[i].1),
    )
}

/// The lines laid end to end, each followed by a line end.
pub open spec fn copy_text(lines: Seq<Seq<char>>) -> Seq<char>
    decreases lines.len(),
{
    if lines.len() == 0 {
        Seq::empty()
    } else {
        copy_text(lines.drop_last()) + lines.last() + line_break()
    }
}

/// The bytes that go to the archive for the snapshot `api_data` taken at
/// `time`: the text row of each station in the snapshot's order, each
/// followed by a line end, in UTF-8. `angles` holds for each station its two
/// angles in print, and is read only where the station has coordinates.
/// Where `angles` is not as long as `api_data` there is nothing to send.
pub fn make_copy_data(
    api_data: &Vec<StationStatus>,
    time: Timestamp,
    angles: &Vec<(String, String)>,
) -> (buf: Option<Vec<u8>>)
    ensures
        buf is Some <==> angles@.len() == api_data@.len(),
        buf is Some ==> buf->0@ == encode_utf8(
            copy_text(copy_rows(station_views(api_data@), time@, angle_views(angles@))),
        ),
{
    if angles.len() != api_data.len() {
        return None;
    }
    let ghost rows = copy_rows(station_views(api_data@), time@, angle_views(angles@));
    let mut text = String::new();
    let mut i: usize = 0;
    proof {
        reveal_strlit("\n");
        assert(rows.take(0) =~= Seq::<Seq<char>>::empty());
    }
    while i < api_data.len()
        invariant
            i <= api_data.len(),
            angles@.len() == api_data@.len(),
            rows == copy_rows(station_views(api_data@), time@, angle_views(angles@)),
            "\n"@ == line_break(),
            text@ == copy_text(rows.take(i as int)),
        decreases api_data.len() - i,
    {
        let row = BikeshareData::from_station_status(&api_data[i], time);
        let line = row.to_text_row(angles[i].0.as_str(), angles[i].1.as_str());
        text.append(line.as_str());
        text.append("\n");
        proof {
            let longer = rows.take(i + 1);
            assert(longer.drop_last() =~= rows.take(i as int));
            assert(longer.last() == line@);
            assert(text@ =~= copy_text(longer));
        }
        i += 1;
    }
    proof {
        assert(rows.take(i as int) =~= rows);
    }
    Some(text.as_str().as_bytes_vec())
}

} // verus!
