//! Place records and the store that holds them once loaded.
use vstd::prelude::*;
use crate::coord::{Coord, coord_of};

verus! {

/// Number of fields in a row of the dataset.
pub const ROW_FIELDS: usize = 6;

/// One city of the dataset.
pub struct CityName {
    pub prefecture: String,
    pub city: String,
    pub prefecture_kana: String,
    pub city_kana: String,
    pub latitude: Coord,
    pub longitude: Coord,
}

/// Why a dataset could not be loaded.
#[derive(Clone, Copy, Debug, PartialEq, Eq, Structural)]
pub enum LoadError {
    /// The text is not well-formed CSV.
    Malformed,
    /// Row `row` (counted from zero) does not hold six fields with a numeric
    /// latitude and longitude.
    BadRow { row: usize },
}

/// The rows of the dataset's text, each as its fields, where the text is
/// well-formed CSV with no header row.
pub uninterp spec fn csv_table(text: Seq<char>) -> Option<Seq<Seq<Seq<char>>>>;

/// What a table of strings holds, as text.
pub open spec fn table_view(rows: Seq<Vec<String>>) -> Seq<Seq<Seq<char>>> {
    rows.map_values(|row: Vec<String>| row@.map_values(|f: String| f@))
}

/// Relies on csv::ReaderBuilder with `has_headers(false)` and on
/// csv::Reader::records: the rows of the text with their fields, or an error
/// where the text is not well-formed CSV (rows of unequal length included).
#[verifier::external_body]
fn read_table(text: &str) -> (r: Option<Vec<Vec<String>>>)
    ensures
        r is Some <==> csv_table(text@) is Some,
        r is Some ==> csv_table(text@) == Some(table_view(r.unwrap()@)),
{
    let mut reader = csv::ReaderBuilder::new().has_headers(false).from_reader(text.as_bytes());
    reader
        .records()
        .map(|rec| rec.map(|fields| fields.iter().map(String::from).collect()))
        .collect::<Result<Vec<Vec<String>>, csv::Error>>()
        .ok()
}

/// Whether a row holds six fields with a numeric latitude and longitude.
pub open spec fn row_is_valid(row: Seq<Seq<char>>) -> bool {
    row.len() == ROW_FIELDS && coord_of(row[4]) is Some && coord_of(row[5]) is Some
}

/// Whether a record holds what a row says: prefecture, city, prefecture kana,
/// city kana, latitude and longitude, in that order.
pub open spec fn record_of_row(r: CityName, row: Seq<Seq<char>>) -> bool {
    &&& row_is_valid(row)
    &&& r.prefecture@ == row[0]
    &&& r.city@ == row[1]
    &&& r.prefecture_kana@ == row[2]
    &&& r.city_kana@ == row[3]
    &&& Some(r.latitude@) == coord_of(row[4])
    &&& Some(r.longitude@) == coord_of(row[5])
}

/// Whether records hold what rows say, one record per row, in order.
pub open spec fn records_of_rows(records: Seq<CityName>, rows: Seq<Seq<Seq<char>>>) -> bool {
    &&& records.len() == rows.len()
    &&& forall|i: int| 0 <= i < rows.len() ==> #[trigger] record_of_row(records[i], rows[i])
}

/// Whether `row` is the first row of `rows` that is not valid.
pub open spec fn first_bad_row(rows: Seq<Seq<Seq<char>>>, row: int) -> bool {
    &&& 0 <= row < rows.len()
    &&& !row_is_valid(rows[row])
    &&& forall|j: int| 0 <= j < row ==> row_is_valid(#[trigger] rows[j])
}

/// What loading rows gives: every row valid and a store of their records, or
/// the first row that is not valid. A dataset with a bad row loads nothing.
pub open spec fn loaded_from_rows(rows: Seq<Seq<Seq<char>>>, r: Result<RecordStore, LoadError>) -> bool {
    match r {
        Ok(store) => (forall|j: int| 0 <= j < rows.len() ==> row_is_valid(#[trigger] rows[j]))
            && records_of_rows(store.records(), rows),
        Err(LoadError::BadRow { row }) => first_bad_row(rows, row as int),
        Err(LoadError::Malformed) => false,
    }
}

/// The records of the dataset, in the order of its rows; fixed once loaded.
pub struct RecordStore {
    records: Vec<CityName>,
}

impl RecordStore {
    /// The records, in order.
    pub closed spec fn records(&self) -> Seq<CityName> {
        self.records@
    }

    /// Number of records.
    pub open spec fn len(&self) -> nat {
        self.records().len()
    }

    /// Builds the store from rows already split into fields.
    pub fn from_rows(rows: &Vec<Vec<String>>) -> (r: Result<RecordStore, LoadError>)
        ensures
            loaded_from_rows(table_view(rows@), r),
    {
        let ghost t = table_view(rows@);
        let mut records: Vec<CityName> = Vec::new();
        let mut i: usize = 0;
        while i < rows.len()
            invariant
                t == table_view(rows@),
                i <= rows.len(),
                records@.len() == i,
                t.len() == rows@.len(),
                forall|k: int| 0 <= k < i ==> #[trigger] record_of_row(records@[k], t[k]),
                forall|k: int| 0 <= k < i ==> row_is_valid(#[trigger] t[k]),
            decreases rows.len() - i,
        {
            let row = &rows[i];
            assert(t[i as int] == row@.map_values(|f: String| f@));
            assert(t[i as int].len() == row@.len());
            if row.len() != ROW_FIELDS {
                return Err(LoadError::BadRow { row: i });
            }
            assert(t[i as int][4] == row@[4]@ && t[i as int][5] == row@[5]@);
            let latitude = Coord::parse(row[4].as_str());
            let longitude = Coord::parse(row[5].as_str());
            match (latitude, longitude) {
                (Some(latitude), Some(longitude)) => {
                    let rec = CityName {
                        prefecture: row[0].clone(),
                        city: row[1].clone(),
                        prefecture_kana: row[2].clone(),
                        city_kana: row[3].clone(),
                        latitude,
                        longitude,
                    };
                    assert(t[i as int][0] == row@[0]@ && t[i as int][1] == row@[1]@);
                    assert(t[i as int][2] == row@[2]@ && t[i as int][3] == row@[3]@);
                    records.push(rec);
                    assert(record_of_row(records@[i as int], t[i as int]));
                },
                _ => {
                    return Err(LoadError::BadRow { row: i });
                },
            }
            i = i + 1;
        }
        let store = RecordStore { records };
        assert(records_of_rows(store.records(), t));
        Ok(store)
    }

    /// Loads the store from the dataset's CSV text: six fields a row, no header
    /// row, prefecture, city, prefecture kana, city kana, latitude, longitude.
    pub fn load(text: &str) -> (r: Result<RecordStore, LoadError>)
        ensures
            match csv_table(text@) {
                None => r == Err::<RecordStore, LoadError>(LoadError::Malformed),
                Some(rows) => loaded_from_rows(rows, r),
            },
    {
        match read_table(text) {
            None => Err(LoadError::Malformed),
            Some(rows) => RecordStore::from_rows(&rows),
        }
    }

    /// Number of records.
    pub fn count(&self) -> (n: usize)
        ensures
            n == self.len(),
    {
        self.records.len()
    }

    /// Whether the store holds no record.
    pub fn is_empty(&self) -> (r: bool)
        ensures
            r == (self.len() == 0),
    {
        self.records.len() == 0
    }

    /// The record at `index`.
    pub fn get(&self, index: usize) -> (r: &CityName)
        requires
            index < self.len(),
        ensures
            *r == self.records()[index as int],
    {
        &self.records[index]
    }
}

/// A dataset with a row that is not valid (a latitude that is not a number, say)
/// loads no store at all, so no record with a made-up coordinate comes out of it;
/// and each record of a store that loads holds exactly the coordinates its row
/// spells.
pub proof fn lemma_bad_row_loads_nothing(rows: Seq<Seq<Seq<char>>>, r: Result<RecordStore, LoadError>, k: int)
    requires
        loaded_from_rows(rows, r),
        0 <= k < rows.len(),
    ensures
        !row_is_valid(rows[k]) ==> r is Err,
        r matches Ok(store) ==> (Some(store.records()[k].latitude@) == coord_of(rows[k][4])
            && Some(store.records()[k].longitude@) == coord_of(rows[k][5])),
{
    if let Ok(store) = r {
        assert(record_of_row(store.records()[k], rows[k]));
    }
}

} // verus!
