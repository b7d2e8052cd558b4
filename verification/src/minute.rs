use vstd::prelude::*;

use crate::json::{json_parsed, opt_as_array, opt_as_str, opt_get, parse_json, JsonValue};
use crate::text::{chars_of, split_words, string_of, words};

verus! {

/// One usable row of an intraday series: `HHMM price cumulative_volume
/// [cumulative_amount]`. Numbers keep the text of the response.
pub struct MinuteRow {
    /// Position of the row in the response array, counting rows that were
    /// passed over; the first row of the response has no previous volume.
    pub row_index: usize,
    pub time: String,
    pub price: String,
    pub cum_volume: String,
    pub cum_amount: Option<String>,
}

/// The characters of each field of a `MinuteRow`.
pub struct MinuteRowModel {
    pub row_index: int,
    pub time: Seq<char>,
    pub price: Seq<char>,
    pub cum_volume: Seq<char>,
    pub cum_amount: Option<Seq<char>>,
}

/// The view of an optional string.
pub open spec fn opt_view(s: Option<String>) -> Option<Seq<char>> {
    match s {
        Some(x) => Some(x@),
        None => None,
    }
}

impl View for MinuteRow {
    type V = MinuteRowModel;

    open spec fn view(&self) -> MinuteRowModel {
        MinuteRowModel {
            row_index: self.row_index as int,
            time: self.time@,
            price: self.price@,
            cum_volume: self.cum_volume@,
            cum_amount: opt_view(self.cum_amount),
        }
    }
}

/// What an intraday response holds, before any arithmetic on its numbers.
pub struct MinuteSeries {
    /// The trading date, empty when the response names none.
    pub date: String,
    /// The usable rows, in response order; never empty.
    pub rows: Vec<MinuteRow>,
    /// Entry 86 of the quote array (`qt.<code>`), the primary source of
    /// the previous close.
    pub qt_primary: Option<String>,
    /// Entry 4 of the quote array, used when the primary one is missing or
    /// not positive.
    pub qt_fallback: Option<String>,
}

/// The characters of each field of a `MinuteSeries`.
pub struct MinuteSeriesModel {
    pub date: Seq<char>,
    pub rows: Seq<MinuteRowModel>,
    pub qt_primary: Option<Seq<char>>,
    pub qt_fallback: Option<Seq<char>>,
}

impl View for MinuteSeries {
    type V = MinuteSeriesModel;

    open spec fn view(&self) -> MinuteSeriesModel {
        MinuteSeriesModel {
            date: self.date@,
            rows: self.rows@.map_values(|r: MinuteRow| r@),
            qt_primary: opt_view(self.qt_primary),
            qt_fallback: opt_view(self.qt_fallback),
        }
    }
}

/// Why an intraday response yields no series.
pub enum MinuteError {
    /// No `data.<code>` node.
    MissingNode,
    /// No `data.<code>.data` node.
    MissingDataNode,
    /// `data.<code>.data.data` is absent or not an array.
    MissingRows,
    /// No row of the array is usable.
    NoRows,
    /// The response body is not JSON; serde's message is carried along.
    NotJson(String),
}

/// Every character is ASCII.
pub open spec fn all_ascii(s: Seq<char>) -> bool {
    forall|i: int| 0 <= i < s.len() ==> #[trigger] s[i] <= '\u{7f}'
}

/// `HHMM...` becomes `HH:MM` when it is ASCII and at least four long;
/// anything else is kept as it is.
pub open spec fn minute_time(hhmm: Seq<char>) -> Seq<char> {
    if hhmm.len() >= 4 && all_ascii(hhmm) {
        hhmm.subrange(0, 2).push(':') + hhmm.subrange(2, 4)
    } else {
        hhmm
    }
}

/// The row that response entry `i` stands for: a string of at least three
/// white-space separated words.
pub open spec fn minute_row_of(i: int, entry: JsonValue) -> Option<MinuteRowModel> {
    match entry.spec_as_str() {
        None => None,
        Some(line) => {
            let f = words(line);
            if f.len() < 3 {
                None
            } else {
                Some(
                    MinuteRowModel {
                        row_index: i,
                        time: minute_time(f[0]),
                        price: f[1],
                        cum_volume: f[2],
                        cum_amount: if f.len() >= 4 {
                            Some(f[3])
                        } else {
                            None
                        },
                    },
                )
            }
        },
    }
}

/// The usable rows of a response array, in order.
pub open spec fn minute_rows(entries: Seq<JsonValue>) -> Seq<MinuteRowModel>
    decreases entries.len(),
{
    if entries.len() == 0 {
        Seq::empty()
    } else {
        let prev = minute_rows(entries.drop_last());
        match minute_row_of(entries.len() - 1, entries.last()) {
            Some(r) => prev.push(r),
            None => prev,
        }
    }
}

/// Entry `i` of the quote array of a node, when it is a string.
pub open spec fn qt_entry(node: JsonValue, ifzq: Seq<char>, i: int) -> Option<Seq<char>> {
    match opt_as_array(opt_get(node.spec_get("qt"@), ifzq)) {
        Some(items) => if 0 <= i < items.len() {
            items[i].spec_as_str()
        } else {
            None
        },
        None => None,
    }
}

/// The intraday series of a response for chart code `ifzq`.
pub open spec fn minute_series(v: JsonValue, ifzq: Seq<char>) -> Result<
    MinuteSeriesModel,
    MinuteError,
> {
    match opt_get(v.spec_get("data"@), ifzq) {
        None => Err(MinuteError::MissingNode),
        Some(node) => match node.spec_get("data"@) {
            None => Err(MinuteError::MissingDataNode),
            Some(data_node) => match opt_as_array(data_node.spec_get("data"@)) {
                None => Err(MinuteError::MissingRows),
                Some(entries) => {
                    let rows = minute_rows(entries);
                    if rows.len() == 0 {
                        Err(MinuteError::NoRows)
                    } else {
                        Ok(
                            MinuteSeriesModel {
                                date: match opt_as_str(data_node.spec_get("date"@)) {
                                    Some(d) => d,
                                    None => Seq::empty(),
                                },
                                rows: rows,
                                qt_primary: qt_entry(node, ifzq, 86),
                                qt_fallback: qt_entry(node, ifzq, 4),
                            },
                        )
                    }
                },
            },
        },
    }
}

/// The `HH:MM` form of a time word.
fn format_minute_time(hhmm: &Vec<char>) -> (res: String)
    ensures
        res@ == minute_time(hhmm@),
{
    if hhmm.len() >= 4 {
        let mut ascii = true;
        let mut i: usize = 0;
        while i < hhmm.len()
            invariant
                i <= hhmm@.len(),
                ascii == forall|k: int| 0 <= k < i ==> #[trigger] hhmm@[k] <= '\u{7f}',
            decreases hhmm.len() - i,
        {
            ascii = ascii && hhmm[i] <= '\u{7f}';
            i = i + 1;
        }
        if ascii {
            let mut s = String::new();
            s.push(hhmm[0]);
            s.push(hhmm[1]);
            s.push(':');
            s.push(hhmm[2]);
            s.push(hhmm[3]);
            assert(s@ =~= hhmm@.subrange(0, 2).push(':') + hhmm@.subrange(2, 4));
            return s;
        }
    }
    string_of(hhmm)
}

/// The row that response entry `i` stands for.
fn minute_row_from(i: usize, entry: &JsonValue) -> (res: Option<MinuteRow>)
    ensures
        match res {
            Some(r) => minute_row_of(i as int, *entry) == Some(r@),
            None => minute_row_of(i as int, *entry) is None,
        },
{
    match entry.as_str() {
        None => None,
        Some(line) => {
            let cs = chars_of(line);
            let f = split_words(&cs);
            if f.len() < 3 {
                return None;
            }
            let amount = if f.len() >= 4 {
                Some(string_of(&f[3]))
            } else {
                None
            };
            Some(
                MinuteRow {
                    row_index: i,
                    time: format_minute_time(&f[0]),
                    price: string_of(&f[1]),
                    cum_volume: string_of(&f[2]),
                    cum_amount: amount,
                },
            )
        },
    }
}

/// Entry `i` of the quote array of a node, when it is a string.
fn qt_entry_text(node: &JsonValue, ifzq: &str, i: usize) -> (res: Option<String>)
    ensures
        opt_view(res) == qt_entry(*node, ifzq@, i as int),
{
    match node.get("qt") {
        None => None,
        Some(qt) => match qt.get(ifzq) {
            None => None,
            Some(per_code) => match per_code.as_array() {
                None => None,
                Some(items) => {
                    if i < items.len() {
                        match items[i].as_str() {
                            Some(s) => Some(s.to_owned()),
                            None => None,
                        }
                    } else {
                        None
                    }
                },
            },
        },
    }
}

/// Reads the intraday series out of a minute-query response for chart code
/// `ifzq`.
pub fn minute_series_from_json(v: &JsonValue, ifzq: &str) -> (res: Result<MinuteSeries, MinuteError>)
    ensures
        match res {
            Ok(s) => minute_series(*v, ifzq@) == Ok::<MinuteSeriesModel, MinuteError>(s@),
            Err(e) => minute_series(*v, ifzq@) == Err::<MinuteSeriesModel, MinuteError>(e),
        },
{
    let node = match v.get("data") {
        None => return Err(MinuteError::MissingNode),
        Some(d) => match d.get(ifzq) {
            None => return Err(MinuteError::MissingNode),
            Some(n) => n,
        },
    };
    let data_node = match node.get("data") {
        None => return Err(MinuteError::MissingDataNode),
        Some(d) => d,
    };
    let date = match data_node.get("date") {
        Some(d) => match d.as_str() {
            Some(s) => s.to_owned(),
            None => String::new(),
        },
        None => String::new(),
    };
    let entries = match data_node.get("data") {
        None => return Err(MinuteError::MissingRows),
        Some(d) => match d.as_array() {
            None => return Err(MinuteError::MissingRows),
            Some(items) => items,
        },
    };
    let mut rows: Vec<MinuteRow> = Vec::new();
    let mut i: usize = 0;
    assert(entries@.take(0) =~= Seq::<JsonValue>::empty());
    while i < entries.len()
        invariant
            i <= entries@.len(),
            rows@.map_values(|r: MinuteRow| r@) == minute_rows(entries@.take(i as int)),
        decreases entries.len() - i,
    {
        assert(entries@.take(i + 1).drop_last() =~= entries@.take(i as int));
        assert(entries@.take(i + 1).last() == entries@[i as int]);
        match minute_row_from(i, &entries[i]) {
            Some(r) => {
                let ghost before = rows@.map_values(|r: MinuteRow| r@);
                rows.push(r);
                assert(rows@.map_values(|r: MinuteRow| r@) =~= before.push(r@));
            },
            None => {},
        }
        i = i + 1;
    }
    assert(entries@.take(entries@.len() as int) =~= entries@);
    if rows.len() == 0 {
        return Err(MinuteError::NoRows);
    }
    let qt_primary = qt_entry_text(node, ifzq, 86);
    let qt_fallback = qt_entry_text(node, ifzq, 4);
    Ok(MinuteSeries { date, rows, qt_primary, qt_fallback })
}

} // verus!

verus! {

/// The rows of an intraday series keep the order of the response, and each
/// names the position of an entry of the response array.
pub proof fn law_minute_rows_in_response_order(entries: Seq<JsonValue>)
    ensures
        forall|i: int|
            0 <= i < minute_rows(entries).len() ==> 0 <= (#[trigger] minute_rows(entries)[i]).row_index
                < entries.len(),
        forall|i: int, j: int|
            0 <= i < j < minute_rows(entries).len() ==> (#[trigger] minute_rows(entries)[i]).row_index
                < (#[trigger] minute_rows(entries)[j]).row_index,
    decreases entries.len(),
{
    if entries.len() > 0 {
        law_minute_rows_in_response_order(entries.drop_last());
    }
}

} // verus!

verus! {

/// Reads the intraday series for chart code `ifzq` out of a minute-query
/// response body: the body is read as JSON first, and a body that is not
/// JSON gives `NotJson`.
pub fn minute_series_from_body(body: &[u8], ifzq: &str) -> (res: Result<MinuteSeries, MinuteError>)
    ensures
        match json_parsed(body@) {
            None => res matches Err(MinuteError::NotJson(_)),
            Some(v) => match res {
                Ok(s) => minute_series(v, ifzq@) == Ok::<MinuteSeriesModel, MinuteError>(s@),
                Err(e) => minute_series(v, ifzq@) == Err::<MinuteSeriesModel, MinuteError>(e),
            },
        },
{
    match parse_json(body) {
        Ok(v) => minute_series_from_json(&v, ifzq),
        Err(e) => Err(MinuteError::NotJson(e.to_string())),
    }
}

} // verus!

verus! {

/// A time word keeps its digits: an ASCII word of at least four characters
/// becomes its first two characters, `:`, then its third and fourth
/// characters; any other word is kept as it is.
pub proof fn law_minute_time_keeps_digits(w: Seq<char>)
    ensures
        (w.len() >= 4 && forall|i: int| 0 <= i < w.len() ==> #[trigger] w[i] <= '\u{7f}') ==> {
            let t = minute_time(w);
            &&& t.len() == 5
            &&& t[0] == w[0]
            &&& t[1] == w[1]
            &&& t[2] == ':'
            &&& t[3] == w[2]
            &&& t[4] == w[3]
        },
        !(w.len() >= 4 && forall|i: int| 0 <= i < w.len() ==> #[trigger] w[i] <= '\u{7f}')
            ==> minute_time(w) == w,
{
}

} // verus!
