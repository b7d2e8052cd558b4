use vstd::prelude::*;

use crate::json::{json_parsed, opt_as_array, opt_get, parse_json, JsonValue};
use crate::request::{ifzq_code, law_chart_code, spec_ifzq_code};

verus! {

/// One K-line bar. The prices and the volume keep the decimal text the
/// service sent (a string element as it is, a number element as the text
/// of the number, a missing one as the empty text), which the caller turns
/// into numbers.
pub struct KlineBar {
    pub date: String,
    pub open: String,
    pub close: String,
    pub high: String,
    pub low: String,
    pub volume: String,
}

/// The characters of each field of a `KlineBar`.
pub struct KlineBarModel {
    pub date: Seq<char>,
    pub open: Seq<char>,
    pub close: Seq<char>,
    pub high: Seq<char>,
    pub low: Seq<char>,
    pub volume: Seq<char>,
}

impl View for KlineBar {
    type V = KlineBarModel;

    open spec fn view(&self) -> KlineBarModel {
        KlineBarModel {
            date: self.date@,
            open: self.open@,
            close: self.close@,
            high: self.high@,
            low: self.low@,
            volume: self.volume@,
        }
    }
}

/// The views of a list of bars.
pub open spec fn bar_views(bars: Seq<KlineBar>) -> Seq<KlineBarModel> {
    bars.map_values(|b: KlineBar| b@)
}

/// A K-line series of one index and period.
pub struct KlineData {
    pub code: String,
    pub period: String,
    pub bars: Vec<KlineBar>,
}

/// The characters of a `KlineData`.
pub struct KlineDataModel {
    pub code: Seq<char>,
    pub period: Seq<char>,
    pub bars: Seq<KlineBarModel>,
}

impl View for KlineData {
    type V = KlineDataModel;

    open spec fn view(&self) -> KlineDataModel {
        KlineDataModel { code: self.code@, period: self.period@, bars: bar_views(self.bars@) }
    }
}

/// Why a K-line response yields no series.
pub enum KlineError {
    /// No `data.<code>` node.
    MissingNode,
    /// Neither `qfq<period>` nor `<period>` is an array.
    MissingPeriodArray,
    /// No row of the array is usable.
    NoBars,
    /// The response body is not JSON; serde's message is carried along.
    NotJson(String),
}

/// The row array of a node: `qfq<period>` when it is an array, else
/// `<period>` when that is.
pub open spec fn kline_rows(node: JsonValue, period: Seq<char>) -> Option<Seq<JsonValue>> {
    match opt_as_array(node.spec_get("qfq"@ + period)) {
        Some(rows) => Some(rows),
        None => opt_as_array(node.spec_get(period)),
    }
}

/// The decimal text of a row element: a string as it is, a number as its
/// text, anything else as the empty text.
pub open spec fn number_text(v: JsonValue) -> Seq<char> {
    match v {
        JsonValue::Str(s) => s@,
        JsonValue::Number(n) => n@,
        _ => Seq::empty(),
    }
}

/// The bar a row stands for: an array of at least six elements
/// `[date, open, close, high, low, volume, ...]` whose date is a non-empty
/// string.
pub open spec fn bar_of_row(row: JsonValue) -> Option<KlineBarModel> {
    match row.spec_as_array() {
        None => None,
        Some(f) => {
            if f.len() < 6 {
                None
            } else {
                let date = match f[0].spec_as_str() {
                    Some(d) => d,
                    None => Seq::empty(),
                };
                if date.len() == 0 {
                    None
                } else {
                    Some(
                        KlineBarModel {
                            date: date,
                            open: number_text(f[1]),
                            close: number_text(f[2]),
                            high: number_text(f[3]),
                            low: number_text(f[4]),
                            volume: number_text(f[5]),
                        },
                    )
                }
            }
        },
    }
}

/// The bars of a row array, in order; unusable rows are passed over.
pub open spec fn bars_of_rows(rows: Seq<JsonValue>) -> Seq<KlineBarModel>
    decreases rows.len(),
{
    if rows.len() == 0 {
        Seq::empty()
    } else {
        let prev = bars_of_rows(rows.drop_last());
        match bar_of_row(rows.last()) {
            Some(b) => prev.push(b),
            None => prev,
        }
    }
}

/// The K-line series of a response to a request for `code` and `period`.
pub open spec fn kline_series(v: JsonValue, code: Seq<char>, period: Seq<char>) -> Result<
    KlineDataModel,
    KlineError,
> {
    match opt_get(v.spec_get("data"@), spec_ifzq_code(code)) {
        None => Err(KlineError::MissingNode),
        Some(node) => match kline_rows(node, period) {
            None => Err(KlineError::MissingPeriodArray),
            Some(rows) => {
                let bars = bars_of_rows(rows);
                if bars.len() == 0 {
                    Err(KlineError::NoBars)
                } else {
                    Ok(KlineDataModel { code: code, period: period, bars: bars })
                }
            },
        },
    }
}

/// The decimal text of a row element.
fn number_text_of(v: &JsonValue) -> (res: String)
    ensures
        res@ == number_text(*v),
{
    match v {
        JsonValue::Str(s) => s.clone(),
        JsonValue::Number(n) => n.clone(),
        _ => String::new(),
    }
}

/// The bar a row stands for.
fn bar_from_row(row: &JsonValue) -> (res: Option<KlineBar>)
    ensures
        match res {
            Some(b) => bar_of_row(*row) == Some(b@),
            None => bar_of_row(*row) is None,
        },
{
    let f = match row.as_array() {
        None => return None,
        Some(items) => items,
    };
    if f.len() < 6 {
        return None;
    }
    let date = match f[0].as_str() {
        Some(d) => d.to_owned(),
        None => String::new(),
    };
    if date.as_str().is_empty() {
        return None;
    }
    Some(
        KlineBar {
            date: date,
            open: number_text_of(&f[1]),
            close: number_text_of(&f[2]),
            high: number_text_of(&f[3]),
            low: number_text_of(&f[4]),
            volume: number_text_of(&f[5]),
        },
    )
}

/// The row array of a node.
fn kline_rows_of<'a>(node: &'a JsonValue, period: &str) -> (res: Option<&'a Vec<JsonValue>>)
    ensures
        match res {
            Some(rows) => kline_rows(*node, period@) == Some(rows@),
            None => kline_rows(*node, period@) is None,
        },
{
    let mut qfq = "qfq".to_owned();
    qfq.append(period);
    match node.get(qfq.as_str()) {
        Some(v) => match v.as_array() {
            Some(rows) => return Some(rows),
            None => {},
        },
        None => {},
    }
    match node.get(period) {
        Some(v) => v.as_array(),
        None => None,
    }
}

/// Reads the K-line series for `code` and `period` out of a K-line response.
pub fn kline_data_from_json(v: &JsonValue, code: &str, period: &str) -> (res: Result<
    KlineData,
    KlineError,
>)
    ensures
        match res {
            Ok(d) => kline_series(*v, code@, period@) == Ok::<KlineDataModel, KlineError>(d@),
            Err(e) => kline_series(*v, code@, period@) == Err::<KlineDataModel, KlineError>(e),
        },
{
    let ifzq = ifzq_code(code);
    let node = match v.get("data") {
        None => return Err(KlineError::MissingNode),
        Some(d) => match d.get(ifzq.as_str()) {
            None => return Err(KlineError::MissingNode),
            Some(n) => n,
        },
    };
    let rows = match kline_rows_of(node, period) {
        None => return Err(KlineError::MissingPeriodArray),
        Some(r) => r,
    };
    let mut bars: Vec<KlineBar> = Vec::new();
    let mut i: usize = 0;
    assert(rows@.take(0) =~= Seq::<JsonValue>::empty());
    while i < rows.len()
        invariant
            i <= rows@.len(),
            bar_views(bars@) == bars_of_rows(rows@.take(i as int)),
        decreases rows.len() - i,
    {
        assert(rows@.take(i + 1).drop_last() =~= rows@.take(i as int));
        assert(rows@.take(i + 1).last() == rows@[i as int]);
        match bar_from_row(&rows[i]) {
            Some(b) => {
                let ghost before = bar_views(bars@);
                bars.push(b);
                assert(bar_views(bars@) =~= before.push(b@));
            },
            None => {},
        }
        i = i + 1;
    }
    assert(rows@.take(rows@.len() as int) =~= rows@);
    if bars.len() == 0 {
        return Err(KlineError::NoBars);
    }
    Ok(KlineData { code: code.to_owned(), period: period.to_owned(), bars })
}

} // verus!

verus! {

/// Every bar read from a row array has a non-empty date, and no row gives
/// more than one bar.
pub proof fn law_bars_have_dates(rows: Seq<JsonValue>)
    ensures
        bars_of_rows(rows).len() <= rows.len(),
        forall|i: int|
            0 <= i < bars_of_rows(rows).len() ==> (#[trigger] bars_of_rows(rows)[i]).date.len() > 0,
    decreases rows.len(),
{
    if rows.len() > 0 {
        law_bars_have_dates(rows.drop_last());
    }
}

} // verus!

verus! {

/// Reads the K-line series for `code` and `period` out of a K-line response
/// body: the body is read as JSON first, and a body that is not JSON gives
/// `NotJson`.
pub fn kline_data_from_body(body: &[u8], code: &str, period: &str) -> (res: Result<
    KlineData,
    KlineError,
>)
    ensures
        match json_parsed(body@) {
            None => res matches Err(KlineError::NotJson(_)),
            Some(v) => match res {
                Ok(d) => kline_series(v, code@, period@) == Ok::<KlineDataModel, KlineError>(d@),
                Err(e) => kline_series(v, code@, period@) == Err::<KlineDataModel, KlineError>(e),
            },
        },
{
    match parse_json(body) {
        Ok(v) => kline_data_from_json(&v, code, period),
        Err(e) => Err(KlineError::NotJson(e.to_string())),
    }
}

} // verus!

verus! {

/// The K-line series is looked up under the request's chart code: `data`,
/// then the member named by the code itself, or by the code without its
/// leading `r_`. When that node holds a `qfq<period>` array with usable
/// rows, the answer is those rows' bars, under the requested code and
/// period.
pub proof fn law_kline_series_under_chart_code(
    v: JsonValue,
    code: Seq<char>,
    period: Seq<char>,
    node: JsonValue,
    rows: Seq<JsonValue>,
)
    requires
        opt_get(
            v.spec_get("data"@),
            if code.len() >= 2 && code[0] == 'r' && code[1] == '_' {
                code.skip(2)
            } else {
                code
            },
        ) == Some(node),
        opt_as_array(node.spec_get("qfq"@ + period)) == Some(rows),
        bars_of_rows(rows).len() > 0,
    ensures
        kline_series(v, code, period) == Ok::<KlineDataModel, KlineError>(
            KlineDataModel { code: code, period: period, bars: bars_of_rows(rows) },
        ),
{
    law_chart_code(code);
}

} // verus!
