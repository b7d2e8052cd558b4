use hq_kanban::{
    kline_data_from_body, kline_data_from_json, minute_series_from_body, minute_series_from_json, parse_index_response, parse_index_text,
    JsonMember, JsonValue, KlineError, MinuteError,
};

fn quote_line(code: &str, name: &str) -> String {
    let mut fields: Vec<String> = (0..40).map(|i| format!("f{}", i)).collect();
    fields[1] = name.to_string();
    fields[3] = "3261.56".to_string();
    fields[4] = "3245.31".to_string();
    fields[30] = "20240830150000".to_string();
    format!("v_{}=\"{}\";", code, fields.join("~"))
}

#[test]
fn index_text_yields_one_quote_per_good_line() {
    let text = format!(
        "{}\r\n\n  {}  \nnot a quote line\nv_short=\"1~2~3\";\nx_sh000002=\"{}\";\n",
        quote_line("sh000001", "SSE"),
        quote_line("r_hkHSI", "HSI"),
        (0..40).map(|i| i.to_string()).collect::<Vec<_>>().join("~"),
    );
    let quotes = parse_index_text(&text);
    assert_eq!(quotes.len(), 2);
    let q = &quotes[0];
    assert_eq!(q.code, "sh000001");
    assert_eq!(q.name, "SSE");
    assert_eq!(q.current, "3261.56");
    assert_eq!(q.prev_close, "3245.31");
    assert_eq!(q.open, "f5");
    assert_eq!(q.high, "f33");
    assert_eq!(q.low, "f34");
    assert_eq!(q.change, "f31");
    assert_eq!(q.change_pct, "f32");
    assert_eq!(q.volume, "f36");
    assert_eq!(q.amount, "f37");
    assert_eq!(q.market, "a");
    assert_eq!(q.update_time, "20240830150000");
    assert_eq!(quotes[1].code, "r_hkHSI");
    assert_eq!(quotes[1].market, "hk");
}

#[test]
fn index_text_edge_cases() {
    assert!(parse_index_text("").is_empty());
    assert!(parse_index_text("\n\n  \n").is_empty());
    // 38 fields are enough, 37 are not.
    let f38 = (0..38).map(|i| i.to_string()).collect::<Vec<_>>().join("~");
    let f37 = (0..37).map(|i| i.to_string()).collect::<Vec<_>>().join("~");
    assert_eq!(parse_index_text(&format!("v_a=\"{}\";", f38)).len(), 1);
    assert!(parse_index_text(&format!("v_a=\"{}\";", f37)).is_empty());
    // The code is what precedes the first '=', trimmed.
    let q = parse_index_text(&format!("  v_r_us.DJI =\"{}\"", f38));
    assert_eq!(q.len(), 1);
    assert_eq!(q[0].code, "r_us.DJI");
    assert_eq!(q[0].market, "us");
    assert_eq!(q[0].update_time, "30");
    // A line without a closing quote still has its content.
    assert_eq!(parse_index_text(&format!("v_b=\"{}", f38)).len(), 1);
}

#[test]
fn gbk_response_is_decoded() {
    // "v_sh000001=\"1~" + GBK("上证指数") + "~..."
    let mut body: Vec<u8> = b"v_sh000001=\"1~".to_vec();
    body.extend_from_slice(&[0xC9, 0xCF, 0xD6, 0xA4, 0xD6, 0xB8, 0xCA, 0xFD]);
    for i in 2..40 {
        body.extend_from_slice(format!("~{}", i).as_bytes());
    }
    body.extend_from_slice(b"\";\n");
    let quotes = parse_index_response(&body);
    assert_eq!(quotes.len(), 1);
    assert_eq!(quotes[0].name, "上证指数");
    assert_eq!(quotes[0].current, "3");
}

#[test]
fn ascii_response_decodes_unchanged() {
    let text = quote_line("sz399001", "SZ");
    let from_bytes = parse_index_response(text.as_bytes());
    let from_text = parse_index_text(&text);
    assert_eq!(from_bytes.len(), 1);
    assert_eq!(from_bytes[0].name, from_text[0].name);
    assert_eq!(from_bytes[0].code, "sz399001");
}

fn s(x: &str) -> JsonValue {
    JsonValue::Str(x.to_string())
}

fn num(x: &str) -> JsonValue {
    JsonValue::Number(x.to_string())
}

fn obj(members: Vec<(&str, JsonValue)>) -> JsonValue {
    JsonValue::Object(
        members
            .into_iter()
            .map(|(k, v)| JsonMember { key: k.to_string(), value: v })
            .collect(),
    )
}

fn arr(items: Vec<JsonValue>) -> JsonValue {
    JsonValue::Array(items)
}

fn minute_doc(rows: Vec<JsonValue>, qt: Vec<JsonValue>) -> JsonValue {
    obj(vec![(
        "data",
        obj(vec![(
            "hkHSI",
            obj(vec![
                ("data", obj(vec![("date", s("20240830")), ("data", arr(rows))])),
                ("qt", obj(vec![("hkHSI", arr(qt))])),
            ]),
        )]),
    )])
}

#[test]
fn json_lookup() {
    let v = obj(vec![("a", s("x")), ("b", num("2")), ("a", s("y"))]);
    assert!(matches!(v.get("a"), Some(JsonValue::Str(t)) if t == "x"));
    assert!(matches!(v.get("b"), Some(JsonValue::Number(t)) if t == "2"));
    assert!(v.get("c").is_none());
    assert!(s("a").get("a").is_none());
    assert_eq!(s("abc").as_str(), Some("abc"));
    assert!(num("1").as_str().is_none());
    assert_eq!(arr(vec![JsonValue::Null]).as_array().map(|a| a.len()), Some(1));
}

#[test]
fn minute_rows_are_read() {
    let rows = vec![
        s("0930 17000.5 100 1700050"),
        JsonValue::Null,
        s("0931 17001"),
        s("093200 17002 250"),
        s("  0933\t17003  300 5100900  extra "),
        s("9:3 1 2"),
    ];
    let mut qt: Vec<JsonValue> = (0..90).map(|i| s(&i.to_string())).collect();
    qt[86] = s("17100.2");
    let series = minute_series_from_json(&minute_doc(rows, qt), "hkHSI").ok().unwrap();
    assert_eq!(series.date, "20240830");
    assert_eq!(series.rows.len(), 4);
    let r0 = &series.rows[0];
    assert_eq!((r0.row_index, r0.time.as_str(), r0.price.as_str(), r0.cum_volume.as_str()), (0, "09:30", "17000.5", "100"));
    assert_eq!(r0.cum_amount.as_deref(), Some("1700050"));
    let r1 = &series.rows[1];
    assert_eq!((r1.row_index, r1.time.as_str()), (3, "09:32"));
    assert!(r1.cum_amount.is_none());
    assert_eq!(series.rows[2].row_index, 4);
    assert_eq!(series.rows[2].cum_amount.as_deref(), Some("5100900"));
    assert_eq!(series.rows[3].time, "9:3");
    assert_eq!(series.qt_primary.as_deref(), Some("17100.2"));
    assert_eq!(series.qt_fallback.as_deref(), Some("4"));
}

#[test]
fn minute_errors() {
    let empty = obj(vec![]);
    assert!(matches!(minute_series_from_json(&empty, "hkHSI"), Err(MinuteError::MissingNode)));
    let no_data = obj(vec![("data", obj(vec![("hkHSI", obj(vec![]))]))]);
    assert!(matches!(minute_series_from_json(&no_data, "hkHSI"), Err(MinuteError::MissingDataNode)));
    let no_rows = obj(vec![("data", obj(vec![("hkHSI", obj(vec![("data", obj(vec![("data", s("x"))]))]))]))]);
    assert!(matches!(minute_series_from_json(&no_rows, "hkHSI"), Err(MinuteError::MissingRows)));
    let bad_rows = minute_doc(vec![s("0930 1"), num("3")], vec![]);
    assert!(matches!(minute_series_from_json(&bad_rows, "hkHSI"), Err(MinuteError::NoRows)));
    let short_qt = minute_series_from_json(&minute_doc(vec![s("0930 1 2")], vec![s("a")]), "hkHSI").ok().unwrap();
    assert!(short_qt.qt_primary.is_none());
    assert!(short_qt.qt_fallback.is_none());
    assert!(matches!(minute_series_from_json(&minute_doc(vec![s("0930 1 2")], vec![]), "sh000001"), Err(MinuteError::MissingNode)));
}

fn kline_doc(node: JsonValue) -> JsonValue {
    obj(vec![("data", obj(vec![("us.DJI", node)]))])
}

#[test]
fn kline_bars_are_read() {
    let rows = arr(vec![
        arr(vec![s("2024-08-29"), s("1.5"), s("2"), s("3"), s("0.5"), s("1000")]),
        arr(vec![s(""), s("1"), s("1"), s("1"), s("1"), s("1")]),
        arr(vec![s("2024-08-30"), num("1.25"), num("7"), JsonValue::Null, s(""), s("9"), s("extra")]),
        arr(vec![s("2024-08-31"), s("1")]),
        s("prec"),
        arr(vec![num("20240901"), s("1"), s("1"), s("1"), s("1"), s("1")]),
    ]);
    let doc = kline_doc(obj(vec![("qfqday", rows), ("prec", s("3"))]));
    let data = kline_data_from_json(&doc, "r_us.DJI", "day").ok().unwrap();
    assert_eq!(data.code, "r_us.DJI");
    assert_eq!(data.period, "day");
    assert_eq!(data.bars.len(), 2);
    let b = &data.bars[0];
    assert_eq!((b.date.as_str(), b.open.as_str(), b.close.as_str(), b.high.as_str(), b.low.as_str(), b.volume.as_str()), ("2024-08-29", "1.5", "2", "3", "0.5", "1000"));
    let b = &data.bars[1];
    assert_eq!((b.date.as_str(), b.open.as_str(), b.close.as_str(), b.high.as_str(), b.low.as_str(), b.volume.as_str()), ("2024-08-30", "1.25", "7", "", "", "9"));
}

#[test]
fn kline_period_array_fallback() {
    let row = arr(vec![s("2024-08-30"), s("1"), s("2"), s("3"), s("4"), s("5")]);
    // qfq<period> present but not an array: the plain period array is used.
    let doc = kline_doc(obj(vec![("qfqweek", s("x")), ("week", arr(vec![row.clone_row()]))]));
    let data = kline_data_from_json(&doc, "r_us.DJI", "week").ok().unwrap();
    assert_eq!(data.bars.len(), 1);
    let doc = kline_doc(obj(vec![("month", arr(vec![row]))]));
    assert_eq!(kline_data_from_json(&doc, "r_us.DJI", "month").ok().unwrap().bars.len(), 1);
}

trait CloneRow {
    fn clone_row(&self) -> JsonValue;
}

impl CloneRow for JsonValue {
    fn clone_row(&self) -> JsonValue {
        match self {
            JsonValue::Array(items) => JsonValue::Array(items.iter().map(|i| i.clone_row()).collect()),
            JsonValue::Str(t) => JsonValue::Str(t.clone()),
            JsonValue::Number(t) => JsonValue::Number(t.clone()),
            JsonValue::Bool(b) => JsonValue::Bool(*b),
            JsonValue::Null => JsonValue::Null,
            JsonValue::Object(ms) => JsonValue::Object(
                ms.iter().map(|m| JsonMember { key: m.key.clone(), value: m.value.clone_row() }).collect(),
            ),
        }
    }
}

#[test]
fn kline_errors() {
    assert!(matches!(kline_data_from_json(&obj(vec![]), "r_us.DJI", "day"), Err(KlineError::MissingNode)));
    // The node is looked up under the chart code, not the internal one.
    let wrong = obj(vec![("data", obj(vec![("r_us.DJI", obj(vec![]))]))]);
    assert!(matches!(kline_data_from_json(&wrong, "r_us.DJI", "day"), Err(KlineError::MissingNode)));
    let no_arr = kline_doc(obj(vec![("qfqday", s("x"))]));
    assert!(matches!(kline_data_from_json(&no_arr, "r_us.DJI", "day"), Err(KlineError::MissingPeriodArray)));
    let no_bars = kline_doc(obj(vec![("day", arr(vec![arr(vec![s(""), s("1"), s("1"), s("1"), s("1"), s("1")])]))]));
    assert!(matches!(kline_data_from_json(&no_bars, "r_us.DJI", "day"), Err(KlineError::NoBars)));
}

#[test]
fn lines_parse_independently() {
    let a = format!("{}\n\nnoise", quote_line("sh000300", "CSI300"));
    let b = format!("{}\r\n{}", quote_line("r_us.INX", "SPX"), quote_line("sz399006", "GEM"));
    let joined = parse_index_text(&format!("{}\n{}", a, b));
    let separate: Vec<String> = parse_index_text(&a)
        .into_iter()
        .chain(parse_index_text(&b))
        .map(|q| q.code)
        .collect();
    assert_eq!(joined.into_iter().map(|q| q.code).collect::<Vec<_>>(), separate);
    assert_eq!(separate, ["sh000300", "r_us.INX", "sz399006"]);
}

#[test]
fn json_bodies_are_read() {
    let v = hq_kanban::parse_json(br#"{"b": [1, 2.5, "x", null, true], "a": {}}"#).ok().unwrap();
    match v.get("b").and_then(|b| b.as_array()) {
        Some(items) => {
            assert!(matches!(&items[0], JsonValue::Number(t) if t == "1"));
            assert!(matches!(&items[1], JsonValue::Number(t) if t == "2.5"));
            assert_eq!(items[2].as_str(), Some("x"));
            assert!(matches!(items[3], JsonValue::Null));
            assert!(matches!(items[4], JsonValue::Bool(true)));
        }
        None => panic!("no array"),
    }
    assert!(matches!(v.get("a"), Some(JsonValue::Object(m)) if m.is_empty()));
    assert!(hq_kanban::parse_json(b"not json").is_err());
    assert!(hq_kanban::parse_json(b"").is_err());
}

#[test]
fn minute_and_kline_bodies() {
    let body = br#"{"data":{"us.DJI":{"data":{"date":"20240830","data":["0930 41000.1 1000","0931 41001 2500 100"]},"qt":{"us.DJI":["a","b","c","d","40999.5"]}}}}"#;
    let s = minute_series_from_body(body, "us.DJI").ok().unwrap();
    assert_eq!(s.date, "20240830");
    assert_eq!(s.rows.len(), 2);
    assert_eq!(s.rows[1].time, "09:31");
    assert_eq!(s.rows[1].cum_amount.as_deref(), Some("100"));
    assert!(s.qt_primary.is_none());
    assert_eq!(s.qt_fallback.as_deref(), Some("40999.5"));
    assert!(matches!(minute_series_from_body(b"<html>", "us.DJI"), Err(MinuteError::NotJson(_))));
    assert!(matches!(minute_series_from_body(b"{}", "us.DJI"), Err(MinuteError::MissingNode)));

    let body = br#"{"data":{"hkHSI":{"qfqday":[["2024-08-30","17000","17100.5",17200,16900.25,"123456"]],"prec":"1"}}}"#;
    let d = kline_data_from_body(body, "r_hkHSI", "day").ok().unwrap();
    assert_eq!(d.code, "r_hkHSI");
    assert_eq!(d.bars.len(), 1);
    assert_eq!(d.bars[0].close, "17100.5");
    assert_eq!(d.bars[0].high, "17200");
    assert_eq!(d.bars[0].low, "16900.25");
    assert!(matches!(kline_data_from_body(b"[1,", "r_hkHSI", "day"), Err(KlineError::NotJson(_))));
    assert!(matches!(kline_data_from_body(b"{\"data\":{}}", "r_hkHSI", "day"), Err(KlineError::MissingNode)));
}
