use vstd::prelude::*;

use crate::request::{is_code_char, spec_ifzq_code, valid_code, valid_period};
use crate::text::{decimal, digit_char, has_prefix, push_decimal};

verus! {

/// The indices shown on the dashboard, in display order, as the quote
/// service names them.
pub const INDEX_CODES: &'static str = "sh000001,sz399001,sz399006,sh000300,sh000016,sh000905,r_hkHSI,r_hkHSTECH,r_us.DJI,r_us.IXIC,r_us.INX";

/// Address of the real-time quote service.
pub const QUOTE_URL_PREFIX: &'static str = "https://qt.gtimg.cn/q=";

/// Address of the intraday (minute) chart service.
pub const MINUTE_URL_PREFIX: &'static str = "https://web.ifzq.gtimg.cn/appstock/app/minute/query?code=";

/// Address of the K-line chart service.
pub const KLINE_URL_PREFIX: &'static str = "https://web.ifzq.gtimg.cn/appstock/app/fqkline/get?param=";

/// The quote request for all dashboard indices.
pub fn index_url() -> (res: String)
    ensures
        res@ == QUOTE_URL_PREFIX@ + INDEX_CODES@,
{
    let mut s = QUOTE_URL_PREFIX.to_owned();
    s.append(INDEX_CODES);
    s
}

/// The intraday request for an index, given its chart-endpoint code.
pub fn minute_url(ifzq: &str) -> (res: String)
    ensures
        res@ == MINUTE_URL_PREFIX@ + ifzq@,
{
    let mut s = MINUTE_URL_PREFIX.to_owned();
    s.append(ifzq);
    s
}

/// The forward-adjusted K-line request: `param=<code>,<period>,,,<count>,qfq`.
pub open spec fn spec_kline_url(ifzq: Seq<char>, period: Seq<char>, count: u32) -> Seq<char> {
    KLINE_URL_PREFIX@ + ifzq + ","@ + period + ",,,"@ + decimal(count as nat) + ",qfq"@
}

/// The K-line request for an index, period and bar count.
pub fn kline_url(ifzq: &str, period: &str, count: u32) -> (res: String)
    ensures
        res@ == spec_kline_url(ifzq@, period@, count),
{
    let mut s = KLINE_URL_PREFIX.to_owned();
    s.append(ifzq);
    s.append(",");
    s.append(period);
    s.append(",,,");
    push_decimal(&mut s, count);
    s.append(",qfq");
    s
}

/// The greeting text `Hello, <name>! You've been greeted from Rust!`.
pub fn greet(name: &str) -> (res: String)
    ensures
        res@ == "Hello, "@ + name@ + "! You've been greeted from Rust!"@,
{
    let mut s = "Hello, ".to_owned();
    s.append(name);
    s.append("! You've been greeted from Rust!");
    s
}

} // verus!

verus! {

proof fn lemma_decimal_digits(n: nat)
    ensures
        forall|i: int| 0 <= i < decimal(n).len() ==> {
            let c = #[trigger] decimal(n)[i];
            '0' <= c && c <= '9'
        },
    decreases n,
{
    let d = (n % 10) as nat;
    let last = digit_char(d);
    assert('0' <= last && last <= '9');
    if n >= 10 {
        lemma_decimal_digits(n / 10);
        let prev = decimal(n / 10);
        assert forall|i: int| 0 <= i < decimal(n).len() implies {
            let c = #[trigger] decimal(n)[i];
            '0' <= c && c <= '9'
        } by {
            if i < prev.len() {
                assert(decimal(n)[i] == prev[i]);
            } else {
                assert(decimal(n)[i] == last);
            }
        }
    } else {
        assert(decimal(n) == seq![last]);
    }
}

/// A checked request cannot reach beyond its query parameter: after the
/// fixed service address, the K-line request holds only code characters
/// and the commas that separate the parameter's parts, and the intraday
/// request only code characters.
pub proof fn law_checked_request_stays_in_parameter(code: Seq<char>, period: Seq<char>, count: u32)
    requires
        valid_code(code),
        valid_period(period),
    ensures
        ({
            let url = spec_kline_url(spec_ifzq_code(code), period, count);
            let prefix_len = KLINE_URL_PREFIX@.len() as int;
            forall|i: int| prefix_len <= i < url.len() ==> is_code_char(#[trigger] url[i]) || url[i] == ','
        }),
        ({
            let url = MINUTE_URL_PREFIX@ + spec_ifzq_code(code);
            let prefix_len = MINUTE_URL_PREFIX@.len() as int;
            forall|i: int| prefix_len <= i < url.len() ==> is_code_char(#[trigger] url[i])
        }),
{
    reveal_strlit(",");
    reveal_strlit(",,,");
    reveal_strlit(",qfq");
    reveal_strlit("r_");
    reveal_strlit("day");
    reveal_strlit("week");
    reveal_strlit("month");
    let ifzq = spec_ifzq_code(code);
    assert forall|i: int| 0 <= i < ifzq.len() implies is_code_char(#[trigger] ifzq[i]) by {
        if has_prefix(code, "r_"@) {
            assert(ifzq[i] == code[i + 2]);
        }
    }
    lemma_decimal_digits(count as nat);
    let digits = decimal(count as nat);
    let p = KLINE_URL_PREFIX@;
    let url = spec_kline_url(ifzq, period, count);
    let a = p.len() as int;
    let b = a + ifzq.len();
    let c = b + 1 + period.len();
    let d = c + 3 + digits.len();
    assert forall|i: int| a <= i < url.len() implies is_code_char(#[trigger] url[i]) || url[i] == ',' by {
        if i < b {
            assert(url[i] == ifzq[i - a]);
        } else if i == b {
            assert(url[i] == ',');
        } else if i < c {
            assert(url[i] == period[i - b - 1]);
        } else if i < c + 3 {
            assert(url[i] == ',');
        } else if i < d {
            assert(url[i] == digits[i - c - 3]);
        } else {
            assert(url[i] == ",qfq"@[i - d]);
        }
    }
    let m = MINUTE_URL_PREFIX@ + ifzq;
    assert forall|i: int| MINUTE_URL_PREFIX@.len() <= i < m.len() implies is_code_char(#[trigger] m[i]) by {
        assert(m[i] == ifzq[i - MINUTE_URL_PREFIX@.len()]);
    }
}

} // verus!
