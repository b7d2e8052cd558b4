use vstd::prelude::*;

use crate::text::{chars_of, chars_start_with, has_prefix, str_equal, string_of_range};

verus! {

/// Largest number of K-line bars one request may ask for.
pub const MAX_KLINE_COUNT: u32 = 2000;

/// Number of K-line bars asked for when the caller names none.
pub const DEFAULT_KLINE_COUNT: u32 = 320;

/// Why a request was refused before anything was read or fetched.
pub enum RequestError {
    /// The index code is empty or holds a character other than an ASCII
    /// letter, an ASCII digit, `.` or `_`; the code is carried along.
    InvalidCode(String),
    /// The K-line period is none of `day`, `week`, `month`.
    InvalidPeriod(String),
    /// The bar count lies outside `1..=MAX_KLINE_COUNT`.
    CountOutOfRange(u32),
}

/// A character allowed in an index code.
pub open spec fn is_code_char(c: char) -> bool {
    ||| ('0' <= c && c <= '9')
    ||| ('A' <= c && c <= 'Z')
    ||| ('a' <= c && c <= 'z')
    ||| c == '.'
    ||| c == '_'
}

/// A well-formed index code: non-empty, and only code characters.
pub open spec fn valid_code(code: Seq<char>) -> bool {
    code.len() > 0 && forall|i: int| 0 <= i < code.len() ==> #[trigger] is_code_char(code[i])
}

/// One of the three supported K-line periods.
pub open spec fn valid_period(period: Seq<char>) -> bool {
    period == "day"@ || period == "week"@ || period == "month"@
}

/// A bar count that may be requested.
pub open spec fn valid_count(count: u32) -> bool {
    1 <= count && count <= MAX_KLINE_COUNT
}

/// Checks an index code before it is put into an upstream URL or a cache
/// file name.
pub fn validate_code(code: &str) -> (res: Result<(), RequestError>)
    ensures
        match res {
            Ok(()) => valid_code(code@),
            Err(RequestError::InvalidCode(c)) => !valid_code(code@) && c@ == code@,
            Err(_) => false,
        },
{
    let cs = chars_of(code);
    let mut ok = cs.len() > 0;
    let mut i: usize = 0;
    while i < cs.len()
        invariant
            cs@ == code@,
            i <= cs@.len(),
            ok == (cs@.len() > 0 && forall|k: int| 0 <= k < i ==> #[trigger] is_code_char(cs@[k])),
        decreases cs.len() - i,
    {
        let c = cs[i];
        let good = ('0' <= c && c <= '9') || ('A' <= c && c <= 'Z') || ('a' <= c && c <= 'z')
            || c == '.' || c == '_';
        proof {
            if ok && !good {
                assert(!is_code_char(cs@[i as int]));
            }
        }
        ok = ok && good;
        i = i + 1;
    }
    if ok {
        Ok(())
    } else {
        Err(RequestError::InvalidCode(code.to_owned()))
    }
}

/// Checks a K-line period.
pub fn validate_period(period: &str) -> (res: Result<(), RequestError>)
    ensures
        match res {
            Ok(()) => valid_period(period@),
            Err(RequestError::InvalidPeriod(p)) => !valid_period(period@) && p@ == period@,
            Err(_) => false,
        },
{
    if str_equal(period, "day") || str_equal(period, "week") || str_equal(period, "month") {
        Ok(())
    } else {
        Err(RequestError::InvalidPeriod(period.to_owned()))
    }
}

/// Checks a K-line bar count.
pub fn validate_kline_count(count: u32) -> (res: Result<(), RequestError>)
    ensures
        match res {
            Ok(()) => valid_count(count),
            Err(RequestError::CountOutOfRange(n)) => !valid_count(count) && n == count,
            Err(_) => false,
        },
{
    if count >= 1 && count <= MAX_KLINE_COUNT {
        Ok(())
    } else {
        Err(RequestError::CountOutOfRange(count))
    }
}

/// The bar count to request: the caller's, or the default.
pub fn kline_count_or_default(count: Option<u32>) -> (res: u32)
    ensures
        res == match count {
            Some(n) => n,
            None => DEFAULT_KLINE_COUNT,
        },
{
    match count {
        Some(n) => n,
        None => DEFAULT_KLINE_COUNT,
    }
}

/// Cache lifetime of a period: 10 minutes for `week`, 30 minutes for
/// `month`, 60 seconds for `day` and any other period.
pub open spec fn spec_period_ttl_ms(period: Seq<char>) -> u64 {
    if period == "week"@ {
        600_000
    } else if period == "month"@ {
        1_800_000
    } else {
        60_000
    }
}

/// How long, in milliseconds, a cached series of `period` stays fresh.
pub fn period_ttl_ms(period: &str) -> (res: u64)
    ensures
        res == spec_period_ttl_ms(period@),
{
    if str_equal(period, "week") {
        600_000
    } else if str_equal(period, "month") {
        1_800_000
    } else {
        60_000
    }
}

/// The market an index code belongs to: `a` for `sh`/`sz` codes, `hk` for
/// `r_hk` codes, `us` for `r_us` codes, `unknown` otherwise.
pub open spec fn spec_market_type(code: Seq<char>) -> Seq<char> {
    if has_prefix(code, "sh"@) || has_prefix(code, "sz"@) {
        "a"@
    } else if has_prefix(code, "r_hk"@) {
        "hk"@
    } else if has_prefix(code, "r_us"@) {
        "us"@
    } else {
        "unknown"@
    }
}

/// The market of an index code.
pub fn market_type(code: &str) -> (res: String)
    ensures
        res@ == spec_market_type(code@),
{
    let cs = chars_of(code);
    if chars_start_with(&cs, "sh") || chars_start_with(&cs, "sz") {
        "a".to_owned()
    } else if chars_start_with(&cs, "r_hk") {
        "hk".to_owned()
    } else if chars_start_with(&cs, "r_us") {
        "us".to_owned()
    } else {
        "unknown".to_owned()
    }
}

/// The code as the chart endpoints name it: a leading `r_` is dropped,
/// any other code is kept as it is.
pub open spec fn spec_ifzq_code(code: Seq<char>) -> Seq<char> {
    if has_prefix(code, "r_"@) {
        code.skip("r_"@.len() as int)
    } else {
        code
    }
}

/// Normalises an internal index code for the chart endpoints.
pub fn ifzq_code(code: &str) -> (res: String)
    ensures
        res@ == spec_ifzq_code(code@),
{
    let cs = chars_of(code);
    if chars_start_with(&cs, "r_") {
        let p = chars_of("r_");
        let res = string_of_range(&cs, p.len(), cs.len());
        assert(cs@.subrange(p@.len() as int, cs@.len() as int) =~= cs@.skip(p@.len() as int));
        res
    } else {
        code.to_owned()
    }
}

} // verus!

verus! {

/// The chart code drops exactly a leading `r_` and nothing else: a code
/// that does not begin with the two characters `r`, `_` is its own chart
/// code, and one that does loses just those two characters.
pub proof fn law_chart_code(code: Seq<char>)
    ensures
        (code.len() >= 2 && code[0] == 'r' && code[1] == '_') ==> spec_ifzq_code(code) == code.skip(2),
        !(code.len() >= 2 && code[0] == 'r' && code[1] == '_') ==> spec_ifzq_code(code) == code,
{
    reveal_strlit("r_");
    if code.len() >= 2 && code[0] == 'r' && code[1] == '_' {
        assert(code.subrange(0, 2) =~= "r_"@);
    } else if has_prefix(code, "r_"@) {
        assert(code[0] == code.subrange(0, 2)[0]);
        assert(code[1] == code.subrange(0, 2)[1]);
    }
}

} // verus!
