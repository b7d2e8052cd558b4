use vstd::prelude::*;

use std::path::{Path, PathBuf};
use std::time::{Duration, SystemTime, SystemTimeError, UNIX_EPOCH};

use crate::kline::{KlineBar, KlineData};
use crate::request::{is_code_char, spec_period_ttl_ms, valid_code, valid_period};

verus! {

#[verifier::external_type_specification]
#[verifier::external_body]
pub struct ExSystemTime(SystemTime);

#[verifier::external_type_specification]
#[verifier::external_body]
pub struct ExSystemTimeError(SystemTimeError);

#[verifier::external_type_specification]
#[verifier::external_body]
pub struct ExPath(Path);

#[verifier::external_type_specification]
#[verifier::external_body]
pub struct ExPathBuf(PathBuf);

/// `SystemTime::now`: the current wall-clock time. Nothing is stated of it.
#[verifier::external_body]
fn system_time_now() -> SystemTime {
    SystemTime::now()
}

/// `SystemTime::duration_since(UNIX_EPOCH)`: the time elapsed since the
/// Unix epoch, or an error when the clock reads earlier than the epoch.
/// Nothing is stated of the outcome.
#[verifier::external_body]
fn since_unix_epoch(t: &SystemTime) -> Result<Duration, SystemTimeError> {
    t.duration_since(UNIX_EPOCH)
}

/// `Duration::as_millis`: the whole milliseconds of a duration. A
/// `Duration` is opaque here, so nothing is stated of the number.
#[verifier::external_body]
fn duration_millis(d: &Duration) -> u128 {
    d.as_millis()
}

/// What `Path::join` gives for a directory and a name.
pub uninterp spec fn joined_path(dir: &Path, name: Seq<char>) -> PathBuf;

/// `Path::join`: `dir` with `name` adjoined as a further component. The
/// result depends on the two arguments alone, which `joined_path` names;
/// what the path looks like is not stated.
#[verifier::external_body]
fn path_join(dir: &Path, name: &str) -> (res: PathBuf)
    ensures
        res == joined_path(dir, name@),
{
    dir.join(name)
}

/// A clock reading as a 64-bit millisecond count: the elapsed milliseconds
/// since the Unix epoch truncated to their low 64 bits, or 0 when the clock
/// read earlier than the epoch (`None`).
pub open spec fn spec_epoch_millis(elapsed: Option<u128>) -> u64 {
    match elapsed {
        Some(ms) => ms as u64,
        None => 0,
    }
}

/// Turns the milliseconds elapsed since the Unix epoch (if the clock read
/// later than it) into the 64-bit count that cache entries store.
pub fn epoch_millis(elapsed: Option<u128>) -> (res: u64)
    ensures
        res == spec_epoch_millis(elapsed),
{
    match elapsed {
        Some(ms) => ms as u64,
        None => 0,
    }
}

/// Milliseconds since the Unix epoch by the wall clock, truncated to 64
/// bits; 0 when the clock reads earlier than the epoch. The reading itself
/// is not known here, so no clause states the value; `epoch_millis` states
/// what is made of the reading.
pub fn now_ms() -> u64 {
    let now = system_time_now();
    let elapsed = match since_unix_epoch(&now) {
        Ok(d) => Some(duration_millis(&d)),
        Err(_) => None,
    };
    epoch_millis(elapsed)
}

} // verus!

verus! {

/// A K-line series saved to disk, with the wall-clock time it was fetched.
pub struct CachedKline {
    pub code: String,
    pub period: String,
    /// Milliseconds since the Unix epoch; 0 marks an entry of unknown age.
    pub fetched_at: u64,
    pub bars: Vec<KlineBar>,
}

/// The name of the cache file of a series: `<code>_<period>.json`.
pub open spec fn spec_cache_file_name(code: Seq<char>, period: Seq<char>) -> Seq<char> {
    code + "_"@ + period + ".json"@
}

/// The name of the temporary file a new cache entry is first written to.
pub open spec fn spec_cache_tmp_file_name(code: Seq<char>, period: Seq<char>) -> Seq<char> {
    code + "_"@ + period + ".json.tmp"@
}

/// The name of the cache file of a series.
pub fn cache_file_name(code: &str, period: &str) -> (res: String)
    ensures
        res@ == spec_cache_file_name(code@, period@),
{
    let mut s = code.to_owned();
    s.append("_");
    s.append(period);
    s.append(".json");
    s
}

/// The name of the temporary file of a series.
pub fn cache_tmp_file_name(code: &str, period: &str) -> (res: String)
    ensures
        res@ == spec_cache_tmp_file_name(code@, period@),
{
    let mut s = code.to_owned();
    s.append("_");
    s.append(period);
    s.append(".json.tmp");
    s
}

/// The cache file of a series inside the cache directory `dir`: `dir`
/// joined with `cache_file_name(code, period)`.
pub fn cache_file(dir: &Path, code: &str, period: &str) -> (res: PathBuf)
    ensures
        res == joined_path(dir, spec_cache_file_name(code@, period@)),
{
    let name = cache_file_name(code, period);
    path_join(dir, name.as_str())
}

/// The temporary file of a series inside the cache directory `dir`.
pub fn cache_tmp_file(dir: &Path, code: &str, period: &str) -> (res: PathBuf)
    ensures
        res == joined_path(dir, spec_cache_tmp_file_name(code@, period@)),
{
    let name = cache_tmp_file_name(code, period);
    path_join(dir, name.as_str())
}

/// An entry fetched at `fetched_at` is fresh at `now` for `ttl_ms` when its
/// time is known (non-zero) and it is at most `ttl_ms` old; a fetch time
/// after `now` counts as age 0.
pub open spec fn spec_fresh_at(fetched_at: u64, now: u64, ttl_ms: u64) -> bool {
    fetched_at > 0 && (if now >= fetched_at {
        now - fetched_at
    } else {
        0
    }) <= ttl_ms
}

/// Whether an entry fetched at `fetched_at` is fresh at `now`.
pub fn fresh_at(fetched_at: u64, now: u64, ttl_ms: u64) -> (res: bool)
    ensures
        res == spec_fresh_at(fetched_at, now, ttl_ms),
{
    let age = if now >= fetched_at {
        now - fetched_at
    } else {
        0
    };
    fetched_at > 0 && age <= ttl_ms
}

/// Whether a cache entry is still fresh by the wall clock. What the clock
/// reads is not known here; whatever it reads, the answer is `fresh_at` of
/// that reading, so an entry of unknown age is never fresh.
pub fn is_fresh(entry: &CachedKline, ttl_ms: u64) -> (res: bool)
    ensures
        exists|now: u64| res == spec_fresh_at(entry.fetched_at, now, ttl_ms),
        res ==> entry.fetched_at > 0,
{
    let now = now_ms();
    fresh_at(entry.fetched_at, now, ttl_ms)
}

/// A cache entry for a series fetched at `fetched_at`.
pub fn cache_entry_at(code: &str, period: &str, bars: Vec<KlineBar>, fetched_at: u64) -> (res:
    CachedKline)
    ensures
        res.code@ == code@,
        res.period@ == period@,
        res.bars@ == bars@,
        res.fetched_at == fetched_at,
{
    CachedKline { code: code.to_owned(), period: period.to_owned(), fetched_at, bars }
}

/// A cache entry for a freshly fetched series, stamped with the wall clock
/// (`cache_entry_at` with the reading of `now_ms`, which is not known here).
pub fn new_cache_entry(code: &str, period: &str, bars: Vec<KlineBar>) -> (res: CachedKline)
    ensures
        res.code@ == code@,
        res.period@ == period@,
        res.bars@ == bars@,
{
    cache_entry_at(code, period, bars, now_ms())
}

/// The series a cache entry holds, under the code and period stored in it.
pub fn cached_series(entry: CachedKline) -> (res: KlineData)
    ensures
        res.code@ == entry.code@,
        res.period@ == entry.period@,
        res.bars@ == entry.bars@,
{
    KlineData { code: entry.code, period: entry.period, bars: entry.bars }
}

} // verus!

verus! {

/// A checked code and period give a cache file name that holds no path
/// separator, so the file stays inside the cache directory.
pub proof fn law_cache_file_name_stays_in_dir(code: Seq<char>, period: Seq<char>)
    requires
        valid_code(code),
        valid_period(period),
    ensures
        forall|i: int|
            0 <= i < spec_cache_file_name(code, period).len() ==> {
                let c = #[trigger] spec_cache_file_name(code, period)[i];
                c != '/' && c != '\\'
            },
{
    reveal_strlit("_");
    reveal_strlit(".json");
    reveal_strlit("day");
    reveal_strlit("week");
    reveal_strlit("month");
    let name = spec_cache_file_name(code, period);
    assert forall|i: int| 0 <= i < name.len() implies #[trigger] name[i] != '/' && name[i] != '\\' by {
        if i < code.len() {
            assert(name[i] == code[i]);
            assert(is_code_char(code[i]));
        } else if i < code.len() + 1 {
            assert(name[i] == '_');
        } else if i < code.len() + 1 + period.len() {
            assert(name[i] == period[i - code.len() - 1]);
        } else {
            assert(name[i] == ".json"@[i - code.len() - 1 - period.len()]);
        }
    }
}

/// Series of longer periods stay fresh longer: a day series for 60 s, a
/// week series for 10 min, a month series for 30 min.
pub proof fn law_longer_periods_cache_longer()
    ensures
        spec_period_ttl_ms("day"@) == 60_000,
        spec_period_ttl_ms("week"@) == 600_000,
        spec_period_ttl_ms("month"@) == 1_800_000,
{
    reveal_strlit("day");
    reveal_strlit("week");
    reveal_strlit("month");
    assert("day"@.len() != "week"@.len());
    assert("day"@.len() != "month"@.len());
    assert("week"@.len() != "month"@.len());
}

} // verus!
