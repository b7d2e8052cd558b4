use std::path::{Path, PathBuf};

use hq_kanban::{
    cache_file, cache_file_name, cache_tmp_file, cache_tmp_file_name, cached_series, fresh_at,
    is_fresh, new_cache_entry, now_ms, CachedKline, KlineAction, KlineBar, KlineEvent, KlineFetch,
    KlineStage, RequestError,
};

fn bar(date: &str) -> KlineBar {
    KlineBar {
        date: date.to_string(),
        open: "1".to_string(),
        close: "2".to_string(),
        high: "3".to_string(),
        low: "0.5".to_string(),
        volume: "10".to_string(),
    }
}

#[test]
fn cache_file_names() {
    assert_eq!(cache_file_name("sh000001", "day"), "sh000001_day.json");
    assert_eq!(cache_tmp_file_name("r_us.DJI", "week"), "r_us.DJI_week.json.tmp");
    let dir = Path::new("/tmp/kline_cache");
    assert_eq!(cache_file(dir, "sh000001", "day"), PathBuf::from("/tmp/kline_cache/sh000001_day.json"));
    assert_eq!(cache_tmp_file(dir, "a", "month"), PathBuf::from("/tmp/kline_cache/a_month.json.tmp"));
}

#[test]
fn freshness() {
    assert!(fresh_at(1_000, 61_000, 60_000));
    assert!(!fresh_at(1_000, 61_001, 60_000));
    assert!(!fresh_at(0, 0, 60_000));
    assert!(fresh_at(5_000, 1_000, 0));
    let clock = now_ms();
    assert!(clock > 1_600_000_000_000);
    let entry = CachedKline { code: "a".into(), period: "day".into(), fetched_at: 0, bars: vec![] };
    assert!(!is_fresh(&entry, u64::MAX));
    let entry = CachedKline { fetched_at: clock, ..entry };
    assert!(is_fresh(&entry, 60_000));
    let old = CachedKline { fetched_at: 1, ..entry };
    assert!(!is_fresh(&old, 60_000));
}

#[test]
fn cache_entries() {
    let before = now_ms();
    let entry = new_cache_entry("sh000001", "day", vec![bar("2024-08-30")]);
    assert_eq!(entry.code, "sh000001");
    assert_eq!(entry.period, "day");
    assert!(entry.fetched_at >= before);
    assert_eq!(entry.bars.len(), 1);
    let data = cached_series(entry);
    assert_eq!(data.code, "sh000001");
    assert_eq!(data.period, "day");
    assert_eq!(data.bars[0].date, "2024-08-30");
}

fn run(start: (KlineFetch, KlineAction), events: Vec<KlineEvent>) -> Vec<KlineAction> {
    let (mut f, a) = start;
    let mut out = vec![a];
    for e in events {
        if !f.accepts(&e) {
            break;
        }
        out.push(f.step(e));
    }
    out
}

fn start(prefer: Option<bool>, dir: bool) -> (KlineFetch, KlineAction) {
    KlineFetch::start("sh000001", "day", 320, prefer, dir).ok().unwrap()
}

#[test]
fn start_validates_in_order() {
    assert!(matches!(KlineFetch::start("a/b", "year", 0, None, true), Err(RequestError::InvalidCode(_))));
    assert!(matches!(KlineFetch::start("ab", "year", 0, None, true), Err(RequestError::InvalidPeriod(_))));
    assert!(matches!(KlineFetch::start("ab", "day", 0, None, true), Err(RequestError::CountOutOfRange(0))));
    let (f, a) = start(None, true);
    assert!(f.stage == KlineStage::CheckFresh && a == KlineAction::ReadCache);
    assert_eq!(f.ttl_ms, 60_000);
    let (f, a) = start(Some(false), false);
    assert!(f.stage == KlineStage::AwaitRemote && a == KlineAction::FetchRemote);
    let (f, a) = start(Some(true), false);
    assert!(f.stage == KlineStage::Done && a == KlineAction::FailNoCache);
    let (f, a) = start(Some(true), true);
    assert!(f.stage == KlineStage::CacheOnly && a == KlineAction::ReadCache);
}

#[test]
fn cache_first_mode() {
    let hit = KlineEvent::CacheHit { fetched_at: 1, now_ms: 10_000_000 };
    assert!(run(start(Some(true), true), vec![hit]) == vec![KlineAction::ReadCache, KlineAction::ReturnCached]);
    assert!(run(start(Some(true), true), vec![KlineEvent::CacheMiss, KlineEvent::RemoteOk]) == vec![KlineAction::ReadCache, KlineAction::FailNoCache]);
}

#[test]
fn fresh_cache_answers() {
    let hit = KlineEvent::CacheHit { fetched_at: 1_000, now_ms: 2_000 };
    assert!(run(start(None, true), vec![hit, KlineEvent::RemoteOk]) == vec![KlineAction::ReadCache, KlineAction::ReturnCached]);
}

#[test]
fn stale_cache_refetches_and_stores() {
    let stale = KlineEvent::CacheHit { fetched_at: 1_000, now_ms: 1_000_000 };
    assert!(run(start(None, true), vec![stale, KlineEvent::RemoteOk]) == vec![KlineAction::ReadCache, KlineAction::FetchRemote, KlineAction::ReturnRemote { store: true }]);
    let unknown_age = KlineEvent::CacheHit { fetched_at: 0, now_ms: 0 };
    assert!(run(start(None, true), vec![unknown_age, KlineEvent::RemoteOk]) == vec![KlineAction::ReadCache, KlineAction::FetchRemote, KlineAction::ReturnRemote { store: true }]);
    assert!(run(start(None, false), vec![KlineEvent::RemoteOk]) == vec![KlineAction::FetchRemote, KlineAction::ReturnRemote { store: false }]);
}

#[test]
fn network_failure_falls_back() {
    let stale = KlineEvent::CacheHit { fetched_at: 1, now_ms: 1_000_000_000 };
    assert!(run(start(None, true), vec![KlineEvent::CacheMiss, KlineEvent::RemoteFailed, stale]) == vec![KlineAction::ReadCache, KlineAction::FetchRemote, KlineAction::ReadCache, KlineAction::ReturnCached]);
    assert!(run(start(None, true), vec![KlineEvent::CacheMiss, KlineEvent::RemoteFailed, KlineEvent::CacheMiss]) == vec![KlineAction::ReadCache, KlineAction::FetchRemote, KlineAction::ReadCache, KlineAction::FailRemote]);
    assert!(run(start(None, false), vec![KlineEvent::RemoteFailed]) == vec![KlineAction::FetchRemote, KlineAction::FailRemote]);
}

#[test]
fn events_out_of_turn_are_not_accepted() {
    let (f, _) = start(None, true);
    assert!(!f.accepts(&KlineEvent::RemoteOk));
    let (f, _) = start(None, false);
    assert!(!f.accepts(&KlineEvent::CacheMiss));
    let (f, _) = start(Some(true), false);
    assert!(!f.accepts(&KlineEvent::CacheMiss));
}

#[test]
fn checked_cache_names_have_no_separator() {
    for code in ["..", "r_us.DJI", "sh000001", "_"] {
        for period in ["day", "week", "month"] {
            assert!(KlineFetch::start(code, period, 1, None, true).is_ok());
            let name = cache_file_name(code, period);
            assert!(!name.contains('/') && !name.contains('\\'), "{}", name);
            assert_eq!(Path::new("/c").join(&name).parent(), Some(Path::new("/c")));
        }
    }
}

#[test]
fn epoch_millis_truncates() {
    assert_eq!(hq_kanban::epoch_millis(None), 0);
    assert_eq!(hq_kanban::epoch_millis(Some(1_725_029_869_000)), 1_725_029_869_000);
    assert_eq!(hq_kanban::epoch_millis(Some((1u128 << 64) + 5)), 5);
    assert_eq!(hq_kanban::epoch_millis(Some(u64::MAX as u128)), u64::MAX);
}

#[test]
fn cache_entry_at_stamps_given_time() {
    let e = hq_kanban::cache_entry_at("sz399001", "week", vec![bar("2024-08-30")], 1_725_029_869_000);
    assert_eq!(e.fetched_at, 1_725_029_869_000);
    assert_eq!(e.code, "sz399001");
    assert_eq!(e.period, "week");
    assert_eq!(e.bars[0].date, "2024-08-30");
}
