use vstd::prelude::*;

use crate::cache::{fresh_at, spec_fresh_at};
use crate::request::{
    period_ttl_ms, spec_period_ttl_ms, valid_code, valid_count, valid_period, validate_code,
    validate_kline_count, validate_period, RequestError,
};

verus! {

/// Where a K-line request stands.
#[derive(Clone, Copy, PartialEq, Eq, Structural)]
pub enum KlineStage {
    /// Cache-first mode: waiting for the cache read; the network is never used.
    CacheOnly,
    /// Waiting for the cache read that may answer without the network.
    CheckFresh,
    /// Waiting for the network.
    AwaitRemote,
    /// The network failed; waiting for the cache read that may still answer.
    Fallback,
    /// Answered.
    Done,
}

/// A K-line request in progress: the decisions of the cache policy, with
/// the reading, fetching and writing left to the caller.
#[derive(Clone, Copy)]
pub struct KlineFetch {
    pub stage: KlineStage,
    /// A cache directory is available.
    pub has_cache_dir: bool,
    /// How long a cached series of the requested period stays fresh.
    pub ttl_ms: u64,
}

/// What the caller observed after performing the last action.
#[derive(Clone, Copy)]
pub enum KlineEvent {
    /// The cache held no readable entry.
    CacheMiss,
    /// The cache held an entry fetched at `fetched_at`; `now_ms` is the
    /// wall clock when it was read.
    CacheHit { fetched_at: u64, now_ms: u64 },
    /// The network answered with a series.
    RemoteOk,
    /// The network request or the parsing of its answer failed.
    RemoteFailed,
}

/// What the caller is to do next.
#[derive(Clone, Copy, PartialEq, Eq, Structural)]
pub enum KlineAction {
    /// Read the cache entry of the series.
    ReadCache,
    /// Request the series from the network.
    FetchRemote,
    /// Answer with the cache entry just read.
    ReturnCached,
    /// Answer with the series just fetched, after writing it to the cache
    /// when `store` is set.
    ReturnRemote { store: bool },
    /// Fail: cache-first mode found nothing cached.
    FailNoCache,
    /// Fail with the network error.
    FailRemote,
}

/// The first stage and action of a valid request.
pub open spec fn spec_start(prefer_cache: Option<bool>, has_cache_dir: bool, ttl_ms: u64) -> (
    KlineFetch,
    KlineAction,
) {
    if prefer_cache == Some(true) {
        if has_cache_dir {
            (KlineFetch { stage: KlineStage::CacheOnly, has_cache_dir, ttl_ms }, KlineAction::ReadCache)
        } else {
            (KlineFetch { stage: KlineStage::Done, has_cache_dir, ttl_ms }, KlineAction::FailNoCache)
        }
    } else if has_cache_dir {
        (KlineFetch { stage: KlineStage::CheckFresh, has_cache_dir, ttl_ms }, KlineAction::ReadCache)
    } else {
        (KlineFetch { stage: KlineStage::AwaitRemote, has_cache_dir, ttl_ms }, KlineAction::FetchRemote)
    }
}

/// The event is an answer to the action the stage waits on.
pub open spec fn accepts(f: KlineFetch, e: KlineEvent) -> bool {
    match f.stage {
        KlineStage::CacheOnly | KlineStage::CheckFresh | KlineStage::Fallback => e is CacheMiss
            || e is CacheHit,
        KlineStage::AwaitRemote => e is RemoteOk || e is RemoteFailed,
        KlineStage::Done => false,
    }
}

/// The next stage and action of a request after an event it accepts.
pub open spec fn spec_step(f: KlineFetch, e: KlineEvent) -> (KlineFetch, KlineAction) {
    let done = KlineFetch { stage: KlineStage::Done, ..f };
    match f.stage {
        KlineStage::CacheOnly => match e {
            KlineEvent::CacheHit { .. } => (done, KlineAction::ReturnCached),
            _ => (done, KlineAction::FailNoCache),
        },
        KlineStage::CheckFresh => match e {
            KlineEvent::CacheHit { fetched_at, now_ms } => if spec_fresh_at(
                fetched_at,
                now_ms,
                f.ttl_ms,
            ) {
                (done, KlineAction::ReturnCached)
            } else {
                (KlineFetch { stage: KlineStage::AwaitRemote, ..f }, KlineAction::FetchRemote)
            },
            _ => (KlineFetch { stage: KlineStage::AwaitRemote, ..f }, KlineAction::FetchRemote),
        },
        KlineStage::AwaitRemote => match e {
            KlineEvent::RemoteOk => (done, KlineAction::ReturnRemote { store: f.has_cache_dir }),
            _ => if f.has_cache_dir {
                (KlineFetch { stage: KlineStage::Fallback, ..f }, KlineAction::ReadCache)
            } else {
                (done, KlineAction::FailRemote)
            },
        },
        KlineStage::Fallback => match e {
            KlineEvent::CacheHit { .. } => (done, KlineAction::ReturnCached),
            _ => (done, KlineAction::FailRemote),
        },
        KlineStage::Done => (f, KlineAction::FailRemote),
    }
}

impl KlineFetch {
    /// Checks a K-line request (code, then period, then count) and decides
    /// its first action: cache-first mode reads the cache (or fails at once
    /// without a cache directory); otherwise the cache is read first when
    /// there is a directory, and the network is asked when there is none.
    pub fn start(
        code: &str,
        period: &str,
        count: u32,
        prefer_cache: Option<bool>,
        has_cache_dir: bool,
    ) -> (res: Result<(KlineFetch, KlineAction), RequestError>)
        ensures
            match res {
                Ok((f, a)) => {
                    &&& valid_code(code@)
                    &&& valid_period(period@)
                    &&& valid_count(count)
                    &&& (f, a) == spec_start(prefer_cache, has_cache_dir, spec_period_ttl_ms(period@))
                },
                Err(RequestError::InvalidCode(c)) => !valid_code(code@) && c@ == code@,
                Err(RequestError::InvalidPeriod(p)) => {
                    &&& valid_code(code@)
                    &&& !valid_period(period@)
                    &&& p@ == period@
                },
                Err(RequestError::CountOutOfRange(n)) => {
                    &&& valid_code(code@)
                    &&& valid_period(period@)
                    &&& !valid_count(count)
                    &&& n == count
                },
            },
    {
        validate_code(code)?;
        validate_period(period)?;
        validate_kline_count(count)?;
        let ttl_ms = period_ttl_ms(period);
        let cache_first = match prefer_cache {
            Some(b) => b,
            None => false,
        };
        if cache_first {
            if has_cache_dir {
                Ok((KlineFetch { stage: KlineStage::CacheOnly, has_cache_dir, ttl_ms }, KlineAction::ReadCache))
            } else {
                Ok((KlineFetch { stage: KlineStage::Done, has_cache_dir, ttl_ms }, KlineAction::FailNoCache))
            }
        } else if has_cache_dir {
            Ok((KlineFetch { stage: KlineStage::CheckFresh, has_cache_dir, ttl_ms }, KlineAction::ReadCache))
        } else {
            Ok((KlineFetch { stage: KlineStage::AwaitRemote, has_cache_dir, ttl_ms }, KlineAction::FetchRemote))
        }
    }

    /// Whether the request waits on the kind of answer `e` is.
    pub fn accepts(&self, e: &KlineEvent) -> (res: bool)
        ensures
            res == accepts(*self, *e),
    {
        match self.stage {
            KlineStage::CacheOnly | KlineStage::CheckFresh | KlineStage::Fallback => match e {
                KlineEvent::CacheMiss | KlineEvent::CacheHit { .. } => true,
                _ => false,
            },
            KlineStage::AwaitRemote => match e {
                KlineEvent::RemoteOk | KlineEvent::RemoteFailed => true,
                _ => false,
            },
            KlineStage::Done => false,
        }
    }

    /// Advances the request by what the caller observed and says what to
    /// do next.
    pub fn step(&mut self, e: KlineEvent) -> (res: KlineAction)
        requires
            accepts(*old(self), e),
        ensures
            (*final(self), res) == spec_step(*old(self), e),
    {
        match self.stage {
            KlineStage::CacheOnly => {
                self.stage = KlineStage::Done;
                match e {
                    KlineEvent::CacheHit { .. } => KlineAction::ReturnCached,
                    _ => KlineAction::FailNoCache,
                }
            },
            KlineStage::CheckFresh => {
                let fresh = match e {
                    KlineEvent::CacheHit { fetched_at, now_ms } => fresh_at(fetched_at, now_ms, self.ttl_ms),
                    _ => false,
                };
                if fresh {
                    self.stage = KlineStage::Done;
                    KlineAction::ReturnCached
                } else {
                    self.stage = KlineStage::AwaitRemote;
                    KlineAction::FetchRemote
                }
            },
            KlineStage::AwaitRemote => match e {
                KlineEvent::RemoteOk => {
                    self.stage = KlineStage::Done;
                    KlineAction::ReturnRemote { store: self.has_cache_dir }
                },
                _ => if self.has_cache_dir {
                    self.stage = KlineStage::Fallback;
                    KlineAction::ReadCache
                } else {
                    self.stage = KlineStage::Done;
                    KlineAction::FailRemote
                },
            },
            KlineStage::Fallback => {
                self.stage = KlineStage::Done;
                match e {
                    KlineEvent::CacheHit { .. } => KlineAction::ReturnCached,
                    _ => KlineAction::FailRemote,
                }
            },
            KlineStage::Done => KlineAction::FailRemote,
        }
    }
}

} // verus!

verus! {

/// The actions a request takes on a sequence of observations, one per
/// event, ending at the first event it does not wait on.
pub open spec fn run_actions(f: KlineFetch, events: Seq<KlineEvent>) -> Seq<KlineAction>
    decreases events.len(),
{
    if events.len() == 0 || !accepts(f, events[0]) {
        Seq::empty()
    } else {
        let (g, a) = spec_step(f, events[0]);
        seq![a] + run_actions(g, events.drop_first())
    }
}

/// An action that answers the request (successfully or not).
pub open spec fn is_answer(a: KlineAction) -> bool {
    !(a is ReadCache) && !(a is FetchRemote)
}

/// Most observations a request in `stage` may still take.
pub open spec fn remaining_steps(stage: KlineStage) -> nat {
    match stage {
        KlineStage::CheckFresh => 3,
        KlineStage::AwaitRemote => 2,
        KlineStage::CacheOnly | KlineStage::Fallback => 1,
        KlineStage::Done => 0,
    }
}

proof fn lemma_run_bounded(f: KlineFetch, events: Seq<KlineEvent>)
    ensures
        run_actions(f, events).len() <= remaining_steps(f.stage),
        forall|i: int|
            0 <= i < run_actions(f, events).len() - 1 ==> !is_answer(
                #[trigger] run_actions(f, events)[i],
            ),
    decreases events.len(),
{
    if events.len() > 0 && accepts(f, events[0]) {
        let (g, a) = spec_step(f, events[0]);
        lemma_run_bounded(g, events.drop_first());
        let rest = run_actions(g, events.drop_first());
        assert(run_actions(f, events) == seq![a] + rest);
        if is_answer(a) {
            assert(g.stage == KlineStage::Done);
            assert(rest.len() == 0);
        }
        assert forall|i: int| 0 <= i < run_actions(f, events).len() - 1 implies !is_answer(
            #[trigger] run_actions(f, events)[i],
        ) by {
            if i > 0 {
                assert(run_actions(f, events)[i] == rest[i - 1]);
            }
        }
    }
}

proof fn lemma_cache_only_never_fetches(f: KlineFetch, events: Seq<KlineEvent>)
    requires
        f.stage == KlineStage::CacheOnly || f.stage == KlineStage::Done,
    ensures
        !run_actions(f, events).contains(KlineAction::FetchRemote),
    decreases events.len(),
{
    if events.len() > 0 && accepts(f, events[0]) {
        let (g, a) = spec_step(f, events[0]);
        lemma_cache_only_never_fetches(g, events.drop_first());
        let rest = run_actions(g, events.drop_first());
        assert(run_actions(f, events) == seq![a] + rest);
        if run_actions(f, events).contains(KlineAction::FetchRemote) {
            let i = choose|i: int|
                0 <= i < run_actions(f, events).len() && run_actions(f, events)[i]
                    == KlineAction::FetchRemote;
            if i > 0 {
                assert(rest[i - 1] == KlineAction::FetchRemote);
                assert(rest.contains(KlineAction::FetchRemote));
            }
        }
    }
}

/// In cache-first mode the network is never asked, whatever the cache and
/// the clock answer.
pub proof fn law_cache_first_never_fetches(has_cache_dir: bool, ttl_ms: u64, events: Seq<KlineEvent>)
    ensures
        spec_start(Some(true), has_cache_dir, ttl_ms).1 != KlineAction::FetchRemote,
        !run_actions(spec_start(Some(true), has_cache_dir, ttl_ms).0, events).contains(
            KlineAction::FetchRemote,
        ),
{
    lemma_cache_only_never_fetches(spec_start(Some(true), has_cache_dir, ttl_ms).0, events);
}

/// Every request answers after at most three observations, and answers
/// once: no action before the last one of a run is an answer.
pub proof fn law_request_answers_once(
    prefer_cache: Option<bool>,
    has_cache_dir: bool,
    ttl_ms: u64,
    events: Seq<KlineEvent>,
)
    ensures
        ({
            let (f, a) = spec_start(prefer_cache, has_cache_dir, ttl_ms);
            let run = run_actions(f, events);
            &&& run.len() <= 3
            &&& is_answer(a) ==> run.len() == 0
            &&& forall|i: int| 0 <= i < run.len() - 1 ==> !is_answer(#[trigger] run[i])
        }),
{
    lemma_run_bounded(spec_start(prefer_cache, has_cache_dir, ttl_ms).0, events);
}

/// With a cache directory and outside cache-first mode, a fresh cache
/// entry answers the request at once: the network is not asked, and the
/// request takes no further observation.
pub proof fn law_fresh_entry_answers_without_network(
    prefer_cache: Option<bool>,
    ttl_ms: u64,
    fetched_at: u64,
    now_ms: u64,
    later: Seq<KlineEvent>,
)
    requires
        prefer_cache != Some(true),
        spec_fresh_at(fetched_at, now_ms, ttl_ms),
    ensures
        spec_start(prefer_cache, true, ttl_ms).1 == KlineAction::ReadCache,
        run_actions(
            spec_start(prefer_cache, true, ttl_ms).0,
            seq![KlineEvent::CacheHit { fetched_at, now_ms }] + later,
        ) == seq![KlineAction::ReturnCached],
{
    let f = spec_start(prefer_cache, true, ttl_ms).0;
    let events = seq![KlineEvent::CacheHit { fetched_at, now_ms }] + later;
    assert(events[0] == KlineEvent::CacheHit { fetched_at, now_ms });
    let g = spec_step(f, events[0]).0;
    assert(g.stage == KlineStage::Done);
    assert(run_actions(g, events.drop_first()) == Seq::<KlineAction>::empty());
    assert(run_actions(f, events) =~= seq![KlineAction::ReturnCached]);
}

/// With a cache directory and outside cache-first mode, when the cache
/// cannot answer (nothing there, or an entry that is not fresh) the
/// network is asked; when the network fails, whatever entry the cache then
/// holds answers, however old it is.
pub proof fn law_network_failure_falls_back_to_cache(
    prefer_cache: Option<bool>,
    ttl_ms: u64,
    first_read: KlineEvent,
    fetched_at: u64,
    now_ms: u64,
)
    requires
        prefer_cache != Some(true),
        first_read is CacheMiss || first_read is CacheHit,
        first_read matches KlineEvent::CacheHit { fetched_at: f0, now_ms: n0 } ==> !spec_fresh_at(
            f0,
            n0,
            ttl_ms,
        ),
    ensures
        run_actions(
            spec_start(prefer_cache, true, ttl_ms).0,
            seq![first_read, KlineEvent::RemoteFailed, KlineEvent::CacheHit { fetched_at, now_ms }],
        ) == seq![KlineAction::FetchRemote, KlineAction::ReadCache, KlineAction::ReturnCached],
{
    let f0 = spec_start(prefer_cache, true, ttl_ms).0;
    let ev = seq![first_read, KlineEvent::RemoteFailed, KlineEvent::CacheHit { fetched_at, now_ms }];
    let f1 = spec_step(f0, ev[0]).0;
    let ev1 = ev.drop_first();
    assert(ev1[0] == KlineEvent::RemoteFailed);
    let f2 = spec_step(f1, ev1[0]).0;
    let ev2 = ev1.drop_first();
    assert(ev2[0] == KlineEvent::CacheHit { fetched_at, now_ms });
    let f3 = spec_step(f2, ev2[0]).0;
    assert(f3.stage == KlineStage::Done);
    assert(run_actions(f3, ev2.drop_first()) == Seq::<KlineAction>::empty());
    assert(run_actions(f2, ev2) =~= seq![KlineAction::ReturnCached]);
    assert(run_actions(f1, ev1) =~= seq![KlineAction::ReadCache, KlineAction::ReturnCached]);
    assert(run_actions(f0, ev) =~= seq![
        KlineAction::FetchRemote,
        KlineAction::ReadCache,
        KlineAction::ReturnCached,
    ]);
}

/// A series fetched from the network is written to the cache exactly when
/// there is a cache directory.
pub proof fn law_fetched_series_is_stored(f: KlineFetch)
    requires
        f.stage == KlineStage::AwaitRemote,
    ensures
        spec_step(f, KlineEvent::RemoteOk).1 == (KlineAction::ReturnRemote {
            store: f.has_cache_dir,
        }),
{
}

/// An entry of unknown age (fetch time 0) is never fresh, and an entry
/// fresh for some lifetime stays fresh for any longer one.
pub proof fn law_freshness(fetched_at: u64, now_ms: u64, ttl_ms: u64, longer_ttl_ms: u64)
    requires
        ttl_ms <= longer_ttl_ms,
    ensures
        !spec_fresh_at(0, now_ms, ttl_ms),
        spec_fresh_at(fetched_at, now_ms, ttl_ms) ==> spec_fresh_at(fetched_at, now_ms, longer_ttl_ms),
{
}

} // verus!
