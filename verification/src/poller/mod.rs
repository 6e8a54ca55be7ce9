//! The background poller: the decisions of the poll loop, and what one poll
//! cycle does to the cache. The loop itself (timers, fetching) runs outside;
//! it asks the poller what to do next and hands it what was fetched.

use vstd::prelude::*;

use crate::cache::news_cache::{law_read_after_set, CacheView, NewsArticle, NewsCache, NewsCategory};
use crate::config::PollerConfig;
use crate::time::Timestamp;

verus! {

/// What the poll loop does next.
#[derive(Debug, Clone, Copy, PartialEq, Eq, Structural)]
pub enum PollerAction {
    /// Polling is disabled by configuration: the loop does not run.
    Disabled,
    /// Run one poll cycle.
    Poll,
    /// The poller was stopped: leave the loop.
    Finish,
}

/// What waiting for the first poll does next.
#[derive(Debug, Clone, Copy, PartialEq, Eq, Structural)]
pub enum WaitStep {
    /// The first poll has completed.
    Ready,
    /// The timeout has passed before the first poll completed.
    TimedOut,
    /// Sleep a little and ask again.
    Sleep,
}

/// The state of a poller.
pub ghost struct PollerView {
    pub enabled: bool,
    pub interval_secs: u64,
    pub running: bool,
    pub initial_poll_completed: bool,
}

impl PollerView {
    /// A poller made with `config`, not started.
    pub open spec fn fresh(config: PollerConfig) -> PollerView {
        PollerView {
            enabled: config.enabled,
            interval_secs: config.interval_secs,
            running: false,
            initial_poll_completed: false,
        }
    }

    /// What starting does: nothing when disabled, else the poller runs.
    pub open spec fn started(self) -> PollerView {
        if self.enabled {
            PollerView { running: true, ..self }
        } else {
            self
        }
    }

    /// The action that starting gives.
    pub open spec fn start_action(self) -> PollerAction {
        if self.enabled {
            PollerAction::Poll
        } else {
            PollerAction::Disabled
        }
    }

    /// The poller once the first poll cycle has ended.
    pub open spec fn initial_done(self) -> PollerView {
        PollerView { initial_poll_completed: true, ..self }
    }

    /// The poller after a stop.
    pub open spec fn stopped(self) -> PollerView {
        PollerView { running: false, ..self }
    }

    /// The action at each tick of the interval: poll while running, else finish.
    pub open spec fn tick_action(self) -> PollerAction {
        if self.running {
            PollerAction::Poll
        } else {
            PollerAction::Finish
        }
    }
}

/// Whether an elapsed time of `secs` seconds and `nanos` nanoseconds is longer
/// than `timeout_secs` whole seconds.
pub open spec fn longer_than(secs: u64, nanos: u32, timeout_secs: u64) -> bool {
    secs > timeout_secs || (secs == timeout_secs && nanos > 0)
}

/// The background poller: whether it is enabled and running, and whether its
/// first poll cycle has completed.
#[derive(Debug)]
pub struct NewsPoller {
    config: PollerConfig,
    running: bool,
    initial_poll_completed: bool,
}

impl View for NewsPoller {
    type V = PollerView;

    closed spec fn view(&self) -> PollerView {
        PollerView {
            enabled: self.config.enabled,
            interval_secs: self.config.interval_secs,
            running: self.running,
            initial_poll_completed: self.initial_poll_completed,
        }
    }
}

impl NewsPoller {
    /// Create a new poller, not yet started.
    pub fn new(config: PollerConfig) -> (r: Self)
        ensures
            r@ == PollerView::fresh(config),
    {
        NewsPoller { config, running: false, initial_poll_completed: false }
    }

    /// The polling interval in seconds.
    pub fn interval_secs(&self) -> (r: u64)
        ensures
            r == self@.interval_secs,
    {
        self.config.interval_secs
    }

    /// Start background polling: a disabled poller does nothing and answers
    /// [`PollerAction::Disabled`]; an enabled one starts running and answers
    /// [`PollerAction::Poll`] for the first poll, made at once.
    pub fn start(&mut self) -> (a: PollerAction)
        ensures
            final(self)@ == old(self)@.started(),
            a == old(self)@.start_action(),
    {
        if !self.config.enabled {
            return PollerAction::Disabled;
        }
        self.running = true;
        PollerAction::Poll
    }

    /// Record that the first poll cycle has ended, whether or not it succeeded.
    pub fn mark_initial_poll_completed(&mut self)
        ensures
            final(self)@ == old(self)@.initial_done(),
    {
        self.initial_poll_completed = true;
    }

    /// What to do at a tick of the interval: poll while running, else finish.
    pub fn on_tick(&self) -> (a: PollerAction)
        ensures
            a == self@.tick_action(),
    {
        if self.running {
            PollerAction::Poll
        } else {
            PollerAction::Finish
        }
    }

    /// Stop the poller: the loop finishes at its next tick.
    pub fn stop(&mut self)
        ensures
            final(self)@ == old(self)@.stopped(),
    {
        self.running = false;
    }

    /// Check if poller is running
    pub fn is_running(&self) -> (r: bool)
        ensures
            r == self@.running,
    {
        self.running
    }

    /// Check if initial poll has completed
    pub fn is_initial_poll_completed(&self) -> (r: bool)
        ensures
            r == self@.initial_poll_completed,
    {
        self.initial_poll_completed
    }

    /// One step of waiting for the first poll, `elapsed_secs` seconds and
    /// `elapsed_nanos` nanoseconds after the wait began, with a timeout of
    /// `timeout_secs` seconds: ready once the first poll has completed, timed
    /// out once the elapsed time is longer than the timeout, else sleep.
    pub fn initial_wait_step(&self, elapsed_secs: u64, elapsed_nanos: u32, timeout_secs: u64) -> (r: WaitStep)
        ensures
            self@.initial_poll_completed ==> r == WaitStep::Ready,
            !self@.initial_poll_completed && longer_than(elapsed_secs, elapsed_nanos, timeout_secs)
                ==> r == WaitStep::TimedOut,
            !self@.initial_poll_completed && !longer_than(elapsed_secs, elapsed_nanos, timeout_secs)
                ==> r == WaitStep::Sleep,
    {
        if self.initial_poll_completed {
            WaitStep::Ready
        } else if elapsed_secs > timeout_secs || (elapsed_secs == timeout_secs && elapsed_nanos > 0) {
            WaitStep::TimedOut
        } else {
            WaitStep::Sleep
        }
    }
}

/// Once stopped, a poller finishes at its next tick.
pub proof fn law_stopped_poller_finishes(p: PollerView)
    ensures
        p.stopped().tick_action() == PollerAction::Finish,
        !p.stopped().running,
{
}

/// A started, enabled poller polls at every tick until it is stopped.
pub proof fn law_started_poller_polls(p: PollerView)
    requires
        p.enabled,
    ensures
        p.start_action() == PollerAction::Poll,
        p.started().running,
        p.started().tick_action() == PollerAction::Poll,
        p.started().initial_done().tick_action() == PollerAction::Poll,
{
}

/// A disabled poller never runs: starting it changes nothing.
pub proof fn law_disabled_poller_never_runs(p: PollerView)
    requires
        !p.enabled,
        !p.running,
    ensures
        p.start_action() == PollerAction::Disabled,
        p.started() == p,
        p.started().tick_action() == PollerAction::Finish,
{
}

/// Once the first poll has completed it stays completed, whatever the poller
/// does next, and the configuration never changes.
pub proof fn law_initial_poll_stays_completed(p: PollerView)
    requires
        p.initial_poll_completed,
    ensures
        p.started().initial_poll_completed,
        p.stopped().initial_poll_completed,
        p.initial_done().initial_poll_completed,
        p.started().enabled == p.enabled && p.started().interval_secs == p.interval_secs,
        p.stopped().enabled == p.enabled && p.stopped().interval_secs == p.interval_secs,
{
}

/// A step of the poller: `start`, `mark_initial_poll_completed` or `stop`
/// (`on_tick` and the queries change nothing).
pub ghost enum PollerEvent {
    Start,
    InitialDone,
    Stop,
}

/// The poller after a run of steps, in order.
pub open spec fn after_events(p: PollerView, events: Seq<PollerEvent>) -> PollerView
    decreases events.len(),
{
    if events.len() == 0 {
        p
    } else {
        let prev = after_events(p, events.drop_last());
        match events.last() {
            PollerEvent::Start => prev.started(),
            PollerEvent::InitialDone => prev.initial_done(),
            PollerEvent::Stop => prev.stopped(),
        }
    }
}

/// Over any run of steps: the configuration never changes; once the first
/// poll is marked complete it stays complete; a disabled poller that is not
/// running never runs; and a run that ends with a stop finishes at the next tick.
pub proof fn law_poller_runs(p: PollerView, events: Seq<PollerEvent>)
    ensures
        after_events(p, events).enabled == p.enabled,
        after_events(p, events).interval_secs == p.interval_secs,
        p.initial_poll_completed ==> after_events(p, events).initial_poll_completed,
        !p.enabled && !p.running ==> !after_events(p, events).running,
        events.len() > 0 && events.last() == PollerEvent::Stop ==> after_events(p, events).tick_action()
            == PollerAction::Finish,
    decreases events.len(),
{
    if events.len() > 0 {
        law_poller_runs(p, events.drop_last());
    }
}

/// Once the first poll is marked complete in a run, it is complete in every
/// later state of the run.
pub proof fn law_initial_completion_never_reverts(p: PollerView, events: Seq<PollerEvent>, i: int, j: int)
    requires
        0 <= i < j <= events.len(),
        events[i] == PollerEvent::InitialDone,
    ensures
        after_events(p, events.take(j)).initial_poll_completed,
    decreases j,
{
    if j == i + 1 {
        assert(events.take(j).drop_last() == events.take(i));
        assert(events.take(j).last() == events[i]);
    } else {
        law_initial_completion_never_reverts(p, events, i, j - 1);
        assert(events.take(j).drop_last() == events.take(j - 1));
    }
}

/// The fetched results of one poll cycle, by their views.
pub open spec fn results_view(results: Seq<(NewsCategory, Vec<NewsArticle>)>) -> Seq<
    (NewsCategory, Seq<NewsArticle>),
> {
    results.map_values(|p: (NewsCategory, Vec<NewsArticle>)| (p.0, p.1@))
}

/// The cache after a poll cycle at time `now`: each category fetched with at
/// least one article is set to what was fetched, in the order of the results;
/// a category fetched empty keeps what it had.
pub open spec fn poll_effect(v: CacheView, results: Seq<(NewsCategory, Seq<NewsArticle>)>, now: Timestamp) -> CacheView
    decreases results.len(),
{
    if results.len() == 0 {
        v
    } else {
        let prev = poll_effect(v, results.drop_last(), now);
        let (c, arts) = results.last();
        if arts.len() > 0 {
            prev.set(c, arts, now)
        } else {
            prev
        }
    }
}

/// The number of articles fetched in all.
pub open spec fn fetched_total(results: Seq<(NewsCategory, Seq<NewsArticle>)>) -> nat
    decreases results.len(),
{
    if results.len() == 0 {
        0
    } else {
        fetched_total(results.drop_last()) + results.last().1.len()
    }
}

/// The number of results with at least one article.
pub open spec fn nonempty_results(results: Seq<(NewsCategory, Seq<NewsArticle>)>) -> nat
    decreases results.len(),
{
    if results.len() == 0 {
        0
    } else {
        nonempty_results(results.drop_last()) + if results.last().1.len() > 0 {
            1nat
        } else {
            0nat
        }
    }
}

/// What a poll cycle counted.
#[derive(Debug, Clone, Copy, PartialEq, Eq, Structural)]
pub struct PollSummary {
    /// Articles fetched in all
    pub total_articles: usize,
    /// Categories updated in the cache
    pub successful_categories: usize,
}

/// A prefix of the results holds no more articles than all of them, and no
/// more non-empty results than there are results.
pub proof fn lemma_fetched_total_prefix(r: Seq<(NewsCategory, Seq<NewsArticle>)>, i: int)
    requires
        0 <= i <= r.len(),
    ensures
        fetched_total(r.take(i)) <= fetched_total(r),
        nonempty_results(r.take(i)) <= r.len(),
    decreases r.len(),
{
    if i < r.len() {
        lemma_fetched_total_prefix(r.drop_last(), i);
        assert(r.drop_last().take(i) == r.take(i));
    } else {
        assert(r.take(i) == r);
        lemma_nonempty_at_most_len(r);
    }
}

proof fn lemma_nonempty_at_most_len(r: Seq<(NewsCategory, Seq<NewsArticle>)>)
    ensures
        nonempty_results(r) <= r.len(),
    decreases r.len(),
{
    if r.len() > 0 {
        lemma_nonempty_at_most_len(r.drop_last());
    }
}

/// A poll cycle keeps the cache well formed and its capacity.
pub proof fn lemma_poll_effect_wf(v: CacheView, r: Seq<(NewsCategory, Seq<NewsArticle>)>, now: Timestamp)
    requires
        v.wf(),
    ensures
        poll_effect(v, r, now).wf(),
        poll_effect(v, r, now).capacity == v.capacity,
    decreases r.len(),
{
    if r.len() > 0 {
        lemma_poll_effect_wf(v, r.drop_last(), now);
        let prev = poll_effect(v, r.drop_last(), now);
        if r.last().1.len() > 0 {
            law_read_after_set(prev, r.last().0, r.last().0, r.last().1, now);
        }
    }
}

/// A poll cycle leaves a category as it was, articles and update time, when
/// nothing was fetched for it.
pub proof fn law_poll_leaves_unfetched_categories(
    v: CacheView,
    r: Seq<(NewsCategory, Seq<NewsArticle>)>,
    now: Timestamp,
    d: NewsCategory,
)
    requires
        v.wf(),
        forall|i: int| 0 <= i < r.len() && (#[trigger] r[i]).0 == d ==> r[i].1.len() == 0,
    ensures
        poll_effect(v, r, now).news(d) == v.news(d),
        poll_effect(v, r, now).updated(d) == v.updated(d),
    decreases r.len(),
{
    if r.len() > 0 {
        let rest = r.drop_last();
        assert forall|i: int| 0 <= i < rest.len() && (#[trigger] rest[i]).0 == d implies rest[i].1.len() == 0 by {
            assert(rest[i] == r[i]);
        }
        law_poll_leaves_unfetched_categories(v, rest, now, d);
        lemma_poll_effect_wf(v, rest, now);
        let (c, a) = r.last();
        assert(r[r.len() - 1] == r.last());
        if a.len() > 0 {
            law_read_after_set(poll_effect(v, rest, now), c, d, a, now);
        }
    }
}

/// A poll cycle stores each category fetched once with at least one article:
/// the category then holds the first `capacity` of those articles, stamped
/// with the time of the poll.
pub proof fn law_poll_stores_fetched_categories(
    v: CacheView,
    r: Seq<(NewsCategory, Seq<NewsArticle>)>,
    now: Timestamp,
    i: int,
)
    requires
        v.wf(),
        0 <= i < r.len(),
        r[i].1.len() > 0,
        forall|j: int| 0 <= j < r.len() && j != i ==> (#[trigger] r[j]).0 != r[i].0,
    ensures
        poll_effect(v, r, now).news(r[i].0) == (if r[i].1.len() <= v.capacity {
            r[i].1
        } else {
            r[i].1.take(v.capacity as int)
        }),
        poll_effect(v, r, now).updated(r[i].0) == Some(now),
    decreases r.len(),
{
    let rest = r.drop_last();
    let c = r[i].0;
    lemma_poll_effect_wf(v, rest, now);
    let prev = poll_effect(v, rest, now);
    if i == r.len() - 1 {
        assert(r.last() == r[i]);
        law_read_after_set(prev, c, c, r[i].1, now);
    } else {
        assert(rest[i] == r[i]);
        assert forall|j: int| 0 <= j < rest.len() && j != i implies (#[trigger] rest[j]).0 != rest[i].0 by {
            assert(rest[j] == r[j]);
        }
        law_poll_stores_fetched_categories(v, rest, now, i);
        assert(r.last() == r[r.len() - 1]);
        if r.last().1.len() > 0 {
            law_read_after_set(prev, r.last().0, c, r.last().1, now);
        }
    }
}

/// Apply the results of one poll cycle, fetched at time `now`, to the cache:
/// each category fetched with at least one article is set to its articles, in
/// the order of the results, and the others keep what they had. Answers how
/// many articles were fetched and how many categories were updated.
pub fn apply_poll_results(cache: &mut NewsCache, results: Vec<(NewsCategory, Vec<NewsArticle>)>, now: Timestamp) -> (r: PollSummary)
    requires
        old(cache)@.wf(),
        fetched_total(results_view(results@)) <= usize::MAX,
    ensures
        final(cache)@ == poll_effect(old(cache)@, results_view(results@), now),
        final(cache)@.wf(),
        r.total_articles == fetched_total(results_view(results@)),
        r.successful_categories == nonempty_results(results_view(results@)),
{
    let ghost rv = results_view(results@);
    let ghost v0 = cache@;
    let mut total: usize = 0;
    let mut successful: usize = 0;
    let n = results.len();
    let mut rest = results;
    let mut i: usize = 0;
    assert(rv.take(0) == Seq::<(NewsCategory, Seq<NewsArticle>)>::empty());
    while i < n
        invariant
            i <= n == rv.len(),
            rest.len() == n - i,
            forall|k: int| 0 <= k < rest.len() ==> (#[trigger] rest@[k]).0 == rv[i + k].0
                && rest@[k].1@ == rv[i + k].1,
            fetched_total(rv) <= usize::MAX,
            v0.wf(),
            cache@ == poll_effect(v0, rv.take(i as int), now),
            cache@.wf(),
            total == fetched_total(rv.take(i as int)),
            successful == nonempty_results(rv.take(i as int)),
        decreases n - i,
    {
        assert(rest@[0].0 == rv[i as int].0);
        let (category, articles) = rest.remove(0);
        assert(rv.take(i + 1).drop_last() == rv.take(i as int));
        assert(rv.take(i + 1).last() == rv[i as int]);
        proof {
            lemma_fetched_total_prefix(rv, i + 1);
        }
        let count = articles.len();
        total = total + count;
        if count > 0 {
            cache.set_category_news_at(category, articles, now);
            successful = successful + 1;
        }
        i = i + 1;
    }
    assert(rv.take(n as int) == rv);
    PollSummary { total_articles: total, successful_categories: successful }
}

} // verus!
