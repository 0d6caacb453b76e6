//! The per-request timer: how its configuration is chosen, and what it emits
//! at each tick and on cancellation. The application sleeps between ticks and
//! measures the elapsed time.

use vstd::prelude::*;
use crate::events::ServerEvent;

verus! {

/// The time limit of a test and the interval between timer ticks.
#[derive(Debug, Clone, Copy, PartialEq, Eq)]
pub struct TimerConfig {
    pub limit_ms: u64,
    pub tick_interval_ms: u64,
}

impl Default for TimerConfig {
    /// A limit of 30 seconds, ticking every half second.
    fn default() -> (c: TimerConfig)
        ensures
            c.limit_ms == 30_000,
            c.tick_interval_ms == 500,
    {
        TimerConfig { limit_ms: 30_000, tick_interval_ms: 500 }
    }
}

impl TimerConfig {
    /// The configuration of a run request: the requested timeout and tick
    /// interval, each replaced by its default when zero.
    pub fn from_request(timeout_ms: u64, tick_interval_ms: u64) -> (c: TimerConfig)
        ensures
            c.limit_ms == (if timeout_ms > 0 { timeout_ms } else { 30_000 }),
            c.tick_interval_ms == (if tick_interval_ms > 0 { tick_interval_ms } else { 500 }),
    {
        TimerConfig {
            limit_ms: if timeout_ms > 0 { timeout_ms } else { 30_000 },
            tick_interval_ms: if tick_interval_ms > 0 { tick_interval_ms } else { 500 },
        }
    }
}

/// A running timer for one request of one endpoint.
pub struct TimerRun {
    pub endpoint_id: String,
    pub request_number: i32,
    pub limit_ms: u64,
    pub finished: bool,
}

/// The time left before the limit, `0` once it has passed.
pub open spec fn remaining(limit_ms: u64, elapsed_ms: u64) -> u64 {
    if elapsed_ms < limit_ms { (limit_ms - elapsed_ms) as u64 } else { 0 }
}

/// The tick emitted after `elapsed_ms`.
pub open spec fn tick_event(t: TimerRun, elapsed_ms: u64) -> ServerEvent {
    ServerEvent::TimerTick {
        endpoint_id: t.endpoint_id,
        request_number: t.request_number,
        elapsed_ms,
        remaining_ms: remaining(t.limit_ms, elapsed_ms),
        limit_ms: t.limit_ms,
    }
}

/// What wakes a running timer: a tick, or the cancellation, each after the
/// given number of milliseconds since the start.
pub enum TimerSignal {
    Tick(u64),
    Cancel(u64),
}

/// One step of a running timer: the timer afterwards and the events it
/// emits. A tick emits the tick event, followed by the timeout when the limit
/// is reached, which stops the timer; the cancellation emits the cancellation
/// event and stops the timer.
pub open spec fn timer_step(t: TimerRun, s: TimerSignal) -> (TimerRun, Seq<ServerEvent>) {
    match s {
        TimerSignal::Tick(e) =>
            if e >= t.limit_ms {
                (TimerRun { finished: true, ..t }, seq![tick_event(t, e),
                    ServerEvent::TestTimeout { endpoint_id: t.endpoint_id, request_number: t.request_number }])
            } else {
                (t, seq![tick_event(t, e)])
            },
        TimerSignal::Cancel(e) =>
            (TimerRun { finished: true, ..t }, seq![ServerEvent::TimerCancelled {
                endpoint_id: t.endpoint_id, request_number: t.request_number, elapsed_ms: e }]),
    }
}

/// The events a timer emits when it is woken by `signals` in turn, until it
/// stops.
pub open spec fn timer_trace(t: TimerRun, signals: Seq<TimerSignal>) -> Seq<ServerEvent>
    decreases signals.len(),
{
    if signals.len() == 0 || t.finished {
        Seq::empty()
    } else {
        let (t2, evs) = timer_step(t, signals[0]);
        evs + timer_trace(t2, signals.drop_first())
    }
}

impl TimerRun {
    /// A timer that has not fired yet.
    pub fn new(endpoint_id: &str, request_number: i32, config: &TimerConfig) -> (t: TimerRun)
        ensures
            t.endpoint_id@ == endpoint_id@,
            t.request_number == request_number,
            t.limit_ms == config.limit_ms,
            !t.finished,
    {
        TimerRun { endpoint_id: String::from_str(endpoint_id), request_number, limit_ms: config.limit_ms, finished: false }
    }

    /// A tick after `elapsed_ms`: the tick event, followed by the timeout
    /// event when the limit is reached, which also stops the timer.
    pub fn on_tick(&mut self, elapsed_ms: u64) -> (events: Vec<ServerEvent>)
        requires
            !old(self).finished,
        ensures
            final(self).endpoint_id == old(self).endpoint_id,
            final(self).request_number == old(self).request_number,
            final(self).limit_ms == old(self).limit_ms,
            final(self).finished == (elapsed_ms >= old(self).limit_ms),
            (*final(self), events@) == timer_step(*old(self), TimerSignal::Tick(elapsed_ms)),
            events@ == (if elapsed_ms >= old(self).limit_ms {
                seq![tick_event(*old(self), elapsed_ms), ServerEvent::TestTimeout {
                    endpoint_id: old(self).endpoint_id,
                    request_number: old(self).request_number,
                }]
            } else {
                seq![tick_event(*old(self), elapsed_ms)]
            }),
    {
        let mut events: Vec<ServerEvent> = Vec::new();
        events.push(ServerEvent::TimerTick {
            endpoint_id: self.endpoint_id.clone(),
            request_number: self.request_number,
            elapsed_ms,
            remaining_ms: self.limit_ms.saturating_sub(elapsed_ms),
            limit_ms: self.limit_ms,
        });
        if elapsed_ms >= self.limit_ms {
            events.push(ServerEvent::TestTimeout { endpoint_id: self.endpoint_id.clone(), request_number: self.request_number });
            self.finished = true;
        }
        events
    }

    /// The timer is cancelled after `elapsed_ms` because the test finished:
    /// the cancellation event, which stops the timer.
    pub fn on_cancel(&mut self, elapsed_ms: u64) -> (event: ServerEvent)
        requires
            !old(self).finished,
        ensures
            final(self).endpoint_id == old(self).endpoint_id,
            final(self).request_number == old(self).request_number,
            final(self).limit_ms == old(self).limit_ms,
            final(self).finished,
            (*final(self), seq![event]) == timer_step(*old(self), TimerSignal::Cancel(elapsed_ms)),
            event == (ServerEvent::TimerCancelled {
                endpoint_id: old(self).endpoint_id,
                request_number: old(self).request_number,
                elapsed_ms,
            }),
    {
        self.finished = true;
        ServerEvent::TimerCancelled { endpoint_id: self.endpoint_id.clone(), request_number: self.request_number, elapsed_ms }
    }
}

/// A tick reports the time spent and the time left, which add up to the limit
/// until the limit is reached; from then on nothing is left.
pub proof fn law_tick_accounts_for_limit(limit_ms: u64, elapsed_ms: u64)
    ensures
        elapsed_ms <= limit_ms ==> remaining(limit_ms, elapsed_ms) + elapsed_ms == limit_ms,
        elapsed_ms >= limit_ms ==> remaining(limit_ms, elapsed_ms) == 0,
        remaining(limit_ms, elapsed_ms) <= limit_ms,
{
}

/// Over any series of ticks with growing elapsed times, the time left never
/// grows.
pub proof fn law_remaining_never_grows(limit_ms: u64, earlier: u64, later: u64)
    requires
        earlier <= later,
    ensures
        remaining(limit_ms, later) <= remaining(limit_ms, earlier),
{
}

/// Whether an event stops a timer: its cancellation or its timeout.
pub open spec fn ends_timer(e: ServerEvent) -> bool {
    e is TimerCancelled || e is TestTimeout
}

/// Whether `e` is an event of the timer `t`: a tick, cancellation or timeout
/// of its request, a tick reporting its limit and the time left.
pub open spec fn event_of_timer(t: TimerRun, e: ServerEvent) -> bool {
    match e {
        ServerEvent::TimerTick { endpoint_id, request_number, elapsed_ms, remaining_ms, limit_ms } =>
            endpoint_id == t.endpoint_id && request_number == t.request_number
            && limit_ms == t.limit_ms && remaining_ms == remaining(t.limit_ms, elapsed_ms),
        ServerEvent::TimerCancelled { endpoint_id, request_number, elapsed_ms } =>
            endpoint_id == t.endpoint_id && request_number == t.request_number,
        ServerEvent::TestTimeout { endpoint_id, request_number } =>
            endpoint_id == t.endpoint_id && request_number == t.request_number,
        _ => false,
    }
}

/// A tick at or past the limit.
pub open spec fn tick_at_limit(e: ServerEvent, limit_ms: u64) -> bool {
    e is TimerTick && e->TimerTick_elapsed_ms >= limit_ms
}

/// The elapsed time an event reports, if it reports one.
pub open spec fn event_time(e: ServerEvent) -> Option<u64> {
    match e {
        ServerEvent::TimerTick { elapsed_ms, .. } => Some(elapsed_ms),
        ServerEvent::TimerCancelled { elapsed_ms, .. } => Some(elapsed_ms),
        _ => None,
    }
}

/// When a signal came.
pub open spec fn signal_time(s: TimerSignal) -> u64 {
    match s {
        TimerSignal::Tick(e) => e,
        TimerSignal::Cancel(e) => e,
    }
}

/// Every event a timer emits belongs to its request, and each tick reports its
/// limit and the time left; the cancellation or the timeout comes at most
/// once, as the last event; the timeout comes right after a tick at or past
/// the limit, and every tick at or past the limit is followed by the timeout.
pub proof fn law_timer_trace(t: TimerRun, signals: Seq<TimerSignal>)
    ensures
        ({
            let e = timer_trace(t, signals);
            &&& forall|j: int| 0 <= j < e.len() ==> event_of_timer(t, #[trigger] e[j])
            &&& forall|j: int| 0 <= j < e.len() && ends_timer(#[trigger] e[j]) ==> j == e.len() - 1
            &&& forall|j: int| 0 <= j < e.len() && (#[trigger] e[j]) is TestTimeout ==>
                    j >= 1 && tick_at_limit(e[j - 1], t.limit_ms)
            &&& forall|j: int| 0 <= j < e.len() && tick_at_limit(#[trigger] e[j], t.limit_ms) ==>
                    j + 1 < e.len() && e[j + 1] is TestTimeout
        }),
    decreases signals.len(),
{
    let e = timer_trace(t, signals);
    if signals.len() > 0 && !t.finished {
        let (t2, evs) = timer_step(t, signals[0]);
        let rest = timer_trace(t2, signals.drop_first());
        assert(e == evs + rest);
        law_timer_trace(t2, signals.drop_first());
        if t2.finished {
            assert(rest =~= Seq::<ServerEvent>::empty());
            assert(e =~= evs);
        } else {
            assert(evs.len() == 1);
            assert forall|j: int| 1 <= j < e.len() implies e[j] == rest[j - 1] by {}
            assert(e[0] == evs[0]);
        }
    }
}

proof fn lemma_timer_times_at_least(t: TimerRun, signals: Seq<TimerSignal>, lo: u64)
    requires
        forall|k: int| 0 <= k < signals.len() ==> signal_time(#[trigger] signals[k]) >= lo,
    ensures
        forall|j: int| 0 <= j < timer_trace(t, signals).len() && (#[trigger] event_time(timer_trace(t, signals)[j])) is Some
            ==> event_time(timer_trace(t, signals)[j])->Some_0 >= lo,
    decreases signals.len(),
{
    if signals.len() > 0 && !t.finished {
        let (t2, evs) = timer_step(t, signals[0]);
        let rest = timer_trace(t2, signals.drop_first());
        assert(timer_trace(t, signals) == evs + rest);
        assert(signal_time(signals[0]) >= lo);
        assert forall|k: int| 0 <= k < signals.drop_first().len() implies signal_time(#[trigger] signals.drop_first()[k]) >= lo by {
            assert(signals.drop_first()[k] == signals[k + 1]);
        }
        lemma_timer_times_at_least(t2, signals.drop_first(), lo);
    }
}

/// When the timer is woken at times that never decrease, the times its events
/// report never decrease either.
pub proof fn law_timer_times_in_order(t: TimerRun, signals: Seq<TimerSignal>)
    requires
        forall|i: int, j: int| 0 <= i <= j < signals.len() ==> signal_time(#[trigger] signals[i]) <= signal_time(#[trigger] signals[j]),
    ensures
        ({
            let e = timer_trace(t, signals);
            forall|i: int, j: int| 0 <= i <= j < e.len() && (#[trigger] event_time(e[i])) is Some && (#[trigger] event_time(e[j])) is Some
                ==> event_time(e[i])->Some_0 <= event_time(e[j])->Some_0
        }),
    decreases signals.len(),
{
    if signals.len() > 0 && !t.finished {
        let (t2, evs) = timer_step(t, signals[0]);
        let tail = signals.drop_first();
        let rest = timer_trace(t2, tail);
        let e = timer_trace(t, signals);
        assert(e == evs + rest);
        assert forall|i: int, j: int| 0 <= i <= j < tail.len() implies signal_time(#[trigger] tail[i]) <= signal_time(#[trigger] tail[j]) by {
            assert(tail[i] == signals[i + 1] && tail[j] == signals[j + 1]);
        }
        law_timer_times_in_order(t2, tail);
        assert forall|k: int| 0 <= k < tail.len() implies signal_time(#[trigger] tail[k]) >= signal_time(signals[0]) by {
            assert(tail[k] == signals[k + 1]);
        }
        lemma_timer_times_at_least(t2, tail, signal_time(signals[0]));
        if t2.finished {
            assert(rest =~= Seq::<ServerEvent>::empty());
        } else {
            assert forall|j: int| 1 <= j < e.len() implies e[j] == rest[j - 1] by {}
        }
    }
}

/// A timer that is only ticked stops with the timeout at the first tick at or
/// past its limit: when such a tick comes, the last event is the timeout.
pub proof fn law_timer_times_out(t: TimerRun, signals: Seq<TimerSignal>, k: int)
    requires
        !t.finished,
        forall|i: int| 0 <= i < signals.len() ==> (#[trigger] signals[i]) is Tick,
        0 <= k < signals.len(),
        signal_time(signals[k]) >= t.limit_ms,
    ensures
        timer_trace(t, signals).len() > 0,
        timer_trace(t, signals).last() is TestTimeout,
    decreases k,
{
    let (t2, evs) = timer_step(t, signals[0]);
    let rest = timer_trace(t2, signals.drop_first());
    assert(timer_trace(t, signals) == evs + rest);
    assert(signals[0] is Tick);
    if signal_time(signals[0]) < t.limit_ms {
        assert(k > 0);
        assert forall|i: int| 0 <= i < signals.drop_first().len() implies (#[trigger] signals.drop_first()[i]) is Tick by {
            assert(signals.drop_first()[i] == signals[i + 1]);
        }
        assert(signals.drop_first()[k - 1] == signals[k]);
        law_timer_times_out(t2, signals.drop_first(), k - 1);
    } else {
        assert(rest =~= Seq::<ServerEvent>::empty());
    }
}

} // verus!
