//! A caller-driven debouncer: coalesces a rapid burst of updates into a
//! single value, released only after a configured quiet period has passed
//! with no further update.
//!
//! Time is advanced explicitly by the caller, in whole non-negative units of
//! the caller's choosing (for instance milliseconds). Negative durations are
//! unrepresentable by construction, and there is no hidden clock: behaviour
//! is deterministic and fully driven by `push`, `tick`, `get` and `peek`.

use vstd::prelude::*;

verus! {

/// The abstract state of a [`Debouncer`]: the fixed quiet period, the
/// pending value if one is held, and the time accumulated since the last
/// push. All of the executable operations are specified as transitions on
/// this state.
pub ghost struct DebounceState<T> {
    /// Quiet period that must accumulate before a pending value is released.
    pub delay: u64,
    /// The most recently pushed, not yet delivered value.
    pub pending: Option<T>,
    /// Time accumulated since the last push (or since construction).
    pub elapsed: u64,
}

impl<T> DebounceState<T> {
    /// The state of a freshly constructed debouncer: nothing pending, no
    /// time accumulated.
    pub open spec fn init(delay: u64) -> Self {
        DebounceState { delay, pending: None, elapsed: 0 }
    }

    /// A pending value is ready once the accumulated time has reached the
    /// delay. With a zero delay, a pending value is always ready.
    pub open spec fn ready(self) -> bool {
        self.pending is Some && self.elapsed >= self.delay
    }

    /// Recording a value: it replaces any pending one, delivered or not, and
    /// restarts the quiet-period clock.
    pub open spec fn push(self, value: T) -> Self {
        DebounceState { delay: self.delay, pending: Some(value), elapsed: 0 }
    }

    /// Advancing the clock by `delta`, saturating at `u64::MAX`.
    pub open spec fn tick(self, delta: u64) -> Self {
        DebounceState {
            delay: self.delay,
            pending: self.pending,
            elapsed: if self.elapsed + delta <= u64::MAX {
                (self.elapsed + delta) as u64
            } else {
                u64::MAX
            },
        }
    }

    /// Advancing the clock once per element of `deltas`, in order.
    pub open spec fn tick_all(self, deltas: Seq<u64>) -> Self
        decreases deltas.len(),
    {
        if deltas.len() == 0 {
            self
        } else {
            self.tick(deltas[0]).tick_all(deltas.subrange(1, deltas.len() as int))
        }
    }

    /// What `get` returns: the pending value exactly when it is ready,
    /// nothing otherwise.
    pub open spec fn get_result(self) -> Option<T> {
        if self.ready() {
            self.pending
        } else {
            None
        }
    }

    /// The state after `get`: a delivered value is cleared; otherwise
    /// nothing changes.
    pub open spec fn after_get(self) -> Self {
        if self.ready() {
            DebounceState { delay: self.delay, pending: None, elapsed: self.elapsed }
        } else {
            self
        }
    }

    /// What `peek` reports: the same value `get` would deliver, but peeking
    /// has no state transition at all — it observes without consuming.
    pub open spec fn peek_result(self) -> Option<T> {
        if self.ready() {
            self.pending
        } else {
            None
        }
    }
}

/// The sum of a sequence of time deltas, as an unbounded integer.
pub open spec fn sum_of(deltas: Seq<u64>) -> int
    decreases deltas.len(),
{
    if deltas.len() == 0 {
        0
    } else {
        deltas[0] + sum_of(deltas.subrange(1, deltas.len() as int))
    }
}

/// Holds at most one pending value of type `T` and releases it only after
/// the configured delay has accumulated since the most recent
/// [`push`](Debouncer::push).
///
/// There is no background timer: the caller advances time through
/// [`tick`](Debouncer::tick) and collects a ready value through
/// [`get`](Debouncer::get) or inspects it through [`peek`](Debouncer::peek).
/// During a burst of pushes only the most recent value is ever delivered,
/// and each push is delivered at most once.
pub struct Debouncer<T> {
    delay: u64,
    pending: Option<T>,
    elapsed: u64,
}

impl<T> View for Debouncer<T> {
    type V = DebounceState<T>;

    closed spec fn view(&self) -> DebounceState<T> {
        DebounceState { delay: self.delay, pending: self.pending, elapsed: self.elapsed }
    }
}

impl<T> Debouncer<T> {
    /// Creates a debouncer that releases a value once `delay` time units
    /// have accumulated since the last push. A zero delay makes any pending
    /// value ready at once.
    pub fn new(delay: u64) -> (d: Self)
        ensures
            d@ == DebounceState::<T>::init(delay),
    {
        Debouncer { delay, pending: None, elapsed: 0 }
    }

    /// Records `state`, unconditionally replacing any pending value, and
    /// restarts the quiet-period clock. An undelivered earlier value is
    /// silently discarded: only the most recent value in a burst is ever
    /// delivered.
    pub fn push(&mut self, state: T)
        ensures
            final(self)@ == old(self)@.push(state),
    {
        self.pending = Some(state);
        self.elapsed = 0;
    }

    /// Advances the clock by `delta` time units, saturating at `u64::MAX`.
    /// A zero delta is allowed and changes nothing.
    pub fn tick(&mut self, delta: u64)
        ensures
            final(self)@ == old(self)@.tick(delta),
    {
        if delta <= u64::MAX - self.elapsed {
            self.elapsed = self.elapsed + delta;
        } else {
            self.elapsed = u64::MAX;
        }
    }

    /// Delivers the pending value if the delay has accumulated since the
    /// last push, clearing it so that it is delivered at most once. Returns
    /// `None`, and changes nothing, while the delay has not yet accumulated
    /// or nothing is pending.
    pub fn get(&mut self) -> (r: Option<T>)
        ensures
            r == old(self)@.get_result(),
            final(self)@ == old(self)@.after_get(),
    {
        if self.pending.is_some() && self.elapsed >= self.delay {
            self.pending.take()
        } else {
            None
        }
    }

    /// Reports the pending value if the delay has accumulated since the last
    /// push, without consuming it: the value stays pending and a later
    /// [`get`](Debouncer::get) still delivers it. The reference is shared,
    /// so the pending value cannot be altered through it.
    pub fn peek(&self) -> (r: Option<&T>)
        ensures
            r is Some <==> self@.peek_result() is Some,
            (r matches Some(v) ==> self@.peek_result() == Some(*v)),
    {
        if self.elapsed >= self.delay {
            self.pending.as_ref()
        } else {
            None
        }
    }
}

proof fn lemma_sum_of_nonneg(deltas: Seq<u64>)
    ensures
        sum_of(deltas) >= 0,
    decreases deltas.len(),
{
    if deltas.len() > 0 {
        lemma_sum_of_nonneg(deltas.subrange(1, deltas.len() as int));
    }
}

/// Ticking changes only the accumulated time: the pending value and the
/// delay stay as they were, and the accumulated time becomes the old time
/// plus the sum of all deltas, saturating at `u64::MAX`.
pub proof fn lemma_tick_all<T>(s: DebounceState<T>, deltas: Seq<u64>)
    ensures
        s.tick_all(deltas).delay == s.delay,
        s.tick_all(deltas).pending == s.pending,
        s.tick_all(deltas).elapsed == (if s.elapsed + sum_of(deltas) <= u64::MAX {
            s.elapsed + sum_of(deltas)
        } else {
            u64::MAX as int
        }),
    decreases deltas.len(),
{
    if deltas.len() > 0 {
        let rest = deltas.subrange(1, deltas.len() as int);
        lemma_sum_of_nonneg(rest);
        lemma_tick_all(s.tick(deltas[0]), rest);
    }
}

/// A push queried at once, before any time has passed, delivers nothing
/// while the delay is positive; with a zero delay the pushed value is
/// released immediately.
pub proof fn lemma_no_delivery_before_tick<T>(s: DebounceState<T>, v: T)
    ensures
        s.delay > 0 ==> s.push(v).get_result() is None,
        s.delay == 0 ==> s.push(v).get_result() == Some(v),
{
}

/// After a push, ticks summing to the delay or more release exactly the
/// pushed value; ticks summing to less than the delay release nothing.
pub proof fn lemma_delivery_at_delay<T>(s: DebounceState<T>, v: T, deltas: Seq<u64>)
    ensures
        sum_of(deltas) >= s.delay ==> s.push(v).tick_all(deltas).get_result() == Some(v),
        sum_of(deltas) < s.delay ==> s.push(v).tick_all(deltas).get_result() is None,
{
    lemma_tick_all(s.push(v), deltas);
}

/// During a burst only the most recent value is ever delivered: after two
/// pushes and a single tick, a query releases the second value when the
/// delay has passed and nothing otherwise — never the first value.
pub proof fn lemma_latest_value_wins<T>(s: DebounceState<T>, v1: T, v2: T, delta: u64)
    ensures
        s.push(v1).push(v2).tick(delta).get_result() == (if delta >= s.delay {
            Some(v2)
        } else {
            None::<T>
        }),
{
}

/// At most one delivery per push: a query that released a value leaves the
/// debouncer empty, so an immediate second query releases nothing.
pub proof fn lemma_at_most_once<T>(s: DebounceState<T>)
    ensures
        s.get_result() is Some ==> s.after_get().get_result() is None,
{
}

/// Peeking consumes nothing: `peek` borrows the debouncer immutably, so no
/// number of peeks changes its state; what peek reports is exactly what a
/// following `get` delivers, and it is delivered only once.
pub proof fn lemma_peek_then_get<T>(s: DebounceState<T>)
    ensures
        s.peek_result() == s.get_result(),
        s.peek_result() is Some ==> s.after_get().get_result() is None,
{
}

/// Ticking an idle debouncer is harmless: with nothing pending, no sequence
/// of ticks makes a value appear or a query release one.
pub proof fn lemma_idle_ticks<T>(s: DebounceState<T>, deltas: Seq<u64>)
    ensures
        s.pending is None ==> s.tick_all(deltas).pending is None,
        s.pending is None ==> s.tick_all(deltas).get_result() is None,
{
    lemma_tick_all(s, deltas);
}

} // verus!
