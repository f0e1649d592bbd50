use debouncer::Debouncer;

// Scenario from the resize use case: delay 100 ms, a size pushed at t=0,
// queried too early at 40 ms, delivered at 105 ms, then gone.
#[test]
fn resize_burst_is_coalesced() {
    let mut d: Debouncer<(u32, u32)> = Debouncer::new(100);
    d.push((800, 600));
    d.tick(40);
    assert_eq!(d.get(), None);
    d.tick(65);
    assert_eq!(d.get(), Some((800, 600)));
    assert_eq!(d.get(), None);
}

// A second push mid-wait restarts the clock and supersedes the first value:
// only the most recent value of the burst is ever delivered.
#[test]
fn second_push_supersedes_first() {
    let mut d: Debouncer<&str> = Debouncer::new(100);
    d.push("A");
    d.tick(50);
    d.push("B");
    d.tick(100);
    assert_eq!(d.get(), Some("B"));
    assert_eq!(d.get(), None);
}

#[test]
fn get_before_any_tick_returns_none() {
    let mut d: Debouncer<u32> = Debouncer::new(1);
    d.push(42);
    assert_eq!(d.get(), None);
}

#[test]
fn zero_delay_delivers_at_once() {
    let mut d: Debouncer<u32> = Debouncer::new(0);
    d.push(42);
    assert_eq!(d.get(), Some(42));
    assert_eq!(d.get(), None);
}

#[test]
fn ticks_summing_to_exactly_the_delay_deliver() {
    let mut d: Debouncer<u32> = Debouncer::new(10);
    d.push(5);
    d.tick(3);
    d.tick(3);
    d.tick(4);
    assert_eq!(d.get(), Some(5));
}

#[test]
fn ticks_summing_below_the_delay_do_not_deliver() {
    let mut d: Debouncer<u32> = Debouncer::new(10);
    d.push(5);
    d.tick(3);
    d.tick(3);
    d.tick(3);
    assert_eq!(d.get(), None);
}

#[test]
fn latest_value_wins() {
    let mut d: Debouncer<u32> = Debouncer::new(7);
    d.push(1);
    d.push(2);
    d.tick(7);
    assert_eq!(d.get(), Some(2));
}

#[test]
fn delivery_is_at_most_once() {
    let mut d: Debouncer<u32> = Debouncer::new(3);
    d.push(9);
    d.tick(3);
    assert_eq!(d.get(), Some(9));
    assert_eq!(d.get(), None);
    assert_eq!(d.get(), None);
}

// Peeking any number of times clears nothing: get afterwards still delivers
// the value, exactly once.
#[test]
fn peek_never_clears() {
    let mut d: Debouncer<u32> = Debouncer::new(5);
    d.push(11);
    d.tick(5);
    assert_eq!(d.peek(), Some(&11));
    assert_eq!(d.peek(), Some(&11));
    assert_eq!(d.peek(), Some(&11));
    assert_eq!(d.get(), Some(11));
    assert_eq!(d.get(), None);
    assert_eq!(d.peek(), None);
}

#[test]
fn peek_before_the_delay_reports_nothing() {
    let mut d: Debouncer<u32> = Debouncer::new(5);
    d.push(11);
    d.tick(4);
    assert_eq!(d.peek(), None);
    assert_eq!(d.get(), None);
    d.tick(1);
    assert_eq!(d.peek(), Some(&11));
}

// Ticking with nothing pending is harmless and never makes a value appear.
#[test]
fn idle_ticks_yield_nothing() {
    let mut d: Debouncer<u32> = Debouncer::new(2);
    d.tick(1000);
    d.tick(0);
    d.tick(u64::MAX);
    assert_eq!(d.get(), None);
    assert_eq!(d.peek(), None);
}

#[test]
fn zero_delta_tick_is_tolerated() {
    let mut d: Debouncer<u32> = Debouncer::new(4);
    d.push(8);
    d.tick(0);
    assert_eq!(d.get(), None);
    d.tick(4);
    d.tick(0);
    assert_eq!(d.get(), Some(8));
}

// The clock saturates instead of overflowing: huge deltas are safe.
#[test]
fn elapsed_saturates_at_the_maximum() {
    let mut d: Debouncer<u32> = Debouncer::new(u64::MAX);
    d.push(3);
    d.tick(u64::MAX);
    d.tick(u64::MAX);
    assert_eq!(d.get(), Some(3));
}

#[test]
fn a_push_after_delivery_rearms_the_debouncer() {
    let mut d: Debouncer<u32> = Debouncer::new(10);
    d.push(1);
    d.tick(10);
    assert_eq!(d.get(), Some(1));
    d.push(2);
    assert_eq!(d.get(), None);
    d.tick(9);
    assert_eq!(d.get(), None);
    d.tick(1);
    assert_eq!(d.get(), Some(2));
}
