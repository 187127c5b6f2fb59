use bid_pinger::poller::{Action, Event, Phase, PollError, Poller, Settings, POLL_INTERVAL_SECS};
use bid_pinger::snapshot::{ProductSnapshot, VariantListing};

const HOOK: &str = "https://hooks.example/abc";
const KEY: &str = "some-shoe";
const URL: &str = "https://stockx.com/api/products/some-shoe/?currency=GBP&includes=market";

fn settings(size: &str) -> Settings {
    Settings {
        webhook_url: HOOK.to_string(),
        look_for_size: size.to_string(),
        item_url_key: KEY.to_string(),
    }
}

fn snapshot(listings: &[(&str, u16)]) -> ProductSnapshot {
    let mut snapshot = ProductSnapshot::new();
    for (i, (size, bid)) in listings.iter().enumerate() {
        let listing = VariantListing { size: size.to_string(), highest_bid: *bid };
        snapshot.insert(format!("variant-{}", i), listing);
    }
    snapshot
}

fn fetch() -> Action {
    Action::Fetch { url: URL.to_string() }
}

fn sleep() -> Action {
    Action::Sleep { secs: 300 }
}

fn notify(bid: u16) -> Action {
    Action::Notify {
        webhook_url: HOOK.to_string(),
        bid,
        content: format!("New ask! {}£ @everyone", bid),
    }
}

/// A poller that has delivered an alert for 120 and is fetching again.
fn poller_at_120() -> Poller {
    let (mut poller, _) = Poller::start(settings("6"));
    assert_eq!(poller.step(Event::Fetched(snapshot(&[("6", 120)]))), Some(notify(120)));
    assert_eq!(poller.step(Event::Delivered), Some(sleep()));
    assert_eq!(poller.step(Event::Woke), Some(fetch()));
    assert_eq!(poller.last_notified_bid(), 120);
    poller
}

#[test]
fn start_asks_for_the_first_fetch() {
    let (poller, action) = Poller::start(settings("6"));
    assert_eq!(action, fetch());
    assert_eq!(poller.last_notified_bid(), 0);
    assert_eq!(poller.phase(), Phase::Polling);
    assert_eq!(poller.pending_len(), 0);
}

#[test]
fn poll_interval_is_five_minutes() {
    assert_eq!(POLL_INTERVAL_SECS, 300);
}

#[test]
fn first_bid_notifies_and_becomes_state() {
    let (mut poller, _) = Poller::start(settings("6"));
    let action = poller.step(Event::Fetched(snapshot(&[("6", 120)])));
    assert_eq!(action, Some(notify(120)));
    assert_eq!(poller.phase(), Phase::Notifying);
    assert_eq!(poller.last_notified_bid(), 0);
    assert_eq!(poller.step(Event::Delivered), Some(sleep()));
    assert_eq!(poller.last_notified_bid(), 120);
    assert_eq!(poller.phase(), Phase::Sleeping);
}

#[test]
fn same_bid_does_not_notify() {
    let mut poller = poller_at_120();
    assert_eq!(poller.step(Event::Fetched(snapshot(&[("6", 120)]))), Some(sleep()));
    assert_eq!(poller.last_notified_bid(), 120);
    assert_eq!(poller.phase(), Phase::Sleeping);
}

#[test]
fn dropped_bid_does_not_notify() {
    let mut poller = poller_at_120();
    assert_eq!(poller.step(Event::Fetched(snapshot(&[("6", 95)]))), Some(sleep()));
    assert_eq!(poller.last_notified_bid(), 120);
}

#[test]
fn other_size_does_not_notify() {
    let mut poller = poller_at_120();
    assert_eq!(poller.step(Event::Fetched(snapshot(&[("7", 500)]))), Some(sleep()));
    assert_eq!(poller.last_notified_bid(), 120);
}

#[test]
fn higher_bid_notifies_and_becomes_state() {
    let mut poller = poller_at_120();
    assert_eq!(poller.step(Event::Fetched(snapshot(&[("6", 301)]))), Some(notify(301)));
    assert_eq!(poller.step(Event::Delivered), Some(sleep()));
    assert_eq!(poller.last_notified_bid(), 301);
}

#[test]
fn failed_fetch_ends_the_loop_without_notifying() {
    let (mut poller, _) = Poller::start(settings("6"));
    let action = poller.step(Event::FetchFailed("connection refused".to_string()));
    assert_eq!(
        action,
        Some(Action::Abort { error: PollError::Fetch("connection refused".to_string()) })
    );
    assert_eq!(poller.phase(), Phase::Halted);
    assert_eq!(poller.last_notified_bid(), 0);
    assert_eq!(poller.pending_len(), 0);
}

#[test]
fn failed_fetch_after_a_notified_bid_keeps_the_state() {
    let mut poller = poller_at_120();
    let action = poller.step(Event::FetchFailed("status 403".to_string()));
    assert_eq!(action, Some(Action::Abort { error: PollError::Fetch("status 403".to_string()) }));
    assert_eq!(poller.last_notified_bid(), 120);
}

#[test]
fn failed_delivery_ends_the_loop_and_keeps_the_state() {
    let (mut poller, _) = Poller::start(settings("6"));
    poller.step(Event::Fetched(snapshot(&[("6", 120), ("6", 130)])));
    let action = poller.step(Event::DeliveryFailed("webhook said 404".to_string()));
    assert_eq!(
        action,
        Some(Action::Abort { error: PollError::Notify("webhook said 404".to_string()) })
    );
    assert_eq!(poller.phase(), Phase::Halted);
    assert_eq!(poller.last_notified_bid(), 0);
    assert_eq!(poller.pending_len(), 0);
}

#[test]
fn halted_poller_takes_no_event() {
    let (mut poller, _) = Poller::start(settings("6"));
    poller.step(Event::FetchFailed("down".to_string()));
    assert_eq!(poller.step(Event::Woke), None);
    assert_eq!(poller.step(Event::Delivered), None);
    assert_eq!(poller.step(Event::Fetched(snapshot(&[("6", 5)]))), None);
    assert_eq!(poller.step(Event::FetchFailed("again".to_string())), None);
    assert_eq!(poller.step(Event::DeliveryFailed("again".to_string())), None);
    assert_eq!(poller.phase(), Phase::Halted);
    assert_eq!(poller.last_notified_bid(), 0);
}

#[test]
fn event_out_of_turn_changes_nothing() {
    let (mut poller, _) = Poller::start(settings("6"));
    assert_eq!(poller.step(Event::Woke), None);
    assert_eq!(poller.step(Event::Delivered), None);
    assert_eq!(poller.step(Event::DeliveryFailed("x".to_string())), None);
    assert_eq!(poller.phase(), Phase::Polling);
    poller.step(Event::Fetched(snapshot(&[("6", 10)])));
    assert_eq!(poller.step(Event::Woke), None);
    assert_eq!(poller.step(Event::Fetched(snapshot(&[("6", 99)]))), None);
    assert_eq!(poller.step(Event::FetchFailed("x".to_string())), None);
    assert_eq!(poller.phase(), Phase::Notifying);
    assert_eq!(poller.pending_len(), 1);
    assert_eq!(poller.step(Event::Delivered), Some(sleep()));
    assert_eq!(poller.step(Event::Delivered), None);
    assert_eq!(poller.step(Event::Fetched(snapshot(&[("6", 99)]))), None);
    assert_eq!(poller.phase(), Phase::Sleeping);
    assert_eq!(poller.last_notified_bid(), 10);
}

#[test]
fn several_rising_matches_notify_one_after_the_other() {
    let (mut poller, _) = Poller::start(settings("6"));
    let first = poller.step(Event::Fetched(snapshot(&[("6", 100), ("6", 90), ("6", 150)])));
    assert_eq!(first, Some(notify(100)));
    assert_eq!(poller.pending_len(), 2);
    assert_eq!(poller.step(Event::Delivered), Some(notify(150)));
    assert_eq!(poller.last_notified_bid(), 100);
    assert_eq!(poller.step(Event::Delivered), Some(sleep()));
    assert_eq!(poller.last_notified_bid(), 150);
}

#[test]
fn failed_delivery_of_a_later_alert_keeps_the_earlier_one() {
    let (mut poller, _) = Poller::start(settings("6"));
    poller.step(Event::Fetched(snapshot(&[("6", 100), ("6", 150)])));
    assert_eq!(poller.step(Event::Delivered), Some(notify(150)));
    let action = poller.step(Event::DeliveryFailed("timeout".to_string()));
    assert_eq!(action, Some(Action::Abort { error: PollError::Notify("timeout".to_string()) }));
    assert_eq!(poller.last_notified_bid(), 100);
}

#[test]
fn same_snapshot_twice_notifies_only_the_first_time() {
    let listings = [("6", 100), ("7", 400), ("6", 150), ("6", 120)];
    let (mut poller, _) = Poller::start(settings("6"));
    assert_eq!(poller.step(Event::Fetched(snapshot(&listings))), Some(notify(100)));
    assert_eq!(poller.step(Event::Delivered), Some(notify(150)));
    assert_eq!(poller.step(Event::Delivered), Some(sleep()));
    assert_eq!(poller.step(Event::Woke), Some(fetch()));
    assert_eq!(poller.step(Event::Fetched(snapshot(&listings))), Some(sleep()));
    assert_eq!(poller.last_notified_bid(), 150);
}

#[test]
fn last_notified_bid_never_falls_over_many_cycles() {
    let cycles: [&[(&str, u16)]; 6] = [
        &[("6", 50)],
        &[("6", 40)],
        &[("7", 900)],
        &[("6", 60), ("6", 55)],
        &[],
        &[("6", 60)],
    ];
    let (mut poller, _) = Poller::start(settings("6"));
    let mut previous = poller.last_notified_bid();
    for listings in cycles {
        let mut action = poller.step(Event::Fetched(snapshot(listings)));
        while let Some(Action::Notify { .. }) = action {
            action = poller.step(Event::Delivered);
            assert!(poller.last_notified_bid() >= previous);
            previous = poller.last_notified_bid();
        }
        assert_eq!(action, Some(sleep()));
        assert!(poller.last_notified_bid() >= previous);
        assert_eq!(poller.step(Event::Woke), Some(fetch()));
    }
    assert_eq!(poller.last_notified_bid(), 60);
}

#[test]
fn sleep_is_followed_by_the_same_fetch() {
    let (mut poller, _) = Poller::start(settings("6"));
    assert_eq!(poller.step(Event::Fetched(ProductSnapshot::new())), Some(sleep()));
    assert_eq!(poller.step(Event::Woke), Some(fetch()));
    assert_eq!(poller.phase(), Phase::Polling);
}
