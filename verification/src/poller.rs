//! The poll loop as a state machine.
//!
//! The poller owns the last notified bid. Whoever drives it performs the action
//! it asks for (fetch, notify, sleep or abort) and hands back what happened as an
//! event; the poller answers with the next action. One cycle is a fetch, zero or
//! more notifications, and a sleep.

use vstd::prelude::*;
use crate::detect::{alerts, evaluate, last_notified_after, level_after, qualifies};
use crate::detect::{lemma_alerts_ascend, lemma_level_is_greatest};
use crate::detect::{no_rise_is_silent, no_size_match_is_silent, one_rise_is_one_alert};
use crate::market::{product_url, request_url};
use crate::notify::{alert_message, alert_text};
use crate::snapshot::{listings_of, EntryView, ProductSnapshot};

verus! {

/// Seconds between the end of one cycle and the next fetch.
pub const POLL_INTERVAL_SECS: u64 = 300;

/// What the poller was started with.
#[derive(Debug, Clone, PartialEq, Eq)]
pub struct Settings {
    /// Where alerts are delivered.
    pub webhook_url: String,
    /// The size label to look for.
    pub look_for_size: String,
    /// The key of the product in the marketplace's addresses.
    pub item_url_key: String,
}

/// The mathematical content of [`Settings`].
pub struct SettingsView {
    pub webhook_url: Seq<char>,
    pub look_for_size: Seq<char>,
    pub item_url_key: Seq<char>,
}

impl View for Settings {
    type V = SettingsView;

    open spec fn view(&self) -> SettingsView {
        SettingsView {
            webhook_url: self.webhook_url@,
            look_for_size: self.look_for_size@,
            item_url_key: self.item_url_key@,
        }
    }
}

/// What the poller is waiting for.
#[derive(Debug, Clone, Copy, PartialEq, Eq)]
pub enum Phase {
    /// A fetch is under way.
    Polling,
    /// The delivery of an alert is under way.
    Notifying,
    /// The pause between two cycles is under way.
    Sleeping,
    /// A failure ended the loop.
    Halted,
}

/// Why the loop ended. The text is the diagnostic of whoever met the failure.
#[derive(Debug, Clone, PartialEq, Eq)]
pub enum PollError {
    /// The request failed, the answer was no success, or its body did not have
    /// the expected shape.
    Fetch(String),
    /// The webhook did not take the alert.
    Notify(String),
}

/// The mathematical content of a [`PollError`].
pub enum PollErrorView {
    Fetch(Seq<char>),
    Notify(Seq<char>),
}

impl View for PollError {
    type V = PollErrorView;

    open spec fn view(&self) -> PollErrorView {
        match self {
            PollError::Fetch(reason) => PollErrorView::Fetch(reason@),
            PollError::Notify(reason) => PollErrorView::Notify(reason@),
        }
    }
}

/// What happened to the action that the poller asked for.
#[derive(Debug)]
pub enum Event {
    /// The fetch brought this snapshot.
    Fetched(ProductSnapshot),
    /// The fetch failed.
    FetchFailed(String),
    /// The alert was delivered.
    Delivered,
    /// The alert was not delivered.
    DeliveryFailed(String),
    /// The pause is over.
    Woke,
}

/// The mathematical content of an [`Event`].
pub enum EventView {
    Fetched(Seq<EntryView>),
    FetchFailed(Seq<char>),
    Delivered,
    DeliveryFailed(Seq<char>),
    Woke,
}

impl View for Event {
    type V = EventView;

    open spec fn view(&self) -> EventView {
        match self {
            Event::Fetched(snapshot) => EventView::Fetched(snapshot@),
            Event::FetchFailed(reason) => EventView::FetchFailed(reason@),
            Event::Delivered => EventView::Delivered,
            Event::DeliveryFailed(reason) => EventView::DeliveryFailed(reason@),
            Event::Woke => EventView::Woke,
        }
    }
}

/// What the poller asks its driver to do next.
#[derive(Debug, Clone, PartialEq, Eq)]
pub enum Action {
    /// Get the product from this address.
    Fetch { url: String },
    /// Deliver this text to this webhook; it announces `bid`.
    Notify { webhook_url: String, bid: u16, content: String },
    /// Pause for this many seconds.
    Sleep { secs: u64 },
    /// End the loop with this failure.
    Abort { error: PollError },
}

/// The mathematical content of an [`Action`].
pub enum ActionView {
    Fetch { url: Seq<char> },
    Notify { webhook_url: Seq<char>, bid: u16, content: Seq<char> },
    Sleep { secs: u64 },
    Abort { error: PollErrorView },
}

impl View for Action {
    type V = ActionView;

    open spec fn view(&self) -> ActionView {
        match self {
            Action::Fetch { url } => ActionView::Fetch { url: url@ },
            Action::Notify { webhook_url, bid, content } => ActionView::Notify {
                webhook_url: webhook_url@,
                bid: *bid,
                content: content@,
            },
            Action::Sleep { secs } => ActionView::Sleep { secs: *secs },
            Action::Abort { error } => ActionView::Abort { error: error@ },
        }
    }
}

/// The mathematical content of a [`Poller`].
pub struct PollerView {
    pub settings: SettingsView,
    /// The bid of the last alert that was delivered; zero before the first.
    pub last_notified_bid: u16,
    pub phase: Phase,
    /// The alerts of this cycle that are not delivered yet, the one under way
    /// first.
    pub pending: Seq<u16>,
}

/// True when `queue` rises strictly and lies wholly above `floor`.
pub open spec fn rises_above(queue: Seq<u16>, floor: u16) -> bool {
    &&& forall|k: int| 0 <= k < queue.len() ==> floor < queue[k]
    &&& forall|j: int, k: int| 0 <= j < k < queue.len() ==> queue[j] < queue[k]
}

impl PollerView {
    /// Alerts are pending exactly while one is under way; they rise strictly,
    /// and all lie above the last notified bid.
    pub open spec fn wf(self) -> bool {
        &&& self.phase == Phase::Notifying <==> self.pending.len() > 0
        &&& rises_above(self.pending, self.last_notified_bid)
    }

    /// The action that fetches the product.
    pub open spec fn fetch(self) -> ActionView {
        ActionView::Fetch { url: product_url(self.settings.item_url_key) }
    }

    /// The action that announces `bid`.
    pub open spec fn notify(self, bid: u16) -> ActionView {
        ActionView::Notify {
            webhook_url: self.settings.webhook_url,
            bid,
            content: alert_text(bid),
        }
    }

    /// The poller as it starts: nothing notified yet, the first fetch under way.
    pub open spec fn started(settings: SettingsView) -> PollerView {
        PollerView {
            settings,
            last_notified_bid: 0,
            phase: Phase::Polling,
            pending: Seq::empty(),
        }
    }

    /// With `queue` left to deliver: announce its first bid, or go to sleep if
    /// it is empty.
    pub open spec fn proceed(self, queue: Seq<u16>) -> (PollerView, Option<ActionView>) {
        if queue.len() == 0 {
            (
                PollerView { phase: Phase::Sleeping, pending: queue, ..self },
                Some(ActionView::Sleep { secs: POLL_INTERVAL_SECS }),
            )
        } else {
            (
                PollerView { phase: Phase::Notifying, pending: queue, ..self },
                Some(self.notify(queue[0])),
            )
        }
    }

    /// The loop ends with `error`.
    pub open spec fn halt(self, error: PollErrorView) -> (PollerView, Option<ActionView>) {
        (
            PollerView { phase: Phase::Halted, pending: Seq::empty(), ..self },
            Some(ActionView::Abort { error }),
        )
    }

    /// The poller after `event`, and the action it asks for. An event that the
    /// phase does not wait for changes nothing and asks for nothing.
    pub open spec fn step(self, event: EventView) -> (PollerView, Option<ActionView>) {
        match (self.phase, event) {
            (Phase::Polling, EventView::Fetched(entries)) => self.proceed(
                alerts(listings_of(entries), self.settings.look_for_size, self.last_notified_bid),
            ),
            (Phase::Polling, EventView::FetchFailed(reason)) => self.halt(
                PollErrorView::Fetch(reason),
            ),
            (Phase::Notifying, EventView::Delivered) => PollerView {
                last_notified_bid: self.pending[0],
                ..self
            }.proceed(self.pending.drop_first()),
            (Phase::Notifying, EventView::DeliveryFailed(reason)) => self.halt(
                PollErrorView::Notify(reason),
            ),
            (Phase::Sleeping, EventView::Woke) => (
                PollerView { phase: Phase::Polling, ..self },
                Some(self.fetch()),
            ),
            _ => (self, None),
        }
    }

    /// The poller once every pending alert has been delivered.
    pub open spec fn settle(self) -> PollerView
        decreases self.pending.len(),
    {
        if self.phase == Phase::Notifying && self.pending.len() > 0 {
            self.step(EventView::Delivered).0.settle()
        } else {
            self
        }
    }

    /// The bids that are announced from here on until the cycle ends, if every
    /// delivery succeeds; `asked` is the action that was asked for last.
    pub open spec fn announced(self, asked: Option<ActionView>) -> Seq<u16>
        decreases self.pending.len(),
    {
        if self.phase == Phase::Notifying && self.pending.len() > 0 {
            match asked {
                Some(ActionView::Notify { bid, .. }) => {
                    let next = self.step(EventView::Delivered);
                    seq![bid] + next.0.announced(next.1)
                },
                _ => Seq::empty(),
            }
        } else {
            Seq::empty()
        }
    }
}

/// What changes from step to step.
#[derive(Debug)]
struct Progress {
    last_notified_bid: u16,
    phase: Phase,
    pending: Vec<u16>,
}

/// The state of the poll loop. It is well formed at all times.
#[derive(Debug)]
pub struct Poller {
    settings: Settings,
    progress: Progress,
}

/// The poller that `settings` and `progress` make up.
spec fn assemble(settings: Settings, progress: Progress) -> PollerView {
    PollerView {
        settings: settings@,
        last_notified_bid: progress.last_notified_bid,
        phase: progress.phase,
        pending: progress.pending@,
    }
}

impl View for Poller {
    type V = PollerView;

    closed spec fn view(&self) -> PollerView {
        assemble(self.settings, self.progress)
    }
}

/// Goes on with the alerts that are pending: asks for the first, or for the
/// pause if there is none.
fn proceed(settings: &Settings, progress: &mut Progress) -> (action: Action)
    ensures
        (assemble(*settings, *final(progress)), Some(action@)) == assemble(
            *settings,
            *old(progress),
        ).proceed(old(progress).pending@),
{
    if progress.pending.len() == 0 {
        progress.phase = Phase::Sleeping;
        Action::Sleep { secs: POLL_INTERVAL_SECS }
    } else {
        progress.phase = Phase::Notifying;
        let bid = progress.pending[0];
        Action::Notify {
            webhook_url: settings.webhook_url.clone(),
            bid,
            content: alert_message(bid),
        }
    }
}

/// Ends the loop with `error`.
fn halt(settings: &Settings, progress: &mut Progress, error: PollError) -> (action: Action)
    ensures
        (assemble(*settings, *final(progress)), Some(action@)) == assemble(
            *settings,
            *old(progress),
        ).halt(error@),
{
    progress.phase = Phase::Halted;
    progress.pending = Vec::new();
    Action::Abort { error }
}

/// What `event` makes of `progress`, and the action to ask for.
fn advance(settings: &Settings, progress: &mut Progress, event: Event) -> (action: Option<Action>)
    requires
        assemble(*settings, *old(progress)).wf(),
    ensures
        assemble(*settings, *final(progress)) == assemble(*settings, *old(progress)).step(
            event@,
        ).0,
        match action {
            Some(a) => assemble(*settings, *old(progress)).step(event@).1 == Some(a@),
            None => assemble(*settings, *old(progress)).step(event@).1 is None,
        },
{
    match progress.phase {
        Phase::Polling => match event {
            Event::Fetched(snapshot) => {
                progress.pending = evaluate(
                    &snapshot,
                    &settings.look_for_size,
                    progress.last_notified_bid,
                );
                Some(proceed(settings, progress))
            },
            Event::FetchFailed(reason) => Some(halt(settings, progress, PollError::Fetch(reason))),
            _ => None,
        },
        Phase::Notifying => match event {
            Event::Delivered => {
                let delivered = progress.pending.remove(0);
                progress.last_notified_bid = delivered;
                proof {
                    assert(progress.pending@ =~= old(progress).pending@.drop_first());
                }
                Some(proceed(settings, progress))
            },
            Event::DeliveryFailed(reason) => Some(
                halt(settings, progress, PollError::Notify(reason)),
            ),
            _ => None,
        },
        Phase::Sleeping => match event {
            Event::Woke => {
                progress.phase = Phase::Polling;
                Some(Action::Fetch { url: request_url(settings.item_url_key.as_str()) })
            },
            _ => None,
        },
        Phase::Halted => None,
    }
}

impl Poller {
    #[verifier::type_invariant]
    spec fn well_formed(self) -> bool {
        self@.wf()
    }

    /// Starts the loop: the poller, and the fetch that opens the first cycle.
    pub fn start(settings: Settings) -> (started: (Poller, Action))
        ensures
            started.0@ == PollerView::started(settings@),
            started.0@.wf(),
            started.1@ == started.0@.fetch(),
    {
        let url = request_url(settings.item_url_key.as_str());
        let progress = Progress {
            last_notified_bid: 0,
            phase: Phase::Polling,
            pending: Vec::new(),
        };
        (Poller { settings, progress }, Action::Fetch { url })
    }

    /// The bid of the last alert that was delivered.
    pub fn last_notified_bid(&self) -> (bid: u16)
        ensures
            bid == self@.last_notified_bid,
    {
        self.progress.last_notified_bid
    }

    /// What the poller is waiting for.
    pub fn phase(&self) -> (phase: Phase)
        ensures
            phase == self@.phase,
    {
        self.progress.phase
    }

    /// The number of alerts of this cycle that are not delivered yet.
    pub fn pending_len(&self) -> (n: usize)
        ensures
            n == self@.pending.len(),
    {
        self.progress.pending.len()
    }

    /// Takes in what happened and answers with what to do next; `None` where
    /// the poller was not waiting for `event`, which then changes nothing.
    pub fn step(&mut self, event: Event) -> (action: Option<Action>)
        ensures
            old(self)@.wf(),
            final(self)@.wf(),
            final(self)@ == old(self)@.step(event@).0,
            match action {
                Some(a) => old(self)@.step(event@).1 == Some(a@),
                None => old(self)@.step(event@).1 is None,
            },
            final(self)@.settings == old(self)@.settings,
            old(self)@.last_notified_bid <= final(self)@.last_notified_bid,
    {
        proof {
            use_type_invariant(&*self);
            step_keeps_wf(self@, event@);
            step_never_lowers_bid(self@, event@);
        }
        let mut progress = Progress {
            last_notified_bid: self.progress.last_notified_bid,
            phase: Phase::Halted,
            pending: Vec::new(),
        };
        core::mem::swap(&mut progress, &mut self.progress);
        let action = advance(&self.settings, &mut progress, event);
        self.progress = progress;
        action
    }
}

/// What is left of a rising queue after its first bid rises above that bid.
pub proof fn lemma_rest_rises(queue: Seq<u16>, floor: u16)
    requires
        rises_above(queue, floor),
        queue.len() > 0,
    ensures
        rises_above(queue.drop_first(), queue[0]),
{
    let rest = queue.drop_first();
    assert forall|k: int| 0 <= k < rest.len() implies queue[0] < rest[k] by {
        assert(rest[k] == queue[k + 1]);
    }
    assert forall|j: int, k: int| 0 <= j < k < rest.len() implies rest[j] < rest[k] by {
        assert(rest[j] == queue[j + 1]);
        assert(rest[k] == queue[k + 1]);
    }
}

/// A step keeps the poller well formed.
pub proof fn step_keeps_wf(p: PollerView, event: EventView)
    requires
        p.wf(),
    ensures
        p.step(event).0.wf(),
{
    match (p.phase, event) {
        (Phase::Polling, EventView::Fetched(entries)) => {
            lemma_alerts_ascend(
                listings_of(entries),
                p.settings.look_for_size,
                p.last_notified_bid,
            );
        },
        (Phase::Notifying, EventView::Delivered) => {
            lemma_rest_rises(p.pending, p.last_notified_bid);
        },
        _ => {},
    }
}

/// The last notified bid never falls, and the settings never change.
pub proof fn step_never_lowers_bid(p: PollerView, event: EventView)
    requires
        p.wf(),
    ensures
        p.last_notified_bid <= p.step(event).0.last_notified_bid,
        p.step(event).0.settings == p.settings,
{
}

/// The last notified bid changes only when an alert is delivered, and then to
/// the bid of that alert.
pub proof fn bid_changes_only_on_delivery(p: PollerView, event: EventView)
    requires
        p.wf(),
    ensures
        p.step(event).0.last_notified_bid != p.last_notified_bid ==> p.phase == Phase::Notifying
            && event == EventView::Delivered && p.step(event).0.last_notified_bid
            == p.pending[0],
{
}

/// A failed fetch ends the loop at once: the poller asks to abort with the
/// failure, no alert is pending, and the last notified bid stays as it was.
pub proof fn failed_fetch_halts(p: PollerView, reason: Seq<char>)
    requires
        p.wf(),
        p.phase == Phase::Polling,
    ensures
        p.step(EventView::FetchFailed(reason)).1 == Some(
            ActionView::Abort { error: PollErrorView::Fetch(reason) },
        ),
        p.step(EventView::FetchFailed(reason)).0.phase == Phase::Halted,
        p.step(EventView::FetchFailed(reason)).0.pending.len() == 0,
        p.step(EventView::FetchFailed(reason)).0.last_notified_bid == p.last_notified_bid,
{
}

/// A failed delivery ends the loop at once, and the bid that was not delivered
/// does not become the last notified bid.
pub proof fn failed_delivery_halts(p: PollerView, reason: Seq<char>)
    requires
        p.wf(),
        p.phase == Phase::Notifying,
    ensures
        p.step(EventView::DeliveryFailed(reason)).1 == Some(
            ActionView::Abort { error: PollErrorView::Notify(reason) },
        ),
        p.step(EventView::DeliveryFailed(reason)).0.phase == Phase::Halted,
        p.step(EventView::DeliveryFailed(reason)).0.pending.len() == 0,
        p.step(EventView::DeliveryFailed(reason)).0.last_notified_bid == p.last_notified_bid,
{
}

/// Once the loop has ended, no event changes the poller or makes it ask for
/// anything: in particular it never asks for a notification again.
pub proof fn halted_stays_halted(p: PollerView, event: EventView)
    requires
        p.phase == Phase::Halted,
    ensures
        p.step(event) == (p, None::<ActionView>),
{
}

/// A poller that goes on with a rising queue announces exactly that queue, one
/// bid per delivery, and then sleeps with the last of them as the last
/// notified bid.
pub proof fn lemma_queue_is_announced(p: PollerView, queue: Seq<u16>)
    requires
        rises_above(queue, p.last_notified_bid),
    ensures
        p.proceed(queue).0.wf(),
        p.proceed(queue).0.announced(p.proceed(queue).1) == queue,
        p.proceed(queue).0.settle().phase == Phase::Sleeping,
        p.proceed(queue).0.settle().pending.len() == 0,
        p.proceed(queue).0.settle().settings == p.settings,
        p.proceed(queue).0.settle().last_notified_bid == level_after(queue, p.last_notified_bid),
    decreases queue.len(),
{
    let (q, asked) = p.proceed(queue);
    if queue.len() > 0 {
        let rest = queue.drop_first();
        let delivered = PollerView { last_notified_bid: queue[0], ..q };
        lemma_rest_rises(queue, p.last_notified_bid);
        lemma_queue_is_announced(delivered, rest);
        assert(q.step(EventView::Delivered) == delivered.proceed(rest));
        assert(q.announced(asked) == seq![queue[0]] + rest);
        assert(seq![queue[0]] + rest =~= queue);
        if rest.len() > 0 {
            assert(rest.last() == queue.last());
        }
    } else {
        assert(q.announced(asked) =~= queue);
    }
}

/// One cycle, every delivery succeeding: the bids announced after a fetch are
/// the alerts of the snapshot, in order, and the poller then sleeps with the
/// last notified bid that the walk of the snapshot reaches.
pub proof fn cycle_announces_alerts(p: PollerView, entries: Seq<EntryView>)
    requires
        p.wf(),
        p.phase == Phase::Polling,
    ensures
        ({
            let fetched = p.step(EventView::Fetched(entries));
            let listings = listings_of(entries);
            let target = p.settings.look_for_size;
            &&& fetched.0.announced(fetched.1) == alerts(listings, target, p.last_notified_bid)
            &&& fetched.0.settle().phase == Phase::Sleeping
            &&& fetched.0.settle().wf()
            &&& fetched.0.settle().settings == p.settings
            &&& fetched.0.settle().last_notified_bid == last_notified_after(
                listings,
                target,
                p.last_notified_bid,
            )
        }),
{
    let listings = listings_of(entries);
    let target = p.settings.look_for_size;
    lemma_alerts_ascend(listings, target, p.last_notified_bid);
    lemma_queue_is_announced(p, alerts(listings, target, p.last_notified_bid));
}

/// A fetch that brings no listing of the size looked for sends no alert: the
/// poller asks for the pause, and the last notified bid stays as it was.
pub proof fn fetch_without_size_match_sleeps(p: PollerView, entries: Seq<EntryView>)
    requires
        p.wf(),
        p.phase == Phase::Polling,
        forall|i: int|
            0 <= i < entries.len() ==> (#[trigger] entries[i]).listing.size
                != p.settings.look_for_size,
    ensures
        p.step(EventView::Fetched(entries)).1 == Some(
            ActionView::Sleep { secs: POLL_INTERVAL_SECS },
        ),
        p.step(EventView::Fetched(entries)).0.phase == Phase::Sleeping,
        p.step(EventView::Fetched(entries)).0.last_notified_bid == p.last_notified_bid,
{
    let listings = listings_of(entries);
    assert forall|i: int| 0 <= i < listings.len() implies (#[trigger] listings[i]).size
        != p.settings.look_for_size by {
        assert(listings[i] == entries[i].listing);
    }
    no_size_match_is_silent(listings, p.settings.look_for_size, p.last_notified_bid);
}

/// A fetch in which every listing of the size looked for bids no more than the
/// last notified bid sends no alert: the poller asks for the pause, and the
/// last notified bid stays as it was.
pub proof fn fetch_without_rise_sleeps(p: PollerView, entries: Seq<EntryView>)
    requires
        p.wf(),
        p.phase == Phase::Polling,
        forall|i: int|
            0 <= i < entries.len() && (#[trigger] entries[i]).listing.size
                == p.settings.look_for_size ==> entries[i].listing.highest_bid
                <= p.last_notified_bid,
    ensures
        p.step(EventView::Fetched(entries)).1 == Some(
            ActionView::Sleep { secs: POLL_INTERVAL_SECS },
        ),
        p.step(EventView::Fetched(entries)).0.phase == Phase::Sleeping,
        p.step(EventView::Fetched(entries)).0.last_notified_bid == p.last_notified_bid,
{
    let listings = listings_of(entries);
    assert forall|i: int|
        0 <= i < listings.len() && (#[trigger] listings[i]).size
            == p.settings.look_for_size implies listings[i].highest_bid
        <= p.last_notified_bid by {
        assert(listings[i] == entries[i].listing);
    }
    no_rise_is_silent(listings, p.settings.look_for_size, p.last_notified_bid);
}

/// A fetch in which a listing qualifies, and every listing that qualifies
/// carries the same bid, sends exactly one alert: the poller asks for the alert
/// of that bid, and once it is delivered the bid is the last notified bid and
/// the poller asks for the pause.
pub proof fn fetch_with_one_rise_notifies_once(p: PollerView, entries: Seq<EntryView>, at: int)
    requires
        p.wf(),
        p.phase == Phase::Polling,
        0 <= at < entries.len(),
        qualifies(entries[at].listing, p.settings.look_for_size, p.last_notified_bid),
        forall|i: int|
            0 <= i < entries.len() && qualifies(
                (#[trigger] entries[i]).listing,
                p.settings.look_for_size,
                p.last_notified_bid,
            ) ==> entries[i].listing.highest_bid == entries[at].listing.highest_bid,
    ensures
        ({
            let bid = entries[at].listing.highest_bid;
            let fetched = p.step(EventView::Fetched(entries));
            let delivered = fetched.0.step(EventView::Delivered);
            &&& fetched.1 == Some(p.notify(bid))
            &&& fetched.0.last_notified_bid == p.last_notified_bid
            &&& fetched.0.announced(fetched.1) == seq![bid]
            &&& delivered.1 == Some(ActionView::Sleep { secs: POLL_INTERVAL_SECS })
            &&& delivered.0.last_notified_bid == bid
        }),
{
    let listings = listings_of(entries);
    let target = p.settings.look_for_size;
    assert(listings[at] == entries[at].listing);
    assert forall|i: int|
        0 <= i < listings.len() && qualifies(
            #[trigger] listings[i],
            target,
            p.last_notified_bid,
        ) implies listings[i].highest_bid == listings[at].highest_bid by {
        assert(listings[i] == entries[i].listing);
    }
    one_rise_is_one_alert(listings, target, p.last_notified_bid, at);
    cycle_announces_alerts(p, entries);
    let bid = entries[at].listing.highest_bid;
    assert(seq![bid].drop_first() =~= Seq::<u16>::empty());
}

/// The same snapshot fetched twice in a row sends no alert the second time:
/// after the first cycle and the pause, the second fetch is answered with the
/// pause, and the last notified bid stays as the first cycle left it.
pub proof fn same_snapshot_twice_is_silent(p: PollerView, entries: Seq<EntryView>)
    requires
        p.wf(),
        p.phase == Phase::Polling,
    ensures
        ({
            let first = p.step(EventView::Fetched(entries)).0.settle();
            let woken = first.step(EventView::Woke);
            let second = woken.0.step(EventView::Fetched(entries));
            &&& first.phase == Phase::Sleeping
            &&& woken.1 == Some(p.fetch())
            &&& second.1 == Some(ActionView::Sleep { secs: POLL_INTERVAL_SECS })
            &&& second.0.last_notified_bid == first.last_notified_bid
        }),
{
    let listings = listings_of(entries);
    let target = p.settings.look_for_size;
    cycle_announces_alerts(p, entries);
    lemma_level_is_greatest(listings, target, p.last_notified_bid);
    let first = p.step(EventView::Fetched(entries)).0.settle();
    no_rise_is_silent(listings, target, first.last_notified_bid);
}

} // verus!
