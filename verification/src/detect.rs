//! Bid extraction and change detection.
//!
//! A snapshot is walked once, front to back. A listing raises an alert when its
//! size is the one looked for and its bid is strictly above the level reached so
//! far; the level starts at the last notified bid and rises to each alerted bid.

use vstd::prelude::*;
use crate::snapshot::{ListingView, ProductSnapshot};

verus! {

/// True when `listing` is of size `target` and bids strictly more than `level`.
pub open spec fn qualifies(listing: ListingView, target: Seq<char>, level: u16) -> bool {
    listing.size == target && level < listing.highest_bid
}

/// The level after the bids `raised` were announced, starting from `last`.
pub open spec fn level_after(raised: Seq<u16>, last: u16) -> u16 {
    if raised.len() == 0 {
        last
    } else {
        raised.last()
    }
}

/// The bids announced, in order, when `listings` is walked from the front with
/// `last` as the last notified bid.
pub open spec fn alerts(listings: Seq<ListingView>, target: Seq<char>, last: u16) -> Seq<u16>
    decreases listings.len(),
{
    if listings.len() == 0 {
        Seq::empty()
    } else {
        let earlier = alerts(listings.drop_last(), target, last);
        if qualifies(listings.last(), target, level_after(earlier, last)) {
            earlier.push(listings.last().highest_bid)
        } else {
            earlier
        }
    }
}

/// The last notified bid once every alert of `listings` has gone out.
pub open spec fn last_notified_after(
    listings: Seq<ListingView>,
    target: Seq<char>,
    last: u16,
) -> u16 {
    level_after(alerts(listings, target, last), last)
}

/// Walks `snapshot` and returns the bids to announce, in order.
pub fn evaluate(snapshot: &ProductSnapshot, target: &String, last: u16) -> (bids: Vec<u16>)
    ensures
        bids@ == alerts(snapshot.listings(), target@, last),
{
    let ghost listings = snapshot.listings();
    let mut bids: Vec<u16> = Vec::new();
    let mut level: u16 = last;
    let mut i: usize = 0;
    while i < snapshot.len()
        invariant
            listings == snapshot.listings(),
            i <= listings.len(),
            bids@ == alerts(listings.take(i as int), target@, last),
            level == level_after(bids@, last),
        decreases listings.len() - i,
    {
        let listing = snapshot.listing_at(i);
        proof {
            let upto = listings.take(i + 1);
            assert(upto.drop_last() =~= listings.take(i as int));
            assert(upto.last() == listing@);
        }
        if listing.size == *target && level < listing.highest_bid {
            level = listing.highest_bid;
            bids.push(level);
        }
        i += 1;
    }
    proof {
        assert(listings.take(i as int) =~= listings);
    }
    bids
}

/// Every alert is strictly above the last notified bid, and each alert is
/// strictly above the one before it.
pub proof fn lemma_alerts_ascend(listings: Seq<ListingView>, target: Seq<char>, last: u16)
    ensures
        forall|k: int|
            0 <= k < alerts(listings, target, last).len() ==> last < #[trigger] alerts(
                listings,
                target,
                last,
            )[k],
        forall|j: int, k: int|
            0 <= j < k < alerts(listings, target, last).len() ==> alerts(listings, target, last)[j]
                < alerts(listings, target, last)[k],
    decreases listings.len(),
{
    if listings.len() > 0 {
        let earlier = alerts(listings.drop_last(), target, last);
        let all = alerts(listings, target, last);
        lemma_alerts_ascend(listings.drop_last(), target, last);
        assert forall|k: int| 0 <= k < all.len() implies last < #[trigger] all[k] by {
            if k < earlier.len() {
                assert(all[k] == earlier[k]);
            }
        }
        assert forall|j: int, k: int| 0 <= j < k < all.len() implies all[j] < all[k] by {
            assert(all[j] == earlier[j]);
            if k < earlier.len() {
                assert(all[k] == earlier[k]);
            } else if j < earlier.len() - 1 {
                assert(earlier[j] < earlier[earlier.len() - 1]);
            }
        }
    }
}

/// Every alert carries the bid of a listing that qualifies against the last
/// notified bid.
pub proof fn lemma_alerts_come_from_listings(
    listings: Seq<ListingView>,
    target: Seq<char>,
    last: u16,
)
    ensures
        forall|k: int|
            0 <= k < alerts(listings, target, last).len() ==> exists|i: int|
                0 <= i < listings.len() && qualifies(#[trigger] listings[i], target, last)
                    && listings[i].highest_bid == #[trigger] alerts(listings, target, last)[k],
    decreases listings.len(),
{
    if listings.len() > 0 {
        let front = listings.drop_last();
        let earlier = alerts(front, target, last);
        lemma_alerts_come_from_listings(front, target, last);
        lemma_alerts_ascend(front, target, last);
        let all = alerts(listings, target, last);
        assert forall|k: int| 0 <= k < all.len() implies exists|i: int|
            0 <= i < listings.len() && qualifies(#[trigger] listings[i], target, last)
                && listings[i].highest_bid == #[trigger] all[k] by {
            if k < earlier.len() {
                let i = choose|i: int|
                    0 <= i < front.len() && qualifies(#[trigger] front[i], target, last)
                        && front[i].highest_bid == earlier[k];
                assert(listings[i] == front[i]);
            } else {
                let i = listings.len() - 1;
                assert(qualifies(listings[i], target, last));
            }
        }
    }
}

/// The last notified bid after a walk is the greatest of the bid before it and
/// the bids of the listings of the size looked for.
pub proof fn lemma_level_is_greatest(listings: Seq<ListingView>, target: Seq<char>, last: u16)
    ensures
        last <= last_notified_after(listings, target, last),
        forall|i: int|
            0 <= i < listings.len() && (#[trigger] listings[i]).size == target
                ==> listings[i].highest_bid <= last_notified_after(listings, target, last),
        last_notified_after(listings, target, last) == last || exists|i: int|
            0 <= i < listings.len() && (#[trigger] listings[i]).size == target
                && listings[i].highest_bid == last_notified_after(listings, target, last),
    decreases listings.len(),
{
    if listings.len() > 0 {
        let front = listings.drop_last();
        lemma_level_is_greatest(front, target, last);
        let before = last_notified_after(front, target, last);
        let after = last_notified_after(listings, target, last);
        assert forall|i: int|
            0 <= i < listings.len() && (#[trigger] listings[i]).size == target implies listings[i].highest_bid
            <= after by {
            if i < front.len() {
                assert(listings[i] == front[i]);
            }
        }
        if after != last {
            if after == before {
                let i = choose|i: int|
                    0 <= i < front.len() && (#[trigger] front[i]).size == target
                        && front[i].highest_bid == before;
                assert(listings[i] == front[i]);
            } else {
                assert(listings[listings.len() - 1].highest_bid == after);
            }
        }
    }
}

/// The alerts of the first `n` listings open the alerts of the whole walk.
pub proof fn lemma_alerts_of_front(
    listings: Seq<ListingView>,
    target: Seq<char>,
    last: u16,
    n: int,
)
    requires
        0 <= n <= listings.len(),
    ensures
        alerts(listings.take(n), target, last).len() <= alerts(listings, target, last).len(),
        alerts(listings.take(n), target, last) == alerts(listings, target, last).take(
            alerts(listings.take(n), target, last).len() as int,
        ),
    decreases listings.len(),
{
    let whole = alerts(listings, target, last);
    if n == listings.len() {
        assert(listings.take(n) =~= listings);
        assert(whole.take(whole.len() as int) =~= whole);
    } else {
        let front = listings.drop_last();
        lemma_alerts_of_front(front, target, last, n);
        assert(front.take(n) =~= listings.take(n));
        let part = alerts(listings.take(n), target, last);
        let most = alerts(front, target, last);
        assert(most.take(part.len() as int) =~= whole.take(part.len() as int));
    }
}

/// Listing by listing: the listing at `at` adds its bid to the alerts of the
/// listings before it if it qualifies against the level that they reached,
/// and adds nothing if it does not.
pub proof fn walk_takes_one_listing(
    listings: Seq<ListingView>,
    target: Seq<char>,
    last: u16,
    at: int,
)
    requires
        0 <= at < listings.len(),
    ensures
        alerts(listings.take(at + 1), target, last) == (if qualifies(
            listings[at],
            target,
            last_notified_after(listings.take(at), target, last),
        ) {
            alerts(listings.take(at), target, last).push(listings[at].highest_bid)
        } else {
            alerts(listings.take(at), target, last)
        }),
{
    let upto = listings.take(at + 1);
    assert(upto.drop_last() =~= listings.take(at));
    assert(upto.last() == listings[at]);
}

/// A listing that qualifies against the level reached before it is announced
/// exactly once in the whole walk, right after the alerts of the listings
/// before it, and the last notified bid is its bid before the next listing is
/// looked at.
pub proof fn rise_is_announced_once(
    listings: Seq<ListingView>,
    target: Seq<char>,
    last: u16,
    at: int,
)
    requires
        0 <= at < listings.len(),
        qualifies(listings[at], target, last_notified_after(listings.take(at), target, last)),
    ensures
        last_notified_after(listings.take(at + 1), target, last) == listings[at].highest_bid,
        ({
            let raised = alerts(listings, target, last);
            let k = alerts(listings.take(at), target, last).len() as int;
            &&& k < raised.len()
            &&& raised[k] == listings[at].highest_bid
            &&& forall|j: int|
                0 <= j < raised.len() && j != k ==> raised[j] != listings[at].highest_bid
        }),
{
    let raised = alerts(listings, target, last);
    let before = alerts(listings.take(at), target, last);
    let with_it = alerts(listings.take(at + 1), target, last);
    walk_takes_one_listing(listings, target, last, at);
    lemma_alerts_of_front(listings, target, last, at + 1);
    lemma_alerts_ascend(listings, target, last);
    let k = before.len() as int;
    assert(with_it[k] == listings[at].highest_bid);
    assert(raised.take(with_it.len() as int)[k] == raised[k]);
    assert forall|j: int| 0 <= j < raised.len() && j != k implies raised[j]
        != listings[at].highest_bid by {
        if j < k {
            assert(raised[j] < raised[k]);
        } else {
            assert(raised[k] < raised[j]);
        }
    }
}

/// A listing that does not qualify against the level reached before it, be it
/// of another size or with a bid that is no higher, adds no alert and leaves
/// the last notified bid as it was.
pub proof fn no_rise_adds_nothing(
    listings: Seq<ListingView>,
    target: Seq<char>,
    last: u16,
    at: int,
)
    requires
        0 <= at < listings.len(),
        !qualifies(listings[at], target, last_notified_after(listings.take(at), target, last)),
    ensures
        alerts(listings.take(at + 1), target, last) == alerts(listings.take(at), target, last),
        last_notified_after(listings.take(at + 1), target, last) == last_notified_after(
            listings.take(at),
            target,
            last,
        ),
{
    walk_takes_one_listing(listings, target, last, at);
}

/// A walk announces nothing exactly when no listing qualifies against the last
/// notified bid; the last notified bid then stays as it was.
pub proof fn silent_iff_nothing_qualifies(listings: Seq<ListingView>, target: Seq<char>, last: u16)
    ensures
        alerts(listings, target, last).len() == 0 <==> forall|i: int|
            0 <= i < listings.len() ==> !qualifies(#[trigger] listings[i], target, last),
        alerts(listings, target, last).len() == 0 ==> last_notified_after(listings, target, last)
            == last,
{
    lemma_alerts_come_from_listings(listings, target, last);
    lemma_level_is_greatest(listings, target, last);
    let raised = alerts(listings, target, last);
    if raised.len() > 0 {
        let i = choose|i: int|
            0 <= i < listings.len() && qualifies(#[trigger] listings[i], target, last)
                && listings[i].highest_bid == raised[0];
        assert(qualifies(listings[i], target, last));
    }
}

/// Where no listing is of the size looked for, nothing is announced and the
/// last notified bid stays as it was.
pub proof fn no_size_match_is_silent(listings: Seq<ListingView>, target: Seq<char>, last: u16)
    requires
        forall|i: int| 0 <= i < listings.len() ==> (#[trigger] listings[i]).size != target,
    ensures
        alerts(listings, target, last) == Seq::<u16>::empty(),
        last_notified_after(listings, target, last) == last,
{
    silent_iff_nothing_qualifies(listings, target, last);
    assert(alerts(listings, target, last) =~= Seq::<u16>::empty());
}

/// Where every listing of the size looked for bids no more than the last
/// notified bid, nothing is announced and the last notified bid stays as it was.
pub proof fn no_rise_is_silent(listings: Seq<ListingView>, target: Seq<char>, last: u16)
    requires
        forall|i: int|
            0 <= i < listings.len() && (#[trigger] listings[i]).size == target
                ==> listings[i].highest_bid <= last,
    ensures
        alerts(listings, target, last) == Seq::<u16>::empty(),
        last_notified_after(listings, target, last) == last,
{
    silent_iff_nothing_qualifies(listings, target, last);
    assert(alerts(listings, target, last) =~= Seq::<u16>::empty());
}

/// Where a listing qualifies, and every listing that qualifies carries the same
/// bid, exactly one alert goes out, with that bid, and the last notified bid
/// becomes that bid.
pub proof fn one_rise_is_one_alert(
    listings: Seq<ListingView>,
    target: Seq<char>,
    last: u16,
    at: int,
)
    requires
        0 <= at < listings.len(),
        qualifies(listings[at], target, last),
        forall|i: int|
            0 <= i < listings.len() && qualifies(#[trigger] listings[i], target, last)
                ==> listings[i].highest_bid == listings[at].highest_bid,
    ensures
        alerts(listings, target, last) == seq![listings[at].highest_bid],
        last_notified_after(listings, target, last) == listings[at].highest_bid,
{
    let raised = alerts(listings, target, last);
    let bid = listings[at].highest_bid;
    silent_iff_nothing_qualifies(listings, target, last);
    lemma_alerts_come_from_listings(listings, target, last);
    lemma_alerts_ascend(listings, target, last);
    assert forall|k: int| 0 <= k < raised.len() implies #[trigger] raised[k] == bid by {
        let i = choose|i: int|
            0 <= i < listings.len() && qualifies(#[trigger] listings[i], target, last)
                && listings[i].highest_bid == raised[k];
        assert(qualifies(listings[i], target, last));
    }
    if raised.len() > 1 {
        assert(raised[0] < raised[1]);
    }
    assert(raised =~= seq![bid]);
}

/// Walking the same listings a second time, from the level that the first walk
/// reached, announces nothing and leaves that level as it is.
pub proof fn second_walk_is_silent(listings: Seq<ListingView>, target: Seq<char>, last: u16)
    ensures
        alerts(listings, target, last_notified_after(listings, target, last)) == Seq::<
            u16,
        >::empty(),
        last_notified_after(listings, target, last_notified_after(listings, target, last))
            == last_notified_after(listings, target, last),
{
    let reached = last_notified_after(listings, target, last);
    lemma_level_is_greatest(listings, target, last);
    no_rise_is_silent(listings, target, reached);
}

/// The last notified bid never falls: after a walk it is at least what it was.
pub proof fn level_never_falls(listings: Seq<ListingView>, target: Seq<char>, last: u16)
    ensures
        last <= last_notified_after(listings, target, last),
{
    lemma_level_is_greatest(listings, target, last);
}

} // verus!
