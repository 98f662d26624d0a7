//! Ledger-wide laws, proved once and for all over the ghost model.
//!
//! Together with the operation contracts in [`crate::market`] these pin down
//! the behaviours the ledger promises across calls: created values are kept
//! until explicitly updated, a bid is fixed exactly once, a sale settles at
//! most once, and the escrow balance never leaves the range that the
//! successful deposits justify.

use vstd::prelude::*;
use crate::model::{
    MarketModel, PayloadModel, SaleModel, add_escrow_allowed, add_escrow_applied, bid_allowed,
    bid_applied, bio_applied, category_applied, create_allowed, create_applied, dispute_applied,
    fresh_listing, listed, market_inv, price_applied, rating_applied, release_allowed,
    release_applied, resolve_applied, sold_applied, status_applied, withdraw_allowed,
    withdraw_applied,
};

verus! {

/// An id the allocator has not issued yet addresses nothing: every operation
/// aimed at it reports the listing as missing.
pub proof fn lemma_unallocated_absent(m: MarketModel, id: u64)
    requires
        market_inv(m),
        id > m.counter || id == 0,
    ensures
        !m.listings.dom().contains(id),
        !m.archive.dom().contains(id),
{
}

/// Creation stores, under an id never seen before, exactly the values the
/// payload supplied: price, description and status label are the caller's,
/// the escrow balance is empty, there is no dispute, no bid, no sale, and no
/// rating yet.
pub proof fn lemma_creation_values(m: MarketModel, p: PayloadModel)
    requires
        market_inv(m),
        create_allowed(m),
    ensures
        ({
            let id = (m.counter + 1) as u64;
            let m2 = create_applied(m, p);
            &&& !m.listings.dom().contains(id)
            &&& !m.archive.dom().contains(id)
            &&& m2.listings.dom().contains(id)
            &&& m2.listings[id] == fresh_listing(id, p)
        }),
{
}

/// An operation addressed to one listing never disturbs another: whatever a
/// transition does under `id`, the listing stored under a different `other`
/// id is exactly what it was.  This is what lets a caller rely on created or
/// updated values until it itself updates them again.
pub proof fn lemma_other_listing_untouched(
    m: MarketModel,
    id: u64,
    other: u64,
    text: Seq<char>,
    amount: u64,
    rating: u8,
    favor_farmer: bool,
    p: PayloadModel,
)
    requires
        market_inv(m),
        create_allowed(m),
        m.listings.dom().contains(other),
        id != other,
    ensures
        create_applied(m, p).listings[other] == m.listings[other],
        bid_applied(m, id, text).listings[other] == m.listings[other],
        sold_applied(m, id).listings[other] == m.listings[other],
        dispute_applied(m, id).listings[other] == m.listings[other],
        resolve_applied(m, id, favor_farmer).listings[other] == m.listings[other],
        release_applied(m, id).listings[other] == m.listings[other],
        add_escrow_applied(m, id, amount).listings[other] == m.listings[other],
        withdraw_applied(m, id, amount).listings[other] == m.listings[other],
        category_applied(m, id, text).listings[other] == m.listings[other],
        bio_applied(m, id, text).listings[other] == m.listings[other],
        price_applied(m, id, amount).listings[other] == m.listings[other],
        status_applied(m, id, text).listings[other] == m.listings[other],
        rating_applied(m, id, rating).listings[other] == m.listings[other],
{
    assert(other <= m.counter);
}

/// A bid fixes the consumer address exactly once: after a successful bid the
/// listing holds the first bidder's address, and no further bid is allowed
/// on it — by `product_bid`'s contract a second call, with any address,
/// returns `AlreadyBidOn` and changes nothing.
pub proof fn lemma_bid_fixed_once(m: MarketModel, id: u64, first: Seq<char>)
    requires
        bid_allowed(m, id),
    ensures
        ({
            let m2 = bid_applied(m, id, first);
            &&& listed(m2, id)
            &&& m2.listings[id].consumer_address == Some(first)
            &&& !bid_allowed(m2, id)
        }),
{
}

/// Payment is released only for a listing that was marked sold and carries
/// no unresolved dispute, and a listing settles at most once: the release
/// archives exactly one record under the listing's own id, and a second
/// release of the same listing is no longer allowed.
pub proof fn lemma_release_settles_once(m: MarketModel, id: u64)
    requires
        market_inv(m),
        release_allowed(m, id),
    ensures
        m.listings[id].is_sold,
        !m.listings[id].dispute_status,
        m.listings[id].consumer_address is Some,
        !m.archive.dom().contains(id),
        release_applied(m, id).archive == m.archive.insert(
            id,
            (SaleModel { id, farmer_address: m.listings[id].address }),
        ),
        !release_allowed(release_applied(m, id), id),
{
}

/// Only a release ever writes to the archive: every other transition leaves
/// it exactly as it was.  Together with `lemma_release_settles_once` this is
/// what makes the archive append-only with one record per settled listing.
pub proof fn lemma_only_release_archives(
    m: MarketModel,
    id: u64,
    text: Seq<char>,
    amount: u64,
    rating: u8,
    favor_farmer: bool,
    p: PayloadModel,
)
    ensures
        create_applied(m, p).archive == m.archive,
        bid_applied(m, id, text).archive == m.archive,
        sold_applied(m, id).archive == m.archive,
        dispute_applied(m, id).archive == m.archive,
        resolve_applied(m, id, favor_farmer).archive == m.archive,
        add_escrow_applied(m, id, amount).archive == m.archive,
        withdraw_applied(m, id, amount).archive == m.archive,
        category_applied(m, id, text).archive == m.archive,
        bio_applied(m, id, text).archive == m.archive,
        price_applied(m, id, amount).archive == m.archive,
        status_applied(m, id, text).archive == m.archive,
        rating_applied(m, id, rating).archive == m.archive,
{
}

/// One deposit or withdrawal request against an escrow balance: a deposit
/// the balance cannot hold, and a withdrawal beyond the balance, are refused
/// and leave it unchanged.
pub ghost enum EscrowEvent {
    Add { amount: u64 },
    Withdraw { amount: u64 },
}

/// The balance left behind by one request, mirroring what `add_to_escrow`
/// and `withdraw_from_escrow` do on success and on refusal.
pub open spec fn escrow_step(balance: u64, e: EscrowEvent) -> u64 {
    match e {
        EscrowEvent::Add { amount } => if balance + amount <= u64::MAX {
            (balance + amount) as u64
        } else {
            balance
        },
        EscrowEvent::Withdraw { amount } => if amount <= balance {
            (balance - amount) as u64
        } else {
            balance
        },
    }
}

/// The balance after a whole sequence of requests.
pub open spec fn escrow_run(balance: u64, events: Seq<EscrowEvent>) -> u64
    decreases events.len(),
{
    if events.len() == 0 {
        balance
    } else {
        escrow_run(escrow_step(balance, events[0]), events.drop_first())
    }
}

/// The total of the deposits that succeed along the run.
pub open spec fn deposited(balance: u64, events: Seq<EscrowEvent>) -> int
    decreases events.len(),
{
    if events.len() == 0 {
        0
    } else {
        (match events[0] {
            EscrowEvent::Add { amount } => if balance + amount <= u64::MAX {
                amount as int
            } else {
                0
            },
            EscrowEvent::Withdraw { .. } => 0,
        }) + deposited(escrow_step(balance, events[0]), events.drop_first())
    }
}

/// `add_to_escrow` and `withdraw_from_escrow` move a listing's balance
/// exactly as `escrow_step` says: what succeeds applies the step, and what
/// the step refuses is exactly what the operation refuses.
pub proof fn lemma_escrow_ops_are_steps(m: MarketModel, id: u64, e: EscrowEvent)
    requires
        m.listings.dom().contains(id),
    ensures
        ({
            let b = m.listings[id].escrow_balance;
            match e {
                EscrowEvent::Add { amount } => {
                    &&& (add_escrow_allowed(m, id, amount) <==> b + amount <= u64::MAX)
                    &&& add_escrow_allowed(m, id, amount) ==> add_escrow_applied(
                        m,
                        id,
                        amount,
                    ).listings[id].escrow_balance == escrow_step(b, e)
                    &&& !add_escrow_allowed(m, id, amount) ==> escrow_step(b, e) == b
                },
                EscrowEvent::Withdraw { amount } => {
                    &&& (withdraw_allowed(m, id, amount) <==> amount <= b)
                    &&& withdraw_allowed(m, id, amount) ==> withdraw_applied(
                        m,
                        id,
                        amount,
                    ).listings[id].escrow_balance == escrow_step(b, e)
                    &&& !withdraw_allowed(m, id, amount) ==> escrow_step(b, e) == b
                },
            }
        }),
{
}

/// For every sequence of deposit and withdrawal requests the escrow balance
/// never goes negative and never exceeds the starting balance plus the sum
/// of the successful deposits; a freshly created listing starts at zero, so
/// its balance stays within `[0, sum of successful deposits]`.
pub proof fn lemma_escrow_balance_bounded(balance: u64, events: Seq<EscrowEvent>)
    ensures
        0 <= escrow_run(balance, events) <= balance + deposited(balance, events),
    decreases events.len(),
{
    if events.len() > 0 {
        lemma_escrow_balance_bounded(escrow_step(balance, events[0]), events.drop_first());
    }
}

} // verus!
