//! The ghost model of the ledger and the transition each operation performs.
//!
//! Every executable operation of [`crate::market::Marketplace`] is specified
//! against these: a `*_allowed` predicate says on which states the operation
//! succeeds, and the matching `*_applied` function says exactly which state
//! it leaves behind.

use vstd::prelude::*;

verus! {

/// The mathematical value of one stored listing.
#[verifier::ext_equal]
pub ghost struct ListingModel {
    pub id: u64,
    pub address: Seq<char>,
    pub name: Seq<char>,
    pub bio: Seq<char>,
    pub category: Seq<char>,
    pub price: u64,
    pub escrow_balance: u64,
    pub dispute_status: bool,
    pub rating: u8,
    pub product_status: Seq<char>,
    pub consumer_address: Option<Seq<char>>,
    pub is_sold: bool,
}

/// The mathematical value of one archived settled sale.
#[verifier::ext_equal]
pub ghost struct SaleModel {
    pub id: u64,
    pub farmer_address: Seq<char>,
}

/// The values a caller supplies when creating a listing.
#[verifier::ext_equal]
pub ghost struct PayloadModel {
    pub address: Seq<char>,
    pub name: Seq<char>,
    pub bio: Seq<char>,
    pub category: Seq<char>,
    pub price: u64,
    pub product_status: Seq<char>,
}

/// The whole ledger: the id counter and the two keyed durable regions.
#[verifier::ext_equal]
pub ghost struct MarketModel {
    pub counter: u64,
    pub listings: Map<u64, ListingModel>,
    pub archive: Map<u64, SaleModel>,
}

/// The ledger before any listing has been created.
pub open spec fn empty_market() -> MarketModel {
    MarketModel { counter: 0, listings: Map::empty(), archive: Map::empty() }
}

/// Well-formedness of the ledger, established by the constructor and
/// preserved by every operation:
/// - every listing id was allocated by the counter and is stored under itself;
/// - a sold listing always has an accepted consumer;
/// - archived ids still have their (sold) listing in the listing store, and
///   each archived record is stored under its own id.
pub open spec fn market_inv(m: MarketModel) -> bool {
    &&& forall|id: u64| #[trigger] m.listings.dom().contains(id)
        ==> 1 <= id <= m.counter && m.listings[id].id == id
    &&& forall|id: u64| #[trigger] m.listings.dom().contains(id) && m.listings[id].is_sold
        ==> m.listings[id].consumer_address is Some
    &&& forall|id: u64| #[trigger] m.archive.dom().contains(id)
        ==> m.listings.dom().contains(id) && m.listings[id].is_sold && m.archive[id].id == id
}

/// The listing a creation request initializes: escrow empty, no dispute,
/// unrated, no bid, unsold.
pub open spec fn fresh_listing(id: u64, p: PayloadModel) -> ListingModel {
    ListingModel {
        id,
        address: p.address,
        name: p.name,
        bio: p.bio,
        category: p.category,
        price: p.price,
        escrow_balance: 0,
        dispute_status: false,
        rating: 0,
        product_status: p.product_status,
        consumer_address: None,
        is_sold: false,
    }
}

/// Creation succeeds as long as the id counter can still grow.
pub open spec fn create_allowed(m: MarketModel) -> bool {
    m.counter < u64::MAX
}

pub open spec fn create_applied(m: MarketModel, p: PayloadModel) -> MarketModel {
    let id = (m.counter + 1) as u64;
    MarketModel {
        counter: id,
        listings: m.listings.insert(id, fresh_listing(id, p)),
        archive: m.archive,
    }
}

/// A bid lands only on a listing with no pending bid.
pub open spec fn bid_allowed(m: MarketModel, id: u64) -> bool {
    m.listings.dom().contains(id) && m.listings[id].consumer_address is None
}

pub open spec fn bid_applied(m: MarketModel, id: u64, consumer: Seq<char>) -> MarketModel {
    MarketModel {
        listings: m.listings.insert(
            id,
            ListingModel {
                consumer_address: Some(consumer),
                product_status: "Bid Placed"@,
                ..m.listings[id]
            },
        ),
        ..m
    }
}

/// A bid can be accepted only while one is pending.
pub open spec fn accept_allowed(m: MarketModel, id: u64) -> bool {
    m.listings.dom().contains(id) && m.listings[id].consumer_address is Some
}

pub open spec fn accept_applied(m: MarketModel, id: u64) -> MarketModel {
    MarketModel {
        listings: m.listings.insert(
            id,
            ListingModel { product_status: "Bid Accepted"@, ..m.listings[id] },
        ),
        ..m
    }
}

/// A sale completes only towards an accepted consumer.
pub open spec fn sold_allowed(m: MarketModel, id: u64) -> bool {
    m.listings.dom().contains(id) && m.listings[id].consumer_address is Some
}

pub open spec fn sold_applied(m: MarketModel, id: u64) -> MarketModel {
    MarketModel {
        listings: m.listings.insert(
            id,
            ListingModel { is_sold: true, product_status: "Product Sold"@, ..m.listings[id] },
        ),
        ..m
    }
}

/// Raising a dispute has no guard beyond the listing existing.
pub open spec fn dispute_allowed(m: MarketModel, id: u64) -> bool {
    m.listings.dom().contains(id)
}

pub open spec fn dispute_applied(m: MarketModel, id: u64) -> MarketModel {
    MarketModel {
        listings: m.listings.insert(
            id,
            ListingModel {
                dispute_status: true,
                product_status: "Dispute Raised"@,
                ..m.listings[id]
            },
        ),
        ..m
    }
}

/// A dispute can be resolved only while one is active.
pub open spec fn resolve_allowed(m: MarketModel, id: u64) -> bool {
    m.listings.dom().contains(id) && m.listings[id].dispute_status
}

/// `favor_farmer` picks which party the resolution sends the funds to.
pub open spec fn resolve_applied(m: MarketModel, id: u64, favor_farmer: bool) -> MarketModel {
    MarketModel {
        listings: m.listings.insert(
            id,
            ListingModel {
                dispute_status: false,
                product_status: if favor_farmer {
                    "Dispute Resolved - Funds to Farmer"@
                } else {
                    "Dispute Resolved - Funds to Consumer"@
                },
                ..m.listings[id]
            },
        ),
        ..m
    }
}

/// Payment is released only for a sold, undisputed listing that has not been
/// settled before; settling twice would archive the same sale twice.
pub open spec fn release_allowed(m: MarketModel, id: u64) -> bool {
    &&& m.listings.dom().contains(id)
    &&& m.listings[id].is_sold
    &&& !m.listings[id].dispute_status
    &&& !m.archive.dom().contains(id)
}

/// Release empties the escrow balance and archives a snapshot of the seller's
/// address under the listing's own id; the listing itself stays in the store.
pub open spec fn release_applied(m: MarketModel, id: u64) -> MarketModel {
    MarketModel {
        counter: m.counter,
        listings: m.listings.insert(id, ListingModel { escrow_balance: 0, ..m.listings[id] }),
        archive: m.archive.insert(
            id,
            SaleModel { id, farmer_address: m.listings[id].address },
        ),
    }
}

/// An escrow deposit succeeds whenever the balance can hold it.
pub open spec fn add_escrow_allowed(m: MarketModel, id: u64, amount: u64) -> bool {
    m.listings.dom().contains(id) && m.listings[id].escrow_balance + amount <= u64::MAX
}

pub open spec fn add_escrow_applied(m: MarketModel, id: u64, amount: u64) -> MarketModel {
    MarketModel {
        listings: m.listings.insert(
            id,
            ListingModel {
                escrow_balance: (m.listings[id].escrow_balance + amount) as u64,
                ..m.listings[id]
            },
        ),
        ..m
    }
}

/// A withdrawal is bounded by the current balance.
pub open spec fn withdraw_allowed(m: MarketModel, id: u64, amount: u64) -> bool {
    m.listings.dom().contains(id) && amount <= m.listings[id].escrow_balance
}

pub open spec fn withdraw_applied(m: MarketModel, id: u64, amount: u64) -> MarketModel {
    MarketModel {
        listings: m.listings.insert(
            id,
            ListingModel {
                escrow_balance: (m.listings[id].escrow_balance - amount) as u64,
                ..m.listings[id]
            },
        ),
        ..m
    }
}

/// Field updates and rating need the listing to exist, nothing more.
pub open spec fn listed(m: MarketModel, id: u64) -> bool {
    m.listings.dom().contains(id)
}

pub open spec fn category_applied(m: MarketModel, id: u64, category: Seq<char>) -> MarketModel {
    MarketModel {
        listings: m.listings.insert(id, ListingModel { category, ..m.listings[id] }),
        ..m
    }
}

pub open spec fn bio_applied(m: MarketModel, id: u64, bio: Seq<char>) -> MarketModel {
    MarketModel {
        listings: m.listings.insert(id, ListingModel { bio, ..m.listings[id] }),
        ..m
    }
}

pub open spec fn price_applied(m: MarketModel, id: u64, price: u64) -> MarketModel {
    MarketModel {
        listings: m.listings.insert(id, ListingModel { price, ..m.listings[id] }),
        ..m
    }
}

pub open spec fn status_applied(m: MarketModel, id: u64, status: Seq<char>) -> MarketModel {
    MarketModel {
        listings: m.listings.insert(id, ListingModel { product_status: status, ..m.listings[id] }),
        ..m
    }
}

pub open spec fn rating_applied(m: MarketModel, id: u64, rating: u8) -> MarketModel {
    MarketModel {
        listings: m.listings.insert(id, ListingModel { rating, ..m.listings[id] }),
        ..m
    }
}

} // verus!
