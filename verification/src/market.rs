//! The marketplace ledger and every operation a caller can invoke on it.
//!
//! A [`Marketplace`] owns the identifier counter, the listing store and the
//! archive store.  Each operation loads the addressed listing, checks its
//! guard, and either writes the transition back or reports an error with no
//! side effect.  The contracts are stated over the ghost model in
//! [`crate::model`].

use vstd::prelude::*;
use std::collections::BTreeMap;
use crate::errors::Error;
use crate::listing::{
    Farmer, FarmerPayload, MarkProductSoldPayload, ProductBidPayload, ProductRecord,
    WithdrawFromEscrowPayload,
};
use crate::model::{
    ListingModel, MarketModel, SaleModel, accept_allowed, accept_applied, add_escrow_allowed,
    add_escrow_applied, bid_allowed, bid_applied, bio_applied, category_applied, create_allowed,
    create_applied, dispute_allowed, dispute_applied, empty_market, fresh_listing, listed,
    market_inv, price_applied, rating_applied, release_allowed, release_applied, resolve_allowed,
    resolve_applied, sold_allowed, sold_applied, status_applied, withdraw_allowed,
    withdraw_applied,
};

verus! {

broadcast use
    vstd::std_specs::btree::group_btree_axioms,
    vstd::laws_cmp::group_laws_cmp,
    vstd::string::group_string_axioms;

/// The listing store, as a mathematical map of listing models.
pub open spec fn listings_view(l: Map<u64, Farmer>) -> Map<u64, ListingModel> {
    l.map_values(|f: Farmer| f@)
}

/// The archive store, as a mathematical map of settled-sale models.
pub open spec fn archive_view(a: Map<u64, ProductRecord>) -> Map<u64, SaleModel> {
    a.map_values(|p: ProductRecord| p@)
}

pub broadcast proof fn lemma_listings_view_props(l: Map<u64, Farmer>)
    ensures
        (#[trigger] listings_view(l)).dom() == l.dom(),
        forall|id: u64| #[trigger] l.dom().contains(id) ==> listings_view(l)[id] == l[id]@,
{
    assert(listings_view(l).dom() =~= l.dom());
}

pub broadcast proof fn lemma_listings_view_insert(l: Map<u64, Farmer>, id: u64, f: Farmer)
    ensures
        #[trigger] listings_view(l.insert(id, f)) == listings_view(l).insert(id, f@),
{
    assert(listings_view(l.insert(id, f)) =~= listings_view(l).insert(id, f@));
}

pub broadcast proof fn lemma_listings_view_remove(l: Map<u64, Farmer>, id: u64)
    ensures
        #[trigger] listings_view(l.remove(id)) == listings_view(l).remove(id),
{
    assert(listings_view(l.remove(id)) =~= listings_view(l).remove(id));
}

pub broadcast proof fn lemma_archive_view_props(a: Map<u64, ProductRecord>)
    ensures
        (#[trigger] archive_view(a)).dom() == a.dom(),
        forall|id: u64| #[trigger] a.dom().contains(id) ==> archive_view(a)[id] == a[id]@,
{
    assert(archive_view(a).dom() =~= a.dom());
}

pub broadcast proof fn lemma_archive_view_insert(a: Map<u64, ProductRecord>, id: u64, p: ProductRecord)
    ensures
        #[trigger] archive_view(a.insert(id, p)) == archive_view(a).insert(id, p@),
{
    assert(archive_view(a.insert(id, p)) =~= archive_view(a).insert(id, p@));
}

/// The whole ledger: the id allocator and the two keyed stores.
///
/// The durable regions of the hosting environment are the collaborator that
/// persists these maps; the ledger itself is the system of record for every
/// state transition.
#[derive(Debug)]
pub struct Marketplace {
    pub counter: u64,
    pub listings: BTreeMap<u64, Farmer>,
    pub archive: BTreeMap<u64, ProductRecord>,
}

impl View for Marketplace {
    type V = MarketModel;

    open spec fn view(&self) -> MarketModel {
        MarketModel {
            counter: self.counter,
            listings: listings_view(self.listings@),
            archive: archive_view(self.archive@),
        }
    }
}

impl Marketplace {
    /// Well-formedness carried by every operation.
    pub open spec fn wf(&self) -> bool {
        market_inv(self@)
    }

    /// A ledger with no listings, no archived sales, and the counter at its
    /// starting point: the first allocated id will be 1.
    pub fn new() -> (m: Marketplace)
        ensures
            m@ == empty_market(),
            m.wf(),
    {
        let m = Marketplace {
            counter: 0,
            listings: BTreeMap::new(),
            archive: BTreeMap::new(),
        };
        proof {
            broadcast use lemma_listings_view_props, lemma_archive_view_props;

            assert(m@.listings =~= empty_market().listings);
            assert(m@.archive =~= empty_market().archive);
        }
        m
    }

    /// Allocates the next listing id: strictly greater than every id issued
    /// before.  Refuses, rather than wraps, once the counter is exhausted.
    pub fn increment_id(&mut self) -> (r: Result<u64, Error>)
        requires
            old(self).wf(),
        ensures
            final(self).wf(),
            r is Ok <==> create_allowed(old(self)@),
            r matches Ok(id) ==> id == old(self)@.counter + 1 && final(self)@ == (MarketModel {
                counter: id,
                ..old(self)@
            }),
            r is Err ==> r == Err::<u64, Error>(Error::Overflow) && final(self)@ == old(self)@,
    {
        if self.counter == u64::MAX {
            Err(Error::Overflow)
        } else {
            self.counter = self.counter + 1;
            Ok(self.counter)
        }
    }

    /// Creates a listing from the payload under a freshly allocated id and
    /// returns the stored record.
    pub fn add_product(&mut self, payload: FarmerPayload) -> (r: Result<Farmer, Error>)
        requires
            old(self).wf(),
        ensures
            final(self).wf(),
            r is Ok <==> create_allowed(old(self)@),
            r matches Ok(f) ==> f@ == fresh_listing(((old(self)@.counter + 1) as u64), payload@)
                && final(self)@ == create_applied(old(self)@, payload@),
            r is Err ==> r == Err::<Farmer, Error>(Error::Overflow) && final(self)@ == old(self)@,
    {
        let id = match self.increment_id() {
            Ok(id) => id,
            Err(e) => {
                return Err(e);
            },
        };
        let farmer = Farmer {
            id,
            address: payload.address,
            name: payload.name,
            bio: payload.bio,
            category: payload.category,
            price: payload.price,
            escrow_balance: 0,
            dispute_status: false,
            rating: 0,
            product_status: payload.product_status,
            consumer_address: None,
            is_sold: false,
        };
        let stored = farmer.duplicate();
        self.listings.insert(id, stored);
        proof {
            broadcast use lemma_listings_view_insert;

            assert(final(self)@ =~= create_applied(old(self)@, payload@));
        }
        Ok(farmer)
    }

    /// Reads the free-form description (`bio`) of a listing.
    pub fn get_product_description(&self, farmer_id: u64) -> (r: Result<String, Error>)
        ensures
            listed(self@, farmer_id) ==> (r matches Ok(bio) && bio@ == self@.listings[farmer_id].bio),
            !listed(self@, farmer_id) ==> r == Err::<String, Error>(Error::NotFound { id: farmer_id }),
    {
        proof {
            broadcast use lemma_listings_view_props;

        }
        match self.listings.get(&farmer_id) {
            Some(farmer) => Ok(farmer.bio.clone()),
            None => Err(Error::NotFound { id: farmer_id }),
        }
    }

    /// Reads the asking price of a listing.
    pub fn get_product_price(&self, farmer_id: u64) -> (r: Result<u64, Error>)
        ensures
            listed(self@, farmer_id) ==> r == Ok::<u64, Error>(self@.listings[farmer_id].price),
            !listed(self@, farmer_id) ==> r == Err::<u64, Error>(Error::NotFound { id: farmer_id }),
    {
        proof {
            broadcast use lemma_listings_view_props;

        }
        match self.listings.get(&farmer_id) {
            Some(farmer) => Ok(farmer.price),
            None => Err(Error::NotFound { id: farmer_id }),
        }
    }

    /// Reads the free-text status label of a listing.
    pub fn get_product_status(&self, farmer_id: u64) -> (r: Result<String, Error>)
        ensures
            listed(self@, farmer_id) ==> (r matches Ok(s) && s@ == self@.listings[farmer_id].product_status),
            !listed(self@, farmer_id) ==> r == Err::<String, Error>(Error::NotFound { id: farmer_id }),
    {
        proof {
            broadcast use lemma_listings_view_props;

        }
        match self.listings.get(&farmer_id) {
            Some(farmer) => Ok(farmer.product_status.clone()),
            None => Err(Error::NotFound { id: farmer_id }),
        }
    }

    /// Records a consumer's bid on a listing: the consumer address is set
    /// exactly once, and a second bid is refused while one is pending.
    pub fn product_bid(&mut self, payload: ProductBidPayload) -> (r: Result<(), Error>)
        requires
            old(self).wf(),
        ensures
            final(self).wf(),
            r is Ok <==> bid_allowed(old(self)@, payload.farmer_id),
            r is Ok ==> final(self)@ == bid_applied(
                old(self)@,
                payload.farmer_id,
                payload.consumer_address@,
            ),
            r is Err ==> final(self)@ == old(self)@,
            !listed(old(self)@, payload.farmer_id) ==> r == Err::<(), Error>(Error::NotFound {
                id: payload.farmer_id,
            }),
            listed(old(self)@, payload.farmer_id) && old(self)@.listings[
                payload.farmer_id
            ].consumer_address is Some ==> r == Err::<(), Error>(Error::AlreadyBidOn),
    {
        proof {
            broadcast use lemma_listings_view_props, lemma_listings_view_insert, lemma_listings_view_remove;

        }
        match self.listings.remove(&payload.farmer_id) {
            None => {
                proof {
                    assert(final(self).listings@ =~= old(self).listings@);
                    assert(final(self)@ =~= old(self)@);
                }
                Err(Error::NotFound { id: payload.farmer_id })
            },
            Some(mut farmer) => {
                if farmer.consumer_address.is_none() {
                    farmer.consumer_address = Some(payload.consumer_address);
                    farmer.product_status = "Bid Placed".to_string();
                    self.listings.insert(payload.farmer_id, farmer);
                    proof {
                        assert(final(self)@.listings =~= bid_applied(
                            old(self)@,
                            payload.farmer_id,
                            payload.consumer_address@,
                        ).listings);
                        assert(final(self)@ =~= bid_applied(
                            old(self)@,
                            payload.farmer_id,
                            payload.consumer_address@,
                        ));
                    }
                    Ok(())
                } else {
                    self.listings.insert(payload.farmer_id, farmer);
                    proof {
                        assert(final(self)@.listings =~= old(self)@.listings);
                        assert(final(self)@ =~= old(self)@);
                    }
                    Err(Error::AlreadyBidOn)
                }
            },
        }
    }

    /// Accepts the pending bid on a listing.
    pub fn accept_bid(&mut self, farmer_id: u64) -> (r: Result<(), Error>)
        requires
            old(self).wf(),
        ensures
            final(self).wf(),
            r is Ok <==> accept_allowed(old(self)@, farmer_id),
            r is Ok ==> final(self)@ == accept_applied(old(self)@, farmer_id),
            r is Err ==> final(self)@ == old(self)@,
            !listed(old(self)@, farmer_id) ==> r == Err::<(), Error>(Error::NotFound {
                id: farmer_id,
            }),
            listed(old(self)@, farmer_id) && old(self)@.listings[farmer_id].consumer_address is None
                ==> r == Err::<(), Error>(Error::NoBidToAccept),
    {
        proof {
            broadcast use lemma_listings_view_props, lemma_listings_view_insert, lemma_listings_view_remove;

        }
        match self.listings.remove(&farmer_id) {
            None => {
                proof {
                    assert(final(self).listings@ =~= old(self).listings@);
                    assert(final(self)@ =~= old(self)@);
                }
                Err(Error::NotFound { id: farmer_id })
            },
            Some(mut farmer) => {
                if farmer.consumer_address.is_some() {
                    farmer.product_status = "Bid Accepted".to_string();
                    self.listings.insert(farmer_id, farmer);
                    proof {
                        assert(final(self)@.listings =~= accept_applied(old(self)@, farmer_id).listings);
                        assert(final(self)@ =~= accept_applied(old(self)@, farmer_id));
                    }
                    Ok(())
                } else {
                    self.listings.insert(farmer_id, farmer);
                    proof {
                        assert(final(self)@.listings =~= old(self)@.listings);
                        assert(final(self)@ =~= old(self)@);
                    }
                    Err(Error::NoBidToAccept)
                }
            },
        }
    }

    /// Marks the sale complete towards the accepted consumer.
    pub fn mark_product_sold(&mut self, payload: MarkProductSoldPayload) -> (r: Result<(), Error>)
        requires
            old(self).wf(),
        ensures
            final(self).wf(),
            r is Ok <==> sold_allowed(old(self)@, payload.farmer_id),
            r is Ok ==> final(self)@ == sold_applied(old(self)@, payload.farmer_id),
            r is Err ==> final(self)@ == old(self)@,
            !listed(old(self)@, payload.farmer_id) ==> r == Err::<(), Error>(Error::NotFound {
                id: payload.farmer_id,
            }),
            listed(old(self)@, payload.farmer_id) && old(self)@.listings[
                payload.farmer_id
            ].consumer_address is None ==> r == Err::<(), Error>(Error::NoConsumerToSellTo),
    {
        proof {
            broadcast use lemma_listings_view_props, lemma_listings_view_insert, lemma_listings_view_remove;

        }
        match self.listings.remove(&payload.farmer_id) {
            None => {
                proof {
                    assert(final(self).listings@ =~= old(self).listings@);
                    assert(final(self)@ =~= old(self)@);
                }
                Err(Error::NotFound { id: payload.farmer_id })
            },
            Some(mut farmer) => {
                if farmer.consumer_address.is_some() {
                    farmer.is_sold = true;
                    farmer.product_status = "Product Sold".to_string();
                    self.listings.insert(payload.farmer_id, farmer);
                    proof {
                        assert(final(self)@.listings =~= sold_applied(
                            old(self)@,
                            payload.farmer_id,
                        ).listings);
                        assert(final(self)@ =~= sold_applied(old(self)@, payload.farmer_id));
                    }
                    Ok(())
                } else {
                    self.listings.insert(payload.farmer_id, farmer);
                    proof {
                        assert(final(self)@.listings =~= old(self)@.listings);
                        assert(final(self)@ =~= old(self)@);
                    }
                    Err(Error::NoConsumerToSellTo)
                }
            },
        }
    }

    /// Raises a dispute on a listing; there is no guard beyond the listing
    /// existing, so even a fresh, unbid listing can be disputed.
    pub fn dispute_product(&mut self, farmer_id: u64) -> (r: Result<(), Error>)
        requires
            old(self).wf(),
        ensures
            final(self).wf(),
            r is Ok <==> dispute_allowed(old(self)@, farmer_id),
            r is Ok ==> final(self)@ == dispute_applied(old(self)@, farmer_id),
            r is Err ==> final(self)@ == old(self)@ && r == Err::<(), Error>(Error::NotFound {
                id: farmer_id,
            }),
    {
        proof {
            broadcast use lemma_listings_view_props, lemma_listings_view_insert, lemma_listings_view_remove;

        }
        match self.listings.remove(&farmer_id) {
            None => {
                proof {
                    assert(final(self).listings@ =~= old(self).listings@);
                    assert(final(self)@ =~= old(self)@);
                }
                Err(Error::NotFound { id: farmer_id })
            },
            Some(mut farmer) => {
                farmer.dispute_status = true;
                farmer.product_status = "Dispute Raised".to_string();
                self.listings.insert(farmer_id, farmer);
                proof {
                    assert(final(self)@.listings =~= dispute_applied(
                        old(self)@,
                        farmer_id,
                    ).listings);
                    assert(final(self)@ =~= dispute_applied(old(self)@, farmer_id));
                }
                Ok(())
            },
        }
    }

    /// Resolves an active dispute in favor of the farmer (`resolution` true)
    /// or the consumer (`resolution` false).
    pub fn resolve_dispute(&mut self, farmer_id: u64, resolution: bool) -> (r: Result<(), Error>)
        requires
            old(self).wf(),
        ensures
            final(self).wf(),
            r is Ok <==> resolve_allowed(old(self)@, farmer_id),
            r is Ok ==> final(self)@ == resolve_applied(old(self)@, farmer_id, resolution),
            r is Err ==> final(self)@ == old(self)@,
            !listed(old(self)@, farmer_id) ==> r == Err::<(), Error>(Error::NotFound {
                id: farmer_id,
            }),
            listed(old(self)@, farmer_id) && !old(self)@.listings[farmer_id].dispute_status
                ==> r == Err::<(), Error>(Error::InvalidDisputeResolution),
    {
        proof {
            broadcast use lemma_listings_view_props, lemma_listings_view_insert, lemma_listings_view_remove;

        }
        match self.listings.remove(&farmer_id) {
            None => {
                proof {
                    assert(final(self).listings@ =~= old(self).listings@);
                    assert(final(self)@ =~= old(self)@);
                }
                Err(Error::NotFound { id: farmer_id })
            },
            Some(mut farmer) => {
                if !farmer.dispute_status {
                    self.listings.insert(farmer_id, farmer);
                    proof {
                        assert(final(self)@.listings =~= old(self)@.listings);
                        assert(final(self)@ =~= old(self)@);
                    }
                    return Err(Error::InvalidDisputeResolution);
                }
                farmer.dispute_status = false;
                farmer.product_status = if resolution {
                    "Dispute Resolved - Funds to Farmer".to_string()
                } else {
                    "Dispute Resolved - Funds to Consumer".to_string()
                };
                self.listings.insert(farmer_id, farmer);
                proof {
                    assert(final(self)@.listings =~= resolve_applied(
                        old(self)@,
                        farmer_id,
                        resolution,
                    ).listings);
                    assert(final(self)@ =~= resolve_applied(old(self)@, farmer_id, resolution));
                }
                Ok(())
            },
        }
    }

    /// Releases the settled funds of a sold, undisputed listing: empties the
    /// escrow balance and archives a settled-sale record under the listing's
    /// id.  A listing is settled at most once: a second release is refused.
    pub fn release_payment(&mut self, farmer_id: u64) -> (r: Result<(), Error>)
        requires
            old(self).wf(),
        ensures
            final(self).wf(),
            r is Ok <==> release_allowed(old(self)@, farmer_id),
            r is Ok ==> final(self)@ == release_applied(old(self)@, farmer_id),
            r is Err ==> final(self)@ == old(self)@,
            !listed(old(self)@, farmer_id) ==> r == Err::<(), Error>(Error::NotFound {
                id: farmer_id,
            }),
            listed(old(self)@, farmer_id) && !release_allowed(old(self)@, farmer_id) ==> r
                == Err::<(), Error>(Error::InvalidDisputeResolution),
    {
        proof {
            broadcast use lemma_listings_view_props, lemma_listings_view_insert, lemma_listings_view_remove, lemma_archive_view_props, lemma_archive_view_insert;

        }
        match self.listings.remove(&farmer_id) {
            None => {
                proof {
                    assert(final(self).listings@ =~= old(self).listings@);
                    assert(final(self)@ =~= old(self)@);
                }
                Err(Error::NotFound { id: farmer_id })
            },
            Some(mut farmer) => {
                if farmer.is_sold && !farmer.dispute_status && !self.archive.contains_key(
                    &farmer_id,
                ) {
                    farmer.escrow_balance = 0;
                    let record = ProductRecord {
                        id: farmer.id,
                        farmer_address: farmer.address.clone(),
                    };
                    self.archive.insert(farmer_id, record);
                    self.listings.insert(farmer_id, farmer);
                    proof {
                        assert(final(self)@.listings =~= release_applied(
                            old(self)@,
                            farmer_id,
                        ).listings);
                        assert(final(self)@.archive =~= release_applied(
                            old(self)@,
                            farmer_id,
                        ).archive);
                        assert(final(self)@ =~= release_applied(old(self)@, farmer_id));
                    }
                    Ok(())
                } else {
                    self.listings.insert(farmer_id, farmer);
                    proof {
                        assert(final(self)@.listings =~= old(self)@.listings);
                        assert(final(self)@ =~= old(self)@);
                    }
                    Err(Error::InvalidDisputeResolution)
                }
            },
        }
    }

    /// Deposits funds into a listing's escrow balance, refusing an addition
    /// the balance cannot hold rather than wrapping it.
    pub fn add_to_escrow(&mut self, farmer_id: u64, amount: u64) -> (r: Result<(), Error>)
        requires
            old(self).wf(),
        ensures
            final(self).wf(),
            r is Ok <==> add_escrow_allowed(old(self)@, farmer_id, amount),
            r is Ok ==> final(self)@ == add_escrow_applied(old(self)@, farmer_id, amount),
            r is Err ==> final(self)@ == old(self)@,
            !listed(old(self)@, farmer_id) ==> r == Err::<(), Error>(Error::NotFound {
                id: farmer_id,
            }),
            listed(old(self)@, farmer_id) && old(self)@.listings[farmer_id].escrow_balance + amount
                > u64::MAX ==> r == Err::<(), Error>(Error::Overflow),
    {
        proof {
            broadcast use lemma_listings_view_props, lemma_listings_view_insert, lemma_listings_view_remove;

        }
        match self.listings.remove(&farmer_id) {
            None => {
                proof {
                    assert(final(self).listings@ =~= old(self).listings@);
                    assert(final(self)@ =~= old(self)@);
                }
                Err(Error::NotFound { id: farmer_id })
            },
            Some(mut farmer) => {
                if amount <= u64::MAX - farmer.escrow_balance {
                    farmer.escrow_balance = farmer.escrow_balance + amount;
                    self.listings.insert(farmer_id, farmer);
                    proof {
                        assert(final(self)@.listings =~= add_escrow_applied(
                            old(self)@,
                            farmer_id,
                            amount,
                        ).listings);
                        assert(final(self)@ =~= add_escrow_applied(
                            old(self)@,
                            farmer_id,
                            amount,
                        ));
                    }
                    Ok(())
                } else {
                    self.listings.insert(farmer_id, farmer);
                    proof {
                        assert(final(self)@.listings =~= old(self)@.listings);
                        assert(final(self)@ =~= old(self)@);
                    }
                    Err(Error::Overflow)
                }
            },
        }
    }

    /// Withdraws funds from a listing's escrow balance; a withdrawal is
    /// bounded by the current balance, so the balance can never go negative.
    pub fn withdraw_from_escrow(&mut self, payload: WithdrawFromEscrowPayload) -> (r: Result<
        (),
        Error,
    >)
        requires
            old(self).wf(),
        ensures
            final(self).wf(),
            r is Ok <==> withdraw_allowed(old(self)@, payload.farmer_id, payload.amount),
            r is Ok ==> final(self)@ == withdraw_applied(
                old(self)@,
                payload.farmer_id,
                payload.amount,
            ),
            r is Err ==> final(self)@ == old(self)@,
            !listed(old(self)@, payload.farmer_id) ==> r == Err::<(), Error>(Error::NotFound {
                id: payload.farmer_id,
            }),
            listed(old(self)@, payload.farmer_id) && payload.amount > old(self)@.listings[
                payload.farmer_id
            ].escrow_balance ==> r == Err::<(), Error>(Error::InsufficientFundsInEscrow),
    {
        proof {
            broadcast use lemma_listings_view_props, lemma_listings_view_insert, lemma_listings_view_remove;

        }
        match self.listings.remove(&payload.farmer_id) {
            None => {
                proof {
                    assert(final(self).listings@ =~= old(self).listings@);
                    assert(final(self)@ =~= old(self)@);
                }
                Err(Error::NotFound { id: payload.farmer_id })
            },
            Some(mut farmer) => {
                if farmer.escrow_balance >= payload.amount {
                    farmer.escrow_balance = farmer.escrow_balance - payload.amount;
                    self.listings.insert(payload.farmer_id, farmer);
                    proof {
                        assert(final(self)@.listings =~= withdraw_applied(
                            old(self)@,
                            payload.farmer_id,
                            payload.amount,
                        ).listings);
                        assert(final(self)@ =~= withdraw_applied(
                            old(self)@,
                            payload.farmer_id,
                            payload.amount,
                        ));
                    }
                    Ok(())
                } else {
                    self.listings.insert(payload.farmer_id, farmer);
                    proof {
                        assert(final(self)@.listings =~= old(self)@.listings);
                        assert(final(self)@ =~= old(self)@);
                    }
                    Err(Error::InsufficientFundsInEscrow)
                }
            },
        }
    }

    /// Overwrites the category of a listing.
    pub fn update_product_category(&mut self, farmer_id: u64, category: String) -> (r: Result<
        (),
        Error,
    >)
        requires
            old(self).wf(),
        ensures
            final(self).wf(),
            r is Ok <==> listed(old(self)@, farmer_id),
            r is Ok ==> final(self)@ == category_applied(old(self)@, farmer_id, category@),
            r is Err ==> final(self)@ == old(self)@ && r == Err::<(), Error>(Error::NotFound {
                id: farmer_id,
            }),
    {
        proof {
            broadcast use lemma_listings_view_props, lemma_listings_view_insert, lemma_listings_view_remove;

        }
        match self.listings.remove(&farmer_id) {
            None => {
                proof {
                    assert(final(self).listings@ =~= old(self).listings@);
                    assert(final(self)@ =~= old(self)@);
                }
                Err(Error::NotFound { id: farmer_id })
            },
            Some(mut farmer) => {
                farmer.category = category;
                self.listings.insert(farmer_id, farmer);
                proof {
                    assert(final(self)@.listings =~= category_applied(
                        old(self)@,
                        farmer_id,
                        category@,
                    ).listings);
                    assert(final(self)@ =~= category_applied(old(self)@, farmer_id, category@));
                }
                Ok(())
            },
        }
    }

    /// Overwrites the free-form description (`bio`) of a listing.
    pub fn update_product_description(&mut self, farmer_id: u64, bio: String) -> (r: Result<
        (),
        Error,
    >)
        requires
            old(self).wf(),
        ensures
            final(self).wf(),
            r is Ok <==> listed(old(self)@, farmer_id),
            r is Ok ==> final(self)@ == bio_applied(old(self)@, farmer_id, bio@),
            r is Err ==> final(self)@ == old(self)@ && r == Err::<(), Error>(Error::NotFound {
                id: farmer_id,
            }),
    {
        proof {
            broadcast use lemma_listings_view_props, lemma_listings_view_insert, lemma_listings_view_remove;

        }
        match self.listings.remove(&farmer_id) {
            None => {
                proof {
                    assert(final(self).listings@ =~= old(self).listings@);
                    assert(final(self)@ =~= old(self)@);
                }
                Err(Error::NotFound { id: farmer_id })
            },
            Some(mut farmer) => {
                farmer.bio = bio;
                self.listings.insert(farmer_id, farmer);
                proof {
                    assert(final(self)@.listings =~= bio_applied(
                        old(self)@,
                        farmer_id,
                        bio@,
                    ).listings);
                    assert(final(self)@ =~= bio_applied(old(self)@, farmer_id, bio@));
                }
                Ok(())
            },
        }
    }

    /// Overwrites the asking price of a listing.
    pub fn update_product_price(&mut self, farmer_id: u64, price: u64) -> (r: Result<(), Error>)
        requires
            old(self).wf(),
        ensures
            final(self).wf(),
            r is Ok <==> listed(old(self)@, farmer_id),
            r is Ok ==> final(self)@ == price_applied(old(self)@, farmer_id, price),
            r is Err ==> final(self)@ == old(self)@ && r == Err::<(), Error>(Error::NotFound {
                id: farmer_id,
            }),
    {
        proof {
            broadcast use lemma_listings_view_props, lemma_listings_view_insert, lemma_listings_view_remove;

        }
        match self.listings.remove(&farmer_id) {
            None => {
                proof {
                    assert(final(self).listings@ =~= old(self).listings@);
                    assert(final(self)@ =~= old(self)@);
                }
                Err(Error::NotFound { id: farmer_id })
            },
            Some(mut farmer) => {
                farmer.price = price;
                self.listings.insert(farmer_id, farmer);
                proof {
                    assert(final(self)@.listings =~= price_applied(
                        old(self)@,
                        farmer_id,
                        price,
                    ).listings);
                    assert(final(self)@ =~= price_applied(old(self)@, farmer_id, price));
                }
                Ok(())
            },
        }
    }

    /// Overwrites the free-text status label of a listing.
    pub fn update_product_status(&mut self, farmer_id: u64, status: String) -> (r: Result<
        (),
        Error,
    >)
        requires
            old(self).wf(),
        ensures
            final(self).wf(),
            r is Ok <==> listed(old(self)@, farmer_id),
            r is Ok ==> final(self)@ == status_applied(old(self)@, farmer_id, status@),
            r is Err ==> final(self)@ == old(self)@ && r == Err::<(), Error>(Error::NotFound {
                id: farmer_id,
            }),
    {
        proof {
            broadcast use lemma_listings_view_props, lemma_listings_view_insert, lemma_listings_view_remove;

        }
        match self.listings.remove(&farmer_id) {
            None => {
                proof {
                    assert(final(self).listings@ =~= old(self).listings@);
                    assert(final(self)@ =~= old(self)@);
                }
                Err(Error::NotFound { id: farmer_id })
            },
            Some(mut farmer) => {
                farmer.product_status = status;
                self.listings.insert(farmer_id, farmer);
                proof {
                    assert(final(self)@.listings =~= status_applied(
                        old(self)@,
                        farmer_id,
                        status@,
                    ).listings);
                    assert(final(self)@ =~= status_applied(old(self)@, farmer_id, status@));
                }
                Ok(())
            },
        }
    }

    /// Overwrites the farmer's rating; any value of the rating's width is
    /// accepted, the transition logic does not constrain it.
    pub fn rate_farmer(&mut self, farmer_id: u64, rating: u8) -> (r: Result<(), Error>)
        requires
            old(self).wf(),
        ensures
            final(self).wf(),
            r is Ok <==> listed(old(self)@, farmer_id),
            r is Ok ==> final(self)@ == rating_applied(old(self)@, farmer_id, rating),
            r is Err ==> final(self)@ == old(self)@ && r == Err::<(), Error>(Error::NotFound {
                id: farmer_id,
            }),
    {
        proof {
            broadcast use lemma_listings_view_props, lemma_listings_view_insert, lemma_listings_view_remove;

        }
        match self.listings.remove(&farmer_id) {
            None => {
                proof {
                    assert(final(self).listings@ =~= old(self).listings@);
                    assert(final(self)@ =~= old(self)@);
                }
                Err(Error::NotFound { id: farmer_id })
            },
            Some(mut farmer) => {
                farmer.rating = rating;
                self.listings.insert(farmer_id, farmer);
                proof {
                    assert(final(self)@.listings =~= rating_applied(
                        old(self)@,
                        farmer_id,
                        rating,
                    ).listings);
                    assert(final(self)@ =~= rating_applied(old(self)@, farmer_id, rating));
                }
                Ok(())
            },
        }
    }

    /// A snapshot of one stored listing, or `None` when the id is unknown.
    pub fn get_listing(&self, farmer_id: u64) -> (r: Option<Farmer>)
        ensures
            listed(self@, farmer_id) ==> (r matches Some(f) && f@ == self@.listings[farmer_id]),
            !listed(self@, farmer_id) ==> r is None,
    {
        proof {
            broadcast use lemma_listings_view_props;

        }
        match self.listings.get(&farmer_id) {
            Some(farmer) => Some(farmer.duplicate()),
            None => None,
        }
    }

    /// A snapshot of one archived settled sale, or `None` when no sale has
    /// been settled under the id.
    pub fn get_settled_sale(&self, farmer_id: u64) -> (r: Option<ProductRecord>)
        ensures
            self@.archive.dom().contains(farmer_id) ==> (r matches Some(p) && p@ == self@.archive[
                farmer_id
            ]),
            !self@.archive.dom().contains(farmer_id) ==> r is None,
    {
        proof {
            broadcast use lemma_archive_view_props;

        }
        match self.archive.get(&farmer_id) {
            Some(record) => Some(record.duplicate()),
            None => None,
        }
    }
}

} // verus!
