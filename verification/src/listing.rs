//! The executable records the ledger stores, and the payloads callers hand in.

use vstd::prelude::*;
use crate::model::{ListingModel, PayloadModel, SaleModel};

verus! {

/// One farmer's product offering together with its escrow and dispute state.
#[derive(Debug)]
pub struct Farmer {
    pub id: u64,
    pub address: String,
    pub name: String,
    pub bio: String,
    pub category: String,
    pub price: u64,
    pub escrow_balance: u64,
    pub dispute_status: bool,
    pub rating: u8,
    pub product_status: String,
    pub consumer_address: Option<String>,
    pub is_sold: bool,
}

impl View for Farmer {
    type V = ListingModel;

    open spec fn view(&self) -> ListingModel {
        ListingModel {
            id: self.id,
            address: self.address@,
            name: self.name@,
            bio: self.bio@,
            category: self.category@,
            price: self.price,
            escrow_balance: self.escrow_balance,
            dispute_status: self.dispute_status,
            rating: self.rating,
            product_status: self.product_status@,
            consumer_address: match self.consumer_address {
                Some(c) => Some(c@),
                None => None,
            },
            is_sold: self.is_sold,
        }
    }
}

impl Farmer {
    /// A field-by-field copy whose value is provably the original's; used
    /// where a record must both be stored and handed back to the caller.
    pub fn duplicate(&self) -> (r: Farmer)
        ensures
            r == *self,
    {
        Farmer {
            id: self.id,
            address: self.address.clone(),
            name: self.name.clone(),
            bio: self.bio.clone(),
            category: self.category.clone(),
            price: self.price,
            escrow_balance: self.escrow_balance,
            dispute_status: self.dispute_status,
            rating: self.rating,
            product_status: self.product_status.clone(),
            consumer_address: match &self.consumer_address {
                Some(c) => Some(c.clone()),
                None => None,
            },
            is_sold: self.is_sold,
        }
    }
}

/// The archive record of one settled sale: the listing's id and the seller's
/// address as it stood when the payment was released.
#[derive(Debug)]
pub struct ProductRecord {
    pub id: u64,
    pub farmer_address: String,
}

impl ProductRecord {
    /// A field-by-field copy whose value is provably the original's.
    pub fn duplicate(&self) -> (r: ProductRecord)
        ensures
            r == *self,
    {
        ProductRecord { id: self.id, farmer_address: self.farmer_address.clone() }
    }
}

impl View for ProductRecord {
    type V = SaleModel;

    open spec fn view(&self) -> SaleModel {
        SaleModel { id: self.id, farmer_address: self.farmer_address@ }
    }
}

/// What a farmer supplies to create a listing.
#[derive(Debug)]
pub struct FarmerPayload {
    pub address: String,
    pub name: String,
    pub bio: String,
    pub category: String,
    pub price: u64,
    pub product_status: String,
}

impl View for FarmerPayload {
    type V = PayloadModel;

    open spec fn view(&self) -> PayloadModel {
        PayloadModel {
            address: self.address@,
            name: self.name@,
            bio: self.bio@,
            category: self.category@,
            price: self.price,
            product_status: self.product_status@,
        }
    }
}

/// A consumer's bid on a listing.
#[derive(Debug)]
pub struct ProductBidPayload {
    pub farmer_id: u64,
    pub consumer_address: String,
}

/// A request to mark a listing sold.
#[derive(Debug)]
pub struct MarkProductSoldPayload {
    pub farmer_id: u64,
    pub consumer_address: String,
}

/// A request to take funds out of a listing's escrow balance.
#[derive(Debug)]
pub struct WithdrawFromEscrowPayload {
    pub farmer_id: u64,
    pub amount: u64,
}

} // verus!
