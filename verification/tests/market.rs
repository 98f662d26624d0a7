use farm_market::errors::Error;
use farm_market::listing::{FarmerPayload, MarkProductSoldPayload, ProductBidPayload};
use farm_market::market::Marketplace;

fn payload(price: u64) -> FarmerPayload {
    FarmerPayload {
        address: "farmer-street-1".to_string(),
        name: "Ada".to_string(),
        bio: "fresh apples".to_string(),
        category: "fruit".to_string(),
        price,
        product_status: "Listed".to_string(),
    }
}

fn bid(farmer_id: u64, consumer: &str) -> ProductBidPayload {
    ProductBidPayload { farmer_id, consumer_address: consumer.to_string() }
}

#[test]
fn ids_are_strictly_increasing_from_one() {
    let mut m = Marketplace::new();
    assert_eq!(m.increment_id(), Ok(1));
    assert_eq!(m.increment_id(), Ok(2));
    assert_eq!(m.increment_id(), Ok(3));
}

#[test]
fn creation_returns_record_and_getters_see_created_values() {
    let mut m = Marketplace::new();
    let f = m.add_product(payload(100)).unwrap();
    assert_eq!(f.id, 1);
    assert_eq!(f.price, 100);
    assert_eq!(f.escrow_balance, 0);
    assert!(!f.dispute_status);
    assert!(!f.is_sold);
    assert_eq!(f.rating, 0);
    assert!(f.consumer_address.is_none());

    assert_eq!(m.get_product_price(1), Ok(100));
    assert_eq!(m.get_product_description(1), Ok("fresh apples".to_string()));
    assert_eq!(m.get_product_status(1), Ok("Listed".to_string()));
}

#[test]
fn created_values_stay_until_explicitly_updated() {
    let mut m = Marketplace::new();
    m.add_product(payload(100)).unwrap();
    m.add_product(payload(250)).unwrap();

    // Work on listing 2 does not disturb listing 1.
    m.product_bid(bid(2, "alice")).unwrap();
    m.add_to_escrow(2, 40).unwrap();
    assert_eq!(m.get_product_price(1), Ok(100));
    assert_eq!(m.get_product_description(1), Ok("fresh apples".to_string()));
    assert_eq!(m.get_product_status(1), Ok("Listed".to_string()));

    // An explicit update is what changes the read values.
    m.update_product_price(1, 120).unwrap();
    m.update_product_description(1, "late apples".to_string()).unwrap();
    m.update_product_status(1, "On Hold".to_string()).unwrap();
    m.update_product_category(1, "orchard fruit".to_string()).unwrap();
    assert_eq!(m.get_product_price(1), Ok(120));
    assert_eq!(m.get_product_description(1), Ok("late apples".to_string()));
    assert_eq!(m.get_product_status(1), Ok("On Hold".to_string()));
    let l = m.get_listing(1).unwrap();
    assert_eq!(l.category, "orchard fruit".to_string());
}

#[test]
fn second_bid_is_refused_and_first_address_kept() {
    let mut m = Marketplace::new();
    m.add_product(payload(100)).unwrap();
    m.product_bid(bid(1, "alice")).unwrap();
    assert_eq!(m.product_bid(bid(1, "bob")), Err(Error::AlreadyBidOn));
    assert_eq!(m.product_bid(bid(1, "alice")), Err(Error::AlreadyBidOn));
    let l = m.get_listing(1).unwrap();
    assert_eq!(l.consumer_address, Some("alice".to_string()));
    assert_eq!(l.product_status, "Bid Placed".to_string());
}

#[test]
fn accepting_without_bid_is_refused() {
    let mut m = Marketplace::new();
    m.add_product(payload(100)).unwrap();
    assert_eq!(m.accept_bid(1), Err(Error::NoBidToAccept));
    m.product_bid(bid(1, "alice")).unwrap();
    assert_eq!(m.accept_bid(1), Ok(()));
    assert_eq!(m.get_product_status(1), Ok("Bid Accepted".to_string()));
}

#[test]
fn selling_needs_a_consumer() {
    let mut m = Marketplace::new();
    m.add_product(payload(100)).unwrap();
    let sell = MarkProductSoldPayload { farmer_id: 1, consumer_address: "alice".to_string() };
    assert_eq!(m.mark_product_sold(sell), Err(Error::NoConsumerToSellTo));
    m.product_bid(bid(1, "alice")).unwrap();
    let sell = MarkProductSoldPayload { farmer_id: 1, consumer_address: "alice".to_string() };
    assert_eq!(m.mark_product_sold(sell), Ok(()));
    let l = m.get_listing(1).unwrap();
    assert!(l.is_sold);
    assert_eq!(l.product_status, "Product Sold".to_string());
}

#[test]
fn full_round_trip_settles_exactly_once() {
    let mut m = Marketplace::new();
    let f = m.add_product(payload(100)).unwrap();
    let id = f.id;

    // Before settlement completes, the status never reports a settled sale.
    assert_eq!(m.get_product_status(id), Ok("Listed".to_string()));
    assert!(m.get_settled_sale(id).is_none());

    m.product_bid(bid(id, "alice")).unwrap();
    assert_eq!(m.get_product_status(id), Ok("Bid Placed".to_string()));
    assert!(m.get_settled_sale(id).is_none());

    m.accept_bid(id).unwrap();
    assert_eq!(m.get_product_status(id), Ok("Bid Accepted".to_string()));
    assert!(m.get_settled_sale(id).is_none());

    let sell = MarkProductSoldPayload { farmer_id: id, consumer_address: "alice".to_string() };
    m.mark_product_sold(sell).unwrap();
    assert_eq!(m.get_product_status(id), Ok("Product Sold".to_string()));
    assert!(m.get_settled_sale(id).is_none());

    m.add_to_escrow(id, 100).unwrap();
    assert_eq!(m.release_payment(id), Ok(()));

    // Exactly one archive entry, carrying the original id and the seller's
    // address, and the escrow balance is emptied.
    let sale = m.get_settled_sale(id).unwrap();
    assert_eq!(sale.id, id);
    assert_eq!(sale.farmer_address, "farmer-street-1".to_string());
    assert!(m.get_settled_sale(2).is_none());
    let l = m.get_listing(id).unwrap();
    assert_eq!(l.escrow_balance, 0);

    // A listing settles at most once.
    assert_eq!(m.release_payment(id), Err(Error::InvalidDisputeResolution));
}

#[test]
fn release_needs_a_completed_undisputed_sale() {
    let mut m = Marketplace::new();
    m.add_product(payload(100)).unwrap();
    // Unsold: refused.
    assert_eq!(m.release_payment(1), Err(Error::InvalidDisputeResolution));
    m.product_bid(bid(1, "alice")).unwrap();
    let sell = MarkProductSoldPayload { farmer_id: 1, consumer_address: "alice".to_string() };
    m.mark_product_sold(sell).unwrap();
    // Sold but disputed: refused.
    m.dispute_product(1).unwrap();
    assert_eq!(m.release_payment(1), Err(Error::InvalidDisputeResolution));
    assert!(m.get_settled_sale(1).is_none());
    // Dispute resolved: release goes through.
    m.resolve_dispute(1, true).unwrap();
    assert_eq!(m.release_payment(1), Ok(()));
    assert!(m.get_settled_sale(1).is_some());
}

#[test]
fn dispute_can_be_raised_and_resolved_either_way() {
    let mut m = Marketplace::new();
    m.add_product(payload(100)).unwrap();
    m.dispute_product(1).unwrap();
    assert_eq!(m.get_product_status(1), Ok("Dispute Raised".to_string()));
    let l = m.get_listing(1).unwrap();
    assert!(l.dispute_status);
    m.resolve_dispute(1, true).unwrap();
    assert_eq!(
        m.get_product_status(1),
        Ok("Dispute Resolved - Funds to Farmer".to_string())
    );
    let l = m.get_listing(1).unwrap();
    assert!(!l.dispute_status);

    m.dispute_product(1).unwrap();
    m.resolve_dispute(1, false).unwrap();
    assert_eq!(
        m.get_product_status(1),
        Ok("Dispute Resolved - Funds to Consumer".to_string())
    );
}

#[test]
fn resolving_without_dispute_is_refused_and_changes_nothing() {
    let mut m = Marketplace::new();
    m.add_product(payload(100)).unwrap();
    assert_eq!(m.resolve_dispute(1, true), Err(Error::InvalidDisputeResolution));
    let l = m.get_listing(1).unwrap();
    assert!(!l.dispute_status);
    assert_eq!(l.product_status, "Listed".to_string());
}
