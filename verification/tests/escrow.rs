use farm_market::errors::Error;
use farm_market::listing::{FarmerPayload, WithdrawFromEscrowPayload};
use farm_market::market::Marketplace;

fn listed(m: &mut Marketplace) -> u64 {
    let f = m
        .add_product(FarmerPayload {
            address: "farm".to_string(),
            name: "Bea".to_string(),
            bio: "eggs".to_string(),
            category: "dairy".to_string(),
            price: 10,
            product_status: "Listed".to_string(),
        })
        .unwrap();
    f.id
}

fn withdraw(farmer_id: u64, amount: u64) -> WithdrawFromEscrowPayload {
    WithdrawFromEscrowPayload { farmer_id, amount }
}

#[test]
fn escrow_balance_follows_deposits_and_withdrawals() {
    let mut m = Marketplace::new();
    let id = listed(&mut m);
    m.add_to_escrow(id, 70).unwrap();
    m.add_to_escrow(id, 30).unwrap();
    assert_eq!(m.get_listing(id).unwrap().escrow_balance, 100);
    m.withdraw_from_escrow(withdraw(id, 25)).unwrap();
    assert_eq!(m.get_listing(id).unwrap().escrow_balance, 75);
    m.withdraw_from_escrow(withdraw(id, 75)).unwrap();
    assert_eq!(m.get_listing(id).unwrap().escrow_balance, 0);
}

#[test]
fn withdrawal_beyond_balance_is_refused_with_balance_kept() {
    let mut m = Marketplace::new();
    let id = listed(&mut m);
    m.add_to_escrow(id, 50).unwrap();
    assert_eq!(
        m.withdraw_from_escrow(withdraw(id, 51)),
        Err(Error::InsufficientFundsInEscrow)
    );
    assert_eq!(m.get_listing(id).unwrap().escrow_balance, 50);
    // Withdrawing from an empty balance is refused too.
    m.withdraw_from_escrow(withdraw(id, 50)).unwrap();
    assert_eq!(
        m.withdraw_from_escrow(withdraw(id, 1)),
        Err(Error::InsufficientFundsInEscrow)
    );
    assert_eq!(m.get_listing(id).unwrap().escrow_balance, 0);
}

#[test]
fn deposit_overflow_is_reported_not_wrapped() {
    let mut m = Marketplace::new();
    let id = listed(&mut m);
    m.add_to_escrow(id, u64::MAX).unwrap();
    assert_eq!(m.add_to_escrow(id, 1), Err(Error::Overflow));
    assert_eq!(m.get_listing(id).unwrap().escrow_balance, u64::MAX);
    m.withdraw_from_escrow(withdraw(id, 1)).unwrap();
    m.add_to_escrow(id, 1).unwrap();
    assert_eq!(m.get_listing(id).unwrap().escrow_balance, u64::MAX);
}

#[test]
fn id_allocation_overflow_is_reported_not_wrapped() {
    let mut m = Marketplace {
        counter: u64::MAX,
        listings: std::collections::BTreeMap::new(),
        archive: std::collections::BTreeMap::new(),
    };
    assert_eq!(m.increment_id(), Err(Error::Overflow));
    let refused = m.add_product(FarmerPayload {
        address: "farm".to_string(),
        name: "Bea".to_string(),
        bio: "eggs".to_string(),
        category: "dairy".to_string(),
        price: 10,
        product_status: "Listed".to_string(),
    });
    assert!(matches!(refused, Err(Error::Overflow)));
    assert_eq!(m.counter, u64::MAX);
}

#[test]
fn rating_is_stored_unconstrained() {
    let mut m = Marketplace::new();
    let id = listed(&mut m);
    m.rate_farmer(id, 5).unwrap();
    assert_eq!(m.get_listing(id).unwrap().rating, 5);
    m.rate_farmer(id, 255).unwrap();
    assert_eq!(m.get_listing(id).unwrap().rating, 255);
}

#[test]
fn every_operation_on_an_unallocated_id_reports_not_found() {
    let mut m = Marketplace::new();
    listed(&mut m);
    let missing: u64 = 999999;
    let nf = Err(Error::NotFound { id: missing });
    assert_eq!(m.get_product_price(missing), nf);
    assert_eq!(
        m.get_product_description(missing),
        Err(Error::NotFound { id: missing })
    );
    assert_eq!(
        m.get_product_status(missing),
        Err(Error::NotFound { id: missing })
    );
    assert_eq!(
        m.product_bid(farm_market::listing::ProductBidPayload {
            farmer_id: missing,
            consumer_address: "alice".to_string(),
        }),
        Err(Error::NotFound { id: missing })
    );
    assert_eq!(m.accept_bid(missing), Err(Error::NotFound { id: missing }));
    assert_eq!(
        m.mark_product_sold(farm_market::listing::MarkProductSoldPayload {
            farmer_id: missing,
            consumer_address: "alice".to_string(),
        }),
        Err(Error::NotFound { id: missing })
    );
    assert_eq!(m.dispute_product(missing), Err(Error::NotFound { id: missing }));
    assert_eq!(
        m.resolve_dispute(missing, true),
        Err(Error::NotFound { id: missing })
    );
    assert_eq!(m.release_payment(missing), Err(Error::NotFound { id: missing }));
    assert_eq!(m.add_to_escrow(missing, 5), Err(Error::NotFound { id: missing }));
    assert_eq!(
        m.withdraw_from_escrow(withdraw(missing, 5)),
        Err(Error::NotFound { id: missing })
    );
    assert_eq!(
        m.update_product_category(missing, "x".to_string()),
        Err(Error::NotFound { id: missing })
    );
    assert_eq!(
        m.update_product_description(missing, "x".to_string()),
        Err(Error::NotFound { id: missing })
    );
    assert_eq!(
        m.update_product_price(missing, 1),
        Err(Error::NotFound { id: missing })
    );
    assert_eq!(
        m.update_product_status(missing, "x".to_string()),
        Err(Error::NotFound { id: missing })
    );
    assert_eq!(m.rate_farmer(missing, 1), Err(Error::NotFound { id: missing }));
    assert!(m.get_listing(missing).is_none());
    assert!(m.get_settled_sale(missing).is_none());
}
