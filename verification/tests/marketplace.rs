use std::str::FromStr;

use two_sided_marketplace_for_services::contexts::buy_service::BuyService;
use two_sided_marketplace_for_services::contexts::initialize_marketplace::InitializeMarketplace;
use two_sided_marketplace_for_services::contexts::list_service::{ListService, ListServiceArgs};
use two_sided_marketplace_for_services::errors::MarketplaceErrors;
use two_sided_marketplace_for_services::pda::{
    derive_marketplace_address, derive_service_address, program_id,
};
use two_sided_marketplace_for_services::pubkey::Pubkey;
use two_sided_marketplace_for_services::world::World;
use two_sided_marketplace_for_services::{buy_service, initialize_marketplace, list_service};

use solana_pubkey::Pubkey as SolPubkey;

fn key(b: u8) -> Pubkey {
    Pubkey::new(vec![b; 32])
}

fn args(price: u64, soulbound: bool) -> ListServiceArgs {
    ListServiceArgs {
        name: "Security audit".to_string(),
        uri: "https://example.com/audit.json".to_string(),
        price,
        soulbound,
        royalty_basis_points: 250,
        hours: "10".to_string(),
        terms: "net-30".to_string(),
    }
}

/// A world with one marketplace (admin 1, seed 42) and one listing by
/// creator 2 of asset 3; returns (world, marketplace, service) addresses.
fn listed_world(price: u64, soulbound: bool) -> (World, Pubkey, Pubkey) {
    let mut world = World::new();
    let init = InitializeMarketplace { admin: key(1) };
    let marketplace = initialize_marketplace(&mut world, &init, 42).unwrap();
    let list = ListService {
        creator: key(2),
        marketplace: marketplace.clone(),
        asset: key(3),
    };
    let service = list_service(&mut world, &list, args(price, soulbound)).unwrap();
    (world, marketplace, service)
}

#[test]
fn program_id_matches_declared_identity() {
    let expected = SolPubkey::from_str("9Qn3V5179PjU2NkYwD3KLcp9ravS94upMC33wTJZSEFH").unwrap();
    assert_eq!(program_id(), expected.to_bytes().to_vec());
}

#[test]
fn marketplace_derivation_matches_host_primitive() {
    let pid = SolPubkey::from_str("9Qn3V5179PjU2NkYwD3KLcp9ravS94upMC33wTJZSEFH").unwrap();
    let admin = key(7);
    let seed: u64 = 99;
    let seed_bytes = seed.to_le_bytes();
    let expected = SolPubkey::find_program_address(
        &[b"marketplace".as_slice(), admin.bytes.as_slice(), seed_bytes.as_slice()],
        &pid,
    );
    let (addr, bump) = derive_marketplace_address(&admin, seed).unwrap();
    assert_eq!(addr.bytes, expected.0.to_bytes().to_vec());
    assert_eq!(bump, expected.1);
}

#[test]
fn service_derivation_matches_host_primitive() {
    let pid = SolPubkey::from_str("9Qn3V5179PjU2NkYwD3KLcp9ravS94upMC33wTJZSEFH").unwrap();
    let marketplace = key(4);
    let creator = key(5);
    let asset = key(6);
    let expected = SolPubkey::find_program_address(
        &[
            b"service".as_slice(),
            marketplace.bytes.as_slice(),
            creator.bytes.as_slice(),
            asset.bytes.as_slice(),
        ],
        &pid,
    );
    let (addr, bump) = derive_service_address(&marketplace, &creator, &asset).unwrap();
    assert_eq!(addr.bytes, expected.0.to_bytes().to_vec());
    assert_eq!(bump, expected.1);
}

#[test]
fn derivation_is_deterministic() {
    let admin = key(9);
    let first = derive_marketplace_address(&admin, 1234).unwrap();
    let second = derive_marketplace_address(&admin, 1234).unwrap();
    assert_eq!(first.0.bytes, second.0.bytes);
    assert_eq!(first.1, second.1);
}

#[test]
fn initialize_marketplace_stores_record_at_derived_address() {
    let mut world = World::new();
    let init = InitializeMarketplace { admin: key(1) };
    let addr = initialize_marketplace(&mut world, &init, 42).unwrap();
    let (derived, bump) = derive_marketplace_address(&key(1), 42).unwrap();
    assert_eq!(addr.bytes, derived.bytes);
    let record = world.marketplace_at(&addr).unwrap();
    assert_eq!(record.admin.bytes, key(1).bytes);
    assert_eq!(record.seed, 42);
    assert_eq!(record.bump, bump);
}

#[test]
fn initialize_marketplace_twice_collides() {
    let mut world = World::new();
    let init = InitializeMarketplace { admin: key(1) };
    initialize_marketplace(&mut world, &init, 42).unwrap();
    let second = initialize_marketplace(&mut world, &init, 42);
    assert!(matches!(second, Err(MarketplaceErrors::AddressCollision)));
}

#[test]
fn different_seeds_give_different_marketplaces() {
    let mut world = World::new();
    let init = InitializeMarketplace { admin: key(1) };
    let a = initialize_marketplace(&mut world, &init, 1).unwrap();
    let b = initialize_marketplace(&mut world, &init, 2).unwrap();
    assert_ne!(a.bytes, b.bytes);
}

#[test]
fn list_service_configures_record_and_asset() {
    let (world, marketplace, service) = listed_world(1_000_000, false);
    let record = world.service_at(&service).unwrap();
    assert_eq!(record.marketplace.bytes, marketplace.bytes);
    assert_eq!(record.creator.bytes, key(2).bytes);
    assert_eq!(record.price, 1_000_000);
    assert!(!record.is_soulbound);
    let (derived, bump) = derive_service_address(&marketplace, &key(2), &key(3)).unwrap();
    assert_eq!(service.bytes, derived.bytes);
    assert_eq!(record.bump, bump);
    // The asset belongs to the creator and its transfer authority is the
    // service record itself.
    assert_eq!(world.asset_owner(&key(3)).unwrap().bytes, key(2).bytes);
    assert_eq!(world.asset_authority(&key(3)).unwrap().bytes, service.bytes);
    assert_eq!(world.asset_is_soulbound(&key(3)), Some(false));
}

#[test]
fn list_service_without_marketplace_fails() {
    let mut world = World::new();
    let list = ListService {
        creator: key(2),
        marketplace: key(8),
        asset: key(3),
    };
    let r = list_service(&mut world, &list, args(10, false));
    assert!(matches!(r, Err(MarketplaceErrors::AddressProofMismatch)));
}

#[test]
fn list_same_asset_twice_collides() {
    let (mut world, marketplace, _service) = listed_world(10, false);
    let list = ListService {
        creator: key(2),
        marketplace,
        asset: key(3),
    };
    let r = list_service(&mut world, &list, args(10, false));
    assert!(matches!(r, Err(MarketplaceErrors::AddressCollision)));
}

#[test]
fn two_listings_get_distinct_service_addresses() {
    let (mut world, marketplace, first) = listed_world(10, false);
    let list = ListService {
        creator: key(2),
        marketplace,
        asset: key(4),
    };
    let second = list_service(&mut world, &list, args(20, false)).unwrap();
    assert_ne!(first.bytes, second.bytes);
}

#[test]
fn buy_service_moves_price_and_ownership() {
    let (mut world, marketplace, service) = listed_world(1_000_000, false);
    world.fund(&key(9), 2_000_000).unwrap();
    let buy = BuyService {
        buyer: key(9),
        marketplace,
        service: service.clone(),
        asset: key(3),
    };
    buy_service(&mut world, &buy).unwrap();
    // The creator received exactly the price, the buyer paid exactly the
    // price, and the buyer now owns the asset.
    assert_eq!(world.balance_of(&key(2)), 1_000_000);
    assert_eq!(world.balance_of(&key(9)), 1_000_000);
    assert_eq!(world.asset_owner(&key(3)).unwrap().bytes, key(9).bytes);
    // The delegate authority is unchanged, so the listing could sell
    // again.
    assert_eq!(world.asset_authority(&key(3)).unwrap().bytes, service.bytes);
    assert_eq!(world.asset_is_locked(&key(3)), Some(false));
    // The service record survives unchanged.
    let record = world.service_at(&service).unwrap();
    assert_eq!(record.price, 1_000_000);
    assert_eq!(record.creator.bytes, key(2).bytes);
}

#[test]
fn buy_service_with_insufficient_funds_changes_nothing() {
    let (mut world, marketplace, service) = listed_world(1_000_000, false);
    world.fund(&key(9), 500_000).unwrap();
    let buy = BuyService {
        buyer: key(9),
        marketplace,
        service,
        asset: key(3),
    };
    let r = buy_service(&mut world, &buy);
    assert_eq!(r, Err(MarketplaceErrors::InsufficientFunds));
    assert_eq!(world.balance_of(&key(9)), 500_000);
    assert_eq!(world.balance_of(&key(2)), 0);
    assert_eq!(world.asset_owner(&key(3)).unwrap().bytes, key(2).bytes);
}

#[test]
fn balance_equal_to_price_is_refused() {
    let (mut world, marketplace, service) = listed_world(1_000_000, false);
    world.fund(&key(9), 1_000_000).unwrap();
    let buy = BuyService {
        buyer: key(9),
        marketplace,
        service,
        asset: key(3),
    };
    assert_eq!(
        buy_service(&mut world, &buy),
        Err(MarketplaceErrors::InsufficientFunds)
    );
}

#[test]
fn price_zero_is_purchasable_with_any_positive_balance() {
    let (mut world, marketplace, service) = listed_world(0, false);
    world.fund(&key(2), 5).unwrap();
    world.fund(&key(9), 1).unwrap();
    let buy = BuyService {
        buyer: key(9),
        marketplace,
        service,
        asset: key(3),
    };
    buy_service(&mut world, &buy).unwrap();
    // No funds moved; ownership still transferred.
    assert_eq!(world.balance_of(&key(9)), 1);
    assert_eq!(world.balance_of(&key(2)), 5);
    assert_eq!(world.asset_owner(&key(3)).unwrap().bytes, key(9).bytes);
}

#[test]
fn price_zero_with_zero_balance_is_still_refused() {
    let (mut world, marketplace, service) = listed_world(0, false);
    let buy = BuyService {
        buyer: key(9),
        marketplace,
        service,
        asset: key(3),
    };
    assert_eq!(
        buy_service(&mut world, &buy),
        Err(MarketplaceErrors::InsufficientFunds)
    );
}

#[test]
fn soulbound_asset_locks_after_sale() {
    let (mut world, marketplace, service) = listed_world(100, true);
    assert_eq!(world.asset_is_soulbound(&key(3)), Some(true));
    world.fund(&key(9), 1_000).unwrap();
    let buy = BuyService {
        buyer: key(9),
        marketplace,
        service: service.clone(),
        asset: key(3),
    };
    buy_service(&mut world, &buy).unwrap();
    assert_eq!(world.asset_owner(&key(3)).unwrap().bytes, key(9).bytes);
    assert_eq!(world.asset_is_locked(&key(3)), Some(true));
    // Nobody can transfer it any more: not the buyer, and not even the
    // service record that was its delegate.
    assert_eq!(
        world.transfer_asset(&key(3), &key(10), &key(9)),
        Err(MarketplaceErrors::DelegationDenied)
    );
    assert_eq!(
        world.transfer_asset(&key(3), &key(10), &service),
        Err(MarketplaceErrors::DelegationDenied)
    );
    assert_eq!(world.asset_owner(&key(3)).unwrap().bytes, key(9).bytes);
}

#[test]
fn transferable_asset_can_sell_again() {
    let (mut world, marketplace, service) = listed_world(100, false);
    world.fund(&key(9), 1_000).unwrap();
    let buy = BuyService {
        buyer: key(9),
        marketplace: marketplace.clone(),
        service: service.clone(),
        asset: key(3),
    };
    buy_service(&mut world, &buy).unwrap();
    // A second purchase through the same listing succeeds: the delegate
    // authority still recognizes the service record.
    world.fund(&key(11), 1_000).unwrap();
    let buy2 = BuyService {
        buyer: key(11),
        marketplace,
        service,
        asset: key(3),
    };
    buy_service(&mut world, &buy2).unwrap();
    assert_eq!(world.asset_owner(&key(3)).unwrap().bytes, key(11).bytes);
}

#[test]
fn buy_with_wrong_asset_fails_proof_check() {
    let (mut world, marketplace, service) = listed_world(100, false);
    world.fund(&key(9), 1_000).unwrap();
    let buy = BuyService {
        buyer: key(9),
        marketplace,
        service,
        asset: key(4),
    };
    assert_eq!(
        buy_service(&mut world, &buy),
        Err(MarketplaceErrors::AddressProofMismatch)
    );
}

#[test]
fn buy_overflowing_creator_balance_fails_transfer() {
    let (mut world, marketplace, service) = listed_world(100, false);
    world.fund(&key(2), u64::MAX).unwrap();
    world.fund(&key(9), 1_000).unwrap();
    let buy = BuyService {
        buyer: key(9),
        marketplace,
        service,
        asset: key(3),
    };
    assert_eq!(
        buy_service(&mut world, &buy),
        Err(MarketplaceErrors::ValueTransferFailure)
    );
    assert_eq!(world.balance_of(&key(9)), 1_000);
    assert_eq!(world.asset_owner(&key(3)).unwrap().bytes, key(2).bytes);
}

#[test]
fn unknown_account_balance_is_zero() {
    let world = World::new();
    assert_eq!(world.balance_of(&key(1)), 0);
}

#[test]
fn transfer_lamports_refuses_overdraw() {
    let mut world = World::new();
    world.fund(&key(1), 50).unwrap();
    assert_eq!(
        world.transfer_lamports(&key(1), &key(2), 51),
        Err(MarketplaceErrors::ValueTransferFailure)
    );
    assert_eq!(world.balance_of(&key(1)), 50);
    assert_eq!(world.balance_of(&key(2)), 0);
    world.transfer_lamports(&key(1), &key(2), 20).unwrap();
    assert_eq!(world.balance_of(&key(1)), 30);
    assert_eq!(world.balance_of(&key(2)), 20);
}

#[test]
fn fund_overflow_is_refused() {
    let mut world = World::new();
    world.fund(&key(9), u64::MAX).unwrap();
    assert_eq!(
        world.fund(&key(9), 1),
        Err(MarketplaceErrors::ValueTransferFailure)
    );
    assert_eq!(world.balance_of(&key(9)), u64::MAX);
}
