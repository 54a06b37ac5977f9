use vstd::prelude::*;

use crate::asset::{transfer_allowed, AssetPolicyV, AssetV};
use crate::contexts::buy_service::spec_buy_service;
use crate::contexts::initialize_marketplace::spec_initialize_marketplace;
use crate::contexts::list_service::{listed_asset, spec_list_service, ListServiceArgsV};
use crate::errors::MarketplaceErrors;
use crate::pda::marketplace_pda;
use crate::states::marketplace::MarketplaceV;
use crate::world::{
    asset_index, asset_record, has_asset, has_marketplace, has_service, marketplace_index,
    marketplace_record, marketplace_verifies, service_index, service_record, service_verifies,
    spec_balance_of, spec_transfer_asset, AssetEntryV, MarketplaceEntryV, ServiceEntryV, WorldView,
};

verus! {

// ---------------------------------------------------------------------
// Lookup behaviour on freshly pushed and updated entries, used by the
// laws below.
// ---------------------------------------------------------------------
proof fn lemma_marketplace_push_lookup(s: Seq<MarketplaceEntryV>, entry: MarketplaceEntryV)
    requires
        !has_marketplace(s, entry.address),
    ensures
        has_marketplace(s.push(entry), entry.address),
        marketplace_index(s.push(entry), entry.address) == s.len(),
        marketplace_record(s.push(entry), entry.address) == entry.record,
{
    let s2 = s.push(entry);
    let n = s.len() as int;
    assert(s2[n].address == entry.address);
    assert(has_marketplace(s2, entry.address));
    let j = marketplace_index(s2, entry.address);
    if j != n {
        assert(s2[j] == s[j]);
        assert(has_marketplace(s, entry.address));
    }
}

proof fn lemma_service_push_lookup(s: Seq<ServiceEntryV>, entry: ServiceEntryV)
    requires
        !has_service(s, entry.address),
    ensures
        has_service(s.push(entry), entry.address),
        service_index(s.push(entry), entry.address) == s.len(),
        service_record(s.push(entry), entry.address) == entry.record,
{
    let s2 = s.push(entry);
    let n = s.len() as int;
    assert(s2[n].address == entry.address);
    assert(has_service(s2, entry.address));
    let j = service_index(s2, entry.address);
    if j != n {
        assert(s2[j] == s[j]);
        assert(has_service(s, entry.address));
    }
}

proof fn lemma_asset_push_lookup(s: Seq<AssetEntryV>, entry: AssetEntryV)
    requires
        !has_asset(s, entry.address),
    ensures
        has_asset(s.push(entry), entry.address),
        asset_index(s.push(entry), entry.address) == s.len(),
        asset_record(s.push(entry), entry.address) == entry.record,
{
    let s2 = s.push(entry);
    let n = s.len() as int;
    assert(s2[n].address == entry.address);
    assert(has_asset(s2, entry.address));
    let j = asset_index(s2, entry.address);
    if j != n {
        assert(s2[j] == s[j]);
        assert(has_asset(s, entry.address));
    }
}

proof fn lemma_asset_update_lookup(s: Seq<AssetEntryV>, a: Seq<u8>, rec: AssetV)
    requires
        has_asset(s, a),
        forall|j: int| 0 <= j < s.len() && (#[trigger] s[j]).address == a ==> j == asset_index(s, a),
    ensures
        has_asset(s.update(asset_index(s, a), AssetEntryV { address: a, record: rec }), a),
        asset_index(s.update(asset_index(s, a), AssetEntryV { address: a, record: rec }), a)
            == asset_index(s, a),
        asset_record(s.update(asset_index(s, a), AssetEntryV { address: a, record: rec }), a)
            == rec,
{
    let i = asset_index(s, a);
    let s2 = s.update(i, AssetEntryV { address: a, record: rec });
    assert(s2[i].address == a);
    assert(has_asset(s2, a));
    let j = asset_index(s2, a);
    if j != i {
        assert(s2[j] == s[j]);
    }
}

// ---------------------------------------------------------------------
// Determinism of addressing: a successful `initialize_marketplace`
// leaves its record exactly where re-derivation from the same
// `(admin, seed)` points, carrying the derived proof byte, so the stored
// record verifies against re-derivation forever after.
// ---------------------------------------------------------------------
pub proof fn lemma_initialize_marketplace_deterministic(w: WorldView, admin: Seq<u8>, seed: u64)
    requires
        spec_initialize_marketplace(w, admin, seed).1 is Ok,
    ensures
        ({
            let out = spec_initialize_marketplace(w, admin, seed);
            let a = out.1->Ok_0;
            &&& marketplace_pda(admin, seed) matches Some(p) && p.0 == a
            &&& marketplace_record(out.0.marketplaces, a) == (MarketplaceV {
                admin,
                seed,
                bump: marketplace_pda(admin, seed)->Some_0.1,
            })
            &&& marketplace_verifies(out.0.marketplaces, a)
        }),
{
    let p = marketplace_pda(admin, seed)->Some_0;
    let entry = MarketplaceEntryV {
        address: p.0,
        record: MarketplaceV { admin, seed, bump: p.1 },
    };
    lemma_marketplace_push_lookup(w.marketplaces, entry);
}

// ---------------------------------------------------------------------
// No namespace is created twice: once `initialize_marketplace` has
// succeeded for `(admin, seed)`, a second call with the same pair fails
// with `AddressCollision` and changes nothing.
// ---------------------------------------------------------------------
pub proof fn lemma_initialize_marketplace_collision(w: WorldView, admin: Seq<u8>, seed: u64)
    requires
        spec_initialize_marketplace(w, admin, seed).1 is Ok,
    ensures
        ({
            let w1 = spec_initialize_marketplace(w, admin, seed).0;
            spec_initialize_marketplace(w1, admin, seed) == (
                w1,
                Err::<Seq<u8>, MarketplaceErrors>(MarketplaceErrors::AddressCollision),
            )
        }),
{
    let p = marketplace_pda(admin, seed)->Some_0;
    let entry = MarketplaceEntryV {
        address: p.0,
        record: MarketplaceV { admin, seed, bump: p.1 },
    };
    lemma_marketplace_push_lookup(w.marketplaces, entry);
}

// ---------------------------------------------------------------------
// The solvency rule is strict: a buyer whose balance equals the listed
// price, to the unit, is refused with `InsufficientFunds`, and the world
// does not change.
// ---------------------------------------------------------------------
pub proof fn lemma_balance_equal_price_fails(
    w: WorldView,
    buyer: Seq<u8>,
    marketplace: Seq<u8>,
    service: Seq<u8>,
    asset: Seq<u8>,
)
    requires
        marketplace_verifies(w.marketplaces, marketplace),
        service_verifies(w.services, service, marketplace, asset),
        spec_balance_of(w.balances, buyer) == service_record(w.services, service).price,
    ensures
        spec_buy_service(w, buyer, marketplace, service, asset) == (
            w,
            Err::<(), MarketplaceErrors>(MarketplaceErrors::InsufficientFunds),
        ),
{
}

proof fn lemma_set_balance_identity(s: Seq<crate::world::BalanceEntryV>, o: Seq<u8>)
    requires
        crate::world::has_balance(s, o),
    ensures
        crate::world::spec_set_balance(s, o, spec_balance_of(s, o)) == s,
{
    let i = crate::world::balance_index(s, o);
    assert(crate::world::BalanceEntryV { owner: o, lamports: spec_balance_of(s, o) } == s[i]);
    assert(crate::world::spec_set_balance(s, o, spec_balance_of(s, o)) =~= s);
}

proof fn lemma_asset_unique_index(s: Seq<AssetEntryV>, a: Seq<u8>)
    requires
        crate::world::assets_wf(s),
        has_asset(s, a),
    ensures
        forall|j: int| 0 <= j < s.len() && (#[trigger] s[j]).address == a ==> j == asset_index(s, a),
{
    let i = asset_index(s, a);
    assert forall|j: int| 0 <= j < s.len() && (#[trigger] s[j]).address == a implies j == i by {
        if j < i {
            assert(s[j].address != s[i].address);
        } else if i < j {
            assert(s[i].address != s[j].address);
        }
    }
}

// ---------------------------------------------------------------------
// A price of zero is the boundary the strict rule leaves purchasable:
// any buyer holding even one unit passes the solvency check, no value
// moves, and ownership still transfers.  (A buyer holding exactly zero
// is refused by the same strict rule, like every buyer whose balance
// equals the price.)
// ---------------------------------------------------------------------
pub proof fn lemma_price_zero_purchasable(
    w: WorldView,
    buyer: Seq<u8>,
    marketplace: Seq<u8>,
    service: Seq<u8>,
    asset: Seq<u8>,
)
    requires
        w.wf(),
        marketplace_verifies(w.marketplaces, marketplace),
        service_verifies(w.services, service, marketplace, asset),
        service_record(w.services, service).price == 0,
        spec_balance_of(w.balances, buyer) > 0,
        crate::world::has_balance(w.balances, service_record(w.services, service).creator),
        has_asset(w.assets, asset),
        transfer_allowed(asset_record(w.assets, asset).policy, service),
    ensures
        ({
            let out = spec_buy_service(w, buyer, marketplace, service, asset);
            &&& out.1 == Ok::<(), MarketplaceErrors>(())
            &&& out.0.balances == w.balances
            &&& asset_record(out.0.assets, asset).owner == buyer
        }),
{
    let svc = service_record(w.services, service);
    let creator = svc.creator;
    assert(spec_balance_of(w.balances, buyer) > 0);
    let pay = crate::world::spec_transfer_lamports(w.balances, buyer, creator, 0);
    if buyer != creator {
        lemma_set_balance_identity(w.balances, buyer);
        assert(crate::world::spec_set_balance(w.balances, buyer, spec_balance_of(w.balances, buyer))
            == w.balances);
        lemma_set_balance_identity(w.balances, creator);
    }
    assert(pay.0 == w.balances);
    assert(pay.1 is Ok);
    let w_paid = WorldView {
        marketplaces: w.marketplaces,
        services: w.services,
        assets: w.assets,
        balances: pay.0,
    };
    assert(w_paid =~= w);
    let old_rec = asset_record(w.assets, asset);
    let new_rec = AssetV {
        owner: buyer,
        name: old_rec.name,
        uri: old_rec.uri,
        policy: crate::asset::after_transfer(old_rec.policy),
        royalty: old_rec.royalty,
        attributes: old_rec.attributes,
    };
    lemma_asset_unique_index(w.assets, asset);
    lemma_asset_update_lookup(w.assets, asset, new_rec);
}

// ---------------------------------------------------------------------
// Round trip of an ordinary listing: the asset leaves `list_service`
// owned by the creator with its transfer authority delegated to the
// service record's address; after a purchase the buyer owns it and the
// delegate authority is unchanged, so the same listing can sell again.
// ---------------------------------------------------------------------
pub proof fn lemma_transferable_round_trip(
    w: WorldView,
    creator: Seq<u8>,
    marketplace: Seq<u8>,
    asset: Seq<u8>,
    args: ListServiceArgsV,
    buyer: Seq<u8>,
)
    requires
        !args.soulbound,
        spec_list_service(w, creator, marketplace, asset, args).1 is Ok,
        ({
            let out1 = spec_list_service(w, creator, marketplace, asset, args);
            spec_buy_service(out1.0, buyer, marketplace, out1.1->Ok_0, asset).1 is Ok
        }),
    ensures
        ({
            let out1 = spec_list_service(w, creator, marketplace, asset, args);
            let w1 = out1.0;
            let svc = out1.1->Ok_0;
            let listed = asset_record(w1.assets, asset);
            let out2 = spec_buy_service(w1, buyer, marketplace, svc, asset);
            let bought = asset_record(out2.0.assets, asset);
            &&& listed.owner == creator
            &&& listed.policy == (AssetPolicyV::Transferable { authority: svc })
            &&& bought.owner == buyer
            &&& bought.policy == listed.policy
            &&& transfer_allowed(bought.policy, svc)
            &&& out2.0.services == w1.services
        }),
{
    let out1 = spec_list_service(w, creator, marketplace, asset, args);
    let w1 = out1.0;
    let svc = out1.1->Ok_0;
    let entry = AssetEntryV { address: asset, record: listed_asset(creator, svc, args) };
    lemma_asset_push_lookup(w.assets, entry);
    let n = w.assets.len() as int;
    assert forall|j: int| 0 <= j < w1.assets.len() && (#[trigger] w1.assets[j]).address == asset
        implies j == asset_index(w1.assets, asset) by {
        if j < n {
            assert(w1.assets[j] == w.assets[j]);
            assert(has_asset(w.assets, asset));
        }
    }
    let listed = asset_record(w1.assets, asset);
    let new_rec = AssetV {
        owner: buyer,
        name: listed.name,
        uri: listed.uri,
        policy: crate::asset::after_transfer(listed.policy),
        royalty: listed.royalty,
        attributes: listed.attributes,
    };
    lemma_asset_update_lookup(w1.assets, asset, new_rec);
}

// ---------------------------------------------------------------------
// The soulbound invariant: after a soulbound listing is purchased, the
// asset is permanently locked, and the registry refuses every further
// transfer attempt, whoever signs it and whoever would receive it.
// ---------------------------------------------------------------------
pub proof fn lemma_soulbound_locks_after_sale(
    w: WorldView,
    creator: Seq<u8>,
    marketplace: Seq<u8>,
    asset: Seq<u8>,
    args: ListServiceArgsV,
    buyer: Seq<u8>,
)
    requires
        args.soulbound,
        spec_list_service(w, creator, marketplace, asset, args).1 is Ok,
        ({
            let out1 = spec_list_service(w, creator, marketplace, asset, args);
            spec_buy_service(out1.0, buyer, marketplace, out1.1->Ok_0, asset).1 is Ok
        }),
    ensures
        ({
            let out1 = spec_list_service(w, creator, marketplace, asset, args);
            let w1 = out1.0;
            let svc = out1.1->Ok_0;
            let out2 = spec_buy_service(w1, buyer, marketplace, svc, asset);
            let bought = asset_record(out2.0.assets, asset);
            &&& bought.owner == buyer
            &&& bought.policy is SoulboundLocked
            &&& forall|new_owner: Seq<u8>, signer: Seq<u8>|
                (#[trigger] spec_transfer_asset(out2.0, asset, new_owner, signer)).1 == Err::<
                    (),
                    MarketplaceErrors,
                >(MarketplaceErrors::DelegationDenied)
        }),
{
    let out1 = spec_list_service(w, creator, marketplace, asset, args);
    let w1 = out1.0;
    let svc = out1.1->Ok_0;
    let entry = AssetEntryV { address: asset, record: listed_asset(creator, svc, args) };
    lemma_asset_push_lookup(w.assets, entry);
    let n = w.assets.len() as int;
    assert forall|j: int| 0 <= j < w1.assets.len() && (#[trigger] w1.assets[j]).address == asset
        implies j == asset_index(w1.assets, asset) by {
        if j < n {
            assert(w1.assets[j] == w.assets[j]);
            assert(has_asset(w.assets, asset));
        }
    }
    let listed = asset_record(w1.assets, asset);
    let new_rec = AssetV {
        owner: buyer,
        name: listed.name,
        uri: listed.uri,
        policy: crate::asset::after_transfer(listed.policy),
        royalty: listed.royalty,
        attributes: listed.attributes,
    };
    lemma_asset_update_lookup(w1.assets, asset, new_rec);
    let out2 = spec_buy_service(w1, buyer, marketplace, svc, asset);
    assert forall|new_owner: Seq<u8>, signer: Seq<u8>|
        (#[trigger] spec_transfer_asset(out2.0, asset, new_owner, signer)).1 == Err::<
            (),
            MarketplaceErrors,
        >(MarketplaceErrors::DelegationDenied) by {
        assert(!transfer_allowed(asset_record(out2.0.assets, asset).policy, signer));
    }
}

// ---------------------------------------------------------------------
// Two successful listings never share an address: whatever was listed
// first occupies its derived address, so the second listing's creation
// would have failed there, and its address is distinct.
// ---------------------------------------------------------------------
pub proof fn lemma_distinct_listings_distinct_addresses(
    w: WorldView,
    creator: Seq<u8>,
    marketplace: Seq<u8>,
    asset1: Seq<u8>,
    asset2: Seq<u8>,
    args1: ListServiceArgsV,
    args2: ListServiceArgsV,
)
    requires
        asset1 != asset2,
        spec_list_service(w, creator, marketplace, asset1, args1).1 is Ok,
        ({
            let w1 = spec_list_service(w, creator, marketplace, asset1, args1).0;
            spec_list_service(w1, creator, marketplace, asset2, args2).1 is Ok
        }),
    ensures
        ({
            let out1 = spec_list_service(w, creator, marketplace, asset1, args1);
            let out2 = spec_list_service(out1.0, creator, marketplace, asset2, args2);
            out1.1->Ok_0 != out2.1->Ok_0
        }),
{
    let out1 = spec_list_service(w, creator, marketplace, asset1, args1);
    let w1 = out1.0;
    let s1 = out1.1->Ok_0;
    let n = w.services.len() as int;
    assert(w1.services[n].address == s1);
    assert(has_service(w1.services, s1));
}

} // verus!
