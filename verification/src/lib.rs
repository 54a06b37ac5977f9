//! A two-party registry for buying and selling services represented as
//! uniquely owned digital assets.
//!
//! An administrator creates an isolated marketplace namespace at a
//! deterministically derived address; a creator lists a service as a
//! priced, optionally non-transferable asset whose transfer authority is
//! delegated to the service record itself; a buyer atomically pays the
//! listed price to the creator and receives exclusive ownership of the
//! asset.  Every record address is re-derived and verified on every
//! reference, and every operation either commits whole or leaves the
//! ledger untouched.
#![allow(unused_imports)]
use vstd::prelude::*;

pub mod asset;
pub mod contexts;
pub mod errors;
pub mod laws;
pub mod pda;
pub mod pubkey;
pub mod states;
pub mod world;

use crate::contexts::buy_service::{spec_buy_service, BuyService};
use crate::contexts::initialize_marketplace::{spec_initialize_marketplace, InitializeMarketplace};
use crate::contexts::list_service::{spec_list_service, ListService, ListServiceArgs};
use crate::errors::MarketplaceErrors;
use crate::pubkey::{key_result_view, Pubkey};
use crate::world::World;

verus! {

/// Entry point: create a marketplace namespace record for `ctx.admin`
/// under the chosen `seed`, at its deterministically derived address.
pub fn initialize_marketplace(world: &mut World, ctx: &InitializeMarketplace, seed: u64) -> (r:
    Result<Pubkey, MarketplaceErrors>)
    requires
        old(world)@.wf(),
        ctx.admin.wf(),
    ensures
        final(world)@ == spec_initialize_marketplace(old(world)@, ctx.admin@, seed).0,
        key_result_view(r) == spec_initialize_marketplace(old(world)@, ctx.admin@, seed).1,
        final(world)@.wf(),
        r matches Ok(a) ==> a.wf(),
{
    ctx.initialize_marketplace(world, seed)
}

/// Entry point: list a service under an existing marketplace, creating
/// the service record and registering the bound asset atomically.
pub fn list_service(world: &mut World, ctx: &ListService, args: ListServiceArgs) -> (r: Result<
    Pubkey,
    MarketplaceErrors,
>)
    requires
        old(world)@.wf(),
        ctx.creator.wf(),
        ctx.marketplace.wf(),
        ctx.asset.wf(),
    ensures
        final(world)@ == spec_list_service(
            old(world)@,
            ctx.creator@,
            ctx.marketplace@,
            ctx.asset@,
            args@,
        ).0,
        key_result_view(r) == spec_list_service(
            old(world)@,
            ctx.creator@,
            ctx.marketplace@,
            ctx.asset@,
            args@,
        ).1,
        final(world)@.wf(),
        r matches Ok(a) ==> a.wf(),
{
    ctx.list_service(world, args)
}

/// Entry point: buy a listed service, paying the creator and re-owning
/// the bound asset to the buyer in one indivisible step.
pub fn buy_service(world: &mut World, ctx: &BuyService) -> (r: Result<(), MarketplaceErrors>)
    requires
        old(world)@.wf(),
        ctx.buyer.wf(),
        ctx.marketplace.wf(),
        ctx.service.wf(),
        ctx.asset.wf(),
    ensures
        final(world)@ == spec_buy_service(
            old(world)@,
            ctx.buyer@,
            ctx.marketplace@,
            ctx.service@,
            ctx.asset@,
        ).0,
        r == spec_buy_service(
            old(world)@,
            ctx.buyer@,
            ctx.marketplace@,
            ctx.service@,
            ctx.asset@,
        ).1,
        final(world)@.wf(),
{
    ctx.buy_service(world)
}

} // verus!
