use vstd::prelude::*;

use crate::errors::MarketplaceErrors;
use crate::pda::{derive_marketplace_address, marketplace_pda};
use crate::pubkey::{key_result_view, Pubkey};
use crate::states::marketplace::{Marketplace, MarketplaceV};
use crate::world::{
    has_marketplace, marketplaces_wf, MarketplaceEntry, MarketplaceEntryV, World, WorldView,
};

verus! {

/// The participants of `initialize_marketplace`: the administrator whose
/// identity, together with a chosen seed, determines the namespace's
/// address.  The host has already verified the admin's signature.
pub struct InitializeMarketplace {
    pub admin: Pubkey,
}

/// The whole outcome of `initialize_marketplace` on a given world: the
/// world after the operation and the operation's result.
pub open spec fn spec_initialize_marketplace(w: WorldView, admin: Seq<u8>, seed: u64) -> (
    WorldView,
    Result<Seq<u8>, MarketplaceErrors>,
) {
    match marketplace_pda(admin, seed) {
        None => (w, Err(MarketplaceErrors::AddressDerivationFailure)),
        Some(p) => {
            if has_marketplace(w.marketplaces, p.0) {
                (w, Err(MarketplaceErrors::AddressCollision))
            } else {
                (
                    WorldView {
                        marketplaces: w.marketplaces.push(
                            MarketplaceEntryV {
                                address: p.0,
                                record: MarketplaceV { admin, seed, bump: p.1 },
                            },
                        ),
                        services: w.services,
                        assets: w.assets,
                        balances: w.balances,
                    },
                    Ok(p.0),
                )
            }
        },
    }
}

impl InitializeMarketplace {
    /// Create the marketplace namespace record of `(admin, seed)` at its
    /// deterministically derived address, recording the derivation
    /// proof.  Fails with `AddressCollision` if a record already lives
    /// there; touches no funds and nothing else.
    pub fn initialize_marketplace(&self, world: &mut World, seed: u64) -> (r: Result<
        Pubkey,
        MarketplaceErrors,
    >)
        requires
            old(world)@.wf(),
            self.admin.wf(),
        ensures
            final(world)@ == spec_initialize_marketplace(old(world)@, self.admin@, seed).0,
            key_result_view(r) == spec_initialize_marketplace(old(world)@, self.admin@, seed).1,
            final(world)@.wf(),
            r matches Ok(a) ==> a.wf(),
    {
        match derive_marketplace_address(&self.admin, seed) {
            None => Err(MarketplaceErrors::AddressDerivationFailure),
            Some((addr, bump)) => {
                match world.find_marketplace(&addr) {
                    Some(i) => {
                        proof {
                            assert(0 <= i < world@.marketplaces.len() && world@.marketplaces[
                                i as int
                            ].address == addr@);
                            assert(has_marketplace(world@.marketplaces, addr@));
                        }
                        Err(MarketplaceErrors::AddressCollision)
                    },
                    None => {
                        let ghost old_mps = world@.marketplaces;
                        let addr_ret = addr.clone();
                        let entry = MarketplaceEntry {
                            address: addr,
                            record: Marketplace { admin: self.admin.clone(), seed, bump },
                        };
                        let ghost entry_v = entry@;
                        world.marketplaces.push(entry);
                        proof {
                            assert(world@.marketplaces =~= old_mps.push(entry_v));
                            assert(world@ =~= spec_initialize_marketplace(
                                old(world)@,
                                self.admin@,
                                seed,
                            ).0);
                            assert(marketplaces_wf(world@.marketplaces));
                        }
                        Ok(addr_ret)
                    },
                }
            },
        }
    }
}

} // verus!
