use vstd::prelude::*;

use crate::errors::MarketplaceErrors;
use crate::pubkey::Pubkey;
use crate::world::{
    asset_index, asset_record, has_asset, lemma_asset_index, lemma_service_index,
    marketplace_verifies, service_record, service_verifies, spec_balance_of, spec_transfer_asset,
    spec_transfer_lamports, World, WorldView,
};

verus! {

/// The participants of `buy_service`: the buyer who signs and pays, and
/// the addresses of the marketplace, the service record and the bound
/// asset.  The host has already verified the buyer's signature.
pub struct BuyService {
    pub buyer: Pubkey,
    pub marketplace: Pubkey,
    pub service: Pubkey,
    pub asset: Pubkey,
}

/// The whole outcome of `buy_service` on a given world: the world after
/// the operation and the operation's result.  Payment and ownership
/// transfer form one indivisible step: if the registry refuses the
/// transfer, the payment does not survive either.
pub open spec fn spec_buy_service(
    w: WorldView,
    buyer: Seq<u8>,
    marketplace: Seq<u8>,
    service: Seq<u8>,
    asset: Seq<u8>,
) -> (WorldView, Result<(), MarketplaceErrors>) {
    if !marketplace_verifies(w.marketplaces, marketplace) {
        (w, Err(MarketplaceErrors::AddressProofMismatch))
    } else if !service_verifies(w.services, service, marketplace, asset) {
        (w, Err(MarketplaceErrors::AddressProofMismatch))
    } else {
        let svc = service_record(w.services, service);
        if spec_balance_of(w.balances, buyer) <= svc.price {
            (w, Err(MarketplaceErrors::InsufficientFunds))
        } else {
            let pay = spec_transfer_lamports(w.balances, buyer, svc.creator, svc.price);
            match pay.1 {
                Err(e) => (w, Err(e)),
                Ok(_) => {
                    let w_paid = WorldView {
                        marketplaces: w.marketplaces,
                        services: w.services,
                        assets: w.assets,
                        balances: pay.0,
                    };
                    let xfer = spec_transfer_asset(w_paid, asset, buyer, service);
                    match xfer.1 {
                        Err(e) => (w, Err(e)),
                        Ok(_) => (xfer.0, Ok(())),
                    }
                },
            }
        }
    }
}

impl BuyService {
    /// Pay the listed price from the buyer directly to the creator
    /// recorded at listing time, then, with the service record's derived
    /// address as the signing authority, re-own the bound asset to the
    /// buyer.  Both effects commit together or not at all.
    pub fn buy_service(&self, world: &mut World) -> (r: Result<(), MarketplaceErrors>)
        requires
            old(world)@.wf(),
            self.buyer.wf(),
            self.marketplace.wf(),
            self.service.wf(),
            self.asset.wf(),
        ensures
            final(world)@ == spec_buy_service(
                old(world)@,
                self.buyer@,
                self.marketplace@,
                self.service@,
                self.asset@,
            ).0,
            r == spec_buy_service(
                old(world)@,
                self.buyer@,
                self.marketplace@,
                self.service@,
                self.asset@,
            ).1,
            final(world)@.wf(),
    {
        if !world.marketplace_proof_ok(&self.marketplace) {
            return Err(MarketplaceErrors::AddressProofMismatch);
        }
        if !world.service_proof_ok(&self.service, &self.marketplace, &self.asset) {
            return Err(MarketplaceErrors::AddressProofMismatch);
        }
        let i = match world.find_service(&self.service) {
            Some(i) => i,
            None => {
                proof {
                    assert(false);
                }
                return Err(MarketplaceErrors::AddressProofMismatch);
            },
        };
        proof {
            lemma_service_index(world@.services, self.service@, i as int);
        }
        let price = world.services[i].record.price;
        let creator = world.services[i].record.creator.clone();
        proof {
            assert(creator@ == service_record(world@.services, self.service@).creator);
            assert(creator.wf());
        }
        let bal = world.balance_of(&self.buyer);
        if bal <= price {
            return Err(MarketplaceErrors::InsufficientFunds);
        }
        // Every check precedes every effect: the payment may only commit
        // if the registry will accept the ownership transfer.
        if !self.buyer.key_eq(&creator) {
            let cb = world.balance_of(&creator);
            if cb > u64::MAX - price {
                return Err(MarketplaceErrors::ValueTransferFailure);
            }
        }
        let delegation_ok = match world.find_asset(&self.asset) {
            None => false,
            Some(ai) => {
                proof {
                    lemma_asset_index(world@.assets, self.asset@, ai as int);
                }
                world.assets[ai].record.policy.allows(&self.service)
            },
        };
        if !delegation_ok {
            return Err(MarketplaceErrors::DelegationDenied);
        }
        let ghost w0 = world@;
        let r1 = world.transfer_lamports(&self.buyer, &creator, price);
        proof {
            assert(r1 is Ok);
        }
        let ghost w1 = world@;
        let r2 = world.transfer_asset(&self.asset, &self.buyer, &self.service);
        proof {
            let pay = spec_transfer_lamports(w0.balances, self.buyer@, creator@, price);
            let w_paid = WorldView {
                marketplaces: w0.marketplaces,
                services: w0.services,
                assets: w0.assets,
                balances: pay.0,
            };
            assert(w1 =~= w_paid);
            assert(r2 is Ok);
            assert(world@ == spec_transfer_asset(w_paid, self.asset@, self.buyer@, self.service@).0);
        }
        Ok(())
    }
}

} // verus!
