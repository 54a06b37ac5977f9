use vstd::prelude::*;

use crate::asset::{
    Asset, AssetPolicy, AssetPolicyV, AssetV, Royalty, RoyaltyV, ServiceAttribute,
    ServiceAttributeV,
};
use crate::errors::MarketplaceErrors;
use crate::pda::{derive_service_address, service_pda};
use crate::pubkey::{key_result_view, Pubkey};
use crate::states::service_nft::{ServiceNFT, ServiceNFTV};
use crate::world::{
    assets_wf, has_asset, has_service, marketplace_verifies, services_wf, AssetEntry, AssetEntryV,
    ServiceEntry, ServiceEntryV, World, WorldView,
};

verus! {

/// Everything a creator supplies about the service being listed: the
/// asset's display metadata, the price, whether the asset is permanently
/// non-transferable after sale, the advisory royalty share, and two
/// free-form terms carried as opaque attributes.
pub struct ListServiceArgs {
    pub name: String,
    pub uri: String,
    pub price: u64,
    pub soulbound: bool,
    pub royalty_basis_points: u16,
    pub hours: String,
    pub terms: String,
}

/// The mathematical value of [`ListServiceArgs`].
#[verifier::ext_equal]
pub struct ListServiceArgsV {
    pub name: Seq<char>,
    pub uri: Seq<char>,
    pub price: u64,
    pub soulbound: bool,
    pub royalty_basis_points: u16,
    pub hours: Seq<char>,
    pub terms: Seq<char>,
}

impl View for ListServiceArgs {
    type V = ListServiceArgsV;

    open spec fn view(&self) -> ListServiceArgsV {
        ListServiceArgsV {
            name: self.name@,
            uri: self.uri@,
            price: self.price,
            soulbound: self.soulbound,
            royalty_basis_points: self.royalty_basis_points,
            hours: self.hours@,
            terms: self.terms@,
        }
    }
}

/// The participants of `list_service`: the creator who signs and will be
/// paid, the marketplace namespace listed under, and the identity the
/// new asset will be registered at.
pub struct ListService {
    pub creator: Pubkey,
    pub marketplace: Pubkey,
    pub asset: Pubkey,
}

/// The asset as `list_service` registers it: owned by the creator, with
/// the transfer capability chosen once by `soulbound` and delegated to
/// the service record's address, the whole royalty share assigned to the
/// creator, and the two opaque attributes attached.
pub open spec fn listed_asset(
    creator: Seq<u8>,
    service_address: Seq<u8>,
    args: ListServiceArgsV,
) -> AssetV {
    AssetV {
        owner: creator,
        name: args.name,
        uri: args.uri,
        policy: if args.soulbound {
            AssetPolicyV::SoulboundPending { authority: service_address }
        } else {
            AssetPolicyV::Transferable { authority: service_address }
        },
        royalty: RoyaltyV {
            recipient: creator,
            percentage: 100,
            basis_points: args.royalty_basis_points,
        },
        attributes: seq![
            ServiceAttributeV { key: "hours"@, value: args.hours },
            ServiceAttributeV { key: "terms"@, value: args.terms },
        ],
    }
}

/// The whole outcome of `list_service` on a given world: the world after
/// the operation and the operation's result.  All checks precede all
/// effects, so a failure leaves the world untouched.
pub open spec fn spec_list_service(
    w: WorldView,
    creator: Seq<u8>,
    marketplace: Seq<u8>,
    asset: Seq<u8>,
    args: ListServiceArgsV,
) -> (WorldView, Result<Seq<u8>, MarketplaceErrors>) {
    if !marketplace_verifies(w.marketplaces, marketplace) {
        (w, Err(MarketplaceErrors::AddressProofMismatch))
    } else {
        match service_pda(marketplace, creator, asset) {
            None => (w, Err(MarketplaceErrors::AddressDerivationFailure)),
            Some(p) => {
                if has_service(w.services, p.0) {
                    (w, Err(MarketplaceErrors::AddressCollision))
                } else if has_asset(w.assets, asset) {
                    (w, Err(MarketplaceErrors::AddressCollision))
                } else {
                    (
                        WorldView {
                            marketplaces: w.marketplaces,
                            services: w.services.push(
                                ServiceEntryV {
                                    address: p.0,
                                    asset,
                                    record: ServiceNFTV {
                                        marketplace,
                                        creator,
                                        price: args.price,
                                        is_soulbound: args.soulbound,
                                        bump: p.1,
                                    },
                                },
                            ),
                            assets: w.assets.push(
                                AssetEntryV {
                                    address: asset,
                                    record: listed_asset(creator, p.0, args),
                                },
                            ),
                            balances: w.balances,
                        },
                        Ok(p.0),
                    )
                }
            },
        }
    }
}

impl ListService {
    /// Persist the service record at its derived address and register
    /// the bound asset with its capabilities, as one atomic step: if any
    /// check fails, no record and no asset survives.
    pub fn list_service(&self, world: &mut World, args: ListServiceArgs) -> (r: Result<
        Pubkey,
        MarketplaceErrors,
    >)
        requires
            old(world)@.wf(),
            self.creator.wf(),
            self.marketplace.wf(),
            self.asset.wf(),
        ensures
            final(world)@ == spec_list_service(
                old(world)@,
                self.creator@,
                self.marketplace@,
                self.asset@,
                args@,
            ).0,
            key_result_view(r) == spec_list_service(
                old(world)@,
                self.creator@,
                self.marketplace@,
                self.asset@,
                args@,
            ).1,
            final(world)@.wf(),
            r matches Ok(a) ==> a.wf(),
    {
        if !world.marketplace_proof_ok(&self.marketplace) {
            return Err(MarketplaceErrors::AddressProofMismatch);
        }
        match derive_service_address(&self.marketplace, &self.creator, &self.asset) {
            None => Err(MarketplaceErrors::AddressDerivationFailure),
            Some((svc_addr, bump)) => {
                match world.find_service(&svc_addr) {
                    Some(i) => {
                        proof {
                            assert(0 <= i < world@.services.len() && world@.services[i as int].address
                                == svc_addr@);
                            assert(has_service(world@.services, svc_addr@));
                        }
                        Err(MarketplaceErrors::AddressCollision)
                    },
                    None => {
                        match world.find_asset(&self.asset) {
                            Some(i) => {
                                proof {
                                    assert(0 <= i < world@.assets.len() && world@.assets[
                                        i as int
                                    ].address == self.asset@);
                                    assert(has_asset(world@.assets, self.asset@));
                                }
                                Err(MarketplaceErrors::AddressCollision)
                            },
                            None => {
                                let ghost old_services = world@.services;
                                let ghost old_assets = world@.assets;
                                let ghost args_v = args@;
                                let policy = if args.soulbound {
                                    AssetPolicy::SoulboundPending { authority: svc_addr.clone() }
                                } else {
                                    AssetPolicy::Transferable { authority: svc_addr.clone() }
                                };
                                let mut attributes: Vec<ServiceAttribute> = Vec::new();
                                attributes.push(
                                    ServiceAttribute {
                                        key: String::from_str("hours"),
                                        value: args.hours,
                                    },
                                );
                                attributes.push(
                                    ServiceAttribute {
                                        key: String::from_str("terms"),
                                        value: args.terms,
                                    },
                                );
                                let asset_entry = AssetEntry {
                                    address: self.asset.clone(),
                                    record: Asset {
                                        owner: self.creator.clone(),
                                        name: args.name,
                                        uri: args.uri,
                                        policy,
                                        royalty: Royalty {
                                            recipient: self.creator.clone(),
                                            percentage: 100,
                                            basis_points: args.royalty_basis_points,
                                        },
                                        attributes,
                                    },
                                };
                                let svc_entry = ServiceEntry {
                                    address: svc_addr.clone(),
                                    asset: self.asset.clone(),
                                    record: ServiceNFT {
                                        marketplace: self.marketplace.clone(),
                                        creator: self.creator.clone(),
                                        price: args.price,
                                        is_soulbound: args.soulbound,
                                        bump,
                                    },
                                };
                                let ghost svc_entry_v = svc_entry@;
                                let ghost asset_entry_v = asset_entry@;
                                world.services.push(svc_entry);
                                world.assets.push(asset_entry);
                                proof {
                                    assert(world@.services =~= old_services.push(svc_entry_v));
                                    assert(world@.assets =~= old_assets.push(asset_entry_v));
                                    assert(asset_entry_v.record =~= listed_asset(
                                        self.creator@,
                                        svc_addr@,
                                        args_v,
                                    ));
                                    assert(world@ =~= spec_list_service(
                                        old(world)@,
                                        self.creator@,
                                        self.marketplace@,
                                        self.asset@,
                                        args_v,
                                    ).0);
                                    assert(services_wf(world@.services));
                                    assert(assets_wf(world@.assets));
                                }
                                Ok(svc_addr)
                            },
                        }
                    },
                }
            },
        }
    }
}

} // verus!
