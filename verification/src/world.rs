use vstd::prelude::*;

use crate::asset::{after_transfer, transfer_allowed, Asset, AssetV};
use crate::errors::MarketplaceErrors;
use crate::pda::{derive_marketplace_address, derive_service_address, marketplace_pda, service_pda};
use crate::pubkey::Pubkey;
use crate::states::marketplace::{Marketplace, MarketplaceV};
use crate::states::service_nft::{ServiceNFT, ServiceNFTV};

verus! {

/// A marketplace record together with the address it lives at.
pub struct MarketplaceEntry {
    pub address: Pubkey,
    pub record: Marketplace,
}

#[verifier::ext_equal]
pub struct MarketplaceEntryV {
    pub address: Seq<u8>,
    pub record: MarketplaceV,
}

impl View for MarketplaceEntry {
    type V = MarketplaceEntryV;

    open spec fn view(&self) -> MarketplaceEntryV {
        MarketplaceEntryV { address: self.address@, record: self.record@ }
    }
}

/// A service record together with the address it lives at and the asset
/// it was derived against.  The bound asset is part of the derivation
/// seeds, not of the stored record, so the ledger keeps it beside the
/// record.
pub struct ServiceEntry {
    pub address: Pubkey,
    pub asset: Pubkey,
    pub record: ServiceNFT,
}

#[verifier::ext_equal]
pub struct ServiceEntryV {
    pub address: Seq<u8>,
    pub asset: Seq<u8>,
    pub record: ServiceNFTV,
}

impl View for ServiceEntry {
    type V = ServiceEntryV;

    open spec fn view(&self) -> ServiceEntryV {
        ServiceEntryV { address: self.address@, asset: self.asset@, record: self.record@ }
    }
}

/// An asset as registered with the external registry, at its identity.
pub struct AssetEntry {
    pub address: Pubkey,
    pub record: Asset,
}

#[verifier::ext_equal]
pub struct AssetEntryV {
    pub address: Seq<u8>,
    pub record: AssetV,
}

impl View for AssetEntry {
    type V = AssetEntryV;

    open spec fn view(&self) -> AssetEntryV {
        AssetEntryV { address: self.address@, record: self.record@ }
    }
}

/// One account's native-value balance.
pub struct BalanceEntry {
    pub owner: Pubkey,
    pub lamports: u64,
}

#[verifier::ext_equal]
pub struct BalanceEntryV {
    pub owner: Seq<u8>,
    pub lamports: u64,
}

impl View for BalanceEntry {
    type V = BalanceEntryV;

    open spec fn view(&self) -> BalanceEntryV {
        BalanceEntryV { owner: self.owner@, lamports: self.lamports }
    }
}

/// Everything the host ledger holds on behalf of this program: the
/// marketplace and service records it persists, the assets of the
/// external registry, and the native-value balances.  Each operation is a
/// single indivisible state transition on a `World`: it either commits
/// whole or leaves the world untouched.
pub struct World {
    pub marketplaces: Vec<MarketplaceEntry>,
    pub services: Vec<ServiceEntry>,
    pub assets: Vec<AssetEntry>,
    pub balances: Vec<BalanceEntry>,
}

#[verifier::ext_equal]
pub struct WorldView {
    pub marketplaces: Seq<MarketplaceEntryV>,
    pub services: Seq<ServiceEntryV>,
    pub assets: Seq<AssetEntryV>,
    pub balances: Seq<BalanceEntryV>,
}

impl View for World {
    type V = WorldView;

    open spec fn view(&self) -> WorldView {
        WorldView {
            marketplaces: self.marketplaces@.map_values(|e: MarketplaceEntry| e@),
            services: self.services@.map_values(|e: ServiceEntry| e@),
            assets: self.assets@.map_values(|e: AssetEntry| e@),
            balances: self.balances@.map_values(|e: BalanceEntry| e@),
        }
    }
}

// ---------------------------------------------------------------------
// Lookups over the mathematical ledger.
// ---------------------------------------------------------------------
pub open spec fn has_marketplace(s: Seq<MarketplaceEntryV>, a: Seq<u8>) -> bool {
    exists|i: int| 0 <= i < s.len() && (#[trigger] s[i]).address == a
}

pub open spec fn marketplace_index(s: Seq<MarketplaceEntryV>, a: Seq<u8>) -> int {
    choose|i: int| 0 <= i < s.len() && (#[trigger] s[i]).address == a
}

pub open spec fn marketplace_record(s: Seq<MarketplaceEntryV>, a: Seq<u8>) -> MarketplaceV {
    s[marketplace_index(s, a)].record
}

pub open spec fn has_service(s: Seq<ServiceEntryV>, a: Seq<u8>) -> bool {
    exists|i: int| 0 <= i < s.len() && (#[trigger] s[i]).address == a
}

pub open spec fn service_index(s: Seq<ServiceEntryV>, a: Seq<u8>) -> int {
    choose|i: int| 0 <= i < s.len() && (#[trigger] s[i]).address == a
}

pub open spec fn service_record(s: Seq<ServiceEntryV>, a: Seq<u8>) -> ServiceNFTV {
    s[service_index(s, a)].record
}

pub open spec fn has_asset(s: Seq<AssetEntryV>, a: Seq<u8>) -> bool {
    exists|i: int| 0 <= i < s.len() && (#[trigger] s[i]).address == a
}

pub open spec fn asset_index(s: Seq<AssetEntryV>, a: Seq<u8>) -> int {
    choose|i: int| 0 <= i < s.len() && (#[trigger] s[i]).address == a
}

pub open spec fn asset_record(s: Seq<AssetEntryV>, a: Seq<u8>) -> AssetV {
    s[asset_index(s, a)].record
}

pub open spec fn has_balance(s: Seq<BalanceEntryV>, owner: Seq<u8>) -> bool {
    exists|i: int| 0 <= i < s.len() && (#[trigger] s[i]).owner == owner
}

pub open spec fn balance_index(s: Seq<BalanceEntryV>, owner: Seq<u8>) -> int {
    choose|i: int| 0 <= i < s.len() && (#[trigger] s[i]).owner == owner
}

/// An account that never received value holds zero.
pub open spec fn spec_balance_of(s: Seq<BalanceEntryV>, owner: Seq<u8>) -> u64 {
    if has_balance(s, owner) {
        s[balance_index(s, owner)].lamports
    } else {
        0
    }
}

/// The balance sequence after `owner`'s balance is set to `amount`.
pub open spec fn spec_set_balance(s: Seq<BalanceEntryV>, owner: Seq<u8>, amount: u64) -> Seq<
    BalanceEntryV,
> {
    if has_balance(s, owner) {
        s.update(balance_index(s, owner), BalanceEntryV { owner, lamports: amount })
    } else {
        s.push(BalanceEntryV { owner, lamports: amount })
    }
}

// ---------------------------------------------------------------------
// Well-formedness: every address is 32 bytes and every collection is
// keyed uniquely.
// ---------------------------------------------------------------------
pub open spec fn marketplaces_wf(s: Seq<MarketplaceEntryV>) -> bool {
    &&& forall|i: int|
        0 <= i < s.len() ==> (#[trigger] s[i]).address.len() == 32 && s[i].record.wf()
    &&& forall|i: int, j: int|
        #![trigger s[i].address, s[j].address]
        0 <= i < j < s.len() ==> s[i].address != s[j].address
}

pub open spec fn services_wf(s: Seq<ServiceEntryV>) -> bool {
    &&& forall|i: int|
        0 <= i < s.len() ==> (#[trigger] s[i]).address.len() == 32 && s[i].asset.len() == 32
            && s[i].record.wf()
    &&& forall|i: int, j: int|
        #![trigger s[i].address, s[j].address]
        0 <= i < j < s.len() ==> s[i].address != s[j].address
}

pub open spec fn assets_wf(s: Seq<AssetEntryV>) -> bool {
    &&& forall|i: int| 0 <= i < s.len() ==> (#[trigger] s[i]).address.len() == 32 && s[i].record.wf()
    &&& forall|i: int, j: int|
        #![trigger s[i].address, s[j].address]
        0 <= i < j < s.len() ==> s[i].address != s[j].address
}

pub open spec fn balances_wf(s: Seq<BalanceEntryV>) -> bool {
    &&& forall|i: int| 0 <= i < s.len() ==> (#[trigger] s[i]).owner.len() == 32
    &&& forall|i: int, j: int|
        #![trigger s[i].owner, s[j].owner]
        0 <= i < j < s.len() ==> s[i].owner != s[j].owner
}

impl WorldView {
    pub open spec fn wf(self) -> bool {
        marketplaces_wf(self.marketplaces) && services_wf(self.services) && assets_wf(self.assets)
            && balances_wf(self.balances)
    }
}

// ---------------------------------------------------------------------
// With unique keys, any index whose entry matches is the chosen one.
// ---------------------------------------------------------------------
pub proof fn lemma_marketplace_index(s: Seq<MarketplaceEntryV>, a: Seq<u8>, i: int)
    requires
        marketplaces_wf(s),
        0 <= i < s.len(),
        s[i].address == a,
    ensures
        has_marketplace(s, a),
        marketplace_index(s, a) == i,
{
    assert(has_marketplace(s, a));
    let j = marketplace_index(s, a);
    if i < j {
        assert(s[i].address != s[j].address);
    } else if j < i {
        assert(s[j].address != s[i].address);
    }
}

pub proof fn lemma_service_index(s: Seq<ServiceEntryV>, a: Seq<u8>, i: int)
    requires
        services_wf(s),
        0 <= i < s.len(),
        s[i].address == a,
    ensures
        has_service(s, a),
        service_index(s, a) == i,
{
    assert(has_service(s, a));
    let j = service_index(s, a);
    if i < j {
        assert(s[i].address != s[j].address);
    } else if j < i {
        assert(s[j].address != s[i].address);
    }
}

pub proof fn lemma_asset_index(s: Seq<AssetEntryV>, a: Seq<u8>, i: int)
    requires
        assets_wf(s),
        0 <= i < s.len(),
        s[i].address == a,
    ensures
        has_asset(s, a),
        asset_index(s, a) == i,
{
    assert(has_asset(s, a));
    let j = asset_index(s, a);
    if i < j {
        assert(s[i].address != s[j].address);
    } else if j < i {
        assert(s[j].address != s[i].address);
    }
}

pub proof fn lemma_balance_index(s: Seq<BalanceEntryV>, owner: Seq<u8>, i: int)
    requires
        balances_wf(s),
        0 <= i < s.len(),
        s[i].owner == owner,
    ensures
        has_balance(s, owner),
        balance_index(s, owner) == i,
{
    assert(has_balance(s, owner));
    let j = balance_index(s, owner);
    if i < j {
        assert(s[i].owner != s[j].owner);
    } else if j < i {
        assert(s[j].owner != s[i].owner);
    }
}

// ---------------------------------------------------------------------
// The world and its primitive, atomic mutations.
// ---------------------------------------------------------------------
impl World {
    /// A fresh ledger: no records, no assets, no balances.
    pub fn new() -> (r: World)
        ensures
            r@.wf(),
            r@.marketplaces.len() == 0,
            r@.services.len() == 0,
            r@.assets.len() == 0,
            r@.balances.len() == 0,
    {
        World { marketplaces: Vec::new(), services: Vec::new(), assets: Vec::new(), balances: Vec::new() }
    }

    pub fn find_marketplace(&self, a: &Pubkey) -> (r: Option<usize>)
        ensures
            match r {
                Some(i) => 0 <= i < self@.marketplaces.len() && self@.marketplaces[i as int].address
                    == a@,
                None => !has_marketplace(self@.marketplaces, a@),
            },
    {
        let mut i: usize = 0;
        while i < self.marketplaces.len()
            invariant
                i <= self.marketplaces@.len(),
                forall|j: int| 0 <= j < i ==> (#[trigger] self@.marketplaces[j]).address != a@,
            decreases self.marketplaces@.len() - i,
        {
            if self.marketplaces[i].address.key_eq(a) {
                return Some(i);
            }
            i += 1;
        }
        None
    }

    pub fn find_service(&self, a: &Pubkey) -> (r: Option<usize>)
        ensures
            match r {
                Some(i) => 0 <= i < self@.services.len() && self@.services[i as int].address == a@,
                None => !has_service(self@.services, a@),
            },
    {
        let mut i: usize = 0;
        while i < self.services.len()
            invariant
                i <= self.services@.len(),
                forall|j: int| 0 <= j < i ==> (#[trigger] self@.services[j]).address != a@,
            decreases self.services@.len() - i,
        {
            if self.services[i].address.key_eq(a) {
                return Some(i);
            }
            i += 1;
        }
        None
    }

    pub fn find_asset(&self, a: &Pubkey) -> (r: Option<usize>)
        ensures
            match r {
                Some(i) => 0 <= i < self@.assets.len() && self@.assets[i as int].address == a@,
                None => !has_asset(self@.assets, a@),
            },
    {
        let mut i: usize = 0;
        while i < self.assets.len()
            invariant
                i <= self.assets@.len(),
                forall|j: int| 0 <= j < i ==> (#[trigger] self@.assets[j]).address != a@,
            decreases self.assets@.len() - i,
        {
            if self.assets[i].address.key_eq(a) {
                return Some(i);
            }
            i += 1;
        }
        None
    }

    pub fn find_balance(&self, owner: &Pubkey) -> (r: Option<usize>)
        ensures
            match r {
                Some(i) => 0 <= i < self@.balances.len() && self@.balances[i as int].owner
                    == owner@,
                None => !has_balance(self@.balances, owner@),
            },
    {
        let mut i: usize = 0;
        while i < self.balances.len()
            invariant
                i <= self.balances@.len(),
                forall|j: int| 0 <= j < i ==> (#[trigger] self@.balances[j]).owner != owner@,
            decreases self.balances@.len() - i,
        {
            if self.balances[i].owner.key_eq(owner) {
                return Some(i);
            }
            i += 1;
        }
        None
    }

    /// The native-value balance held by `owner`.
    pub fn balance_of(&self, owner: &Pubkey) -> (r: u64)
        requires
            self@.wf(),
        ensures
            r == spec_balance_of(self@.balances, owner@),
    {
        match self.find_balance(owner) {
            Some(i) => {
                proof {
                    lemma_balance_index(self@.balances, owner@, i as int);
                }
                self.balances[i].lamports
            },
            None => 0,
        }
    }

    /// Set `owner`'s balance to `amount`, leaving everything else alone.
    fn set_balance_entry(&mut self, owner: &Pubkey, amount: u64)
        requires
            old(self)@.wf(),
            owner.wf(),
        ensures
            final(self)@.marketplaces == old(self)@.marketplaces,
            final(self)@.services == old(self)@.services,
            final(self)@.assets == old(self)@.assets,
            final(self)@.balances == spec_set_balance(old(self)@.balances, owner@, amount),
            final(self)@.wf(),
    {
        let ghost old_balances = self@.balances;
        match self.find_balance(owner) {
            Some(i) => {
                proof {
                    lemma_balance_index(self@.balances, owner@, i as int);
                }
                let mut entry = self.balances.remove(i);
                entry.lamports = amount;
                let ghost entry_v = entry@;
                self.balances.insert(i, entry);
                proof {
                    assert(self@.balances =~= old_balances.update(i as int, entry_v));
                    assert(entry_v.owner == owner@);
                    assert(self@.balances =~= spec_set_balance(old_balances, owner@, amount));
                    assert(self@.marketplaces =~= old(self)@.marketplaces);
                    assert(self@.services =~= old(self)@.services);
                    assert(self@.assets =~= old(self)@.assets);
                    assert(balances_wf(self@.balances));
                }
            },
            None => {
                let entry = BalanceEntry { owner: owner.clone(), lamports: amount };
                let ghost entry_v = entry@;
                self.balances.push(entry);
                proof {
                    assert(self@.balances =~= old_balances.push(entry_v));
                    assert(self@.balances =~= spec_set_balance(old_balances, owner@, amount));
                    assert(self@.marketplaces =~= old(self)@.marketplaces);
                    assert(self@.services =~= old(self)@.services);
                    assert(self@.assets =~= old(self)@.assets);
                    assert(balances_wf(self@.balances));
                }
            },
        }
    }
}

// ---------------------------------------------------------------------
// Re-verification of recorded derivation proofs, demanded on every
// reference to a marketplace or service record.
// ---------------------------------------------------------------------
/// A marketplace record supplied by address verifies when it exists and
/// re-derivation from its stored admin and seed yields exactly the
/// supplied address and the stored proof byte.
pub open spec fn marketplace_verifies(s: Seq<MarketplaceEntryV>, a: Seq<u8>) -> bool {
    has_marketplace(s, a) && marketplace_pda(
        marketplace_record(s, a).admin,
        marketplace_record(s, a).seed,
    ) == Some((a, marketplace_record(s, a).bump))
}

/// A service record supplied by address verifies against a claimed
/// marketplace and asset when it exists and re-derivation from the
/// claimed seeds and its stored creator yields exactly the supplied
/// address and the stored proof byte.
pub open spec fn service_verifies(
    s: Seq<ServiceEntryV>,
    svc: Seq<u8>,
    marketplace: Seq<u8>,
    asset: Seq<u8>,
) -> bool {
    has_service(s, svc) && service_pda(marketplace, service_record(s, svc).creator, asset) == Some(
        (svc, service_record(s, svc).bump),
    )
}

impl World {
    /// Re-derive and check the derivation proof of the marketplace record
    /// at `addr`.
    pub fn marketplace_proof_ok(&self, addr: &Pubkey) -> (r: bool)
        requires
            self@.wf(),
            addr.wf(),
        ensures
            r == marketplace_verifies(self@.marketplaces, addr@),
    {
        match self.find_marketplace(addr) {
            None => false,
            Some(i) => {
                proof {
                    lemma_marketplace_index(self@.marketplaces, addr@, i as int);
                }
                let rec = &self.marketplaces[i].record;
                match derive_marketplace_address(&rec.admin, rec.seed) {
                    None => false,
                    Some((a2, b2)) => a2.key_eq(addr) && b2 == rec.bump,
                }
            },
        }
    }

    /// Re-derive and check the derivation proof of the service record at
    /// `svc` against the claimed `marketplace` and `asset`.
    pub fn service_proof_ok(&self, svc: &Pubkey, marketplace: &Pubkey, asset: &Pubkey) -> (r: bool)
        requires
            self@.wf(),
            svc.wf(),
            marketplace.wf(),
            asset.wf(),
        ensures
            r == service_verifies(self@.services, svc@, marketplace@, asset@),
    {
        match self.find_service(svc) {
            None => false,
            Some(i) => {
                proof {
                    lemma_service_index(self@.services, svc@, i as int);
                }
                let rec = &self.services[i].record;
                match derive_service_address(marketplace, &rec.creator, asset) {
                    None => false,
                    Some((a2, b2)) => a2.key_eq(svc) && b2 == rec.bump,
                }
            },
        }
    }
}

// ---------------------------------------------------------------------
// The external collaborators' primitives, modeled as atomic transitions:
// the registry's delegate-checked ownership transfer and the ledger's
// native value transfer.
// ---------------------------------------------------------------------
/// The registry's transfer rule as one atomic step: if `signer` is the
/// recognized delegate of `asset` and the asset is not permanently
/// locked, ownership moves to `new_owner` and a pending soulbound
/// delegate locks forever; otherwise nothing changes and the registry
/// refuses.
pub open spec fn spec_transfer_asset(
    w: WorldView,
    asset: Seq<u8>,
    new_owner: Seq<u8>,
    signer: Seq<u8>,
) -> (WorldView, Result<(), MarketplaceErrors>) {
    if has_asset(w.assets, asset) && transfer_allowed(
        asset_record(w.assets, asset).policy,
        signer,
    ) {
        let i = asset_index(w.assets, asset);
        let old_rec = w.assets[i].record;
        let new_rec = AssetV {
            owner: new_owner,
            name: old_rec.name,
            uri: old_rec.uri,
            policy: after_transfer(old_rec.policy),
            royalty: old_rec.royalty,
            attributes: old_rec.attributes,
        };
        (
            WorldView {
                marketplaces: w.marketplaces,
                services: w.services,
                assets: w.assets.update(i, AssetEntryV { address: asset, record: new_rec }),
                balances: w.balances,
            },
            Ok(()),
        )
    } else {
        (w, Err(MarketplaceErrors::DelegationDenied))
    }
}

/// The ledger's native value transfer: debit `from`, credit `to`, fail
/// without any effect if the debit would overdraw or the credit would
/// overflow.  A self-transfer moves nothing.
pub open spec fn spec_transfer_lamports(
    s: Seq<BalanceEntryV>,
    from: Seq<u8>,
    to: Seq<u8>,
    amount: u64,
) -> (Seq<BalanceEntryV>, Result<(), MarketplaceErrors>) {
    if spec_balance_of(s, from) < amount {
        (s, Err(MarketplaceErrors::ValueTransferFailure))
    } else if from == to {
        (s, Ok(()))
    } else if spec_balance_of(s, to) + amount > u64::MAX {
        (s, Err(MarketplaceErrors::ValueTransferFailure))
    } else {
        (
            spec_set_balance(
                spec_set_balance(s, from, (spec_balance_of(s, from) - amount) as u64),
                to,
                (spec_balance_of(s, to) + amount) as u64,
            ),
            Ok(()),
        )
    }
}

/// Crediting an account from outside the marketplace: the host's way of
/// giving a participant native value to spend.
pub open spec fn spec_fund(w: WorldView, owner: Seq<u8>, amount: u64) -> (
    WorldView,
    Result<(), MarketplaceErrors>,
) {
    if spec_balance_of(w.balances, owner) + amount > u64::MAX {
        (w, Err(MarketplaceErrors::ValueTransferFailure))
    } else {
        (
            WorldView {
                marketplaces: w.marketplaces,
                services: w.services,
                assets: w.assets,
                balances: spec_set_balance(
                    w.balances,
                    owner,
                    (spec_balance_of(w.balances, owner) + amount) as u64,
                ),
            },
            Ok(()),
        )
    }
}

impl World {
    /// One authorized ownership transfer, exactly as the external
    /// registry would perform it.
    pub fn transfer_asset(&mut self, asset: &Pubkey, new_owner: &Pubkey, signer: &Pubkey) -> (r:
        Result<(), MarketplaceErrors>)
        requires
            old(self)@.wf(),
            asset.wf(),
            new_owner.wf(),
            signer.wf(),
        ensures
            final(self)@ == spec_transfer_asset(old(self)@, asset@, new_owner@, signer@).0,
            r == spec_transfer_asset(old(self)@, asset@, new_owner@, signer@).1,
            final(self)@.wf(),
    {
        let idx_opt = self.find_asset(asset);
        match idx_opt {
            None => Err(MarketplaceErrors::DelegationDenied),
            Some(i) => {
                proof {
                    lemma_asset_index(self@.assets, asset@, i as int);
                }
                if !self.assets[i].record.policy.allows(signer) {
                    Err(MarketplaceErrors::DelegationDenied)
                } else {
                    let ghost old_assets = self@.assets;
                    let mut entry = self.assets.remove(i);
                    let p = entry.record.policy.stepped();
                    entry.record.policy = p;
                    entry.record.owner = new_owner.clone();
                    let ghost entry_v = entry@;
                    self.assets.insert(i, entry);
                    proof {
                        assert(self@.assets =~= old_assets.update(i as int, entry_v));
                        assert(self@ =~= spec_transfer_asset(old(self)@, asset@, new_owner@, signer@).0);
                        assert(assets_wf(self@.assets));
                    }
                    Ok(())
                }
            },
        }
    }

    /// One native value transfer, exactly as the ledger's primitive
    /// would perform it.
    pub fn transfer_lamports(&mut self, from: &Pubkey, to: &Pubkey, amount: u64) -> (r: Result<
        (),
        MarketplaceErrors,
    >)
        requires
            old(self)@.wf(),
            from.wf(),
            to.wf(),
        ensures
            final(self)@.marketplaces == old(self)@.marketplaces,
            final(self)@.services == old(self)@.services,
            final(self)@.assets == old(self)@.assets,
            final(self)@.balances == spec_transfer_lamports(
                old(self)@.balances,
                from@,
                to@,
                amount,
            ).0,
            r == spec_transfer_lamports(old(self)@.balances, from@, to@, amount).1,
            final(self)@.wf(),
    {
        let bf = self.balance_of(from);
        if bf < amount {
            return Err(MarketplaceErrors::ValueTransferFailure);
        }
        if from.key_eq(to) {
            return Ok(());
        }
        let bt = self.balance_of(to);
        if bt > u64::MAX - amount {
            return Err(MarketplaceErrors::ValueTransferFailure);
        }
        self.set_balance_entry(from, bf - amount);
        self.set_balance_entry(to, bt + amount);
        proof {
            assert(spec_balance_of(old(self)@.balances, to@) == bt);
        }
        Ok(())
    }

    /// The marketplace record at `addr`, if one exists.
    pub fn marketplace_at(&self, addr: &Pubkey) -> (r: Option<Marketplace>)
        requires
            self@.wf(),
        ensures
            match r {
                Some(m) => has_marketplace(self@.marketplaces, addr@) && m@ == marketplace_record(
                    self@.marketplaces,
                    addr@,
                ),
                None => !has_marketplace(self@.marketplaces, addr@),
            },
    {
        match self.find_marketplace(addr) {
            None => None,
            Some(i) => {
                proof {
                    lemma_marketplace_index(self@.marketplaces, addr@, i as int);
                }
                Some(self.marketplaces[i].record.clone())
            },
        }
    }

    /// The service record at `addr`, if one exists.
    pub fn service_at(&self, addr: &Pubkey) -> (r: Option<ServiceNFT>)
        requires
            self@.wf(),
        ensures
            match r {
                Some(s) => has_service(self@.services, addr@) && s@ == service_record(
                    self@.services,
                    addr@,
                ),
                None => !has_service(self@.services, addr@),
            },
    {
        match self.find_service(addr) {
            None => None,
            Some(i) => {
                proof {
                    lemma_service_index(self@.services, addr@, i as int);
                }
                Some(self.services[i].record.clone())
            },
        }
    }

    /// The current owner of `asset`, if it is registered.
    pub fn asset_owner(&self, asset: &Pubkey) -> (r: Option<Pubkey>)
        requires
            self@.wf(),
        ensures
            match r {
                Some(o) => has_asset(self@.assets, asset@) && o@ == asset_record(
                    self@.assets,
                    asset@,
                ).owner,
                None => !has_asset(self@.assets, asset@),
            },
    {
        match self.find_asset(asset) {
            None => None,
            Some(i) => {
                proof {
                    lemma_asset_index(self@.assets, asset@, i as int);
                }
                Some(self.assets[i].record.owner.clone())
            },
        }
    }

    /// The delegate authority the registry recognizes for `asset`, if it
    /// is registered.
    pub fn asset_authority(&self, asset: &Pubkey) -> (r: Option<Pubkey>)
        requires
            self@.wf(),
        ensures
            match r {
                Some(o) => has_asset(self@.assets, asset@) && o@ == asset_record(
                    self@.assets,
                    asset@,
                ).policy.authority(),
                None => !has_asset(self@.assets, asset@),
            },
    {
        match self.find_asset(asset) {
            None => None,
            Some(i) => {
                proof {
                    lemma_asset_index(self@.assets, asset@, i as int);
                }
                Some(self.assets[i].record.policy.authority_key())
            },
        }
    }

    /// Whether `asset` carries the permanent (soulbound) delegate, if it
    /// is registered.
    pub fn asset_is_soulbound(&self, asset: &Pubkey) -> (r: Option<bool>)
        requires
            self@.wf(),
        ensures
            match r {
                Some(b) => has_asset(self@.assets, asset@) && b == asset_record(
                    self@.assets,
                    asset@,
                ).policy.is_soulbound(),
                None => !has_asset(self@.assets, asset@),
            },
    {
        match self.find_asset(asset) {
            None => None,
            Some(i) => {
                proof {
                    lemma_asset_index(self@.assets, asset@, i as int);
                }
                match &self.assets[i].record.policy {
                    crate::asset::AssetPolicy::Transferable { authority: _ } => Some(false),
                    crate::asset::AssetPolicy::SoulboundPending { authority: _ } => Some(true),
                    crate::asset::AssetPolicy::SoulboundLocked { authority: _ } => Some(true),
                }
            },
        }
    }

    /// Whether `asset` is permanently locked against any further
    /// transfer, if it is registered.
    pub fn asset_is_locked(&self, asset: &Pubkey) -> (r: Option<bool>)
        requires
            self@.wf(),
        ensures
            match r {
                Some(b) => has_asset(self@.assets, asset@) && b == (asset_record(
                    self@.assets,
                    asset@,
                ).policy is SoulboundLocked),
                None => !has_asset(self@.assets, asset@),
            },
    {
        match self.find_asset(asset) {
            None => None,
            Some(i) => {
                proof {
                    lemma_asset_index(self@.assets, asset@, i as int);
                }
                match &self.assets[i].record.policy {
                    crate::asset::AssetPolicy::Transferable { authority: _ } => Some(false),
                    crate::asset::AssetPolicy::SoulboundPending { authority: _ } => Some(false),
                    crate::asset::AssetPolicy::SoulboundLocked { authority: _ } => Some(true),
                }
            },
        }
    }

    /// Credit `owner` with `amount` fresh native value.
    pub fn fund(&mut self, owner: &Pubkey, amount: u64) -> (r: Result<(), MarketplaceErrors>)
        requires
            old(self)@.wf(),
            owner.wf(),
        ensures
            final(self)@ == spec_fund(old(self)@, owner@, amount).0,
            r == spec_fund(old(self)@, owner@, amount).1,
            final(self)@.wf(),
    {
        let current = self.balance_of(owner);
        if current > u64::MAX - amount {
            return Err(MarketplaceErrors::ValueTransferFailure);
        }
        self.set_balance_entry(owner, current + amount);
        proof {
            assert(self@ =~= spec_fund(old(self)@, owner@, amount).0);
        }
        Ok(())
    }
}

} // verus!
