use vstd::prelude::*;

use crate::pubkey::Pubkey;

verus! {

/// The transfer capability attached to an asset when it is registered.
/// The choice between the ordinary and the permanent (soulbound) delegate
/// is made exactly once, at registration, and is irrevocable; the
/// soulbound side is a one-way machine that ends permanently locked.
pub enum AssetPolicy {
    /// An ordinary, revocable transfer delegate: the named authority may
    /// authorize any number of ownership transfers.
    Transferable { authority: Pubkey },
    /// The permanent transfer-and-freeze delegate before the sale: the
    /// named authority may authorize exactly one more transfer, after
    /// which the asset locks forever.
    SoulboundPending { authority: Pubkey },
    /// The permanent freeze after a soulbound sale: no one, the named
    /// authority included, may transfer the asset again.
    SoulboundLocked { authority: Pubkey },
}

/// The mathematical value of an [`AssetPolicy`].
#[verifier::ext_equal]
pub enum AssetPolicyV {
    Transferable { authority: Seq<u8> },
    SoulboundPending { authority: Seq<u8> },
    SoulboundLocked { authority: Seq<u8> },
}

impl View for AssetPolicy {
    type V = AssetPolicyV;

    open spec fn view(&self) -> AssetPolicyV {
        match self {
            AssetPolicy::Transferable { authority } => AssetPolicyV::Transferable {
                authority: authority@,
            },
            AssetPolicy::SoulboundPending { authority } => AssetPolicyV::SoulboundPending {
                authority: authority@,
            },
            AssetPolicy::SoulboundLocked { authority } => AssetPolicyV::SoulboundLocked {
                authority: authority@,
            },
        }
    }
}

impl AssetPolicyV {
    /// The delegate authority the registry recognizes for this asset.
    /// It never changes for the lifetime of the asset.
    pub open spec fn authority(self) -> Seq<u8> {
        match self {
            AssetPolicyV::Transferable { authority } => authority,
            AssetPolicyV::SoulboundPending { authority } => authority,
            AssetPolicyV::SoulboundLocked { authority } => authority,
        }
    }

    /// Whether the asset carries the permanent (soulbound) delegate.
    pub open spec fn is_soulbound(self) -> bool {
        !(self is Transferable)
    }

    pub open spec fn wf(self) -> bool {
        self.authority().len() == 32
    }
}

/// Whether the registry lets `signer` authorize an ownership transfer of
/// an asset under policy `p`: the signer must be the registered delegate
/// authority, and a soulbound asset that has been sold refuses everyone.
pub open spec fn transfer_allowed(p: AssetPolicyV, signer: Seq<u8>) -> bool {
    match p {
        AssetPolicyV::Transferable { authority } => signer == authority,
        AssetPolicyV::SoulboundPending { authority } => signer == authority,
        AssetPolicyV::SoulboundLocked { authority: _ } => false,
    }
}

/// The policy after one authorized transfer: the ordinary delegate
/// survives unchanged, the pending soulbound delegate locks forever.
pub open spec fn after_transfer(p: AssetPolicyV) -> AssetPolicyV {
    match p {
        AssetPolicyV::Transferable { authority } => AssetPolicyV::Transferable { authority },
        AssetPolicyV::SoulboundPending { authority } => AssetPolicyV::SoulboundLocked { authority },
        AssetPolicyV::SoulboundLocked { authority } => AssetPolicyV::SoulboundLocked { authority },
    }
}

impl AssetPolicy {
    /// Whether the registry lets `signer` authorize a transfer under this
    /// policy.
    pub fn allows(&self, signer: &Pubkey) -> (r: bool)
        ensures
            r == transfer_allowed(self@, signer@),
    {
        match self {
            AssetPolicy::Transferable { authority } => signer.key_eq(authority),
            AssetPolicy::SoulboundPending { authority } => signer.key_eq(authority),
            AssetPolicy::SoulboundLocked { authority: _ } => false,
        }
    }

    /// The delegate authority the registry recognizes.
    pub fn authority_key(&self) -> (r: Pubkey)
        ensures
            r@ == self@.authority(),
    {
        match self {
            AssetPolicy::Transferable { authority } => authority.clone(),
            AssetPolicy::SoulboundPending { authority } => authority.clone(),
            AssetPolicy::SoulboundLocked { authority } => authority.clone(),
        }
    }

    /// The policy after one authorized transfer.
    pub fn stepped(&self) -> (r: AssetPolicy)
        ensures
            r@ == after_transfer(self@),
    {
        match self {
            AssetPolicy::Transferable { authority } => AssetPolicy::Transferable {
                authority: authority.clone(),
            },
            AssetPolicy::SoulboundPending { authority } => AssetPolicy::SoulboundLocked {
                authority: authority.clone(),
            },
            AssetPolicy::SoulboundLocked { authority } => AssetPolicy::SoulboundLocked {
                authority: authority.clone(),
            },
        }
    }
}

impl Clone for AssetPolicy {
    fn clone(&self) -> (r: Self)
        ensures
            r@ == self@,
    {
        match self {
            AssetPolicy::Transferable { authority } => AssetPolicy::Transferable {
                authority: authority.clone(),
            },
            AssetPolicy::SoulboundPending { authority } => AssetPolicy::SoulboundPending {
                authority: authority.clone(),
            },
            AssetPolicy::SoulboundLocked { authority } => AssetPolicy::SoulboundLocked {
                authority: authority.clone(),
            },
        }
    }
}

/// Advisory royalty terms attached to an asset at registration: the whole
/// royalty share is assigned to one recipient, at `basis_points` out of
/// 10,000, with no enforced rule set.
pub struct Royalty {
    pub recipient: Pubkey,
    pub percentage: u8,
    pub basis_points: u16,
}

/// The mathematical value of a [`Royalty`].
#[verifier::ext_equal]
pub struct RoyaltyV {
    pub recipient: Seq<u8>,
    pub percentage: u8,
    pub basis_points: u16,
}

impl View for Royalty {
    type V = RoyaltyV;

    open spec fn view(&self) -> RoyaltyV {
        RoyaltyV {
            recipient: self.recipient@,
            percentage: self.percentage,
            basis_points: self.basis_points,
        }
    }
}

/// One free-form key/value pair of asset metadata, carried but never
/// interpreted.
pub struct ServiceAttribute {
    pub key: String,
    pub value: String,
}

/// The mathematical value of a [`ServiceAttribute`].
#[verifier::ext_equal]
pub struct ServiceAttributeV {
    pub key: Seq<char>,
    pub value: Seq<char>,
}

impl View for ServiceAttribute {
    type V = ServiceAttributeV;

    open spec fn view(&self) -> ServiceAttributeV {
        ServiceAttributeV { key: self.key@, value: self.value@ }
    }
}

/// An externally registered asset as the registry holds it: its current
/// owner, its display metadata, its transfer policy, its royalty terms
/// and its free-form attributes.
pub struct Asset {
    pub owner: Pubkey,
    pub name: String,
    pub uri: String,
    pub policy: AssetPolicy,
    pub royalty: Royalty,
    pub attributes: Vec<ServiceAttribute>,
}

/// The mathematical value of an [`Asset`].
#[verifier::ext_equal]
pub struct AssetV {
    pub owner: Seq<u8>,
    pub name: Seq<char>,
    pub uri: Seq<char>,
    pub policy: AssetPolicyV,
    pub royalty: RoyaltyV,
    pub attributes: Seq<ServiceAttributeV>,
}

impl View for Asset {
    type V = AssetV;

    open spec fn view(&self) -> AssetV {
        AssetV {
            owner: self.owner@,
            name: self.name@,
            uri: self.uri@,
            policy: self.policy@,
            royalty: self.royalty@,
            attributes: self.attributes@.map_values(|a: ServiceAttribute| a@),
        }
    }
}

impl AssetV {
    pub open spec fn wf(self) -> bool {
        self.owner.len() == 32 && self.policy.wf() && self.royalty.recipient.len() == 32
    }
}

} // verus!
