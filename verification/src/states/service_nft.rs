use vstd::prelude::*;

use crate::pubkey::Pubkey;

verus! {

/// A service listing record: the namespace it belongs to, who is paid on
/// purchase, the listed price, whether the bound asset is permanently
/// non-transferable after sale, and the single-byte derivation proof
/// recorded at creation.  Immutable once created; it survives every
/// purchase as a historical record.
pub struct ServiceNFT {
    pub marketplace: Pubkey,
    pub creator: Pubkey,
    pub price: u64,
    pub is_soulbound: bool,
    pub bump: u8,
}

/// The mathematical value of a [`ServiceNFT`] record.
#[verifier::ext_equal]
pub struct ServiceNFTV {
    pub marketplace: Seq<u8>,
    pub creator: Seq<u8>,
    pub price: u64,
    pub is_soulbound: bool,
    pub bump: u8,
}

impl View for ServiceNFT {
    type V = ServiceNFTV;

    open spec fn view(&self) -> ServiceNFTV {
        ServiceNFTV {
            marketplace: self.marketplace@,
            creator: self.creator@,
            price: self.price,
            is_soulbound: self.is_soulbound,
            bump: self.bump,
        }
    }
}

impl ServiceNFTV {
    pub open spec fn wf(self) -> bool {
        self.marketplace.len() == 32 && self.creator.len() == 32
    }
}

impl Clone for ServiceNFT {
    fn clone(&self) -> (r: Self)
        ensures
            r@ == self@,
    {
        ServiceNFT {
            marketplace: self.marketplace.clone(),
            creator: self.creator.clone(),
            price: self.price,
            is_soulbound: self.is_soulbound,
            bump: self.bump,
        }
    }
}

} // verus!
