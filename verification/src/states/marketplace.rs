use vstd::prelude::*;

use crate::pubkey::Pubkey;

verus! {

/// A marketplace namespace record: who administers it and under which
/// 64-bit discriminator its address was derived, together with the
/// single-byte derivation proof recorded at creation.  Immutable once
/// created.
pub struct Marketplace {
    pub admin: Pubkey,
    pub seed: u64,
    pub bump: u8,
}

/// The mathematical value of a [`Marketplace`] record.
#[verifier::ext_equal]
pub struct MarketplaceV {
    pub admin: Seq<u8>,
    pub seed: u64,
    pub bump: u8,
}

impl View for Marketplace {
    type V = MarketplaceV;

    open spec fn view(&self) -> MarketplaceV {
        MarketplaceV { admin: self.admin@, seed: self.seed, bump: self.bump }
    }
}

impl MarketplaceV {
    pub open spec fn wf(self) -> bool {
        self.admin.len() == 32
    }
}

impl Clone for Marketplace {
    fn clone(&self) -> (r: Self)
        ensures
            r@ == self@,
    {
        Marketplace { admin: self.admin.clone(), seed: self.seed, bump: self.bump }
    }
}

} // verus!
