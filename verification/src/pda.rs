use vstd::prelude::*;

use crate::pubkey::Pubkey;

verus! {

/// The result of the host's program-derived-address search for a given
/// program id and seed list: `Some((address, proof))` when a valid derived
/// address exists, `None` otherwise.  The search is a pure function of its
/// inputs (a SHA-256 hash over the seeds, a proof byte and the program id),
/// so the whole outcome carries a name and nothing more is assumed of it.
pub uninterp spec fn pda_of(program_id: Seq<u8>, seeds: Seq<Seq<u8>>) -> Option<(Seq<u8>, u8)>;

/// Relies on `Pubkey::try_find_program_address` of the Solana runtime that
/// `anchor_lang` re-exports: for a fixed program id and seed list it
/// deterministically either finds a 32-byte derived address together with
/// its single-byte proof, or reports that none exists; it never panics.
#[verifier::external_body]
fn host_find_program_address(seeds: &Vec<Vec<u8>>, program_id: &Vec<u8>) -> (r: Option<
    (Vec<u8>, u8),
>)
    requires
        program_id@.len() == 32,
    ensures
        (match r {
            Some(p) => Some((p.0@, p.1)),
            None => None::<(Seq<u8>, u8)>,
        }) == pda_of(program_id@, seeds@.map_values(|s: Vec<u8>| s@)),
        r matches Some(p) ==> p.0@.len() == 32,
{
    let pid = anchor_lang::solana_program::pubkey::Pubkey::new_from_array(
        program_id.as_slice().try_into().unwrap(),
    );
    let seed_slices: Vec<&[u8]> = seeds.iter().map(|s| s.as_slice()).collect();
    anchor_lang::solana_program::pubkey::Pubkey::try_find_program_address(&seed_slices, &pid)
        .map(|(a, b)| (a.to_bytes().to_vec(), b))
}

/// The fixed identity under which the host runs this program; every
/// derived address is scoped to it.
pub open spec fn spec_program_id() -> Seq<u8> {
    seq![
        124u8, 244, 200, 187, 44, 167, 51, 188, 181, 115, 185, 162, 249, 164, 27, 138, 15, 157,
        165, 239, 151, 165, 122, 94, 40, 47, 217, 90, 123, 90, 185, 24,
    ]
}

/// The domain tag of marketplace records: the bytes of `"marketplace"`.
pub open spec fn spec_marketplace_tag() -> Seq<u8> {
    seq![0x6du8, 0x61, 0x72, 0x6b, 0x65, 0x74, 0x70, 0x6c, 0x61, 0x63, 0x65]
}

/// The domain tag of service records: the bytes of `"service"`.
pub open spec fn spec_service_tag() -> Seq<u8> {
    seq![0x73u8, 0x65, 0x72, 0x76, 0x69, 0x63, 0x65]
}

pub fn program_id() -> (r: Vec<u8>)
    ensures
        r@ == spec_program_id(),
        r@.len() == 32,
{
    let mut v: Vec<u8> = Vec::new();
    v.push(124);
    v.push(244);
    v.push(200);
    v.push(187);
    v.push(44);
    v.push(167);
    v.push(51);
    v.push(188);
    v.push(181);
    v.push(115);
    v.push(185);
    v.push(162);
    v.push(249);
    v.push(164);
    v.push(27);
    v.push(138);
    v.push(15);
    v.push(157);
    v.push(165);
    v.push(239);
    v.push(151);
    v.push(165);
    v.push(122);
    v.push(94);
    v.push(40);
    v.push(47);
    v.push(217);
    v.push(90);
    v.push(123);
    v.push(90);
    v.push(185);
    v.push(24);
    proof {
        assert(v@ =~= spec_program_id());
    }
    v
}

pub fn marketplace_tag() -> (r: Vec<u8>)
    ensures
        r@ == spec_marketplace_tag(),
{
    let mut v: Vec<u8> = Vec::new();
    v.push(0x6d);
    v.push(0x61);
    v.push(0x72);
    v.push(0x6b);
    v.push(0x65);
    v.push(0x74);
    v.push(0x70);
    v.push(0x6c);
    v.push(0x61);
    v.push(0x63);
    v.push(0x65);
    proof {
        assert(v@ =~= spec_marketplace_tag());
    }
    v
}

pub fn service_tag() -> (r: Vec<u8>)
    ensures
        r@ == spec_service_tag(),
{
    let mut v: Vec<u8> = Vec::new();
    v.push(0x73);
    v.push(0x65);
    v.push(0x72);
    v.push(0x76);
    v.push(0x69);
    v.push(0x63);
    v.push(0x65);
    proof {
        assert(v@ =~= spec_service_tag());
    }
    v
}

/// The seed list from which a marketplace record's address is derived:
/// the domain tag, the admin's identity, and the admin-chosen 64-bit
/// discriminator in little-endian bytes.
pub open spec fn marketplace_seeds(admin: Seq<u8>, seed: u64) -> Seq<Seq<u8>> {
    seq![spec_marketplace_tag(), admin, vstd::bytes::spec_u64_to_le_bytes(seed)]
}

/// The derived address and proof of the marketplace record of
/// `(admin, seed)`.
pub open spec fn marketplace_pda(admin: Seq<u8>, seed: u64) -> Option<(Seq<u8>, u8)> {
    pda_of(spec_program_id(), marketplace_seeds(admin, seed))
}

/// The seed list from which a service record's address is derived: the
/// domain tag, the owning marketplace's address, the creator's identity,
/// and the bound asset's identity.
pub open spec fn service_seeds(marketplace: Seq<u8>, creator: Seq<u8>, asset: Seq<u8>) -> Seq<
    Seq<u8>,
> {
    seq![spec_service_tag(), marketplace, creator, asset]
}

/// The derived address and proof of the service record of
/// `(marketplace, creator, asset)`.
pub open spec fn service_pda(marketplace: Seq<u8>, creator: Seq<u8>, asset: Seq<u8>) -> Option<
    (Seq<u8>, u8),
> {
    pda_of(spec_program_id(), service_seeds(marketplace, creator, asset))
}

/// Derive the deterministic address and proof byte of the marketplace
/// record owned by `admin` under discriminator `seed`.
pub fn derive_marketplace_address(admin: &Pubkey, seed: u64) -> (r: Option<(Pubkey, u8)>)
    requires
        admin.wf(),
    ensures
        (match r {
            Some(p) => Some((p.0@, p.1)),
            None => None::<(Seq<u8>, u8)>,
        }) == marketplace_pda(admin@, seed),
        r matches Some(p) ==> p.0.wf(),
{
    let mut seeds: Vec<Vec<u8>> = Vec::new();
    seeds.push(marketplace_tag());
    seeds.push(admin.clone().bytes);
    seeds.push(vstd::bytes::u64_to_le_bytes(seed));
    proof {
        assert(seeds@.map_values(|s: Vec<u8>| s@) =~= marketplace_seeds(admin@, seed));
    }
    let pid = program_id();
    match host_find_program_address(&seeds, &pid) {
        Some((addr, proof_byte)) => Some((Pubkey::new(addr), proof_byte)),
        None => None,
    }
}

/// Derive the deterministic address and proof byte of the service record
/// binding `asset`, listed by `creator` under `marketplace`.
pub fn derive_service_address(marketplace: &Pubkey, creator: &Pubkey, asset: &Pubkey) -> (r: Option<
    (Pubkey, u8),
>)
    requires
        marketplace.wf(),
        creator.wf(),
        asset.wf(),
    ensures
        (match r {
            Some(p) => Some((p.0@, p.1)),
            None => None::<(Seq<u8>, u8)>,
        }) == service_pda(marketplace@, creator@, asset@),
        r matches Some(p) ==> p.0.wf(),
{
    let mut seeds: Vec<Vec<u8>> = Vec::new();
    seeds.push(service_tag());
    seeds.push(marketplace.clone().bytes);
    seeds.push(creator.clone().bytes);
    seeds.push(asset.clone().bytes);
    proof {
        assert(seeds@.map_values(|s: Vec<u8>| s@) =~= service_seeds(marketplace@, creator@, asset@));
    }
    let pid = program_id();
    match host_find_program_address(&seeds, &pid) {
        Some((addr, proof_byte)) => Some((Pubkey::new(addr), proof_byte)),
        None => None,
    }
}

} // verus!
