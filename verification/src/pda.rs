//! Derivation of the reserve's keyless controlling authority.
//!
//! The authority is a program-derived address: a deterministic value of the
//! seed label, the State Record's address, and the program's own identity.
//! Only the program, presenting those inputs to the environment's
//! derivation-signing facility, can sign as it. The derivation itself is the
//! environment's hash construction; here it is named, not restated.

use vstd::prelude::*;
use crate::addr::Address;

verus! {

/// What `Pubkey::try_find_program_address` returns for given seeds and
/// program id: the first bump, searched downward from 255, whose derived
/// address is valid, with that address; `None` when no bump works. A pure
/// function of its arguments, identical on every machine.
pub uninterp spec fn pda_from_seeds(seeds: Seq<Seq<u8>>, program_id: Seq<u8>) -> Option<
    (Seq<u8>, u8),
>;

/// What `Pubkey::create_program_address` returns for given seeds and
/// program id: the derived address, or `None` when the seeds are over the
/// limits or the hash lands on the curve. A pure function of its arguments.
pub uninterp spec fn pda_with_bump(seeds: Seq<Seq<u8>>, program_id: Seq<u8>) -> Option<Seq<u8>>;

/// Relies on `solana_pubkey::Pubkey::try_find_program_address`: the result
/// depends on the seeds and the program id alone, and when it returns a
/// pair, `create_program_address` on the same seeds plus the bump returns
/// the same address — the function searches bumps by exactly that call.
#[verifier::external_body]
fn try_find_program_address_raw(seeds: &Vec<Vec<u8>>, program_id: &Address) -> (r: Option<
    (Address, u8),
>)
    ensures
        (match r {
            Some(p) => pda_from_seeds(seeds.deep_view(), program_id@) == Some((p.0@, p.1))
                && pda_with_bump(seeds.deep_view().push(seq![p.1]), program_id@) == Some(p.0@)
                && p.0@.len() == 32,
            None => pda_from_seeds(seeds.deep_view(), program_id@) is None,
        }),
{
    let refs: Vec<&[u8]> = seeds.iter().map(|v| v.as_slice()).collect();
    let pid = solana_pubkey::Pubkey::new_from_array(program_id.bytes);
    solana_pubkey::Pubkey::try_find_program_address(&refs, &pid).map(
        |p: (solana_pubkey::Pubkey, u8)| (Address { bytes: p.0.to_bytes() }, p.1),
    )
}

/// Relies on `solana_pubkey::Pubkey::create_program_address`: the result
/// depends on the seeds and the program id alone; an error (seeds over the
/// limits, or a hash on the curve) is handed back as `None`.
#[verifier::external_body]
fn create_program_address_raw(seeds: &Vec<Vec<u8>>, program_id: &Address) -> (r: Option<Address>)
    ensures
        (match r {
            Some(a) => pda_with_bump(seeds.deep_view(), program_id@) == Some(a@) && a@.len() == 32,
            None => pda_with_bump(seeds.deep_view(), program_id@) is None,
        }),
{
    let refs: Vec<&[u8]> = seeds.iter().map(|v| v.as_slice()).collect();
    let pid = solana_pubkey::Pubkey::new_from_array(program_id.bytes);
    solana_pubkey::Pubkey::create_program_address(&refs, &pid).ok().map(
        |a: solana_pubkey::Pubkey| Address { bytes: a.to_bytes() },
    )
}

/// The fixed domain-separation label of the reserve authority: "storage".
pub open spec fn authority_seed_label() -> Seq<u8> {
    seq![115u8, 116u8, 111u8, 114u8, 97u8, 103u8, 101u8]
}

/// The seeds the authority is searched from: the label and the record's
/// address.
pub open spec fn authority_seeds(state_key: Seq<u8>) -> Seq<Seq<u8>> {
    seq![authority_seed_label(), state_key]
}

/// The full seeds of a recorded derivation: label, record address, bump.
pub open spec fn authority_seeds_with_bump(state_key: Seq<u8>, bump: u8) -> Seq<Seq<u8>> {
    seq![authority_seed_label(), state_key, seq![bump]]
}

/// The label as a value: "storage".
fn seed_label_vec() -> (r: Vec<u8>)
    ensures
        r@ == authority_seed_label(),
{
    let mut v: Vec<u8> = Vec::new();
    v.push(115u8);
    v.push(116u8);
    v.push(111u8);
    v.push(114u8);
    v.push(97u8);
    v.push(103u8);
    v.push(101u8);
    proof {
        assert(v@ =~= authority_seed_label());
    }
    v
}

/// An address's bytes as a seed.
fn key_bytes_vec(a: &Address) -> (r: Vec<u8>)
    ensures
        r@ == a@,
{
    let mut v: Vec<u8> = Vec::new();
    let mut i: usize = 0;
    while i < 32
        invariant
            i <= 32,
            v@.len() == i,
            forall|j: int| 0 <= j < i ==> v@[j] == a.bytes[j],
        decreases 32 - i,
    {
        v.push(a.bytes[i]);
        i += 1;
    }
    proof {
        assert(v@ =~= a@);
    }
    v
}

/// Derive the reserve's controlling authority for a record at `state_key`,
/// returning the address and the bump that re-derives it.
pub fn derive_reserve_authority(state_key: &Address, program_id: &Address) -> (r: Option<
    (Address, u8),
>)
    ensures
        (match r {
            Some(p) => pda_from_seeds(authority_seeds(state_key@), program_id@) == Some(
                (p.0@, p.1),
            ) && pda_with_bump(authority_seeds_with_bump(state_key@, p.1), program_id@) == Some(
                p.0@,
            ) && p.0@.len() == 32,
            None => pda_from_seeds(authority_seeds(state_key@), program_id@) is None,
        }),
{
    let mut seeds: Vec<Vec<u8>> = Vec::new();
    seeds.push(seed_label_vec());
    seeds.push(key_bytes_vec(state_key));
    proof {
        assert(seeds.deep_view() =~~= authority_seeds(state_key@));
    }
    let r = try_find_program_address_raw(&seeds, program_id);
    proof {
        if let Some(p) = r {
            assert(seeds.deep_view().push(seq![p.1]) =~~= authority_seeds_with_bump(
                state_key@,
                p.1,
            ));
        }
    }
    r
}

/// Re-derive the authority from the recorded bump: the check every signed
/// transfer rests on.
pub fn reserve_authority_with_bump(state_key: &Address, bump: u8, program_id: &Address) -> (r:
    Option<Address>)
    ensures
        (match r {
            Some(a) => pda_with_bump(authority_seeds_with_bump(state_key@, bump), program_id@)
                == Some(a@) && a@.len() == 32,
            None => pda_with_bump(authority_seeds_with_bump(state_key@, bump), program_id@)
                is None,
        }),
{
    let mut seeds: Vec<Vec<u8>> = Vec::new();
    seeds.push(seed_label_vec());
    seeds.push(key_bytes_vec(state_key));
    let mut bump_seed: Vec<u8> = Vec::new();
    bump_seed.push(bump);
    seeds.push(bump_seed);
    proof {
        assert(seeds.deep_view() =~~= authority_seeds_with_bump(state_key@, bump));
    }
    create_program_address_raw(&seeds, program_id)
}

} // verus!
