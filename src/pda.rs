use vstd::prelude::*;
use crate::pubkey::{Pubkey, key_of, lemma_key_of};

verus! {

/// What `Pubkey::try_find_program_address` yields for these seeds and
/// program id: the program-derived address of the highest bump seed that
/// lands off the ed25519 curve, or none.
pub uninterp spec fn program_address(seeds: Seq<Seq<u8>>, program_id: Seq<u8>) -> Option<Seq<u8>>;

pub open spec fn seeds_view(seeds: Seq<Vec<u8>>) -> Seq<Seq<u8>> {
    seeds.map_values(|s: Vec<u8>| s@)
}

pub open spec fn key_view(k: Option<Pubkey>) -> Option<Seq<u8>> {
    match k {
        Some(k) => Some(k@),
        None => None,
    }
}

/// The address derived from `seeds` under `program_id`, if there is one.
pub open spec fn derived_key(seeds: Seq<Seq<u8>>, program_id: Seq<u8>) -> Option<Pubkey> {
    match program_address(seeds, program_id) {
        Some(s) => Some(key_of(s)),
        None => None,
    }
}

/// Relies on anchor_lang's `Pubkey::try_find_program_address` (a SHA-256
/// digest of the seeds, a bump seed and the program id, searched downward
/// from bump 255 for a point off the curve): its result depends on the seeds
/// and the program id alone, and it does not panic.
#[verifier::external_body]
fn try_find_program_address(seeds: &Vec<Vec<u8>>, program_id: &Pubkey) -> (r: Option<Pubkey>)
    ensures
        key_view(r) == program_address(seeds_view(seeds@), program_id@),
{
    let slices: Vec<&[u8]> = seeds.iter().map(|s| s.as_slice()).collect();
    let program = anchor_lang::prelude::Pubkey::new_from_array(program_id.bytes);
    anchor_lang::prelude::Pubkey::try_find_program_address(&slices, &program)
        .map(|(a, _bump)| Pubkey { bytes: a.to_bytes() })
}

/// The seed tag of the custody authorities: `b"escrow"`.
pub open spec fn escrow_tag() -> Seq<u8> {
    seq![101u8, 115u8, 99u8, 114u8, 111u8, 119u8]
}

/// The seed tag of token-metadata accounts: `b"metadata"`.
pub open spec fn metadata_tag() -> Seq<u8> {
    seq![109u8, 101u8, 116u8, 97u8, 100u8, 97u8, 116u8, 97u8]
}

/// The seeds of the authority that this program derives for `subject`.
pub open spec fn escrow_seeds(subject: Seq<u8>) -> Seq<Seq<u8>> {
    seq![escrow_tag(), subject]
}

/// The seeds of the metadata account of `mint` under `metadata_program`.
pub open spec fn metadata_seeds(metadata_program: Seq<u8>, mint: Seq<u8>) -> Seq<Seq<u8>> {
    seq![metadata_tag(), metadata_program, mint]
}

fn key_bytes(k: &Pubkey) -> (r: Vec<u8>)
    ensures
        r@ == k@,
{
    let mut v: Vec<u8> = Vec::new();
    let mut i: usize = 0;
    while i < 32
        invariant
            0 <= i <= 32,
            k@.len() == 32,
            v@ == k@.take(i as int),
        decreases 32 - i,
    {
        v.push(k.bytes[i]);
        proof {
            assert(k@.take(i as int + 1) =~= k@.take(i as int).push(k@[i as int]));
        }
        i = i + 1;
    }
    proof {
        assert(k@.take(32) =~= k@);
    }
    v
}

/// The seeds under which this program derives the authority of `subject`.
pub fn escrow_seed(subject: &Pubkey) -> (r: Vec<Vec<u8>>)
    ensures
        seeds_view(r@) == escrow_seeds(subject@),
{
    let tag: Vec<u8> = vec![101u8, 115u8, 99u8, 114u8, 111u8, 119u8];
    let r = vec![tag, key_bytes(subject)];
    proof {
        assert(tag@ =~= escrow_tag());
        assert(seeds_view(r@) =~= escrow_seeds(subject@));
    }
    r
}

/// The seeds under which the metadata program derives the metadata account
/// of `mint`.
pub fn metadata_seed(metadata_program: &Pubkey, mint: &Pubkey) -> (r: Vec<Vec<u8>>)
    ensures
        seeds_view(r@) == metadata_seeds(metadata_program@, mint@),
{
    let tag: Vec<u8> = vec![109u8, 101u8, 116u8, 97u8, 100u8, 97u8, 116u8, 97u8];
    let r = vec![tag, key_bytes(metadata_program), key_bytes(mint)];
    proof {
        assert(tag@ =~= metadata_tag());
        assert(seeds_view(r@) =~= metadata_seeds(metadata_program@, mint@));
    }
    r
}

/// The address derived from `seeds` under `program_id`, if one exists.
pub fn derive_address(seeds: &Vec<Vec<u8>>, program_id: &Pubkey) -> (r: Option<Pubkey>)
    ensures
        r == derived_key(seeds_view(seeds@), program_id@),
{
    let r = try_find_program_address(seeds, program_id);
    proof {
        if let Some(k) = r {
            lemma_key_of(k);
        }
    }
    r
}

} // verus!
