use vstd::prelude::*;
use crate::identity::Identity;

verus! {

/// What `Pubkey::try_find_program_address` returns for the seed list
/// `[seed, owner]` under `program`: the derivation is a pure function of
/// these inputs alone, so any observer can recompute it.
pub uninterp spec fn pda_of(seed: Seq<u8>, owner: Seq<u8>, program: Seq<u8>) -> Option<(Seq<u8>, u8)>;

/// The view of a concrete derivation result.
pub open spec fn pda_view(r: Option<(Vec<u8>, u8)>) -> Option<(Seq<u8>, u8)> {
    match r {
        Option::None => Option::None,
        Option::Some(p) => Option::Some((p.0@, p.1)),
    }
}

/// The id under which this voting program's records are derived.
pub open spec fn program_id_seq() -> Seq<u8> {
    seq![
        156u8, 30u8, 49u8, 94u8, 18u8, 153u8, 245u8, 172u8,
        223u8, 119u8, 211u8, 248u8, 142u8, 118u8, 45u8, 163u8,
        65u8, 219u8, 242u8, 86u8, 160u8, 107u8, 46u8, 57u8,
        218u8, 204u8, 94u8, 191u8, 82u8, 1u8, 164u8, 13u8,
    ]
}

/// The 32-byte id of the voting program itself.
pub fn program_id() -> (r: Vec<u8>)
    ensures
        r@ == program_id_seq(),
        r@.len() == 32,
{
    let mut r: Vec<u8> = Vec::new();
    r.push(156u8);
    r.push(30u8);
    r.push(49u8);
    r.push(94u8);
    r.push(18u8);
    r.push(153u8);
    r.push(245u8);
    r.push(172u8);
    r.push(223u8);
    r.push(119u8);
    r.push(211u8);
    r.push(248u8);
    r.push(142u8);
    r.push(118u8);
    r.push(45u8);
    r.push(163u8);
    r.push(65u8);
    r.push(219u8);
    r.push(242u8);
    r.push(86u8);
    r.push(160u8);
    r.push(107u8);
    r.push(46u8);
    r.push(57u8);
    r.push(218u8);
    r.push(204u8);
    r.push(94u8);
    r.push(191u8);
    r.push(82u8);
    r.push(1u8);
    r.push(164u8);
    r.push(13u8);
    proof {
        assert(r@ =~= program_id_seq());
    }
    r
}

/// Relies on `Pubkey::try_find_program_address` (solana-pubkey): for the
/// seed list `[seed, owner]` it searches bumps 255 down to 0 for the first
/// whose SHA-256 derivation is off-curve, returning that 32-byte address and
/// bump, or `None` when no bump works or a seed is over the 32-byte seed
/// limit. The outcome depends only on the seed bytes, the owner key and the
/// program id.
#[verifier::external_body]
fn find_pda(seed: &Vec<u8>, owner: &Vec<u8>, program: &Vec<u8>) -> (r: Option<(Vec<u8>, u8)>)
    requires
        owner@.len() == 32,
        program@.len() == 32,
    ensures
        pda_view(r) == pda_of(seed@, owner@, program@),
        (r matches Some(p) ==> p.0@.len() == 32),
{
    let owner_pk = anchor_lang::solana_program::pubkey::Pubkey::try_from(owner.as_slice()).unwrap();
    let program_pk = anchor_lang::solana_program::pubkey::Pubkey::try_from(program.as_slice()).unwrap();
    let seeds: [&[u8]; 2] = [seed.as_slice(), owner_pk.as_ref()];
    anchor_lang::solana_program::pubkey::Pubkey::try_find_program_address(&seeds, &program_pk)
        .map(|(pk, bump)| (pk.to_bytes().to_vec(), bump))
}

/// Derives the storage address and bump for `(seed, owner)` under the
/// program id. The same inputs always yield the same output, so any
/// verifier can re-derive a record's address without a lookup table. A
/// proposal created by actor `A` from `seed` lives at `derive(seed, A)`; the
/// registry of a registering actor `A` lives at `derive(key of A, A)`.
/// `None` means no valid bump exists in the search space and the caller must
/// retry with a different seed.
pub fn derive(seed: &Vec<u8>, owner: &Identity) -> (r: Option<(Vec<u8>, u8)>)
    requires
        owner.wf(),
    ensures
        pda_view(r) == pda_of(seed@, owner@, program_id_seq()),
        (r matches Some(p) ==> p.0@.len() == 32),
{
    let pid = program_id();
    find_pda(seed, owner.as_bytes(), &pid)
}

} // verus!
