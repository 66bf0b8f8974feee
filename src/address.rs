use vstd::prelude::*;

verus! {

/// The program-derived address and bump that the ledger's derivation gives for
/// `seeds` under `program_id`, or `None` when no bump gives an off-curve address.
pub uninterp spec fn program_address(seeds: Seq<Seq<u8>>, program_id: Seq<u8>) -> Option<
    (Seq<u8>, u8),
>;

/// Relies on solana_program's `Pubkey::try_find_program_address`: it hashes the
/// seeds, a bump and the program id, tries bumps from 255 down, and returns the
/// first off-curve address with its bump, or `None`. It reads nothing but its
/// arguments and does not panic.
#[verifier::external_body]
fn try_find_program_address(seeds: &Vec<Vec<u8>>, program_id: &[u8; 32]) -> (r: Option<
    ([u8; 32], u8),
>)
    ensures
        derived_view(r) == program_address(seeds.deep_view(), program_id@),
{
    let refs: Vec<&[u8]> = seeds.iter().map(|s| s.as_slice()).collect();
    let program = solana_program::pubkey::Pubkey::new_from_array(*program_id);
    solana_program::pubkey::Pubkey::try_find_program_address(&refs, &program).map(
        |(key, bump)| (key.to_bytes(), bump),
    )
}

/// The address and bump of a derivation result, as values.
pub open spec fn derived_view(r: Option<([u8; 32], u8)>) -> Option<(Seq<u8>, u8)> {
    match r {
        Some((a, b)) => Some((a@, b)),
        None => None,
    }
}

/// The seed that marks stake-record addresses: the bytes of "stake".
pub open spec fn stake_tag() -> Seq<u8> {
    seq![115u8, 116u8, 97u8, 107u8, 101u8]
}

/// The seed of the program's signing authority: the bytes of "authority".
pub open spec fn authority_tag() -> Seq<u8> {
    seq![97u8, 117u8, 116u8, 104u8, 111u8, 114u8, 105u8, 116u8, 121u8]
}

/// Seeds of the stake record of one owner and one mint.
pub open spec fn stake_seeds(nft_mint: Seq<u8>, owner: Seq<u8>) -> Seq<Seq<u8>> {
    seq![stake_tag(), nft_mint, owner]
}

/// Seeds of the program's signing authority.
pub open spec fn authority_seeds() -> Seq<Seq<u8>> {
    seq![authority_tag()]
}

/// The derived stake-record address of `(nft_mint, owner)` under `program_id`.
pub open spec fn stake_address(nft_mint: Seq<u8>, owner: Seq<u8>, program_id: Seq<u8>) -> Option<
    (Seq<u8>, u8),
> {
    program_address(stake_seeds(nft_mint, owner), program_id)
}

/// The derived authority address under `program_id`.
pub open spec fn authority_address(program_id: Seq<u8>) -> Option<(Seq<u8>, u8)> {
    program_address(authority_seeds(), program_id)
}

fn stake_tag_bytes() -> (r: Vec<u8>)
    ensures
        r@ == stake_tag(),
{
    let r = vec![115u8, 116u8, 97u8, 107u8, 101u8];
    assert(r@ =~= stake_tag());
    r
}

fn key_bytes(key: &[u8; 32]) -> (r: Vec<u8>)
    ensures
        r@ == key@,
{
    let mut r: Vec<u8> = Vec::new();
    crate::bytes::push_key(&mut r, key);
    assert(r@ =~= key@);
    r
}

/// Derives the stake-record address of the NFT `nft_mint` staked by `user_wallet`.
pub fn find_stake_account_address(
    nft_mint: &[u8; 32],
    user_wallet: &[u8; 32],
    program_id: &[u8; 32],
) -> (r: Option<([u8; 32], u8)>)
    ensures
        derived_view(r) == stake_address(nft_mint@, user_wallet@, program_id@),
{
    let mut seeds: Vec<Vec<u8>> = Vec::new();
    seeds.push(stake_tag_bytes());
    seeds.push(key_bytes(nft_mint));
    seeds.push(key_bytes(user_wallet));
    assert(seeds.deep_view() =~~= stake_seeds(nft_mint@, user_wallet@));
    try_find_program_address(&seeds, program_id)
}

/// Derives the address of the program's signing authority.
pub fn find_program_authority(program_id: &[u8; 32]) -> (r: Option<([u8; 32], u8)>)
    ensures
        derived_view(r) == authority_address(program_id@),
{
    let tag = vec![97u8, 117u8, 116u8, 104u8, 111u8, 114u8, 105u8, 116u8, 121u8];
    assert(tag@ =~= authority_tag());
    let mut seeds: Vec<Vec<u8>> = Vec::new();
    seeds.push(tag);
    assert(seeds.deep_view() =~~= authority_seeds());
    try_find_program_address(&seeds, program_id)
}

/// Derivation is a function of its inputs: two derivations of the stake
/// address from the same mint, owner and program give the same address and bump.
pub proof fn lemma_derivation_deterministic(
    nft_mint: Seq<u8>,
    owner: Seq<u8>,
    program_id: Seq<u8>,
    r1: Option<([u8; 32], u8)>,
    r2: Option<([u8; 32], u8)>,
)
    requires
        derived_view(r1) == stake_address(nft_mint, owner, program_id),
        derived_view(r2) == stake_address(nft_mint, owner, program_id),
    ensures
        r1 is Some <==> r2 is Some,
        r1 is Some ==> r1.unwrap().0@ == r2.unwrap().0@ && r1.unwrap().1 == r2.unwrap().1,
{
}

} // verus!
