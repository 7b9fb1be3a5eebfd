//! Deterministic record addresses: each record of the bridge lives at an
//! address derived from the program and a list of seeds.
use crate::bytes::extend_bytes;
use crate::error::BridgeError;
use vstd::prelude::*;

verus! {

/// The address derived from `seeds` for the program `program_id`, if one exists.
pub uninterp spec fn program_address(program_id: Seq<u8>, seeds: Seq<Seq<u8>>) -> Option<Seq<u8>>;

/// The byte strings of a list of seeds.
pub open spec fn seeds_view(seeds: Seq<Vec<u8>>) -> Seq<Seq<u8>> {
    seeds.map_values(|s: Vec<u8>| s@)
}

/// Relies on solana-program's `Pubkey::try_find_program_address`: the program
/// address of the seeds, with its bump seed dropped.
#[verifier::external_body]
fn find_program_address(program_id: &[u8; 32], seeds: &Vec<Vec<u8>>) -> (r: Option<[u8; 32]>)
    ensures
        r matches Some(a) ==> program_address(program_id@, seeds_view(seeds@)) == Some(a@),
        r is None ==> program_address(program_id@, seeds_view(seeds@)) is None,
{
    let s: Vec<&[u8]> = seeds.iter().map(|v| v.as_slice()).collect();
    let id = solana_program::pubkey::Pubkey::new_from_array(*program_id);
    solana_program::pubkey::Pubkey::try_find_program_address(&s, &id).map(|(k, _)| k.to_bytes())
}

/// The address of `seeds` under `program_id`.
pub fn derive_key(program_id: &[u8; 32], seeds: &Vec<Vec<u8>>) -> (r: Result<[u8; 32], BridgeError>)
    ensures
        r matches Ok(a) ==> program_address(program_id@, seeds_view(seeds@)) == Some(a@),
        r is Err <==> program_address(program_id@, seeds_view(seeds@)) is None,
        r matches Err(e) ==> e == BridgeError::InvalidDerivedAccount,
{
    match find_program_address(program_id, seeds) {
        Some(a) => Ok(a),
        None => Err(BridgeError::InvalidDerivedAccount),
    }
}

/// Derivation depends on the program and the seeds alone: equal inputs derive
/// equal addresses.
pub proof fn lemma_derivation_deterministic(
    program_id: Seq<u8>,
    seeds: Seq<Seq<u8>>,
    other_program_id: Seq<u8>,
    other_seeds: Seq<Seq<u8>>,
)
    requires
        program_id == other_program_id,
        seeds == other_seeds,
    ensures
        program_address(program_id, seeds) == program_address(other_program_id, other_seeds),
{
}

pub open spec fn tag_wrapped() -> Seq<u8> {
    seq![119u8, 114, 97, 112, 112, 101, 100]
}

pub open spec fn tag_custody() -> Seq<u8> {
    seq![99u8, 117, 115, 116, 111, 100, 121]
}

pub open spec fn tag_transfer() -> Seq<u8> {
    seq![116u8, 114, 97, 110, 115, 102, 101, 114]
}

pub open spec fn tag_claim() -> Seq<u8> {
    seq![99u8, 108, 97, 105, 109]
}

pub open spec fn tag_signatures() -> Seq<u8> {
    seq![115u8, 105, 103]
}

pub open spec fn tag_guardian() -> Seq<u8> {
    seq![103u8, 117, 97, 114, 100, 105, 97, 110]
}

/// Big-endian bytes of a 32-bit value.
pub open spec fn u32_be(v: u32) -> Seq<u8> {
    seq![(v / 0x1000000) as u8, ((v / 0x10000) % 256) as u8, ((v / 0x100) % 256) as u8, (v % 256) as u8]
}

/// Seeds of the mint of the wrapped form of a foreign asset.
pub open spec fn wrapped_asset_seeds(bridge: Seq<u8>, chain: u8, decimals: u8, address: Seq<u8>) -> Seq<Seq<u8>> {
    seq![tag_wrapped(), bridge, seq![chain], seq![decimals], address]
}

/// Seeds of the custody account that holds locked native tokens of `mint`.
pub open spec fn custody_seeds(bridge: Seq<u8>, mint: Seq<u8>) -> Seq<Seq<u8>> {
    seq![tag_custody(), bridge, mint]
}

/// Seeds of an outbound transfer proposal.
pub open spec fn transfer_seeds(
    bridge: Seq<u8>,
    asset_chain: u8,
    asset_address: Seq<u8>,
    target_chain: u8,
    target_address: Seq<u8>,
    source_address: Seq<u8>,
    nonce: u32,
) -> Seq<Seq<u8>> {
    seq![
        tag_transfer(),
        bridge,
        seq![asset_chain],
        asset_address,
        seq![target_chain],
        target_address,
        source_address,
        u32_be(nonce),
    ]
}

/// Seeds of the claim of a message with body digest `body_hash`.
pub open spec fn claim_seeds(bridge: Seq<u8>, body_hash: Seq<u8>) -> Seq<Seq<u8>> {
    seq![tag_claim(), bridge, body_hash]
}

/// Seeds of the signature record of a message under a guardian set.
pub open spec fn signature_seeds(bridge: Seq<u8>, hash: Seq<u8>, guardian_set_index: u32) -> Seq<Seq<u8>> {
    seq![tag_signatures(), bridge, hash, u32_be(guardian_set_index)]
}

/// Seeds of the guardian set with index `index`.
pub open spec fn guardian_set_seeds(bridge: Seq<u8>, index: u32) -> Seq<Seq<u8>> {
    seq![tag_guardian(), bridge, u32_be(index)]
}

fn bytes_of(s: &[u8]) -> (r: Vec<u8>)
    ensures
        r@ == s@,
{
    let mut v: Vec<u8> = Vec::new();
    extend_bytes(&mut v, s);
    v
}

fn u32_be_bytes(v: u32) -> (r: Vec<u8>)
    ensures
        r@ == u32_be(v),
{
    vec![(v / 0x1000000) as u8, ((v / 0x10000) % 256) as u8, ((v / 0x100) % 256) as u8, (v % 256) as u8]
}

/// Address of the mint of the wrapped form of a foreign asset.
pub fn wrapped_asset_key(
    program_id: &[u8; 32],
    bridge: &[u8; 32],
    chain: u8,
    decimals: u8,
    address: &[u8; 32],
) -> (r: Result<[u8; 32], BridgeError>)
    ensures
        r matches Ok(a) ==> program_address(program_id@, wrapped_asset_seeds(bridge@, chain, decimals, address@)) == Some(a@),
        r is Err <==> program_address(program_id@, wrapped_asset_seeds(bridge@, chain, decimals, address@)) is None,
{
    let seeds: Vec<Vec<u8>> = vec![vec![119u8, 114, 97, 112, 112, 101, 100], bytes_of(bridge), vec![chain], vec![decimals], bytes_of(address)];
    assert(seeds_view(seeds@) =~~= wrapped_asset_seeds(bridge@, chain, decimals, address@));
    derive_key(program_id, &seeds)
}

/// Address of the custody account of a native mint.
pub fn custody_key(program_id: &[u8; 32], bridge: &[u8; 32], mint: &[u8; 32]) -> (r: Result<[u8; 32], BridgeError>)
    ensures
        r matches Ok(a) ==> program_address(program_id@, custody_seeds(bridge@, mint@)) == Some(a@),
        r is Err <==> program_address(program_id@, custody_seeds(bridge@, mint@)) is None,
{
    let seeds: Vec<Vec<u8>> = vec![vec![99u8, 117, 115, 116, 111, 100, 121], bytes_of(bridge), bytes_of(mint)];
    assert(seeds_view(seeds@) =~~= custody_seeds(bridge@, mint@));
    derive_key(program_id, &seeds)
}

/// Address of the outbound transfer proposal for these transfer fields.
pub fn proposal_key(
    program_id: &[u8; 32],
    bridge: &[u8; 32],
    asset_chain: u8,
    asset_address: &[u8; 32],
    target_chain: u8,
    target_address: &[u8; 32],
    source_address: &[u8; 32],
    nonce: u32,
) -> (r: Result<[u8; 32], BridgeError>)
    ensures
        r matches Ok(a) ==> program_address(
            program_id@,
            transfer_seeds(bridge@, asset_chain, asset_address@, target_chain, target_address@, source_address@, nonce),
        ) == Some(a@),
        r is Err <==> program_address(
            program_id@,
            transfer_seeds(bridge@, asset_chain, asset_address@, target_chain, target_address@, source_address@, nonce),
        ) is None,
{
    let seeds: Vec<Vec<u8>> = vec![
        vec![116u8, 114, 97, 110, 115, 102, 101, 114],
        bytes_of(bridge),
        vec![asset_chain],
        bytes_of(asset_address),
        vec![target_chain],
        bytes_of(target_address),
        bytes_of(source_address),
        u32_be_bytes(nonce),
    ];
    assert(seeds_view(seeds@) =~~= transfer_seeds(bridge@, asset_chain, asset_address@, target_chain, target_address@, source_address@, nonce));
    derive_key(program_id, &seeds)
}

/// Address of the claim of a message with body digest `body_hash`.
pub fn claim_key(program_id: &[u8; 32], bridge: &[u8; 32], body_hash: &[u8; 32]) -> (r: Result<[u8; 32], BridgeError>)
    ensures
        r matches Ok(a) ==> program_address(program_id@, claim_seeds(bridge@, body_hash@)) == Some(a@),
        r is Err <==> program_address(program_id@, claim_seeds(bridge@, body_hash@)) is None,
{
    let seeds: Vec<Vec<u8>> = vec![vec![99u8, 108, 97, 105, 109], bytes_of(bridge), bytes_of(body_hash)];
    assert(seeds_view(seeds@) =~~= claim_seeds(bridge@, body_hash@));
    derive_key(program_id, &seeds)
}

/// Address of the signature record of a message under a guardian set.
pub fn signature_record_key(
    program_id: &[u8; 32],
    bridge: &[u8; 32],
    hash: &[u8; 32],
    guardian_set_index: u32,
) -> (r: Result<[u8; 32], BridgeError>)
    ensures
        r matches Ok(a) ==> program_address(program_id@, signature_seeds(bridge@, hash@, guardian_set_index)) == Some(a@),
        r is Err <==> program_address(program_id@, signature_seeds(bridge@, hash@, guardian_set_index)) is None,
{
    let seeds: Vec<Vec<u8>> = vec![vec![115u8, 105, 103], bytes_of(bridge), bytes_of(hash), u32_be_bytes(guardian_set_index)];
    assert(seeds_view(seeds@) =~~= signature_seeds(bridge@, hash@, guardian_set_index));
    derive_key(program_id, &seeds)
}

/// Address of the guardian set with index `index`.
pub fn guardian_set_key(program_id: &[u8; 32], bridge: &[u8; 32], index: u32) -> (r: Result<[u8; 32], BridgeError>)
    ensures
        r matches Ok(a) ==> program_address(program_id@, guardian_set_seeds(bridge@, index)) == Some(a@),
        r is Err <==> program_address(program_id@, guardian_set_seeds(bridge@, index)) is None,
{
    let seeds: Vec<Vec<u8>> = vec![vec![103u8, 117, 97, 114, 100, 105, 97, 110], bytes_of(bridge), u32_be_bytes(index)];
    assert(seeds_view(seeds@) =~~= guardian_set_seeds(bridge@, index));
    derive_key(program_id, &seeds)
}

/// Whether `account` is the address the seeds derive under `program_id`.
pub open spec fn is_derived(program_id: Seq<u8>, seeds: Seq<Seq<u8>>, account: [u8; 32]) -> bool {
    program_address(program_id, seeds) == Some(account@)
}

/// Accepts `account` only when it is the derived address `derived` stands for.
pub fn expect_key(derived: Result<[u8; 32], BridgeError>, account: &[u8; 32]) -> (r: Result<(), BridgeError>)
    ensures
        r is Ok <==> (derived matches Ok(k) && k@ == account@),
        r matches Err(e) ==> e == BridgeError::InvalidDerivedAccount,
{
    match derived {
        Ok(k) => if crate::bytes::bytes_equal(&k, account) {
            Ok(())
        } else {
            Err(BridgeError::InvalidDerivedAccount)
        },
        Err(_) => Err(BridgeError::InvalidDerivedAccount),
    }
}

} // verus!
