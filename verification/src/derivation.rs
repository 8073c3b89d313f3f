use vstd::prelude::*;

use anchor_lang::prelude::Pubkey;

verus! {

/// What `Pubkey::try_find_program_address` returns for a seed sequence and a
/// program id: a 32-byte control address together with the nonce ("bump")
/// that proves the address was derived rather than chosen, or `None` in the
/// statistically improbable event that no nonce yields a valid address. The
/// search is a pure function of its arguments.
pub uninterp spec fn derived_control(seeds: Seq<Seq<u8>>, program: Seq<u8>) -> Option<(Seq<u8>, u8)>;

/// What `Pubkey::create_program_address` returns for a seed sequence (the
/// last seed being the nonce) and a program id: the reconstructed control
/// address, or `None` when the seeds are over the limits or the derived
/// point is invalid. A pure function of its arguments.
pub uninterp spec fn created_control(seeds: Seq<Seq<u8>>, program: Seq<u8>) -> Option<Seq<u8>>;

/// Relies on `Pubkey::try_find_program_address`: deterministic in the seeds
/// and the program id; on success the address is 32 bytes and re-deriving
/// with the returned nonce appended as a final one-byte seed reconstructs
/// exactly that address via `Pubkey::create_program_address`.
#[verifier::external_body]
pub fn try_find_control(seeds: &Vec<Vec<u8>>, program: &Vec<u8>) -> (r: Option<(Vec<u8>, u8)>)
    requires
        program@.len() == 32,
    ensures
        match r {
            Some(ab) => {
                &&& derived_control(seeds.deep_view(), program@) == Some((ab.0@, ab.1))
                &&& ab.0@.len() == 32
                &&& created_control(seeds.deep_view().push(seq![ab.1]), program@) == Some(ab.0@)
            },
            None => derived_control(seeds.deep_view(), program@) is None,
        },
{
    let pk = Pubkey::try_from(program.as_slice()).unwrap();
    let refs: Vec<&[u8]> = seeds.iter().map(|s| s.as_slice()).collect();
    Pubkey::try_find_program_address(&refs, &pk).map(|(a, b)| (a.to_bytes().to_vec(), b))
}

/// Relies on `Pubkey::create_program_address`: deterministic in the seeds
/// and the program id; on success the address is 32 bytes.
#[verifier::external_body]
pub fn create_control(seeds: &Vec<Vec<u8>>, program: &Vec<u8>) -> (r: Option<Vec<u8>>)
    requires
        program@.len() == 32,
    ensures
        match r {
            Some(a) => created_control(seeds.deep_view(), program@) == Some(a@) && a@.len() == 32,
            None => created_control(seeds.deep_view(), program@) is None,
        },
{
    let pk = Pubkey::try_from(program.as_slice()).unwrap();
    let refs: Vec<&[u8]> = seeds.iter().map(|s| s.as_slice()).collect();
    Pubkey::create_program_address(&refs, &pk).ok().map(|a| a.to_bytes().to_vec())
}

} // verus!
