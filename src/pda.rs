//! The address of an agent's record: derived from a fixed seed prefix, the
//! agent's key and a one-byte bump, under this program. A derived address is
//! a digest of these values that is not a valid public key, so no private
//! key can sign for it.

use vstd::prelude::*;
use crate::address::Address;

verus! {

/// The seed prefix of every record address: the bytes of "agentmail".
pub const PREFIX: [u8; 9] = [97, 103, 101, 110, 116, 109, 97, 105, 108];

/// The address that the platform derives from `seeds` under `program_id`
/// (a SHA-256 digest of the seeds, the program id and a marker), or none
/// when that digest is a valid public key; it depends on these values alone.
pub uninterp spec fn program_address(seeds: Seq<Seq<u8>>, program_id: Seq<u8>) -> Option<Seq<u8>>;

/// The seeds of a derived address: a prefix, a key and the bump byte.
pub open spec fn seeds_with_bump(prefix: Seq<u8>, key: Seq<u8>, bump: u8) -> Seq<Seq<u8>> {
    seq![prefix, key, seq![bump]]
}

/// Relies on `Address::create_program_address` of solana-address
/// (re-exported by pinocchio): it derives the address of the seeds, or fails
/// when the digest lies on the curve; it does not panic.
#[verifier::external_body]
fn create_program_address(prefix: &[u8], key: &[u8; 32], bump: u8, program_id: &[u8; 32]) -> (r:
    Option<[u8; 32]>)
    requires
        prefix@.len() <= 32,
    ensures
        match r {
            Some(a) => program_address(seeds_with_bump(prefix@, key@, bump), program_id@) == Some(a@),
            None => program_address(seeds_with_bump(prefix@, key@, bump), program_id@) is None,
        },
{
    let program = pinocchio::Address::new_from_array(*program_id);
    let bump_seed = [bump];
    let seeds: [&[u8]; 3] = [prefix, key.as_slice(), bump_seed.as_slice()];
    pinocchio::Address::create_program_address(&seeds, &program).ok().map(|a| a.to_bytes())
}

/// Relies on `Address::try_find_program_address` of solana-address: it tries
/// the bumps from 255 down to 1 with `create_program_address` and returns
/// the first address found with its bump, or none when no bump gives one.
#[verifier::external_body]
fn try_find_program_address(prefix: &[u8], key: &[u8; 32], program_id: &[u8; 32]) -> (r: Option<
    ([u8; 32], u8),
>)
    requires
        prefix@.len() <= 32,
    ensures
        match r {
            Some((a, bump)) => {
                &&& bump >= 1
                &&& program_address(seeds_with_bump(prefix@, key@, bump), program_id@) == Some(a@)
                &&& forall|c: u8|
                    c > bump ==> (#[trigger] program_address(
                        seeds_with_bump(prefix@, key@, c),
                        program_id@,
                    )) is None
            },
            None => forall|c: u8|
                c >= 1 ==> (#[trigger] program_address(
                    seeds_with_bump(prefix@, key@, c),
                    program_id@,
                )) is None,
        },
{
    let program = pinocchio::Address::new_from_array(*program_id);
    let seeds: [&[u8]; 2] = [prefix, key.as_slice()];
    pinocchio::Address::try_find_program_address(&seeds, &program).map(|(a, bump)| (a.to_bytes(), bump))
}

/// The address of the record of `authority` under `program_id` with `bump`,
/// if that bump gives one.
pub open spec fn spec_registry_address(authority: Seq<u8>, bump: u8, program_id: Seq<u8>) -> Option<
    Seq<u8>,
> {
    program_address(seeds_with_bump(PREFIX@, authority, bump), program_id)
}

/// The address of the record of `authority` under `program_id` with `bump`,
/// if that bump gives one.
pub fn registry_address(authority: &Address, bump: u8, program_id: &Address) -> (r: Option<Address>)
    ensures
        match r {
            Some(a) => spec_registry_address(authority@, bump, program_id@) == Some(a@),
            None => spec_registry_address(authority@, bump, program_id@) is None,
        },
{
    let prefix = PREFIX;
    match create_program_address(prefix.as_slice(), &authority.bytes, bump, &program_id.bytes) {
        Some(bytes) => Some(Address::new_from_array(bytes)),
        None => None,
    }
}

/// The canonical record address of `authority`: the one with the largest
/// bump that gives an address, with that bump; none when no bump from 1 to
/// 255 gives one.
pub fn find_registry_address(authority: &Address, program_id: &Address) -> (r: Option<(Address, u8)>)
    ensures
        match r {
            Some((a, bump)) => {
                &&& bump >= 1
                &&& spec_registry_address(authority@, bump, program_id@) == Some(a@)
                &&& forall|c: u8|
                    c > bump ==> (#[trigger] spec_registry_address(
                        authority@,
                        c,
                        program_id@,
                    )) is None
            },
            None => forall|c: u8|
                c >= 1 ==> (#[trigger] spec_registry_address(authority@, c, program_id@)) is None,
        },
{
    let prefix = PREFIX;
    match try_find_program_address(prefix.as_slice(), &authority.bytes, &program_id.bytes) {
        Some((bytes, bump)) => Some((Address::new_from_array(bytes), bump)),
        None => None,
    }
}

} // verus!
