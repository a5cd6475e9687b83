//! The three state transitions of a record, and the dispatch on the tag byte.
//!
//! A transition validates everything before it decides anything, and then
//! returns the single action that the host carries out on the record slot:
//! create it, overwrite it, or zero it and close it. Nothing is written when
//! a check fails.

use vstd::prelude::*;
use vstd::utf8::*;
use crate::accounts::AccountView;
use crate::address::Address;
use crate::codec::zeros;
use crate::deregister_agent::{spec_check_deregister_accounts, DeregisterAgent};
use crate::errors::{AgentMailProgramError, ProgramError};
use crate::instruction::{spec_discriminator, AgentMailInstructionDiscriminators};
use crate::pda::spec_registry_address;
use crate::register_agent::{spec_check_register_accounts, spec_parse_register, RegisterAgent};
use crate::state::{
    decode_record, encode_record, AgentRegistry, RegistryRecord, DATA_LEN, VERSION,
};
use crate::update_agent::{spec_check_update_accounts, spec_parse_update, UpdateAgent};

verus! {

broadcast use decode_utf8_encode_utf8;

/// What the host does to the record slot once a transition has succeeded.
#[derive(Debug)]
pub enum RegistryAction {
    /// Allocate `DATA_LEN` bytes at the record slot, owned by this program and
    /// paid for by the payer, signing with the record's seeds and `bump`;
    /// then write `data` into them.
    Create { bump: u8, data: Vec<u8> },
    /// Overwrite the record slot's bytes with `data`.
    Write { data: Vec<u8> },
    /// Overwrite the record slot's bytes with `data` (all zero) and hand the
    /// slot's balance back to the authority, as one step.
    Close { data: Vec<u8> },
}

/// A record decoded from storage satisfies the record invariants.
pub proof fn lemma_decoded_record_wf(b: Seq<u8>)
    requires
        decode_record(b) is Ok,
    ensures
        decode_record(b)->Ok_0.wf(),
{
}

/// The record that a register call creates, or the error that stops it:
/// account checks, then the payload, then the slot's address against the one
/// derived from the authority and the given bump.
pub open spec fn spec_register(
    program_id: Seq<u8>,
    accounts: Seq<AccountView>,
    data: Seq<u8>,
    now: i64,
) -> Result<RegistryRecord, ProgramError> {
    match spec_check_register_accounts(accounts) {
        Err(e) => Err(e),
        Ok(()) => match spec_parse_register(data) {
            Err(e) => Err(e),
            Ok((bump, name, inbox_url)) => {
                if spec_registry_address(accounts[1].address@, bump, program_id) != Some(
                    accounts[2].address@,
                ) {
                    Err(ProgramError::InvalidSeeds)
                } else {
                    Ok(
                        RegistryRecord {
                            bump,
                            version: VERSION,
                            authority: accounts[1].address@,
                            name,
                            inbox_url,
                            created_at: now,
                            updated_at: now,
                        },
                    )
                }
            },
        },
    }
}

/// The checks that update and deregister make on a stored record before they
/// trust it: its size, its decoding, its address (derived with the bump
/// stored in it) and its authority against the signer.
pub open spec fn spec_stored_record(
    program_id: Seq<u8>,
    authority: AccountView,
    registry: AccountView,
) -> Result<RegistryRecord, ProgramError> {
    if registry.data@.len() != DATA_LEN {
        Err(AgentMailProgramError::InvalidAccountSize.spec_into())
    } else {
        match decode_record(registry.data@) {
            Err(_) => Err(AgentMailProgramError::InvalidAccountData.spec_into()),
            Ok(rec) => if spec_registry_address(rec.authority, rec.bump, program_id) != Some(
                registry.address@,
            ) {
                Err(ProgramError::InvalidSeeds)
            } else if rec.authority != authority.address@ {
                Err(AgentMailProgramError::InvalidAuthority.spec_into())
            } else {
                Ok(rec)
            },
        }
    }
}

/// The record that an update call leaves, or the error that stops it: the
/// stored record with the new name and URL and `updated_at` set to `now`;
/// authority, bump and `created_at` unchanged.
pub open spec fn spec_update(
    program_id: Seq<u8>,
    accounts: Seq<AccountView>,
    data: Seq<u8>,
    now: i64,
) -> Result<RegistryRecord, ProgramError> {
    match spec_check_update_accounts(accounts) {
        Err(e) => Err(e),
        Ok(()) => match spec_parse_update(data) {
            Err(e) => Err(e),
            Ok((name, inbox_url)) => match spec_stored_record(program_id, accounts[0], accounts[1]) {
                Err(e) => Err(e),
                Ok(rec) => Ok(RegistryRecord { name, inbox_url, updated_at: now, ..rec }),
            },
        },
    }
}

/// Whether a deregister call succeeds, or the error that stops it.
pub open spec fn spec_deregister(program_id: Seq<u8>, accounts: Seq<AccountView>) -> Result<
    (),
    ProgramError,
> {
    match spec_check_deregister_accounts(accounts) {
        Err(e) => Err(e),
        Ok(()) => match spec_stored_record(program_id, accounts[0], accounts[1]) {
            Err(e) => Err(e),
            Ok(_) => Ok(()),
        },
    }
}

/// Only the stored authority may change or close a record: once the
/// accounts and the payload have passed their checks and the slot holds a
/// record at its derived address, a request signed by any other key fails
/// with `InvalidAuthority`.
pub proof fn lemma_foreign_signer_rejected(
    program_id: Seq<u8>,
    accounts: Seq<AccountView>,
    data: Seq<u8>,
    now: i64,
)
    requires
        accounts.len() >= 3,
        decode_record(accounts[1].data@) is Ok,
        spec_registry_address(
            decode_record(accounts[1].data@)->Ok_0.authority,
            decode_record(accounts[1].data@)->Ok_0.bump,
            program_id,
        ) == Some(accounts[1].address@),
        decode_record(accounts[1].data@)->Ok_0.authority != accounts[0].address@,
    ensures
        spec_check_update_accounts(accounts) is Ok && spec_parse_update(data) is Ok ==> spec_update(
            program_id,
            accounts,
            data,
            now,
        ) == Err::<RegistryRecord, ProgramError>(
            AgentMailProgramError::InvalidAuthority.spec_into(),
        ),
        spec_check_deregister_accounts(accounts) is Ok ==> spec_deregister(program_id, accounts)
            == Err::<(), ProgramError>(AgentMailProgramError::InvalidAuthority.spec_into()),
{
}

/// Register never overwrites: when the record slot already holds data, the
/// call fails.
pub proof fn lemma_register_needs_empty_slot(
    program_id: Seq<u8>,
    accounts: Seq<AccountView>,
    data: Seq<u8>,
    now: i64,
)
    requires
        accounts.len() >= 3,
        accounts[2].data@.len() != 0,
    ensures
        spec_register(program_id, accounts, data, now) is Err,
{
}

/// An update keeps the authority, the bump and the creation time of the
/// stored record, and stamps `now` as the time of the change.
pub proof fn lemma_update_keeps_identity(
    program_id: Seq<u8>,
    accounts: Seq<AccountView>,
    data: Seq<u8>,
    now: i64,
)
    requires
        spec_update(program_id, accounts, data, now) is Ok,
    ensures
        ({
            let stored = decode_record(accounts[1].data@)->Ok_0;
            let updated = spec_update(program_id, accounts, data, now)->Ok_0;
            &&& decode_record(accounts[1].data@) is Ok
            &&& updated.authority == stored.authority
            &&& updated.authority == accounts[0].address@
            &&& updated.bump == stored.bump
            &&& updated.created_at == stored.created_at
            &&& updated.updated_at == now
        }),
{
}

/// The time that the program stamps on records. A fixed instant stands in
/// for the clock.
pub fn get_current_timestamp() -> (r: Result<i64, ProgramError>)
    ensures
        r == Ok::<i64, ProgramError>(1707523200),
{
    Ok(1707523200)
}

/// Registers an agent: creates the record of the signing authority at the
/// slot derived from it and the given bump, with both timestamps `now`.
pub fn process_register_agent(
    program_id: &Address,
    accounts: &[AccountView],
    instruction_data: &[u8],
    now: i64,
) -> (r: Result<RegistryAction, ProgramError>)
    ensures
        match spec_register(program_id@, accounts@, instruction_data@, now) {
            Ok(rec) => r matches Ok(RegistryAction::Create { bump, data }) && bump == rec.bump
                && data@ == encode_record(rec) && rec.wf(),
            Err(e) => r is Err && r->Err_0 == e,
        },
{
    let ix = match RegisterAgent::parse(instruction_data, accounts) {
        Ok(ix) => ix,
        Err(e) => {
            return Err(e);
        },
    };
    let agent_registry = match AgentRegistry::new(
        ix.data.bump,
        ix.accounts.agent_authority.address,
        ix.data.name.as_str(),
        ix.data.inbox_url.as_str(),
        now,
    ) {
        Ok(reg) => reg,
        Err(e) => {
            return Err(e);
        },
    };
    match agent_registry.validate_pda(ix.accounts.agent_registry, program_id, ix.data.bump) {
        Ok(()) => {},
        Err(e) => {
            return Err(e);
        },
    }
    match agent_registry.validate_authority(&ix.accounts.agent_authority.address) {
        Ok(()) => {},
        Err(e) => {
            return Err(e);
        },
    }
    if ix.accounts.agent_registry.data_len() != 0 {
        return Err(AgentMailProgramError::RegistryAlreadyExists.into());
    }
    let data = agent_registry.to_bytes_inner();
    Ok(RegistryAction::Create { bump: ix.data.bump, data })
}

/// Reads the stored record and checks its address and its authority.
fn load_stored_record(program_id: &Address, authority: &AccountView, registry: &AccountView) -> (r:
    Result<AgentRegistry, ProgramError>)
    ensures
        match spec_stored_record(program_id@, *authority, *registry) {
            Ok(rec) => r matches Ok(reg) && reg@ == rec && rec.wf(),
            Err(e) => r is Err && r->Err_0 == e,
        },
{
    if registry.data_len() != DATA_LEN {
        return Err(AgentMailProgramError::InvalidAccountSize.into());
    }
    let stored = match AgentRegistry::from_bytes_inner(registry.data()) {
        Ok(reg) => reg,
        Err(_) => {
            return Err(AgentMailProgramError::InvalidAccountData.into());
        },
    };
    proof {
        lemma_decoded_record_wf(registry.data@);
    }
    match stored.validate_pda(registry, program_id, stored.bump) {
        Ok(()) => {},
        Err(e) => {
            return Err(e);
        },
    }
    match stored.validate_authority(&authority.address) {
        Ok(()) => {},
        Err(e) => {
            return Err(e);
        },
    }
    Ok(stored)
}

/// Updates an agent's name and inbox URL and stamps `now` as the time of
/// the change.
pub fn process_update_agent(
    program_id: &Address,
    accounts: &[AccountView],
    instruction_data: &[u8],
    now: i64,
) -> (r: Result<RegistryAction, ProgramError>)
    ensures
        match spec_update(program_id@, accounts@, instruction_data@, now) {
            Ok(rec) => r matches Ok(RegistryAction::Write { data }) && data@ == encode_record(rec)
                && rec.wf(),
            Err(e) => r is Err && r->Err_0 == e,
        },
{
    let ix = match UpdateAgent::parse(instruction_data, accounts) {
        Ok(ix) => ix,
        Err(e) => {
            return Err(e);
        },
    };
    let mut registry = match load_stored_record(
        program_id,
        ix.accounts.agent_authority,
        ix.accounts.agent_registry,
    ) {
        Ok(reg) => reg,
        Err(e) => {
            return Err(e);
        },
    };
    match registry.set_name(ix.data.name.as_str()) {
        Ok(()) => {},
        Err(e) => {
            return Err(e);
        },
    }
    match registry.set_inbox_url(ix.data.inbox_url.as_str()) {
        Ok(()) => {},
        Err(e) => {
            return Err(e);
        },
    }
    registry.touch(now);
    let data = registry.to_bytes_inner();
    Ok(RegistryAction::Write { data })
}

/// Closes an agent's record: its bytes are zeroed and its balance goes back
/// to the authority. Any payload is ignored.
pub fn process_deregister_agent(
    program_id: &Address,
    accounts: &[AccountView],
    instruction_data: &[u8],
) -> (r: Result<RegistryAction, ProgramError>)
    ensures
        match spec_deregister(program_id@, accounts@) {
            Ok(()) => r matches Ok(RegistryAction::Close { data }) && data@ == zeros(DATA_LEN as nat),
            Err(e) => r is Err && r->Err_0 == e,
        },
{
    let ix = match DeregisterAgent::parse(instruction_data, accounts) {
        Ok(ix) => ix,
        Err(e) => {
            return Err(e);
        },
    };
    match load_stored_record(program_id, ix.accounts.agent_authority, ix.accounts.agent_registry) {
        Ok(_) => {},
        Err(e) => {
            return Err(e);
        },
    }
    let data: Vec<u8> = vec![0u8; DATA_LEN];
    assert(data@ =~= zeros(DATA_LEN as nat));
    Ok(RegistryAction::Close { data })
}

/// Reads the tag byte and runs the instruction that it selects on the rest
/// of the bytes. An empty request or an unknown tag is
/// `InvalidInstructionData`.
pub fn process_instruction(
    program_id: &Address,
    accounts: &[AccountView],
    instruction_data: &[u8],
    now: i64,
) -> (r: Result<RegistryAction, ProgramError>)
    ensures
        instruction_data@.len() == 0 ==> r == Err::<RegistryAction, ProgramError>(
            ProgramError::InvalidInstructionData,
        ),
        instruction_data@.len() > 0 ==> {
            let rest = instruction_data@.subrange(1, instruction_data@.len() as int);
            match spec_discriminator(instruction_data@[0]) {
                Err(e) => r == Err::<RegistryAction, ProgramError>(e),
                Ok(AgentMailInstructionDiscriminators::RegisterAgent) => match spec_register(
                    program_id@,
                    accounts@,
                    rest,
                    now,
                ) {
                    Ok(rec) => r matches Ok(RegistryAction::Create { bump, data }) && bump
                        == rec.bump && data@ == encode_record(rec),
                    Err(e) => r is Err && r->Err_0 == e,
                },
                Ok(AgentMailInstructionDiscriminators::UpdateAgent) => match spec_update(
                    program_id@,
                    accounts@,
                    rest,
                    now,
                ) {
                    Ok(rec) => r matches Ok(RegistryAction::Write { data }) && data@
                        == encode_record(rec),
                    Err(e) => r is Err && r->Err_0 == e,
                },
                Ok(AgentMailInstructionDiscriminators::DeregisterAgent) => match spec_deregister(
                    program_id@,
                    accounts@,
                ) {
                    Ok(()) => r matches Ok(RegistryAction::Close { data }) && data@ == zeros(
                        DATA_LEN as nat,
                    ),
                    Err(e) => r is Err && r->Err_0 == e,
                },
            }
        },
{
    if instruction_data.len() == 0 {
        return Err(ProgramError::InvalidInstructionData);
    }
    let discriminator = match AgentMailInstructionDiscriminators::try_from(instruction_data[0]) {
        Ok(d) => d,
        Err(e) => {
            return Err(e);
        },
    };
    let rest = &instruction_data[1..instruction_data.len()];
    match discriminator {
        AgentMailInstructionDiscriminators::RegisterAgent => process_register_agent(
            program_id,
            accounts,
            rest,
            now,
        ),
        AgentMailInstructionDiscriminators::UpdateAgent => process_update_agent(
            program_id,
            accounts,
            rest,
            now,
        ),
        AgentMailInstructionDiscriminators::DeregisterAgent => process_deregister_agent(
            program_id,
            accounts,
            rest,
        ),
    }
}

} // verus!
