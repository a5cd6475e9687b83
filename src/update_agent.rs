//! The update instruction: new name and inbox URL for an existing record.

use vstd::prelude::*;
use crate::accounts::{verify_current_program, verify_signer, verify_writable, AccountView};
use crate::address::ID_BYTES;
use crate::codec::{read_str, spec_read_str};
use crate::errors::{AgentMailProgramError, ProgramError};
use crate::instruction::{InstructionAccounts, InstructionData};
use crate::state::{MAX_INBOX_URL_LEN, MAX_NAME_LEN};

verus! {

/// Payload of the update instruction.
///
/// Layout: name length (u32, little-endian), name (UTF-8), inbox URL length
/// (u32, little-endian), inbox URL (UTF-8). Bytes past the URL are ignored.
#[derive(Debug, PartialEq, Eq)]
pub struct UpdateAgentData {
    pub name: String,
    pub inbox_url: String,
}

/// Reads the update payload: the name, then the inbox URL. Empty or
/// truncated input is `InvalidInstructionData`; a name over 64 bytes is
/// `NameTooLong`, a URL over 256 bytes `InboxUrlTooLong`, bytes that are not
/// UTF-8 `InvalidUtf8`.
pub open spec fn spec_parse_update(data: Seq<u8>) -> Result<(Seq<char>, Seq<char>), ProgramError> {
    if data.len() == 0 {
        Err(ProgramError::InvalidInstructionData)
    } else {
        match spec_read_str(
            data,
            0,
            MAX_NAME_LEN as int,
            AgentMailProgramError::NameTooLong.spec_into(),
        ) {
            Err(e) => Err(e),
            Ok((name, off)) => match spec_read_str(
                data,
                off,
                MAX_INBOX_URL_LEN as int,
                AgentMailProgramError::InboxUrlTooLong.spec_into(),
            ) {
                Err(e) => Err(e),
                Ok((inbox_url, _)) => Ok((name, inbox_url)),
            },
        }
    }
}

impl UpdateAgentData {
    /// Decodes the update payload.
    pub fn try_from(data: &[u8]) -> (r: Result<UpdateAgentData, ProgramError>)
        ensures
            match spec_parse_update(data@) {
                Ok((name, inbox_url)) => r matches Ok(d) && d.name@ == name && d.inbox_url@
                    == inbox_url,
                Err(e) => r == Err::<UpdateAgentData, ProgramError>(e),
            },
    {
        if data.len() == 0 {
            return Err(ProgramError::InvalidInstructionData);
        }
        let (name, offset) = match read_str(
            data,
            0,
            MAX_NAME_LEN,
            AgentMailProgramError::NameTooLong.into(),
        ) {
            Ok(v) => v,
            Err(e) => {
                return Err(e);
            },
        };
        let (inbox_url, _) = match read_str(
            data,
            offset,
            MAX_INBOX_URL_LEN,
            AgentMailProgramError::InboxUrlTooLong.into(),
        ) {
            Ok(v) => v,
            Err(e) => {
                return Err(e);
            },
        };
        Ok(UpdateAgentData { name, inbox_url })
    }
}

impl InstructionData for UpdateAgentData {

}

/// Accounts of the update instruction, in this order: the agent's authority
/// (signer), the record (writable), this program.
#[derive(Debug)]
pub struct UpdateAgentAccounts<'a> {
    pub agent_authority: &'a AccountView,
    pub agent_registry: &'a AccountView,
    pub program: &'a AccountView,
}

/// The first failed check on the update accounts, in the order in which they
/// run, or `Ok` when all pass.
pub open spec fn spec_check_update_accounts(accounts: Seq<AccountView>) -> Result<(), ProgramError> {
    if accounts.len() < 3 {
        Err(ProgramError::NotEnoughAccountKeys)
    } else if !accounts[0].is_signer {
        Err(ProgramError::MissingRequiredSignature)
    } else if !accounts[1].is_writable {
        Err(ProgramError::Immutable)
    } else if accounts[2].address@ != ID_BYTES@ {
        Err(ProgramError::IncorrectProgramId)
    } else {
        Ok(())
    }
}

impl<'a> UpdateAgentAccounts<'a> {
    /// Validates the account list and names its entries.
    pub fn try_from(accounts: &'a [AccountView]) -> (r: Result<UpdateAgentAccounts<'a>, ProgramError>)
        ensures
            match spec_check_update_accounts(accounts@) {
                Ok(()) => r matches Ok(a) && *a.agent_authority == accounts@[0] && *a.agent_registry
                    == accounts@[1] && *a.program == accounts@[2],
                Err(e) => r is Err && r->Err_0 == e,
            },
    {
        if accounts.len() < 3 {
            return Err(ProgramError::NotEnoughAccountKeys);
        }
        let agent_authority = &accounts[0];
        let agent_registry = &accounts[1];
        let program = &accounts[2];
        match verify_signer(agent_authority) {
            Ok(()) => {},
            Err(e) => {
                return Err(e);
            },
        }
        match verify_writable(agent_registry) {
            Ok(()) => {},
            Err(e) => {
                return Err(e);
            },
        }
        match verify_current_program(program) {
            Ok(()) => {},
            Err(e) => {
                return Err(e);
            },
        }
        Ok(UpdateAgentAccounts { agent_authority, agent_registry, program })
    }
}

impl<'a> InstructionAccounts for UpdateAgentAccounts<'a> {

}

/// The update instruction: its validated accounts and its decoded payload.
pub struct UpdateAgent<'a> {
    pub accounts: UpdateAgentAccounts<'a>,
    pub data: UpdateAgentData,
}

impl<'a> UpdateAgent<'a> {
    pub fn from(parts: (UpdateAgentAccounts<'a>, UpdateAgentData)) -> (r: UpdateAgent<'a>)
        ensures
            r.accounts == parts.0,
            r.data == parts.1,
    {
        let (accounts, data) = parts;
        UpdateAgent { accounts, data }
    }

    pub fn accounts(&self) -> (r: &UpdateAgentAccounts<'a>)
        ensures
            *r == self.accounts,
    {
        &self.accounts
    }

    pub fn data(&self) -> (r: &UpdateAgentData)
        ensures
            *r == self.data,
    {
        &self.data
    }

    /// Validates the accounts, then decodes the payload.
    pub fn parse(data: &[u8], accounts: &'a [AccountView]) -> (r: Result<UpdateAgent<'a>, ProgramError>)
        ensures
            spec_check_update_accounts(accounts@) is Err ==> r is Err && r->Err_0
                == spec_check_update_accounts(accounts@)->Err_0,
            spec_check_update_accounts(accounts@) is Ok && spec_parse_update(data@) is Err ==> r is Err
                && r->Err_0 == spec_parse_update(data@)->Err_0,
            spec_check_update_accounts(accounts@) is Ok && spec_parse_update(data@) is Ok ==> (r matches Ok(ix)
                && *ix.accounts.agent_authority == accounts@[0] && *ix.accounts.agent_registry
                == accounts@[1] && *ix.accounts.program == accounts@[2] && ix.data.name@
                == spec_parse_update(data@)->Ok_0.0 && ix.data.inbox_url@ == spec_parse_update(
                data@,
            )->Ok_0.1),
    {
        let accounts = match UpdateAgentAccounts::try_from(accounts) {
            Ok(a) => a,
            Err(e) => {
                return Err(e);
            },
        };
        let data = match UpdateAgentData::try_from(data) {
            Ok(d) => d,
            Err(e) => {
                return Err(e);
            },
        };
        Ok(UpdateAgent::from((accounts, data)))
    }
}

} // verus!
