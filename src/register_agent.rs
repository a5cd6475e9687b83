//! The register instruction: creates the record of a new agent.

use vstd::prelude::*;
use crate::accounts::{
    verify_current_program, verify_empty, verify_signer, verify_system_account,
    verify_system_program, verify_writable, AccountView,
};
use crate::address::{ID_BYTES, SYSTEM_PROGRAM_ID_BYTES};
use crate::codec::{read_str, spec_read_str};
use crate::errors::{AgentMailProgramError, ProgramError};
use crate::instruction::{InstructionAccounts, InstructionData};
use crate::state::{MAX_INBOX_URL_LEN, MAX_NAME_LEN};

verus! {

/// Payload of the register instruction.
///
/// Layout: bump (u8), name length (u32, little-endian), name (UTF-8), inbox
/// URL length (u32, little-endian), inbox URL (UTF-8). Bytes past the URL
/// are ignored.
#[derive(Debug, PartialEq, Eq)]
pub struct RegisterAgentData {
    pub bump: u8,
    pub name: String,
    pub inbox_url: String,
}

/// Reads the register payload: the bump, the name, then the inbox URL.
/// Empty or truncated input is `InvalidInstructionData`; a name over 64
/// bytes is `NameTooLong`, a URL over 256 bytes `InboxUrlTooLong`, bytes that
/// are not UTF-8 `InvalidUtf8`.
pub open spec fn spec_parse_register(data: Seq<u8>) -> Result<
    (u8, Seq<char>, Seq<char>),
    ProgramError,
> {
    if data.len() == 0 {
        Err(ProgramError::InvalidInstructionData)
    } else {
        match spec_read_str(
            data,
            1,
            MAX_NAME_LEN as int,
            AgentMailProgramError::NameTooLong.spec_into(),
        ) {
            Err(e) => Err(e),
            Ok((name, off)) => match spec_read_str(
                data,
                off,
                MAX_INBOX_URL_LEN as int,
                AgentMailProgramError::InboxUrlTooLong.spec_into(),
            ) {
                Err(e) => Err(e),
                Ok((inbox_url, _)) => Ok((data[0], name, inbox_url)),
            },
        }
    }
}

impl RegisterAgentData {
    /// Decodes the register payload.
    pub fn try_from(data: &[u8]) -> (r: Result<RegisterAgentData, ProgramError>)
        ensures
            match spec_parse_register(data@) {
                Ok((bump, name, inbox_url)) => r matches Ok(d) && d.bump == bump && d.name@ == name
                    && d.inbox_url@ == inbox_url,
                Err(e) => r == Err::<RegisterAgentData, ProgramError>(e),
            },
    {
        if data.len() == 0 {
            return Err(ProgramError::InvalidInstructionData);
        }
        let bump = data[0];
        let (name, offset) = match read_str(
            data,
            1,
            MAX_NAME_LEN,
            AgentMailProgramError::NameTooLong.into(),
        ) {
            Ok(v) => v,
            Err(e) => {
                return Err(e);
            },
        };
        let (inbox_url, _) = match read_str(
            data,
            offset,
            MAX_INBOX_URL_LEN,
            AgentMailProgramError::InboxUrlTooLong.into(),
        ) {
            Ok(v) => v,
            Err(e) => {
                return Err(e);
            },
        };
        Ok(RegisterAgentData { bump, name, inbox_url })
    }
}

impl InstructionData for RegisterAgentData {

}

/// Accounts of the register instruction, in this order: the payer (signer,
/// writable), the agent's authority (signer), the record slot (writable,
/// empty, owned by the system program), the system program, this program.
#[derive(Debug)]
pub struct RegisterAgentAccounts<'a> {
    pub payer: &'a AccountView,
    pub agent_authority: &'a AccountView,
    pub agent_registry: &'a AccountView,
    pub system_program: &'a AccountView,
    pub program: &'a AccountView,
}

/// The first failed check on the register accounts, in the order in which
/// they run, or `Ok` when all pass.
pub open spec fn spec_check_register_accounts(accounts: Seq<AccountView>) -> Result<
    (),
    ProgramError,
> {
    if accounts.len() < 5 {
        Err(ProgramError::NotEnoughAccountKeys)
    } else if !accounts[0].is_signer {
        Err(ProgramError::MissingRequiredSignature)
    } else if !accounts[0].is_writable {
        Err(ProgramError::Immutable)
    } else if !accounts[1].is_signer {
        Err(ProgramError::MissingRequiredSignature)
    } else if !accounts[2].is_writable {
        Err(ProgramError::Immutable)
    } else if accounts[2].data@.len() != 0 {
        Err(ProgramError::AccountAlreadyInitialized)
    } else if accounts[2].owner@ != SYSTEM_PROGRAM_ID_BYTES@ {
        Err(ProgramError::IncorrectProgramId)
    } else if accounts[3].address@ != SYSTEM_PROGRAM_ID_BYTES@ {
        Err(ProgramError::IncorrectProgramId)
    } else if accounts[4].address@ != ID_BYTES@ {
        Err(ProgramError::IncorrectProgramId)
    } else {
        Ok(())
    }
}

impl<'a> RegisterAgentAccounts<'a> {
    /// Validates the account list and names its entries.
    pub fn try_from(accounts: &'a [AccountView]) -> (r: Result<RegisterAgentAccounts<'a>, ProgramError>)
        ensures
            match spec_check_register_accounts(accounts@) {
                Ok(()) => r matches Ok(a) && *a.payer == accounts@[0] && *a.agent_authority
                    == accounts@[1] && *a.agent_registry == accounts@[2] && *a.system_program
                    == accounts@[3] && *a.program == accounts@[4],
                Err(e) => r is Err && r->Err_0 == e,
            },
    {
        if accounts.len() < 5 {
            return Err(ProgramError::NotEnoughAccountKeys);
        }
        let payer = &accounts[0];
        let agent_authority = &accounts[1];
        let agent_registry = &accounts[2];
        let system_program = &accounts[3];
        let program = &accounts[4];
        match verify_signer(payer) {
            Ok(()) => {},
            Err(e) => {
                return Err(e);
            },
        }
        match verify_writable(payer) {
            Ok(()) => {},
            Err(e) => {
                return Err(e);
            },
        }
        match verify_signer(agent_authority) {
            Ok(()) => {},
            Err(e) => {
                return Err(e);
            },
        }
        match verify_writable(agent_registry) {
            Ok(()) => {},
            Err(e) => {
                return Err(e);
            },
        }
        match verify_empty(agent_registry) {
            Ok(()) => {},
            Err(e) => {
                return Err(e);
            },
        }
        match verify_system_account(agent_registry) {
            Ok(()) => {},
            Err(e) => {
                return Err(e);
            },
        }
        match verify_system_program(system_program) {
            Ok(()) => {},
            Err(e) => {
                return Err(e);
            },
        }
        match verify_current_program(program) {
            Ok(()) => {},
            Err(e) => {
                return Err(e);
            },
        }
        Ok(RegisterAgentAccounts { payer, agent_authority, agent_registry, system_program, program })
    }
}

impl<'a> InstructionAccounts for RegisterAgentAccounts<'a> {

}

/// The register instruction: its validated accounts and its decoded payload.
pub struct RegisterAgent<'a> {
    pub accounts: RegisterAgentAccounts<'a>,
    pub data: RegisterAgentData,
}

impl<'a> RegisterAgent<'a> {
    pub fn from(parts: (RegisterAgentAccounts<'a>, RegisterAgentData)) -> (r: RegisterAgent<'a>)
        ensures
            r.accounts == parts.0,
            r.data == parts.1,
    {
        let (accounts, data) = parts;
        RegisterAgent { accounts, data }
    }

    pub fn accounts(&self) -> (r: &RegisterAgentAccounts<'a>)
        ensures
            *r == self.accounts,
    {
        &self.accounts
    }

    pub fn data(&self) -> (r: &RegisterAgentData)
        ensures
            *r == self.data,
    {
        &self.data
    }

    /// Validates the accounts, then decodes the payload.
    pub fn parse(data: &[u8], accounts: &'a [AccountView]) -> (r: Result<RegisterAgent<'a>, ProgramError>)
        ensures
            spec_check_register_accounts(accounts@) is Err ==> r is Err && r->Err_0
                == spec_check_register_accounts(accounts@)->Err_0,
            spec_check_register_accounts(accounts@) is Ok && spec_parse_register(data@) is Err ==> r is Err
                && r->Err_0 == spec_parse_register(data@)->Err_0,
            spec_check_register_accounts(accounts@) is Ok && spec_parse_register(data@) is Ok ==> (r matches Ok(ix)
                && *ix.accounts.payer == accounts@[0] && *ix.accounts.agent_authority == accounts@[1]
                && *ix.accounts.agent_registry == accounts@[2] && *ix.accounts.system_program
                == accounts@[3] && *ix.accounts.program == accounts@[4] && ix.data.bump
                == spec_parse_register(data@)->Ok_0.0 && ix.data.name@ == spec_parse_register(
                data@,
            )->Ok_0.1 && ix.data.inbox_url@ == spec_parse_register(data@)->Ok_0.2),
    {
        let accounts = match RegisterAgentAccounts::try_from(accounts) {
            Ok(a) => a,
            Err(e) => {
                return Err(e);
            },
        };
        let data = match RegisterAgentData::try_from(data) {
            Ok(d) => d,
            Err(e) => {
                return Err(e);
            },
        };
        Ok(RegisterAgent::from((accounts, data)))
    }
}

} // verus!
