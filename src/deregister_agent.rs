//! The deregister instruction: closes an agent's record.

use vstd::prelude::*;
use crate::accounts::{verify_current_program, verify_signer, verify_writable, AccountView};
use crate::address::ID_BYTES;
use crate::errors::ProgramError;
use crate::instruction::{InstructionAccounts, InstructionData};

verus! {

/// Payload of the deregister instruction: there is none, and any bytes
/// given are ignored.
#[derive(Clone, Copy, Debug, PartialEq, Eq, Structural)]
pub struct DeregisterAgentData;

impl DeregisterAgentData {
    /// Accepts any payload, the empty one included.
    pub fn try_from(_data: &[u8]) -> (r: Result<DeregisterAgentData, ProgramError>)
        ensures
            r == Ok::<DeregisterAgentData, ProgramError>(DeregisterAgentData),
    {
        Ok(DeregisterAgentData)
    }
}

impl InstructionData for DeregisterAgentData {

}

/// Accounts of the deregister instruction, in this order: the agent's
/// authority (signer, writable: it takes back the record's balance), the
/// record (writable), this program.
pub struct DeregisterAgentAccounts<'a> {
    pub agent_authority: &'a AccountView,
    pub agent_registry: &'a AccountView,
    pub program: &'a AccountView,
}

/// The first failed check on the deregister accounts, in the order in which
/// they run, or `Ok` when all pass.
pub open spec fn spec_check_deregister_accounts(accounts: Seq<AccountView>) -> Result<
    (),
    ProgramError,
> {
    if accounts.len() < 3 {
        Err(ProgramError::NotEnoughAccountKeys)
    } else if !accounts[0].is_signer {
        Err(ProgramError::MissingRequiredSignature)
    } else if !accounts[0].is_writable {
        Err(ProgramError::Immutable)
    } else if !accounts[1].is_writable {
        Err(ProgramError::Immutable)
    } else if accounts[2].address@ != ID_BYTES@ {
        Err(ProgramError::IncorrectProgramId)
    } else {
        Ok(())
    }
}

impl<'a> DeregisterAgentAccounts<'a> {
    /// Validates the account list and names its entries.
    pub fn try_from(accounts: &'a [AccountView]) -> (r: Result<DeregisterAgentAccounts<'a>, ProgramError>)
        ensures
            match spec_check_deregister_accounts(accounts@) {
                Ok(()) => r matches Ok(a) && *a.agent_authority == accounts@[0] && *a.agent_registry
                    == accounts@[1] && *a.program == accounts@[2],
                Err(e) => r is Err && r->Err_0 == e,
            },
    {
        if accounts.len() < 3 {
            return Err(ProgramError::NotEnoughAccountKeys);
        }
        let agent_authority = &accounts[0];
        let agent_registry = &accounts[1];
        let program = &accounts[2];
        match verify_signer(agent_authority) {
            Ok(()) => {},
            Err(e) => {
                return Err(e);
            },
        }
        match verify_writable(agent_authority) {
            Ok(()) => {},
            Err(e) => {
                return Err(e);
            },
        }
        match verify_writable(agent_registry) {
            Ok(()) => {},
            Err(e) => {
                return Err(e);
            },
        }
        match verify_current_program(program) {
            Ok(()) => {},
            Err(e) => {
                return Err(e);
            },
        }
        Ok(DeregisterAgentAccounts { agent_authority, agent_registry, program })
    }
}

impl<'a> InstructionAccounts for DeregisterAgentAccounts<'a> {

}

/// The deregister instruction: its validated accounts.
pub struct DeregisterAgent<'a> {
    pub accounts: DeregisterAgentAccounts<'a>,
    pub data: DeregisterAgentData,
}

impl<'a> DeregisterAgent<'a> {
    pub fn from(parts: (DeregisterAgentAccounts<'a>, DeregisterAgentData)) -> (r: DeregisterAgent<'a>)
        ensures
            r.accounts == parts.0,
            r.data == parts.1,
    {
        let (accounts, data) = parts;
        DeregisterAgent { accounts, data }
    }

    pub fn accounts(&self) -> (r: &DeregisterAgentAccounts<'a>)
        ensures
            *r == self.accounts,
    {
        &self.accounts
    }

    pub fn data(&self) -> (r: &DeregisterAgentData)
        ensures
            *r == self.data,
    {
        &self.data
    }

    /// Validates the accounts; the payload is ignored.
    pub fn parse(data: &[u8], accounts: &'a [AccountView]) -> (r: Result<DeregisterAgent<'a>, ProgramError>)
        ensures
            match spec_check_deregister_accounts(accounts@) {
                Ok(()) => r matches Ok(ix) && *ix.accounts.agent_authority == accounts@[0]
                    && *ix.accounts.agent_registry == accounts@[1] && *ix.accounts.program
                    == accounts@[2],
                Err(e) => r is Err && r->Err_0 == e,
            },
    {
        let accounts = match DeregisterAgentAccounts::try_from(accounts) {
            Ok(a) => a,
            Err(e) => {
                return Err(e);
            },
        };
        let data = match DeregisterAgentData::try_from(data) {
            Ok(d) => d,
            Err(e) => {
                return Err(e);
            },
        };
        Ok(DeregisterAgent::from((accounts, data)))
    }
}

} // verus!
