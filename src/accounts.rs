//! The accounts handed to an instruction, and the checks on each of them.

use vstd::prelude::*;
use crate::address::{Address, ID_BYTES, SYSTEM_PROGRAM_ID_BYTES};
use crate::errors::ProgramError;

verus! {

/// One account reference of a call, as the runtime presents it: its address,
/// its owning program, its balance, its bytes and the two flags that the
/// caller declared.
#[derive(Clone, Debug)]
pub struct AccountView {
    pub address: Address,
    pub owner: Address,
    pub lamports: u64,
    pub data: Vec<u8>,
    pub is_signer: bool,
    pub is_writable: bool,
}

impl AccountView {
    pub fn new(
        address: Address,
        owner: Address,
        lamports: u64,
        data: Vec<u8>,
        is_signer: bool,
        is_writable: bool,
    ) -> (r: AccountView)
        ensures
            r == (AccountView { address, owner, lamports, data, is_signer, is_writable }),
    {
        AccountView { address, owner, lamports, data, is_signer, is_writable }
    }

    pub fn address(&self) -> (r: &Address)
        ensures
            *r == self.address,
    {
        &self.address
    }

    pub fn owner(&self) -> (r: &Address)
        ensures
            *r == self.owner,
    {
        &self.owner
    }

    pub fn data_len(&self) -> (r: usize)
        ensures
            r == self.data@.len(),
    {
        self.data.len()
    }

    pub fn data(&self) -> (r: &[u8])
        ensures
            r@ == self.data@,
    {
        self.data.as_slice()
    }
}

/// Fails with `MissingRequiredSignature` unless the account signed the call.
pub fn verify_signer(account: &AccountView) -> (r: Result<(), ProgramError>)
    ensures
        r == if account.is_signer {
            Ok::<(), ProgramError>(())
        } else {
            Err(ProgramError::MissingRequiredSignature)
        },
{
    if !account.is_signer {
        return Err(ProgramError::MissingRequiredSignature);
    }
    Ok(())
}

/// Fails with `Immutable` unless the account was passed as writable.
pub fn verify_writable(account: &AccountView) -> (r: Result<(), ProgramError>)
    ensures
        r == if account.is_writable {
            Ok::<(), ProgramError>(())
        } else {
            Err(ProgramError::Immutable)
        },
{
    if !account.is_writable {
        return Err(ProgramError::Immutable);
    }
    Ok(())
}

/// Fails with `AccountAlreadyInitialized` when the account already holds data.
pub fn verify_empty(account: &AccountView) -> (r: Result<(), ProgramError>)
    ensures
        r == if account.data@.len() == 0 {
            Ok::<(), ProgramError>(())
        } else {
            Err(ProgramError::AccountAlreadyInitialized)
        },
{
    if account.data.len() != 0 {
        return Err(ProgramError::AccountAlreadyInitialized);
    }
    Ok(())
}

/// Fails with `IncorrectProgramId` unless the system program owns the account.
pub fn verify_system_account(account: &AccountView) -> (r: Result<(), ProgramError>)
    ensures
        r == if account.owner@ == SYSTEM_PROGRAM_ID_BYTES@ {
            Ok::<(), ProgramError>(())
        } else {
            Err(ProgramError::IncorrectProgramId)
        },
{
    if !account.owner.equals(&Address::system_program_id()) {
        return Err(ProgramError::IncorrectProgramId);
    }
    Ok(())
}

/// Fails with `IncorrectProgramId` unless the account is the system program.
pub fn verify_system_program(account: &AccountView) -> (r: Result<(), ProgramError>)
    ensures
        r == if account.address@ == SYSTEM_PROGRAM_ID_BYTES@ {
            Ok::<(), ProgramError>(())
        } else {
            Err(ProgramError::IncorrectProgramId)
        },
{
    if !account.address.equals(&Address::system_program_id()) {
        return Err(ProgramError::IncorrectProgramId);
    }
    Ok(())
}

/// Fails with `IncorrectProgramId` unless the account is this program.
pub fn verify_current_program(account: &AccountView) -> (r: Result<(), ProgramError>)
    ensures
        r == if account.address@ == ID_BYTES@ {
            Ok::<(), ProgramError>(())
        } else {
            Err(ProgramError::IncorrectProgramId)
        },
{
    if !account.address.equals(&Address::program_id()) {
        return Err(ProgramError::IncorrectProgramId);
    }
    Ok(())
}

} // verus!
