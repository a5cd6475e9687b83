use agentmail::accounts::{
    verify_current_program, verify_empty, verify_signer, verify_system_account,
    verify_system_program, verify_writable, AccountView,
};
use agentmail::address::Address;
use agentmail::deregister_agent::DeregisterAgentAccounts;
use agentmail::errors::ProgramError;
use agentmail::register_agent::RegisterAgentAccounts;
use agentmail::update_agent::UpdateAgentAccounts;

fn create_mock_account(
    address: Address,
    owner: Address,
    lamports: u64,
    data_len: usize,
    is_signer: bool,
    is_writable: bool,
) -> AccountView {
    AccountView::new(address, owner, lamports, vec![0u8; data_len], is_signer, is_writable)
}

fn register_accounts() -> [AccountView; 5] {
    let payer = create_mock_account(
        Address::new_from_array([1u8; 32]),
        Address::system_program_id(),
        1000000,
        0,
        true,
        true,
    );
    let agent_authority = create_mock_account(
        Address::new_from_array([2u8; 32]),
        Address::system_program_id(),
        0,
        0,
        true,
        false,
    );
    let agent_registry = create_mock_account(
        Address::new_from_array([3u8; 32]),
        Address::system_program_id(),
        0,
        0,
        false,
        true,
    );
    let system_program = create_mock_account(
        Address::system_program_id(),
        Address::new_from_array([0u8; 32]),
        1,
        0,
        false,
        false,
    );
    let program = create_mock_account(
        Address::program_id(),
        Address::new_from_array([0u8; 32]),
        1,
        0,
        false,
        false,
    );
    [payer, agent_authority, agent_registry, system_program, program]
}

#[test]
fn test_register_agent_accounts_valid() {
    let accounts = register_accounts();
    let result = RegisterAgentAccounts::try_from(&accounts[..]);

    assert!(result.is_ok());
}

#[test]
fn test_register_agent_accounts_not_enough_keys() {
    let accounts: [AccountView; 0] = [];
    let result = RegisterAgentAccounts::try_from(&accounts[..]);
    assert_eq!(result.unwrap_err(), ProgramError::NotEnoughAccountKeys);
}

#[test]
fn register_accounts_checks_run_in_order() {
    let accounts = register_accounts();
    assert_eq!(
        RegisterAgentAccounts::try_from(&accounts[..4]).unwrap_err(),
        ProgramError::NotEnoughAccountKeys
    );

    let mut a = register_accounts();
    a[0].is_signer = false;
    a[3].address = Address::new_from_array([7u8; 32]);
    assert_eq!(RegisterAgentAccounts::try_from(&a[..]).unwrap_err(), ProgramError::MissingRequiredSignature);

    let mut a = register_accounts();
    a[0].is_writable = false;
    assert_eq!(RegisterAgentAccounts::try_from(&a[..]).unwrap_err(), ProgramError::Immutable);

    let mut a = register_accounts();
    a[1].is_signer = false;
    assert_eq!(RegisterAgentAccounts::try_from(&a[..]).unwrap_err(), ProgramError::MissingRequiredSignature);

    let mut a = register_accounts();
    a[2].is_writable = false;
    assert_eq!(RegisterAgentAccounts::try_from(&a[..]).unwrap_err(), ProgramError::Immutable);

    let mut a = register_accounts();
    a[2].data = vec![1u8; 384];
    assert_eq!(RegisterAgentAccounts::try_from(&a[..]).unwrap_err(), ProgramError::AccountAlreadyInitialized);

    let mut a = register_accounts();
    a[2].owner = Address::program_id();
    assert_eq!(RegisterAgentAccounts::try_from(&a[..]).unwrap_err(), ProgramError::IncorrectProgramId);

    let mut a = register_accounts();
    a[3].address = Address::new_from_array([7u8; 32]);
    assert_eq!(RegisterAgentAccounts::try_from(&a[..]).unwrap_err(), ProgramError::IncorrectProgramId);

    let mut a = register_accounts();
    a[4].address = Address::new_from_array([7u8; 32]);
    assert_eq!(RegisterAgentAccounts::try_from(&a[..]).unwrap_err(), ProgramError::IncorrectProgramId);
}

fn update_accounts(authority_signer: bool, registry_writable: bool) -> [AccountView; 3] {
    let agent_authority = create_mock_account(
        Address::new_from_array([1u8; 32]),
        Address::new_from_array([11u8; 32]),
        0,
        0,
        authority_signer,
        false,
    );
    let agent_registry = create_mock_account(
        Address::new_from_array([2u8; 32]),
        Address::program_id(),
        0,
        384,
        false,
        registry_writable,
    );
    let program = create_mock_account(
        Address::program_id(),
        Address::new_from_array([0u8; 32]),
        1,
        0,
        false,
        false,
    );
    [agent_authority, agent_registry, program]
}

#[test]
fn test_update_agent_accounts_valid() {
    let accounts = update_accounts(true, true);
    let result = UpdateAgentAccounts::try_from(&accounts[..]);

    assert!(result.is_ok());
}

#[test]
fn test_update_agent_accounts_not_enough_keys() {
    let accounts: [AccountView; 0] = [];
    let result = UpdateAgentAccounts::try_from(&accounts[..]);
    assert_eq!(result.unwrap_err(), ProgramError::NotEnoughAccountKeys);
}

#[test]
fn test_update_agent_accounts_authority_not_signer() {
    let accounts = update_accounts(false, true);
    let result = UpdateAgentAccounts::try_from(&accounts[..]);

    assert!(result.is_err());
}

#[test]
fn test_update_agent_accounts_registry_not_writable() {
    let accounts = update_accounts(true, false);
    let result = UpdateAgentAccounts::try_from(&accounts[..]);

    assert!(result.is_err());
}

#[test]
fn update_accounts_reject_a_foreign_program() {
    let mut accounts = update_accounts(true, true);
    accounts[2].address = Address::new_from_array([5u8; 32]);
    assert_eq!(
        UpdateAgentAccounts::try_from(&accounts[..]).unwrap_err(),
        ProgramError::IncorrectProgramId
    );
}

fn deregister_accounts(
    authority_signer: bool,
    authority_writable: bool,
    registry_writable: bool,
) -> [AccountView; 3] {
    let agent_authority = create_mock_account(
        Address::new_from_array([1u8; 32]),
        Address::new_from_array([11u8; 32]),
        1000000,
        0,
        authority_signer,
        authority_writable,
    );
    let agent_registry = create_mock_account(
        Address::new_from_array([2u8; 32]),
        Address::program_id(),
        5000000,
        384,
        false,
        registry_writable,
    );
    let program = create_mock_account(
        Address::program_id(),
        Address::new_from_array([0u8; 32]),
        1,
        0,
        false,
        false,
    );
    [agent_authority, agent_registry, program]
}

#[test]
fn test_deregister_agent_accounts_valid() {
    let accounts = deregister_accounts(true, true, true);
    let result = DeregisterAgentAccounts::try_from(&accounts[..]);

    assert!(result.is_ok());
}

#[test]
fn test_deregister_agent_accounts_not_enough_keys() {
    let accounts: [AccountView; 0] = [];
    let result = DeregisterAgentAccounts::try_from(&accounts[..]);
    assert_eq!(result.err().unwrap(), ProgramError::NotEnoughAccountKeys);
}

#[test]
fn test_deregister_agent_accounts_authority_not_signer() {
    let accounts = deregister_accounts(false, true, true);
    let result = DeregisterAgentAccounts::try_from(&accounts[..]);

    assert!(result.is_err());
}

#[test]
fn test_deregister_agent_accounts_authority_not_writable() {
    let accounts = deregister_accounts(true, false, true);
    let result = DeregisterAgentAccounts::try_from(&accounts[..]);

    assert!(result.is_err());
}

#[test]
fn test_deregister_agent_accounts_registry_not_writable() {
    let accounts = deregister_accounts(true, true, false);
    let result = DeregisterAgentAccounts::try_from(&accounts[..]);

    assert!(result.is_err());
}

#[test]
fn single_account_checks() {
    let signer = create_mock_account(Address::new_from_array([1u8; 32]), Address::system_program_id(), 0, 0, true, false);
    assert!(verify_signer(&signer).is_ok());
    assert_eq!(verify_writable(&signer), Err(ProgramError::Immutable));
    assert!(verify_empty(&signer).is_ok());
    assert!(verify_system_account(&signer).is_ok());
    assert_eq!(verify_system_program(&signer), Err(ProgramError::IncorrectProgramId));
    assert_eq!(verify_current_program(&signer), Err(ProgramError::IncorrectProgramId));

    let filled = create_mock_account(Address::program_id(), Address::program_id(), 0, 1, false, true);
    assert_eq!(verify_signer(&filled), Err(ProgramError::MissingRequiredSignature));
    assert!(verify_writable(&filled).is_ok());
    assert_eq!(verify_empty(&filled), Err(ProgramError::AccountAlreadyInitialized));
    assert_eq!(verify_system_account(&filled), Err(ProgramError::IncorrectProgramId));
    assert!(verify_current_program(&filled).is_ok());

    let system = create_mock_account(Address::system_program_id(), Address::new_from_array([0u8; 32]), 1, 0, false, false);
    assert!(verify_system_program(&system).is_ok());
}
