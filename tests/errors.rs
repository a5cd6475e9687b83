use agentmail::errors::{AgentMailProgramError, PinocchioCounterProgramError, ProgramError};

#[test]
fn test_error_conversion() {
    let error: ProgramError = PinocchioCounterProgramError::InvalidAuthority.into();
    assert_eq!(error, ProgramError::Custom(0));

    let error: ProgramError = PinocchioCounterProgramError::InvalidEventAuthority.into();
    assert_eq!(error, ProgramError::Custom(1));
}

#[test]
fn test_agentmail_error_conversion() {
    let error: ProgramError = AgentMailProgramError::InvalidAuthority.into();
    assert_eq!(error, ProgramError::Custom(100));

    let error: ProgramError = AgentMailProgramError::NameTooLong.into();
    assert_eq!(error, ProgramError::Custom(101));

    let error: ProgramError = AgentMailProgramError::RegistryAlreadyExists.into();
    assert_eq!(error, ProgramError::Custom(106));
}

#[test]
fn every_agentmail_error_has_its_own_code() {
    let all = [
        AgentMailProgramError::InvalidAuthority,
        AgentMailProgramError::NameTooLong,
        AgentMailProgramError::InboxUrlTooLong,
        AgentMailProgramError::InvalidNameLength,
        AgentMailProgramError::InvalidInboxUrlLength,
        AgentMailProgramError::InvalidUtf8,
        AgentMailProgramError::RegistryAlreadyExists,
        AgentMailProgramError::RegistryDoesNotExist,
        AgentMailProgramError::InvalidAccountSize,
        AgentMailProgramError::InvalidAccountData,
    ];
    for (i, e) in all.iter().enumerate() {
        let error: ProgramError = (*e).into();
        assert_eq!(error, ProgramError::Custom(100 + i as u32));
    }
}
