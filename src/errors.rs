use vstd::prelude::*;

verus! {

/// The error values that the host runtime understands; the registry's own
/// errors travel as `Custom` codes.
#[derive(Clone, Copy, Debug, PartialEq, Eq, Structural)]
pub enum ProgramError {
    Custom(u32),
    InvalidArgument,
    InvalidInstructionData,
    InvalidAccountData,
    AccountAlreadyInitialized,
    NotEnoughAccountKeys,
    MissingRequiredSignature,
    Immutable,
    IncorrectProgramId,
    InvalidSeeds,
}

/// Errors of the counter program that shares this program's dispatch table.
#[derive(Clone, Copy, Debug, PartialEq, Eq, Structural)]
pub enum PinocchioCounterProgramError {
    /// Authority invalid or does not match counter authority
    InvalidAuthority,
    /// Event authority PDA is invalid
    InvalidEventAuthority,
}

impl PinocchioCounterProgramError {
    pub open spec fn spec_code(self) -> u32 {
        match self {
            PinocchioCounterProgramError::InvalidAuthority => 0,
            PinocchioCounterProgramError::InvalidEventAuthority => 1,
        }
    }

    /// The numeric code of this error.
    pub fn code(&self) -> (r: u32)
        ensures
            r == self.spec_code(),
    {
        match self {
            PinocchioCounterProgramError::InvalidAuthority => 0,
            PinocchioCounterProgramError::InvalidEventAuthority => 1,
        }
    }
}

impl From<PinocchioCounterProgramError> for ProgramError {
    fn from(e: PinocchioCounterProgramError) -> (r: ProgramError) {
        ProgramError::Custom(e.code())
    }
}

impl vstd::std_specs::convert::FromSpecImpl<PinocchioCounterProgramError> for ProgramError {
    open spec fn obeys_from_spec() -> bool {
        true
    }

    open spec fn from_spec(e: PinocchioCounterProgramError) -> ProgramError {
        ProgramError::Custom(e.spec_code())
    }
}

/// Offset added to the registry's error codes so that they do not collide
/// with those of the counter program.
pub const AGENTMAIL_ERROR_OFFSET: u32 = 100;

/// Errors of the agent registry.
#[derive(Clone, Copy, Debug, PartialEq, Eq, Structural)]
pub enum AgentMailProgramError {
    /// Authority invalid or does not match registry authority
    InvalidAuthority,
    /// Agent name is too long (max 64 bytes)
    NameTooLong,
    /// Inbox URL is too long (max 256 bytes)
    InboxUrlTooLong,
    /// Invalid name length in stored data
    InvalidNameLength,
    /// Invalid inbox URL length in stored data
    InvalidInboxUrlLength,
    /// Invalid UTF-8 data in string fields
    InvalidUtf8,
    /// Agent registry already exists for this authority
    RegistryAlreadyExists,
    /// Agent registry does not exist for this authority
    RegistryDoesNotExist,
    /// Invalid account size for agent registry
    InvalidAccountSize,
    /// Invalid account data format
    InvalidAccountData,
}

impl AgentMailProgramError {
    pub open spec fn spec_code(self) -> u32 {
        match self {
            AgentMailProgramError::InvalidAuthority => 0,
            AgentMailProgramError::NameTooLong => 1,
            AgentMailProgramError::InboxUrlTooLong => 2,
            AgentMailProgramError::InvalidNameLength => 3,
            AgentMailProgramError::InvalidInboxUrlLength => 4,
            AgentMailProgramError::InvalidUtf8 => 5,
            AgentMailProgramError::RegistryAlreadyExists => 6,
            AgentMailProgramError::RegistryDoesNotExist => 7,
            AgentMailProgramError::InvalidAccountSize => 8,
            AgentMailProgramError::InvalidAccountData => 9,
        }
    }

    /// The numeric code of this error, before the offset.
    pub fn code(&self) -> (r: u32)
        ensures
            r == self.spec_code(),
    {
        match self {
            AgentMailProgramError::InvalidAuthority => 0,
            AgentMailProgramError::NameTooLong => 1,
            AgentMailProgramError::InboxUrlTooLong => 2,
            AgentMailProgramError::InvalidNameLength => 3,
            AgentMailProgramError::InvalidInboxUrlLength => 4,
            AgentMailProgramError::InvalidUtf8 => 5,
            AgentMailProgramError::RegistryAlreadyExists => 6,
            AgentMailProgramError::RegistryDoesNotExist => 7,
            AgentMailProgramError::InvalidAccountSize => 8,
            AgentMailProgramError::InvalidAccountData => 9,
        }
    }

    /// The runtime error that carries this error.
    pub open spec fn spec_into(self) -> ProgramError {
        ProgramError::Custom((AGENTMAIL_ERROR_OFFSET + self.spec_code()) as u32)
    }
}

impl From<AgentMailProgramError> for ProgramError {
    fn from(e: AgentMailProgramError) -> (r: ProgramError) {
        ProgramError::Custom(AGENTMAIL_ERROR_OFFSET + e.code())
    }
}

impl vstd::std_specs::convert::FromSpecImpl<AgentMailProgramError> for ProgramError {
    open spec fn obeys_from_spec() -> bool {
        true
    }

    open spec fn from_spec(e: AgentMailProgramError) -> ProgramError {
        e.spec_into()
    }
}

} // verus!
