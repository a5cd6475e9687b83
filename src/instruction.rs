//! What every instruction shares: the tag byte that selects it, and the
//! marker traits of its account list and payload.

use vstd::prelude::*;
use crate::errors::ProgramError;

verus! {

/// The instructions of the registry, by their tag byte.
#[derive(Clone, Copy, Debug, PartialEq, Eq, Structural)]
pub enum AgentMailInstructionDiscriminators {
    RegisterAgent,
    UpdateAgent,
    DeregisterAgent,
}

pub const REGISTER_AGENT_TAG: u8 = 3;

pub const UPDATE_AGENT_TAG: u8 = 4;

pub const DEREGISTER_AGENT_TAG: u8 = 5;

/// The instruction that a tag byte selects; any other byte is
/// `InvalidInstructionData`.
pub open spec fn spec_discriminator(tag: u8) -> Result<
    AgentMailInstructionDiscriminators,
    ProgramError,
> {
    if tag == REGISTER_AGENT_TAG {
        Ok(AgentMailInstructionDiscriminators::RegisterAgent)
    } else if tag == UPDATE_AGENT_TAG {
        Ok(AgentMailInstructionDiscriminators::UpdateAgent)
    } else if tag == DEREGISTER_AGENT_TAG {
        Ok(AgentMailInstructionDiscriminators::DeregisterAgent)
    } else {
        Err(ProgramError::InvalidInstructionData)
    }
}

impl AgentMailInstructionDiscriminators {
    /// The instruction that `value` selects.
    pub fn try_from(value: u8) -> (r: Result<AgentMailInstructionDiscriminators, ProgramError>)
        ensures
            r == spec_discriminator(value),
    {
        if value == REGISTER_AGENT_TAG {
            Ok(AgentMailInstructionDiscriminators::RegisterAgent)
        } else if value == UPDATE_AGENT_TAG {
            Ok(AgentMailInstructionDiscriminators::UpdateAgent)
        } else if value == DEREGISTER_AGENT_TAG {
            Ok(AgentMailInstructionDiscriminators::DeregisterAgent)
        } else {
            Err(ProgramError::InvalidInstructionData)
        }
    }

    /// The tag byte of this instruction.
    pub fn tag(&self) -> (r: u8)
        ensures
            spec_discriminator(r) == Ok::<AgentMailInstructionDiscriminators, ProgramError>(*self),
    {
        match self {
            AgentMailInstructionDiscriminators::RegisterAgent => REGISTER_AGENT_TAG,
            AgentMailInstructionDiscriminators::UpdateAgent => UPDATE_AGENT_TAG,
            AgentMailInstructionDiscriminators::DeregisterAgent => DEREGISTER_AGENT_TAG,
        }
    }
}

/// The instructions of the counter program that shares this program's
/// dispatch table, together with the register instruction, as client
/// tooling describes them.
#[derive(Clone, Debug, PartialEq)]
pub enum PinocchioCounterInstruction {
    /// Create a new counter for the authority.
    CreateCounter { bump: u8 },
    /// Increment the counter value by 1.
    Increment {},
    /// Close the counter and reclaim rent.
    CloseCounter {},
    /// Register an agent.
    RegisterAgent { bump: u8, name: String, inbox_url: String },
    /// Emit event data in instruction arguments, called by the program itself.
    EmitEvent {},
}

impl PinocchioCounterInstruction {
    pub open spec fn spec_discriminator(&self) -> u8 {
        match self {
            PinocchioCounterInstruction::CreateCounter { .. } => 0,
            PinocchioCounterInstruction::Increment {  } => 1,
            PinocchioCounterInstruction::CloseCounter {  } => 2,
            PinocchioCounterInstruction::RegisterAgent { .. } => REGISTER_AGENT_TAG,
            PinocchioCounterInstruction::EmitEvent {  } => 228,
        }
    }

    /// The tag byte of this instruction.
    pub fn discriminator(&self) -> (r: u8)
        ensures
            r == self.spec_discriminator(),
    {
        match self {
            PinocchioCounterInstruction::CreateCounter { .. } => 0,
            PinocchioCounterInstruction::Increment {  } => 1,
            PinocchioCounterInstruction::CloseCounter {  } => 2,
            PinocchioCounterInstruction::RegisterAgent { .. } => REGISTER_AGENT_TAG,
            PinocchioCounterInstruction::EmitEvent {  } => 228,
        }
    }
}

/// Marks the validated account list of an instruction.
pub trait InstructionAccounts {

}

/// Marks the decoded payload of an instruction.
pub trait InstructionData {

}

} // verus!
