use vstd::prelude::*;

use crate::instruction::Instruction;

verus! {

/// The address of an instruction in the decoded stream.
pub type Address = u64;

/// A decoded instruction and the address it was read from.
#[derive(Debug, PartialEq, Copy, Clone)]
pub struct InstructionRecord {
    pub(crate) instruction: Instruction,
    pub(crate) address: Address,
}

impl InstructionRecord {
    /// The record's instruction.
    pub open(crate) spec fn spec_instruction(self) -> Instruction {
        self.instruction
    }

    /// The record's address.
    pub open(crate) spec fn spec_address(self) -> Address {
        self.address
    }

    /// Pairs an instruction with its address.
    pub fn new(instruction: Instruction, address: Address) -> (r: InstructionRecord)
        ensures
            r.spec_instruction() == instruction,
            r.spec_address() == address,
    {
        InstructionRecord { instruction, address }
    }

    /// The record's instruction.
    pub fn instruction(&self) -> (r: Instruction)
        ensures
            r == self.spec_instruction(),
    {
        self.instruction
    }

    /// The record's address.
    pub fn address(&self) -> (r: Address)
        ensures
            r == self.spec_address(),
    {
        self.address
    }
}

} // verus!
