use vstd::prelude::*;

use crate::format::InstructionFormat;
use crate::mnemonic::Mnemonic;
use crate::opcode::Opcode;

verus! {

/// What every instruction offers, whatever its format.
pub trait InstructionTrait {
    /// The instruction's opcode.
    spec fn spec_opcode(&self) -> Opcode;

    /// The instruction's immediate, scattered to its bits of the word (zero
    /// for a format without one).
    spec fn spec_immediate_bits(&self) -> u32;

    /// The instruction's mnemonic, if the table has one.
    spec fn spec_mnemonic(&self) -> Option<Mnemonic>;

    fn opcode(&self) -> (r: &Opcode)
        ensures
            *r == self.spec_opcode(),
    ;

    fn format(&self) -> (r: InstructionFormat)
        ensures
            r == self.spec_opcode().spec_format(),
    ;

    fn mnemonic(&self) -> (r: Option<Mnemonic>)
        ensures
            r == self.spec_mnemonic(),
    ;

    fn immediate_bits(&self) -> (r: u32)
        ensures
            r == self.spec_immediate_bits(),
    ;
}

} // verus!
