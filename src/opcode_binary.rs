use vstd::prelude::*;

use crate::error::RISCVError;

verus! {

/// Classification of an opcode byte into one kind of value.
pub trait TryFromOpcodeBinary: Sized {
    /// What `try_from_opcode_binary` returns for `bits`.
    spec fn spec_try_from_opcode_binary(bits: u8) -> Result<Self, RISCVError>;

    fn try_from_opcode_binary(bits: u8) -> (r: Result<Self, RISCVError>)
        ensures
            r == Self::spec_try_from_opcode_binary(bits),
    ;
}

} // verus!
