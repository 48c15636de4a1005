use vstd::prelude::*;

use crate::error::RISCVError;

verus! {

/// The mask of a register index once shifted down to bit 0.
pub const REGISTER_MASK: u32 = 0b11111;

/// The canonical name of register `index`; `t6` for the last one.
pub open spec fn register_name(index: u8) -> &'static str {
    match index {
        0 => "zero",
        1 => "ra",
        2 => "sp",
        3 => "gp",
        4 => "tp",
        5 => "t0",
        6 => "t1",
        7 => "t2",
        8 => "s0",
        9 => "s1",
        10 => "a0",
        11 => "a1",
        12 => "a2",
        13 => "a3",
        14 => "a4",
        15 => "a5",
        16 => "a6",
        17 => "a7",
        18 => "s2",
        19 => "s3",
        20 => "s4",
        21 => "s5",
        22 => "s6",
        23 => "s7",
        24 => "s8",
        25 => "s9",
        26 => "s10",
        27 => "s11",
        28 => "t3",
        29 => "t4",
        30 => "t5",
        _ => "t6",
    }
}

/// One of the 32 integer registers.
#[derive(Debug, PartialEq, Eq, Copy, Clone, Structural)]
pub struct Register(pub(crate) u8);

impl Register {
    #[verifier::type_invariant]
    pub(crate) open spec fn inv(self) -> bool {
        self.0 < 32
    }

    /// The register's index.
    pub open(crate) spec fn value(self) -> u8 {
        self.0
    }

    /// The register `zero` (x0).
    pub fn zero() -> (r: Register)
        ensures
            r.value() == 0,
    {
        Register(0)
    }

    /// The register `ra` (x1).
    pub fn ra() -> (r: Register)
        ensures
            r.value() == 1,
    {
        Register(1)
    }

    /// The register `sp` (x2).
    pub fn sp() -> (r: Register)
        ensures
            r.value() == 2,
    {
        Register(2)
    }

    /// The register `gp` (x3).
    pub fn gp() -> (r: Register)
        ensures
            r.value() == 3,
    {
        Register(3)
    }

    /// The register `tp` (x4).
    pub fn tp() -> (r: Register)
        ensures
            r.value() == 4,
    {
        Register(4)
    }

    /// The register `t0` (x5).
    pub fn t0() -> (r: Register)
        ensures
            r.value() == 5,
    {
        Register(5)
    }

    /// The register `t1` (x6).
    pub fn t1() -> (r: Register)
        ensures
            r.value() == 6,
    {
        Register(6)
    }

    /// The register `t2` (x7).
    pub fn t2() -> (r: Register)
        ensures
            r.value() == 7,
    {
        Register(7)
    }

    /// The register `s0` (x8).
    pub fn s0() -> (r: Register)
        ensures
            r.value() == 8,
    {
        Register(8)
    }

    /// The register `s1` (x9).
    pub fn s1() -> (r: Register)
        ensures
            r.value() == 9,
    {
        Register(9)
    }

    /// The register `a0` (x10).
    pub fn a0() -> (r: Register)
        ensures
            r.value() == 10,
    {
        Register(10)
    }

    /// The register `a1` (x11).
    pub fn a1() -> (r: Register)
        ensures
            r.value() == 11,
    {
        Register(11)
    }

    /// The register `a2` (x12).
    pub fn a2() -> (r: Register)
        ensures
            r.value() == 12,
    {
        Register(12)
    }

    /// The register `a3` (x13).
    pub fn a3() -> (r: Register)
        ensures
            r.value() == 13,
    {
        Register(13)
    }

    /// The register `a4` (x14).
    pub fn a4() -> (r: Register)
        ensures
            r.value() == 14,
    {
        Register(14)
    }

    /// The register `a5` (x15).
    pub fn a5() -> (r: Register)
        ensures
            r.value() == 15,
    {
        Register(15)
    }

    /// The register `a6` (x16).
    pub fn a6() -> (r: Register)
        ensures
            r.value() == 16,
    {
        Register(16)
    }

    /// The register `a7` (x17).
    pub fn a7() -> (r: Register)
        ensures
            r.value() == 17,
    {
        Register(17)
    }

    /// The register `s2` (x18).
    pub fn s2() -> (r: Register)
        ensures
            r.value() == 18,
    {
        Register(18)
    }

    /// The register `s3` (x19).
    pub fn s3() -> (r: Register)
        ensures
            r.value() == 19,
    {
        Register(19)
    }

    /// The register `s4` (x20).
    pub fn s4() -> (r: Register)
        ensures
            r.value() == 20,
    {
        Register(20)
    }

    /// The register `s5` (x21).
    pub fn s5() -> (r: Register)
        ensures
            r.value() == 21,
    {
        Register(21)
    }

    /// The register `s6` (x22).
    pub fn s6() -> (r: Register)
        ensures
            r.value() == 22,
    {
        Register(22)
    }

    /// The register `s7` (x23).
    pub fn s7() -> (r: Register)
        ensures
            r.value() == 23,
    {
        Register(23)
    }

    /// The register `s8` (x24).
    pub fn s8() -> (r: Register)
        ensures
            r.value() == 24,
    {
        Register(24)
    }

    /// The register `s9` (x25).
    pub fn s9() -> (r: Register)
        ensures
            r.value() == 25,
    {
        Register(25)
    }

    /// The register `s10` (x26).
    pub fn s10() -> (r: Register)
        ensures
            r.value() == 26,
    {
        Register(26)
    }

    /// The register `s11` (x27).
    pub fn s11() -> (r: Register)
        ensures
            r.value() == 27,
    {
        Register(27)
    }

    /// The register `t3` (x28).
    pub fn t3() -> (r: Register)
        ensures
            r.value() == 28,
    {
        Register(28)
    }

    /// The register `t4` (x29).
    pub fn t4() -> (r: Register)
        ensures
            r.value() == 29,
    {
        Register(29)
    }

    /// The register `t5` (x30).
    pub fn t5() -> (r: Register)
        ensures
            r.value() == 30,
    {
        Register(30)
    }

    /// The register `t6` (x31).
    pub fn t6() -> (r: Register)
        ensures
            r.value() == 31,
    {
        Register(31)
    }

    /// The register whose index stands in the five bits of `instr` from bit
    /// `shift` up.
    fn from_instr_bits(instr: u32, shift: u32) -> (r: Register)
        requires
            shift <= 27,
        ensures
            r.value() == (instr >> shift) & REGISTER_MASK,
    {
        let bits = (instr >> shift) & REGISTER_MASK;
        assert(((instr >> shift) & 31u32) < 32u32) by (bit_vector);
        match Self::try_from_u8(bits as u8) {
            Ok(reg) => reg,
            Err(_) => {
                proof {
                    assert(false);
                }
                Register(0)
            },
        }
    }

    /// The `rs1` register of an instruction word (bits 15..20).
    pub fn from_rs1_bits(instr: u32) -> (r: Register)
        ensures
            r.value() == (instr >> 15u32) & REGISTER_MASK,
    {
        Self::from_instr_bits(instr, 15)
    }

    /// The `rs2` register of an instruction word (bits 20..25).
    pub fn from_rs2_bits(instr: u32) -> (r: Register)
        ensures
            r.value() == (instr >> 20u32) & REGISTER_MASK,
    {
        Self::from_instr_bits(instr, 20)
    }

    /// The `rd` register of an instruction word (bits 7..12).
    pub fn from_rd_bits(instr: u32) -> (r: Register)
        ensures
            r.value() == (instr >> 7u32) & REGISTER_MASK,
    {
        Self::from_instr_bits(instr, 7)
    }

    /// The register placed in the `rs1` bits of a word.
    pub fn into_rs1_bits(&self) -> (r: u32)
        ensures
            r == (self.value() as u32) << 15u32,
    {
        self.index() << 15
    }

    /// The register placed in the `rs2` bits of a word.
    pub fn into_rs2_bits(&self) -> (r: u32)
        ensures
            r == (self.value() as u32) << 20u32,
    {
        self.index() << 20
    }

    /// The register placed in the `rd` bits of a word.
    pub fn into_rd_bits(&self) -> (r: u32)
        ensures
            r == (self.value() as u32) << 7u32,
    {
        self.index() << 7
    }

    /// The register's index.
    pub fn index(&self) -> (r: u32)
        ensures
            r == self.value() as u32,
            r < 32,
    {
        proof {
            use_type_invariant(self);
        }
        self.0 as u32
    }

    /// What `try_from_u8` gives for `reg`.
    pub open(crate) spec fn spec_try_from_u8(reg: u8) -> Result<Register, RISCVError> {
        if reg < 32 {
            Ok(Register(reg))
        } else {
            Err(RISCVError::InvalidRegister)
        }
    }

    /// The register with index `reg`; `InvalidRegister` unless `reg < 32`.
    pub fn try_from_u8(reg: u8) -> (r: Result<Register, RISCVError>)
        ensures
            r == Register::spec_try_from_u8(reg),
            reg < 32 ==> r is Ok && r->Ok_0.value() == reg,
            reg >= 32 ==> r == Err::<Register, RISCVError>(RISCVError::InvalidRegister),
    {
        if reg < 32 {
            Ok(Register(reg))
        } else {
            Err(RISCVError::InvalidRegister)
        }
    }

    /// The register's canonical name, such as `a0` or `zero`.
    pub fn name(&self) -> (r: &'static str)
        ensures
            r == register_name(self.value()),
    {
        match self.0 {
            0 => "zero",
            1 => "ra",
            2 => "sp",
            3 => "gp",
            4 => "tp",
            5 => "t0",
            6 => "t1",
            7 => "t2",
            8 => "s0",
            9 => "s1",
            10 => "a0",
            11 => "a1",
            12 => "a2",
            13 => "a3",
            14 => "a4",
            15 => "a5",
            16 => "a6",
            17 => "a7",
            18 => "s2",
            19 => "s3",
            20 => "s4",
            21 => "s5",
            22 => "s6",
            23 => "s7",
            24 => "s8",
            25 => "s9",
            26 => "s10",
            27 => "s11",
            28 => "t3",
            29 => "t4",
            30 => "t5",
            _ => "t6",
        }
    }
}

impl TryFrom<u8> for Register {
    type Error = RISCVError;

    fn try_from(reg: u8) -> (r: Result<Self, RISCVError>) {
        Register::try_from_u8(reg)
    }
}

impl vstd::std_specs::convert::TryFromSpecImpl<u8> for Register {
    open spec fn obeys_try_from_spec() -> bool {
        true
    }

    open spec fn try_from_spec(reg: u8) -> Result<Self, RISCVError> {
        Register::spec_try_from_u8(reg)
    }
}

impl From<Register> for u8 {
    fn from(reg: Register) -> (r: u8) {
        reg.index() as u8
    }
}

impl vstd::std_specs::convert::FromSpecImpl<Register> for u8 {
    open spec fn obeys_from_spec() -> bool {
        true
    }

    open spec fn from_spec(reg: Register) -> u8 {
        reg.value()
    }
}

impl From<&Register> for u8 {
    fn from(reg: &Register) -> (r: u8) {
        reg.index() as u8
    }
}

impl vstd::std_specs::convert::FromSpecImpl<&Register> for u8 {
    open spec fn obeys_from_spec() -> bool {
        true
    }

    open spec fn from_spec(reg: &Register) -> u8 {
        reg.value()
    }
}

impl From<Register> for u32 {
    fn from(reg: Register) -> (r: u32) {
        reg.index()
    }
}

impl vstd::std_specs::convert::FromSpecImpl<Register> for u32 {
    open spec fn obeys_from_spec() -> bool {
        true
    }

    open spec fn from_spec(reg: Register) -> u32 {
        reg.value() as u32
    }
}

impl From<&Register> for u32 {
    fn from(reg: &Register) -> (r: u32) {
        reg.index()
    }
}

impl vstd::std_specs::convert::FromSpecImpl<&Register> for u32 {
    open spec fn obeys_from_spec() -> bool {
        true
    }

    open spec fn from_spec(reg: &Register) -> u32 {
        reg.value() as u32
    }
}

} // verus!
