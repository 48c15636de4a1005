use vstd::prelude::*;

use crate::config::DisasmConfig;
use crate::error::RISCVError;
use crate::instruction::{le_word, Instruction};
use crate::opcode_binary::TryFromOpcodeBinary;
use crate::record::{Address, InstructionRecord};
use crate::size::{size_of_opcode, InstructionSize};

verus! {

/// What stops a disassembly.
#[derive(Debug)]
pub enum DisasmError {
    RISCVError(RISCVError),
}

impl DisasmError {
    /// The error that carries the message `msg`.
    pub fn from_message(msg: &str) -> (r: DisasmError)
        ensures
            is_disasm_message(r, msg),
    {
        DisasmError::RISCVError(RISCVError::DisasmError(msg.to_string()))
    }
}

/// Whether `e` is the disassembler error with message `msg`.
pub open spec fn is_disasm_message(e: DisasmError, msg: &str) -> bool {
    &&& e is RISCVError
    &&& e->RISCVError_0 is DisasmError
    &&& e->RISCVError_0->DisasmError_0@ == msg@
}

impl From<RISCVError> for DisasmError {
    fn from(err: RISCVError) -> (r: DisasmError) {
        DisasmError::RISCVError(err)
    }
}

impl vstd::std_specs::convert::FromSpecImpl<RISCVError> for DisasmError {
    open spec fn obeys_from_spec() -> bool {
        true
    }

    open spec fn from_spec(err: RISCVError) -> DisasmError {
        DisasmError::RISCVError(err)
    }
}

/// The message for an instruction whose size is not 32 bits.
pub const UNSUPPORTED_SIZE: &'static str =
    "The disassembler doesn't currently support instructions of a size other than 32 bits";

/// The message for a stream that ends inside an instruction.
pub const UNEXPECTED_EOF: &'static str = "Unexpected end of file";

/// Where a disassembly stands.
#[derive(Debug, Clone, Copy, PartialEq, Eq, Structural)]
pub enum DisasmState {
    /// More instructions may follow.
    Ready,
    /// The bytes ended at an instruction boundary.
    Ended,
    /// An error was reported; nothing more is decoded.
    Failed,
}

/// The abstract state of a disassembler.
pub struct DisasmView {
    pub bytes: Seq<u8>,
    pub pos: nat,
    pub addr: Address,
    pub state: DisasmState,
}

impl DisasmView {
    /// The same state with `state` replaced.
    pub open spec fn with_state(self, state: DisasmState) -> DisasmView {
        DisasmView { state, ..self }
    }

    /// The size that the next opcode byte announces.
    pub open spec fn next_size(self) -> Option<InstructionSize> {
        size_of_opcode(self.bytes[self.pos as int] & 0x7f)
    }

    /// The little-endian word of the next four bytes.
    pub open spec fn next_word(self) -> u32 {
        le_word(
            self.bytes[self.pos as int],
            self.bytes[self.pos + 1int],
            self.bytes[self.pos + 2int],
            self.bytes[self.pos + 3int],
        )
    }

    /// The state after a decoded instruction: four bytes further, and the
    /// address 32 further (wrapping).
    pub open spec fn advanced(self) -> DisasmView {
        DisasmView {
            pos: self.pos + 4,
            addr: ((self.addr + 32) % 0x1_0000_0000_0000_0000int) as u64,
            ..self
        }
    }
}

/// Ready, and no byte is left.
pub open spec fn at_end(s: DisasmView) -> bool {
    s.state == DisasmState::Ready && s.pos >= s.bytes.len()
}

/// Ready, and the next opcode byte announces no known size.
pub open spec fn unknown_size(s: DisasmView) -> bool {
    s.state == DisasmState::Ready && s.pos < s.bytes.len() && s.next_size() is None
}

/// Ready, and the next opcode byte announces a size other than 32 bits.
pub open spec fn other_size(s: DisasmView) -> bool {
    &&& s.state == DisasmState::Ready
    &&& s.pos < s.bytes.len()
    &&& s.next_size() is Some
    &&& s.next_size() != Some(InstructionSize::Size32)
}

/// Ready, a 32-bit instruction announced, and fewer than four bytes left.
pub open spec fn truncated(s: DisasmView) -> bool {
    &&& s.state == DisasmState::Ready
    &&& s.pos < s.bytes.len()
    &&& s.next_size() == Some(InstructionSize::Size32)
    &&& s.pos + 4 > s.bytes.len()
}

/// Ready, a 32-bit instruction announced, and its four bytes present.
pub open spec fn has_word(s: DisasmView) -> bool {
    &&& s.state == DisasmState::Ready
    &&& s.next_size() == Some(InstructionSize::Size32)
    &&& s.pos + 4 <= s.bytes.len()
}

/// Decodes a byte sequence, four little-endian bytes per instruction, into
/// address-tagged instructions, front to back and once.
pub struct Disasm {
    bytes: Vec<u8>,
    pos: usize,
    addr: Address,
    state: DisasmState,
    config: DisasmConfig,
}

impl Disasm {
    #[verifier::type_invariant]
    spec fn inv(self) -> bool {
        self.pos <= self.bytes.len()
    }

    /// The disassembler's abstract state.
    pub closed spec fn view(self) -> DisasmView {
        DisasmView { bytes: self.bytes@, pos: self.pos as nat, addr: self.addr, state: self.state }
    }

    /// The layout the disassembler was made with.
    pub closed spec fn spec_config(self) -> DisasmConfig {
        self.config
    }

    /// A disassembler over `source` with the default configuration.
    pub fn new(source: Vec<u8>) -> (r: Disasm)
        ensures
            r.view() == (DisasmView { bytes: source@, pos: 0, addr: 0, state: DisasmState::Ready }),
    {
        Self::with_config(source, DisasmConfig::default())
    }

    /// A disassembler over `source` that starts at `config.start_addr`.
    pub fn with_config(source: Vec<u8>, config: DisasmConfig) -> (r: Disasm)
        ensures
            r.view() == (DisasmView {
                bytes: source@,
                pos: 0,
                addr: config.start_addr,
                state: DisasmState::Ready,
            }),
            r.spec_config() == config,
    {
        let addr = config.start_addr;
        Disasm { bytes: source, pos: 0, addr, state: DisasmState::Ready, config }
    }

    /// The layout the disassembler was made with.
    pub fn config(&self) -> (r: &DisasmConfig)
        ensures
            *r == self.spec_config(),
    {
        &self.config
    }

    /// Decodes the next instruction. `None` once the bytes end at an
    /// instruction boundary, and after an error has been returned; an error
    /// when the opcode byte announces a size other than 32 bits, when fewer
    /// than four bytes are left, or when the word does not decode.
    pub fn next(&mut self) -> (r: Option<Result<InstructionRecord, DisasmError>>)
        ensures
            final(self).view().bytes == old(self).view().bytes,
            old(self).view().state != DisasmState::Ready ==> r is None && final(self).view()
                == old(self).view(),
            at_end(old(self).view()) ==> r is None && final(self).view() == old(self).view().with_state(
                DisasmState::Ended,
            ),
            unknown_size(old(self).view()) ==> r == Some(
                Err::<InstructionRecord, DisasmError>(
                    DisasmError::RISCVError(RISCVError::UnrecognizedInstructionSize),
                ),
            ) && final(self).view() == old(self).view().with_state(DisasmState::Failed),
            other_size(old(self).view()) ==> r is Some && r->Some_0 is Err && is_disasm_message(
                r->Some_0->Err_0,
                UNSUPPORTED_SIZE,
            ) && final(self).view() == old(self).view().with_state(DisasmState::Failed),
            truncated(old(self).view()) ==> r is Some && r->Some_0 is Err && is_disasm_message(
                r->Some_0->Err_0,
                UNEXPECTED_EOF,
            ) && final(self).view() == old(self).view().with_state(DisasmState::Failed),
            has_word(old(self).view()) && Instruction::spec_decode(old(self).view().next_word())
                is Err ==> r == Some(
                Err::<InstructionRecord, DisasmError>(
                    DisasmError::RISCVError(
                        Instruction::spec_decode(old(self).view().next_word())->Err_0,
                    ),
                ),
            ) && final(self).view() == old(self).view().with_state(DisasmState::Failed),
            has_word(old(self).view()) && Instruction::spec_decode(old(self).view().next_word())
                is Ok ==> r is Some && r->Some_0 is Ok && r->Some_0->Ok_0.spec_instruction()
                == Instruction::spec_decode(old(self).view().next_word())->Ok_0
                && r->Some_0->Ok_0.spec_address() == old(self).view().addr && final(self).view()
                == old(self).view().advanced(),
    {
        proof {
            use_type_invariant(&*self);
        }
        if self.state != DisasmState::Ready {
            return None;
        }
        if self.pos == self.bytes.len() {
            self.state = DisasmState::Ended;
            return None;
        }
        let first = self.bytes[self.pos];
        let opcode = first & 0x7f;
        match InstructionSize::try_from_opcode_binary(opcode) {
            Ok(InstructionSize::Size32) => {},
            Ok(_) => {
                self.state = DisasmState::Failed;
                return Some(Err(DisasmError::from_message(UNSUPPORTED_SIZE)));
            },
            Err(e) => {
                self.state = DisasmState::Failed;
                return Some(Err(DisasmError::RISCVError(e)));
            },
        }
        if self.bytes.len() - self.pos < 4 {
            self.state = DisasmState::Failed;
            return Some(Err(DisasmError::from_message(UNEXPECTED_EOF)));
        }
        let bytes = [first, self.bytes[self.pos + 1], self.bytes[self.pos + 2], self.bytes[self.pos + 3]];
        match Instruction::try_from_le_bytes(bytes) {
            Err(e) => {
                self.state = DisasmState::Failed;
                Some(Err(DisasmError::RISCVError(e)))
            },
            Ok(instruction) => {
                let record = InstructionRecord::new(instruction, self.addr);
                self.pos = self.pos + 4;
                self.addr = self.addr.wrapping_add(32);
                Some(Ok(record))
            },
        }
    }
}

} // verus!
