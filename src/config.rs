use vstd::prelude::*;

use crate::record::Address;

verus! {

/// The text shown for an instruction whose mnemonic is unknown.
pub const UNKNOWN_MNEMONIC: &'static str = "???";

/// How a disassembly is laid out, and the address it starts from.
#[derive(Debug, Clone, PartialEq)]
pub struct DisasmConfig {
    pub mnemonic_uppercase: bool,
    pub mnemonic_separator: String,
    pub register_uppercase: bool,
    pub register_separator: String,
    pub show_addr: bool,
    pub start_addr: Address,
    pub addr_format: String,
    pub addr_separator: String,
    pub unknown_mnemonic: String,
    pub hex_uppercase: bool,
}

impl DisasmConfig {
    /// Whether every field but `start_addr` has its default value.
    pub open spec fn has_default_layout(self) -> bool {
        &&& !self.mnemonic_uppercase
        &&& self.mnemonic_separator@ == " "@
        &&& !self.register_uppercase
        &&& self.register_separator@ == " "@
        &&& self.show_addr
        &&& self.addr_format@ == "{:x}"@
        &&& self.addr_separator@ == ": "@
        &&& self.unknown_mnemonic@ == UNKNOWN_MNEMONIC@
        &&& !self.hex_uppercase
    }

    /// The default layout, starting at `addr`.
    pub fn with_address(addr: Address) -> (r: DisasmConfig)
        ensures
            r.has_default_layout(),
            r.start_addr == addr,
    {
        DisasmConfig {
            mnemonic_uppercase: false,
            mnemonic_separator: " ".to_string(),
            register_uppercase: false,
            register_separator: " ".to_string(),
            show_addr: true,
            start_addr: addr,
            addr_format: "{:x}".to_string(),
            addr_separator: ": ".to_string(),
            unknown_mnemonic: UNKNOWN_MNEMONIC.to_string(),
            hex_uppercase: false,
        }
    }
}

impl Default for DisasmConfig {
    fn default() -> (r: DisasmConfig)
        ensures
            r.has_default_layout(),
            r.start_addr == 0,
    {
        DisasmConfig::with_address(0)
    }
}

} // verus!
