use vstd::prelude::*;

verus! {

/// The name of an instruction, such as `ADD` or `ecall`.
#[derive(Debug, PartialEq, Eq, Clone, Copy)]
pub struct Mnemonic(pub(crate) &'static str);

impl Mnemonic {
    /// The mnemonic named `name`.
    pub open(crate) spec fn spec_from(name: &'static str) -> Mnemonic {
        Mnemonic(name)
    }

    /// The mnemonic's text.
    pub open(crate) spec fn text(self) -> &'static str {
        self.0
    }

    /// The mnemonic named `name`.
    pub fn new(name: &'static str) -> (r: Mnemonic)
        ensures
            r == Mnemonic::spec_from(name),
    {
        Mnemonic(name)
    }

    /// The mnemonic's text.
    pub fn as_str(&self) -> (r: &'static str)
        ensures
            r == self.text(),
    {
        self.0
    }
}

impl From<&'static str> for Mnemonic {
    fn from(value: &'static str) -> (r: Mnemonic) {
        Mnemonic::new(value)
    }
}

impl vstd::std_specs::convert::FromSpecImpl<&'static str> for Mnemonic {
    open spec fn obeys_from_spec() -> bool {
        true
    }

    open spec fn from_spec(value: &'static str) -> Mnemonic {
        Mnemonic::spec_from(value)
    }
}

impl From<Mnemonic> for &'static str {
    fn from(value: Mnemonic) -> (r: &'static str) {
        value.as_str()
    }
}

impl vstd::std_specs::convert::FromSpecImpl<Mnemonic> for &'static str {
    open spec fn obeys_from_spec() -> bool {
        true
    }

    open spec fn from_spec(value: Mnemonic) -> &'static str {
        value.text()
    }
}

} // verus!
