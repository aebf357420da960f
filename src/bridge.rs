//! How the compiled artifact is exposed to Python.
use vstd::prelude::*;

verus! {

/// The binding a project's native code uses.
#[derive(Clone, Debug, PartialEq, Eq)]
pub enum BridgeModel {
    /// An extension module built with a bindings crate (its name) for a
    /// minimal Python minor version.
    Bindings(String, usize),
    /// An extension module on the stable ABI, from a (major, minor) Python
    /// version on.
    BindingsAbi3(u8, u8),
    /// A cffi module.
    Cffi,
    /// A uniffi module.
    UniFfi,
    /// A standalone executable, possibly linking a bindings crate.
    Bin(Option<String>),
}

impl BridgeModel {
    /// Whether the artifact is a standalone executable.
    pub open spec fn spec_is_bin(&self) -> bool {
        self is Bin
    }

    /// Whether the artifact is an extension on the stable ABI.
    pub open spec fn spec_is_abi3(&self) -> bool {
        self is BindingsAbi3
    }

    /// Whether building needs a Python interpreter on the host: every model
    /// but an executable without bindings.
    pub open spec fn spec_needs_python(&self) -> bool {
        !(self matches BridgeModel::Bin(None))
    }

    #[verifier::when_used_as_spec(spec_is_bin)]
    pub fn is_bin(&self) -> (r: bool)
        ensures
            r == self.spec_is_bin(),
    {
        matches!(self, BridgeModel::Bin(_))
    }

    #[verifier::when_used_as_spec(spec_is_abi3)]
    pub fn is_abi3(&self) -> (r: bool)
        ensures
            r == self.spec_is_abi3(),
    {
        matches!(self, BridgeModel::BindingsAbi3(..))
    }

    #[verifier::when_used_as_spec(spec_needs_python)]
    pub fn needs_python(&self) -> (r: bool)
        ensures
            r == self.spec_needs_python(),
    {
        !matches!(self, BridgeModel::Bin(None))
    }
}

} // verus!
