use vstd::prelude::*;

verus! {

/// A module (executable or library) loaded into a process.
#[derive(Debug, Clone)]
pub struct ModuleInfo {
    /// File name of the module, e.g. `kernel32.dll`.
    pub name: String,
    /// Full path of the module.
    pub path: String,
    /// Address the module is loaded at.
    pub base_address: usize,
}

} // verus!
