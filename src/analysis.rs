//! Findings of a snapshot analysis.

use vstd::prelude::*;

use crate::memory::VirtualAddress;

verus! {

/// Symbol reference.
#[derive(Clone, Debug)]
pub enum Symbol {
    /// Kernel symbol name.
    Kernel(String),
    /// Kernel module and symbol name.
    Module(String, String),
}

/// Information about a hooked function.
#[derive(Clone, Debug, Default)]
pub struct Hook {
    /// Address of the hooked function.
    pub addr: VirtualAddress,
    /// Kind of hook.
    pub hook_type: String,
    /// Disassembly of the hooked function.
    pub disassembly: String,
    /// Computed destination of the hook.
    pub target_addr: Option<VirtualAddress>,
    /// Disassembly of the destination.
    pub target_disassembly: Option<String>,
    /// Symbol of the destination, if known.
    pub target_module: Option<Symbol>,
}

/// An issue found in the analysis of a snapshot.
#[derive(Debug, Default)]
pub struct Check {
    /// Basic information about the issue.
    pub issue: String,
    /// Detailed information about the issue.
    pub details: Option<String>,
    /// The hook, where the issue is a hooked function.
    pub hook: Option<Hook>,
    /// The virtual address related to the issue.
    pub address: Option<VirtualAddress>,
    /// The symbol related to the issue.
    pub symbol: Option<Symbol>,
    /// Process ids involved in the issue.
    pub pids: Vec<u64>,
    /// Paths involved in the issue.
    pub paths: Vec<String>,
    /// Export path.
    pub exported_path: Option<String>,
}

} // verus!
