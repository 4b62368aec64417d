use vstd::prelude::*;

verus! {

/// The three synchronous fault kinds the core can raise: an access through a
/// free page (top-level slot zero, or leaf without its present bit), an access
/// whose permission bits are not all granted (carrying the granted and the
/// requested nibbles), and a privileged operation attempted from the user ring.
#[derive(Debug, Clone, Copy, PartialEq, Eq, Structural)]
pub enum InvalidMemoryAccess {
    UsedFreePage,
    InvalidPermissions(u8, u8),
    UnprivilegedOpcode,
}

impl InvalidMemoryAccess {
    /// A short description of the fault, for hosts that report it.
    pub fn message(&self) -> (s: &'static str)
        ensures
            s@ == "Invalid memory access"@,
    {
        "Invalid memory access"
    }
}

} // verus!
