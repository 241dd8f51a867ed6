use vstd::prelude::*;

verus! {

/// The kind of access to guest memory that failed.
#[derive(Clone, Copy, Debug, PartialEq, Eq, Structural)]
pub enum MemoryAccess {
    Read,
    Write,
}

/// Errors raised while accessing a guest module instance.
#[derive(Clone, Copy, Debug, PartialEq, Eq, Structural)]
pub enum RuntimeError {
    /// A read or write touched bytes past the end of the guest's memory.
    OutOfBounds { access: MemoryAccess, address: u32, length: u32 },
    /// An export is missing or has another signature.
    FunctionNotFound,
    /// The guest trapped while running a function.
    ExecutionFault,
    /// The requested allocation does not fit the ABI's argument width.
    AllocationTooLarge { size: u32 },
    /// The guest allocator returned a value that is not an address.
    AllocationFailed,
    /// The address cannot be handed to the guest allocator.
    DeallocateInvalidAddress { address: u32 },
    /// Address arithmetic left the 32-bit address space.
    AddressOverflow,
}

} // verus!
