use crate::error::RuntimeError;
use crate::pointer::GuestPointer;
use crate::runtime::{
    read_outcome, write_outcome, CabiFreeAlias, CabiReallocAlias, InstanceWithFunction,
    RuntimeMemory,
};
use vstd::prelude::*;

verus! {

/// The largest allocation size that fits the ABI's signed 32-bit argument.
pub open spec fn abi_limit() -> nat {
    i32::MAX as nat
}

/// Converts an allocation size to the ABI's argument width.
pub fn allocation_size(size: u32) -> (r: Result<i32, RuntimeError>)
    ensures
        r is Ok <==> size <= abi_limit(),
        r is Ok ==> r->Ok_0 == size,
        r is Err ==> r->Err_0 == (RuntimeError::AllocationTooLarge { size }),
{
    if size <= i32::MAX as u32 {
        Ok(size as i32)
    } else {
        Err(RuntimeError::AllocationTooLarge { size })
    }
}

/// Interprets what the guest allocator returned as the address of the new buffer.
pub fn allocation_address(raw: i32) -> (r: Result<GuestPointer, RuntimeError>)
    ensures
        r is Ok <==> raw >= 0,
        r is Ok ==> r->Ok_0.0 == raw,
        r is Err ==> r->Err_0 == RuntimeError::AllocationFailed,
{
    if raw >= 0 {
        Ok(GuestPointer(raw as u32))
    } else {
        Err(RuntimeError::AllocationFailed)
    }
}

/// Converts an address to the ABI's argument width for the guest's `cabi_free`.
pub fn deallocation_address(allocation: GuestPointer) -> (r: Result<i32, RuntimeError>)
    ensures
        r is Ok <==> allocation.0 <= abi_limit(),
        r is Ok ==> r->Ok_0 == allocation.0,
        r is Err ==> r->Err_0 == (RuntimeError::DeallocateInvalidAddress {
            address: allocation.0,
        }),
{
    if allocation.0 <= i32::MAX as u32 {
        Ok(allocation.0 as i32)
    } else {
        Err(RuntimeError::DeallocateInvalidAddress { address: allocation.0 })
    }
}

/// What `allocate` returns for what the guest's `cabi_realloc` gave back.
pub open spec fn allocation_outcome(raw: Result<(i32,), RuntimeError>) -> Result<
    GuestPointer,
    RuntimeError,
> {
    match raw {
        Ok(results) => if results.0 >= 0 {
            Ok(GuestPointer(results.0 as u32))
        } else {
            Err(RuntimeError::AllocationFailed)
        },
        Err(error) => Err(error),
    }
}

/// A handle to interface with a guest Wasm module instance's memory.
///
/// The handle owns the instance while it is in use, and resolves the guest's allocator
/// functions on first use. A failed resolution is not remembered: the next call tries again.
pub struct Memory<Instance, RawMemory> where
    Instance: CabiReallocAlias + CabiFreeAlias,
    RawMemory: RuntimeMemory<Instance>,
 {
    instance: Instance,
    memory: RawMemory,
    cabi_realloc: Option<
        <Instance as InstanceWithFunction<(i32, i32, i32, i32), (i32,)>>::Function,
    >,
    cabi_free: Option<<Instance as InstanceWithFunction<(i32,), ()>>::Function>,
}

impl<Instance, RawMemory> Memory<Instance, RawMemory> where
    Instance: CabiReallocAlias + CabiFreeAlias,
    RawMemory: RuntimeMemory<Instance>,
 {
    /// The guest instance.
    pub closed spec fn instance(&self) -> Instance {
        self.instance
    }

    /// The engine's access to the instance's linear memory.
    pub closed spec fn raw_memory(&self) -> RawMemory {
        self.memory
    }

    /// The bytes of the guest's linear memory.
    pub open spec fn contents(&self) -> Seq<u8> {
        self.raw_memory().contents(&self.instance())
    }

    /// The resolved `cabi_realloc`, once it has been resolved.
    pub closed spec fn realloc_slot(&self) -> Option<<Instance as InstanceWithFunction<(i32, i32, i32, i32), (i32,)>>::Function> {
        self.cabi_realloc
    }

    /// The resolved `cabi_free`, once it has been resolved.
    pub closed spec fn free_slot(&self) -> Option<<Instance as InstanceWithFunction<(i32,), ()>>::Function> {
        self.cabi_free
    }

    /// Whether `cabi_realloc` has been resolved.
    pub open spec fn realloc_resolved(&self) -> bool {
        self.realloc_slot() is Some
    }

    /// Whether `cabi_free` has been resolved.
    pub open spec fn free_resolved(&self) -> bool {
        self.free_slot() is Some
    }

    /// Whether resolving `cabi_realloc` on `instance` may end with `slot` (`None` for
    /// `FunctionNotFound`).
    pub open spec fn realloc_loads(instance: Instance, slot: Option<<Instance as InstanceWithFunction<(i32, i32, i32, i32), (i32,)>>::Function>) -> bool {
        <Instance as InstanceWithFunction<(i32, i32, i32, i32), (i32,)>>::load_outcome(
            &instance,
            "cabi_realloc"@,
            match slot {
                Some(function) => Ok(function),
                None => Err(RuntimeError::FunctionNotFound),
            },
        )
    }

    /// Whether resolving `cabi_free` on `instance` may end with `slot` (`None` for
    /// `FunctionNotFound`).
    pub open spec fn free_loads(instance: Instance, slot: Option<<Instance as InstanceWithFunction<(i32,), ()>>::Function>) -> bool {
        <Instance as InstanceWithFunction<(i32,), ()>>::load_outcome(
            &instance,
            "cabi_free"@,
            match slot {
                Some(function) => Ok(function),
                None => Err(RuntimeError::FunctionNotFound),
            },
        )
    }

    /// Whether calling `cabi_realloc` on `before` with `parameters` may give `raw` and leave
    /// the instance as `after`.
    pub open spec fn realloc_calls(
        before: Instance,
        function: <Instance as InstanceWithFunction<(i32, i32, i32, i32), (i32,)>>::Function,
        parameters: (i32, i32, i32, i32),
        raw: Result<(i32,), RuntimeError>,
        after: Instance,
    ) -> bool {
        <Instance as InstanceWithFunction<(i32, i32, i32, i32), (i32,)>>::call_outcome(
            &before,
            function,
            parameters,
            raw,
            after,
        )
    }

    /// Whether calling `cabi_free` on `before` with `parameters` may give `raw` and leave the
    /// instance as `after`.
    pub open spec fn free_calls(
        before: Instance,
        function: <Instance as InstanceWithFunction<(i32,), ()>>::Function,
        parameters: (i32,),
        raw: Result<(), RuntimeError>,
        after: Instance,
    ) -> bool {
        <Instance as InstanceWithFunction<(i32,), ()>>::call_outcome(
            &before,
            function,
            parameters,
            raw,
            after,
        )
    }

    /// Creates a handle over `instance`, with neither allocator function resolved yet.
    pub fn new(instance: Instance, memory: RawMemory) -> (r: Self)
        ensures
            r.contents() == memory.contents(&instance),
            !r.realloc_resolved(),
            !r.free_resolved(),
    {
        Memory { instance, memory, cabi_realloc: None, cabi_free: None }
    }

    /// Gives back the instance and its memory.
    pub fn into_parts(self) -> (r: (Instance, RawMemory))
        ensures
            r.1.contents(&r.0) == self.contents(),
    {
        (self.instance, self.memory)
    }

    /// Reads `length` bytes from `location`.
    pub fn read(&self, location: GuestPointer, length: u32) -> (r: Result<Vec<u8>, RuntimeError>)
        ensures
            read_outcome(self.contents(), location.0, length, r),
    {
        self.memory.read(&self.instance, location, length)
    }

    /// Writes `bytes` to `location`.
    pub fn write(&mut self, location: GuestPointer, bytes: &[u8]) -> (r: Result<(), RuntimeError>)
        requires
            bytes@.len() <= u32::MAX,
        ensures
            write_outcome(old(self).contents(), final(self).contents(), location.0, bytes@, r),
            final(self).realloc_resolved() == old(self).realloc_resolved(),
            final(self).free_resolved() == old(self).free_resolved(),
    {
        self.memory.write(&mut self.instance, location, bytes)
    }

    /// Returns a newly allocated buffer of `size` bytes in the guest module's memory.
    ///
    /// Calls the guest's `cabi_realloc` to allocate the memory, so the resulting allocation is
    /// managed by the guest.
    pub fn allocate(&mut self, size: u32) -> (r: Result<GuestPointer, RuntimeError>)
        ensures
            final(self).raw_memory() == old(self).raw_memory(),
            final(self).free_slot() == old(self).free_slot(),
            old(self).realloc_resolved() ==> final(self).realloc_slot() == old(self).realloc_slot(),
            !old(self).realloc_resolved() ==> Self::realloc_loads(
                old(self).instance(),
                final(self).realloc_slot(),
            ),
            !final(self).realloc_resolved() ==> r == Err::<GuestPointer, RuntimeError>(
                RuntimeError::FunctionNotFound,
            ) && final(self).instance() == old(self).instance(),
            final(self).realloc_resolved() && size > abi_limit() ==> r == Err::<
                GuestPointer,
                RuntimeError,
            >(RuntimeError::AllocationTooLarge { size }) && final(self).instance() == old(self).instance(),
            final(self).realloc_resolved() && size <= abi_limit() ==> exists|
                raw: Result<(i32,), RuntimeError>,
            |
                #[trigger] Self::realloc_calls(
                    old(self).instance(),
                    final(self).realloc_slot()->Some_0,
                    (0i32, 0i32, 1i32, size as i32),
                    raw,
                    final(self).instance(),
                ) && r == allocation_outcome(raw),
            r == Err::<GuestPointer, RuntimeError>(RuntimeError::AllocationTooLarge { size })
                ==> size > abi_limit(),
            r is Err ==> r->Err_0 == RuntimeError::FunctionNotFound || r->Err_0
                == (RuntimeError::AllocationTooLarge { size }) || r->Err_0
                == RuntimeError::ExecutionFault || r->Err_0 == RuntimeError::AllocationFailed,
    {
        if self.cabi_realloc.is_none() {
            let loaded = <Instance as InstanceWithFunction<
                (i32, i32, i32, i32),
                (i32,),
            >>::load_function(&mut self.instance, "cabi_realloc");
            match loaded {
                Ok(function) => {
                    self.cabi_realloc = Some(function);
                },
                Err(error) => {
                    return Err(error);
                },
            }
        }
        let ghost old_size = size;
        let size = match allocation_size(size) {
            Ok(size) => size,
            Err(error) => {
                return Err(error);
            },
        };
        let raw = self.instance.call(self.cabi_realloc.as_ref().unwrap(), (0, 0, 1, size));
        assert(Self::realloc_calls(
            old(self).instance(),
            self.realloc_slot()->Some_0,
            (0i32, 0i32, 1i32, old_size as i32),
            raw,
            self.instance(),
        ));
        match raw {
            Ok((allocation,)) => allocation_address(allocation),
            Err(error) => Err(error),
        }
    }

    /// Deallocates the `allocation` managed by the guest, through the guest's `cabi_free`.
    pub fn deallocate(&mut self, allocation: GuestPointer) -> (r: Result<(), RuntimeError>)
        ensures
            final(self).raw_memory() == old(self).raw_memory(),
            final(self).realloc_slot() == old(self).realloc_slot(),
            old(self).free_resolved() ==> final(self).free_slot() == old(self).free_slot(),
            !old(self).free_resolved() ==> Self::free_loads(
                old(self).instance(),
                final(self).free_slot(),
            ),
            !final(self).free_resolved() ==> r == Err::<(), RuntimeError>(
                RuntimeError::FunctionNotFound,
            ) && final(self).instance() == old(self).instance(),
            final(self).free_resolved() && allocation.0 > abi_limit() ==> r == Err::<
                (),
                RuntimeError,
            >(RuntimeError::DeallocateInvalidAddress { address: allocation.0 })
                && final(self).instance() == old(self).instance(),
            final(self).free_resolved() && allocation.0 <= abi_limit() ==> exists|
                raw: Result<(), RuntimeError>,
            |
                #[trigger] Self::free_calls(
                    old(self).instance(),
                    final(self).free_slot()->Some_0,
                    (allocation.0 as i32,),
                    raw,
                    final(self).instance(),
                ) && r == raw,
            r == Err::<(), RuntimeError>(
                RuntimeError::DeallocateInvalidAddress { address: allocation.0 },
            ) ==> allocation.0 > abi_limit(),
            r is Err ==> r->Err_0 == RuntimeError::FunctionNotFound || r->Err_0
                == (RuntimeError::DeallocateInvalidAddress { address: allocation.0 }) || r->Err_0
                == RuntimeError::ExecutionFault,
    {
        if self.cabi_free.is_none() {
            let loaded = <Instance as InstanceWithFunction<(i32,), ()>>::load_function(
                &mut self.instance,
                "cabi_free",
            );
            match loaded {
                Ok(function) => {
                    self.cabi_free = Some(function);
                },
                Err(error) => {
                    return Err(error);
                },
            }
        }
        let address = match deallocation_address(allocation) {
            Ok(address) => address,
            Err(error) => {
                return Err(error);
            },
        };
        let raw = self.instance.call(self.cabi_free.as_ref().unwrap(), (address,));
        assert(Self::free_calls(
            old(self).instance(),
            self.free_slot()->Some_0,
            (allocation.0 as i32,),
            raw,
            self.instance(),
        ));
        raw
    }
}

} // verus!
