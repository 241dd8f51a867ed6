use crate::error::{MemoryAccess, RuntimeError};
use crate::pointer::GuestPointer;
use vstd::prelude::*;

verus! {

/// The guest memory after `bytes` are copied into `contents` at `location`.
pub open spec fn spliced(contents: Seq<u8>, location: int, bytes: Seq<u8>) -> Seq<u8> {
    contents.subrange(0, location) + bytes + contents.subrange(
        location + bytes.len(),
        contents.len() as int,
    )
}

/// What a read of `length` bytes at `location` returns from a memory holding `contents`.
pub open spec fn read_outcome(
    contents: Seq<u8>,
    location: u32,
    length: u32,
    r: Result<Vec<u8>, RuntimeError>,
) -> bool {
    &&& (r is Ok <==> location + length <= contents.len())
    &&& (r is Ok ==> r->Ok_0@ == contents.subrange(location as int, location + length))
    &&& (r is Err ==> r->Err_0 == (RuntimeError::OutOfBounds {
        access: MemoryAccess::Read,
        address: location,
        length,
    }))
}

/// A failed write may have stored some prefix of `bytes` at `location`, and changed nothing
/// else.
pub open spec fn partially_written(
    before: Seq<u8>,
    after: Seq<u8>,
    location: u32,
    bytes: Seq<u8>,
) -> bool {
    after == before || exists|p: int|
        0 <= p <= bytes.len() && location + p <= before.len() && after == spliced(
            before,
            location as int,
            #[trigger] bytes.subrange(0, p),
        )
}

/// What a write of `bytes` at `location` does to a memory holding `before`.
pub open spec fn write_outcome(
    before: Seq<u8>,
    after: Seq<u8>,
    location: u32,
    bytes: Seq<u8>,
    r: Result<(), RuntimeError>,
) -> bool {
    &&& (r is Ok <==> location + bytes.len() <= before.len())
    &&& (r is Ok ==> after == spliced(before, location as int, bytes))
    &&& (r is Err ==> r->Err_0 == (RuntimeError::OutOfBounds {
        access: MemoryAccess::Write,
        address: location,
        length: bytes.len() as u32,
    }) && partially_written(before, after, location, bytes))
}

/// Reading back the range just written returns exactly the bytes written.
pub proof fn lemma_read_after_write(
    before: Seq<u8>,
    after: Seq<u8>,
    location: u32,
    bytes: Seq<u8>,
    written: Result<(), RuntimeError>,
    read: Result<Vec<u8>, RuntimeError>,
)
    requires
        bytes.len() <= u32::MAX,
        location + bytes.len() <= before.len(),
        write_outcome(before, after, location, bytes, written),
        read_outcome(after, location, bytes.len() as u32, read),
    ensures
        written is Ok,
        read is Ok,
        read->Ok_0@ == bytes,
{
    assert(after.subrange(location as int, location + bytes.len()) =~= bytes);
}

/// A write leaves every byte outside the written range as it was.
pub proof fn lemma_write_keeps_other_bytes(
    before: Seq<u8>,
    after: Seq<u8>,
    location: u32,
    bytes: Seq<u8>,
    index: int,
)
    requires
        write_outcome(before, after, location, bytes, Ok(())),
        0 <= index < before.len(),
        index < location || location + bytes.len() <= index,
    ensures
        after.len() == before.len(),
        after[index] == before[index],
{
}

/// Access to the linear memory of an instance, as one execution engine provides it.
pub trait RuntimeMemory<Instance> {
    /// The bytes of the instance's linear memory.
    spec fn contents(&self, instance: &Instance) -> Seq<u8>;

    /// Reads `length` bytes from memory from the provided `location`.
    fn read(&self, instance: &Instance, location: GuestPointer, length: u32) -> (r: Result<
        Vec<u8>,
        RuntimeError,
    >)
        ensures
            read_outcome(self.contents(instance), location.0, length, r),
    ;

    /// Writes the `bytes` to memory at the provided `location`.
    fn write(&mut self, instance: &mut Instance, location: GuestPointer, bytes: &[u8]) -> (r:
        Result<(), RuntimeError>)
        requires
            bytes@.len() <= u32::MAX,
        ensures
            write_outcome(
                old(self).contents(&*old(instance)),
                final(self).contents(&*final(instance)),
                location.0,
                bytes@,
                r,
            ),
    ;
}

/// An instance that exports functions taking `Parameters` and returning `Results`.
///
/// Each engine states, through the two spec functions, which outcomes its resolution and its
/// calls can have.
pub trait InstanceWithFunction<Parameters, Results>: Sized {
    /// A resolved handle to an exported function.
    type Function;

    /// Whether resolving the export called `name` may give `r`.
    spec fn load_outcome(&self, name: Seq<char>, r: Result<Self::Function, RuntimeError>) -> bool;

    /// Whether running `function` with `parameters` may give `r` and leave the instance as
    /// `after`.
    spec fn call_outcome(
        &self,
        function: Self::Function,
        parameters: Parameters,
        r: Result<Results, RuntimeError>,
        after: Self,
    ) -> bool;

    /// Resolves the export called `name` with this signature. Resolution runs no guest code
    /// and leaves the instance as it was.
    fn load_function(&mut self, name: &str) -> (r: Result<Self::Function, RuntimeError>)
        ensures
            *final(self) == *old(self),
            old(self).load_outcome(name@, r),
            r is Err ==> r->Err_0 == RuntimeError::FunctionNotFound,
    ;

    /// Runs `function` in the guest with `parameters`; a trap is reported as an execution
    /// fault.
    fn call(&mut self, function: &Self::Function, parameters: Parameters) -> (r: Result<
        Results,
        RuntimeError,
    >)
        ensures
            old(self).call_outcome(*function, parameters, r, *final(self)),
            r is Err ==> r->Err_0 == RuntimeError::ExecutionFault,
    ;
}

/// An instance that exports the Canonical ABI `cabi_realloc` function.
pub trait CabiReallocAlias: InstanceWithFunction<(i32, i32, i32, i32), (i32,)> {

}

impl<AnyInstance> CabiReallocAlias for AnyInstance where
    AnyInstance: InstanceWithFunction<(i32, i32, i32, i32), (i32,)>,
 {

}

/// An instance that exports the Canonical ABI `cabi_free` function.
pub trait CabiFreeAlias: InstanceWithFunction<(i32,), ()> {

}

impl<AnyInstance> CabiFreeAlias for AnyInstance where AnyInstance: InstanceWithFunction<(i32,), ()> {

}

} // verus!
