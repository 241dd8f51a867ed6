use crate::error::{MemoryAccess, RuntimeError};
use crate::pointer::GuestPointer;
use crate::runtime::{read_outcome, spliced, write_outcome, InstanceWithFunction, RuntimeMemory};
use vstd::prelude::*;
use vstd::string::StrSliceExecFns;

verus! {

/// The most bytes the simulated guest's memory may grow to.
pub const MOCK_MEMORY_LIMIT: usize = 16777216;

/// Whether two strings hold the same characters.
pub fn same_text(a: &str, b: &str) -> (r: bool)
    ensures
        r == (a@ == b@),
{
    let n = a.unicode_len();
    if n != b.unicode_len() {
        return false;
    }
    let mut i: usize = 0;
    while i < n
        invariant
            n == a@.len(),
            n == b@.len(),
            i <= n,
            forall|j: int| 0 <= j < i ==> a@[j] == b@[j],
        decreases n - i,
    {
        if a.get_char(i) != b.get_char(i) {
            return false;
        }
        i += 1;
    }
    assert(a@ =~= b@);
    true
}

/// A simulated guest instance, with a linear memory and an allocator that only grows it.
///
/// The allocator hands out each fresh buffer at the current end of memory, and freeing does
/// nothing. Its guest functions can be left out to model a module without them.
pub struct MockInstance {
    memory: Vec<u8>,
    exports_allocator: bool,
    calls: u64,
}

/// A resolved function of a [`MockInstance`].
pub struct MockFunction;

/// The linear memory access of the simulated engine.
pub struct MockMemory;

impl MockInstance {
    /// The bytes of the instance's linear memory.
    pub closed spec fn bytes(&self) -> Seq<u8> {
        self.memory@
    }

    /// The number of guest function calls made so far.
    pub closed spec fn spec_call_count(&self) -> nat {
        self.calls as nat
    }

    /// Whether the instance exports `cabi_realloc` and `cabi_free`.
    pub closed spec fn spec_exports_allocator(&self) -> bool {
        self.exports_allocator
    }

    /// Creates an instance with `size` zeroed bytes of memory.
    pub fn new(size: usize, exports_allocator: bool) -> (r: Self)
        requires
            size <= MOCK_MEMORY_LIMIT,
        ensures
            r.bytes() == Seq::new(size as nat, |_i: int| 0u8),
            r.spec_call_count() == 0,
            r.spec_exports_allocator() == exports_allocator,
    {
        let mut memory: Vec<u8> = Vec::new();
        let mut i: usize = 0;
        while i < size
            invariant
                i <= size,
                memory@ == Seq::new(i as nat, |_i: int| 0u8),
            decreases size - i,
        {
            memory.push(0);
            i += 1;
            assert(memory@ =~= Seq::new(i as nat, |_i: int| 0u8));
        }
        MockInstance { memory, exports_allocator, calls: 0 }
    }

    /// Returns the number of guest function calls made so far.
    pub fn call_count(&self) -> (r: u64)
        ensures
            r == self.spec_call_count(),
    {
        self.calls
    }

    /// Returns the size of the linear memory in bytes.
    pub fn memory_size(&self) -> (r: usize)
        ensures
            r == self.bytes().len(),
    {
        self.memory.len()
    }

    /// Whether `after` counts one more call than `self`.
    closed spec fn counts_call(&self, after: &Self) -> bool {
        &&& after.exports_allocator == self.exports_allocator
        &&& after.calls == if self.calls < u64::MAX {
            self.calls + 1
        } else {
            self.calls as int
        }
    }

    fn count_call(&mut self)
        ensures
            old(self).counts_call(final(self)),
            final(self).memory@ == old(self).memory@,
            final(self).exports_allocator == old(self).exports_allocator,
    {
        if self.calls < u64::MAX {
            self.calls = self.calls + 1;
        }
    }

    /// Grows memory by `size` zeroed bytes and returns where they start, or `-1` when the
    /// memory cannot grow that much.
    fn grow(&mut self, size: i32) -> (r: i32)
        ensures
            r >= 0 ==> r == old(self).memory@.len() && final(self).memory@ == old(
                self,
            ).memory@ + Seq::new(size as nat, |_i: int| 0u8),
            r < 0 ==> r == -1 && final(self).memory@ == old(self).memory@,
            final(self).exports_allocator == old(self).exports_allocator,
            final(self).calls == old(self).calls,
    {
        let start = self.memory.len();
        if size < 0 || start > MOCK_MEMORY_LIMIT || size as usize > MOCK_MEMORY_LIMIT - start {
            return -1;
        }
        let ghost before = self.memory@;
        let mut i: usize = 0;
        while i < size as usize
            invariant
                i <= size,
                0 <= size,
                self.memory@ == before + Seq::new(i as nat, |_i: int| 0u8),
                self.exports_allocator == old(self).exports_allocator,
                self.calls == old(self).calls,
            decreases size - i,
        {
            self.memory.push(0);
            i += 1;
            assert(self.memory@ =~= before + Seq::new(i as nat, |_i: int| 0u8));
        }
        start as i32
    }
}

impl InstanceWithFunction<(i32, i32, i32, i32), (i32,)> for MockInstance {
    type Function = MockFunction;

    closed spec fn load_outcome(&self, name: Seq<char>, r: Result<MockFunction, RuntimeError>) -> bool {
        r is Ok <==> (self.exports_allocator && name == "cabi_realloc"@)
    }

    closed spec fn call_outcome(
        &self,
        function: MockFunction,
        parameters: (i32, i32, i32, i32),
        r: Result<(i32,), RuntimeError>,
        after: Self,
    ) -> bool {
        &&& r is Ok
        &&& self.counts_call(&after)
        &&& r->Ok_0.0 >= 0 ==> parameters.0 == 0 && parameters.1 == 0 && r->Ok_0.0
            == self.memory@.len() && after.memory@ == self.memory@ + Seq::new(
            parameters.3 as nat,
            |_i: int| 0u8,
        )
        &&& r->Ok_0.0 < 0 ==> after.memory@ == self.memory@
    }

    fn load_function(&mut self, name: &str) -> (r: Result<MockFunction, RuntimeError>) {
        if self.exports_allocator && same_text(name, "cabi_realloc") {
            Ok(MockFunction)
        } else {
            Err(RuntimeError::FunctionNotFound)
        }
    }

    /// Allocates fresh buffers only: a call that moves an existing buffer returns `-1`.
    fn call(&mut self, function: &MockFunction, parameters: (i32, i32, i32, i32)) -> (r: Result<
        (i32,),
        RuntimeError,
    >) {
        self.count_call();
        let (old_address, old_size, _alignment, new_size) = parameters;
        if old_address != 0 || old_size != 0 {
            return Ok((-1,));
        }
        Ok((self.grow(new_size),))
    }
}

impl InstanceWithFunction<(i32,), ()> for MockInstance {
    type Function = MockFunction;

    closed spec fn load_outcome(&self, name: Seq<char>, r: Result<MockFunction, RuntimeError>) -> bool {
        r is Ok <==> (self.exports_allocator && name == "cabi_free"@)
    }

    closed spec fn call_outcome(
        &self,
        function: MockFunction,
        parameters: (i32,),
        r: Result<(), RuntimeError>,
        after: Self,
    ) -> bool {
        &&& r is Ok
        &&& self.counts_call(&after)
        &&& after.memory@ == self.memory@
    }

    fn load_function(&mut self, name: &str) -> (r: Result<MockFunction, RuntimeError>) {
        if self.exports_allocator && same_text(name, "cabi_free") {
            Ok(MockFunction)
        } else {
            Err(RuntimeError::FunctionNotFound)
        }
    }

    fn call(&mut self, function: &MockFunction, parameters: (i32,)) -> (r: Result<(), RuntimeError>) {
        self.count_call();
        Ok(())
    }
}

impl RuntimeMemory<MockInstance> for MockMemory {
    open spec fn contents(&self, instance: &MockInstance) -> Seq<u8> {
        instance.bytes()
    }

    fn read(&self, instance: &MockInstance, location: GuestPointer, length: u32) -> (r: Result<
        Vec<u8>,
        RuntimeError,
    >) {
        let start = location.0 as u64;
        let end = start + length as u64;
        if end > instance.memory.len() as u64 {
            return Err(RuntimeError::OutOfBounds { access: MemoryAccess::Read, address: location.0, length });
        }
        let first = location.0 as usize;
        let last = first + length as usize;
        let mut bytes: Vec<u8> = Vec::new();
        let mut i: usize = first;
        while i < last
            invariant
                first <= i <= last,
                last <= instance.memory@.len(),
                bytes@ == instance.memory@.subrange(first as int, i as int),
            decreases last - i,
        {
            bytes.push(instance.memory[i]);
            i += 1;
            assert(bytes@ =~= instance.memory@.subrange(first as int, i as int));
        }
        Ok(bytes)
    }

    fn write(&mut self, instance: &mut MockInstance, location: GuestPointer, bytes: &[u8]) -> (r:
        Result<(), RuntimeError>) {
        let start = location.0 as u64;
        let end = start + bytes.len() as u64;
        if end > instance.memory.len() as u64 {
            return Err(
                RuntimeError::OutOfBounds {
                    access: MemoryAccess::Write,
                    address: location.0,
                    length: bytes.len() as u32,
                },
            );
        }
        let first = location.0 as usize;
        let ghost before = instance.memory@;
        let mut i: usize = 0;
        while i < bytes.len()
            invariant
                i <= bytes@.len(),
                start + bytes@.len() == end,
                first == start,
                first + bytes@.len() <= instance.memory@.len(),
                before.len() <= usize::MAX,
                end <= before.len(),
                instance.memory@.len() == before.len(),
                instance.exports_allocator == old(instance).exports_allocator,
                instance.calls == old(instance).calls,
                forall|j: int|
                    0 <= j < before.len() && !(start <= j < start + i) ==> instance.memory@[j]
                        == before[j],
                forall|j: int| start <= j < start + i ==> instance.memory@[j] == bytes@[j - start],
            decreases bytes@.len() - i,
        {
            let at = first + i;
            instance.memory.set(at, bytes[i]);
            i += 1;
        }
        assert(instance.memory@ =~= spliced(before, start as int, bytes@));
        Ok(())
    }
}

} // verus!
