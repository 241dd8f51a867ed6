use linera_witty::error::{MemoryAccess, RuntimeError};
use linera_witty::memory::{allocation_address, allocation_size, deallocation_address, Memory};
use linera_witty::mock::{MockInstance, MockMemory};
use linera_witty::pointer::GuestPointer;
use linera_witty::runtime::InstanceWithFunction;

fn fresh_handle() -> Memory<MockInstance, MockMemory> {
    Memory::new(MockInstance::new(0, true), MockMemory)
}

#[test]
fn allocate_write_read_deallocate_scenario() {
    let mut memory = fresh_handle();
    let pointer = memory.allocate(16).unwrap();
    let bytes: Vec<u8> = (0..16u8).collect();
    memory.write(pointer, &bytes).unwrap();
    assert_eq!(memory.read(pointer, 16).unwrap(), bytes);
    assert_eq!(memory.deallocate(pointer), Ok(()));
}

#[test]
fn write_then_read_round_trip() {
    let mut memory = Memory::new(MockInstance::new(32, false), MockMemory);
    memory.write(GuestPointer(10), &[9, 8, 7]).unwrap();
    assert_eq!(memory.read(GuestPointer(10), 3).unwrap(), vec![9, 8, 7]);
    assert_eq!(memory.read(GuestPointer(9), 5).unwrap(), vec![0, 9, 8, 7, 0]);
    memory.write(GuestPointer(29), &[1, 2, 3]).unwrap();
    assert_eq!(memory.read(GuestPointer(29), 3).unwrap(), vec![1, 2, 3]);
    assert_eq!(memory.read(GuestPointer(10), 3).unwrap(), vec![9, 8, 7]);
}

#[test]
fn out_of_bounds_access_fails() {
    let mut memory = Memory::new(MockInstance::new(8, false), MockMemory);
    assert_eq!(
        memory.read(GuestPointer(6), 3),
        Err(RuntimeError::OutOfBounds { access: MemoryAccess::Read, address: 6, length: 3 })
    );
    assert_eq!(
        memory.write(GuestPointer(7), &[1, 2]),
        Err(RuntimeError::OutOfBounds { access: MemoryAccess::Write, address: 7, length: 2 })
    );
    assert_eq!(memory.read(GuestPointer(8), 0), Ok(vec![]));
}

#[test]
fn consecutive_allocations_do_not_overlap() {
    let mut memory = fresh_handle();
    let first = memory.allocate(10).unwrap();
    let second = memory.allocate(6).unwrap();
    assert!(first.0 + 10 <= second.0 || second.0 + 6 <= first.0);
    memory.write(first, &[1; 10]).unwrap();
    memory.write(second, &[2; 6]).unwrap();
    assert_eq!(memory.read(first, 10).unwrap(), vec![1; 10]);
    assert_eq!(memory.read(second, 6).unwrap(), vec![2; 6]);
}

#[test]
fn oversized_allocation_fails_without_guest_call() {
    let mut memory = fresh_handle();
    let size = i32::MAX as u32 + 1;
    assert_eq!(memory.allocate(size), Err(RuntimeError::AllocationTooLarge { size }));
    assert_eq!(memory.allocate(u32::MAX), Err(RuntimeError::AllocationTooLarge { size: u32::MAX }));
    let (instance, _) = memory.into_parts();
    assert_eq!(instance.call_count(), 0);
}

#[test]
fn allocation_counts_one_guest_call() {
    let mut memory = fresh_handle();
    memory.allocate(4).unwrap();
    memory.allocate(4).unwrap();
    memory.deallocate(GuestPointer(0)).unwrap();
    let (instance, _) = memory.into_parts();
    assert_eq!(instance.call_count(), 3);
    assert_eq!(instance.memory_size(), 8);
}

#[test]
fn missing_export_is_not_found() {
    let mut instance = MockInstance::new(4, true);
    let loaded =
        <MockInstance as InstanceWithFunction<(i32,), ()>>::load_function(&mut instance, "does_not_exist");
    assert!(matches!(loaded, Err(RuntimeError::FunctionNotFound)));
    assert_eq!(instance.call_count(), 0);
    assert_eq!(instance.memory_size(), 4);
    let loaded =
        <MockInstance as InstanceWithFunction<(i32,), ()>>::load_function(&mut instance, "cabi_free");
    assert!(loaded.is_ok());
}

#[test]
fn guest_without_allocator_reports_not_found_each_time() {
    let mut memory = Memory::new(MockInstance::new(4, false), MockMemory);
    assert_eq!(memory.allocate(4), Err(RuntimeError::FunctionNotFound));
    assert_eq!(memory.allocate(4), Err(RuntimeError::FunctionNotFound));
    assert_eq!(memory.deallocate(GuestPointer(0)), Err(RuntimeError::FunctionNotFound));
    memory.write(GuestPointer(0), &[5, 6, 7, 8]).unwrap();
    assert_eq!(memory.read(GuestPointer(0), 4).unwrap(), vec![5, 6, 7, 8]);
}

#[test]
fn deallocate_rejects_address_outside_abi_range() {
    let mut memory = fresh_handle();
    let address = 0x8000_0000;
    assert_eq!(
        memory.deallocate(GuestPointer(address)),
        Err(RuntimeError::DeallocateInvalidAddress { address })
    );
}

#[test]
fn abi_conversions() {
    assert_eq!(allocation_size(16), Ok(16));
    assert_eq!(allocation_size(i32::MAX as u32), Ok(i32::MAX));
    assert_eq!(
        allocation_size(1 << 31),
        Err(RuntimeError::AllocationTooLarge { size: 1 << 31 })
    );
    assert_eq!(allocation_address(24), Ok(GuestPointer(24)));
    assert_eq!(allocation_address(-1), Err(RuntimeError::AllocationFailed));
    assert_eq!(deallocation_address(GuestPointer(40)), Ok(40));
    assert_eq!(
        deallocation_address(GuestPointer(u32::MAX)),
        Err(RuntimeError::DeallocateInvalidAddress { address: u32::MAX })
    );
}

#[test]
fn failed_write_leaves_memory_unchanged() {
    let mut memory = Memory::new(MockInstance::new(4, false), MockMemory);
    memory.write(GuestPointer(0), &[1, 2, 3, 4]).unwrap();
    assert!(memory.write(GuestPointer(2), &[9, 9, 9]).is_err());
    assert_eq!(memory.read(GuestPointer(0), 4).unwrap(), vec![1, 2, 3, 4]);
}

#[test]
fn failed_resolution_keeps_instance() {
    let mut memory = Memory::new(MockInstance::new(6, false), MockMemory);
    memory.write(GuestPointer(1), &[3, 1, 4]).unwrap();
    assert_eq!(memory.allocate(8), Err(RuntimeError::FunctionNotFound));
    assert_eq!(memory.read(GuestPointer(0), 6).unwrap(), vec![0, 3, 1, 4, 0, 0]);
    let (instance, _) = memory.into_parts();
    assert_eq!(instance.call_count(), 0);
    assert_eq!(instance.memory_size(), 6);
}
