use linera_witty::error::RuntimeError;
use linera_witty::pointer::GuestPointer;

#[test]
fn padding_scenario_address_three_word_alignment() {
    let pointer = GuestPointer(3);
    assert_eq!(pointer.padding_for::<u32>(), 1);
    assert_eq!(pointer.after_padding_for::<u32>(), Ok(GuestPointer(4)));
}

#[test]
fn padding_is_below_alignment_and_aligns() {
    for address in 0..64u32 {
        let pointer = GuestPointer(address);
        let padding = pointer.padding_for::<u64>();
        assert!(padding < 8);
        assert_eq!((address + padding) % 8, 0);
        assert_eq!(GuestPointer(address).padding_for::<u8>(), 0);
    }
    assert_eq!(GuestPointer(6).padding_for::<u16>(), 0);
    assert_eq!(GuestPointer(7).padding_for::<u16>(), 1);
    assert_eq!(GuestPointer(9).padding_for::<i64>(), 7);
}

#[test]
fn aligned_address_is_unchanged() {
    assert_eq!(GuestPointer(16).after_padding_for::<u64>(), Ok(GuestPointer(16)));
    assert_eq!(GuestPointer(0).after_padding_for::<i32>(), Ok(GuestPointer(0)));
}

#[test]
fn after_advances_by_size_only() {
    assert_eq!(GuestPointer(5).after::<u64>(), Ok(GuestPointer(13)));
    assert_eq!(GuestPointer(1).after::<u32>(), Ok(GuestPointer(5)));
    assert_eq!(GuestPointer(3).after::<bool>(), Ok(GuestPointer(4)));
}

#[test]
fn index_scenario_words_from_zero() {
    assert_eq!(GuestPointer(0).index::<u32>(3), Ok(GuestPointer(12)));
}

#[test]
fn index_zero_is_base() {
    assert_eq!(GuestPointer(7).index::<u64>(0), Ok(GuestPointer(7)));
    assert_eq!(GuestPointer(u32::MAX).index::<u16>(0), Ok(GuestPointer(u32::MAX)));
}

#[test]
fn index_uses_stride() {
    assert_eq!(GuestPointer(100).index::<u16>(5), Ok(GuestPointer(110)));
    assert_eq!(GuestPointer(1).index::<i8>(9), Ok(GuestPointer(10)));
    assert_eq!(GuestPointer(8).index::<i64>(2), Ok(GuestPointer(24)));
}

#[test]
fn arithmetic_overflow_is_reported() {
    assert_eq!(GuestPointer(u32::MAX).after::<u8>(), Err(RuntimeError::AddressOverflow));
    assert_eq!(GuestPointer(u32::MAX - 4).after::<u32>(), Ok(GuestPointer(u32::MAX)));
    assert_eq!(
        GuestPointer(u32::MAX).after_padding_for::<u32>(),
        Err(RuntimeError::AddressOverflow)
    );
    assert_eq!(
        GuestPointer(0).index::<u64>(u32::MAX),
        Err(RuntimeError::AddressOverflow)
    );
    assert_eq!(GuestPointer(3).index::<u32>(u32::MAX / 4), Ok(GuestPointer(u32::MAX)));
    assert_eq!(GuestPointer(4).index::<u32>(u32::MAX / 4), Err(RuntimeError::AddressOverflow));
}
