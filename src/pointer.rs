use crate::error::RuntimeError;
use crate::layout::{lemma_padding_aligns, padding, round_up, WitType};
use vstd::prelude::*;

verus! {

/// The largest address of a 32-bit guest memory.
pub open spec fn address_limit() -> nat {
    u32::MAX as nat
}

/// The result of address arithmetic: the address when it fits in 32 bits.
pub open spec fn address_result(target: int, r: Result<GuestPointer, RuntimeError>) -> bool {
    &&& (r is Ok <==> target <= address_limit())
    &&& (r is Ok ==> r->Ok_0.0 == target)
    &&& (r is Err ==> r->Err_0 == RuntimeError::AddressOverflow)
}

/// The distance between consecutive elements of an array of `T`.
pub open spec fn stride_of<T: WitType>() -> nat {
    round_up(T::layout_size(), T::layout_alignment())
}

/// An address for a location in a guest WebAssembly module's memory.
#[derive(Clone, Copy, Debug, PartialEq, Eq, Structural)]
pub struct GuestPointer(pub u32);

impl GuestPointer {
    fn checked(target: u64) -> (r: Result<GuestPointer, RuntimeError>)
        ensures
            address_result(target as int, r),
    {
        if target <= u32::MAX as u64 {
            Ok(GuestPointer(target as u32))
        } else {
            Err(RuntimeError::AddressOverflow)
        }
    }

    /// Returns the address just past a value of `T` stored here.
    pub fn after<T: WitType>(&self) -> (r: Result<GuestPointer, RuntimeError>)
        ensures
            address_result(self.0 + T::layout_size(), r),
    {
        let size = T::size();
        Self::checked(self.0 as u64 + size as u64)
    }

    /// Returns the number of bytes to skip from here to an address aligned for `T`.
    pub fn padding_for<T: WitType>(&self) -> (r: u32)
        ensures
            r == padding(self.0 as nat, T::layout_alignment()),
            r < T::layout_alignment(),
            (self.0 + r) % (T::layout_alignment() as int) == 0,
    {
        let align = T::alignment();
        proof {
            lemma_padding_aligns(self.0 as nat, align as nat);
        }
        let rem = self.0 % align;
        if rem == 0 {
            0
        } else {
            align - rem
        }
    }

    /// Returns this address advanced by the padding needed to align it for `T`.
    pub fn after_padding_for<T: WitType>(&self) -> (r: Result<GuestPointer, RuntimeError>)
        ensures
            address_result(self.0 + padding(self.0 as nat, T::layout_alignment()), r),
    {
        let padding = self.padding_for::<T>();
        Self::checked(self.0 as u64 + padding as u64)
    }

    /// Returns the address of the element at `index` in an array of `T` that starts here.
    pub fn index<T: WitType>(&self, index: u32) -> (r: Result<GuestPointer, RuntimeError>)
        ensures
            address_result(self.0 + index * stride_of::<T>(), r),
            index == 0 ==> r == Ok::<GuestPointer, RuntimeError>(*self),
    {
        let size = T::size();
        let padding = GuestPointer(size).padding_for::<T>();
        let stride: u128 = size as u128 + padding as u128;
        proof {
            assert(index as u128 * stride <= u32::MAX as u128 * (2 * u32::MAX as u128))
                by (nonlinear_arith)
                requires
                    stride <= 2 * u32::MAX as u128,
            ;
        }
        let target: u128 = self.0 as u128 + index as u128 * stride;
        if target <= u32::MAX as u128 {
            Ok(GuestPointer(target as u32))
        } else {
            Err(RuntimeError::AddressOverflow)
        }
    }
}

} // verus!
