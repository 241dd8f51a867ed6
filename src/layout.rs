use vstd::arithmetic::power2::{lemma2_to64, lemma_pow2_pos, pow2};
use vstd::prelude::*;

verus! {

/// An alignment is a power of two.
pub open spec fn is_alignment(align: nat) -> bool {
    exists|k: nat| k < 32 && pow2(k) == align
}

/// The number of bytes needed after `address` to reach a multiple of `align`.
pub open spec fn padding(address: nat, align: nat) -> nat
    recommends
        align > 0,
{
    if address % align == 0 {
        0
    } else {
        (align - address % align) as nat
    }
}

/// `size` rounded up to the next multiple of `align`.
pub open spec fn round_up(size: nat, align: nat) -> nat
    recommends
        align > 0,
{
    size + padding(size, align)
}

/// A type with a fixed representation in guest memory.
pub trait WitType {
    /// The number of bytes a value occupies.
    spec fn layout_size() -> nat;

    /// The boundary a value's address must sit on.
    spec fn layout_alignment() -> nat;

    fn size() -> (r: u32)
        ensures
            r == Self::layout_size(),
    ;

    fn alignment() -> (r: u32)
        ensures
            r == Self::layout_alignment(),
            is_alignment(r as nat),
    ;
}

/// Every alignment is positive.
pub proof fn lemma_alignment_positive(align: nat)
    requires
        is_alignment(align),
    ensures
        align > 0,
{
    let k = choose|k: nat| k < 32 && pow2(k) == align;
    lemma_pow2_pos(k);
}

/// Padding for any address and alignment is less than the alignment, and it brings the
/// address to a multiple of the alignment.
pub proof fn lemma_padding_aligns(address: nat, align: nat)
    requires
        is_alignment(align),
    ensures
        padding(address, align) < align,
        (address + padding(address, align)) % align == 0,
{
    lemma_alignment_positive(align);
    let rem = address % align;
    if rem != 0 {
        assert(((address + (align - rem)) as nat) % align == 0) by (nonlinear_arith)
            requires
                rem == address % align,
                align > 0,
                rem > 0,
        ;
    }
}

proof fn lemma_alignment_of(align: nat)
    requires
        align == 1 || align == 2 || align == 4 || align == 8,
    ensures
        is_alignment(align),
{
    lemma2_to64();
    if align == 1 {
        assert(pow2(0) == align);
    } else if align == 2 {
        assert(pow2(1) == align);
    } else if align == 4 {
        assert(pow2(2) == align);
    } else {
        assert(pow2(3) == align);
    }
}

impl WitType for u8 {
    open spec fn layout_size() -> nat {
        1
    }

    open spec fn layout_alignment() -> nat {
        1
    }

    fn size() -> (r: u32) {
        1
    }

    fn alignment() -> (r: u32) {
        proof {
            lemma_alignment_of(1);
        }
        1
    }
}

impl WitType for i8 {
    open spec fn layout_size() -> nat {
        1
    }

    open spec fn layout_alignment() -> nat {
        1
    }

    fn size() -> (r: u32) {
        1
    }

    fn alignment() -> (r: u32) {
        proof {
            lemma_alignment_of(1);
        }
        1
    }
}

impl WitType for bool {
    open spec fn layout_size() -> nat {
        1
    }

    open spec fn layout_alignment() -> nat {
        1
    }

    fn size() -> (r: u32) {
        1
    }

    fn alignment() -> (r: u32) {
        proof {
            lemma_alignment_of(1);
        }
        1
    }
}

impl WitType for u16 {
    open spec fn layout_size() -> nat {
        2
    }

    open spec fn layout_alignment() -> nat {
        2
    }

    fn size() -> (r: u32) {
        2
    }

    fn alignment() -> (r: u32) {
        proof {
            lemma_alignment_of(2);
        }
        2
    }
}

impl WitType for i16 {
    open spec fn layout_size() -> nat {
        2
    }

    open spec fn layout_alignment() -> nat {
        2
    }

    fn size() -> (r: u32) {
        2
    }

    fn alignment() -> (r: u32) {
        proof {
            lemma_alignment_of(2);
        }
        2
    }
}

impl WitType for u32 {
    open spec fn layout_size() -> nat {
        4
    }

    open spec fn layout_alignment() -> nat {
        4
    }

    fn size() -> (r: u32) {
        4
    }

    fn alignment() -> (r: u32) {
        proof {
            lemma_alignment_of(4);
        }
        4
    }
}

impl WitType for i32 {
    open spec fn layout_size() -> nat {
        4
    }

    open spec fn layout_alignment() -> nat {
        4
    }

    fn size() -> (r: u32) {
        4
    }

    fn alignment() -> (r: u32) {
        proof {
            lemma_alignment_of(4);
        }
        4
    }
}

impl WitType for u64 {
    open spec fn layout_size() -> nat {
        8
    }

    open spec fn layout_alignment() -> nat {
        8
    }

    fn size() -> (r: u32) {
        8
    }

    fn alignment() -> (r: u32) {
        proof {
            lemma_alignment_of(8);
        }
        8
    }
}

impl WitType for i64 {
    open spec fn layout_size() -> nat {
        8
    }

    open spec fn layout_alignment() -> nat {
        8
    }

    fn size() -> (r: u32) {
        8
    }

    fn alignment() -> (r: u32) {
        proof {
            lemma_alignment_of(8);
        }
        8
    }
}

} // verus!
