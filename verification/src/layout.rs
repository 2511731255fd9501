//! Where the slots of a table of pointers lie in memory.
//!
//! A table is a run of pointer-sized slots that starts at a base address.
//! Slot `index` starts `index` pointer widths after the base. Nothing here
//! reads memory: the functions only compute addresses, as plain integers.

use vstd::arithmetic::div_mod::lemma_add_mod_noop_right;
use vstd::arithmetic::div_mod::lemma_small_mod;
use vstd::prelude::*;

verus! {

/// How many addresses the machine has: one more than the largest `usize`.
pub open spec fn address_space() -> int {
    usize::MAX + 1
}

/// Bytes taken by one slot, which holds one pointer.
pub open spec fn spec_pointer_width() -> usize {
    (usize::BITS / 8) as usize
}

/// Where slot `index` of the table at `base` starts, as a mathematical
/// integer that may lie beyond the last address of the machine.
pub open spec fn slot_start(base: usize, index: int) -> int {
    base + index * spec_pointer_width()
}

/// Whether slots `0` to `slots - 1` of the table at `base` all lie within the
/// machine's addresses.
pub open spec fn table_fits(base: usize, slots: int) -> bool {
    slot_start(base, slots) <= address_space()
}

/// The address of slot `index` of the table at `base`: where the slot starts,
/// taken modulo the size of the address space.
pub open spec fn spec_slot_address(base: usize, index: usize) -> usize {
    (slot_start(base, index as int) % address_space()) as usize
}

/// Bytes taken by one slot on this machine.
#[verifier::when_used_as_spec(spec_pointer_width)]
pub fn pointer_width() -> (width: usize)
    ensures
        width == spec_pointer_width(),
        width == 4 || width == 8,
{
    (usize::BITS / 8) as usize
}

/// Computes the address of slot `index` of the table at `base`.
///
/// No input is refused and nothing is read: an address past the end of the
/// address space wraps around, as unchecked pointer arithmetic would.
#[verifier::when_used_as_spec(spec_slot_address)]
pub fn slot_address(base: usize, index: usize) -> (address: usize)
    ensures
        address == spec_slot_address(base, index),
{
    let width = pointer_width();
    let distance = index.wrapping_mul(width);
    proof {
        lemma_add_mod_noop_right(base as int, index as int * width as int, address_space());
    }
    base.wrapping_add(distance)
}

/// A slot that lies within the machine's addresses has the address where it
/// starts: nothing wraps.
pub proof fn lemma_slot_address_exact(base: usize, index: usize)
    requires
        table_fits(base, index + 1),
    ensures
        spec_slot_address(base, index) == slot_start(base, index as int),
{
    assert((index + 1) * spec_pointer_width() == index * spec_pointer_width()
        + spec_pointer_width()) by (nonlinear_arith);
    lemma_small_mod(slot_start(base, index as int) as nat, address_space() as nat);
}

/// Within a table that fits in the address space, a slot ends before the next
/// one starts: slots with different indices never overlap.
pub proof fn lemma_slots_apart(base: usize, low: usize, high: usize)
    requires
        low < high,
        table_fits(base, high + 1),
    ensures
        spec_slot_address(base, low) + spec_pointer_width() <= spec_slot_address(base, high),
{
    assert(low as int * spec_pointer_width() + spec_pointer_width() <= high as int
        * spec_pointer_width()) by (nonlinear_arith)
        requires
            low < high,
            spec_pointer_width() > 0,
    ;
    assert(table_fits(base, low + 1)) by (nonlinear_arith)
        requires
            low < high,
            table_fits(base, high + 1),
            spec_pointer_width() > 0,
    ;
    lemma_slot_address_exact(base, low);
    lemma_slot_address_exact(base, high);
}

} // verus!
