//! Choosing a memory type for an allocation.
//!
//! The driver reports up to 32 memory types; an allocation's requirements
//! name which of them are admissible as a bit mask, and the caller asks for
//! property flags the chosen type must carry. The decision is the first
//! reported type that satisfies both.

use vstd::prelude::*;

use crate::error::{RenderError, RenderResult};

verus! {

/// Whether memory type `i` with property flags `flags` satisfies a
/// requirement: bit `i` of `type_filter` admits it, and it carries every
/// flag of `wanted`.
pub open spec fn memory_type_suitable(flags: u32, type_filter: u32, i: int, wanted: u32) -> bool {
    &&& type_filter & (1u32 << (i as u32)) != 0
    &&& flags & wanted == wanted
}

/// The index of the first reported memory type admitted by `type_filter`
/// that carries every flag of `wanted`, or `MemoryTypeNotSupported` when no
/// reported type qualifies. `memory_type_flags` holds the property flags of
/// each reported type, in the driver's order.
pub fn find_memory_type(memory_type_flags: &Vec<u32>, type_filter: u32, wanted: u32) -> (r:
    RenderResult<u32>)
    requires
        memory_type_flags@.len() <= 32,
    ensures
        match r {
            Ok(i) => 0 <= i < memory_type_flags@.len() && memory_type_suitable(
                memory_type_flags@[i as int],
                type_filter,
                i as int,
                wanted,
            ) && (forall|j: int|
                0 <= j < i ==> !memory_type_suitable(
                    memory_type_flags@[j],
                    type_filter,
                    j,
                    wanted,
                )),
            Err(e) => (forall|j: int|
                0 <= j < memory_type_flags@.len() ==> !memory_type_suitable(
                    memory_type_flags@[j],
                    type_filter,
                    j,
                    wanted,
                )) && e is MemoryTypeNotSupported,
        },
{
    let mut i: u32 = 0;
    while i < memory_type_flags.len() as u32
        invariant
            memory_type_flags@.len() <= 32,
            0 <= i <= memory_type_flags@.len(),
            forall|j: int|
                0 <= j < i ==> !memory_type_suitable(
                    memory_type_flags@[j],
                    type_filter,
                    j,
                    wanted,
                ),
        decreases memory_type_flags@.len() - i,
    {
        let flags: u32 = memory_type_flags[i as usize];
        if (type_filter & (1u32 << i)) != 0 && (flags & wanted) == wanted {
            return Ok(i);
        }
        i = i + 1;
    }
    Err(
        RenderError::MemoryTypeNotSupported(
            String::from_str("Failed to find suitable memory type"),
        ),
    )
}

} // verus!
