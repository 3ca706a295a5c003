//! Choosing the memory type that backs a buffer or an image.

use vstd::prelude::*;

use crate::native::{host_visible_bits, HOST_VISIBLE};

verus! {

/// One entry of a physical device's table of memory types.
#[derive(Clone, Copy, Debug, PartialEq, Eq)]
pub struct MemoryType {
    /// Raw `VkMemoryPropertyFlags` of the type.
    pub property_flags: u32,
    /// Index of the heap the type allocates from.
    pub heap_index: u32,
}

/// What a resource asks of the memory that is bound to it.
#[derive(Clone, Copy, Debug, PartialEq, Eq)]
pub struct MemoryRequirements {
    /// Size of the allocation in bytes.
    pub size: u64,
    /// Required alignment in bytes.
    pub alignment: u64,
    /// Bit `i` is set exactly when memory type `i` may back the resource.
    pub memory_type_bits: u32,
}

/// How a resource gets its memory: what to allocate, and where in the
/// allocation the resource is bound.
#[derive(Clone, Copy, Debug, PartialEq, Eq)]
pub struct MemoryPlan {
    /// Size of the allocation in bytes.
    pub allocation_size: u64,
    /// Index of the memory type to allocate from.
    pub memory_type_index: u32,
    /// Offset into the allocation at which the resource is bound.
    pub bind_offset: u64,
}

/// Whether a memory type with these property flags can be mapped by the host.
pub open spec fn is_host_visible(property_flags: u32) -> bool {
    property_flags & HOST_VISIBLE != 0
}

/// Whether the bitmask of a resource admits the memory type at `index`.
/// The mask has 32 bits, so no index from 32 on is ever admitted.
pub open spec fn admits(memory_type_bits: u32, index: int) -> bool {
    0 <= index < 32 && memory_type_bits & (1u32 << (index as u32)) != 0
}

/// Whether the memory type at `index` exists, is admitted by the resource
/// and is host-visible.
pub open spec fn is_suitable(types: Seq<MemoryType>, memory_type_bits: u32, index: int) -> bool {
    &&& 0 <= index < types.len()
    &&& admits(memory_type_bits, index)
    &&& is_host_visible(types[index].property_flags)
}

/// Whether `index` is suitable and no smaller index is.
pub open spec fn is_lowest_suitable(
    types: Seq<MemoryType>,
    memory_type_bits: u32,
    index: int,
) -> bool {
    &&& is_suitable(types, memory_type_bits, index)
    &&& forall|lower: int| 0 <= lower < index ==> !is_suitable(types, memory_type_bits, lower)
}

/// Whether the table holds no suitable memory type at all.
pub open spec fn none_suitable(types: Seq<MemoryType>, memory_type_bits: u32) -> bool {
    forall|index: int| !is_suitable(types, memory_type_bits, index)
}

/// At most one index is the lowest suitable one, so the contract of
/// [`select_memory_type`] leaves no choice.
pub proof fn lemma_lowest_suitable_unique(
    types: Seq<MemoryType>,
    memory_type_bits: u32,
    first: int,
    second: int,
)
    requires
        is_lowest_suitable(types, memory_type_bits, first),
        is_lowest_suitable(types, memory_type_bits, second),
    ensures
        first == second,
{
    if first < second {
        assert(!is_suitable(types, memory_type_bits, first));
    } else if second < first {
        assert(!is_suitable(types, memory_type_bits, second));
    }
}

/// A suitable index never lies beyond the 32 bits of the mask or the end of
/// the table.
pub proof fn lemma_suitable_in_range(types: Seq<MemoryType>, memory_type_bits: u32, index: int)
    requires
        is_suitable(types, memory_type_bits, index),
    ensures
        0 <= index < 32,
        index < types.len(),
{
}

/// Host visibility is required without exception: a table of which no type
/// is host-visible offers nothing, whatever the resource admits.
pub proof fn lemma_host_visibility_is_required(types: Seq<MemoryType>, memory_type_bits: u32)
    requires
        forall|index: int|
            0 <= index < types.len() ==> !is_host_visible(#[trigger] types[index].property_flags),
    ensures
        none_suitable(types, memory_type_bits),
{
}

/// Selects the lowest-indexed memory type that the resource admits and the
/// host can map, or `None` when the table holds no such type.
pub fn select_memory_type(types: &[MemoryType], memory_type_bits: u32) -> (found: Option<u32>)
    ensures
        found is None <==> none_suitable(types@, memory_type_bits),
        found matches Some(index) ==> is_lowest_suitable(types@, memory_type_bits, index as int),
{
    let host_visible = host_visible_bits();
    let mut index: u32 = 0;
    while index < 32 && (index as usize) < types.len()
        invariant
            index <= 32,
            index <= types@.len(),
            host_visible == HOST_VISIBLE,
            forall|lower: int| 0 <= lower < index ==> !is_suitable(types@, memory_type_bits, lower),
        decreases 32 - index,
    {
        if memory_type_bits & (1u32 << index) != 0
            && types[index as usize].property_flags & host_visible != 0 {
            assert(is_suitable(types@, memory_type_bits, index as int));
            return Some(index);
        }
        index += 1;
    }
    None
}

/// Plans the memory of a resource.  The allocation has the full size the
/// resource asks for, comes from the memory type that
/// [`select_memory_type`] picks, and backs this one resource alone, which
/// is bound at its very start.  `None` means that the device offers no
/// memory the resource could use.
pub fn plan_memory(types: &[MemoryType], requirements: &MemoryRequirements) -> (plan: Option<
    MemoryPlan,
>)
    ensures
        plan is None <==> none_suitable(types@, requirements.memory_type_bits),
        plan matches Some(plan) ==> {
            &&& plan.allocation_size == requirements.size
            &&& is_lowest_suitable(
                types@,
                requirements.memory_type_bits,
                plan.memory_type_index as int,
            )
            &&& plan.bind_offset == 0
        },
{
    match select_memory_type(types, requirements.memory_type_bits) {
        Some(index) => Some(
            MemoryPlan {
                allocation_size: requirements.size,
                memory_type_index: index,
                bind_offset: 0,
            },
        ),
        None => None,
    }
}

} // verus!
