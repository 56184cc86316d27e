use vstd::prelude::*;

verus! {

/// The largest size a `DeviceLayout` can have with alignment 1.
pub open spec fn device_layout_max_size() -> u64 {
    0x7FFF_FFFF_FFFF_FFFF
}

/// Whether `a` is a power of two.
pub open spec fn is_power_of_two(a: u64) -> bool {
    a != 0 && a & ((a - 1) as u64) == 0
}

/// The size and alignment of a block of device memory: the size is not zero, the alignment
/// is a power of two, and the size rounded up to the alignment fits in `device_layout_max_size`.
#[derive(Clone, Copy, Debug, PartialEq, Eq)]
pub struct DeviceLayout {
    size: u64,
    alignment: u64,
}

/// Whether `size` and `alignment` make a `DeviceLayout`.
pub open spec fn valid_layout(size: u64, alignment: u64) -> bool {
    &&& size != 0
    &&& is_power_of_two(alignment)
    &&& size <= device_layout_max_size() - (alignment - 1)
}

impl DeviceLayout {
    /// The size.
    pub closed spec fn spec_size(&self) -> u64 {
        self.size
    }

    /// The alignment.
    pub closed spec fn spec_alignment(&self) -> u64 {
        self.alignment
    }

    /// The layout of `size` bytes aligned to `alignment`, if these make a layout.
    pub fn from_size_alignment(size: u64, alignment: u64) -> (r: Option<DeviceLayout>)
        ensures
            r is Some <==> valid_layout(size, alignment),
            r matches Some(l) ==> l.spec_size() == size && l.spec_alignment() == alignment,
    {
        if size == 0 || alignment == 0 || alignment & (alignment - 1) != 0 {
            return None;
        }
        assert(alignment <= 0x8000_0000_0000_0000u64) by (bit_vector)
            requires
                alignment != 0,
                alignment & ((alignment - 1) as u64) == 0,
        ;
        if size > 0x7FFF_FFFF_FFFF_FFFFu64 - (alignment - 1) {
            return None;
        }
        Some(DeviceLayout { size, alignment })
    }

    /// The size.
    pub fn size(&self) -> (r: u64)
        ensures
            r == self.spec_size(),
    {
        self.size
    }

    /// The alignment.
    pub fn alignment(&self) -> (r: u64)
        ensures
            r == self.spec_alignment(),
    {
        self.alignment
    }
}

/// The memory requirements of a buffer or image.
#[derive(Clone, Copy, Debug, PartialEq, Eq)]
pub struct MemoryRequirements {
    /// The size and alignment of the memory.
    pub layout: DeviceLayout,
    /// A bitmask of the indices of the memory types that can be used.
    pub memory_type_bits: u32,
    /// Whether a dedicated allocation is preferred.
    pub prefers_dedicated_allocation: bool,
    /// Whether a dedicated allocation is required.
    pub requires_dedicated_allocation: bool,
}

impl MemoryRequirements {
    /// The requirements that Vulkan reports: the size, alignment and memory type bits of
    /// `VkMemoryRequirements`, and the two `VkBool32` fields of `VkMemoryDedicatedRequirements`.
    pub fn from_vk(
        size: u64,
        alignment: u64,
        memory_type_bits: u32,
        prefers_dedicated_allocation: u32,
        requires_dedicated_allocation: u32,
    ) -> (r: MemoryRequirements)
        requires
            valid_layout(size, alignment),
        ensures
            r.layout.spec_size() == size,
            r.layout.spec_alignment() == alignment,
            r.memory_type_bits == memory_type_bits,
            r.prefers_dedicated_allocation == (prefers_dedicated_allocation != 0),
            r.requires_dedicated_allocation == (requires_dedicated_allocation != 0),
    {
        let layout = DeviceLayout::from_size_alignment(size, alignment).unwrap();
        MemoryRequirements {
            layout,
            memory_type_bits,
            prefers_dedicated_allocation: prefers_dedicated_allocation != 0,
            requires_dedicated_allocation: requires_dedicated_allocation != 0,
        }
    }
}

/// The properties of a Unix file descriptor when it is imported.
#[derive(Clone, Copy, Debug, PartialEq, Eq)]
pub struct MemoryFdProperties {
    /// A bitmask of the indices of memory types that can be used with the file.
    pub memory_type_bits: u32,
}

} // verus!
