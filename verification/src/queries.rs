use vstd::prelude::*;
use crate::device::Device;
use crate::error::ValidationError;
use crate::extensions::DeviceExtension;
use crate::features::Feature;
use crate::memory::MemoryRequirements;
use crate::physical::{Format, drm_modifier_properties_of};
use crate::version::{Version, version_ge, version_spec};

verus! {

/// Where an acceleration structure is built.
#[derive(Clone, Copy, Debug, PartialEq, Eq)]
pub enum AccelerationStructureBuildType {
    Host,
    Device,
    HostOrDevice,
}

/// The geometries of an acceleration structure build, by kind and number.
#[derive(Clone, Copy, Debug, PartialEq, Eq)]
pub enum AccelerationStructureGeometries {
    /// This many triangle geometries.
    Triangles(usize),
    /// This many axis-aligned bounding box geometries.
    Aabbs(usize),
    /// Instances of other acceleration structures, in one geometry.
    Instances,
}

/// What the build size query reads of the build geometry info.
#[derive(Clone, Copy, Debug, PartialEq, Eq)]
pub struct AccelerationStructureBuildGeometryInfo {
    /// The geometries to build.
    pub geometries: AccelerationStructureGeometries,
}

/// The first index, from `i` on, of a count above `limit`.
pub open spec fn first_count_above(counts: Seq<u32>, i: int, limit: u64) -> Option<int>
    decreases counts.len() - i,
{
    if i < 0 || i >= counts.len() {
        None
    } else if counts[i] > limit {
        Some(i)
    } else {
        first_count_above(counts, i + 1, limit)
    }
}

/// What is wrong with asking `d` for the build sizes of `geometries` with
/// `max_primitive_counts`, in the order the checks are made.
pub open spec fn build_sizes_error(
    d: Device,
    geometries: AccelerationStructureGeometries,
    max_primitive_counts: Seq<u32>,
) -> Option<ValidationError> {
    if !d.spec_enabled_extensions().khr_acceleration_structure {
        Some(ValidationError::RequiresDeviceExtension(DeviceExtension::KhrAccelerationStructure))
    } else if !d.spec_enabled_features().acceleration_structure {
        Some(ValidationError::RequiresFeature(Feature::AccelerationStructure))
    } else {
        let properties = d.spec_physical_device().properties;
        match geometries {
            AccelerationStructureGeometries::Instances => {
                match first_count_above(max_primitive_counts, 0, properties.max_instance_count.unwrap()) {
                    Some(i) => Some(ValidationError::InstanceCountExceedsLimit { index: i as usize }),
                    None => if max_primitive_counts.len() != 1 {
                        Some(ValidationError::PrimitiveCountsLengthMismatch)
                    } else {
                        None
                    },
                }
            },
            AccelerationStructureGeometries::Triangles(n) | AccelerationStructureGeometries::Aabbs(n) => {
                match first_count_above(max_primitive_counts, 0, properties.max_primitive_count.unwrap()) {
                    Some(i) => Some(ValidationError::PrimitiveCountExceedsLimit { index: i as usize }),
                    None => if max_primitive_counts.len() != n {
                        Some(ValidationError::PrimitiveCountsLengthMismatch)
                    } else {
                        None
                    },
                }
            },
        }
    }
}

/// The number of geometries of a build: one for instances.
pub open spec fn geometry_count_of(geometries: AccelerationStructureGeometries) -> int {
    match geometries {
        AccelerationStructureGeometries::Triangles(n) => n as int,
        AccelerationStructureGeometries::Aabbs(n) => n as int,
        AccelerationStructureGeometries::Instances => 1,
    }
}

/// What to hand to Vulkan to ask for the build sizes of an acceleration structure.
#[derive(Clone, Debug, PartialEq, Eq)]
pub struct AccelerationStructureBuildSizesQuery {
    /// Where the structure is built.
    pub build_type: AccelerationStructureBuildType,
    /// The `geometryCount` of the build geometry info.
    pub geometry_count: u32,
    /// The largest primitive or instance count of each geometry, in order.
    pub max_primitive_counts: Vec<u32>,
}

/// `q` asks for the build sizes of `build_info` built as `build_type` with
/// `max_primitive_counts`: the geometry count is taken as a `u32`, as Vulkan holds it.
pub open spec fn build_sizes_query_for(
    q: AccelerationStructureBuildSizesQuery,
    build_type: AccelerationStructureBuildType,
    build_info: AccelerationStructureBuildGeometryInfo,
    max_primitive_counts: Seq<u32>,
) -> bool {
    &&& q.build_type == build_type
    &&& q.geometry_count == geometry_count_of(build_info.geometries) as u32
    &&& q.max_primitive_counts@ == max_primitive_counts
}

/// A build that the build sizes check accepts has the extension and the feature enabled, one
/// primitive count per geometry (one for instances), and every count within the limit of its
/// kind.
pub proof fn accepted_build_sizes_have_one_count_per_geometry(
    d: Device,
    geometries: AccelerationStructureGeometries,
    max_primitive_counts: Seq<u32>,
)
    requires
        build_sizes_error(d, geometries, max_primitive_counts) is None,
    ensures
        d.spec_enabled_extensions().khr_acceleration_structure,
        d.spec_enabled_features().acceleration_structure,
        max_primitive_counts.len() == match geometries {
            AccelerationStructureGeometries::Triangles(n) => n as int,
            AccelerationStructureGeometries::Aabbs(n) => n as int,
            AccelerationStructureGeometries::Instances => 1,
        },
        forall|i: int| 0 <= i < max_primitive_counts.len() ==> (#[trigger] max_primitive_counts[i] as u64) <= match geometries {
            AccelerationStructureGeometries::Instances => d.spec_physical_device().properties.max_instance_count.unwrap(),
            _ => d.spec_physical_device().properties.max_primitive_count.unwrap(),
        },
{
    lemma_first_count_above_none(max_primitive_counts, 0, match geometries {
        AccelerationStructureGeometries::Instances => d.spec_physical_device().properties.max_instance_count.unwrap(),
        _ => d.spec_physical_device().properties.max_primitive_count.unwrap(),
    });
}

/// When no count from `i` on is above `limit`, every count from `i` on is within it.
proof fn lemma_first_count_above_none(counts: Seq<u32>, i: int, limit: u64)
    requires
        0 <= i,
        first_count_above(counts, i, limit) is None,
    ensures
        forall|k: int| i <= k < counts.len() ==> (#[trigger] counts[k] as u64) <= limit,
    decreases counts.len() - i,
{
    if i < counts.len() {
        lemma_first_count_above_none(counts, i + 1, limit);
    }
}

/// The memory requirements of a disjoint image are asked for one plane, and those of another
/// image for none; an accepted request has API version 1.3 or `khr_maintenance4`, and names a
/// plane that the format, or a memory plane aspect, has.
pub proof fn image_requirements_need_plane_exactly_when_disjoint(d: Device, ci: ImageCreateInfo, plane: Option<usize>)
    ensures
        ci.flags & 0x200u32 != 0 && plane is None ==> image_requirements_error(d, ci, plane) is Some,
        ci.flags & 0x200u32 == 0 && plane is Some ==> image_requirements_error(d, ci, plane) is Some,
        image_requirements_error(d, ci, plane) is None ==> d.spec_enabled_extensions().khr_maintenance4 || d.spec_api_version().major > 1
            || (d.spec_api_version().major == 1 && d.spec_api_version().minor >= 3),
        image_requirements_error(d, ci, plane) is None && plane is Some && ci.tiling != ImageTiling::DrmFormatModifier
            ==> plane.unwrap() < ci.format.plane_count && plane.unwrap() < 3,
        image_requirements_error(d, ci, plane) is None && plane is Some && ci.tiling == ImageTiling::DrmFormatModifier ==> plane.unwrap() < 4,
{
}

/// Whether the API version of `d` is at least `major.minor`, or `d` has `extension` enabled.
pub open spec fn has_version_or_extension(d: Device, major: u32, minor: u32, extension: DeviceExtension) -> bool {
    version_ge(d.spec_api_version(), version_spec(major, minor)) || d.spec_enabled_extensions().spec_contains(extension)
}

/// How a buffer or image is shared between queue families.
#[derive(Clone, Debug, PartialEq, Eq)]
pub enum Sharing {
    /// By one queue family at a time.
    Exclusive,
    /// By the given queue families at the same time.
    Concurrent(Vec<u32>),
}

/// Parameters to create a buffer.
#[derive(Clone, Debug)]
pub struct BufferCreateInfo {
    /// The raw buffer create flags.
    pub flags: u32,
    /// The size in bytes.
    pub size: u64,
    /// The raw buffer usage.
    pub usage: u32,
    /// The sharing mode.
    pub sharing: Sharing,
    /// The raw external memory handle types.
    pub external_memory_handle_types: u32,
}

/// How the tiling of an image is arranged.
#[derive(Clone, Copy, Debug, PartialEq, Eq)]
pub enum ImageTiling {
    Optimal,
    Linear,
    DrmFormatModifier,
}

/// The `VK_IMAGE_CREATE_DISJOINT_BIT` image create flag.
pub open spec fn image_create_disjoint() -> u32 {
    0x200
}

/// The dimensionality of an image.
#[derive(Clone, Copy, Debug, PartialEq, Eq)]
pub enum ImageType {
    Dim1d,
    Dim2d,
    Dim3d,
}

/// The layouts an image can be created in.
#[derive(Clone, Copy, Debug, PartialEq, Eq)]
pub enum ImageLayout {
    Undefined,
    Preinitialized,
}

/// Parameters to create an image.
#[derive(Clone, Debug)]
pub struct ImageCreateInfo {
    /// The raw image create flags.
    pub flags: u32,
    /// The dimensionality.
    pub image_type: ImageType,
    /// The format.
    pub format: Format,
    /// The formats that views of the image may have.
    pub view_formats: Vec<Format>,
    /// The width, height and depth.
    pub extent: [u32; 3],
    /// The number of array layers.
    pub array_layers: u32,
    /// The number of mip levels.
    pub mip_levels: u32,
    /// The raw sample count flags.
    pub samples: u32,
    /// The tiling.
    pub tiling: ImageTiling,
    /// The raw image usage.
    pub usage: u32,
    /// The raw usage of the stencil aspect, if it differs from the image's.
    pub stencil_usage: Option<u32>,
    /// The sharing mode.
    pub sharing: Sharing,
    /// The layout the image starts in.
    pub initial_layout: ImageLayout,
    /// The DRM format modifiers to choose from.
    pub drm_format_modifiers: Vec<u64>,
    /// The raw external memory handle types.
    pub external_memory_handle_types: u32,
}

/// What is wrong with asking `d` for the memory requirements of an image, in the order the
/// checks are made.
pub open spec fn image_requirements_error(d: Device, ci: ImageCreateInfo, plane: Option<usize>) -> Option<ValidationError> {
    if !has_version_or_extension(d, 1, 3, DeviceExtension::KhrMaintenance4) {
        Some(ValidationError::RequiresApiVersionOrDeviceExtension {
            api_version: version_spec(1, 3),
            extension: DeviceExtension::KhrMaintenance4,
        })
    } else if ci.flags & image_create_disjoint() != 0 {
        match plane {
            None => Some(ValidationError::DisjointWithoutPlane),
            Some(p) => match ci.tiling {
                ImageTiling::DrmFormatModifier => if ci.drm_format_modifiers@.len() == 1
                    && p >= modifier_properties(d, ci).drm_format_modifier_plane_count {
                    Some(ValidationError::PlaneNotLessThanModifierPlanes)
                } else if !plane_has_aspect(ci.tiling, plane) {
                    Some(ValidationError::PlaneWithoutAspect)
                } else {
                    None
                },
                _ => if p >= ci.format.plane_count {
                    Some(ValidationError::PlaneNotLessThanFormatPlanes)
                } else if !plane_has_aspect(ci.tiling, plane) {
                    Some(ValidationError::PlaneWithoutAspect)
                } else {
                    None
                },
            },
        }
    } else if plane is Some {
        Some(ValidationError::PlaneWithoutDisjoint)
    } else {
        None
    }
}

/// Whether the physical device of `d` lists the one DRM format modifier of `ci` for its format.
pub open spec fn modifier_listed(d: Device, ci: ImageCreateInfo) -> bool {
    exists|k: int| 0 <= k < drm_modifier_properties_of(*d.spec_physical_device(), ci.format).len()
        && #[trigger] drm_modifier_properties_of(*d.spec_physical_device(), ci.format)[k].drm_format_modifier
            == ci.drm_format_modifiers@[0]
}

/// The properties of the first entry that the physical device of `d` lists for the one DRM
/// format modifier of `ci`.
pub open spec fn modifier_properties(d: Device, ci: ImageCreateInfo) -> crate::physical::DrmFormatModifierProperties {
    let props = drm_modifier_properties_of(*d.spec_physical_device(), ci.format);
    let k = choose|k: int| 0 <= k < props.len() && #[trigger] props[k].drm_format_modifier == ci.drm_format_modifiers@[0]
        && forall|m: int| 0 <= m < k ==> props[m].drm_format_modifier != ci.drm_format_modifiers@[0];
    props[k]
}

/// The image aspect that memory requirements are asked for.
#[derive(Clone, Copy, Debug, PartialEq, Eq)]
pub enum ImageAspect {
    /// No aspect (`VK_IMAGE_ASPECT_NONE`).
    Empty,
    /// Plane `n` of the format (`VK_IMAGE_ASPECT_PLANE_n_BIT`).
    Plane(u32),
    /// Memory plane `n` of a DRM format modifier (`VK_IMAGE_ASPECT_MEMORY_PLANE_n_BIT_EXT`).
    MemoryPlane(u32),
}

/// The aspect to ask for: memory plane 0 for a DRM format modifier image without a plane,
/// none for another image without a plane, else the plane (of the format, or of the
/// modifier).
pub open spec fn plane_aspect(tiling: ImageTiling, plane: Option<usize>) -> ImageAspect {
    match plane {
        None => if tiling == ImageTiling::DrmFormatModifier {
            ImageAspect::MemoryPlane(0)
        } else {
            ImageAspect::Empty
        },
        Some(p) => if tiling == ImageTiling::DrmFormatModifier {
            ImageAspect::MemoryPlane(p as u32)
        } else {
            ImageAspect::Plane(p as u32)
        },
    }
}

/// Whether a plane can be named by an aspect: below 3 for a format plane, below 4 for a
/// memory plane.
pub open spec fn plane_has_aspect(tiling: ImageTiling, plane: Option<usize>) -> bool {
    match plane {
        None => true,
        Some(p) => if tiling == ImageTiling::DrmFormatModifier {
            p < 4
        } else {
            p < 3
        },
    }
}

/// How a create info is shared, as handed to Vulkan.
#[derive(Clone, Debug, PartialEq, Eq)]
pub struct SharingQuery {
    /// `VK_SHARING_MODE_CONCURRENT` rather than `VK_SHARING_MODE_EXCLUSIVE`.
    pub concurrent: bool,
    /// The queue family indices handed over, in order.
    pub queue_family_indices: Vec<u32>,
}

/// `q` is the sharing `s` as handed to Vulkan: concurrent with its queue family indices, or
/// exclusive with none.
pub open spec fn sharing_query_for(q: SharingQuery, s: Sharing) -> bool {
    match s {
        Sharing::Exclusive => !q.concurrent && q.queue_family_indices@.len() == 0,
        Sharing::Concurrent(v) => q.concurrent && q.queue_family_indices@ == v@,
    }
}

/// The raw external memory handle types to chain, when there are any.
pub open spec fn handle_types_to_chain(handle_types: u32) -> Option<u32> {
    if handle_types != 0 {
        Some(handle_types)
    } else {
        None
    }
}

/// What to hand to Vulkan to ask for the memory requirements of a buffer: the fields of its
/// `VkBufferCreateInfo`, what is chained behind it, and which function to call.
#[derive(Clone, Debug, PartialEq, Eq)]
pub struct BufferMemoryRequirementsQuery {
    /// The raw buffer create flags.
    pub flags: u32,
    /// The size in bytes.
    pub size: u64,
    /// The raw buffer usage.
    pub usage: u32,
    /// The sharing of the buffer.
    pub sharing: SharingQuery,
    /// The handle types of the `VkExternalMemoryBufferCreateInfo` to chain, if one is.
    pub external_memory_handle_types: Option<u32>,
    /// Whether to call the Vulkan 1.3 function rather than that of `khr_maintenance4`.
    pub use_core_1_3: bool,
}

/// What to hand to Vulkan to ask for the memory requirements of an image: the fields of its
/// `VkImageCreateInfo`, what is chained behind it, the aspect, and which function to call.
#[derive(Clone, Debug, PartialEq, Eq)]
pub struct ImageMemoryRequirementsQuery {
    /// The raw image create flags.
    pub flags: u32,
    /// The dimensionality.
    pub image_type: ImageType,
    /// The format.
    pub format: Format,
    /// The width, height and depth.
    pub extent: [u32; 3],
    /// The number of mip levels.
    pub mip_levels: u32,
    /// The number of array layers.
    pub array_layers: u32,
    /// The raw sample count flags.
    pub samples: u32,
    /// The tiling.
    pub tiling: ImageTiling,
    /// The raw image usage.
    pub usage: u32,
    /// The sharing of the image.
    pub sharing: SharingQuery,
    /// The layout the image starts in.
    pub initial_layout: ImageLayout,
    /// The modifiers of the `VkImageDrmFormatModifierListCreateInfoEXT` to chain, if one is.
    pub drm_format_modifiers: Option<Vec<u64>>,
    /// The handle types of the `VkExternalMemoryImageCreateInfo` to chain, if one is.
    pub external_memory_handle_types: Option<u32>,
    /// The raw formats of the `VkImageFormatListCreateInfo` to chain, if one is.
    pub view_formats: Option<Vec<u32>>,
    /// The raw stencil usage of the `VkImageStencilUsageCreateInfo` to chain, if one is.
    pub stencil_usage: Option<u32>,
    /// The aspect to ask for.
    pub plane_aspect: ImageAspect,
    /// Whether to call the Vulkan 1.3 function rather than that of `khr_maintenance4`.
    pub use_core_1_3: bool,
}

/// One binding of a descriptor set layout.
#[derive(Clone, Debug)]
pub struct DescriptorSetLayoutBinding {
    /// The raw binding flags.
    pub binding_flags: u32,
    /// The raw descriptor type.
    pub descriptor_type: i32,
    /// The number of descriptors.
    pub descriptor_count: u32,
    /// The raw shader stages that can access the binding.
    pub stages: u32,
    /// The raw handles of the immutable samplers.
    pub immutable_samplers: Vec<u64>,
}

/// Parameters to create a descriptor set layout.
#[derive(Clone, Debug)]
pub struct DescriptorSetLayoutCreateInfo {
    /// The raw create flags.
    pub flags: u32,
    /// The bindings, each with its binding number, in ascending binding number.
    pub bindings: Vec<(u32, DescriptorSetLayoutBinding)>,
}

/// A binding as handed to Vulkan in a `VkDescriptorSetLayoutBinding`.
#[derive(Clone, Debug, PartialEq, Eq)]
pub struct DescriptorSetLayoutBindingQuery {
    /// The binding number.
    pub binding: u32,
    /// The raw descriptor type.
    pub descriptor_type: i32,
    /// The number of descriptors.
    pub descriptor_count: u32,
    /// The raw shader stages.
    pub stage_flags: u32,
    /// The raw handles of the immutable samplers, in order.
    pub immutable_samplers: Vec<u64>,
}

/// `q` is the binding `b` (its number and the binding) as handed to Vulkan.
pub open spec fn binding_query_for(q: DescriptorSetLayoutBindingQuery, b: (u32, DescriptorSetLayoutBinding)) -> bool {
    &&& q.binding == b.0
    &&& q.descriptor_type == b.1.descriptor_type
    &&& q.descriptor_count == b.1.descriptor_count
    &&& q.stage_flags == b.1.stages
    &&& q.immutable_samplers@ == b.1.immutable_samplers@
}

/// What to hand to Vulkan to ask whether a descriptor set layout is supported: the fields of
/// its `VkDescriptorSetLayoutCreateInfo`, what is chained behind it, and which function to
/// call.
#[derive(Clone, Debug, PartialEq, Eq)]
pub struct DescriptorSetLayoutSupportQuery {
    /// The raw create flags.
    pub flags: u32,
    /// The bindings, in the order of the create info.
    pub bindings: Vec<DescriptorSetLayoutBindingQuery>,
    /// The flags of each binding, in the same order, when a
    /// `VkDescriptorSetLayoutBindingFlagsCreateInfo` (and a variable descriptor count support
    /// structure) is chained.
    pub binding_flags: Option<Vec<u32>>,
    /// Whether to call the Vulkan 1.1 function rather than that of `khr_maintenance3`.
    pub use_core_1_1: bool,
}

/// Additional properties of a supported descriptor set layout.
#[derive(Clone, Copy, Debug, PartialEq, Eq)]
pub struct DescriptorSetLayoutSupport {
    /// The largest number of descriptors that a variable-count binding of the layout can have.
    pub max_variable_descriptor_count: u32,
}

/// The external memory handle types.
#[derive(Clone, Copy, Debug, PartialEq, Eq)]
pub enum ExternalMemoryHandleType {
    OpaqueFd,
    OpaqueWin32,
    OpaqueWin32Kmt,
    D3D11Texture,
    D3D11TextureKmt,
    D3D12Heap,
    D3D12Resource,
    DmaBuf,
    AndroidHardwareBuffer,
    HostAllocation,
    HostMappedForeignMemory,
    ZirconVmo,
    RdmaAddress,
}

/// The sharing of `s` as handed to Vulkan.
fn sharing_query(s: &Sharing) -> (r: SharingQuery)
    ensures
        sharing_query_for(r, *s),
{
    match s {
        Sharing::Exclusive => SharingQuery { concurrent: false, queue_family_indices: Vec::new() },
        Sharing::Concurrent(v) => SharingQuery { concurrent: true, queue_family_indices: copy_u32s(v.as_slice()) },
    }
}

/// A vector with the elements of `s`, in order.
fn copy_u32s(s: &[u32]) -> (r: Vec<u32>)
    ensures
        r@ == s@,
{
    let mut r: Vec<u32> = Vec::new();
    let mut i: usize = 0;
    while i < s.len()
        invariant
            i <= s@.len(),
            r@ == s@.take(i as int),
        decreases s@.len() - i,
    {
        r.push(s[i]);
        i = i + 1;
        assert(r@ =~= s@.take(i as int));
    }
    assert(s@.take(s@.len() as int) =~= s@);
    r
}

/// A vector with the elements of `s`, in order.
fn copy_u64s(s: &[u64]) -> (r: Vec<u64>)
    ensures
        r@ == s@,
{
    let mut r: Vec<u64> = Vec::new();
    let mut i: usize = 0;
    while i < s.len()
        invariant
            i <= s@.len(),
            r@ == s@.take(i as int),
        decreases s@.len() - i,
    {
        r.push(s[i]);
        i = i + 1;
        assert(r@ =~= s@.take(i as int));
    }
    assert(s@.take(s@.len() as int) =~= s@);
    r
}

/// The raw codes of `formats`, in order.
fn format_codes(formats: &[Format]) -> (r: Vec<u32>)
    ensures
        r@ == formats@.map_values(|f: Format| f.code),
{
    let mut r: Vec<u32> = Vec::new();
    let mut i: usize = 0;
    while i < formats.len()
        invariant
            i <= formats@.len(),
            r@ == formats@.take(i as int).map_values(|f: Format| f.code),
        decreases formats@.len() - i,
    {
        r.push(formats[i].code);
        i = i + 1;
        assert(r@ =~= formats@.take(i as int).map_values(|f: Format| f.code));
    }
    assert(formats@.take(formats@.len() as int) =~= formats@);
    r
}

/// The bindings of `bindings` as handed to Vulkan, in order.
fn binding_queries(bindings: &[(u32, DescriptorSetLayoutBinding)]) -> (r: Vec<DescriptorSetLayoutBindingQuery>)
    ensures
        r@.len() == bindings@.len(),
        forall|i: int| 0 <= i < r@.len() ==> #[trigger] binding_query_for(r@[i], bindings@[i]),
{
    let mut r: Vec<DescriptorSetLayoutBindingQuery> = Vec::new();
    let mut i: usize = 0;
    while i < bindings.len()
        invariant
            i <= bindings@.len(),
            r@.len() == i,
            forall|k: int| 0 <= k < i ==> #[trigger] binding_query_for(r@[k], bindings@[k]),
        decreases bindings@.len() - i,
    {
        let (number, binding) = &bindings[i];
        r.push(DescriptorSetLayoutBindingQuery {
            binding: *number,
            descriptor_type: binding.descriptor_type,
            descriptor_count: binding.descriptor_count,
            stage_flags: binding.stages,
            immutable_samplers: copy_u64s(binding.immutable_samplers.as_slice()),
        });
        i = i + 1;
    }
    r
}

/// The flags of each binding of `bindings`, in order.
fn binding_flags_of(bindings: &[(u32, DescriptorSetLayoutBinding)]) -> (r: Vec<u32>)
    ensures
        r@ == bindings@.map_values(|b: (u32, DescriptorSetLayoutBinding)| b.1.binding_flags),
{
    let mut r: Vec<u32> = Vec::new();
    let mut i: usize = 0;
    while i < bindings.len()
        invariant
            i <= bindings@.len(),
            r@ == bindings@.take(i as int).map_values(|b: (u32, DescriptorSetLayoutBinding)| b.1.binding_flags),
        decreases bindings@.len() - i,
    {
        r.push(bindings[i].1.binding_flags);
        i = i + 1;
        assert(r@ =~= bindings@.take(i as int).map_values(|b: (u32, DescriptorSetLayoutBinding)| b.1.binding_flags));
    }
    assert(bindings@.take(bindings@.len() as int) =~= bindings@);
    r
}

impl Device {
    /// Checks that the device can report the build sizes of an acceleration structure with
    /// `build_info` and `max_primitive_counts`.
    #[verifier::loop_isolation(false)]
    pub fn validate_acceleration_structure_build_sizes(
        &self,
        _build_type: AccelerationStructureBuildType,
        build_info: &AccelerationStructureBuildGeometryInfo,
        max_primitive_counts: &[u32],
    ) -> (r: Result<(), ValidationError>)
        requires
            self.spec_enabled_extensions().khr_acceleration_structure
                && self.spec_enabled_features().acceleration_structure ==> {
                &&& self.spec_physical_device().properties.max_primitive_count is Some
                &&& self.spec_physical_device().properties.max_instance_count is Some
            },
        ensures
            r is Ok ==> {
                &&& self.spec_enabled_extensions().khr_acceleration_structure
                &&& self.spec_enabled_features().acceleration_structure
                &&& max_primitive_counts@.len() == match build_info.geometries {
                    AccelerationStructureGeometries::Triangles(n) => n as int,
                    AccelerationStructureGeometries::Aabbs(n) => n as int,
                    AccelerationStructureGeometries::Instances => 1,
                }
                &&& forall|i: int| 0 <= i < max_primitive_counts@.len() ==> (#[trigger] max_primitive_counts@[i] as u64) <= match build_info.geometries {
                    AccelerationStructureGeometries::Instances => self.spec_physical_device().properties.max_instance_count.unwrap(),
                    _ => self.spec_physical_device().properties.max_primitive_count.unwrap(),
                }
            },
            r == match build_sizes_error(*self, build_info.geometries, max_primitive_counts@) {
                Some(e) => Err(e),
                None => Ok(()),
            },
    {
        if !self.enabled_extensions().khr_acceleration_structure {
            return Err(ValidationError::RequiresDeviceExtension(DeviceExtension::KhrAccelerationStructure));
        }
        if !self.enabled_features().acceleration_structure {
            return Err(ValidationError::RequiresFeature(Feature::AccelerationStructure));
        }
        let properties = self.physical_device().properties;
        let max_primitive_count = properties.max_primitive_count.unwrap();
        let max_instance_count = properties.max_instance_count.unwrap();
        let (limit, instances, geometry_count) = match build_info.geometries {
            AccelerationStructureGeometries::Triangles(n) => (max_primitive_count, false, n),
            AccelerationStructureGeometries::Aabbs(n) => (max_primitive_count, false, n),
            AccelerationStructureGeometries::Instances => (max_instance_count, true, 1),
        };
        let mut index: usize = 0;
        while index < max_primitive_counts.len()
            invariant
                index <= max_primitive_counts@.len(),
                first_count_above(max_primitive_counts@, 0, limit) == first_count_above(max_primitive_counts@, index as int, limit),
            decreases max_primitive_counts@.len() - index,
        {
            if max_primitive_counts[index] as u64 > limit {
                if instances {
                    return Err(ValidationError::InstanceCountExceedsLimit { index });
                } else {
                    return Err(ValidationError::PrimitiveCountExceedsLimit { index });
                }
            }
            index = index + 1;
        }
        if max_primitive_counts.len() != geometry_count {
            return Err(ValidationError::PrimitiveCountsLengthMismatch);
        }
        assert(build_sizes_error(*self, build_info.geometries, max_primitive_counts@) is None);
        proof {
            accepted_build_sizes_have_one_count_per_geometry(*self, build_info.geometries, max_primitive_counts@);
        }
        Ok(())
    }

    /// Checks that the device can report the build sizes of an acceleration structure, then
    /// returns how to ask Vulkan for them.
    pub fn acceleration_structure_build_sizes(
        &self,
        build_type: AccelerationStructureBuildType,
        build_info: &AccelerationStructureBuildGeometryInfo,
        max_primitive_counts: &[u32],
    ) -> (r: Result<AccelerationStructureBuildSizesQuery, ValidationError>)
        requires
            self.spec_enabled_extensions().khr_acceleration_structure
                && self.spec_enabled_features().acceleration_structure ==> {
                &&& self.spec_physical_device().properties.max_primitive_count is Some
                &&& self.spec_physical_device().properties.max_instance_count is Some
            },
        ensures
            r is Ok ==> {
                &&& self.spec_enabled_extensions().khr_acceleration_structure
                &&& self.spec_enabled_features().acceleration_structure
                &&& max_primitive_counts@.len() == match build_info.geometries {
                    AccelerationStructureGeometries::Triangles(n) => n as int,
                    AccelerationStructureGeometries::Aabbs(n) => n as int,
                    AccelerationStructureGeometries::Instances => 1,
                }
                &&& forall|i: int| 0 <= i < max_primitive_counts@.len() ==> (#[trigger] max_primitive_counts@[i] as u64) <= match build_info.geometries {
                    AccelerationStructureGeometries::Instances => self.spec_physical_device().properties.max_instance_count.unwrap(),
                    _ => self.spec_physical_device().properties.max_primitive_count.unwrap(),
                }
            },
            match build_sizes_error(*self, build_info.geometries, max_primitive_counts@) {
                Some(e) => r == Err::<AccelerationStructureBuildSizesQuery, ValidationError>(e),
                None => r is Ok && build_sizes_query_for(r.unwrap(), build_type, *build_info, max_primitive_counts@),
            },
    {
        self.validate_acceleration_structure_build_sizes(build_type, build_info, max_primitive_counts)?;
        Ok(self.acceleration_structure_build_sizes_unchecked(build_type, build_info, max_primitive_counts))
    }

    /// How to ask Vulkan for the build sizes of an acceleration structure: the build type, the
    /// number of geometries of the build info, and the primitive counts, in order.
    pub fn acceleration_structure_build_sizes_unchecked(
        &self,
        build_type: AccelerationStructureBuildType,
        build_info: &AccelerationStructureBuildGeometryInfo,
        max_primitive_counts: &[u32],
    ) -> (r: AccelerationStructureBuildSizesQuery)
        ensures
            build_sizes_query_for(r, build_type, *build_info, max_primitive_counts@),
    {
        let count = match build_info.geometries {
            AccelerationStructureGeometries::Triangles(n) => n,
            AccelerationStructureGeometries::Aabbs(n) => n,
            AccelerationStructureGeometries::Instances => 1,
        };
        #[verifier::truncate]
        let geometry_count = count as u32;
        AccelerationStructureBuildSizesQuery {
            build_type,
            geometry_count,
            max_primitive_counts: copy_u32s(max_primitive_counts),
        }
    }

    /// Whether the compatibility that Vulkan reports is
    /// `VK_ACCELERATION_STRUCTURE_COMPATIBILITY_COMPATIBLE_KHR` (0), rather than
    /// `VK_ACCELERATION_STRUCTURE_COMPATIBILITY_INCOMPATIBLE_KHR` (1).
    pub fn acceleration_structure_is_compatible_from_vk(compatibility: i32) -> (r: bool)
        ensures
            r == (compatibility == 0),
    {
        compatibility == 0
    }

    /// Checks that the device can tell whether a serialized acceleration structure is
    /// compatible with it.
    pub fn validate_acceleration_structure_is_compatible(&self) -> (r: Result<(), ValidationError>)
        ensures
            r == if !self.spec_enabled_extensions().khr_acceleration_structure {
                Err(ValidationError::RequiresDeviceExtension(DeviceExtension::KhrAccelerationStructure))
            } else if !self.spec_enabled_features().acceleration_structure {
                Err(ValidationError::RequiresFeature(Feature::AccelerationStructure))
            } else {
                Ok(())
            },
    {
        if !self.enabled_extensions().khr_acceleration_structure {
            return Err(ValidationError::RequiresDeviceExtension(DeviceExtension::KhrAccelerationStructure));
        }
        if !self.enabled_features().acceleration_structure {
            return Err(ValidationError::RequiresFeature(Feature::AccelerationStructure));
        }
        Ok(())
    }

    /// Checks that the device can tell whether a descriptor set layout is supported: its API
    /// version is at least 1.1, or it has `khr_maintenance3`.
    pub fn validate_descriptor_set_layout_support(&self, _create_info: &DescriptorSetLayoutCreateInfo) -> (r: Result<(), ValidationError>)
        ensures
            r == if has_version_or_extension(*self, 1, 1, DeviceExtension::KhrMaintenance3) {
                Ok(())
            } else {
                Err(ValidationError::RequiresApiVersionOrDeviceExtension {
                    api_version: version_spec(1, 1),
                    extension: DeviceExtension::KhrMaintenance3,
                })
            },
    {
        if !(self.api_version().at_least(&Version::v1_1()) || self.enabled_extensions().khr_maintenance3) {
            return Err(ValidationError::RequiresApiVersionOrDeviceExtension {
                api_version: Version::v1_1(),
                extension: DeviceExtension::KhrMaintenance3,
            });
        }
        Ok(())
    }

    /// Checks that the device can tell whether a descriptor set layout is supported, then
    /// returns how to ask Vulkan about `create_info`.
    pub fn descriptor_set_layout_support(&self, create_info: &DescriptorSetLayoutCreateInfo) -> (r: Result<DescriptorSetLayoutSupportQuery, ValidationError>)
        ensures
            has_version_or_extension(*self, 1, 1, DeviceExtension::KhrMaintenance3) ==> r is Ok
                && descriptor_set_layout_support_query_for(r.unwrap(), *self, *create_info),
            !has_version_or_extension(*self, 1, 1, DeviceExtension::KhrMaintenance3) ==> r == Err::<DescriptorSetLayoutSupportQuery, ValidationError>(
                ValidationError::RequiresApiVersionOrDeviceExtension {
                    api_version: version_spec(1, 1),
                    extension: DeviceExtension::KhrMaintenance3,
                },
            ),
    {
        self.validate_descriptor_set_layout_support(create_info)?;
        Ok(self.descriptor_set_layout_support_unchecked(create_info))
    }

    /// How to ask Vulkan whether a descriptor set layout with `create_info` is supported: its
    /// flags and bindings, in order; the flags of each binding chained when the API version is
    /// at least 1.2 or `ext_descriptor_indexing` is enabled; and the Vulkan 1.1 function called
    /// when the API version is at least 1.1.
    pub fn descriptor_set_layout_support_unchecked(&self, create_info: &DescriptorSetLayoutCreateInfo) -> (r: DescriptorSetLayoutSupportQuery)
        ensures
            descriptor_set_layout_support_query_for(r, *self, *create_info),
    {
        let chain = self.api_version().at_least(&Version::v1_2())
            || self.enabled_extensions().ext_descriptor_indexing;
        let binding_flags = if chain {
            Some(binding_flags_of(create_info.bindings.as_slice()))
        } else {
            None
        };
        DescriptorSetLayoutSupportQuery {
            flags: create_info.flags,
            bindings: binding_queries(create_info.bindings.as_slice()),
            binding_flags,
            use_core_1_1: self.api_version().at_least(&Version::v1_1()),
        }
    }

    /// The answer to a descriptor set layout support query: `None` when Vulkan reports
    /// `supported` as false, else the variable descriptor count that Vulkan reports, or 0 when
    /// that was not asked for.
    pub fn descriptor_set_layout_support_from_vk(
        query: &DescriptorSetLayoutSupportQuery,
        supported: u32,
        max_variable_descriptor_count: u32,
    ) -> (r: Option<DescriptorSetLayoutSupport>)
        ensures
            r == if supported != 0 {
                Some(DescriptorSetLayoutSupport {
                    max_variable_descriptor_count: if query.binding_flags is Some {
                        max_variable_descriptor_count
                    } else {
                        0
                    },
                })
            } else {
                None
            },
    {
        if supported != 0 {
            Some(DescriptorSetLayoutSupport {
                max_variable_descriptor_count: if query.binding_flags.is_some() {
                    max_variable_descriptor_count
                } else {
                    0
                },
            })
        } else {
            None
        }
    }

    /// Checks that the device can report the memory requirements of a buffer: its API version
    /// is at least 1.3, or it has `khr_maintenance4`.
    pub fn validate_buffer_memory_requirements(&self, _create_info: &BufferCreateInfo) -> (r: Result<(), ValidationError>)
        ensures
            r == if has_version_or_extension(*self, 1, 3, DeviceExtension::KhrMaintenance4) {
                Ok(())
            } else {
                Err(ValidationError::RequiresApiVersionOrDeviceExtension {
                    api_version: version_spec(1, 3),
                    extension: DeviceExtension::KhrMaintenance4,
                })
            },
    {
        if !(self.api_version().at_least(&Version::v1_3()) || self.enabled_extensions().khr_maintenance4) {
            return Err(ValidationError::RequiresApiVersionOrDeviceExtension {
                api_version: Version::v1_3(),
                extension: DeviceExtension::KhrMaintenance4,
            });
        }
        Ok(())
    }

    /// Checks that the device can report the memory requirements of a buffer, then returns
    /// how to ask Vulkan for them.
    pub fn buffer_memory_requirements(&self, create_info: &BufferCreateInfo) -> (r: Result<BufferMemoryRequirementsQuery, ValidationError>)
        ensures
            has_version_or_extension(*self, 1, 3, DeviceExtension::KhrMaintenance4) ==> r is Ok
                && buffer_query_for(r.unwrap(), *self, *create_info),
            !has_version_or_extension(*self, 1, 3, DeviceExtension::KhrMaintenance4) ==> r == Err::<BufferMemoryRequirementsQuery, ValidationError>(
                ValidationError::RequiresApiVersionOrDeviceExtension {
                    api_version: version_spec(1, 3),
                    extension: DeviceExtension::KhrMaintenance4,
                },
            ),
    {
        self.validate_buffer_memory_requirements(create_info)?;
        Ok(self.buffer_memory_requirements_unchecked(create_info))
    }

    /// How to ask Vulkan for the memory requirements of a buffer with `create_info`.
    pub fn buffer_memory_requirements_unchecked(&self, create_info: &BufferCreateInfo) -> (r: BufferMemoryRequirementsQuery)
        ensures
            buffer_query_for(r, *self, *create_info),
    {
        let handle_types = create_info.external_memory_handle_types;
        BufferMemoryRequirementsQuery {
            flags: create_info.flags,
            size: create_info.size,
            usage: create_info.usage,
            sharing: sharing_query(&create_info.sharing),
            external_memory_handle_types: if handle_types != 0 {
                Some(handle_types)
            } else {
                None
            },
            use_core_1_3: self.api_version().at_least(&Version::v1_3()),
        }
    }

    /// The memory requirements that Vulkan reports (see `MemoryRequirements::from_vk`).
    pub fn memory_requirements_from_vk(
        size: u64,
        alignment: u64,
        memory_type_bits: u32,
        prefers_dedicated_allocation: u32,
        requires_dedicated_allocation: u32,
    ) -> (r: MemoryRequirements)
        requires
            crate::memory::valid_layout(size, alignment),
        ensures
            r.layout.spec_size() == size,
            r.layout.spec_alignment() == alignment,
            r.memory_type_bits == memory_type_bits,
            r.prefers_dedicated_allocation == (prefers_dedicated_allocation != 0),
            r.requires_dedicated_allocation == (requires_dedicated_allocation != 0),
    {
        MemoryRequirements::from_vk(
            size,
            alignment,
            memory_type_bits,
            prefers_dedicated_allocation,
            requires_dedicated_allocation,
        )
    }

    /// Checks that the device can report the memory requirements of an image with
    /// `create_info`, for `plane` when the image is disjoint.
    pub fn validate_image_memory_requirements(&self, create_info: &ImageCreateInfo, plane: Option<usize>) -> (r: Result<(), ValidationError>)
        requires
            has_version_or_extension(*self, 1, 3, DeviceExtension::KhrMaintenance4)
                && create_info.flags & image_create_disjoint() != 0 && plane is Some
                && create_info.tiling == ImageTiling::DrmFormatModifier
                && create_info.drm_format_modifiers@.len() == 1 ==> modifier_listed(*self, *create_info),
        ensures
            create_info.flags & 0x200u32 != 0 && plane is None ==> r is Err,
            create_info.flags & 0x200u32 == 0 && plane is Some ==> r is Err,
            r is Ok ==> self.spec_enabled_extensions().khr_maintenance4 || self.spec_api_version().major > 1
                || (self.spec_api_version().major == 1 && self.spec_api_version().minor >= 3),
            r is Ok && plane is Some && create_info.tiling != ImageTiling::DrmFormatModifier
                ==> plane.unwrap() < create_info.format.plane_count && plane.unwrap() < 3,
            r is Ok && plane is Some && create_info.tiling == ImageTiling::DrmFormatModifier ==> plane.unwrap() < 4,
            r == match image_requirements_error(*self, *create_info, plane) {
                Some(e) => Err(e),
                None => Ok(()),
            },
    {
        if !(self.api_version().at_least(&Version::v1_3()) || self.enabled_extensions().khr_maintenance4) {
            return Err(ValidationError::RequiresApiVersionOrDeviceExtension {
                api_version: Version::v1_3(),
                extension: DeviceExtension::KhrMaintenance4,
            });
        }
        if create_info.flags & 0x200u32 != 0 {
            let p = match plane {
                None => {
                    return Err(ValidationError::DisjointWithoutPlane);
                },
                Some(p) => p,
            };
            match create_info.tiling {
                ImageTiling::DrmFormatModifier => {
                    if create_info.drm_format_modifiers.len() == 1 {
                        let modifier = create_info.drm_format_modifiers[0];
                        let props = self.physical_device().drm_format_modifier_properties(create_info.format);
                        let k = first_with_modifier(props, modifier).unwrap();
                        proof {
                            let c = choose|c: int| 0 <= c < props@.len() && #[trigger] props@[c].drm_format_modifier == modifier
                                && forall|m: int| 0 <= m < c ==> props@[m].drm_format_modifier != modifier;
                            assert(c == k) by {
                                if c < k {
                                    assert(props@[c].drm_format_modifier != modifier);
                                } else if c > k {
                                    assert(props@[k as int].drm_format_modifier != modifier);
                                }
                            }
                        }
                        if p >= props[k].drm_format_modifier_plane_count as usize {
                            return Err(ValidationError::PlaneNotLessThanModifierPlanes);
                        }
                    }
                    if p >= 4 {
                        return Err(ValidationError::PlaneWithoutAspect);
                    }
                },
                _ => {
                    if p >= create_info.format.plane_count as usize {
                        return Err(ValidationError::PlaneNotLessThanFormatPlanes);
                    }
                    if p >= 3 {
                        return Err(ValidationError::PlaneWithoutAspect);
                    }
                },
            }
        } else if plane.is_some() {
            return Err(ValidationError::PlaneWithoutDisjoint);
        }
        Ok(())
    }

    /// Checks that the device can report the memory requirements of an image, then returns
    /// how to ask Vulkan for them.
    pub fn image_memory_requirements(&self, create_info: &ImageCreateInfo, plane: Option<usize>) -> (r: Result<ImageMemoryRequirementsQuery, ValidationError>)
        requires
            has_version_or_extension(*self, 1, 3, DeviceExtension::KhrMaintenance4)
                && create_info.flags & image_create_disjoint() != 0 && plane is Some
                && create_info.tiling == ImageTiling::DrmFormatModifier
                && create_info.drm_format_modifiers@.len() == 1 ==> modifier_listed(*self, *create_info),
        ensures
            create_info.flags & 0x200u32 != 0 && plane is None ==> r is Err,
            create_info.flags & 0x200u32 == 0 && plane is Some ==> r is Err,
            r is Ok ==> self.spec_enabled_extensions().khr_maintenance4 || self.spec_api_version().major > 1
                || (self.spec_api_version().major == 1 && self.spec_api_version().minor >= 3),
            r is Ok && plane is Some && create_info.tiling != ImageTiling::DrmFormatModifier
                ==> plane.unwrap() < create_info.format.plane_count && plane.unwrap() < 3,
            r is Ok && plane is Some && create_info.tiling == ImageTiling::DrmFormatModifier ==> plane.unwrap() < 4,
            match image_requirements_error(*self, *create_info, plane) {
                Some(e) => r == Err::<ImageMemoryRequirementsQuery, ValidationError>(e),
                None => r is Ok && image_query_for(r.unwrap(), *self, *create_info, plane),
            },
    {
        self.validate_image_memory_requirements(create_info, plane)?;
        Ok(self.image_memory_requirements_unchecked(create_info, plane))
    }

    /// How to ask Vulkan for the memory requirements of an image with `create_info`, for
    /// `plane`.
    pub fn image_memory_requirements_unchecked(&self, create_info: &ImageCreateInfo, plane: Option<usize>) -> (r: ImageMemoryRequirementsQuery)
        requires
            plane_has_aspect(create_info.tiling, plane),
        ensures
            image_query_for(r, *self, *create_info, plane),
    {
        let drm = match create_info.tiling {
            ImageTiling::DrmFormatModifier => true,
            _ => false,
        };
        let plane_aspect = match plane {
            None => if drm {
                ImageAspect::MemoryPlane(0)
            } else {
                ImageAspect::Empty
            },
            Some(p) => if drm {
                ImageAspect::MemoryPlane(p as u32)
            } else {
                ImageAspect::Plane(p as u32)
            },
        };
        let handle_types = create_info.external_memory_handle_types;
        ImageMemoryRequirementsQuery {
            flags: create_info.flags,
            image_type: create_info.image_type,
            format: create_info.format,
            extent: create_info.extent,
            mip_levels: create_info.mip_levels,
            array_layers: create_info.array_layers,
            samples: create_info.samples,
            tiling: create_info.tiling,
            usage: create_info.usage,
            sharing: sharing_query(&create_info.sharing),
            initial_layout: create_info.initial_layout,
            drm_format_modifiers: if create_info.drm_format_modifiers.len() != 0 {
                Some(copy_u64s(create_info.drm_format_modifiers.as_slice()))
            } else {
                None
            },
            external_memory_handle_types: if handle_types != 0 {
                Some(handle_types)
            } else {
                None
            },
            view_formats: if create_info.view_formats.len() != 0 {
                Some(format_codes(create_info.view_formats.as_slice()))
            } else {
                None
            },
            stencil_usage: create_info.stencil_usage,
            plane_aspect,
            use_core_1_3: self.api_version().at_least(&Version::v1_3()),
        }
    }

    /// Checks that the device can report the properties of a file descriptor imported as
    /// `handle_type`: it has `khr_external_memory_fd`, it has the extension that
    /// `handle_type` needs, if any, and `handle_type` is not `OpaqueFd`.
    pub fn validate_memory_fd_properties(&self, handle_type: ExternalMemoryHandleType) -> (r: Result<(), ValidationError>)
        ensures
            r == if !self.spec_enabled_extensions().khr_external_memory_fd {
                Err(ValidationError::RequiresDeviceExtension(DeviceExtension::KhrExternalMemoryFd))
            } else if handle_type_needs_missing_extension(*self, handle_type) {
                Err(ValidationError::RequiresDeviceExtension(handle_type_extension(handle_type).unwrap()))
            } else if handle_type == ExternalMemoryHandleType::OpaqueFd {
                Err(ValidationError::OpaqueFdHandleType)
            } else {
                Ok(())
            },
    {
        if !self.enabled_extensions().khr_external_memory_fd {
            return Err(ValidationError::RequiresDeviceExtension(DeviceExtension::KhrExternalMemoryFd));
        }
        handle_type.validate_device(self)?;
        if let ExternalMemoryHandleType::OpaqueFd = handle_type {
            return Err(ValidationError::OpaqueFdHandleType);
        }
        Ok(())
    }

    /// The properties of a file descriptor that Vulkan reports.
    pub fn memory_fd_properties_from_vk(memory_type_bits: u32) -> (r: crate::memory::MemoryFdProperties)
        ensures
            r.memory_type_bits == memory_type_bits,
    {
        crate::memory::MemoryFdProperties { memory_type_bits }
    }
}

/// The device extension that a handle type needs, if any.
pub open spec fn handle_type_extension(handle_type: ExternalMemoryHandleType) -> Option<DeviceExtension> {
    match handle_type {
        ExternalMemoryHandleType::DmaBuf => Some(DeviceExtension::ExtExternalMemoryDmaBuf),
        ExternalMemoryHandleType::AndroidHardwareBuffer => Some(DeviceExtension::AndroidExternalMemoryAndroidHardwareBuffer),
        ExternalMemoryHandleType::HostAllocation => Some(DeviceExtension::ExtExternalMemoryHost),
        ExternalMemoryHandleType::HostMappedForeignMemory => Some(DeviceExtension::ExtExternalMemoryHost),
        ExternalMemoryHandleType::ZirconVmo => Some(DeviceExtension::FuchsiaExternalMemory),
        ExternalMemoryHandleType::RdmaAddress => Some(DeviceExtension::NvExternalMemoryRdma),
        _ => None,
    }
}

/// Whether `handle_type` needs an extension that `d` does not have enabled.
pub open spec fn handle_type_needs_missing_extension(d: Device, handle_type: ExternalMemoryHandleType) -> bool {
    match handle_type_extension(handle_type) {
        Some(e) => !d.spec_enabled_extensions().spec_contains(e),
        None => false,
    }
}

impl ExternalMemoryHandleType {
    /// The device extension that the handle type needs, if any.
    pub fn required_extension(&self) -> (r: Option<DeviceExtension>)
        ensures
            r == handle_type_extension(*self),
    {
        match self {
            ExternalMemoryHandleType::DmaBuf => Some(DeviceExtension::ExtExternalMemoryDmaBuf),
            ExternalMemoryHandleType::AndroidHardwareBuffer => Some(DeviceExtension::AndroidExternalMemoryAndroidHardwareBuffer),
            ExternalMemoryHandleType::HostAllocation => Some(DeviceExtension::ExtExternalMemoryHost),
            ExternalMemoryHandleType::HostMappedForeignMemory => Some(DeviceExtension::ExtExternalMemoryHost),
            ExternalMemoryHandleType::ZirconVmo => Some(DeviceExtension::FuchsiaExternalMemory),
            ExternalMemoryHandleType::RdmaAddress => Some(DeviceExtension::NvExternalMemoryRdma),
            _ => None,
        }
    }

    /// Checks that `device` can use the handle type: it has the extension that the handle
    /// type needs, if any.
    pub fn validate_device(&self, device: &Device) -> (r: Result<(), ValidationError>)
        ensures
            r == if handle_type_needs_missing_extension(*device, *self) {
                Err(ValidationError::RequiresDeviceExtension(handle_type_extension(*self).unwrap()))
            } else {
                Ok(())
            },
    {
        match self.required_extension() {
            Some(e) => {
                if !device.enabled_extensions().is_enabled(e) {
                    return Err(ValidationError::RequiresDeviceExtension(e));
                }
                Ok(())
            },
            None => Ok(()),
        }
    }
}

/// The index of the first entry of `props` for `modifier`, if any.
fn first_with_modifier(props: &[crate::physical::DrmFormatModifierProperties], modifier: u64) -> (r: Option<usize>)
    ensures
        r matches Some(k) ==> k < props@.len() && props@[k as int].drm_format_modifier == modifier
            && forall|m: int| 0 <= m < k ==> props@[m].drm_format_modifier != modifier,
        r is None ==> forall|m: int| 0 <= m < props@.len() ==> props@[m].drm_format_modifier != modifier,
{
    let mut k: usize = 0;
    while k < props.len()
        invariant
            k <= props@.len(),
            forall|m: int| 0 <= m < k ==> props@[m].drm_format_modifier != modifier,
        decreases props@.len() - k,
    {
        if props[k].drm_format_modifier == modifier {
            return Some(k);
        }
        k = k + 1;
    }
    None
}

/// `q` is how `d` asks Vulkan whether a descriptor set layout with `ci` is supported.
pub open spec fn descriptor_set_layout_support_query_for(
    q: DescriptorSetLayoutSupportQuery,
    d: Device,
    ci: DescriptorSetLayoutCreateInfo,
) -> bool {
    let chain = version_ge(d.spec_api_version(), version_spec(1, 2))
        || d.spec_enabled_extensions().ext_descriptor_indexing;
    &&& q.flags == ci.flags
    &&& q.bindings@.len() == ci.bindings@.len()
    &&& forall|i: int| 0 <= i < q.bindings@.len() ==> #[trigger] binding_query_for(q.bindings@[i], ci.bindings@[i])
    &&& match q.binding_flags {
        Some(flags) => chain && flags@ == ci.bindings@.map_values(|b: (u32, DescriptorSetLayoutBinding)| b.1.binding_flags),
        None => !chain,
    }
    &&& q.use_core_1_1 == version_ge(d.spec_api_version(), version_spec(1, 1))
}

/// `q` is how `d` asks Vulkan for the memory requirements of a buffer with `ci`.
pub open spec fn buffer_query_for(q: BufferMemoryRequirementsQuery, d: Device, ci: BufferCreateInfo) -> bool {
    &&& q.flags == ci.flags
    &&& q.size == ci.size
    &&& q.usage == ci.usage
    &&& sharing_query_for(q.sharing, ci.sharing)
    &&& q.external_memory_handle_types == handle_types_to_chain(ci.external_memory_handle_types)
    &&& q.use_core_1_3 == version_ge(d.spec_api_version(), version_spec(1, 3))
}

/// `q` is how `d` asks Vulkan for the memory requirements of an image with `ci`, for `plane`.
pub open spec fn image_query_for(q: ImageMemoryRequirementsQuery, d: Device, ci: ImageCreateInfo, plane: Option<usize>) -> bool {
    &&& q.flags == ci.flags
    &&& q.image_type == ci.image_type
    &&& q.format == ci.format
    &&& q.extent == ci.extent
    &&& q.mip_levels == ci.mip_levels
    &&& q.array_layers == ci.array_layers
    &&& q.samples == ci.samples
    &&& q.tiling == ci.tiling
    &&& q.usage == ci.usage
    &&& sharing_query_for(q.sharing, ci.sharing)
    &&& q.initial_layout == ci.initial_layout
    &&& match q.drm_format_modifiers {
        Some(m) => ci.drm_format_modifiers@.len() != 0 && m@ == ci.drm_format_modifiers@,
        None => ci.drm_format_modifiers@.len() == 0,
    }
    &&& q.external_memory_handle_types == handle_types_to_chain(ci.external_memory_handle_types)
    &&& match q.view_formats {
        Some(v) => ci.view_formats@.len() != 0 && v@ == ci.view_formats@.map_values(|f: Format| f.code),
        None => ci.view_formats@.len() == 0,
    }
    &&& q.stencil_usage == ci.stencil_usage
    &&& q.plane_aspect == plane_aspect(ci.tiling, plane)
    &&& q.use_core_1_3 == version_ge(d.spec_api_version(), version_spec(1, 3))
}

} // verus!
