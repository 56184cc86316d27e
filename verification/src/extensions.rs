use vstd::prelude::*;
use crate::version::{Version, version_ge, version_spec};

verus! {

/// A device extension known to this library, listed so that every extension comes before
/// the device extensions that it depends on.
#[derive(Clone, Copy, Debug, PartialEq, Eq, Hash)]
pub enum DeviceExtension {
    ExtExternalMemoryDmaBuf,
    AndroidExternalMemoryAndroidHardwareBuffer,
    ExtQueueFamilyForeign,
    ExtExternalMemoryHost,
    FuchsiaExternalMemory,
    NvExternalMemoryRdma,
    KhrAccelerationStructure,
    KhrSwapchain,
    ExtBufferDeviceAddress,
    KhrBufferDeviceAddress,
    KhrDeviceGroup,
    ExtDescriptorIndexing,
    KhrMaintenance3,
    KhrMaintenance4,
    KhrExternalMemoryFd,
    KhrExternalMemory,
    KhrDeferredHostOperations,
    KhrDrawIndirectCount,
    KhrSamplerMirrorClampToEdge,
    ExtSamplerFilterMinmax,
    ExtShaderViewportIndexLayer,
    KhrShaderDrawParameters,
    KhrPortabilitySubset,
    AmdShaderFragmentMask,
    ExtPrivateData,
}

/// An instance extension that a device extension of this library can depend on.
#[derive(Clone, Copy, Debug, PartialEq, Eq, Hash)]
pub enum InstanceExtension {
    KhrSurface,
    KhrGetPhysicalDeviceProperties2,
    KhrDeviceGroupCreation,
    KhrExternalMemoryCapabilities,
}

/// One requirement clause: it is met when any of its alternatives holds.
#[derive(Clone, Copy, Debug, PartialEq, Eq)]
pub struct RequiresOneOf {
    /// Met when the API version is at least this one.
    pub api_version: Option<Version>,
    /// Met when the physical device supports this device extension, which is then enabled
    /// along with the extension that needs it.
    pub device_extension: Option<DeviceExtension>,
    /// Met when the instance has this extension enabled.
    pub instance_extension: Option<InstanceExtension>,
}

/// A set of device extensions: those to enable on a device, or those that a physical device
/// supports.
#[derive(Clone, Copy, Debug, PartialEq, Eq, Hash)]
pub struct DeviceExtensions {
    pub ext_external_memory_dma_buf: bool,
    pub android_external_memory_android_hardware_buffer: bool,
    pub ext_queue_family_foreign: bool,
    pub ext_external_memory_host: bool,
    pub fuchsia_external_memory: bool,
    pub nv_external_memory_rdma: bool,
    pub khr_acceleration_structure: bool,
    pub khr_swapchain: bool,
    pub ext_buffer_device_address: bool,
    pub khr_buffer_device_address: bool,
    pub khr_device_group: bool,
    pub ext_descriptor_indexing: bool,
    pub khr_maintenance3: bool,
    pub khr_maintenance4: bool,
    pub khr_external_memory_fd: bool,
    pub khr_external_memory: bool,
    pub khr_deferred_host_operations: bool,
    pub khr_draw_indirect_count: bool,
    pub khr_sampler_mirror_clamp_to_edge: bool,
    pub ext_sampler_filter_minmax: bool,
    pub ext_shader_viewport_index_layer: bool,
    pub khr_shader_draw_parameters: bool,
    pub khr_portability_subset: bool,
    pub amd_shader_fragment_mask: bool,
    pub ext_private_data: bool,
}

/// The set of extensions enabled on an instance.
#[derive(Clone, Copy, Debug, PartialEq, Eq, Hash)]
pub struct InstanceExtensions {
    pub khr_surface: bool,
    pub khr_get_physical_device_properties2: bool,
    pub khr_device_group_creation: bool,
    pub khr_external_memory_capabilities: bool,
}

/// Why a set of device extensions cannot be enabled.
#[derive(Clone, Copy, Debug, PartialEq, Eq)]
pub enum ExtensionRestrictionError {
    /// The extension is not supported by the physical device.
    NotSupported { extension: DeviceExtension },
    /// A requirement clause of the extension has no alternative that holds.
    RequirementNotMet { extension: DeviceExtension, requires_one_of: RequiresOneOf },
}

/// Every device extension of this library, each once, in dependency order.
pub open spec fn all_device_extensions() -> Seq<DeviceExtension> {
    seq![
        DeviceExtension::ExtExternalMemoryDmaBuf,
        DeviceExtension::AndroidExternalMemoryAndroidHardwareBuffer,
        DeviceExtension::ExtQueueFamilyForeign,
        DeviceExtension::ExtExternalMemoryHost,
        DeviceExtension::FuchsiaExternalMemory,
        DeviceExtension::NvExternalMemoryRdma,
        DeviceExtension::KhrAccelerationStructure,
        DeviceExtension::KhrSwapchain,
        DeviceExtension::ExtBufferDeviceAddress,
        DeviceExtension::KhrBufferDeviceAddress,
        DeviceExtension::KhrDeviceGroup,
        DeviceExtension::ExtDescriptorIndexing,
        DeviceExtension::KhrMaintenance3,
        DeviceExtension::KhrMaintenance4,
        DeviceExtension::KhrExternalMemoryFd,
        DeviceExtension::KhrExternalMemory,
        DeviceExtension::KhrDeferredHostOperations,
        DeviceExtension::KhrDrawIndirectCount,
        DeviceExtension::KhrSamplerMirrorClampToEdge,
        DeviceExtension::ExtSamplerFilterMinmax,
        DeviceExtension::ExtShaderViewportIndexLayer,
        DeviceExtension::KhrShaderDrawParameters,
        DeviceExtension::KhrPortabilitySubset,
        DeviceExtension::AmdShaderFragmentMask,
        DeviceExtension::ExtPrivateData
    ]
}

/// The position of an extension in `all_device_extensions()`.
pub open spec fn device_extension_position(e: DeviceExtension) -> int {
    match e {
        DeviceExtension::ExtExternalMemoryDmaBuf => 0,
        DeviceExtension::AndroidExternalMemoryAndroidHardwareBuffer => 1,
        DeviceExtension::ExtQueueFamilyForeign => 2,
        DeviceExtension::ExtExternalMemoryHost => 3,
        DeviceExtension::FuchsiaExternalMemory => 4,
        DeviceExtension::NvExternalMemoryRdma => 5,
        DeviceExtension::KhrAccelerationStructure => 6,
        DeviceExtension::KhrSwapchain => 7,
        DeviceExtension::ExtBufferDeviceAddress => 8,
        DeviceExtension::KhrBufferDeviceAddress => 9,
        DeviceExtension::KhrDeviceGroup => 10,
        DeviceExtension::ExtDescriptorIndexing => 11,
        DeviceExtension::KhrMaintenance3 => 12,
        DeviceExtension::KhrMaintenance4 => 13,
        DeviceExtension::KhrExternalMemoryFd => 14,
        DeviceExtension::KhrExternalMemory => 15,
        DeviceExtension::KhrDeferredHostOperations => 16,
        DeviceExtension::KhrDrawIndirectCount => 17,
        DeviceExtension::KhrSamplerMirrorClampToEdge => 18,
        DeviceExtension::ExtSamplerFilterMinmax => 19,
        DeviceExtension::ExtShaderViewportIndexLayer => 20,
        DeviceExtension::KhrShaderDrawParameters => 21,
        DeviceExtension::KhrPortabilitySubset => 22,
        DeviceExtension::AmdShaderFragmentMask => 23,
        DeviceExtension::ExtPrivateData => 24,
    }
}

/// The Vulkan name of a device extension.
pub open spec fn device_extension_name(e: DeviceExtension) -> Seq<char> {
    match e {
        DeviceExtension::ExtExternalMemoryDmaBuf => "VK_EXT_external_memory_dma_buf"@,
        DeviceExtension::AndroidExternalMemoryAndroidHardwareBuffer => "VK_ANDROID_external_memory_android_hardware_buffer"@,
        DeviceExtension::ExtQueueFamilyForeign => "VK_EXT_queue_family_foreign"@,
        DeviceExtension::ExtExternalMemoryHost => "VK_EXT_external_memory_host"@,
        DeviceExtension::FuchsiaExternalMemory => "VK_FUCHSIA_external_memory"@,
        DeviceExtension::NvExternalMemoryRdma => "VK_NV_external_memory_rdma"@,
        DeviceExtension::KhrAccelerationStructure => "VK_KHR_acceleration_structure"@,
        DeviceExtension::KhrSwapchain => "VK_KHR_swapchain"@,
        DeviceExtension::ExtBufferDeviceAddress => "VK_EXT_buffer_device_address"@,
        DeviceExtension::KhrBufferDeviceAddress => "VK_KHR_buffer_device_address"@,
        DeviceExtension::KhrDeviceGroup => "VK_KHR_device_group"@,
        DeviceExtension::ExtDescriptorIndexing => "VK_EXT_descriptor_indexing"@,
        DeviceExtension::KhrMaintenance3 => "VK_KHR_maintenance3"@,
        DeviceExtension::KhrMaintenance4 => "VK_KHR_maintenance4"@,
        DeviceExtension::KhrExternalMemoryFd => "VK_KHR_external_memory_fd"@,
        DeviceExtension::KhrExternalMemory => "VK_KHR_external_memory"@,
        DeviceExtension::KhrDeferredHostOperations => "VK_KHR_deferred_host_operations"@,
        DeviceExtension::KhrDrawIndirectCount => "VK_KHR_draw_indirect_count"@,
        DeviceExtension::KhrSamplerMirrorClampToEdge => "VK_KHR_sampler_mirror_clamp_to_edge"@,
        DeviceExtension::ExtSamplerFilterMinmax => "VK_EXT_sampler_filter_minmax"@,
        DeviceExtension::ExtShaderViewportIndexLayer => "VK_EXT_shader_viewport_index_layer"@,
        DeviceExtension::KhrShaderDrawParameters => "VK_KHR_shader_draw_parameters"@,
        DeviceExtension::KhrPortabilitySubset => "VK_KHR_portability_subset"@,
        DeviceExtension::AmdShaderFragmentMask => "VK_AMD_shader_fragment_mask"@,
        DeviceExtension::ExtPrivateData => "VK_EXT_private_data"@,
    }
}

/// The requirement clauses of a device extension; each must be met for it to be enabled.
pub open spec fn device_extension_requirements(e: DeviceExtension) -> Seq<RequiresOneOf> {
    match e {
        DeviceExtension::ExtExternalMemoryDmaBuf => seq![RequiresOneOf { api_version: None, device_extension: Some(DeviceExtension::KhrExternalMemoryFd), instance_extension: None }],
        DeviceExtension::AndroidExternalMemoryAndroidHardwareBuffer => seq![RequiresOneOf { api_version: Some(version_spec(1, 1)), device_extension: Some(DeviceExtension::KhrExternalMemory), instance_extension: None }, RequiresOneOf { api_version: None, device_extension: Some(DeviceExtension::ExtQueueFamilyForeign), instance_extension: None }],
        DeviceExtension::ExtQueueFamilyForeign => seq![RequiresOneOf { api_version: Some(version_spec(1, 1)), device_extension: Some(DeviceExtension::KhrExternalMemory), instance_extension: None }],
        DeviceExtension::ExtExternalMemoryHost => seq![RequiresOneOf { api_version: Some(version_spec(1, 1)), device_extension: Some(DeviceExtension::KhrExternalMemory), instance_extension: None }],
        DeviceExtension::FuchsiaExternalMemory => seq![RequiresOneOf { api_version: Some(version_spec(1, 1)), device_extension: None, instance_extension: Some(InstanceExtension::KhrExternalMemoryCapabilities) }, RequiresOneOf { api_version: Some(version_spec(1, 1)), device_extension: Some(DeviceExtension::KhrExternalMemory), instance_extension: None }],
        DeviceExtension::NvExternalMemoryRdma => seq![RequiresOneOf { api_version: Some(version_spec(1, 1)), device_extension: Some(DeviceExtension::KhrExternalMemory), instance_extension: None }],
        DeviceExtension::KhrAccelerationStructure => seq![RequiresOneOf { api_version: Some(version_spec(1, 1)), device_extension: None, instance_extension: None }, RequiresOneOf { api_version: Some(version_spec(1, 2)), device_extension: Some(DeviceExtension::ExtDescriptorIndexing), instance_extension: None }, RequiresOneOf { api_version: Some(version_spec(1, 2)), device_extension: Some(DeviceExtension::KhrBufferDeviceAddress), instance_extension: None }, RequiresOneOf { api_version: None, device_extension: Some(DeviceExtension::KhrDeferredHostOperations), instance_extension: None }],
        DeviceExtension::KhrSwapchain => seq![RequiresOneOf { api_version: None, device_extension: None, instance_extension: Some(InstanceExtension::KhrSurface) }],
        DeviceExtension::ExtBufferDeviceAddress => seq![RequiresOneOf { api_version: Some(version_spec(1, 1)), device_extension: None, instance_extension: Some(InstanceExtension::KhrGetPhysicalDeviceProperties2) }],
        DeviceExtension::KhrBufferDeviceAddress => seq![RequiresOneOf { api_version: Some(version_spec(1, 1)), device_extension: None, instance_extension: Some(InstanceExtension::KhrGetPhysicalDeviceProperties2) }, RequiresOneOf { api_version: Some(version_spec(1, 1)), device_extension: Some(DeviceExtension::KhrDeviceGroup), instance_extension: None }],
        DeviceExtension::KhrDeviceGroup => seq![RequiresOneOf { api_version: Some(version_spec(1, 1)), device_extension: None, instance_extension: Some(InstanceExtension::KhrDeviceGroupCreation) }],
        DeviceExtension::ExtDescriptorIndexing => seq![RequiresOneOf { api_version: Some(version_spec(1, 1)), device_extension: None, instance_extension: Some(InstanceExtension::KhrGetPhysicalDeviceProperties2) }, RequiresOneOf { api_version: Some(version_spec(1, 1)), device_extension: Some(DeviceExtension::KhrMaintenance3), instance_extension: None }],
        DeviceExtension::KhrMaintenance3 => seq![RequiresOneOf { api_version: Some(version_spec(1, 1)), device_extension: None, instance_extension: Some(InstanceExtension::KhrGetPhysicalDeviceProperties2) }],
        DeviceExtension::KhrMaintenance4 => seq![RequiresOneOf { api_version: Some(version_spec(1, 1)), device_extension: None, instance_extension: None }],
        DeviceExtension::KhrExternalMemoryFd => seq![RequiresOneOf { api_version: Some(version_spec(1, 1)), device_extension: Some(DeviceExtension::KhrExternalMemory), instance_extension: None }],
        DeviceExtension::KhrExternalMemory => seq![RequiresOneOf { api_version: Some(version_spec(1, 1)), device_extension: None, instance_extension: Some(InstanceExtension::KhrExternalMemoryCapabilities) }],
        DeviceExtension::KhrDeferredHostOperations => seq![],
        DeviceExtension::KhrDrawIndirectCount => seq![],
        DeviceExtension::KhrSamplerMirrorClampToEdge => seq![],
        DeviceExtension::ExtSamplerFilterMinmax => seq![RequiresOneOf { api_version: Some(version_spec(1, 1)), device_extension: None, instance_extension: Some(InstanceExtension::KhrGetPhysicalDeviceProperties2) }],
        DeviceExtension::ExtShaderViewportIndexLayer => seq![],
        DeviceExtension::KhrShaderDrawParameters => seq![],
        DeviceExtension::KhrPortabilitySubset => seq![RequiresOneOf { api_version: Some(version_spec(1, 1)), device_extension: None, instance_extension: Some(InstanceExtension::KhrGetPhysicalDeviceProperties2) }],
        DeviceExtension::AmdShaderFragmentMask => seq![],
        DeviceExtension::ExtPrivateData => seq![RequiresOneOf { api_version: Some(version_spec(1, 1)), device_extension: None, instance_extension: Some(InstanceExtension::KhrGetPhysicalDeviceProperties2) }],
    }
}

/// Whether a requirement clause holds.
pub open spec fn requirement_met(
    g: RequiresOneOf,
    api_version: Version,
    supported: DeviceExtensions,
    instance_extensions: InstanceExtensions,
) -> bool {
    ||| (g.api_version matches Some(v) && version_ge(api_version, v))
    ||| (g.device_extension matches Some(d) && supported.spec_contains(d))
    ||| (g.instance_extension matches Some(i) && instance_extensions.spec_contains(i))
}

/// The first clause, from index `i` on, that does not hold.
pub open spec fn first_unmet_requirement(
    gs: Seq<RequiresOneOf>,
    i: int,
    api_version: Version,
    supported: DeviceExtensions,
    instance_extensions: InstanceExtensions,
) -> Option<RequiresOneOf>
    decreases gs.len() - i,
{
    if i < 0 || i >= gs.len() {
        None
    } else if !requirement_met(gs[i], api_version, supported, instance_extensions) {
        Some(gs[i])
    } else {
        first_unmet_requirement(gs, i + 1, api_version, supported, instance_extensions)
    }
}

/// What is wrong with enabling one extension, if anything.
pub open spec fn extension_error(
    e: DeviceExtension,
    enabled: DeviceExtensions,
    supported: DeviceExtensions,
    api_version: Version,
    instance_extensions: InstanceExtensions,
) -> Option<ExtensionRestrictionError> {
    if !enabled.spec_contains(e) {
        None
    } else if !supported.spec_contains(e) {
        Some(ExtensionRestrictionError::NotSupported { extension: e })
    } else {
        match first_unmet_requirement(
            device_extension_requirements(e),
            0,
            api_version,
            supported,
            instance_extensions,
        ) {
            Some(g) => Some(
                ExtensionRestrictionError::RequirementNotMet { extension: e, requires_one_of: g },
            ),
            None => None,
        }
    }
}

/// The first problem, in the order of `all_device_extensions()` from index `i` on.
pub open spec fn extensions_error_from(
    i: int,
    enabled: DeviceExtensions,
    supported: DeviceExtensions,
    api_version: Version,
    instance_extensions: InstanceExtensions,
) -> Option<ExtensionRestrictionError>
    decreases all_device_extensions().len() - i,
{
    if i < 0 || i >= all_device_extensions().len() {
        None
    } else {
        match extension_error(
            all_device_extensions()[i],
            enabled,
            supported,
            api_version,
            instance_extensions,
        ) {
            Some(err) => Some(err),
            None => extensions_error_from(i + 1, enabled, supported, api_version, instance_extensions),
        }
    }
}

/// The first problem with enabling `enabled` on a physical device that supports `supported`,
/// in the order of `all_device_extensions()`.
pub open spec fn extensions_error(
    enabled: DeviceExtensions,
    supported: DeviceExtensions,
    api_version: Version,
    instance_extensions: InstanceExtensions,
) -> Option<ExtensionRestrictionError> {
    extensions_error_from(0, enabled, supported, api_version, instance_extensions)
}

/// Whether clause `g` makes `d` be enabled along with the extension that `g` belongs to:
/// `g` names `d`, its API version alternative does not hold, and `d` is supported.
pub open spec fn pulls_in(
    g: RequiresOneOf,
    d: DeviceExtension,
    api_version: Version,
    supported: DeviceExtensions,
) -> bool {
    &&& g.device_extension == Some(d)
    &&& !(g.api_version matches Some(v) && version_ge(api_version, v))
    &&& supported.spec_contains(d)
}

/// `a` with `e` added.
pub open spec fn spec_with(a: DeviceExtensions, e: DeviceExtension) -> DeviceExtensions {
    match e {
        DeviceExtension::ExtExternalMemoryDmaBuf => DeviceExtensions { ext_external_memory_dma_buf: true, ..a },
        DeviceExtension::AndroidExternalMemoryAndroidHardwareBuffer => DeviceExtensions { android_external_memory_android_hardware_buffer: true, ..a },
        DeviceExtension::ExtQueueFamilyForeign => DeviceExtensions { ext_queue_family_foreign: true, ..a },
        DeviceExtension::ExtExternalMemoryHost => DeviceExtensions { ext_external_memory_host: true, ..a },
        DeviceExtension::FuchsiaExternalMemory => DeviceExtensions { fuchsia_external_memory: true, ..a },
        DeviceExtension::NvExternalMemoryRdma => DeviceExtensions { nv_external_memory_rdma: true, ..a },
        DeviceExtension::KhrAccelerationStructure => DeviceExtensions { khr_acceleration_structure: true, ..a },
        DeviceExtension::KhrSwapchain => DeviceExtensions { khr_swapchain: true, ..a },
        DeviceExtension::ExtBufferDeviceAddress => DeviceExtensions { ext_buffer_device_address: true, ..a },
        DeviceExtension::KhrBufferDeviceAddress => DeviceExtensions { khr_buffer_device_address: true, ..a },
        DeviceExtension::KhrDeviceGroup => DeviceExtensions { khr_device_group: true, ..a },
        DeviceExtension::ExtDescriptorIndexing => DeviceExtensions { ext_descriptor_indexing: true, ..a },
        DeviceExtension::KhrMaintenance3 => DeviceExtensions { khr_maintenance3: true, ..a },
        DeviceExtension::KhrMaintenance4 => DeviceExtensions { khr_maintenance4: true, ..a },
        DeviceExtension::KhrExternalMemoryFd => DeviceExtensions { khr_external_memory_fd: true, ..a },
        DeviceExtension::KhrExternalMemory => DeviceExtensions { khr_external_memory: true, ..a },
        DeviceExtension::KhrDeferredHostOperations => DeviceExtensions { khr_deferred_host_operations: true, ..a },
        DeviceExtension::KhrDrawIndirectCount => DeviceExtensions { khr_draw_indirect_count: true, ..a },
        DeviceExtension::KhrSamplerMirrorClampToEdge => DeviceExtensions { khr_sampler_mirror_clamp_to_edge: true, ..a },
        DeviceExtension::ExtSamplerFilterMinmax => DeviceExtensions { ext_sampler_filter_minmax: true, ..a },
        DeviceExtension::ExtShaderViewportIndexLayer => DeviceExtensions { ext_shader_viewport_index_layer: true, ..a },
        DeviceExtension::KhrShaderDrawParameters => DeviceExtensions { khr_shader_draw_parameters: true, ..a },
        DeviceExtension::KhrPortabilitySubset => DeviceExtensions { khr_portability_subset: true, ..a },
        DeviceExtension::AmdShaderFragmentMask => DeviceExtensions { amd_shader_fragment_mask: true, ..a },
        DeviceExtension::ExtPrivateData => DeviceExtensions { ext_private_data: true, ..a },
    }
}

/// `a` with the extensions pulled in by the clauses `gs[j..]` added, clause by clause.
pub open spec fn with_pulled_in(
    a: DeviceExtensions,
    gs: Seq<RequiresOneOf>,
    j: int,
    api_version: Version,
    supported: DeviceExtensions,
) -> DeviceExtensions
    decreases gs.len() - j,
{
    if j < 0 || j >= gs.len() {
        a
    } else {
        let next = match gs[j].device_extension {
            Some(d) => if pulls_in(gs[j], d, api_version, supported) {
                spec_with(a, d)
            } else {
                a
            },
            None => a,
        };
        with_pulled_in(next, gs, j + 1, api_version, supported)
    }
}

/// The enabled set after the first `k` extensions of `all_device_extensions()` had the
/// extensions that they depend on enabled along.
pub open spec fn with_dependencies_upto(
    enabled: DeviceExtensions,
    k: int,
    api_version: Version,
    supported: DeviceExtensions,
) -> DeviceExtensions
    decreases k,
{
    if k <= 0 {
        enabled
    } else {
        let prev = with_dependencies_upto(enabled, k - 1, api_version, supported);
        let e = all_device_extensions()[k - 1];
        if prev.spec_contains(e) {
            with_pulled_in(prev, device_extension_requirements(e), 0, api_version, supported)
        } else {
            prev
        }
    }
}

/// The enabled set once every enabled extension had the extensions that it depends on
/// enabled along.
#[verifier::opaque]
pub open spec fn with_dependencies(
    enabled: DeviceExtensions,
    api_version: Version,
    supported: DeviceExtensions,
) -> DeviceExtensions {
    with_dependencies_upto(enabled, all_device_extensions().len() as int, api_version, supported)
}

/// The Vulkan names of the extensions of `a` among the first `k` of `all_device_extensions()`,
/// in that order.
pub open spec fn enabled_names_upto(a: DeviceExtensions, k: int) -> Seq<Seq<char>>
    decreases k,
{
    if k <= 0 {
        Seq::empty()
    } else {
        let prev = enabled_names_upto(a, k - 1);
        let e = all_device_extensions()[k - 1];
        if a.spec_contains(e) {
            prev.push(device_extension_name(e))
        } else {
            prev
        }
    }
}


/// Adding `e` adds exactly `e`.
pub proof fn lemma_with_contains(a: DeviceExtensions, e: DeviceExtension)
    ensures
        forall|x: DeviceExtension| #[trigger] spec_with(a, e).spec_contains(x) == (a.spec_contains(x) || x == e),
{
    match e {
        DeviceExtension::ExtExternalMemoryDmaBuf => lemma_with_ext_external_memory_dma_buf(a),
        DeviceExtension::AndroidExternalMemoryAndroidHardwareBuffer => lemma_with_android_external_memory_android_hardware_buffer(a),
        DeviceExtension::ExtQueueFamilyForeign => lemma_with_ext_queue_family_foreign(a),
        DeviceExtension::ExtExternalMemoryHost => lemma_with_ext_external_memory_host(a),
        DeviceExtension::FuchsiaExternalMemory => lemma_with_fuchsia_external_memory(a),
        DeviceExtension::NvExternalMemoryRdma => lemma_with_nv_external_memory_rdma(a),
        DeviceExtension::KhrAccelerationStructure => lemma_with_khr_acceleration_structure(a),
        DeviceExtension::KhrSwapchain => lemma_with_khr_swapchain(a),
        DeviceExtension::ExtBufferDeviceAddress => lemma_with_ext_buffer_device_address(a),
        DeviceExtension::KhrBufferDeviceAddress => lemma_with_khr_buffer_device_address(a),
        DeviceExtension::KhrDeviceGroup => lemma_with_khr_device_group(a),
        DeviceExtension::ExtDescriptorIndexing => lemma_with_ext_descriptor_indexing(a),
        DeviceExtension::KhrMaintenance3 => lemma_with_khr_maintenance3(a),
        DeviceExtension::KhrMaintenance4 => lemma_with_khr_maintenance4(a),
        DeviceExtension::KhrExternalMemoryFd => lemma_with_khr_external_memory_fd(a),
        DeviceExtension::KhrExternalMemory => lemma_with_khr_external_memory(a),
        DeviceExtension::KhrDeferredHostOperations => lemma_with_khr_deferred_host_operations(a),
        DeviceExtension::KhrDrawIndirectCount => lemma_with_khr_draw_indirect_count(a),
        DeviceExtension::KhrSamplerMirrorClampToEdge => lemma_with_khr_sampler_mirror_clamp_to_edge(a),
        DeviceExtension::ExtSamplerFilterMinmax => lemma_with_ext_sampler_filter_minmax(a),
        DeviceExtension::ExtShaderViewportIndexLayer => lemma_with_ext_shader_viewport_index_layer(a),
        DeviceExtension::KhrShaderDrawParameters => lemma_with_khr_shader_draw_parameters(a),
        DeviceExtension::KhrPortabilitySubset => lemma_with_khr_portability_subset(a),
        DeviceExtension::AmdShaderFragmentMask => lemma_with_amd_shader_fragment_mask(a),
        DeviceExtension::ExtPrivateData => lemma_with_ext_private_data(a),
    }
}

proof fn lemma_with_ext_external_memory_dma_buf(a: DeviceExtensions)
    ensures
        forall|x: DeviceExtension| #[trigger] spec_with(a, DeviceExtension::ExtExternalMemoryDmaBuf).spec_contains(x) == (a.spec_contains(x) || x == DeviceExtension::ExtExternalMemoryDmaBuf),
{
}

proof fn lemma_with_android_external_memory_android_hardware_buffer(a: DeviceExtensions)
    ensures
        forall|x: DeviceExtension| #[trigger] spec_with(a, DeviceExtension::AndroidExternalMemoryAndroidHardwareBuffer).spec_contains(x) == (a.spec_contains(x) || x == DeviceExtension::AndroidExternalMemoryAndroidHardwareBuffer),
{
}

proof fn lemma_with_ext_queue_family_foreign(a: DeviceExtensions)
    ensures
        forall|x: DeviceExtension| #[trigger] spec_with(a, DeviceExtension::ExtQueueFamilyForeign).spec_contains(x) == (a.spec_contains(x) || x == DeviceExtension::ExtQueueFamilyForeign),
{
}

proof fn lemma_with_ext_external_memory_host(a: DeviceExtensions)
    ensures
        forall|x: DeviceExtension| #[trigger] spec_with(a, DeviceExtension::ExtExternalMemoryHost).spec_contains(x) == (a.spec_contains(x) || x == DeviceExtension::ExtExternalMemoryHost),
{
}

proof fn lemma_with_fuchsia_external_memory(a: DeviceExtensions)
    ensures
        forall|x: DeviceExtension| #[trigger] spec_with(a, DeviceExtension::FuchsiaExternalMemory).spec_contains(x) == (a.spec_contains(x) || x == DeviceExtension::FuchsiaExternalMemory),
{
}

proof fn lemma_with_nv_external_memory_rdma(a: DeviceExtensions)
    ensures
        forall|x: DeviceExtension| #[trigger] spec_with(a, DeviceExtension::NvExternalMemoryRdma).spec_contains(x) == (a.spec_contains(x) || x == DeviceExtension::NvExternalMemoryRdma),
{
}

proof fn lemma_with_khr_acceleration_structure(a: DeviceExtensions)
    ensures
        forall|x: DeviceExtension| #[trigger] spec_with(a, DeviceExtension::KhrAccelerationStructure).spec_contains(x) == (a.spec_contains(x) || x == DeviceExtension::KhrAccelerationStructure),
{
}

proof fn lemma_with_khr_swapchain(a: DeviceExtensions)
    ensures
        forall|x: DeviceExtension| #[trigger] spec_with(a, DeviceExtension::KhrSwapchain).spec_contains(x) == (a.spec_contains(x) || x == DeviceExtension::KhrSwapchain),
{
}

proof fn lemma_with_ext_buffer_device_address(a: DeviceExtensions)
    ensures
        forall|x: DeviceExtension| #[trigger] spec_with(a, DeviceExtension::ExtBufferDeviceAddress).spec_contains(x) == (a.spec_contains(x) || x == DeviceExtension::ExtBufferDeviceAddress),
{
}

proof fn lemma_with_khr_buffer_device_address(a: DeviceExtensions)
    ensures
        forall|x: DeviceExtension| #[trigger] spec_with(a, DeviceExtension::KhrBufferDeviceAddress).spec_contains(x) == (a.spec_contains(x) || x == DeviceExtension::KhrBufferDeviceAddress),
{
}

proof fn lemma_with_khr_device_group(a: DeviceExtensions)
    ensures
        forall|x: DeviceExtension| #[trigger] spec_with(a, DeviceExtension::KhrDeviceGroup).spec_contains(x) == (a.spec_contains(x) || x == DeviceExtension::KhrDeviceGroup),
{
}

proof fn lemma_with_ext_descriptor_indexing(a: DeviceExtensions)
    ensures
        forall|x: DeviceExtension| #[trigger] spec_with(a, DeviceExtension::ExtDescriptorIndexing).spec_contains(x) == (a.spec_contains(x) || x == DeviceExtension::ExtDescriptorIndexing),
{
}

proof fn lemma_with_khr_maintenance3(a: DeviceExtensions)
    ensures
        forall|x: DeviceExtension| #[trigger] spec_with(a, DeviceExtension::KhrMaintenance3).spec_contains(x) == (a.spec_contains(x) || x == DeviceExtension::KhrMaintenance3),
{
}

proof fn lemma_with_khr_maintenance4(a: DeviceExtensions)
    ensures
        forall|x: DeviceExtension| #[trigger] spec_with(a, DeviceExtension::KhrMaintenance4).spec_contains(x) == (a.spec_contains(x) || x == DeviceExtension::KhrMaintenance4),
{
}

proof fn lemma_with_khr_external_memory_fd(a: DeviceExtensions)
    ensures
        forall|x: DeviceExtension| #[trigger] spec_with(a, DeviceExtension::KhrExternalMemoryFd).spec_contains(x) == (a.spec_contains(x) || x == DeviceExtension::KhrExternalMemoryFd),
{
}

proof fn lemma_with_khr_external_memory(a: DeviceExtensions)
    ensures
        forall|x: DeviceExtension| #[trigger] spec_with(a, DeviceExtension::KhrExternalMemory).spec_contains(x) == (a.spec_contains(x) || x == DeviceExtension::KhrExternalMemory),
{
}

proof fn lemma_with_khr_deferred_host_operations(a: DeviceExtensions)
    ensures
        forall|x: DeviceExtension| #[trigger] spec_with(a, DeviceExtension::KhrDeferredHostOperations).spec_contains(x) == (a.spec_contains(x) || x == DeviceExtension::KhrDeferredHostOperations),
{
}

proof fn lemma_with_khr_draw_indirect_count(a: DeviceExtensions)
    ensures
        forall|x: DeviceExtension| #[trigger] spec_with(a, DeviceExtension::KhrDrawIndirectCount).spec_contains(x) == (a.spec_contains(x) || x == DeviceExtension::KhrDrawIndirectCount),
{
}

proof fn lemma_with_khr_sampler_mirror_clamp_to_edge(a: DeviceExtensions)
    ensures
        forall|x: DeviceExtension| #[trigger] spec_with(a, DeviceExtension::KhrSamplerMirrorClampToEdge).spec_contains(x) == (a.spec_contains(x) || x == DeviceExtension::KhrSamplerMirrorClampToEdge),
{
}

proof fn lemma_with_ext_sampler_filter_minmax(a: DeviceExtensions)
    ensures
        forall|x: DeviceExtension| #[trigger] spec_with(a, DeviceExtension::ExtSamplerFilterMinmax).spec_contains(x) == (a.spec_contains(x) || x == DeviceExtension::ExtSamplerFilterMinmax),
{
}

proof fn lemma_with_ext_shader_viewport_index_layer(a: DeviceExtensions)
    ensures
        forall|x: DeviceExtension| #[trigger] spec_with(a, DeviceExtension::ExtShaderViewportIndexLayer).spec_contains(x) == (a.spec_contains(x) || x == DeviceExtension::ExtShaderViewportIndexLayer),
{
}

proof fn lemma_with_khr_shader_draw_parameters(a: DeviceExtensions)
    ensures
        forall|x: DeviceExtension| #[trigger] spec_with(a, DeviceExtension::KhrShaderDrawParameters).spec_contains(x) == (a.spec_contains(x) || x == DeviceExtension::KhrShaderDrawParameters),
{
}

proof fn lemma_with_khr_portability_subset(a: DeviceExtensions)
    ensures
        forall|x: DeviceExtension| #[trigger] spec_with(a, DeviceExtension::KhrPortabilitySubset).spec_contains(x) == (a.spec_contains(x) || x == DeviceExtension::KhrPortabilitySubset),
{
}

proof fn lemma_with_amd_shader_fragment_mask(a: DeviceExtensions)
    ensures
        forall|x: DeviceExtension| #[trigger] spec_with(a, DeviceExtension::AmdShaderFragmentMask).spec_contains(x) == (a.spec_contains(x) || x == DeviceExtension::AmdShaderFragmentMask),
{
}

proof fn lemma_with_ext_private_data(a: DeviceExtensions)
    ensures
        forall|x: DeviceExtension| #[trigger] spec_with(a, DeviceExtension::ExtPrivateData).spec_contains(x) == (a.spec_contains(x) || x == DeviceExtension::ExtPrivateData),
{
}

/// Every extension has its position in `all_device_extensions()`.
proof fn lemma_positions()
    ensures
        all_device_extensions().len() == 25,
        forall|e: DeviceExtension| 0 <= #[trigger] device_extension_position(e) < all_device_extensions().len()
            && all_device_extensions()[device_extension_position(e)] == e,
        forall|k: int| 0 <= k < all_device_extensions().len() ==> device_extension_position(#[trigger] all_device_extensions()[k]) == k,
{
    assert forall|e: DeviceExtension| 0 <= #[trigger] device_extension_position(e) < all_device_extensions().len()
        && all_device_extensions()[device_extension_position(e)] == e by {
        match e {
            DeviceExtension::ExtExternalMemoryDmaBuf => {},
            DeviceExtension::AndroidExternalMemoryAndroidHardwareBuffer => {},
            DeviceExtension::ExtQueueFamilyForeign => {},
            DeviceExtension::ExtExternalMemoryHost => {},
            DeviceExtension::FuchsiaExternalMemory => {},
            DeviceExtension::NvExternalMemoryRdma => {},
            DeviceExtension::KhrAccelerationStructure => {},
            DeviceExtension::KhrSwapchain => {},
            DeviceExtension::ExtBufferDeviceAddress => {},
            DeviceExtension::KhrBufferDeviceAddress => {},
            DeviceExtension::KhrDeviceGroup => {},
            DeviceExtension::ExtDescriptorIndexing => {},
            DeviceExtension::KhrMaintenance3 => {},
            DeviceExtension::KhrMaintenance4 => {},
            DeviceExtension::KhrExternalMemoryFd => {},
            DeviceExtension::KhrExternalMemory => {},
            DeviceExtension::KhrDeferredHostOperations => {},
            DeviceExtension::KhrDrawIndirectCount => {},
            DeviceExtension::KhrSamplerMirrorClampToEdge => {},
            DeviceExtension::ExtSamplerFilterMinmax => {},
            DeviceExtension::ExtShaderViewportIndexLayer => {},
            DeviceExtension::KhrShaderDrawParameters => {},
            DeviceExtension::KhrPortabilitySubset => {},
            DeviceExtension::AmdShaderFragmentMask => {},
            DeviceExtension::ExtPrivateData => {},
        }
    }
    assert forall|k: int| 0 <= k < all_device_extensions().len() implies device_extension_position(#[trigger] all_device_extensions()[k]) == k by {
        if k == 0 {}
        if k == 1 {}
        if k == 2 {}
        if k == 3 {}
        if k == 4 {}
        if k == 5 {}
        if k == 6 {}
        if k == 7 {}
        if k == 8 {}
        if k == 9 {}
        if k == 10 {}
        if k == 11 {}
        if k == 12 {}
        if k == 13 {}
        if k == 14 {}
        if k == 15 {}
        if k == 16 {}
        if k == 17 {}
        if k == 18 {}
        if k == 19 {}
        if k == 20 {}
        if k == 21 {}
        if k == 22 {}
        if k == 23 {}
        if k == 24 {}
    }
}

/// The extensions that an extension depends on come after it in `all_device_extensions()`.
proof fn lemma_dependencies_come_later(e: DeviceExtension)
    ensures
        forall|j: int| 0 <= j < device_extension_requirements(e).len()
            ==> (#[trigger] device_extension_requirements(e)[j].device_extension matches Some(d)
            ==> device_extension_position(d) > device_extension_position(e)),
{
    match e {
        DeviceExtension::ExtExternalMemoryDmaBuf => lemma_later_ext_external_memory_dma_buf(),
        DeviceExtension::AndroidExternalMemoryAndroidHardwareBuffer => lemma_later_android_external_memory_android_hardware_buffer(),
        DeviceExtension::ExtQueueFamilyForeign => lemma_later_ext_queue_family_foreign(),
        DeviceExtension::ExtExternalMemoryHost => lemma_later_ext_external_memory_host(),
        DeviceExtension::FuchsiaExternalMemory => lemma_later_fuchsia_external_memory(),
        DeviceExtension::NvExternalMemoryRdma => lemma_later_nv_external_memory_rdma(),
        DeviceExtension::KhrAccelerationStructure => lemma_later_khr_acceleration_structure(),
        DeviceExtension::KhrSwapchain => lemma_later_khr_swapchain(),
        DeviceExtension::ExtBufferDeviceAddress => lemma_later_ext_buffer_device_address(),
        DeviceExtension::KhrBufferDeviceAddress => lemma_later_khr_buffer_device_address(),
        DeviceExtension::KhrDeviceGroup => lemma_later_khr_device_group(),
        DeviceExtension::ExtDescriptorIndexing => lemma_later_ext_descriptor_indexing(),
        DeviceExtension::KhrMaintenance3 => lemma_later_khr_maintenance3(),
        DeviceExtension::KhrMaintenance4 => lemma_later_khr_maintenance4(),
        DeviceExtension::KhrExternalMemoryFd => lemma_later_khr_external_memory_fd(),
        DeviceExtension::KhrExternalMemory => lemma_later_khr_external_memory(),
        DeviceExtension::KhrDeferredHostOperations => lemma_later_khr_deferred_host_operations(),
        DeviceExtension::KhrDrawIndirectCount => lemma_later_khr_draw_indirect_count(),
        DeviceExtension::KhrSamplerMirrorClampToEdge => lemma_later_khr_sampler_mirror_clamp_to_edge(),
        DeviceExtension::ExtSamplerFilterMinmax => lemma_later_ext_sampler_filter_minmax(),
        DeviceExtension::ExtShaderViewportIndexLayer => lemma_later_ext_shader_viewport_index_layer(),
        DeviceExtension::KhrShaderDrawParameters => lemma_later_khr_shader_draw_parameters(),
        DeviceExtension::KhrPortabilitySubset => lemma_later_khr_portability_subset(),
        DeviceExtension::AmdShaderFragmentMask => lemma_later_amd_shader_fragment_mask(),
        DeviceExtension::ExtPrivateData => lemma_later_ext_private_data(),
    }
}

proof fn lemma_later_ext_external_memory_dma_buf()
    ensures
        forall|j: int| 0 <= j < device_extension_requirements(DeviceExtension::ExtExternalMemoryDmaBuf).len()
            ==> (#[trigger] device_extension_requirements(DeviceExtension::ExtExternalMemoryDmaBuf)[j].device_extension matches Some(d)
            ==> device_extension_position(d) > device_extension_position(DeviceExtension::ExtExternalMemoryDmaBuf)),
{
    assert(device_extension_requirements(DeviceExtension::ExtExternalMemoryDmaBuf)[0] == device_extension_requirements(DeviceExtension::ExtExternalMemoryDmaBuf)[0]);
}

proof fn lemma_later_android_external_memory_android_hardware_buffer()
    ensures
        forall|j: int| 0 <= j < device_extension_requirements(DeviceExtension::AndroidExternalMemoryAndroidHardwareBuffer).len()
            ==> (#[trigger] device_extension_requirements(DeviceExtension::AndroidExternalMemoryAndroidHardwareBuffer)[j].device_extension matches Some(d)
            ==> device_extension_position(d) > device_extension_position(DeviceExtension::AndroidExternalMemoryAndroidHardwareBuffer)),
{
    assert(device_extension_requirements(DeviceExtension::AndroidExternalMemoryAndroidHardwareBuffer)[0] == device_extension_requirements(DeviceExtension::AndroidExternalMemoryAndroidHardwareBuffer)[0]);
    assert(device_extension_requirements(DeviceExtension::AndroidExternalMemoryAndroidHardwareBuffer)[1] == device_extension_requirements(DeviceExtension::AndroidExternalMemoryAndroidHardwareBuffer)[1]);
}

proof fn lemma_later_ext_queue_family_foreign()
    ensures
        forall|j: int| 0 <= j < device_extension_requirements(DeviceExtension::ExtQueueFamilyForeign).len()
            ==> (#[trigger] device_extension_requirements(DeviceExtension::ExtQueueFamilyForeign)[j].device_extension matches Some(d)
            ==> device_extension_position(d) > device_extension_position(DeviceExtension::ExtQueueFamilyForeign)),
{
    assert(device_extension_requirements(DeviceExtension::ExtQueueFamilyForeign)[0] == device_extension_requirements(DeviceExtension::ExtQueueFamilyForeign)[0]);
}

proof fn lemma_later_ext_external_memory_host()
    ensures
        forall|j: int| 0 <= j < device_extension_requirements(DeviceExtension::ExtExternalMemoryHost).len()
            ==> (#[trigger] device_extension_requirements(DeviceExtension::ExtExternalMemoryHost)[j].device_extension matches Some(d)
            ==> device_extension_position(d) > device_extension_position(DeviceExtension::ExtExternalMemoryHost)),
{
    assert(device_extension_requirements(DeviceExtension::ExtExternalMemoryHost)[0] == device_extension_requirements(DeviceExtension::ExtExternalMemoryHost)[0]);
}

proof fn lemma_later_fuchsia_external_memory()
    ensures
        forall|j: int| 0 <= j < device_extension_requirements(DeviceExtension::FuchsiaExternalMemory).len()
            ==> (#[trigger] device_extension_requirements(DeviceExtension::FuchsiaExternalMemory)[j].device_extension matches Some(d)
            ==> device_extension_position(d) > device_extension_position(DeviceExtension::FuchsiaExternalMemory)),
{
    assert(device_extension_requirements(DeviceExtension::FuchsiaExternalMemory)[0] == device_extension_requirements(DeviceExtension::FuchsiaExternalMemory)[0]);
    assert(device_extension_requirements(DeviceExtension::FuchsiaExternalMemory)[1] == device_extension_requirements(DeviceExtension::FuchsiaExternalMemory)[1]);
}

proof fn lemma_later_nv_external_memory_rdma()
    ensures
        forall|j: int| 0 <= j < device_extension_requirements(DeviceExtension::NvExternalMemoryRdma).len()
            ==> (#[trigger] device_extension_requirements(DeviceExtension::NvExternalMemoryRdma)[j].device_extension matches Some(d)
            ==> device_extension_position(d) > device_extension_position(DeviceExtension::NvExternalMemoryRdma)),
{
    assert(device_extension_requirements(DeviceExtension::NvExternalMemoryRdma)[0] == device_extension_requirements(DeviceExtension::NvExternalMemoryRdma)[0]);
}

proof fn lemma_later_khr_acceleration_structure()
    ensures
        forall|j: int| 0 <= j < device_extension_requirements(DeviceExtension::KhrAccelerationStructure).len()
            ==> (#[trigger] device_extension_requirements(DeviceExtension::KhrAccelerationStructure)[j].device_extension matches Some(d)
            ==> device_extension_position(d) > device_extension_position(DeviceExtension::KhrAccelerationStructure)),
{
    assert(device_extension_requirements(DeviceExtension::KhrAccelerationStructure)[0] == device_extension_requirements(DeviceExtension::KhrAccelerationStructure)[0]);
    assert(device_extension_requirements(DeviceExtension::KhrAccelerationStructure)[1] == device_extension_requirements(DeviceExtension::KhrAccelerationStructure)[1]);
    assert(device_extension_requirements(DeviceExtension::KhrAccelerationStructure)[2] == device_extension_requirements(DeviceExtension::KhrAccelerationStructure)[2]);
    assert(device_extension_requirements(DeviceExtension::KhrAccelerationStructure)[3] == device_extension_requirements(DeviceExtension::KhrAccelerationStructure)[3]);
}

proof fn lemma_later_khr_swapchain()
    ensures
        forall|j: int| 0 <= j < device_extension_requirements(DeviceExtension::KhrSwapchain).len()
            ==> (#[trigger] device_extension_requirements(DeviceExtension::KhrSwapchain)[j].device_extension matches Some(d)
            ==> device_extension_position(d) > device_extension_position(DeviceExtension::KhrSwapchain)),
{
    assert(device_extension_requirements(DeviceExtension::KhrSwapchain)[0] == device_extension_requirements(DeviceExtension::KhrSwapchain)[0]);
}

proof fn lemma_later_ext_buffer_device_address()
    ensures
        forall|j: int| 0 <= j < device_extension_requirements(DeviceExtension::ExtBufferDeviceAddress).len()
            ==> (#[trigger] device_extension_requirements(DeviceExtension::ExtBufferDeviceAddress)[j].device_extension matches Some(d)
            ==> device_extension_position(d) > device_extension_position(DeviceExtension::ExtBufferDeviceAddress)),
{
    assert(device_extension_requirements(DeviceExtension::ExtBufferDeviceAddress)[0] == device_extension_requirements(DeviceExtension::ExtBufferDeviceAddress)[0]);
}

proof fn lemma_later_khr_buffer_device_address()
    ensures
        forall|j: int| 0 <= j < device_extension_requirements(DeviceExtension::KhrBufferDeviceAddress).len()
            ==> (#[trigger] device_extension_requirements(DeviceExtension::KhrBufferDeviceAddress)[j].device_extension matches Some(d)
            ==> device_extension_position(d) > device_extension_position(DeviceExtension::KhrBufferDeviceAddress)),
{
    assert(device_extension_requirements(DeviceExtension::KhrBufferDeviceAddress)[0] == device_extension_requirements(DeviceExtension::KhrBufferDeviceAddress)[0]);
    assert(device_extension_requirements(DeviceExtension::KhrBufferDeviceAddress)[1] == device_extension_requirements(DeviceExtension::KhrBufferDeviceAddress)[1]);
}

proof fn lemma_later_khr_device_group()
    ensures
        forall|j: int| 0 <= j < device_extension_requirements(DeviceExtension::KhrDeviceGroup).len()
            ==> (#[trigger] device_extension_requirements(DeviceExtension::KhrDeviceGroup)[j].device_extension matches Some(d)
            ==> device_extension_position(d) > device_extension_position(DeviceExtension::KhrDeviceGroup)),
{
    assert(device_extension_requirements(DeviceExtension::KhrDeviceGroup)[0] == device_extension_requirements(DeviceExtension::KhrDeviceGroup)[0]);
}

proof fn lemma_later_ext_descriptor_indexing()
    ensures
        forall|j: int| 0 <= j < device_extension_requirements(DeviceExtension::ExtDescriptorIndexing).len()
            ==> (#[trigger] device_extension_requirements(DeviceExtension::ExtDescriptorIndexing)[j].device_extension matches Some(d)
            ==> device_extension_position(d) > device_extension_position(DeviceExtension::ExtDescriptorIndexing)),
{
    assert(device_extension_requirements(DeviceExtension::ExtDescriptorIndexing)[0] == device_extension_requirements(DeviceExtension::ExtDescriptorIndexing)[0]);
    assert(device_extension_requirements(DeviceExtension::ExtDescriptorIndexing)[1] == device_extension_requirements(DeviceExtension::ExtDescriptorIndexing)[1]);
}

proof fn lemma_later_khr_maintenance3()
    ensures
        forall|j: int| 0 <= j < device_extension_requirements(DeviceExtension::KhrMaintenance3).len()
            ==> (#[trigger] device_extension_requirements(DeviceExtension::KhrMaintenance3)[j].device_extension matches Some(d)
            ==> device_extension_position(d) > device_extension_position(DeviceExtension::KhrMaintenance3)),
{
    assert(device_extension_requirements(DeviceExtension::KhrMaintenance3)[0] == device_extension_requirements(DeviceExtension::KhrMaintenance3)[0]);
}

proof fn lemma_later_khr_maintenance4()
    ensures
        forall|j: int| 0 <= j < device_extension_requirements(DeviceExtension::KhrMaintenance4).len()
            ==> (#[trigger] device_extension_requirements(DeviceExtension::KhrMaintenance4)[j].device_extension matches Some(d)
            ==> device_extension_position(d) > device_extension_position(DeviceExtension::KhrMaintenance4)),
{
    assert(device_extension_requirements(DeviceExtension::KhrMaintenance4)[0] == device_extension_requirements(DeviceExtension::KhrMaintenance4)[0]);
}

proof fn lemma_later_khr_external_memory_fd()
    ensures
        forall|j: int| 0 <= j < device_extension_requirements(DeviceExtension::KhrExternalMemoryFd).len()
            ==> (#[trigger] device_extension_requirements(DeviceExtension::KhrExternalMemoryFd)[j].device_extension matches Some(d)
            ==> device_extension_position(d) > device_extension_position(DeviceExtension::KhrExternalMemoryFd)),
{
    assert(device_extension_requirements(DeviceExtension::KhrExternalMemoryFd)[0] == device_extension_requirements(DeviceExtension::KhrExternalMemoryFd)[0]);
}

proof fn lemma_later_khr_external_memory()
    ensures
        forall|j: int| 0 <= j < device_extension_requirements(DeviceExtension::KhrExternalMemory).len()
            ==> (#[trigger] device_extension_requirements(DeviceExtension::KhrExternalMemory)[j].device_extension matches Some(d)
            ==> device_extension_position(d) > device_extension_position(DeviceExtension::KhrExternalMemory)),
{
    assert(device_extension_requirements(DeviceExtension::KhrExternalMemory)[0] == device_extension_requirements(DeviceExtension::KhrExternalMemory)[0]);
}

proof fn lemma_later_khr_deferred_host_operations()
    ensures
        forall|j: int| 0 <= j < device_extension_requirements(DeviceExtension::KhrDeferredHostOperations).len()
            ==> (#[trigger] device_extension_requirements(DeviceExtension::KhrDeferredHostOperations)[j].device_extension matches Some(d)
            ==> device_extension_position(d) > device_extension_position(DeviceExtension::KhrDeferredHostOperations)),
{
}

proof fn lemma_later_khr_draw_indirect_count()
    ensures
        forall|j: int| 0 <= j < device_extension_requirements(DeviceExtension::KhrDrawIndirectCount).len()
            ==> (#[trigger] device_extension_requirements(DeviceExtension::KhrDrawIndirectCount)[j].device_extension matches Some(d)
            ==> device_extension_position(d) > device_extension_position(DeviceExtension::KhrDrawIndirectCount)),
{
}

proof fn lemma_later_khr_sampler_mirror_clamp_to_edge()
    ensures
        forall|j: int| 0 <= j < device_extension_requirements(DeviceExtension::KhrSamplerMirrorClampToEdge).len()
            ==> (#[trigger] device_extension_requirements(DeviceExtension::KhrSamplerMirrorClampToEdge)[j].device_extension matches Some(d)
            ==> device_extension_position(d) > device_extension_position(DeviceExtension::KhrSamplerMirrorClampToEdge)),
{
}

proof fn lemma_later_ext_sampler_filter_minmax()
    ensures
        forall|j: int| 0 <= j < device_extension_requirements(DeviceExtension::ExtSamplerFilterMinmax).len()
            ==> (#[trigger] device_extension_requirements(DeviceExtension::ExtSamplerFilterMinmax)[j].device_extension matches Some(d)
            ==> device_extension_position(d) > device_extension_position(DeviceExtension::ExtSamplerFilterMinmax)),
{
    assert(device_extension_requirements(DeviceExtension::ExtSamplerFilterMinmax)[0] == device_extension_requirements(DeviceExtension::ExtSamplerFilterMinmax)[0]);
}

proof fn lemma_later_ext_shader_viewport_index_layer()
    ensures
        forall|j: int| 0 <= j < device_extension_requirements(DeviceExtension::ExtShaderViewportIndexLayer).len()
            ==> (#[trigger] device_extension_requirements(DeviceExtension::ExtShaderViewportIndexLayer)[j].device_extension matches Some(d)
            ==> device_extension_position(d) > device_extension_position(DeviceExtension::ExtShaderViewportIndexLayer)),
{
}

proof fn lemma_later_khr_shader_draw_parameters()
    ensures
        forall|j: int| 0 <= j < device_extension_requirements(DeviceExtension::KhrShaderDrawParameters).len()
            ==> (#[trigger] device_extension_requirements(DeviceExtension::KhrShaderDrawParameters)[j].device_extension matches Some(d)
            ==> device_extension_position(d) > device_extension_position(DeviceExtension::KhrShaderDrawParameters)),
{
}

proof fn lemma_later_khr_portability_subset()
    ensures
        forall|j: int| 0 <= j < device_extension_requirements(DeviceExtension::KhrPortabilitySubset).len()
            ==> (#[trigger] device_extension_requirements(DeviceExtension::KhrPortabilitySubset)[j].device_extension matches Some(d)
            ==> device_extension_position(d) > device_extension_position(DeviceExtension::KhrPortabilitySubset)),
{
    assert(device_extension_requirements(DeviceExtension::KhrPortabilitySubset)[0] == device_extension_requirements(DeviceExtension::KhrPortabilitySubset)[0]);
}

proof fn lemma_later_amd_shader_fragment_mask()
    ensures
        forall|j: int| 0 <= j < device_extension_requirements(DeviceExtension::AmdShaderFragmentMask).len()
            ==> (#[trigger] device_extension_requirements(DeviceExtension::AmdShaderFragmentMask)[j].device_extension matches Some(d)
            ==> device_extension_position(d) > device_extension_position(DeviceExtension::AmdShaderFragmentMask)),
{
}

proof fn lemma_later_ext_private_data()
    ensures
        forall|j: int| 0 <= j < device_extension_requirements(DeviceExtension::ExtPrivateData).len()
            ==> (#[trigger] device_extension_requirements(DeviceExtension::ExtPrivateData)[j].device_extension matches Some(d)
            ==> device_extension_position(d) > device_extension_position(DeviceExtension::ExtPrivateData)),
{
    assert(device_extension_requirements(DeviceExtension::ExtPrivateData)[0] == device_extension_requirements(DeviceExtension::ExtPrivateData)[0]);
}

/// What adding the extensions pulled in by clauses `gs[j..]` adds.
proof fn lemma_pulled_in(
    a: DeviceExtensions,
    gs: Seq<RequiresOneOf>,
    j: int,
    api_version: Version,
    supported: DeviceExtensions,
)
    requires
        0 <= j <= gs.len(),
    ensures
        forall|x: DeviceExtension| #[trigger] with_pulled_in(a, gs, j, api_version, supported).spec_contains(x)
            == (a.spec_contains(x) || exists|jj: int| j <= jj < gs.len() && #[trigger] pulls_in(gs[jj], x, api_version, supported)),
    decreases gs.len() - j,
{
    if j < gs.len() {
        let next = match gs[j].device_extension {
            Some(d) => if pulls_in(gs[j], d, api_version, supported) {
                spec_with(a, d)
            } else {
                a
            },
            None => a,
        };
        assert(with_pulled_in(a, gs, j, api_version, supported) == with_pulled_in(next, gs, j + 1, api_version, supported));
        lemma_pulled_in(next, gs, j + 1, api_version, supported);
        match gs[j].device_extension {
            Some(d) => lemma_with_contains(a, d),
            None => {},
        }
        assert forall|x: DeviceExtension| #[trigger] next.spec_contains(x)
            == (a.spec_contains(x) || pulls_in(gs[j], x, api_version, supported)) by {
            match gs[j].device_extension {
                Some(d) => {
                    if x == d {
                    } else {
                    }
                },
                None => {},
            }
        }
        assert forall|x: DeviceExtension| #[trigger] with_pulled_in(a, gs, j, api_version, supported).spec_contains(x)
            == (a.spec_contains(x) || exists|jj: int| j <= jj < gs.len() && #[trigger] pulls_in(gs[jj], x, api_version, supported)) by {
            assert(with_pulled_in(next, gs, j + 1, api_version, supported).spec_contains(x)
                == (next.spec_contains(x) || exists|jj: int| j + 1 <= jj < gs.len() && #[trigger] pulls_in(gs[jj], x, api_version, supported)));
            assert(next.spec_contains(x) == (a.spec_contains(x) || pulls_in(gs[j], x, api_version, supported)));
            if exists|jj: int| j <= jj < gs.len() && #[trigger] pulls_in(gs[jj], x, api_version, supported) {
                let jj = choose|jj: int| j <= jj < gs.len() && #[trigger] pulls_in(gs[jj], x, api_version, supported);
                if jj > j {
                    assert(j + 1 <= jj < gs.len() && pulls_in(gs[jj], x, api_version, supported));
                }
            }
            if exists|jj: int| j + 1 <= jj < gs.len() && #[trigger] pulls_in(gs[jj], x, api_version, supported) {
                let jj = choose|jj: int| j + 1 <= jj < gs.len() && #[trigger] pulls_in(gs[jj], x, api_version, supported);
                assert(j <= jj < gs.len() && pulls_in(gs[jj], x, api_version, supported));
            }
            if pulls_in(gs[j], x, api_version, supported) {
                assert(j <= j < gs.len() && pulls_in(gs[j], x, api_version, supported));
            }
        }
    }
}

/// What the step for position `k - 1` of enabling dependencies adds.
proof fn lemma_dependencies_step(
    enabled: DeviceExtensions,
    k: int,
    api_version: Version,
    supported: DeviceExtensions,
)
    requires
        1 <= k <= all_device_extensions().len(),
    ensures
        forall|x: DeviceExtension| #[trigger] with_dependencies_upto(enabled, k, api_version, supported).spec_contains(x)
            == (with_dependencies_upto(enabled, k - 1, api_version, supported).spec_contains(x)
            || (with_dependencies_upto(enabled, k - 1, api_version, supported).spec_contains(all_device_extensions()[k - 1])
            && exists|jj: int| 0 <= jj < device_extension_requirements(all_device_extensions()[k - 1]).len()
                && #[trigger] pulls_in(device_extension_requirements(all_device_extensions()[k - 1])[jj], x, api_version, supported))),
{
    let prev = with_dependencies_upto(enabled, k - 1, api_version, supported);
    let e = all_device_extensions()[k - 1];
    lemma_pulled_in(prev, device_extension_requirements(e), 0, api_version, supported);
}

/// Enabling dependencies never removes an extension.
proof fn lemma_dependencies_monotone(
    enabled: DeviceExtensions,
    k: int,
    m: int,
    api_version: Version,
    supported: DeviceExtensions,
)
    requires
        0 <= k <= m <= all_device_extensions().len(),
    ensures
        forall|x: DeviceExtension| #[trigger] with_dependencies_upto(enabled, k, api_version, supported).spec_contains(x)
            ==> with_dependencies_upto(enabled, m, api_version, supported).spec_contains(x),
    decreases m - k,
{
    if k < m {
        lemma_dependencies_monotone(enabled, k, m - 1, api_version, supported);
        lemma_dependencies_step(enabled, m, api_version, supported);
        assert forall|x: DeviceExtension| #[trigger] with_dependencies_upto(enabled, k, api_version, supported).spec_contains(x)
            implies with_dependencies_upto(enabled, m, api_version, supported).spec_contains(x) by {
            assert(with_dependencies_upto(enabled, m - 1, api_version, supported).spec_contains(x));
        }
    }
}

/// Once the step for an extension's position is reached, no later step adds it.
proof fn lemma_dependencies_frozen(
    enabled: DeviceExtensions,
    x: DeviceExtension,
    m: int,
    api_version: Version,
    supported: DeviceExtensions,
)
    requires
        device_extension_position(x) <= m <= all_device_extensions().len(),
    ensures
        with_dependencies_upto(enabled, m, api_version, supported).spec_contains(x)
            == with_dependencies_upto(enabled, device_extension_position(x), api_version, supported).spec_contains(x),
    decreases m,
{
    lemma_positions();
    if m > device_extension_position(x) {
        lemma_dependencies_frozen(enabled, x, m - 1, api_version, supported);
        lemma_dependencies_step(enabled, m, api_version, supported);
        let e = all_device_extensions()[m - 1];
        lemma_dependencies_come_later(e);
        assert(device_extension_position(e) == m - 1);
        if exists|jj: int| 0 <= jj < device_extension_requirements(e).len()
            && #[trigger] pulls_in(device_extension_requirements(e)[jj], x, api_version, supported) {
            let jj = choose|jj: int| 0 <= jj < device_extension_requirements(e).len()
                && #[trigger] pulls_in(device_extension_requirements(e)[jj], x, api_version, supported);
            assert(device_extension_requirements(e)[jj].device_extension == Some(x));
            assert(false);
        }
        assert(with_dependencies_upto(enabled, m, api_version, supported).spec_contains(x)
            == with_dependencies_upto(enabled, m - 1, api_version, supported).spec_contains(x));
    }
}

/// After enabling dependencies, each enabled extension has every extension that it pulls in
/// enabled too: the result is closed under dependencies.
pub proof fn enabled_dependencies_are_closed(
    enabled: DeviceExtensions,
    api_version: Version,
    supported: DeviceExtensions,
    e: DeviceExtension,
    j: int,
    d: DeviceExtension,
)
    requires
        with_dependencies(enabled, api_version, supported).spec_contains(e),
        0 <= j < device_extension_requirements(e).len(),
        pulls_in(device_extension_requirements(e)[j], d, api_version, supported),
    ensures
        with_dependencies(enabled, api_version, supported).spec_contains(d),
{
    reveal(with_dependencies);
    lemma_positions();
    let n = all_device_extensions().len() as int;
    let p = device_extension_position(e);
    lemma_dependencies_frozen(enabled, e, n, api_version, supported);
    lemma_dependencies_step(enabled, p + 1, api_version, supported);
    assert(with_dependencies_upto(enabled, p + 1, api_version, supported).spec_contains(d));
    lemma_dependencies_monotone(enabled, p + 1, n, api_version, supported);
}

/// Enabling dependencies keeps every extension that was enabled, and adds only extensions
/// that the physical device supports.
pub proof fn enabled_dependencies_keep_and_add_supported(
    enabled: DeviceExtensions,
    api_version: Version,
    supported: DeviceExtensions,
    e: DeviceExtension,
)
    ensures
        enabled.spec_contains(e) ==> with_dependencies(enabled, api_version, supported).spec_contains(e),
        with_dependencies(enabled, api_version, supported).spec_contains(e) ==> enabled.spec_contains(e)
            || supported.spec_contains(e),
{
    reveal(with_dependencies);
    lemma_positions();
    assert(with_dependencies_upto(enabled, 0, api_version, supported) == enabled);
    lemma_dependencies_monotone(enabled, 0, all_device_extensions().len() as int, api_version, supported);
    lemma_dependencies_only_supported(enabled, all_device_extensions().len() as int, api_version, supported, e);
}

proof fn lemma_dependencies_only_supported(
    enabled: DeviceExtensions,
    k: int,
    api_version: Version,
    supported: DeviceExtensions,
    e: DeviceExtension,
)
    requires
        0 <= k <= all_device_extensions().len(),
    ensures
        with_dependencies_upto(enabled, k, api_version, supported).spec_contains(e) ==> enabled.spec_contains(e)
            || supported.spec_contains(e),
    decreases k,
{
    if k > 0 {
        lemma_dependencies_only_supported(enabled, k - 1, api_version, supported, e);
        lemma_dependencies_step(enabled, k, api_version, supported);
        if exists|jj: int| 0 <= jj < device_extension_requirements(all_device_extensions()[k - 1]).len()
            && #[trigger] pulls_in(device_extension_requirements(all_device_extensions()[k - 1])[jj], e, api_version, supported) {
            let jj = choose|jj: int| 0 <= jj < device_extension_requirements(all_device_extensions()[k - 1]).len()
                && #[trigger] pulls_in(device_extension_requirements(all_device_extensions()[k - 1])[jj], e, api_version, supported);
            assert(supported.spec_contains(e));
        }
    }
}

/// When `extensions_error` finds nothing, every enabled extension is supported.
pub proof fn lemma_no_extension_error_supported(
    enabled: DeviceExtensions,
    supported: DeviceExtensions,
    api_version: Version,
    instance_extensions: InstanceExtensions,
    e: DeviceExtension,
)
    requires
        extensions_error(enabled, supported, api_version, instance_extensions) is None,
    ensures
        enabled.spec_contains(e) ==> supported.spec_contains(e),
{
    lemma_positions();
    lemma_no_error_from(0, device_extension_position(e), enabled, supported, api_version, instance_extensions);
}

proof fn lemma_no_error_from(
    i: int,
    k: int,
    enabled: DeviceExtensions,
    supported: DeviceExtensions,
    api_version: Version,
    instance_extensions: InstanceExtensions,
)
    requires
        extensions_error_from(i, enabled, supported, api_version, instance_extensions) is None,
        0 <= i <= k < all_device_extensions().len(),
    ensures
        extension_error(all_device_extensions()[k], enabled, supported, api_version, instance_extensions) is None,
    decreases k - i,
{
    if i < k {
        lemma_no_error_from(i + 1, k, enabled, supported, api_version, instance_extensions);
    }
}

impl DeviceExtension {
    /// Every device extension, in dependency order.
    pub fn all() -> (r: Vec<DeviceExtension>)
        ensures
            r@ == all_device_extensions(),
    {
        let mut r = Vec::new();
        r.push(DeviceExtension::ExtExternalMemoryDmaBuf);
        r.push(DeviceExtension::AndroidExternalMemoryAndroidHardwareBuffer);
        r.push(DeviceExtension::ExtQueueFamilyForeign);
        r.push(DeviceExtension::ExtExternalMemoryHost);
        r.push(DeviceExtension::FuchsiaExternalMemory);
        r.push(DeviceExtension::NvExternalMemoryRdma);
        r.push(DeviceExtension::KhrAccelerationStructure);
        r.push(DeviceExtension::KhrSwapchain);
        r.push(DeviceExtension::ExtBufferDeviceAddress);
        r.push(DeviceExtension::KhrBufferDeviceAddress);
        r.push(DeviceExtension::KhrDeviceGroup);
        r.push(DeviceExtension::ExtDescriptorIndexing);
        r.push(DeviceExtension::KhrMaintenance3);
        r.push(DeviceExtension::KhrMaintenance4);
        r.push(DeviceExtension::KhrExternalMemoryFd);
        r.push(DeviceExtension::KhrExternalMemory);
        r.push(DeviceExtension::KhrDeferredHostOperations);
        r.push(DeviceExtension::KhrDrawIndirectCount);
        r.push(DeviceExtension::KhrSamplerMirrorClampToEdge);
        r.push(DeviceExtension::ExtSamplerFilterMinmax);
        r.push(DeviceExtension::ExtShaderViewportIndexLayer);
        r.push(DeviceExtension::KhrShaderDrawParameters);
        r.push(DeviceExtension::KhrPortabilitySubset);
        r.push(DeviceExtension::AmdShaderFragmentMask);
        r.push(DeviceExtension::ExtPrivateData);
        assert(r@ =~= all_device_extensions());
        r
    }

    /// The Vulkan name of the extension.
    pub fn name(&self) -> (r: &'static str)
        ensures
            r@ == device_extension_name(*self),
    {
        match self {
            DeviceExtension::ExtExternalMemoryDmaBuf => "VK_EXT_external_memory_dma_buf",
            DeviceExtension::AndroidExternalMemoryAndroidHardwareBuffer => "VK_ANDROID_external_memory_android_hardware_buffer",
            DeviceExtension::ExtQueueFamilyForeign => "VK_EXT_queue_family_foreign",
            DeviceExtension::ExtExternalMemoryHost => "VK_EXT_external_memory_host",
            DeviceExtension::FuchsiaExternalMemory => "VK_FUCHSIA_external_memory",
            DeviceExtension::NvExternalMemoryRdma => "VK_NV_external_memory_rdma",
            DeviceExtension::KhrAccelerationStructure => "VK_KHR_acceleration_structure",
            DeviceExtension::KhrSwapchain => "VK_KHR_swapchain",
            DeviceExtension::ExtBufferDeviceAddress => "VK_EXT_buffer_device_address",
            DeviceExtension::KhrBufferDeviceAddress => "VK_KHR_buffer_device_address",
            DeviceExtension::KhrDeviceGroup => "VK_KHR_device_group",
            DeviceExtension::ExtDescriptorIndexing => "VK_EXT_descriptor_indexing",
            DeviceExtension::KhrMaintenance3 => "VK_KHR_maintenance3",
            DeviceExtension::KhrMaintenance4 => "VK_KHR_maintenance4",
            DeviceExtension::KhrExternalMemoryFd => "VK_KHR_external_memory_fd",
            DeviceExtension::KhrExternalMemory => "VK_KHR_external_memory",
            DeviceExtension::KhrDeferredHostOperations => "VK_KHR_deferred_host_operations",
            DeviceExtension::KhrDrawIndirectCount => "VK_KHR_draw_indirect_count",
            DeviceExtension::KhrSamplerMirrorClampToEdge => "VK_KHR_sampler_mirror_clamp_to_edge",
            DeviceExtension::ExtSamplerFilterMinmax => "VK_EXT_sampler_filter_minmax",
            DeviceExtension::ExtShaderViewportIndexLayer => "VK_EXT_shader_viewport_index_layer",
            DeviceExtension::KhrShaderDrawParameters => "VK_KHR_shader_draw_parameters",
            DeviceExtension::KhrPortabilitySubset => "VK_KHR_portability_subset",
            DeviceExtension::AmdShaderFragmentMask => "VK_AMD_shader_fragment_mask",
            DeviceExtension::ExtPrivateData => "VK_EXT_private_data",
        }
    }

    /// The requirement clauses of the extension.
    pub fn requirements(&self) -> (r: Vec<RequiresOneOf>)
        ensures
            r@ == device_extension_requirements(*self),
    {
        let mut r = Vec::new();
        match self {
            DeviceExtension::ExtExternalMemoryDmaBuf => {
                r.push(RequiresOneOf { api_version: None, device_extension: Some(DeviceExtension::KhrExternalMemoryFd), instance_extension: None });
            },
            DeviceExtension::AndroidExternalMemoryAndroidHardwareBuffer => {
                r.push(RequiresOneOf { api_version: Some(Version::v1_1()), device_extension: Some(DeviceExtension::KhrExternalMemory), instance_extension: None });
                r.push(RequiresOneOf { api_version: None, device_extension: Some(DeviceExtension::ExtQueueFamilyForeign), instance_extension: None });
            },
            DeviceExtension::ExtQueueFamilyForeign => {
                r.push(RequiresOneOf { api_version: Some(Version::v1_1()), device_extension: Some(DeviceExtension::KhrExternalMemory), instance_extension: None });
            },
            DeviceExtension::ExtExternalMemoryHost => {
                r.push(RequiresOneOf { api_version: Some(Version::v1_1()), device_extension: Some(DeviceExtension::KhrExternalMemory), instance_extension: None });
            },
            DeviceExtension::FuchsiaExternalMemory => {
                r.push(RequiresOneOf { api_version: Some(Version::v1_1()), device_extension: None, instance_extension: Some(InstanceExtension::KhrExternalMemoryCapabilities) });
                r.push(RequiresOneOf { api_version: Some(Version::v1_1()), device_extension: Some(DeviceExtension::KhrExternalMemory), instance_extension: None });
            },
            DeviceExtension::NvExternalMemoryRdma => {
                r.push(RequiresOneOf { api_version: Some(Version::v1_1()), device_extension: Some(DeviceExtension::KhrExternalMemory), instance_extension: None });
            },
            DeviceExtension::KhrAccelerationStructure => {
                r.push(RequiresOneOf { api_version: Some(Version::v1_1()), device_extension: None, instance_extension: None });
                r.push(RequiresOneOf { api_version: Some(Version::v1_2()), device_extension: Some(DeviceExtension::ExtDescriptorIndexing), instance_extension: None });
                r.push(RequiresOneOf { api_version: Some(Version::v1_2()), device_extension: Some(DeviceExtension::KhrBufferDeviceAddress), instance_extension: None });
                r.push(RequiresOneOf { api_version: None, device_extension: Some(DeviceExtension::KhrDeferredHostOperations), instance_extension: None });
            },
            DeviceExtension::KhrSwapchain => {
                r.push(RequiresOneOf { api_version: None, device_extension: None, instance_extension: Some(InstanceExtension::KhrSurface) });
            },
            DeviceExtension::ExtBufferDeviceAddress => {
                r.push(RequiresOneOf { api_version: Some(Version::v1_1()), device_extension: None, instance_extension: Some(InstanceExtension::KhrGetPhysicalDeviceProperties2) });
            },
            DeviceExtension::KhrBufferDeviceAddress => {
                r.push(RequiresOneOf { api_version: Some(Version::v1_1()), device_extension: None, instance_extension: Some(InstanceExtension::KhrGetPhysicalDeviceProperties2) });
                r.push(RequiresOneOf { api_version: Some(Version::v1_1()), device_extension: Some(DeviceExtension::KhrDeviceGroup), instance_extension: None });
            },
            DeviceExtension::KhrDeviceGroup => {
                r.push(RequiresOneOf { api_version: Some(Version::v1_1()), device_extension: None, instance_extension: Some(InstanceExtension::KhrDeviceGroupCreation) });
            },
            DeviceExtension::ExtDescriptorIndexing => {
                r.push(RequiresOneOf { api_version: Some(Version::v1_1()), device_extension: None, instance_extension: Some(InstanceExtension::KhrGetPhysicalDeviceProperties2) });
                r.push(RequiresOneOf { api_version: Some(Version::v1_1()), device_extension: Some(DeviceExtension::KhrMaintenance3), instance_extension: None });
            },
            DeviceExtension::KhrMaintenance3 => {
                r.push(RequiresOneOf { api_version: Some(Version::v1_1()), device_extension: None, instance_extension: Some(InstanceExtension::KhrGetPhysicalDeviceProperties2) });
            },
            DeviceExtension::KhrMaintenance4 => {
                r.push(RequiresOneOf { api_version: Some(Version::v1_1()), device_extension: None, instance_extension: None });
            },
            DeviceExtension::KhrExternalMemoryFd => {
                r.push(RequiresOneOf { api_version: Some(Version::v1_1()), device_extension: Some(DeviceExtension::KhrExternalMemory), instance_extension: None });
            },
            DeviceExtension::KhrExternalMemory => {
                r.push(RequiresOneOf { api_version: Some(Version::v1_1()), device_extension: None, instance_extension: Some(InstanceExtension::KhrExternalMemoryCapabilities) });
            },
            DeviceExtension::KhrDeferredHostOperations => {
            },
            DeviceExtension::KhrDrawIndirectCount => {
            },
            DeviceExtension::KhrSamplerMirrorClampToEdge => {
            },
            DeviceExtension::ExtSamplerFilterMinmax => {
                r.push(RequiresOneOf { api_version: Some(Version::v1_1()), device_extension: None, instance_extension: Some(InstanceExtension::KhrGetPhysicalDeviceProperties2) });
            },
            DeviceExtension::ExtShaderViewportIndexLayer => {
            },
            DeviceExtension::KhrShaderDrawParameters => {
            },
            DeviceExtension::KhrPortabilitySubset => {
                r.push(RequiresOneOf { api_version: Some(Version::v1_1()), device_extension: None, instance_extension: Some(InstanceExtension::KhrGetPhysicalDeviceProperties2) });
            },
            DeviceExtension::AmdShaderFragmentMask => {
            },
            DeviceExtension::ExtPrivateData => {
                r.push(RequiresOneOf { api_version: Some(Version::v1_1()), device_extension: None, instance_extension: Some(InstanceExtension::KhrGetPhysicalDeviceProperties2) });
            },
        }
        assert(r@ =~= device_extension_requirements(*self));
        r
    }
}

impl RequiresOneOf {
    /// Whether the clause holds.
    pub fn is_met(
        &self,
        api_version: Version,
        supported: &DeviceExtensions,
        instance_extensions: &InstanceExtensions,
    ) -> (r: bool)
        ensures
            r == requirement_met(*self, api_version, *supported, *instance_extensions),
    {
        let by_version = match self.api_version {
            Some(v) => api_version.at_least(&v),
            None => false,
        };
        let by_device = match self.device_extension {
            Some(d) => supported.is_enabled(d),
            None => false,
        };
        let by_instance = match self.instance_extension {
            Some(i) => instance_extensions.is_enabled(i),
            None => false,
        };
        by_version || by_device || by_instance
    }
}

impl DeviceExtensions {
    /// Whether the field of `e` is set.
    pub open spec fn spec_contains(&self, e: DeviceExtension) -> bool {
        match e {
            DeviceExtension::ExtExternalMemoryDmaBuf => self.ext_external_memory_dma_buf,
            DeviceExtension::AndroidExternalMemoryAndroidHardwareBuffer => self.android_external_memory_android_hardware_buffer,
            DeviceExtension::ExtQueueFamilyForeign => self.ext_queue_family_foreign,
            DeviceExtension::ExtExternalMemoryHost => self.ext_external_memory_host,
            DeviceExtension::FuchsiaExternalMemory => self.fuchsia_external_memory,
            DeviceExtension::NvExternalMemoryRdma => self.nv_external_memory_rdma,
            DeviceExtension::KhrAccelerationStructure => self.khr_acceleration_structure,
            DeviceExtension::KhrSwapchain => self.khr_swapchain,
            DeviceExtension::ExtBufferDeviceAddress => self.ext_buffer_device_address,
            DeviceExtension::KhrBufferDeviceAddress => self.khr_buffer_device_address,
            DeviceExtension::KhrDeviceGroup => self.khr_device_group,
            DeviceExtension::ExtDescriptorIndexing => self.ext_descriptor_indexing,
            DeviceExtension::KhrMaintenance3 => self.khr_maintenance3,
            DeviceExtension::KhrMaintenance4 => self.khr_maintenance4,
            DeviceExtension::KhrExternalMemoryFd => self.khr_external_memory_fd,
            DeviceExtension::KhrExternalMemory => self.khr_external_memory,
            DeviceExtension::KhrDeferredHostOperations => self.khr_deferred_host_operations,
            DeviceExtension::KhrDrawIndirectCount => self.khr_draw_indirect_count,
            DeviceExtension::KhrSamplerMirrorClampToEdge => self.khr_sampler_mirror_clamp_to_edge,
            DeviceExtension::ExtSamplerFilterMinmax => self.ext_sampler_filter_minmax,
            DeviceExtension::ExtShaderViewportIndexLayer => self.ext_shader_viewport_index_layer,
            DeviceExtension::KhrShaderDrawParameters => self.khr_shader_draw_parameters,
            DeviceExtension::KhrPortabilitySubset => self.khr_portability_subset,
            DeviceExtension::AmdShaderFragmentMask => self.amd_shader_fragment_mask,
            DeviceExtension::ExtPrivateData => self.ext_private_data,
        }
    }

    /// The set with no extension.
    pub fn empty() -> (r: DeviceExtensions)
        ensures
            forall|e: DeviceExtension| !#[trigger] r.spec_contains(e),
    {
        DeviceExtensions {
            ext_external_memory_dma_buf: false,
            android_external_memory_android_hardware_buffer: false,
            ext_queue_family_foreign: false,
            ext_external_memory_host: false,
            fuchsia_external_memory: false,
            nv_external_memory_rdma: false,
            khr_acceleration_structure: false,
            khr_swapchain: false,
            ext_buffer_device_address: false,
            khr_buffer_device_address: false,
            khr_device_group: false,
            ext_descriptor_indexing: false,
            khr_maintenance3: false,
            khr_maintenance4: false,
            khr_external_memory_fd: false,
            khr_external_memory: false,
            khr_deferred_host_operations: false,
            khr_draw_indirect_count: false,
            khr_sampler_mirror_clamp_to_edge: false,
            ext_sampler_filter_minmax: false,
            ext_shader_viewport_index_layer: false,
            khr_shader_draw_parameters: false,
            khr_portability_subset: false,
            amd_shader_fragment_mask: false,
            ext_private_data: false,
        }
    }

    /// Whether `e` is in the set.
    pub fn is_enabled(&self, e: DeviceExtension) -> (r: bool)
        ensures
            r == self.spec_contains(e),
    {
        match e {
            DeviceExtension::ExtExternalMemoryDmaBuf => self.ext_external_memory_dma_buf,
            DeviceExtension::AndroidExternalMemoryAndroidHardwareBuffer => self.android_external_memory_android_hardware_buffer,
            DeviceExtension::ExtQueueFamilyForeign => self.ext_queue_family_foreign,
            DeviceExtension::ExtExternalMemoryHost => self.ext_external_memory_host,
            DeviceExtension::FuchsiaExternalMemory => self.fuchsia_external_memory,
            DeviceExtension::NvExternalMemoryRdma => self.nv_external_memory_rdma,
            DeviceExtension::KhrAccelerationStructure => self.khr_acceleration_structure,
            DeviceExtension::KhrSwapchain => self.khr_swapchain,
            DeviceExtension::ExtBufferDeviceAddress => self.ext_buffer_device_address,
            DeviceExtension::KhrBufferDeviceAddress => self.khr_buffer_device_address,
            DeviceExtension::KhrDeviceGroup => self.khr_device_group,
            DeviceExtension::ExtDescriptorIndexing => self.ext_descriptor_indexing,
            DeviceExtension::KhrMaintenance3 => self.khr_maintenance3,
            DeviceExtension::KhrMaintenance4 => self.khr_maintenance4,
            DeviceExtension::KhrExternalMemoryFd => self.khr_external_memory_fd,
            DeviceExtension::KhrExternalMemory => self.khr_external_memory,
            DeviceExtension::KhrDeferredHostOperations => self.khr_deferred_host_operations,
            DeviceExtension::KhrDrawIndirectCount => self.khr_draw_indirect_count,
            DeviceExtension::KhrSamplerMirrorClampToEdge => self.khr_sampler_mirror_clamp_to_edge,
            DeviceExtension::ExtSamplerFilterMinmax => self.ext_sampler_filter_minmax,
            DeviceExtension::ExtShaderViewportIndexLayer => self.ext_shader_viewport_index_layer,
            DeviceExtension::KhrShaderDrawParameters => self.khr_shader_draw_parameters,
            DeviceExtension::KhrPortabilitySubset => self.khr_portability_subset,
            DeviceExtension::AmdShaderFragmentMask => self.amd_shader_fragment_mask,
            DeviceExtension::ExtPrivateData => self.ext_private_data,
        }
    }

    /// Adds `e` to the set.
    pub fn enable(&mut self, e: DeviceExtension)
        ensures
            *final(self) == spec_with(*old(self), e),
    {
        *self = self.with(e);
    }

    /// The set with `e` added.
    pub fn with(self, e: DeviceExtension) -> (r: DeviceExtensions)
        ensures
            r == spec_with(self, e),
    {
        match e {
            DeviceExtension::ExtExternalMemoryDmaBuf => DeviceExtensions { ext_external_memory_dma_buf: true, ..self },
            DeviceExtension::AndroidExternalMemoryAndroidHardwareBuffer => DeviceExtensions { android_external_memory_android_hardware_buffer: true, ..self },
            DeviceExtension::ExtQueueFamilyForeign => DeviceExtensions { ext_queue_family_foreign: true, ..self },
            DeviceExtension::ExtExternalMemoryHost => DeviceExtensions { ext_external_memory_host: true, ..self },
            DeviceExtension::FuchsiaExternalMemory => DeviceExtensions { fuchsia_external_memory: true, ..self },
            DeviceExtension::NvExternalMemoryRdma => DeviceExtensions { nv_external_memory_rdma: true, ..self },
            DeviceExtension::KhrAccelerationStructure => DeviceExtensions { khr_acceleration_structure: true, ..self },
            DeviceExtension::KhrSwapchain => DeviceExtensions { khr_swapchain: true, ..self },
            DeviceExtension::ExtBufferDeviceAddress => DeviceExtensions { ext_buffer_device_address: true, ..self },
            DeviceExtension::KhrBufferDeviceAddress => DeviceExtensions { khr_buffer_device_address: true, ..self },
            DeviceExtension::KhrDeviceGroup => DeviceExtensions { khr_device_group: true, ..self },
            DeviceExtension::ExtDescriptorIndexing => DeviceExtensions { ext_descriptor_indexing: true, ..self },
            DeviceExtension::KhrMaintenance3 => DeviceExtensions { khr_maintenance3: true, ..self },
            DeviceExtension::KhrMaintenance4 => DeviceExtensions { khr_maintenance4: true, ..self },
            DeviceExtension::KhrExternalMemoryFd => DeviceExtensions { khr_external_memory_fd: true, ..self },
            DeviceExtension::KhrExternalMemory => DeviceExtensions { khr_external_memory: true, ..self },
            DeviceExtension::KhrDeferredHostOperations => DeviceExtensions { khr_deferred_host_operations: true, ..self },
            DeviceExtension::KhrDrawIndirectCount => DeviceExtensions { khr_draw_indirect_count: true, ..self },
            DeviceExtension::KhrSamplerMirrorClampToEdge => DeviceExtensions { khr_sampler_mirror_clamp_to_edge: true, ..self },
            DeviceExtension::ExtSamplerFilterMinmax => DeviceExtensions { ext_sampler_filter_minmax: true, ..self },
            DeviceExtension::ExtShaderViewportIndexLayer => DeviceExtensions { ext_shader_viewport_index_layer: true, ..self },
            DeviceExtension::KhrShaderDrawParameters => DeviceExtensions { khr_shader_draw_parameters: true, ..self },
            DeviceExtension::KhrPortabilitySubset => DeviceExtensions { khr_portability_subset: true, ..self },
            DeviceExtension::AmdShaderFragmentMask => DeviceExtensions { amd_shader_fragment_mask: true, ..self },
            DeviceExtension::ExtPrivateData => DeviceExtensions { ext_private_data: true, ..self },
        }
    }

    /// Each extension with its Vulkan name and whether it is in the set, in the order of
    /// `all_device_extensions()`.
    pub fn into_iter(self) -> (r: Vec<(&'static str, bool)>)
        ensures
            r@.len() == all_device_extensions().len(),
            forall|i: int|
                0 <= i < r@.len() ==> {
                    &&& (#[trigger] r@[i]).0@ == device_extension_name(all_device_extensions()[i])
                    &&& r@[i].1 == self.spec_contains(all_device_extensions()[i])
                },
    {
        let all = DeviceExtension::all();
        let mut r: Vec<(&'static str, bool)> = Vec::new();
        let mut i: usize = 0;
        while i < all.len()
            invariant
                all@ == all_device_extensions(),
                i <= all@.len(),
                r@.len() == i,
                forall|j: int|
                    0 <= j < i ==> {
                        &&& (#[trigger] r@[j]).0@ == device_extension_name(
                            all_device_extensions()[j],
                        )
                        &&& r@[j].1 == self.spec_contains(all_device_extensions()[j])
                    },
            decreases all@.len() - i,
        {
            let e = all[i];
            r.push((e.name(), self.is_enabled(e)));
            i = i + 1;
        }
        r
    }

    /// The Vulkan names of the extensions in the set, in the order of `all_device_extensions()`.
    pub fn names(&self) -> (r: Vec<&'static str>)
        ensures
            r@.map_values(|s: &'static str| s@) == enabled_names_upto(*self, all_device_extensions().len() as int),
    {
        let all = DeviceExtension::all();
        let mut r: Vec<&'static str> = Vec::new();
        let mut i: usize = 0;
        while i < all.len()
            invariant
                all@ == all_device_extensions(),
                i <= all@.len(),
                r@.map_values(|s: &'static str| s@) == enabled_names_upto(*self, i as int),
            decreases all@.len() - i,
        {
            let e = all[i];
            let ghost before = r@;
            if self.is_enabled(e) {
                r.push(e.name());
                assert(r@.map_values(|s: &'static str| s@) =~= before.map_values(|s: &'static str| s@).push(device_extension_name(e)));
            }
            i = i + 1;
        }
        r
    }

    /// Checks that every extension in the set is supported by the physical device and has
    /// its requirement clauses met; returns the first problem, in the order of
    /// `all_device_extensions()`.
    pub fn check_requirements(
        &self,
        supported: &DeviceExtensions,
        api_version: Version,
        instance_extensions: &InstanceExtensions,
    ) -> (r: Result<(), ExtensionRestrictionError>)
        ensures
            r == match extensions_error(*self, *supported, api_version, *instance_extensions) {
                Some(err) => Err(err),
                None => Ok(()),
            },
    {
        let all = DeviceExtension::all();
        let mut i: usize = 0;
        while i < all.len()
            invariant
                all@ == all_device_extensions(),
                i <= all@.len(),
                extensions_error(*self, *supported, api_version, *instance_extensions)
                    == extensions_error_from(i as int, *self, *supported, api_version, *instance_extensions),
            decreases all@.len() - i,
        {
            let e = all[i];
            if self.is_enabled(e) {
                if !supported.is_enabled(e) {
                    return Err(ExtensionRestrictionError::NotSupported { extension: e });
                }
                let reqs = e.requirements();
                let mut j: usize = 0;
                while j < reqs.len()
                    invariant
                        reqs@ == device_extension_requirements(e),
                        j <= reqs@.len(),
                        all@ == all_device_extensions(),
                        i < all@.len(),
                        e == all@[i as int],
                        self.spec_contains(e),
                        supported.spec_contains(e),
                        extensions_error(*self, *supported, api_version, *instance_extensions)
                            == extensions_error_from(i as int, *self, *supported, api_version, *instance_extensions),
                        first_unmet_requirement(reqs@, 0, api_version, *supported, *instance_extensions)
                            == first_unmet_requirement(reqs@, j as int, api_version, *supported, *instance_extensions),
                    decreases reqs@.len() - j,
                {
                    if !reqs[j].is_met(api_version, supported, instance_extensions) {
                        assert(first_unmet_requirement(reqs@, j as int, api_version, *supported, *instance_extensions) == Some(reqs@[j as int]));
                        return Err(ExtensionRestrictionError::RequirementNotMet {
                            extension: e,
                            requires_one_of: reqs[j],
                        });
                    }
                    j = j + 1;
                }
            }
            i = i + 1;
        }
        Ok(())
    }

    /// Enables, along with each extension in the set, the extensions that it depends on and
    /// that the physical device supports, unless the API version provides them.
    pub fn enable_dependencies(&mut self, api_version: Version, supported: &DeviceExtensions)
        ensures
            *final(self) == with_dependencies(*old(self), api_version, *supported),
    {
        reveal(with_dependencies);
        let all = DeviceExtension::all();
        let mut i: usize = 0;
        while i < all.len()
            invariant
                all@ == all_device_extensions(),
                i <= all@.len(),
                *self == with_dependencies_upto(*old(self), i as int, api_version, *supported),
            decreases all@.len() - i,
        {
            let e = all[i];
            if self.is_enabled(e) {
                let reqs = e.requirements();
                let ghost start = *self;
                let mut j: usize = 0;
                while j < reqs.len()
                    invariant
                        reqs@ == device_extension_requirements(e),
                        j <= reqs@.len(),
                        with_pulled_in(start, reqs@, 0, api_version, *supported)
                            == with_pulled_in(*self, reqs@, j as int, api_version, *supported),
                    decreases reqs@.len() - j,
                {
                    let g = reqs[j];
                    if let Some(d) = g.device_extension {
                        let by_version = match g.api_version {
                            Some(v) => api_version.at_least(&v),
                            None => false,
                        };
                        if !by_version && supported.is_enabled(d) {
                            self.enable(d);
                        }
                    }
                    j = j + 1;
                }
            }
            i = i + 1;
        }
    }
}

impl InstanceExtensions {
    /// Whether the field of `e` is set.
    pub open spec fn spec_contains(&self, e: InstanceExtension) -> bool {
        match e {
            InstanceExtension::KhrSurface => self.khr_surface,
            InstanceExtension::KhrGetPhysicalDeviceProperties2 => self.khr_get_physical_device_properties2,
            InstanceExtension::KhrDeviceGroupCreation => self.khr_device_group_creation,
            InstanceExtension::KhrExternalMemoryCapabilities => self.khr_external_memory_capabilities,
        }
    }

    /// The set with no extension.
    pub fn empty() -> (r: InstanceExtensions)
        ensures
            forall|e: InstanceExtension| !#[trigger] r.spec_contains(e),
    {
        InstanceExtensions {
            khr_surface: false,
            khr_get_physical_device_properties2: false,
            khr_device_group_creation: false,
            khr_external_memory_capabilities: false,
        }
    }

    /// Whether `e` is in the set.
    pub fn is_enabled(&self, e: InstanceExtension) -> (r: bool)
        ensures
            r == self.spec_contains(e),
    {
        match e {
            InstanceExtension::KhrSurface => self.khr_surface,
            InstanceExtension::KhrGetPhysicalDeviceProperties2 => self.khr_get_physical_device_properties2,
            InstanceExtension::KhrDeviceGroupCreation => self.khr_device_group_creation,
            InstanceExtension::KhrExternalMemoryCapabilities => self.khr_external_memory_capabilities,
        }
    }
}

} // verus!
