use vstd::prelude::*;

verus! {

/// A device feature known to this library.
#[derive(Clone, Copy, Debug, PartialEq, Eq, Hash)]
pub enum Feature {
    TessellationShader,
    RobustBufferAccess,
    ShaderDrawParameters,
    DrawIndirectCount,
    SamplerMirrorClampToEdge,
    DescriptorIndexing,
    SamplerFilterMinmax,
    ShaderOutputLayer,
    VariablePointersStorageBuffer,
    VariablePointers,
    Multiview,
    MultiviewGeometryShader,
    MultiviewTessellationShader,
    MultiviewMeshShader,
    PrimitiveFragmentShadingRateMeshShader,
    PipelineFragmentShadingRate,
    PrimitiveFragmentShadingRate,
    AttachmentFragmentShadingRate,
    RayTracingPipelineShaderGroupHandleCaptureReplay,
    RayTracingPipelineShaderGroupHandleCaptureReplayMixed,
    RobustBufferAccess2,
    AccelerationStructure,
    BufferDeviceAddress,
    ShadingRateImage,
    FragmentDensityMap,
    ShaderImageInt64Atomics,
    SparseImageInt64Atomics,
    ShaderImageFloat32Atomics,
    SparseImageFloat32Atomics,
    ShaderImageFloat32AtomicAdd,
    SparseImageFloat32AtomicAdd,
    ShaderImageFloat32AtomicMinMax,
    SparseImageFloat32AtomicMinMax,
    DescriptorBuffer,
}

/// A set of device features: those to enable on a device, or those that a physical device
/// supports.
#[derive(Clone, Copy, Debug, PartialEq, Eq, Hash)]
pub struct Features {
    pub tessellation_shader: bool,
    pub robust_buffer_access: bool,
    pub shader_draw_parameters: bool,
    pub draw_indirect_count: bool,
    pub sampler_mirror_clamp_to_edge: bool,
    pub descriptor_indexing: bool,
    pub sampler_filter_minmax: bool,
    pub shader_output_layer: bool,
    pub variable_pointers_storage_buffer: bool,
    pub variable_pointers: bool,
    pub multiview: bool,
    pub multiview_geometry_shader: bool,
    pub multiview_tessellation_shader: bool,
    pub multiview_mesh_shader: bool,
    pub primitive_fragment_shading_rate_mesh_shader: bool,
    pub pipeline_fragment_shading_rate: bool,
    pub primitive_fragment_shading_rate: bool,
    pub attachment_fragment_shading_rate: bool,
    pub ray_tracing_pipeline_shader_group_handle_capture_replay: bool,
    pub ray_tracing_pipeline_shader_group_handle_capture_replay_mixed: bool,
    pub robust_buffer_access2: bool,
    pub acceleration_structure: bool,
    pub buffer_device_address: bool,
    pub shading_rate_image: bool,
    pub fragment_density_map: bool,
    pub shader_image_int64_atomics: bool,
    pub sparse_image_int64_atomics: bool,
    pub shader_image_float32_atomics: bool,
    pub sparse_image_float32_atomics: bool,
    pub shader_image_float32_atomic_add: bool,
    pub sparse_image_float32_atomic_add: bool,
    pub shader_image_float32_atomic_min_max: bool,
    pub sparse_image_float32_atomic_min_max: bool,
    pub descriptor_buffer: bool,
}

/// Every feature of this library, each once.
pub open spec fn all_features() -> Seq<Feature> {
    seq![
        Feature::TessellationShader,
        Feature::RobustBufferAccess,
        Feature::ShaderDrawParameters,
        Feature::DrawIndirectCount,
        Feature::SamplerMirrorClampToEdge,
        Feature::DescriptorIndexing,
        Feature::SamplerFilterMinmax,
        Feature::ShaderOutputLayer,
        Feature::VariablePointersStorageBuffer,
        Feature::VariablePointers,
        Feature::Multiview,
        Feature::MultiviewGeometryShader,
        Feature::MultiviewTessellationShader,
        Feature::MultiviewMeshShader,
        Feature::PrimitiveFragmentShadingRateMeshShader,
        Feature::PipelineFragmentShadingRate,
        Feature::PrimitiveFragmentShadingRate,
        Feature::AttachmentFragmentShadingRate,
        Feature::RayTracingPipelineShaderGroupHandleCaptureReplay,
        Feature::RayTracingPipelineShaderGroupHandleCaptureReplayMixed,
        Feature::RobustBufferAccess2,
        Feature::AccelerationStructure,
        Feature::BufferDeviceAddress,
        Feature::ShadingRateImage,
        Feature::FragmentDensityMap,
        Feature::ShaderImageInt64Atomics,
        Feature::SparseImageInt64Atomics,
        Feature::ShaderImageFloat32Atomics,
        Feature::SparseImageFloat32Atomics,
        Feature::ShaderImageFloat32AtomicAdd,
        Feature::SparseImageFloat32AtomicAdd,
        Feature::ShaderImageFloat32AtomicMinMax,
        Feature::SparseImageFloat32AtomicMinMax,
        Feature::DescriptorBuffer
    ]
}

/// The Vulkan name of a feature.
pub open spec fn feature_name(f: Feature) -> Seq<char> {
    match f {
        Feature::TessellationShader => "tessellationShader"@,
        Feature::RobustBufferAccess => "robustBufferAccess"@,
        Feature::ShaderDrawParameters => "shaderDrawParameters"@,
        Feature::DrawIndirectCount => "drawIndirectCount"@,
        Feature::SamplerMirrorClampToEdge => "samplerMirrorClampToEdge"@,
        Feature::DescriptorIndexing => "descriptorIndexing"@,
        Feature::SamplerFilterMinmax => "samplerFilterMinmax"@,
        Feature::ShaderOutputLayer => "shaderOutputLayer"@,
        Feature::VariablePointersStorageBuffer => "variablePointersStorageBuffer"@,
        Feature::VariablePointers => "variablePointers"@,
        Feature::Multiview => "multiview"@,
        Feature::MultiviewGeometryShader => "multiviewGeometryShader"@,
        Feature::MultiviewTessellationShader => "multiviewTessellationShader"@,
        Feature::MultiviewMeshShader => "multiviewMeshShader"@,
        Feature::PrimitiveFragmentShadingRateMeshShader => "primitiveFragmentShadingRateMeshShader"@,
        Feature::PipelineFragmentShadingRate => "pipelineFragmentShadingRate"@,
        Feature::PrimitiveFragmentShadingRate => "primitiveFragmentShadingRate"@,
        Feature::AttachmentFragmentShadingRate => "attachmentFragmentShadingRate"@,
        Feature::RayTracingPipelineShaderGroupHandleCaptureReplay => "rayTracingPipelineShaderGroupHandleCaptureReplay"@,
        Feature::RayTracingPipelineShaderGroupHandleCaptureReplayMixed => "rayTracingPipelineShaderGroupHandleCaptureReplayMixed"@,
        Feature::RobustBufferAccess2 => "robustBufferAccess2"@,
        Feature::AccelerationStructure => "accelerationStructure"@,
        Feature::BufferDeviceAddress => "bufferDeviceAddress"@,
        Feature::ShadingRateImage => "shadingRateImage"@,
        Feature::FragmentDensityMap => "fragmentDensityMap"@,
        Feature::ShaderImageInt64Atomics => "shaderImageInt64Atomics"@,
        Feature::SparseImageInt64Atomics => "sparseImageInt64Atomics"@,
        Feature::ShaderImageFloat32Atomics => "shaderImageFloat32Atomics"@,
        Feature::SparseImageFloat32Atomics => "sparseImageFloat32Atomics"@,
        Feature::ShaderImageFloat32AtomicAdd => "shaderImageFloat32AtomicAdd"@,
        Feature::SparseImageFloat32AtomicAdd => "sparseImageFloat32AtomicAdd"@,
        Feature::ShaderImageFloat32AtomicMinMax => "shaderImageFloat32AtomicMinMax"@,
        Feature::SparseImageFloat32AtomicMinMax => "sparseImageFloat32AtomicMinMax"@,
        Feature::DescriptorBuffer => "descriptorBuffer"@,
    }
}

/// The first feature, from index `i` of `all_features()` on, that is in `enabled` but not in
/// `supported`.
pub open spec fn unsupported_feature_from(i: int, enabled: Features, supported: Features) -> Option<Feature>
    decreases all_features().len() - i,
{
    if i < 0 || i >= all_features().len() {
        None
    } else if enabled.spec_contains(all_features()[i]) && !supported.spec_contains(all_features()[i]) {
        Some(all_features()[i])
    } else {
        unsupported_feature_from(i + 1, enabled, supported)
    }
}

/// The first feature of `enabled`, in the order of `all_features()`, that is not supported.
pub open spec fn unsupported_feature(enabled: Features, supported: Features) -> Option<Feature> {
    unsupported_feature_from(0, enabled, supported)
}

impl Feature {
    /// Every feature.
    pub fn all() -> (r: Vec<Feature>)
        ensures
            r@ == all_features(),
    {
        let mut r = Vec::new();
        r.push(Feature::TessellationShader);
        r.push(Feature::RobustBufferAccess);
        r.push(Feature::ShaderDrawParameters);
        r.push(Feature::DrawIndirectCount);
        r.push(Feature::SamplerMirrorClampToEdge);
        r.push(Feature::DescriptorIndexing);
        r.push(Feature::SamplerFilterMinmax);
        r.push(Feature::ShaderOutputLayer);
        r.push(Feature::VariablePointersStorageBuffer);
        r.push(Feature::VariablePointers);
        r.push(Feature::Multiview);
        r.push(Feature::MultiviewGeometryShader);
        r.push(Feature::MultiviewTessellationShader);
        r.push(Feature::MultiviewMeshShader);
        r.push(Feature::PrimitiveFragmentShadingRateMeshShader);
        r.push(Feature::PipelineFragmentShadingRate);
        r.push(Feature::PrimitiveFragmentShadingRate);
        r.push(Feature::AttachmentFragmentShadingRate);
        r.push(Feature::RayTracingPipelineShaderGroupHandleCaptureReplay);
        r.push(Feature::RayTracingPipelineShaderGroupHandleCaptureReplayMixed);
        r.push(Feature::RobustBufferAccess2);
        r.push(Feature::AccelerationStructure);
        r.push(Feature::BufferDeviceAddress);
        r.push(Feature::ShadingRateImage);
        r.push(Feature::FragmentDensityMap);
        r.push(Feature::ShaderImageInt64Atomics);
        r.push(Feature::SparseImageInt64Atomics);
        r.push(Feature::ShaderImageFloat32Atomics);
        r.push(Feature::SparseImageFloat32Atomics);
        r.push(Feature::ShaderImageFloat32AtomicAdd);
        r.push(Feature::SparseImageFloat32AtomicAdd);
        r.push(Feature::ShaderImageFloat32AtomicMinMax);
        r.push(Feature::SparseImageFloat32AtomicMinMax);
        r.push(Feature::DescriptorBuffer);
        assert(r@ =~= all_features());
        r
    }

    /// The Vulkan name of the feature.
    pub fn name(&self) -> (r: &'static str)
        ensures
            r@ == feature_name(*self),
    {
        match self {
            Feature::TessellationShader => "tessellationShader",
            Feature::RobustBufferAccess => "robustBufferAccess",
            Feature::ShaderDrawParameters => "shaderDrawParameters",
            Feature::DrawIndirectCount => "drawIndirectCount",
            Feature::SamplerMirrorClampToEdge => "samplerMirrorClampToEdge",
            Feature::DescriptorIndexing => "descriptorIndexing",
            Feature::SamplerFilterMinmax => "samplerFilterMinmax",
            Feature::ShaderOutputLayer => "shaderOutputLayer",
            Feature::VariablePointersStorageBuffer => "variablePointersStorageBuffer",
            Feature::VariablePointers => "variablePointers",
            Feature::Multiview => "multiview",
            Feature::MultiviewGeometryShader => "multiviewGeometryShader",
            Feature::MultiviewTessellationShader => "multiviewTessellationShader",
            Feature::MultiviewMeshShader => "multiviewMeshShader",
            Feature::PrimitiveFragmentShadingRateMeshShader => "primitiveFragmentShadingRateMeshShader",
            Feature::PipelineFragmentShadingRate => "pipelineFragmentShadingRate",
            Feature::PrimitiveFragmentShadingRate => "primitiveFragmentShadingRate",
            Feature::AttachmentFragmentShadingRate => "attachmentFragmentShadingRate",
            Feature::RayTracingPipelineShaderGroupHandleCaptureReplay => "rayTracingPipelineShaderGroupHandleCaptureReplay",
            Feature::RayTracingPipelineShaderGroupHandleCaptureReplayMixed => "rayTracingPipelineShaderGroupHandleCaptureReplayMixed",
            Feature::RobustBufferAccess2 => "robustBufferAccess2",
            Feature::AccelerationStructure => "accelerationStructure",
            Feature::BufferDeviceAddress => "bufferDeviceAddress",
            Feature::ShadingRateImage => "shadingRateImage",
            Feature::FragmentDensityMap => "fragmentDensityMap",
            Feature::ShaderImageInt64Atomics => "shaderImageInt64Atomics",
            Feature::SparseImageInt64Atomics => "sparseImageInt64Atomics",
            Feature::ShaderImageFloat32Atomics => "shaderImageFloat32Atomics",
            Feature::SparseImageFloat32Atomics => "sparseImageFloat32Atomics",
            Feature::ShaderImageFloat32AtomicAdd => "shaderImageFloat32AtomicAdd",
            Feature::SparseImageFloat32AtomicAdd => "sparseImageFloat32AtomicAdd",
            Feature::ShaderImageFloat32AtomicMinMax => "shaderImageFloat32AtomicMinMax",
            Feature::SparseImageFloat32AtomicMinMax => "sparseImageFloat32AtomicMinMax",
            Feature::DescriptorBuffer => "descriptorBuffer",
        }
    }
}

/// The set of no feature.
pub open spec fn no_features() -> Features {
    Features {
        tessellation_shader: false,
        robust_buffer_access: false,
        shader_draw_parameters: false,
        draw_indirect_count: false,
        sampler_mirror_clamp_to_edge: false,
        descriptor_indexing: false,
        sampler_filter_minmax: false,
        shader_output_layer: false,
        variable_pointers_storage_buffer: false,
        variable_pointers: false,
        multiview: false,
        multiview_geometry_shader: false,
        multiview_tessellation_shader: false,
        multiview_mesh_shader: false,
        primitive_fragment_shading_rate_mesh_shader: false,
        pipeline_fragment_shading_rate: false,
        primitive_fragment_shading_rate: false,
        attachment_fragment_shading_rate: false,
        ray_tracing_pipeline_shader_group_handle_capture_replay: false,
        ray_tracing_pipeline_shader_group_handle_capture_replay_mixed: false,
        robust_buffer_access2: false,
        acceleration_structure: false,
        buffer_device_address: false,
        shading_rate_image: false,
        fragment_density_map: false,
        shader_image_int64_atomics: false,
        sparse_image_int64_atomics: false,
        shader_image_float32_atomics: false,
        sparse_image_float32_atomics: false,
        shader_image_float32_atomic_add: false,
        sparse_image_float32_atomic_add: false,
        shader_image_float32_atomic_min_max: false,
        sparse_image_float32_atomic_min_max: false,
        descriptor_buffer: false,
    }
}

impl Features {
    /// Whether the field of `f` is set.
    pub open spec fn spec_contains(&self, f: Feature) -> bool {
        match f {
            Feature::TessellationShader => self.tessellation_shader,
            Feature::RobustBufferAccess => self.robust_buffer_access,
            Feature::ShaderDrawParameters => self.shader_draw_parameters,
            Feature::DrawIndirectCount => self.draw_indirect_count,
            Feature::SamplerMirrorClampToEdge => self.sampler_mirror_clamp_to_edge,
            Feature::DescriptorIndexing => self.descriptor_indexing,
            Feature::SamplerFilterMinmax => self.sampler_filter_minmax,
            Feature::ShaderOutputLayer => self.shader_output_layer,
            Feature::VariablePointersStorageBuffer => self.variable_pointers_storage_buffer,
            Feature::VariablePointers => self.variable_pointers,
            Feature::Multiview => self.multiview,
            Feature::MultiviewGeometryShader => self.multiview_geometry_shader,
            Feature::MultiviewTessellationShader => self.multiview_tessellation_shader,
            Feature::MultiviewMeshShader => self.multiview_mesh_shader,
            Feature::PrimitiveFragmentShadingRateMeshShader => self.primitive_fragment_shading_rate_mesh_shader,
            Feature::PipelineFragmentShadingRate => self.pipeline_fragment_shading_rate,
            Feature::PrimitiveFragmentShadingRate => self.primitive_fragment_shading_rate,
            Feature::AttachmentFragmentShadingRate => self.attachment_fragment_shading_rate,
            Feature::RayTracingPipelineShaderGroupHandleCaptureReplay => self.ray_tracing_pipeline_shader_group_handle_capture_replay,
            Feature::RayTracingPipelineShaderGroupHandleCaptureReplayMixed => self.ray_tracing_pipeline_shader_group_handle_capture_replay_mixed,
            Feature::RobustBufferAccess2 => self.robust_buffer_access2,
            Feature::AccelerationStructure => self.acceleration_structure,
            Feature::BufferDeviceAddress => self.buffer_device_address,
            Feature::ShadingRateImage => self.shading_rate_image,
            Feature::FragmentDensityMap => self.fragment_density_map,
            Feature::ShaderImageInt64Atomics => self.shader_image_int64_atomics,
            Feature::SparseImageInt64Atomics => self.sparse_image_int64_atomics,
            Feature::ShaderImageFloat32Atomics => self.shader_image_float32_atomics,
            Feature::SparseImageFloat32Atomics => self.sparse_image_float32_atomics,
            Feature::ShaderImageFloat32AtomicAdd => self.shader_image_float32_atomic_add,
            Feature::SparseImageFloat32AtomicAdd => self.sparse_image_float32_atomic_add,
            Feature::ShaderImageFloat32AtomicMinMax => self.shader_image_float32_atomic_min_max,
            Feature::SparseImageFloat32AtomicMinMax => self.sparse_image_float32_atomic_min_max,
            Feature::DescriptorBuffer => self.descriptor_buffer,
        }
    }

    /// The set with no feature.
    pub fn empty() -> (r: Features)
        ensures
            r == no_features(),
            forall|f: Feature| !#[trigger] r.spec_contains(f),
    {
        Features {
            tessellation_shader: false,
            robust_buffer_access: false,
            shader_draw_parameters: false,
            draw_indirect_count: false,
            sampler_mirror_clamp_to_edge: false,
            descriptor_indexing: false,
            sampler_filter_minmax: false,
            shader_output_layer: false,
            variable_pointers_storage_buffer: false,
            variable_pointers: false,
            multiview: false,
            multiview_geometry_shader: false,
            multiview_tessellation_shader: false,
            multiview_mesh_shader: false,
            primitive_fragment_shading_rate_mesh_shader: false,
            pipeline_fragment_shading_rate: false,
            primitive_fragment_shading_rate: false,
            attachment_fragment_shading_rate: false,
            ray_tracing_pipeline_shader_group_handle_capture_replay: false,
            ray_tracing_pipeline_shader_group_handle_capture_replay_mixed: false,
            robust_buffer_access2: false,
            acceleration_structure: false,
            buffer_device_address: false,
            shading_rate_image: false,
            fragment_density_map: false,
            shader_image_int64_atomics: false,
            sparse_image_int64_atomics: false,
            shader_image_float32_atomics: false,
            sparse_image_float32_atomics: false,
            shader_image_float32_atomic_add: false,
            sparse_image_float32_atomic_add: false,
            shader_image_float32_atomic_min_max: false,
            sparse_image_float32_atomic_min_max: false,
            descriptor_buffer: false,
        }
    }

    /// The set with every feature.
    pub fn all() -> (r: Features)
        ensures
            forall|f: Feature| #[trigger] r.spec_contains(f),
    {
        Features {
            tessellation_shader: true,
            robust_buffer_access: true,
            shader_draw_parameters: true,
            draw_indirect_count: true,
            sampler_mirror_clamp_to_edge: true,
            descriptor_indexing: true,
            sampler_filter_minmax: true,
            shader_output_layer: true,
            variable_pointers_storage_buffer: true,
            variable_pointers: true,
            multiview: true,
            multiview_geometry_shader: true,
            multiview_tessellation_shader: true,
            multiview_mesh_shader: true,
            primitive_fragment_shading_rate_mesh_shader: true,
            pipeline_fragment_shading_rate: true,
            primitive_fragment_shading_rate: true,
            attachment_fragment_shading_rate: true,
            ray_tracing_pipeline_shader_group_handle_capture_replay: true,
            ray_tracing_pipeline_shader_group_handle_capture_replay_mixed: true,
            robust_buffer_access2: true,
            acceleration_structure: true,
            buffer_device_address: true,
            shading_rate_image: true,
            fragment_density_map: true,
            shader_image_int64_atomics: true,
            sparse_image_int64_atomics: true,
            shader_image_float32_atomics: true,
            sparse_image_float32_atomics: true,
            shader_image_float32_atomic_add: true,
            sparse_image_float32_atomic_add: true,
            shader_image_float32_atomic_min_max: true,
            sparse_image_float32_atomic_min_max: true,
            descriptor_buffer: true,
        }
    }

    /// Whether every feature of `other` is in `self`.
    pub fn contains(&self, other: &Features) -> (r: bool)
        ensures
            r == forall|f: Feature| #[trigger] other.spec_contains(f) ==> self.spec_contains(f),
    {
        let r = other.check_requirements(self);
        proof {
            unsupported_feature_none_iff_subset(*other, *self);
        }
        r.is_ok()
    }

    /// Whether `f` is in the set.
    pub fn is_enabled(&self, f: Feature) -> (r: bool)
        ensures
            r == self.spec_contains(f),
    {
        match f {
            Feature::TessellationShader => self.tessellation_shader,
            Feature::RobustBufferAccess => self.robust_buffer_access,
            Feature::ShaderDrawParameters => self.shader_draw_parameters,
            Feature::DrawIndirectCount => self.draw_indirect_count,
            Feature::SamplerMirrorClampToEdge => self.sampler_mirror_clamp_to_edge,
            Feature::DescriptorIndexing => self.descriptor_indexing,
            Feature::SamplerFilterMinmax => self.sampler_filter_minmax,
            Feature::ShaderOutputLayer => self.shader_output_layer,
            Feature::VariablePointersStorageBuffer => self.variable_pointers_storage_buffer,
            Feature::VariablePointers => self.variable_pointers,
            Feature::Multiview => self.multiview,
            Feature::MultiviewGeometryShader => self.multiview_geometry_shader,
            Feature::MultiviewTessellationShader => self.multiview_tessellation_shader,
            Feature::MultiviewMeshShader => self.multiview_mesh_shader,
            Feature::PrimitiveFragmentShadingRateMeshShader => self.primitive_fragment_shading_rate_mesh_shader,
            Feature::PipelineFragmentShadingRate => self.pipeline_fragment_shading_rate,
            Feature::PrimitiveFragmentShadingRate => self.primitive_fragment_shading_rate,
            Feature::AttachmentFragmentShadingRate => self.attachment_fragment_shading_rate,
            Feature::RayTracingPipelineShaderGroupHandleCaptureReplay => self.ray_tracing_pipeline_shader_group_handle_capture_replay,
            Feature::RayTracingPipelineShaderGroupHandleCaptureReplayMixed => self.ray_tracing_pipeline_shader_group_handle_capture_replay_mixed,
            Feature::RobustBufferAccess2 => self.robust_buffer_access2,
            Feature::AccelerationStructure => self.acceleration_structure,
            Feature::BufferDeviceAddress => self.buffer_device_address,
            Feature::ShadingRateImage => self.shading_rate_image,
            Feature::FragmentDensityMap => self.fragment_density_map,
            Feature::ShaderImageInt64Atomics => self.shader_image_int64_atomics,
            Feature::SparseImageInt64Atomics => self.sparse_image_int64_atomics,
            Feature::ShaderImageFloat32Atomics => self.shader_image_float32_atomics,
            Feature::SparseImageFloat32Atomics => self.sparse_image_float32_atomics,
            Feature::ShaderImageFloat32AtomicAdd => self.shader_image_float32_atomic_add,
            Feature::SparseImageFloat32AtomicAdd => self.sparse_image_float32_atomic_add,
            Feature::ShaderImageFloat32AtomicMinMax => self.shader_image_float32_atomic_min_max,
            Feature::SparseImageFloat32AtomicMinMax => self.sparse_image_float32_atomic_min_max,
            Feature::DescriptorBuffer => self.descriptor_buffer,
        }
    }

    /// Each feature with its Vulkan name and whether it is in the set, in the order of
    /// `all_features()`.
    pub fn into_iter(self) -> (r: Vec<(&'static str, bool)>)
        ensures
            r@.len() == all_features().len(),
            forall|i: int|
                0 <= i < r@.len() ==> {
                    &&& (#[trigger] r@[i]).0@ == feature_name(all_features()[i])
                    &&& r@[i].1 == self.spec_contains(all_features()[i])
                },
    {
        let all = Feature::all();
        let mut r: Vec<(&'static str, bool)> = Vec::new();
        let mut i: usize = 0;
        while i < all.len()
            invariant
                all@ == all_features(),
                i <= all@.len(),
                r@.len() == i,
                forall|j: int|
                    0 <= j < i ==> {
                        &&& (#[trigger] r@[j]).0@ == feature_name(all_features()[j])
                        &&& r@[j].1 == self.spec_contains(all_features()[j])
                    },
            decreases all@.len() - i,
        {
            let f = all[i];
            r.push((f.name(), self.is_enabled(f)));
            i = i + 1;
        }
        r
    }

    /// Checks that every feature in the set is supported; returns the first one that is not,
    /// in the order of `all_features()`.
    pub fn check_requirements(&self, supported: &Features) -> (r: Result<(), Feature>)
        ensures
            r == match unsupported_feature(*self, *supported) {
                Some(f) => Err(f),
                None => Ok(()),
            },
    {
        let all = Feature::all();
        let mut i: usize = 0;
        while i < all.len()
            invariant
                all@ == all_features(),
                i <= all@.len(),
                unsupported_feature(*self, *supported) == unsupported_feature_from(i as int, *self, *supported),
            decreases all@.len() - i,
        {
            let f = all[i];
            if self.is_enabled(f) && !supported.is_enabled(f) {
                return Err(f);
            }
            i = i + 1;
        }
        Ok(())
    }
}

/// `unsupported_feature` finds nothing exactly when every enabled feature is supported.
pub proof fn unsupported_feature_none_iff_subset(enabled: Features, supported: Features)
    ensures
        unsupported_feature(enabled, supported) is None <==> forall|f: Feature|
            #[trigger] enabled.spec_contains(f) ==> supported.spec_contains(f),
{
    lemma_unsupported_from(0, enabled, supported);
    assert forall|f: Feature| #[trigger] enabled.spec_contains(f) implies exists|k: int|
        0 <= k < all_features().len() && all_features()[k] == f by {
        match f {
            Feature::TessellationShader => assert(all_features()[0] == f),
            Feature::RobustBufferAccess => assert(all_features()[1] == f),
            Feature::ShaderDrawParameters => assert(all_features()[2] == f),
            Feature::DrawIndirectCount => assert(all_features()[3] == f),
            Feature::SamplerMirrorClampToEdge => assert(all_features()[4] == f),
            Feature::DescriptorIndexing => assert(all_features()[5] == f),
            Feature::SamplerFilterMinmax => assert(all_features()[6] == f),
            Feature::ShaderOutputLayer => assert(all_features()[7] == f),
            Feature::VariablePointersStorageBuffer => assert(all_features()[8] == f),
            Feature::VariablePointers => assert(all_features()[9] == f),
            Feature::Multiview => assert(all_features()[10] == f),
            Feature::MultiviewGeometryShader => assert(all_features()[11] == f),
            Feature::MultiviewTessellationShader => assert(all_features()[12] == f),
            Feature::MultiviewMeshShader => assert(all_features()[13] == f),
            Feature::PrimitiveFragmentShadingRateMeshShader => assert(all_features()[14] == f),
            Feature::PipelineFragmentShadingRate => assert(all_features()[15] == f),
            Feature::PrimitiveFragmentShadingRate => assert(all_features()[16] == f),
            Feature::AttachmentFragmentShadingRate => assert(all_features()[17] == f),
            Feature::RayTracingPipelineShaderGroupHandleCaptureReplay => assert(all_features()[18] == f),
            Feature::RayTracingPipelineShaderGroupHandleCaptureReplayMixed => assert(all_features()[19] == f),
            Feature::RobustBufferAccess2 => assert(all_features()[20] == f),
            Feature::AccelerationStructure => assert(all_features()[21] == f),
            Feature::BufferDeviceAddress => assert(all_features()[22] == f),
            Feature::ShadingRateImage => assert(all_features()[23] == f),
            Feature::FragmentDensityMap => assert(all_features()[24] == f),
            Feature::ShaderImageInt64Atomics => assert(all_features()[25] == f),
            Feature::SparseImageInt64Atomics => assert(all_features()[26] == f),
            Feature::ShaderImageFloat32Atomics => assert(all_features()[27] == f),
            Feature::SparseImageFloat32Atomics => assert(all_features()[28] == f),
            Feature::ShaderImageFloat32AtomicAdd => assert(all_features()[29] == f),
            Feature::SparseImageFloat32AtomicAdd => assert(all_features()[30] == f),
            Feature::ShaderImageFloat32AtomicMinMax => assert(all_features()[31] == f),
            Feature::SparseImageFloat32AtomicMinMax => assert(all_features()[32] == f),
            Feature::DescriptorBuffer => assert(all_features()[33] == f),
        }
    }
}

proof fn lemma_unsupported_from(i: int, enabled: Features, supported: Features)
    requires
        0 <= i <= all_features().len(),
    ensures
        unsupported_feature_from(i, enabled, supported) is None <==> forall|k: int|
            i <= k < all_features().len() ==> (#[trigger] enabled.spec_contains(all_features()[k])
                ==> supported.spec_contains(all_features()[k])),
    decreases all_features().len() - i,
{
    if i < all_features().len() {
        lemma_unsupported_from(i + 1, enabled, supported);
    }
}

} // verus!
