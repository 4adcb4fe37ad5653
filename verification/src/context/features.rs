//! The device features the renderer cannot do without.

use vstd::prelude::*;

verus! {

/// The device features the renderer knows of, each offered or not.
///
/// They are grouped as the driver reports them: the core features of API
/// versions 1.0 to 1.3, then those of four extensions.
#[derive(Clone, Copy, Debug, PartialEq, Eq, Structural)]
pub struct Features {
    // 1.0
    pub sampler_anisotropy: bool,
    pub shader_int64: bool,
    // 1.1
    pub storage_buffer16_bit_access: bool,
    pub uniform_and_storage_buffer16_bit_access: bool,
    // 1.2
    pub buffer_device_address: bool,
    pub descriptor_binding_partially_bound: bool,
    pub descriptor_binding_variable_descriptor_count: bool,
    pub descriptor_indexing: bool,
    pub runtime_descriptor_array: bool,
    pub scalar_block_layout: bool,
    pub uniform_and_storage_buffer8_bit_access: bool,
    pub vulkan_memory_model: bool,
    // 1.3
    pub dynamic_rendering: bool,
    pub synchronization2: bool,
    // acceleration structure
    pub acceleration_structure: bool,
    // ray tracing pipeline
    pub ray_tracing_pipeline: bool,
    // memory priority
    pub memory_priority: bool,
    // pageable device local memory
    pub pageable_device_local_memory: bool,
}

impl Features {
    /// Whether these features hold every feature of `wanted`.
    pub open spec fn cover(&self, wanted: Features) -> bool {
        &&& wanted.sampler_anisotropy ==> self.sampler_anisotropy
        &&& wanted.shader_int64 ==> self.shader_int64
        &&& wanted.storage_buffer16_bit_access ==> self.storage_buffer16_bit_access
        &&& wanted.uniform_and_storage_buffer16_bit_access
            ==> self.uniform_and_storage_buffer16_bit_access
        &&& wanted.buffer_device_address ==> self.buffer_device_address
        &&& wanted.descriptor_binding_partially_bound ==> self.descriptor_binding_partially_bound
        &&& wanted.descriptor_binding_variable_descriptor_count
            ==> self.descriptor_binding_variable_descriptor_count
        &&& wanted.descriptor_indexing ==> self.descriptor_indexing
        &&& wanted.runtime_descriptor_array ==> self.runtime_descriptor_array
        &&& wanted.scalar_block_layout ==> self.scalar_block_layout
        &&& wanted.uniform_and_storage_buffer8_bit_access
            ==> self.uniform_and_storage_buffer8_bit_access
        &&& wanted.vulkan_memory_model ==> self.vulkan_memory_model
        &&& wanted.dynamic_rendering ==> self.dynamic_rendering
        &&& wanted.synchronization2 ==> self.synchronization2
        &&& wanted.acceleration_structure ==> self.acceleration_structure
        &&& wanted.ray_tracing_pipeline ==> self.ray_tracing_pipeline
        &&& wanted.memory_priority ==> self.memory_priority
        &&& wanted.pageable_device_local_memory ==> self.pageable_device_local_memory
    }

    /// Whether an adapter that offers these features offers every feature
    /// that is asked of the device.
    pub open spec fn suffice(&self) -> bool {
        &&& self.sampler_anisotropy
        &&& self.shader_int64
        &&& self.storage_buffer16_bit_access
        &&& self.uniform_and_storage_buffer16_bit_access
        &&& self.buffer_device_address
        &&& self.descriptor_binding_partially_bound
        &&& self.descriptor_binding_variable_descriptor_count
        &&& self.descriptor_indexing
        &&& self.runtime_descriptor_array
        &&& self.scalar_block_layout
        &&& self.uniform_and_storage_buffer8_bit_access
        &&& self.vulkan_memory_model
        &&& self.dynamic_rendering
        &&& self.synchronization2
        &&& self.acceleration_structure
        &&& self.ray_tracing_pipeline
        &&& self.memory_priority
        &&& self.pageable_device_local_memory
    }
}

/// The features asked of the device at its creation: all the renderer knows of.
pub open spec fn spec_required() -> Features {
    Features {
        sampler_anisotropy: true,
        shader_int64: true,
        storage_buffer16_bit_access: true,
        uniform_and_storage_buffer16_bit_access: true,
        buffer_device_address: true,
        descriptor_binding_partially_bound: true,
        descriptor_binding_variable_descriptor_count: true,
        descriptor_indexing: true,
        runtime_descriptor_array: true,
        scalar_block_layout: true,
        uniform_and_storage_buffer8_bit_access: true,
        vulkan_memory_model: true,
        dynamic_rendering: true,
        synchronization2: true,
        acceleration_structure: true,
        ray_tracing_pipeline: true,
        memory_priority: true,
        pageable_device_local_memory: true,
    }
}

/// Whether an adapter offers every feature it is held to, given the features
/// it reports.
pub fn supported_by(available: &Features) -> (supported: bool)
    ensures
        supported == available.suffice(),
{
    available.sampler_anisotropy
        && available.shader_int64
        // 1.1
        && available.storage_buffer16_bit_access
        && available.uniform_and_storage_buffer16_bit_access
        // 1.2
        && available.buffer_device_address
        && available.descriptor_binding_partially_bound
        && available.descriptor_binding_variable_descriptor_count
        && available.descriptor_indexing
        && available.runtime_descriptor_array
        && available.scalar_block_layout
        && available.uniform_and_storage_buffer8_bit_access
        && available.vulkan_memory_model
        // 1.3
        && available.dynamic_rendering
        && available.synchronization2
        // acceleration structure
        && available.acceleration_structure
        // ray tracing pipeline
        && available.ray_tracing_pipeline
        // memory priority
        && available.memory_priority
        // pageable device local memory
        && available.pageable_device_local_memory
}

/// The features asked of the device at its creation.
#[verifier::when_used_as_spec(spec_required)]
pub fn required() -> (features: Features)
    ensures
        features == spec_required(),
{
    Features {
        sampler_anisotropy: true,
        shader_int64: true,
        storage_buffer16_bit_access: true,
        uniform_and_storage_buffer16_bit_access: true,
        buffer_device_address: true,
        descriptor_binding_partially_bound: true,
        descriptor_binding_variable_descriptor_count: true,
        descriptor_indexing: true,
        runtime_descriptor_array: true,
        scalar_block_layout: true,
        uniform_and_storage_buffer8_bit_access: true,
        vulkan_memory_model: true,
        dynamic_rendering: true,
        synchronization2: true,
        acceleration_structure: true,
        ray_tracing_pipeline: true,
        memory_priority: true,
        pageable_device_local_memory: true,
    }
}

/// An adapter passes the feature gate exactly when it offers every feature
/// that is asked of the device at its creation; what is asked passes itself.
pub proof fn lemma_required_features_suffice(available: Features)
    ensures
        available.suffice() <==> available.cover(spec_required()),
        spec_required().suffice(),
{
}

} // verus!
