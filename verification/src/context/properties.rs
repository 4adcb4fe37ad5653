//! The properties of the selected adapter that the renderer keeps.

use vstd::prelude::*;

verus! {

/// The cached properties of an adapter.
#[derive(Clone, Copy, Debug, PartialEq, Eq, Structural)]
pub struct Properties {
    pub core: CoreProperties,
    pub acceleration_structure: AccelerationStructureProperties,
    pub ray_tracing_pipeline: RayTracingPipelineProperties,
}

/// Of the core properties nothing is kept.
#[derive(Clone, Copy, Debug, PartialEq, Eq, Structural)]
pub struct CoreProperties;

#[derive(Clone, Copy, Debug, PartialEq, Eq, Structural)]
pub struct AccelerationStructureProperties {
    pub min_scratch_offset_alignment: u32,
}

#[derive(Clone, Copy, Debug, PartialEq, Eq, Structural)]
pub struct RayTracingPipelineProperties {
    pub shader_group: ShaderGroupProperties,
}

#[derive(Clone, Copy, Debug, PartialEq, Eq, Structural)]
pub struct ShaderGroupProperties {
    pub base_alignment: u32,
    pub handle_alignment: u32,
    pub handle_size: u32,
}

/// What the driver reports of acceleration structures, as far as it is kept.
#[derive(Clone, Copy, Debug, PartialEq, Eq, Structural)]
pub struct ReportedAccelerationStructure {
    pub min_acceleration_structure_scratch_offset_alignment: u32,
}

/// What the driver reports of ray-tracing pipelines, as far as it is kept.
#[derive(Clone, Copy, Debug, PartialEq, Eq, Structural)]
pub struct ReportedRayTracingPipeline {
    pub shader_group_base_alignment: u32,
    pub shader_group_handle_alignment: u32,
    pub shader_group_handle_size: u32,
}

impl Properties {
    /// The properties kept of what the driver reports of an adapter.
    pub fn get_supported(
        acceleration_structure: ReportedAccelerationStructure,
        ray_tracing_pipeline: ReportedRayTracingPipeline,
    ) -> (properties: Self)
        ensures
            properties == (Properties {
                core: CoreProperties,
                acceleration_structure: AccelerationStructureProperties {
                    min_scratch_offset_alignment:
                        acceleration_structure.min_acceleration_structure_scratch_offset_alignment,
                },
                ray_tracing_pipeline: RayTracingPipelineProperties {
                    shader_group: ShaderGroupProperties {
                        base_alignment: ray_tracing_pipeline.shader_group_base_alignment,
                        handle_alignment: ray_tracing_pipeline.shader_group_handle_alignment,
                        handle_size: ray_tracing_pipeline.shader_group_handle_size,
                    },
                },
            }),
    {
        Properties {
            core: CoreProperties,
            acceleration_structure: AccelerationStructureProperties::from(acceleration_structure),
            ray_tracing_pipeline: RayTracingPipelineProperties::from(ray_tracing_pipeline),
        }
    }
}

impl AccelerationStructureProperties {
    pub fn from(p: ReportedAccelerationStructure) -> (properties: Self)
        ensures
            properties.min_scratch_offset_alignment
                == p.min_acceleration_structure_scratch_offset_alignment,
    {
        AccelerationStructureProperties {
            min_scratch_offset_alignment: p.min_acceleration_structure_scratch_offset_alignment,
        }
    }
}

impl RayTracingPipelineProperties {
    pub fn from(p: ReportedRayTracingPipeline) -> (properties: Self)
        ensures
            properties.shader_group == (ShaderGroupProperties {
                base_alignment: p.shader_group_base_alignment,
                handle_alignment: p.shader_group_handle_alignment,
                handle_size: p.shader_group_handle_size,
            }),
    {
        RayTracingPipelineProperties { shader_group: ShaderGroupProperties::from(p) }
    }
}

impl ShaderGroupProperties {
    pub fn from(p: ReportedRayTracingPipeline) -> (properties: Self)
        ensures
            properties == (ShaderGroupProperties {
                base_alignment: p.shader_group_base_alignment,
                handle_alignment: p.shader_group_handle_alignment,
                handle_size: p.shader_group_handle_size,
            }),
    {
        ShaderGroupProperties {
            base_alignment: p.shader_group_base_alignment,
            handle_alignment: p.shader_group_handle_alignment,
            handle_size: p.shader_group_handle_size,
        }
    }
}

} // verus!
