//! How shaders see their inputs: attribute formats, shader stages, descriptor kinds, the
//! layout of the vertex record, and the native codes of each.
use vstd::prelude::*;
use crate::vertex::VERTEX_SIZE;

verus! {

/// The format of a shader attribute.
#[allow(non_camel_case_types)]
#[derive(Clone, Copy, Debug, PartialEq, Eq, Structural)]
pub enum Format {
    UNDEFINED,
    R32_UINT,
    R32_SINT,
    R32_SFLOAT,
    R32G32_UINT,
    R32G32_SINT,
    R32G32_SFLOAT,
    R32G32B32_UINT,
    R32G32B32_SINT,
    R32G32B32_SFLOAT,
    R32G32B32A32_UINT,
    R32G32B32A32_SINT,
    R32G32B32A32_SFLOAT,
}

/// The native code of a format.
pub open spec fn format_code(format: Format) -> i32 {
    match format {
        Format::UNDEFINED => 0,
        Format::R32_UINT => 98,
        Format::R32_SINT => 99,
        Format::R32_SFLOAT => 100,
        Format::R32G32_UINT => 101,
        Format::R32G32_SINT => 102,
        Format::R32G32_SFLOAT => 103,
        Format::R32G32B32_UINT => 104,
        Format::R32G32B32_SINT => 105,
        Format::R32G32B32_SFLOAT => 106,
        Format::R32G32B32A32_UINT => 107,
        Format::R32G32B32A32_SINT => 108,
        Format::R32G32B32A32_SFLOAT => 109,
    }
}

/// The native code of `format`.
pub fn format_to_vulkan_format(format: &Format) -> (r: i32)
    ensures
        r == format_code(*format),
{
    match format {
        Format::UNDEFINED => 0,
        Format::R32_UINT => 98,
        Format::R32_SINT => 99,
        Format::R32_SFLOAT => 100,
        Format::R32G32_UINT => 101,
        Format::R32G32_SINT => 102,
        Format::R32G32_SFLOAT => 103,
        Format::R32G32B32_UINT => 104,
        Format::R32G32B32_SINT => 105,
        Format::R32G32B32_SFLOAT => 106,
        Format::R32G32B32A32_UINT => 107,
        Format::R32G32B32A32_SINT => 108,
        Format::R32G32B32A32_SFLOAT => 109,
    }
}

/// A programmable stage of the pipeline.
#[derive(Clone, Copy, Debug, PartialEq, Eq, Structural)]
pub enum ShaderStage {
    Vertex,
    Fragment,
    Compute,
    Geometry,
    TesselationControl,
    TesselationEvaluation,
}

/// The native stage flag of a stage.
pub open spec fn stage_flag(stage: ShaderStage) -> u32 {
    match stage {
        ShaderStage::Vertex => 1,
        ShaderStage::TesselationControl => 2,
        ShaderStage::TesselationEvaluation => 4,
        ShaderStage::Geometry => 8,
        ShaderStage::Fragment => 16,
        ShaderStage::Compute => 32,
    }
}

/// The native stage flag of `shader_stage`.
pub fn shader_stage_to_vulkan_shader_stage(shader_stage: &ShaderStage) -> (r: u32)
    ensures
        r == stage_flag(*shader_stage),
{
    match shader_stage {
        ShaderStage::Vertex => 1,
        ShaderStage::Fragment => 16,
        ShaderStage::Compute => 32,
        ShaderStage::Geometry => 8,
        ShaderStage::TesselationControl => 2,
        ShaderStage::TesselationEvaluation => 4,
    }
}

/// The kind of resource a descriptor binds.
#[derive(Clone, Copy, Debug, PartialEq, Eq, Structural)]
pub enum DescriptorType {
    Undefined,
    Sampler,
    CombinedImageSampler,
    SampledImage,
    StorageImage,
    UniformTexelBuffer,
    StorageTexelBuffer,
    UniformBuffer,
    StorageBuffer,
    UniformBufferDynamic,
    StorageBufferDynamic,
    InputAttachment,
    AccelerationStructureNV,
}

/// The native code of a descriptor kind; an undefined kind is bound as a uniform buffer.
pub open spec fn descriptor_code(descriptor_type: DescriptorType) -> i32 {
    match descriptor_type {
        DescriptorType::Undefined => 6,
        DescriptorType::Sampler => 0,
        DescriptorType::CombinedImageSampler => 1,
        DescriptorType::SampledImage => 2,
        DescriptorType::StorageImage => 3,
        DescriptorType::UniformTexelBuffer => 4,
        DescriptorType::StorageTexelBuffer => 5,
        DescriptorType::UniformBuffer => 6,
        DescriptorType::StorageBuffer => 7,
        DescriptorType::UniformBufferDynamic => 8,
        DescriptorType::StorageBufferDynamic => 9,
        DescriptorType::InputAttachment => 10,
        DescriptorType::AccelerationStructureNV => 1000165000,
    }
}

/// The native code of `descriptor_type`.
pub fn descriptor_type_to_vulkan_descriptor_type(descriptor_type: &DescriptorType) -> (r: i32)
    ensures
        r == descriptor_code(*descriptor_type),
{
    match descriptor_type {
        DescriptorType::Undefined => 6,
        DescriptorType::Sampler => 0,
        DescriptorType::CombinedImageSampler => 1,
        DescriptorType::SampledImage => 2,
        DescriptorType::StorageImage => 3,
        DescriptorType::UniformTexelBuffer => 4,
        DescriptorType::StorageTexelBuffer => 5,
        DescriptorType::UniformBuffer => 6,
        DescriptorType::StorageBuffer => 7,
        DescriptorType::UniformBufferDynamic => 8,
        DescriptorType::StorageBufferDynamic => 9,
        DescriptorType::InputAttachment => 10,
        DescriptorType::AccelerationStructureNV => 1000165000,
    }
}

/// A shader input or output variable.
#[derive(Clone, Copy, Debug, PartialEq, Eq, Structural)]
pub struct AttributeDescription {
    pub location_: u32,
    pub offset_: u32,
    pub format_: Format,
    pub present_: bool,
}

/// A push-constant block of a shader.
#[derive(Clone, Copy, Debug, PartialEq, Eq, Structural)]
pub struct PushConstantDescription {
    pub offset_: u32,
    pub size_: u32,
}

/// One binding of a descriptor set.
#[derive(Clone, Copy, Debug, PartialEq, Eq, Structural)]
pub struct DescriptorDescription {
    pub binding_: u32,
    pub descriptor_type_: DescriptorType,
    pub count_: u32,
    pub size_: u32,
    pub padded_size_: u32,
}

/// The bindings of one descriptor set.
pub struct DescriptorSetDescription {
    pub set_: u32,
    pub descriptors_: Vec<DescriptorDescription>,
}

/// The numeric shape of a shader variable: scalar width in bits, vector components, and
/// matrix columns, rows and stride.
#[derive(Clone, Copy, Debug, PartialEq, Eq, Structural)]
pub struct NumericTraits {
    pub scalar_width: u32,
    pub vector_component_count: u32,
    pub matrix_column_count: u32,
    pub matrix_row_count: u32,
    pub matrix_stride: u32,
}

/// Bytes taken by a variable of the given numeric shape: a matrix takes its stride times its
/// rows, a vector its scalar size times its components, a scalar its scalar size.
pub open spec fn numeric_size(t: NumericTraits) -> int {
    if t.matrix_column_count != 0 {
        t.matrix_stride * t.matrix_row_count
    } else if t.vector_component_count != 0 {
        (t.scalar_width / 8) * t.vector_component_count
    } else {
        (t.scalar_width / 8) as int
    }
}

/// Bytes taken by a variable of numeric shape `t`.
pub fn size_of_reflect_numeric_trait(t: &NumericTraits) -> (r: u32)
    requires
        numeric_size(*t) <= u32::MAX,
    ensures
        r == numeric_size(*t),
{
    let scalar_size = t.scalar_width / 8;
    if t.matrix_column_count != 0 {
        t.matrix_stride * t.matrix_row_count
    } else if t.vector_component_count != 0 {
        scalar_size * t.vector_component_count
    } else {
        scalar_size
    }
}

/// How vertices are fed to the vertex stage: one binding, advanced per vertex.
#[derive(Clone, Copy, Debug, PartialEq, Eq, Structural)]
pub struct VertexBinding {
    pub binding: u32,
    pub stride: u32,
    /// The native input rate: 0 for per-vertex.
    pub input_rate: i32,
}

/// One attribute of the vertex record.
#[derive(Clone, Copy, Debug, PartialEq, Eq, Structural)]
pub struct VertexAttribute {
    pub location: u32,
    pub binding: u32,
    pub format: Format,
    pub offset: u32,
}

/// The binding of the vertex record: binding 0, a stride of one vertex, per-vertex rate.
pub fn get_vertex_input_binding_description() -> (r: VertexBinding)
    ensures
        r == (VertexBinding { binding: 0, stride: VERTEX_SIZE as u32, input_rate: 0 }),
{
    VertexBinding { binding: 0, stride: VERTEX_SIZE as u32, input_rate: 0 }
}

/// The attributes of the vertex record, in location order: position, normal and color as
/// three floats each, then texture coordinates as two, packed one after the other.
pub fn get_vertex_attribute_descriptions() -> (r: Vec<VertexAttribute>)
    ensures
        r@ == seq![
            VertexAttribute { location: 0, binding: 0, format: Format::R32G32B32_SFLOAT, offset: 0 },
            VertexAttribute { location: 1, binding: 0, format: Format::R32G32B32_SFLOAT, offset: 12 },
            VertexAttribute { location: 2, binding: 0, format: Format::R32G32B32_SFLOAT, offset: 24 },
            VertexAttribute { location: 3, binding: 0, format: Format::R32G32_SFLOAT, offset: 36 },
        ],
{
    let r = vec![
        VertexAttribute { location: 0, binding: 0, format: Format::R32G32B32_SFLOAT, offset: 0 },
        VertexAttribute { location: 1, binding: 0, format: Format::R32G32B32_SFLOAT, offset: 12 },
        VertexAttribute { location: 2, binding: 0, format: Format::R32G32B32_SFLOAT, offset: 24 },
        VertexAttribute { location: 3, binding: 0, format: Format::R32G32_SFLOAT, offset: 36 },
    ];
    assert(r@ =~= seq![
        VertexAttribute { location: 0, binding: 0, format: Format::R32G32B32_SFLOAT, offset: 0 },
        VertexAttribute { location: 1, binding: 0, format: Format::R32G32B32_SFLOAT, offset: 12 },
        VertexAttribute { location: 2, binding: 0, format: Format::R32G32B32_SFLOAT, offset: 24 },
        VertexAttribute { location: 3, binding: 0, format: Format::R32G32_SFLOAT, offset: 36 },
    ]);
    r
}

/// One binding of the forward pipeline's descriptor set layout.
#[derive(Clone, Copy, Debug, PartialEq, Eq, Structural)]
pub struct LayoutBinding {
    pub binding: u32,
    pub descriptor_type: DescriptorType,
    pub descriptor_count: u32,
    pub stage: ShaderStage,
}

/// The layout of the forward pipeline: the instance transform for the vertex stage, then two
/// uniform buffers for the fragment stage.
pub fn build_descriptor_set_layout_bindings() -> (r: Vec<LayoutBinding>)
    ensures
        r@ == seq![
            LayoutBinding { binding: 0, descriptor_type: DescriptorType::UniformBuffer, descriptor_count: 1, stage: ShaderStage::Vertex },
            LayoutBinding { binding: 1, descriptor_type: DescriptorType::UniformBuffer, descriptor_count: 1, stage: ShaderStage::Fragment },
            LayoutBinding { binding: 2, descriptor_type: DescriptorType::UniformBuffer, descriptor_count: 1, stage: ShaderStage::Fragment },
        ],
{
    let r = vec![
        LayoutBinding { binding: 0, descriptor_type: DescriptorType::UniformBuffer, descriptor_count: 1, stage: ShaderStage::Vertex },
        LayoutBinding { binding: 1, descriptor_type: DescriptorType::UniformBuffer, descriptor_count: 1, stage: ShaderStage::Fragment },
        LayoutBinding { binding: 2, descriptor_type: DescriptorType::UniformBuffer, descriptor_count: 1, stage: ShaderStage::Fragment },
    ];
    assert(r@ =~= seq![
        LayoutBinding { binding: 0, descriptor_type: DescriptorType::UniformBuffer, descriptor_count: 1, stage: ShaderStage::Vertex },
        LayoutBinding { binding: 1, descriptor_type: DescriptorType::UniformBuffer, descriptor_count: 1, stage: ShaderStage::Fragment },
        LayoutBinding { binding: 2, descriptor_type: DescriptorType::UniformBuffer, descriptor_count: 1, stage: ShaderStage::Fragment },
    ]);
    r
}

/// A compiled shader: its SPIR-V bytes and its stage.
pub struct Shader {
    pub bytes_: Vec<u8>,
    pub stage_: ShaderStage,
}

impl Shader {
    /// The shader of stage `shader_stage` whose SPIR-V is `bytes`.
    pub fn from_bytes(bytes: Vec<u8>, shader_stage: ShaderStage) -> (r: Shader)
        ensures
            r.bytes_@ == bytes@,
            r.stage_ == shader_stage,
    {
        Shader { bytes_: bytes, stage_: shader_stage }
    }
}

/// What reflection reports of a shader's interface.
pub struct ShaderDescription {
    pub shader_: Shader,
    pub input_: Vec<AttributeDescription>,
    pub output_: Vec<AttributeDescription>,
    pub push_constants_: Vec<PushConstantDescription>,
    pub descriptor_sets_: Vec<DescriptorSetDescription>,
}

/// The shaders of one pipeline.
pub struct PipelineDescription {
    pub shaders_: Vec<ShaderDescription>,
}

/// A main pass and its subpasses.
pub struct RenderPassDescription {
    pub mainpass_: PipelineDescription,
    pub subpasses_: Vec<PipelineDescription>,
}

impl RenderPassDescription {
    /// The render pass made of `mainpass` and `subpasses`.
    pub fn from_pipelines(mainpass: PipelineDescription, subpasses: Vec<PipelineDescription>) -> (r:
        RenderPassDescription)
        ensures
            r.mainpass_.shaders_@ == mainpass.shaders_@,
            r.subpasses_@ == subpasses@,
    {
        RenderPassDescription { mainpass_: mainpass, subpasses_: subpasses }
    }
}

} // verus!
