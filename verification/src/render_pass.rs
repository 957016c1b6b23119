//! The declarative pass/pipeline catalog: for every named render pass its
//! attachments, load/store operations, layout transitions, subpass
//! dependencies, and the pipelines within it with their fixed-function state
//! and descriptor-binding layout.  `declare_passes` is pure data — building
//! the GPU objects from it is a separate step, which validates the catalog
//! and rejects binding-index collisions instead of silently overwriting.

use vstd::prelude::*;
use crate::render_target::RenderTargetType;
use crate::shader_buffer::ShaderBufferDataType;
use crate::vk_types::{
    AccessMask, AttachmentLoadOp, AttachmentStoreOp, BlendMode, BlendState, CullMode, Format,
    FrontFace, ImageLayout, PipelineStage, PolygonMode, RenderObjectType, SampleCount,
    ShaderStageVisibility, spec_color_blend_mode, get_color_blend_mode,
};

verus! {

/// Name of one render pass of the fixed per-frame sequence.
#[derive(Clone, Copy, Debug, PartialEq, Eq, Structural, Hash)]
pub enum RenderPassName {
    RenderPassStaticShadow,
    RenderPassSkeletalShadow,
    RenderPassStaticOpaque,
    RenderPassSkeletalOpaque,
    RenderSsao,
    CompositeGBuffer,
    RenderMotionBlur,
    RenderFinal,
    RenderDebug,
}

/// Name of one pipeline within a render pass.
#[derive(Clone, Copy, Debug, PartialEq, Eq, Structural, Hash)]
pub enum PipelineName {
    RenderObject,
    RenderSsao,
    CompositeGBuffer,
    RenderMotionBlur,
    RenderFinal,
    RenderDebug,
}

/// A (render pass, pipeline) pair, the key under which built pipeline state
/// is looked up.
#[derive(Clone, Copy, Debug, PartialEq, Eq, Structural, Hash)]
pub struct RenderPassPipelineDataName {
    pub _render_pass_data_name: RenderPassName,
    pub _pipeline_data_name: PipelineName,
}

/// Shader source a pipeline stage is compiled from.
#[derive(Clone, Copy, Debug, PartialEq, Eq, Structural)]
pub enum ShaderFile {
    RenderQuadVert,
    RenderObjectVert,
    RenderObjectFrag,
    RenderSsaoFrag,
    CompositeGBufferFrag,
    RenderMotionBlurFrag,
    RenderFinalFrag,
    RenderDebugFrag,
}

/// Loaded texture assets a binding may name, besides render targets and
/// shader buffers.
#[derive(Clone, Copy, Debug, PartialEq, Eq, Structural)]
pub enum TextureName {
    SsaoNoise,
    TextureBase,
    TextureMaterial,
    TextureNormal,
}

/// Kind of resource bound at a descriptor binding.
#[derive(Clone, Copy, Debug, PartialEq, Eq, Structural)]
pub enum DescriptorResourceType {
    UniformBuffer,
    StorageBuffer,
    Texture,
    RenderTarget,
}

/// Logical resource a descriptor binding names.
#[derive(Clone, Copy, Debug, PartialEq, Eq, Structural)]
pub enum DescriptorResourceName {
    ShaderBuffer(ShaderBufferDataType),
    RenderTarget(RenderTargetType),
    Texture(TextureName),
}

/// Declaration of one descriptor binding: its index in the set, the logical
/// resource bound there, the resource kind, and the shader stages that see
/// it.
#[derive(Clone, Copy, Debug, PartialEq, Eq, Structural)]
pub struct DescriptorDataCreateInfo {
    pub _descriptor_binding_index: u32,
    pub _descriptor_name: DescriptorResourceName,
    pub _descriptor_resource_type: DescriptorResourceType,
    pub _descriptor_shader_stage: ShaderStageVisibility,
}

/// Declaration of one attachment: format, sample count, what happens to its
/// contents at pass begin and end, and the layouts it moves through.
#[derive(Clone, Copy, Debug, PartialEq, Eq, Structural)]
pub struct ImageAttachmentDescription {
    pub _attachment_image_format: Format,
    pub _attachment_image_samples: SampleCount,
    pub _attachment_load_operation: AttachmentLoadOp,
    pub _attachment_store_operation: AttachmentStoreOp,
    pub _attachment_initial_layout: ImageLayout,
    pub _attachment_final_layout: ImageLayout,
    pub _attachment_reference_layout: ImageLayout,
}

/// One end of a subpass dependency: outside the pass, or its single subpass.
#[derive(Clone, Copy, Debug, PartialEq, Eq, Structural)]
pub enum SubpassRef {
    External,
    Index0,
}

/// An execution/memory dependency between work outside the pass and its
/// subpass; `_by_region` limits it to the pixel being rendered.
#[derive(Clone, Copy, Debug, PartialEq, Eq, Structural)]
pub struct SubpassDependency {
    pub _src_subpass: SubpassRef,
    pub _dst_subpass: SubpassRef,
    pub _src_stage_mask: PipelineStage,
    pub _dst_stage_mask: PipelineStage,
    pub _src_access_mask: AccessMask,
    pub _dst_access_mask: AccessMask,
    pub _by_region: bool,
}

/// Depth test/write flags of a pipeline.
#[derive(Clone, Copy, Debug, PartialEq, Eq, Structural)]
pub struct DepthStencilStateCreateInfo {
    pub _depth_test_enable: bool,
    pub _depth_write_enable: bool,
}

/// Declaration of one pipeline: shader stages, dynamic-state flags,
/// rasterization and blend state, depth/stencil flags, push-constant size in
/// bytes (zero when none), and the ordered descriptor-binding layout.
#[derive(Clone, Debug, PartialEq)]
pub struct PipelineDataCreateInfo {
    pub _pipeline_data_create_info_name: PipelineName,
    pub _pipeline_vertex_shader_file: ShaderFile,
    pub _pipeline_fragment_shader_file: ShaderFile,
    pub _pipeline_dynamic_viewport: bool,
    pub _pipeline_dynamic_scissor: bool,
    pub _pipeline_sample_count: SampleCount,
    pub _pipeline_polygon_mode: PolygonMode,
    pub _pipeline_cull_mode: CullMode,
    pub _pipeline_front_face: FrontFace,
    pub _pipeline_color_blend_modes: Vec<BlendState>,
    pub _depth_stencil_state_create_info: DepthStencilStateCreateInfo,
    pub _push_constant_range_size: u32,
    pub _descriptor_data_create_infos: Vec<DescriptorDataCreateInfo>,
}

/// Mathematical model of a pipeline declaration.
#[verifier::ext_equal]
pub struct PipelineDeclaration {
    pub name: PipelineName,
    pub vertex_shader: ShaderFile,
    pub fragment_shader: ShaderFile,
    pub dynamic_viewport: bool,
    pub dynamic_scissor: bool,
    pub sample_count: SampleCount,
    pub polygon_mode: PolygonMode,
    pub cull_mode: CullMode,
    pub front_face: FrontFace,
    pub color_blend_modes: Seq<BlendState>,
    pub depth_stencil_state: DepthStencilStateCreateInfo,
    pub push_constant_range_size: u32,
    pub bindings: Seq<DescriptorDataCreateInfo>,
}

impl View for PipelineDataCreateInfo {
    type V = PipelineDeclaration;

    open spec fn view(&self) -> PipelineDeclaration {
        PipelineDeclaration {
            name: self._pipeline_data_create_info_name,
            vertex_shader: self._pipeline_vertex_shader_file,
            fragment_shader: self._pipeline_fragment_shader_file,
            dynamic_viewport: self._pipeline_dynamic_viewport,
            dynamic_scissor: self._pipeline_dynamic_scissor,
            sample_count: self._pipeline_sample_count,
            polygon_mode: self._pipeline_polygon_mode,
            cull_mode: self._pipeline_cull_mode,
            front_face: self._pipeline_front_face,
            color_blend_modes: self._pipeline_color_blend_modes@,
            depth_stencil_state: self._depth_stencil_state_create_info,
            push_constant_range_size: self._push_constant_range_size,
            bindings: self._descriptor_data_create_infos@,
        }
    }
}

/// Declaration of one render pass: its attachments, the barriers at its
/// boundary, and its pipelines.
#[derive(Clone, Debug, PartialEq)]
pub struct RenderPassDataCreateInfo {
    pub _render_pass_create_info_name: RenderPassName,
    pub _color_attachment_descriptions: Vec<ImageAttachmentDescription>,
    pub _depth_attachment_descriptions: Vec<ImageAttachmentDescription>,
    pub _resolve_attachment_descriptions: Vec<ImageAttachmentDescription>,
    pub _subpass_dependencies: Vec<SubpassDependency>,
    pub _pipeline_data_create_infos: Vec<PipelineDataCreateInfo>,
}

/// Mathematical model of a render-pass declaration.
#[verifier::ext_equal]
pub struct PassDeclaration {
    pub name: RenderPassName,
    pub color_attachments: Seq<ImageAttachmentDescription>,
    pub depth_attachments: Seq<ImageAttachmentDescription>,
    pub resolve_attachments: Seq<ImageAttachmentDescription>,
    pub subpass_dependencies: Seq<SubpassDependency>,
    pub pipelines: Seq<PipelineDeclaration>,
}

impl View for RenderPassDataCreateInfo {
    type V = PassDeclaration;

    open spec fn view(&self) -> PassDeclaration {
        PassDeclaration {
            name: self._render_pass_create_info_name,
            color_attachments: self._color_attachment_descriptions@,
            depth_attachments: self._depth_attachment_descriptions@,
            resolve_attachments: self._resolve_attachment_descriptions@,
            subpass_dependencies: self._subpass_dependencies@,
            pipelines: self._pipeline_data_create_infos@.map_values(
                |p: PipelineDataCreateInfo| p@,
            ),
        }
    }
}

// ---------------------------------------------------------------------------
// Small constructors shared by the catalog entries.
// ---------------------------------------------------------------------------
/// A color attachment description with the given operations and layouts.
pub open spec fn spec_attachment(
    format: Format,
    load: AttachmentLoadOp,
    store: AttachmentStoreOp,
    initial_layout: ImageLayout,
    final_layout: ImageLayout,
    reference_layout: ImageLayout,
) -> ImageAttachmentDescription {
    ImageAttachmentDescription {
        _attachment_image_format: format,
        _attachment_image_samples: SampleCount::Type1,
        _attachment_load_operation: load,
        _attachment_store_operation: store,
        _attachment_initial_layout: initial_layout,
        _attachment_final_layout: final_layout,
        _attachment_reference_layout: reference_layout,
    }
}

fn attachment(
    format: Format,
    load: AttachmentLoadOp,
    store: AttachmentStoreOp,
    initial_layout: ImageLayout,
    final_layout: ImageLayout,
    reference_layout: ImageLayout,
) -> (r: ImageAttachmentDescription)
    ensures
        r == spec_attachment(format, load, store, initial_layout, final_layout, reference_layout),
{
    ImageAttachmentDescription {
        _attachment_image_format: format,
        _attachment_image_samples: SampleCount::Type1,
        _attachment_load_operation: load,
        _attachment_store_operation: store,
        _attachment_initial_layout: initial_layout,
        _attachment_final_layout: final_layout,
        _attachment_reference_layout: reference_layout,
    }
}

/// The external-to-subpass dependency a pass whose attachments were written
/// by the previous pass declares: color-output stage to color-output stage,
/// by region.
pub open spec fn spec_color_output_dependency() -> SubpassDependency {
    SubpassDependency {
        _src_subpass: SubpassRef::External,
        _dst_subpass: SubpassRef::Index0,
        _src_stage_mask: PipelineStage::ColorAttachmentOutput,
        _dst_stage_mask: PipelineStage::ColorAttachmentOutput,
        _src_access_mask: AccessMask::Empty,
        _dst_access_mask: AccessMask::ColorAttachmentReadWrite,
        _by_region: true,
    }
}

fn color_output_dependency() -> (r: SubpassDependency)
    ensures
        r == spec_color_output_dependency(),
{
    SubpassDependency {
        _src_subpass: SubpassRef::External,
        _dst_subpass: SubpassRef::Index0,
        _src_stage_mask: PipelineStage::ColorAttachmentOutput,
        _dst_stage_mask: PipelineStage::ColorAttachmentOutput,
        _src_access_mask: AccessMask::Empty,
        _dst_access_mask: AccessMask::ColorAttachmentReadWrite,
        _by_region: true,
    }
}

/// The depth-equivalent boundary dependency of a depth-only pass.
pub open spec fn spec_depth_output_dependency() -> SubpassDependency {
    SubpassDependency {
        _src_subpass: SubpassRef::External,
        _dst_subpass: SubpassRef::Index0,
        _src_stage_mask: PipelineStage::EarlyFragmentTests,
        _dst_stage_mask: PipelineStage::EarlyFragmentTests,
        _src_access_mask: AccessMask::Empty,
        _dst_access_mask: AccessMask::DepthStencilAttachmentReadWrite,
        _by_region: true,
    }
}

fn depth_output_dependency() -> (r: SubpassDependency)
    ensures
        r == spec_depth_output_dependency(),
{
    SubpassDependency {
        _src_subpass: SubpassRef::External,
        _dst_subpass: SubpassRef::Index0,
        _src_stage_mask: PipelineStage::EarlyFragmentTests,
        _dst_stage_mask: PipelineStage::EarlyFragmentTests,
        _src_access_mask: AccessMask::Empty,
        _dst_access_mask: AccessMask::DepthStencilAttachmentReadWrite,
        _by_region: true,
    }
}

/// A descriptor-binding declaration.
pub open spec fn spec_binding(
    index: u32,
    name: DescriptorResourceName,
    resource_type: DescriptorResourceType,
    stages: ShaderStageVisibility,
) -> DescriptorDataCreateInfo {
    DescriptorDataCreateInfo {
        _descriptor_binding_index: index,
        _descriptor_name: name,
        _descriptor_resource_type: resource_type,
        _descriptor_shader_stage: stages,
    }
}

fn binding(
    index: u32,
    name: DescriptorResourceName,
    resource_type: DescriptorResourceType,
    stages: ShaderStageVisibility,
) -> (r: DescriptorDataCreateInfo)
    ensures
        r == spec_binding(index, name, resource_type, stages),
{
    DescriptorDataCreateInfo {
        _descriptor_binding_index: index,
        _descriptor_name: name,
        _descriptor_resource_type: resource_type,
        _descriptor_shader_stage: stages,
    }
}

/// A uniform-buffer binding visible to vertex and fragment stages.
pub open spec fn spec_uniform_binding(index: u32, buffer: ShaderBufferDataType)
    -> DescriptorDataCreateInfo {
    spec_binding(
        index,
        DescriptorResourceName::ShaderBuffer(buffer),
        DescriptorResourceType::UniformBuffer,
        ShaderStageVisibility::VertexAndFragment,
    )
}

fn uniform_binding(index: u32, buffer: ShaderBufferDataType) -> (r: DescriptorDataCreateInfo)
    ensures
        r == spec_uniform_binding(index, buffer),
{
    binding(
        index,
        DescriptorResourceName::ShaderBuffer(buffer),
        DescriptorResourceType::UniformBuffer,
        ShaderStageVisibility::VertexAndFragment,
    )
}

/// A sampled render-target binding visible to the fragment stage.
pub open spec fn spec_target_binding(index: u32, target: RenderTargetType)
    -> DescriptorDataCreateInfo {
    spec_binding(
        index,
        DescriptorResourceName::RenderTarget(target),
        DescriptorResourceType::RenderTarget,
        ShaderStageVisibility::Fragment,
    )
}

fn target_binding(index: u32, target: RenderTargetType) -> (r: DescriptorDataCreateInfo)
    ensures
        r == spec_target_binding(index, target),
{
    binding(
        index,
        DescriptorResourceName::RenderTarget(target),
        DescriptorResourceType::RenderTarget,
        ShaderStageVisibility::Fragment,
    )
}


// ---------------------------------------------------------------------------
// The catalog.
// ---------------------------------------------------------------------------
/// The shadow pass of one skinning class: a depth-only pass that clears the
/// shadow map and renders every caster of that class into it.
pub open spec fn spec_shadow_pipeline(t: RenderObjectType) -> PipelineDeclaration {
    PipelineDeclaration {
        name: PipelineName::RenderObject,
        vertex_shader: ShaderFile::RenderObjectVert,
        fragment_shader: ShaderFile::RenderObjectFrag,
        dynamic_viewport: true,
        dynamic_scissor: true,
        sample_count: SampleCount::Type1,
        polygon_mode: PolygonMode::Fill,
        cull_mode: CullMode::Back,
        front_face: FrontFace::Clockwise,
        color_blend_modes: Seq::empty(),
        depth_stencil_state: DepthStencilStateCreateInfo {
            _depth_test_enable: true,
            _depth_write_enable: true,
        },
        push_constant_range_size: if t == RenderObjectType::Skeletal {
            80
        } else {
            64
        },
        bindings: if t == RenderObjectType::Skeletal {
            seq![
                spec_uniform_binding(0, ShaderBufferDataType::SceneConstants),
                spec_uniform_binding(1, ShaderBufferDataType::ViewConstants),
                spec_uniform_binding(2, ShaderBufferDataType::LightConstants),
                spec_binding(
                    3,
                    DescriptorResourceName::ShaderBuffer(ShaderBufferDataType::BoneMatrices),
                    DescriptorResourceType::StorageBuffer,
                    ShaderStageVisibility::Vertex,
                ),
            ]
        } else {
            seq![
                spec_uniform_binding(0, ShaderBufferDataType::SceneConstants),
                spec_uniform_binding(1, ShaderBufferDataType::ViewConstants),
                spec_uniform_binding(2, ShaderBufferDataType::LightConstants),
            ]
        },
    }
}

pub open spec fn spec_shadow_pass(t: RenderObjectType) -> PassDeclaration {
    PassDeclaration {
        name: if t == RenderObjectType::Skeletal {
            RenderPassName::RenderPassSkeletalShadow
        } else {
            RenderPassName::RenderPassStaticShadow
        },
        color_attachments: Seq::empty(),
        depth_attachments: seq![
            spec_attachment(
                Format::D32_SFLOAT,
                AttachmentLoadOp::Clear,
                AttachmentStoreOp::Store,
                ImageLayout::Undefined,
                ImageLayout::General,
                ImageLayout::DepthStencilAttachmentOptimal,
            ),
        ],
        resolve_attachments: Seq::empty(),
        subpass_dependencies: seq![spec_depth_output_dependency()],
        pipelines: seq![spec_shadow_pipeline(t)],
    }
}

/// The opaque g-buffer pass of one skinning class: clears and fills albedo,
/// material, normal and velocity plus the scene depth.
pub open spec fn spec_opaque_pipeline(t: RenderObjectType) -> PipelineDeclaration {
    PipelineDeclaration {
        name: PipelineName::RenderObject,
        vertex_shader: ShaderFile::RenderObjectVert,
        fragment_shader: ShaderFile::RenderObjectFrag,
        dynamic_viewport: true,
        dynamic_scissor: true,
        sample_count: SampleCount::Type1,
        polygon_mode: PolygonMode::Fill,
        cull_mode: CullMode::Back,
        front_face: FrontFace::Clockwise,
        color_blend_modes: seq![
            spec_color_blend_mode(BlendMode::NoBlend),
            spec_color_blend_mode(BlendMode::NoBlend),
            spec_color_blend_mode(BlendMode::NoBlend),
            spec_color_blend_mode(BlendMode::NoBlend),
        ],
        depth_stencil_state: DepthStencilStateCreateInfo {
            _depth_test_enable: true,
            _depth_write_enable: true,
        },
        push_constant_range_size: if t == RenderObjectType::Skeletal {
            80
        } else {
            64
        },
        bindings: if t == RenderObjectType::Skeletal {
            seq![
                spec_uniform_binding(0, ShaderBufferDataType::SceneConstants),
                spec_uniform_binding(1, ShaderBufferDataType::ViewConstants),
                spec_uniform_binding(2, ShaderBufferDataType::LightConstants),
                spec_binding(
                    3,
                    DescriptorResourceName::Texture(TextureName::TextureBase),
                    DescriptorResourceType::Texture,
                    ShaderStageVisibility::Fragment,
                ),
                spec_binding(
                    4,
                    DescriptorResourceName::Texture(TextureName::TextureMaterial),
                    DescriptorResourceType::Texture,
                    ShaderStageVisibility::Fragment,
                ),
                spec_binding(
                    5,
                    DescriptorResourceName::Texture(TextureName::TextureNormal),
                    DescriptorResourceType::Texture,
                    ShaderStageVisibility::Fragment,
                ),
                spec_binding(
                    6,
                    DescriptorResourceName::ShaderBuffer(ShaderBufferDataType::BoneMatrices),
                    DescriptorResourceType::StorageBuffer,
                    ShaderStageVisibility::Vertex,
                ),
            ]
        } else {
            seq![
                spec_uniform_binding(0, ShaderBufferDataType::SceneConstants),
                spec_uniform_binding(1, ShaderBufferDataType::ViewConstants),
                spec_uniform_binding(2, ShaderBufferDataType::LightConstants),
                spec_binding(
                    3,
                    DescriptorResourceName::Texture(TextureName::TextureBase),
                    DescriptorResourceType::Texture,
                    ShaderStageVisibility::Fragment,
                ),
                spec_binding(
                    4,
                    DescriptorResourceName::Texture(TextureName::TextureMaterial),
                    DescriptorResourceType::Texture,
                    ShaderStageVisibility::Fragment,
                ),
                spec_binding(
                    5,
                    DescriptorResourceName::Texture(TextureName::TextureNormal),
                    DescriptorResourceType::Texture,
                    ShaderStageVisibility::Fragment,
                ),
            ]
        },
    }
}

pub open spec fn spec_opaque_pass(t: RenderObjectType) -> PassDeclaration {
    PassDeclaration {
        name: if t == RenderObjectType::Skeletal {
            RenderPassName::RenderPassSkeletalOpaque
        } else {
            RenderPassName::RenderPassStaticOpaque
        },
        color_attachments: seq![
            spec_attachment(
                Format::R8G8B8A8_UNORM,
                AttachmentLoadOp::Clear,
                AttachmentStoreOp::Store,
                ImageLayout::Undefined,
                ImageLayout::General,
                ImageLayout::ColorAttachmentOptimal,
            ),
            spec_attachment(
                Format::R8G8B8A8_UNORM,
                AttachmentLoadOp::Clear,
                AttachmentStoreOp::Store,
                ImageLayout::Undefined,
                ImageLayout::General,
                ImageLayout::ColorAttachmentOptimal,
            ),
            spec_attachment(
                Format::R8G8B8A8_UNORM,
                AttachmentLoadOp::Clear,
                AttachmentStoreOp::Store,
                ImageLayout::Undefined,
                ImageLayout::General,
                ImageLayout::ColorAttachmentOptimal,
            ),
            spec_attachment(
                Format::R16G16_SFLOAT,
                AttachmentLoadOp::Clear,
                AttachmentStoreOp::Store,
                ImageLayout::Undefined,
                ImageLayout::General,
                ImageLayout::ColorAttachmentOptimal,
            ),
        ],
        depth_attachments: seq![
            spec_attachment(
                Format::D32_SFLOAT,
                AttachmentLoadOp::Clear,
                AttachmentStoreOp::Store,
                ImageLayout::Undefined,
                ImageLayout::General,
                ImageLayout::DepthStencilAttachmentOptimal,
            ),
        ],
        resolve_attachments: Seq::empty(),
        subpass_dependencies: seq![
            spec_color_output_dependency(),
            spec_depth_output_dependency(),
        ],
        pipelines: seq![spec_opaque_pipeline(t)],
    }
}

/// The ambient-occlusion pass: clears and fills the half-resolution SSAO
/// target from scene normal, scene depth and the noise texture.
pub open spec fn spec_ssao_pipeline() -> PipelineDeclaration {
    PipelineDeclaration {
        name: PipelineName::RenderSsao,
        vertex_shader: ShaderFile::RenderQuadVert,
        fragment_shader: ShaderFile::RenderSsaoFrag,
        dynamic_viewport: true,
        dynamic_scissor: true,
        sample_count: SampleCount::Type1,
        polygon_mode: PolygonMode::Fill,
        cull_mode: CullMode::NoCull,
        front_face: FrontFace::Clockwise,
        color_blend_modes: seq![spec_color_blend_mode(BlendMode::NoBlend)],
        depth_stencil_state: DepthStencilStateCreateInfo {
            _depth_test_enable: true,
            _depth_write_enable: false,
        },
        push_constant_range_size: 0,
        bindings: seq![
            spec_uniform_binding(0, ShaderBufferDataType::SceneConstants),
            spec_uniform_binding(1, ShaderBufferDataType::ViewConstants),
            spec_uniform_binding(2, ShaderBufferDataType::LightConstants),
            spec_target_binding(3, RenderTargetType::SceneNormal),
            spec_target_binding(4, RenderTargetType::SceneDepth),
            spec_binding(
                5,
                DescriptorResourceName::Texture(TextureName::SsaoNoise),
                DescriptorResourceType::Texture,
                ShaderStageVisibility::Fragment,
            ),
            spec_uniform_binding(6, ShaderBufferDataType::SSAOConstants),
        ],
    }
}

pub open spec fn spec_ssao_pass() -> PassDeclaration {
    PassDeclaration {
        name: RenderPassName::RenderSsao,
        color_attachments: seq![
            spec_attachment(
                Format::R16_SFLOAT,
                AttachmentLoadOp::Clear,
                AttachmentStoreOp::Store,
                ImageLayout::Undefined,
                ImageLayout::General,
                ImageLayout::ColorAttachmentOptimal,
            ),
        ],
        depth_attachments: Seq::empty(),
        resolve_attachments: Seq::empty(),
        subpass_dependencies: seq![spec_color_output_dependency()],
        pipelines: seq![spec_ssao_pipeline()],
    }
}

/// The lighting composition pass: reads every g-buffer plane, the occlusion
/// and shadow results and the resolved reflection of the previous frame, and
/// fully overwrites the scene color.
pub open spec fn spec_composite_gbuffer_pipeline() -> PipelineDeclaration {
    PipelineDeclaration {
        name: PipelineName::CompositeGBuffer,
        vertex_shader: ShaderFile::RenderQuadVert,
        fragment_shader: ShaderFile::CompositeGBufferFrag,
        dynamic_viewport: true,
        dynamic_scissor: true,
        sample_count: SampleCount::Type1,
        polygon_mode: PolygonMode::Fill,
        cull_mode: CullMode::NoCull,
        front_face: FrontFace::Clockwise,
        color_blend_modes: seq![spec_color_blend_mode(BlendMode::NoBlend)],
        depth_stencil_state: DepthStencilStateCreateInfo {
            _depth_test_enable: true,
            _depth_write_enable: false,
        },
        push_constant_range_size: 0,
        bindings: seq![
            spec_uniform_binding(0, ShaderBufferDataType::SceneConstants),
            spec_uniform_binding(1, ShaderBufferDataType::ViewConstants),
            spec_uniform_binding(2, ShaderBufferDataType::LightConstants),
            spec_target_binding(3, RenderTargetType::SceneAlbedo),
            spec_target_binding(4, RenderTargetType::SceneMaterial),
            spec_target_binding(5, RenderTargetType::SceneNormal),
            spec_target_binding(6, RenderTargetType::SceneVelocity),
            spec_target_binding(7, RenderTargetType::SceneDepth),
            spec_target_binding(8, RenderTargetType::SSAO),
            spec_target_binding(9, RenderTargetType::Shadow),
            spec_target_binding(10, RenderTargetType::LightShaft),
            spec_target_binding(11, RenderTargetType::SSRResolved),
        ],
    }
}

pub open spec fn spec_composite_gbuffer_pass() -> PassDeclaration {
    PassDeclaration {
        name: RenderPassName::CompositeGBuffer,
        color_attachments: seq![
            spec_attachment(
                Format::R16G16B16A16_SFLOAT,
                AttachmentLoadOp::DontCare,
                AttachmentStoreOp::Store,
                ImageLayout::Undefined,
                ImageLayout::General,
                ImageLayout::ColorAttachmentOptimal,
            ),
        ],
        depth_attachments: Seq::empty(),
        resolve_attachments: Seq::empty(),
        subpass_dependencies: seq![spec_color_output_dependency()],
        pipelines: seq![spec_composite_gbuffer_pipeline()],
    }
}

/// The motion-blur pass: reads scene color and velocity and fully
/// overwrites the scene-color copy.
pub open spec fn spec_motion_blur_pipeline() -> PipelineDeclaration {
    PipelineDeclaration {
        name: PipelineName::RenderMotionBlur,
        vertex_shader: ShaderFile::RenderQuadVert,
        fragment_shader: ShaderFile::RenderMotionBlurFrag,
        dynamic_viewport: true,
        dynamic_scissor: true,
        sample_count: SampleCount::Type1,
        polygon_mode: PolygonMode::Fill,
        cull_mode: CullMode::NoCull,
        front_face: FrontFace::Clockwise,
        color_blend_modes: seq![spec_color_blend_mode(BlendMode::NoBlend)],
        depth_stencil_state: DepthStencilStateCreateInfo {
            _depth_test_enable: true,
            _depth_write_enable: false,
        },
        push_constant_range_size: 0,
        bindings: seq![
            spec_uniform_binding(0, ShaderBufferDataType::SceneConstants),
            spec_uniform_binding(1, ShaderBufferDataType::ViewConstants),
            spec_target_binding(2, RenderTargetType::SceneColor),
            spec_target_binding(3, RenderTargetType::SceneVelocity),
        ],
    }
}

pub open spec fn spec_motion_blur_pass() -> PassDeclaration {
    PassDeclaration {
        name: RenderPassName::RenderMotionBlur,
        color_attachments: seq![
            spec_attachment(
                Format::R16G16B16A16_SFLOAT,
                AttachmentLoadOp::DontCare,
                AttachmentStoreOp::Store,
                ImageLayout::Undefined,
                ImageLayout::General,
                ImageLayout::ColorAttachmentOptimal,
            ),
        ],
        depth_attachments: Seq::empty(),
        resolve_attachments: Seq::empty(),
        subpass_dependencies: seq![spec_color_output_dependency()],
        pipelines: seq![spec_motion_blur_pipeline()],
    }
}

/// The final composition pass: fully overwrites the back buffer, which is
/// handed to presentation afterwards.
pub open spec fn spec_final_pipeline() -> PipelineDeclaration {
    PipelineDeclaration {
        name: PipelineName::RenderFinal,
        vertex_shader: ShaderFile::RenderQuadVert,
        fragment_shader: ShaderFile::RenderFinalFrag,
        dynamic_viewport: true,
        dynamic_scissor: true,
        sample_count: SampleCount::Type1,
        polygon_mode: PolygonMode::Fill,
        cull_mode: CullMode::NoCull,
        front_face: FrontFace::Clockwise,
        color_blend_modes: seq![spec_color_blend_mode(BlendMode::NoBlend)],
        depth_stencil_state: DepthStencilStateCreateInfo {
            _depth_test_enable: true,
            _depth_write_enable: false,
        },
        push_constant_range_size: 0,
        bindings: seq![
            spec_uniform_binding(0, ShaderBufferDataType::SceneConstants),
            spec_uniform_binding(1, ShaderBufferDataType::ViewConstants),
            spec_target_binding(2, RenderTargetType::SceneColorCopy),
        ],
    }
}

pub open spec fn spec_final_pass() -> PassDeclaration {
    PassDeclaration {
        name: RenderPassName::RenderFinal,
        color_attachments: seq![
            spec_attachment(
                Format::R8G8B8A8_UNORM,
                AttachmentLoadOp::DontCare,
                AttachmentStoreOp::Store,
                ImageLayout::Undefined,
                ImageLayout::PresentSrc,
                ImageLayout::ColorAttachmentOptimal,
            ),
        ],
        depth_attachments: Seq::empty(),
        resolve_attachments: Seq::empty(),
        subpass_dependencies: seq![spec_color_output_dependency()],
        pipelines: seq![spec_final_pipeline()],
    }
}

/// The diagnostic overlay pass: draws whichever render target is selected
/// over the already-composited back buffer; its single binding is the slot
/// the overlay retargets each frame.
pub open spec fn spec_debug_pipeline() -> PipelineDeclaration {
    PipelineDeclaration {
        name: PipelineName::RenderDebug,
        vertex_shader: ShaderFile::RenderQuadVert,
        fragment_shader: ShaderFile::RenderDebugFrag,
        dynamic_viewport: true,
        dynamic_scissor: true,
        sample_count: SampleCount::Type1,
        polygon_mode: PolygonMode::Fill,
        cull_mode: CullMode::NoCull,
        front_face: FrontFace::Clockwise,
        color_blend_modes: seq![spec_color_blend_mode(BlendMode::NoBlend)],
        depth_stencil_state: DepthStencilStateCreateInfo {
            _depth_test_enable: true,
            _depth_write_enable: false,
        },
        push_constant_range_size: 0,
        bindings: seq![spec_target_binding(0, RenderTargetType::SceneColor)],
    }
}

pub open spec fn spec_debug_pass() -> PassDeclaration {
    PassDeclaration {
        name: RenderPassName::RenderDebug,
        color_attachments: seq![
            spec_attachment(
                Format::R8G8B8A8_UNORM,
                AttachmentLoadOp::Load,
                AttachmentStoreOp::Store,
                ImageLayout::PresentSrc,
                ImageLayout::PresentSrc,
                ImageLayout::ColorAttachmentOptimal,
            ),
        ],
        depth_attachments: Seq::empty(),
        resolve_attachments: Seq::empty(),
        subpass_dependencies: seq![spec_color_output_dependency()],
        pipelines: seq![spec_debug_pipeline()],
    }
}

/// The whole catalog, in the order the frame executes it.
pub open spec fn spec_declared_passes() -> Seq<PassDeclaration> {
    seq![
        spec_shadow_pass(RenderObjectType::Static),
        spec_shadow_pass(RenderObjectType::Skeletal),
        spec_opaque_pass(RenderObjectType::Static),
        spec_opaque_pass(RenderObjectType::Skeletal),
        spec_ssao_pass(),
        spec_composite_gbuffer_pass(),
        spec_motion_blur_pass(),
        spec_final_pass(),
        spec_debug_pass(),
    ]
}

/// The declarations of a sequence of pass descriptions.
pub open spec fn spec_views_of(s: Seq<RenderPassDataCreateInfo>) -> Seq<PassDeclaration> {
    s.map_values(|p: RenderPassDataCreateInfo| p@)
}


// ---------------------------------------------------------------------------
// The executable catalog.
// ---------------------------------------------------------------------------
fn declare_shadow_pass(t: RenderObjectType) -> (r: RenderPassDataCreateInfo)
    ensures
        r@ == spec_shadow_pass(t),
{
    let mut bindings: Vec<DescriptorDataCreateInfo> = Vec::new();
    bindings.push(uniform_binding(0, ShaderBufferDataType::SceneConstants));
    bindings.push(uniform_binding(1, ShaderBufferDataType::ViewConstants));
    bindings.push(uniform_binding(2, ShaderBufferDataType::LightConstants));
    let push_constant_range_size: u32 = if t == RenderObjectType::Skeletal {
        bindings.push(
            binding(
                3,
                DescriptorResourceName::ShaderBuffer(ShaderBufferDataType::BoneMatrices),
                DescriptorResourceType::StorageBuffer,
                ShaderStageVisibility::Vertex,
            ),
        );
        80
    } else {
        64
    };
    let pipeline = PipelineDataCreateInfo {
        _pipeline_data_create_info_name: PipelineName::RenderObject,
        _pipeline_vertex_shader_file: ShaderFile::RenderObjectVert,
        _pipeline_fragment_shader_file: ShaderFile::RenderObjectFrag,
        _pipeline_dynamic_viewport: true,
        _pipeline_dynamic_scissor: true,
        _pipeline_sample_count: SampleCount::Type1,
        _pipeline_polygon_mode: PolygonMode::Fill,
        _pipeline_cull_mode: CullMode::Back,
        _pipeline_front_face: FrontFace::Clockwise,
        _pipeline_color_blend_modes: Vec::new(),
        _depth_stencil_state_create_info: DepthStencilStateCreateInfo {
            _depth_test_enable: true,
            _depth_write_enable: true,
        },
        _push_constant_range_size: push_constant_range_size,
        _descriptor_data_create_infos: bindings,
    };
    let mut pipelines: Vec<PipelineDataCreateInfo> = Vec::new();
    pipelines.push(pipeline);
    let mut depth_attachments: Vec<ImageAttachmentDescription> = Vec::new();
    depth_attachments.push(
        attachment(
            Format::D32_SFLOAT,
            AttachmentLoadOp::Clear,
            AttachmentStoreOp::Store,
            ImageLayout::Undefined,
            ImageLayout::General,
            ImageLayout::DepthStencilAttachmentOptimal,
        ),
    );
    let mut subpass_dependencies: Vec<SubpassDependency> = Vec::new();
    subpass_dependencies.push(depth_output_dependency());
    let r = RenderPassDataCreateInfo {
        _render_pass_create_info_name: if t == RenderObjectType::Skeletal {
            RenderPassName::RenderPassSkeletalShadow
        } else {
            RenderPassName::RenderPassStaticShadow
        },
        _color_attachment_descriptions: Vec::new(),
        _depth_attachment_descriptions: depth_attachments,
        _resolve_attachment_descriptions: Vec::new(),
        _subpass_dependencies: subpass_dependencies,
        _pipeline_data_create_infos: pipelines,
    };
    proof {
        assert(r@ =~~= spec_shadow_pass(t));
    }
    r
}

fn declare_opaque_pass(t: RenderObjectType) -> (r: RenderPassDataCreateInfo)
    ensures
        r@ == spec_opaque_pass(t),
{
    let mut bindings: Vec<DescriptorDataCreateInfo> = Vec::new();
    bindings.push(uniform_binding(0, ShaderBufferDataType::SceneConstants));
    bindings.push(uniform_binding(1, ShaderBufferDataType::ViewConstants));
    bindings.push(uniform_binding(2, ShaderBufferDataType::LightConstants));
    bindings.push(
        binding(
            3,
            DescriptorResourceName::Texture(TextureName::TextureBase),
            DescriptorResourceType::Texture,
            ShaderStageVisibility::Fragment,
        ),
    );
    bindings.push(
        binding(
            4,
            DescriptorResourceName::Texture(TextureName::TextureMaterial),
            DescriptorResourceType::Texture,
            ShaderStageVisibility::Fragment,
        ),
    );
    bindings.push(
        binding(
            5,
            DescriptorResourceName::Texture(TextureName::TextureNormal),
            DescriptorResourceType::Texture,
            ShaderStageVisibility::Fragment,
        ),
    );
    let push_constant_range_size: u32 = if t == RenderObjectType::Skeletal {
        bindings.push(
            binding(
                6,
                DescriptorResourceName::ShaderBuffer(ShaderBufferDataType::BoneMatrices),
                DescriptorResourceType::StorageBuffer,
                ShaderStageVisibility::Vertex,
            ),
        );
        80
    } else {
        64
    };
    let mut color_blend_modes: Vec<BlendState> = Vec::new();
    color_blend_modes.push(get_color_blend_mode(BlendMode::NoBlend));
    color_blend_modes.push(get_color_blend_mode(BlendMode::NoBlend));
    color_blend_modes.push(get_color_blend_mode(BlendMode::NoBlend));
    color_blend_modes.push(get_color_blend_mode(BlendMode::NoBlend));
    let pipeline = PipelineDataCreateInfo {
        _pipeline_data_create_info_name: PipelineName::RenderObject,
        _pipeline_vertex_shader_file: ShaderFile::RenderObjectVert,
        _pipeline_fragment_shader_file: ShaderFile::RenderObjectFrag,
        _pipeline_dynamic_viewport: true,
        _pipeline_dynamic_scissor: true,
        _pipeline_sample_count: SampleCount::Type1,
        _pipeline_polygon_mode: PolygonMode::Fill,
        _pipeline_cull_mode: CullMode::Back,
        _pipeline_front_face: FrontFace::Clockwise,
        _pipeline_color_blend_modes: color_blend_modes,
        _depth_stencil_state_create_info: DepthStencilStateCreateInfo {
            _depth_test_enable: true,
            _depth_write_enable: true,
        },
        _push_constant_range_size: push_constant_range_size,
        _descriptor_data_create_infos: bindings,
    };
    let mut pipelines: Vec<PipelineDataCreateInfo> = Vec::new();
    pipelines.push(pipeline);
    let mut color_attachments: Vec<ImageAttachmentDescription> = Vec::new();
    color_attachments.push(
        attachment(
            Format::R8G8B8A8_UNORM,
            AttachmentLoadOp::Clear,
            AttachmentStoreOp::Store,
            ImageLayout::Undefined,
            ImageLayout::General,
            ImageLayout::ColorAttachmentOptimal,
        ),
    );
    color_attachments.push(
        attachment(
            Format::R8G8B8A8_UNORM,
            AttachmentLoadOp::Clear,
            AttachmentStoreOp::Store,
            ImageLayout::Undefined,
            ImageLayout::General,
            ImageLayout::ColorAttachmentOptimal,
        ),
    );
    color_attachments.push(
        attachment(
            Format::R8G8B8A8_UNORM,
            AttachmentLoadOp::Clear,
            AttachmentStoreOp::Store,
            ImageLayout::Undefined,
            ImageLayout::General,
            ImageLayout::ColorAttachmentOptimal,
        ),
    );
    color_attachments.push(
        attachment(
            Format::R16G16_SFLOAT,
            AttachmentLoadOp::Clear,
            AttachmentStoreOp::Store,
            ImageLayout::Undefined,
            ImageLayout::General,
            ImageLayout::ColorAttachmentOptimal,
        ),
    );
    let mut depth_attachments: Vec<ImageAttachmentDescription> = Vec::new();
    depth_attachments.push(
        attachment(
            Format::D32_SFLOAT,
            AttachmentLoadOp::Clear,
            AttachmentStoreOp::Store,
            ImageLayout::Undefined,
            ImageLayout::General,
            ImageLayout::DepthStencilAttachmentOptimal,
        ),
    );
    let mut subpass_dependencies: Vec<SubpassDependency> = Vec::new();
    subpass_dependencies.push(color_output_dependency());
    subpass_dependencies.push(depth_output_dependency());
    let r = RenderPassDataCreateInfo {
        _render_pass_create_info_name: if t == RenderObjectType::Skeletal {
            RenderPassName::RenderPassSkeletalOpaque
        } else {
            RenderPassName::RenderPassStaticOpaque
        },
        _color_attachment_descriptions: color_attachments,
        _depth_attachment_descriptions: depth_attachments,
        _resolve_attachment_descriptions: Vec::new(),
        _subpass_dependencies: subpass_dependencies,
        _pipeline_data_create_infos: pipelines,
    };
    proof {
        assert(r@ =~~= spec_opaque_pass(t));
    }
    r
}

/// A single-color-attachment post-process pass: one full-screen pipeline,
/// one boundary dependency on earlier color output.
fn declare_post_process_pass(
    name: RenderPassName,
    pipeline_name: PipelineName,
    fragment_shader: ShaderFile,
    format: Format,
    load: AttachmentLoadOp,
    initial_layout: ImageLayout,
    final_layout: ImageLayout,
    bindings: Vec<DescriptorDataCreateInfo>,
) -> (r: RenderPassDataCreateInfo)
    ensures
        r@ == (PassDeclaration {
            name,
            color_attachments: seq![
                spec_attachment(
                    format,
                    load,
                    AttachmentStoreOp::Store,
                    initial_layout,
                    final_layout,
                    ImageLayout::ColorAttachmentOptimal,
                ),
            ],
            depth_attachments: Seq::empty(),
            resolve_attachments: Seq::empty(),
            subpass_dependencies: seq![spec_color_output_dependency()],
            pipelines: seq![
                PipelineDeclaration {
                    name: pipeline_name,
                    vertex_shader: ShaderFile::RenderQuadVert,
                    fragment_shader,
                    dynamic_viewport: true,
                    dynamic_scissor: true,
                    sample_count: SampleCount::Type1,
                    polygon_mode: PolygonMode::Fill,
                    cull_mode: CullMode::NoCull,
                    front_face: FrontFace::Clockwise,
                    color_blend_modes: seq![spec_color_blend_mode(BlendMode::NoBlend)],
                    depth_stencil_state: DepthStencilStateCreateInfo {
                        _depth_test_enable: true,
                        _depth_write_enable: false,
                    },
                    push_constant_range_size: 0,
                    bindings: bindings@,
                },
            ],
        }),
{
    let mut color_blend_modes: Vec<BlendState> = Vec::new();
    color_blend_modes.push(get_color_blend_mode(BlendMode::NoBlend));
    let pipeline = PipelineDataCreateInfo {
        _pipeline_data_create_info_name: pipeline_name,
        _pipeline_vertex_shader_file: ShaderFile::RenderQuadVert,
        _pipeline_fragment_shader_file: fragment_shader,
        _pipeline_dynamic_viewport: true,
        _pipeline_dynamic_scissor: true,
        _pipeline_sample_count: SampleCount::Type1,
        _pipeline_polygon_mode: PolygonMode::Fill,
        _pipeline_cull_mode: CullMode::NoCull,
        _pipeline_front_face: FrontFace::Clockwise,
        _pipeline_color_blend_modes: color_blend_modes,
        _depth_stencil_state_create_info: DepthStencilStateCreateInfo {
            _depth_test_enable: true,
            _depth_write_enable: false,
        },
        _push_constant_range_size: 0,
        _descriptor_data_create_infos: bindings,
    };
    let mut pipelines: Vec<PipelineDataCreateInfo> = Vec::new();
    pipelines.push(pipeline);
    let mut color_attachments: Vec<ImageAttachmentDescription> = Vec::new();
    color_attachments.push(
        attachment(
            format,
            load,
            AttachmentStoreOp::Store,
            initial_layout,
            final_layout,
            ImageLayout::ColorAttachmentOptimal,
        ),
    );
    let mut subpass_dependencies: Vec<SubpassDependency> = Vec::new();
    subpass_dependencies.push(color_output_dependency());
    let r = RenderPassDataCreateInfo {
        _render_pass_create_info_name: name,
        _color_attachment_descriptions: color_attachments,
        _depth_attachment_descriptions: Vec::new(),
        _resolve_attachment_descriptions: Vec::new(),
        _subpass_dependencies: subpass_dependencies,
        _pipeline_data_create_infos: pipelines,
    };
    proof {
        assert(r@.pipelines =~~= seq![
            PipelineDeclaration {
                name: pipeline_name,
                vertex_shader: ShaderFile::RenderQuadVert,
                fragment_shader,
                dynamic_viewport: true,
                dynamic_scissor: true,
                sample_count: SampleCount::Type1,
                polygon_mode: PolygonMode::Fill,
                cull_mode: CullMode::NoCull,
                front_face: FrontFace::Clockwise,
                color_blend_modes: seq![spec_color_blend_mode(BlendMode::NoBlend)],
                depth_stencil_state: DepthStencilStateCreateInfo {
                    _depth_test_enable: true,
                    _depth_write_enable: false,
                },
                push_constant_range_size: 0,
                bindings: bindings@,
            },
        ]);
        assert(r@ =~~= PassDeclaration {
            name,
            color_attachments: seq![
                spec_attachment(
                    format,
                    load,
                    AttachmentStoreOp::Store,
                    initial_layout,
                    final_layout,
                    ImageLayout::ColorAttachmentOptimal,
                ),
            ],
            depth_attachments: Seq::empty(),
            resolve_attachments: Seq::empty(),
            subpass_dependencies: seq![spec_color_output_dependency()],
            pipelines: r@.pipelines,
        });
    }
    r
}

fn declare_ssao_pass() -> (r: RenderPassDataCreateInfo)
    ensures
        r@ == spec_ssao_pass(),
{
    let mut bindings: Vec<DescriptorDataCreateInfo> = Vec::new();
    bindings.push(uniform_binding(0, ShaderBufferDataType::SceneConstants));
    bindings.push(uniform_binding(1, ShaderBufferDataType::ViewConstants));
    bindings.push(uniform_binding(2, ShaderBufferDataType::LightConstants));
    bindings.push(target_binding(3, RenderTargetType::SceneNormal));
    bindings.push(target_binding(4, RenderTargetType::SceneDepth));
    bindings.push(
        binding(
            5,
            DescriptorResourceName::Texture(TextureName::SsaoNoise),
            DescriptorResourceType::Texture,
            ShaderStageVisibility::Fragment,
        ),
    );
    bindings.push(uniform_binding(6, ShaderBufferDataType::SSAOConstants));
    let r = declare_post_process_pass(
        RenderPassName::RenderSsao,
        PipelineName::RenderSsao,
        ShaderFile::RenderSsaoFrag,
        Format::R16_SFLOAT,
        AttachmentLoadOp::Clear,
        ImageLayout::Undefined,
        ImageLayout::General,
        bindings,
    );
    proof {
        assert(r@ =~~= spec_ssao_pass());
    }
    r
}

fn declare_composite_gbuffer_pass() -> (r: RenderPassDataCreateInfo)
    ensures
        r@ == spec_composite_gbuffer_pass(),
{
    let mut bindings: Vec<DescriptorDataCreateInfo> = Vec::new();
    bindings.push(uniform_binding(0, ShaderBufferDataType::SceneConstants));
    bindings.push(uniform_binding(1, ShaderBufferDataType::ViewConstants));
    bindings.push(uniform_binding(2, ShaderBufferDataType::LightConstants));
    bindings.push(target_binding(3, RenderTargetType::SceneAlbedo));
    bindings.push(target_binding(4, RenderTargetType::SceneMaterial));
    bindings.push(target_binding(5, RenderTargetType::SceneNormal));
    bindings.push(target_binding(6, RenderTargetType::SceneVelocity));
    bindings.push(target_binding(7, RenderTargetType::SceneDepth));
    bindings.push(target_binding(8, RenderTargetType::SSAO));
    bindings.push(target_binding(9, RenderTargetType::Shadow));
    bindings.push(target_binding(10, RenderTargetType::LightShaft));
    bindings.push(target_binding(11, RenderTargetType::SSRResolved));
    let r = declare_post_process_pass(
        RenderPassName::CompositeGBuffer,
        PipelineName::CompositeGBuffer,
        ShaderFile::CompositeGBufferFrag,
        Format::R16G16B16A16_SFLOAT,
        AttachmentLoadOp::DontCare,
        ImageLayout::Undefined,
        ImageLayout::General,
        bindings,
    );
    proof {
        assert(r@ =~~= spec_composite_gbuffer_pass());
    }
    r
}

fn declare_motion_blur_pass() -> (r: RenderPassDataCreateInfo)
    ensures
        r@ == spec_motion_blur_pass(),
{
    let mut bindings: Vec<DescriptorDataCreateInfo> = Vec::new();
    bindings.push(uniform_binding(0, ShaderBufferDataType::SceneConstants));
    bindings.push(uniform_binding(1, ShaderBufferDataType::ViewConstants));
    bindings.push(target_binding(2, RenderTargetType::SceneColor));
    bindings.push(target_binding(3, RenderTargetType::SceneVelocity));
    let r = declare_post_process_pass(
        RenderPassName::RenderMotionBlur,
        PipelineName::RenderMotionBlur,
        ShaderFile::RenderMotionBlurFrag,
        Format::R16G16B16A16_SFLOAT,
        AttachmentLoadOp::DontCare,
        ImageLayout::Undefined,
        ImageLayout::General,
        bindings,
    );
    proof {
        assert(r@ =~~= spec_motion_blur_pass());
    }
    r
}

fn declare_final_pass() -> (r: RenderPassDataCreateInfo)
    ensures
        r@ == spec_final_pass(),
{
    let mut bindings: Vec<DescriptorDataCreateInfo> = Vec::new();
    bindings.push(uniform_binding(0, ShaderBufferDataType::SceneConstants));
    bindings.push(uniform_binding(1, ShaderBufferDataType::ViewConstants));
    bindings.push(target_binding(2, RenderTargetType::SceneColorCopy));
    let r = declare_post_process_pass(
        RenderPassName::RenderFinal,
        PipelineName::RenderFinal,
        ShaderFile::RenderFinalFrag,
        Format::R8G8B8A8_UNORM,
        AttachmentLoadOp::DontCare,
        ImageLayout::Undefined,
        ImageLayout::PresentSrc,
        bindings,
    );
    proof {
        assert(r@ =~~= spec_final_pass());
    }
    r
}

fn declare_debug_pass() -> (r: RenderPassDataCreateInfo)
    ensures
        r@ == spec_debug_pass(),
{
    let mut bindings: Vec<DescriptorDataCreateInfo> = Vec::new();
    bindings.push(target_binding(0, RenderTargetType::SceneColor));
    let r = declare_post_process_pass(
        RenderPassName::RenderDebug,
        PipelineName::RenderDebug,
        ShaderFile::RenderDebugFrag,
        Format::R8G8B8A8_UNORM,
        AttachmentLoadOp::Load,
        ImageLayout::PresentSrc,
        ImageLayout::PresentSrc,
        bindings,
    );
    proof {
        assert(r@ =~~= spec_debug_pass());
    }
    r
}

/// The whole catalog, as data: no device is touched, and the result is a
/// function of nothing — two calls yield structurally equal declarations.
pub fn declare_passes() -> (r: Vec<RenderPassDataCreateInfo>)
    ensures
        spec_views_of(r@) == spec_declared_passes(),
{
    let mut passes: Vec<RenderPassDataCreateInfo> = Vec::new();
    passes.push(declare_shadow_pass(RenderObjectType::Static));
    passes.push(declare_shadow_pass(RenderObjectType::Skeletal));
    passes.push(declare_opaque_pass(RenderObjectType::Static));
    passes.push(declare_opaque_pass(RenderObjectType::Skeletal));
    passes.push(declare_ssao_pass());
    passes.push(declare_composite_gbuffer_pass());
    passes.push(declare_motion_blur_pass());
    passes.push(declare_final_pass());
    passes.push(declare_debug_pass());
    proof {
        assert(spec_views_of(passes@) =~~= spec_declared_passes());
    }
    passes
}

/// Declaration purity: the catalog is referentially transparent.  Any two
/// results of `declare_passes`, whenever produced, declare the same passes.
pub proof fn lemma_declare_passes_deterministic(a: Seq<PassDeclaration>, b: Seq<PassDeclaration>)
    requires
        a == spec_declared_passes(),
        b == spec_declared_passes(),
    ensures
        a == b,
{
}


// ---------------------------------------------------------------------------
// Building: validation of the declarations.
// ---------------------------------------------------------------------------
/// No two bindings of the pipeline share a binding index.
pub open spec fn spec_pipeline_bindings_unique(p: PipelineDeclaration) -> bool {
    forall|i: int, j: int|
        0 <= i < j < p.bindings.len() ==> p.bindings[i]._descriptor_binding_index
            != p.bindings[j]._descriptor_binding_index
}

/// Two bindings of the pipeline share the index `idx`.
pub open spec fn spec_pipeline_has_collision_at(p: PipelineDeclaration, idx: u32) -> bool {
    exists|i: int, j: int|
        0 <= i < j < p.bindings.len() && p.bindings[i]._descriptor_binding_index == idx
            && p.bindings[j]._descriptor_binding_index == idx
}

/// Every pipeline of the pass has pairwise distinct binding indices.
pub open spec fn spec_pass_bindings_unique(p: PassDeclaration) -> bool {
    forall|k: int| 0 <= k < p.pipelines.len() ==> spec_pipeline_bindings_unique(
        #[trigger] p.pipelines[k],
    )
}

/// Every pipeline of every pass has pairwise distinct binding indices.
pub open spec fn spec_catalog_bindings_unique(s: Seq<PassDeclaration>) -> bool {
    forall|k: int| 0 <= k < s.len() ==> spec_pass_bindings_unique(#[trigger] s[k])
}

/// The error the build step reports for a declaration whose descriptor
/// layout declares one binding index twice.
#[derive(Clone, Copy, Debug, PartialEq, Eq, Structural)]
pub struct BindingIndexCollision {
    pub _render_pass_name: RenderPassName,
    pub _pipeline_name: PipelineName,
    pub _binding_index: u32,
}

/// The handles the build step yields for one declared pass: in place of
/// device objects, the validated pass name with its pipeline names in
/// declaration order.
#[derive(Clone, Debug, PartialEq)]
pub struct RenderPassPipelineHandles {
    pub _render_pass_data_name: RenderPassName,
    pub _pipeline_data_names: Vec<PipelineName>,
}

/// The first binding index that occurs twice in `bindings`, if any.
fn find_binding_collision(bindings: &Vec<DescriptorDataCreateInfo>) -> (r: Option<u32>)
    ensures
        match r {
            Some(idx) => exists|i: int, j: int|
                0 <= i < j < bindings@.len() && bindings@[i]._descriptor_binding_index == idx
                    && bindings@[j]._descriptor_binding_index == idx,
            None => forall|i: int, j: int|
                0 <= i < j < bindings@.len() ==> bindings@[i]._descriptor_binding_index
                    != bindings@[j]._descriptor_binding_index,
        },
{
    let n = bindings.len();
    let mut i: usize = 0;
    while i < n
        invariant
            i <= n,
            n == bindings@.len(),
            forall|a: int, b: int|
                0 <= a < b < bindings@.len() && a < i ==> bindings@[a]._descriptor_binding_index
                    != bindings@[b]._descriptor_binding_index,
        decreases n - i,
    {
        let mut j: usize = i + 1;
        while j < n
            invariant
                i < j <= n || (i + 1 == j && j > n),
                i < n,
                n == bindings@.len(),
                forall|b: int|
                    i < b < j ==> bindings@[i as int]._descriptor_binding_index
                        != bindings@[b]._descriptor_binding_index,
            decreases n - j,
        {
            if bindings[i]._descriptor_binding_index == bindings[j]._descriptor_binding_index {
                return Some(bindings[i]._descriptor_binding_index);
            }
            j = j + 1;
        }
        i = i + 1;
    }
    None
}

/// The build step over the declaration catalog.  It validates every
/// pipeline's descriptor layout: the result is `Ok` exactly when no pipeline
/// declares a binding index twice, and then lists, for each pass in order,
/// its name and its pipeline names — the shape from which device objects
/// are compiled.  A collision is rejected with the pass, pipeline and index
/// that collide, never silently overwritten.
pub fn build(declarations: &Vec<RenderPassDataCreateInfo>) -> (r: Result<
    Vec<RenderPassPipelineHandles>,
    BindingIndexCollision,
>)
    ensures
        r.is_ok() <==> spec_catalog_bindings_unique(spec_views_of(declarations@)),
        match r {
            Ok(handles) => {
                &&& handles@.len() == declarations@.len()
                &&& forall|k: int|
                    0 <= k < declarations@.len() ==> (#[trigger] handles@[k])._render_pass_data_name
                        == declarations@[k]@.name
                &&& forall|k: int|
                    0 <= k < declarations@.len() ==> (#[trigger] handles@[k])._pipeline_data_names@
                        == declarations@[k]@.pipelines.map_values(|p: PipelineDeclaration| p.name)
            },
            Err(e) => exists|k: int, l: int|
                0 <= k < declarations@.len() && 0 <= l < declarations@[k]@.pipelines.len()
                    && declarations@[k]@.name == e._render_pass_name && declarations@[k]@.pipelines[
                    l
                ].name == e._pipeline_name && spec_pipeline_has_collision_at(
                    declarations@[k]@.pipelines[l],
                    e._binding_index,
                ),
        },
{
    let n = declarations.len();
    let mut handles: Vec<RenderPassPipelineHandles> = Vec::new();
    let mut k: usize = 0;
    while k < n
        invariant
            k <= n,
            n == declarations@.len(),
            handles@.len() == k,
            forall|a: int|
                0 <= a < k ==> (#[trigger] handles@[a])._render_pass_data_name
                    == declarations@[a]@.name,
            forall|a: int|
                0 <= a < k ==> (#[trigger] handles@[a])._pipeline_data_names@
                    == declarations@[a]@.pipelines.map_values(|p: PipelineDeclaration| p.name),
            forall|a: int| 0 <= a < k ==> spec_pass_bindings_unique(#[trigger] declarations@[a]@),
        decreases n - k,
    {
        let pass = &declarations[k];
        let pipeline_count = pass._pipeline_data_create_infos.len();
        let mut names: Vec<PipelineName> = Vec::new();
        let mut l: usize = 0;
        while l < pipeline_count
            invariant
                l <= pipeline_count,
                k < n,
                n == declarations@.len(),
                pass == declarations@[k as int],
                pipeline_count == pass._pipeline_data_create_infos@.len(),
                names@.len() == l,
                forall|b: int|
                    0 <= b < l ==> names@[b] == declarations@[k as int]@.pipelines[b].name,
                forall|b: int|
                    0 <= b < l ==> spec_pipeline_bindings_unique(
                        #[trigger] declarations@[k as int]@.pipelines[b],
                    ),
            decreases pipeline_count - l,
        {
            let pipeline = &pass._pipeline_data_create_infos[l];
            match find_binding_collision(&pipeline._descriptor_data_create_infos) {
                Some(idx) => {
                    proof {
                        let dk = declarations@[k as int]@;
                        assert(dk.pipelines[l as int] == pipeline@);
                        assert(spec_pipeline_has_collision_at(pipeline@, idx));
                        assert(!spec_pipeline_bindings_unique(pipeline@)) by {
                            let (i, j): (int, int) = choose|i: int, j: int|
                                0 <= i < j < pipeline@.bindings.len()
                                    && pipeline@.bindings[i]._descriptor_binding_index == idx
                                    && pipeline@.bindings[j]._descriptor_binding_index == idx;
                            assert(pipeline@.bindings[i]._descriptor_binding_index
                                == pipeline@.bindings[j]._descriptor_binding_index);
                        }
                        assert(!spec_pass_bindings_unique(dk));
                        assert(spec_views_of(declarations@)[k as int] == dk);
                        assert(!spec_catalog_bindings_unique(spec_views_of(declarations@)));
                    }
                    return Err(
                        BindingIndexCollision {
                            _render_pass_name: pass._render_pass_create_info_name,
                            _pipeline_name: pipeline._pipeline_data_create_info_name,
                            _binding_index: idx,
                        },
                    );
                },
                None => {
                    names.push(pipeline._pipeline_data_create_info_name);
                },
            }
            l = l + 1;
        }
        proof {
            assert(names@ =~= declarations@[k as int]@.pipelines.map_values(
                |p: PipelineDeclaration| p.name,
            ));
        }
        handles.push(
            RenderPassPipelineHandles {
                _render_pass_data_name: pass._render_pass_create_info_name,
                _pipeline_data_names: names,
            },
        );
        k = k + 1;
    }
    proof {
        assert(spec_catalog_bindings_unique(spec_views_of(declarations@)));
    }
    Ok(handles)
}

/// Binding-index uniqueness of the shipped catalog: every pipeline of every
/// declared pass has pairwise distinct binding indices, so the build step
/// accepts the catalog.
pub proof fn lemma_declared_passes_bindings_unique()
    ensures
        spec_catalog_bindings_unique(spec_declared_passes()),
{
    let s = spec_declared_passes();
    assert forall|k: int| 0 <= k < s.len() implies spec_pass_bindings_unique(#[trigger] s[k]) by {
        assert(spec_pipeline_bindings_unique(spec_shadow_pipeline(RenderObjectType::Static)));
        assert(spec_pipeline_bindings_unique(spec_shadow_pipeline(RenderObjectType::Skeletal)));
        assert(spec_pipeline_bindings_unique(spec_opaque_pipeline(RenderObjectType::Static)));
        assert(spec_pipeline_bindings_unique(spec_opaque_pipeline(RenderObjectType::Skeletal)));
        assert(spec_pipeline_bindings_unique(spec_ssao_pipeline()));
        assert(spec_pipeline_bindings_unique(spec_composite_gbuffer_pipeline()));
        assert(spec_pipeline_bindings_unique(spec_motion_blur_pipeline()));
        assert(spec_pipeline_bindings_unique(spec_final_pipeline()));
        assert(spec_pipeline_bindings_unique(spec_debug_pipeline()));
    }
}

} // verus!
