//! Plain-value model of the graphics-API notions the renderer core reasons
//! about: image formats, layouts, attachment operations, pipeline stages and
//! access kinds for barriers, and blend state.  Each is a closed enumeration
//! of exactly the values this design uses, so that declarations and contracts
//! are ordinary structural data.

use vstd::prelude::*;

verus! {

/// Image formats used by the render targets and attachments of this design.
#[allow(non_camel_case_types)]
#[derive(Clone, Copy, Debug, PartialEq, Eq, Structural)]
pub enum Format {
    UNDEFINED,
    R8G8B8A8_UNORM,
    R16_SFLOAT,
    R16G16_SFLOAT,
    R16G16B16A16_SFLOAT,
    R32_SFLOAT,
    R32G32B32A32_SFLOAT,
    D32_SFLOAT,
}

/// Sample count of an image or pipeline.
#[derive(Clone, Copy, Debug, PartialEq, Eq, Structural)]
pub enum SampleCount {
    Type1,
    Type2,
    Type4,
    Type8,
}

/// Texel filtering mode of a sampler.
#[derive(Clone, Copy, Debug, PartialEq, Eq, Structural)]
pub enum Filter {
    Nearest,
    Linear,
}

/// Addressing of texture coordinates outside [0, 1].
#[derive(Clone, Copy, Debug, PartialEq, Eq, Structural)]
pub enum SamplerAddressMode {
    Repeat,
    ClampToEdge,
}

/// Dimensionality of an image view.
#[derive(Clone, Copy, Debug, PartialEq, Eq, Structural)]
pub enum ImageViewType {
    Type1d,
    Type2d,
    Type2dArray,
    Cube,
    Type3d,
}

/// What happens to an attachment's contents when a render pass begins.
#[derive(Clone, Copy, Debug, PartialEq, Eq, Structural)]
pub enum AttachmentLoadOp {
    Load,
    Clear,
    DontCare,
}

/// What happens to an attachment's contents when a render pass ends.
#[derive(Clone, Copy, Debug, PartialEq, Eq, Structural)]
pub enum AttachmentStoreOp {
    Store,
    DontCare,
}

/// Image layouts an attachment moves through in this design.
#[derive(Clone, Copy, Debug, PartialEq, Eq, Structural)]
pub enum ImageLayout {
    Undefined,
    General,
    ColorAttachmentOptimal,
    DepthStencilAttachmentOptimal,
    ShaderReadOnlyOptimal,
    TransferSrcOptimal,
    TransferDstOptimal,
    PresentSrc,
}

/// Pipeline stages named by the barriers and subpass dependencies of this
/// design.
#[derive(Clone, Copy, Debug, PartialEq, Eq, Structural)]
pub enum PipelineStage {
    TopOfPipe,
    BottomOfPipe,
    ColorAttachmentOutput,
    EarlyFragmentTests,
    FragmentShader,
    ComputeShader,
    Transfer,
}

/// Memory-access kinds named by the barriers and subpass dependencies of
/// this design; combined read-and-write kinds stand for the or of the two
/// flags in the underlying API.
#[derive(Clone, Copy, Debug, PartialEq, Eq, Structural)]
pub enum AccessMask {
    Empty,
    MemoryRead,
    ColorAttachmentRead,
    ColorAttachmentReadWrite,
    DepthStencilAttachmentReadWrite,
    ShaderRead,
    TransferRead,
    TransferWrite,
}

/// Shader stages a descriptor binding is visible to.
#[derive(Clone, Copy, Debug, PartialEq, Eq, Structural)]
pub enum ShaderStageVisibility {
    Vertex,
    Fragment,
    VertexAndFragment,
    Compute,
    All,
}

/// Winding order, culling and fill mode of a rasterization pipeline.
#[derive(Clone, Copy, Debug, PartialEq, Eq, Structural)]
pub enum PolygonMode {
    Fill,
    Line,
}

#[derive(Clone, Copy, Debug, PartialEq, Eq, Structural)]
pub enum CullMode {
    NoCull,
    Back,
    Front,
}

#[derive(Clone, Copy, Debug, PartialEq, Eq, Structural)]
pub enum FrontFace {
    Clockwise,
    CounterClockwise,
}

/// Per-attachment blend policy a pipeline declares.
#[derive(Clone, Copy, Debug, PartialEq, Eq, Structural)]
pub enum BlendMode {
    NoBlend,
    AlphaBlend,
}

#[derive(Clone, Copy, Debug, PartialEq, Eq, Structural)]
pub enum BlendFactor {
    Zero,
    One,
    SrcAlpha,
    OneMinusSrcAlpha,
}

#[derive(Clone, Copy, Debug, PartialEq, Eq, Structural)]
pub enum BlendOp {
    Add,
}

/// Which color channels a pipeline writes.
#[derive(Clone, Copy, Debug, PartialEq, Eq, Structural)]
pub struct ColorWriteMask {
    pub r: bool,
    pub g: bool,
    pub b: bool,
    pub a: bool,
}

/// Fixed-function blend state of one color attachment.
#[derive(Clone, Copy, Debug, PartialEq, Eq, Structural)]
pub struct BlendState {
    pub blend_enable: bool,
    pub src_color_blend_factor: BlendFactor,
    pub dst_color_blend_factor: BlendFactor,
    pub color_blend_op: BlendOp,
    pub src_alpha_blend_factor: BlendFactor,
    pub dst_alpha_blend_factor: BlendFactor,
    pub alpha_blend_op: BlendOp,
    pub color_write_mask: ColorWriteMask,
}

/// The blend state a declaration uses for the given blend mode: classic
/// source-alpha blending for `AlphaBlend`, replace for `NoBlend`; both write
/// the color channels and leave alpha untouched.
pub open spec fn spec_color_blend_mode(blend_mode: BlendMode) -> BlendState {
    match blend_mode {
        BlendMode::AlphaBlend => BlendState {
            blend_enable: true,
            src_color_blend_factor: BlendFactor::SrcAlpha,
            dst_color_blend_factor: BlendFactor::OneMinusSrcAlpha,
            color_blend_op: BlendOp::Add,
            src_alpha_blend_factor: BlendFactor::One,
            dst_alpha_blend_factor: BlendFactor::Zero,
            alpha_blend_op: BlendOp::Add,
            color_write_mask: ColorWriteMask { r: true, g: true, b: true, a: false },
        },
        BlendMode::NoBlend => BlendState {
            blend_enable: false,
            src_color_blend_factor: BlendFactor::One,
            dst_color_blend_factor: BlendFactor::Zero,
            color_blend_op: BlendOp::Add,
            src_alpha_blend_factor: BlendFactor::One,
            dst_alpha_blend_factor: BlendFactor::Zero,
            alpha_blend_op: BlendOp::Add,
            color_write_mask: ColorWriteMask { r: true, g: true, b: true, a: false },
        },
    }
}

pub fn get_color_blend_mode(blend_mode: BlendMode) -> (r: BlendState)
    ensures
        r == spec_color_blend_mode(blend_mode),
{
    match blend_mode {
        BlendMode::AlphaBlend => BlendState {
            blend_enable: true,
            src_color_blend_factor: BlendFactor::SrcAlpha,
            dst_color_blend_factor: BlendFactor::OneMinusSrcAlpha,
            color_blend_op: BlendOp::Add,
            src_alpha_blend_factor: BlendFactor::One,
            dst_alpha_blend_factor: BlendFactor::Zero,
            alpha_blend_op: BlendOp::Add,
            color_write_mask: ColorWriteMask { r: true, g: true, b: true, a: false },
        },
        BlendMode::NoBlend => BlendState {
            blend_enable: false,
            src_color_blend_factor: BlendFactor::One,
            dst_color_blend_factor: BlendFactor::Zero,
            color_blend_op: BlendOp::Add,
            src_alpha_blend_factor: BlendFactor::One,
            dst_alpha_blend_factor: BlendFactor::Zero,
            alpha_blend_op: BlendOp::Add,
            color_write_mask: ColorWriteMask { r: true, g: true, b: true, a: false },
        },
    }
}

/// The image-layout transitions the texture upload and attachment
/// initialization paths perform.
#[derive(Clone, Copy, Debug, PartialEq, Eq, Structural)]
pub enum ImageLayoutTransition {
    TransferUndefToTransferDst,
    TransferDstToShaderReadOnly,
    TransferUndefToDepthStencilAttachemnt,
    TransferUndefToColorAttachemnt,
}

/// The barrier parameters (layouts, access masks, stage masks) that realize
/// one `ImageLayoutTransition`.
#[derive(Clone, Copy, Debug, PartialEq, Eq, Structural)]
pub struct TransitionDependent {
    pub _old_layout: ImageLayout,
    pub _new_layout: ImageLayout,
    pub _src_access_mask: AccessMask,
    pub _dst_access_mask: AccessMask,
    pub _src_stage_mask: PipelineStage,
    pub _dst_stage_mask: PipelineStage,
}

/// Barrier parameters for each transition: an upload waits for nothing and
/// makes the image a transfer destination; a sampled image waits for the
/// transfer and is then read by the fragment shader; attachments wait for
/// nothing and are made writable at their first consuming stage.
pub open spec fn spec_transition_dependent(t: ImageLayoutTransition) -> TransitionDependent {
    match t {
        ImageLayoutTransition::TransferUndefToTransferDst => TransitionDependent {
            _old_layout: ImageLayout::Undefined,
            _new_layout: ImageLayout::TransferDstOptimal,
            _src_access_mask: AccessMask::Empty,
            _dst_access_mask: AccessMask::TransferWrite,
            _src_stage_mask: PipelineStage::TopOfPipe,
            _dst_stage_mask: PipelineStage::Transfer,
        },
        ImageLayoutTransition::TransferDstToShaderReadOnly => TransitionDependent {
            _old_layout: ImageLayout::TransferDstOptimal,
            _new_layout: ImageLayout::ShaderReadOnlyOptimal,
            _src_access_mask: AccessMask::TransferWrite,
            _dst_access_mask: AccessMask::ShaderRead,
            _src_stage_mask: PipelineStage::Transfer,
            _dst_stage_mask: PipelineStage::FragmentShader,
        },
        ImageLayoutTransition::TransferUndefToDepthStencilAttachemnt => TransitionDependent {
            _old_layout: ImageLayout::Undefined,
            _new_layout: ImageLayout::DepthStencilAttachmentOptimal,
            _src_access_mask: AccessMask::Empty,
            _dst_access_mask: AccessMask::DepthStencilAttachmentReadWrite,
            _src_stage_mask: PipelineStage::TopOfPipe,
            _dst_stage_mask: PipelineStage::EarlyFragmentTests,
        },
        ImageLayoutTransition::TransferUndefToColorAttachemnt => TransitionDependent {
            _old_layout: ImageLayout::Undefined,
            _new_layout: ImageLayout::ColorAttachmentOptimal,
            _src_access_mask: AccessMask::Empty,
            _dst_access_mask: AccessMask::ColorAttachmentReadWrite,
            _src_stage_mask: PipelineStage::TopOfPipe,
            _dst_stage_mask: PipelineStage::ColorAttachmentOutput,
        },
    }
}

pub fn get_transition_dependent(image_layout_transition: ImageLayoutTransition) -> (r:
    TransitionDependent)
    ensures
        r == spec_transition_dependent(image_layout_transition),
{
    match image_layout_transition {
        ImageLayoutTransition::TransferUndefToTransferDst => TransitionDependent {
            _old_layout: ImageLayout::Undefined,
            _new_layout: ImageLayout::TransferDstOptimal,
            _src_access_mask: AccessMask::Empty,
            _dst_access_mask: AccessMask::TransferWrite,
            _src_stage_mask: PipelineStage::TopOfPipe,
            _dst_stage_mask: PipelineStage::Transfer,
        },
        ImageLayoutTransition::TransferDstToShaderReadOnly => TransitionDependent {
            _old_layout: ImageLayout::TransferDstOptimal,
            _new_layout: ImageLayout::ShaderReadOnlyOptimal,
            _src_access_mask: AccessMask::TransferWrite,
            _dst_access_mask: AccessMask::ShaderRead,
            _src_stage_mask: PipelineStage::Transfer,
            _dst_stage_mask: PipelineStage::FragmentShader,
        },
        ImageLayoutTransition::TransferUndefToDepthStencilAttachemnt => TransitionDependent {
            _old_layout: ImageLayout::Undefined,
            _new_layout: ImageLayout::DepthStencilAttachmentOptimal,
            _src_access_mask: AccessMask::Empty,
            _dst_access_mask: AccessMask::DepthStencilAttachmentReadWrite,
            _src_stage_mask: PipelineStage::TopOfPipe,
            _dst_stage_mask: PipelineStage::EarlyFragmentTests,
        },
        ImageLayoutTransition::TransferUndefToColorAttachemnt => TransitionDependent {
            _old_layout: ImageLayout::Undefined,
            _new_layout: ImageLayout::ColorAttachmentOptimal,
            _src_access_mask: AccessMask::Empty,
            _dst_access_mask: AccessMask::ColorAttachmentReadWrite,
            _src_stage_mask: PipelineStage::TopOfPipe,
            _dst_stage_mask: PipelineStage::ColorAttachmentOutput,
        },
    }
}

/// A channel value clamped to the 0..=255 range of one color byte.
pub open spec fn spec_clamp_channel(c: u32) -> u32 {
    if c < 255 {
        c
    } else {
        255
    }
}

/// A packed 32-bit color: each channel clamped to a byte, red in the lowest
/// byte, then green, blue and alpha.
pub open spec fn spec_color32(r: u32, g: u32, b: u32, a: u32) -> u32 {
    (spec_clamp_channel(r) + spec_clamp_channel(g) * 0x100 + spec_clamp_channel(b) * 0x10000
        + spec_clamp_channel(a) * 0x1000000) as u32
}

fn clamp_channel(c: u32) -> (r: u32)
    ensures
        r == spec_clamp_channel(c),
{
    if c < 255 {
        c
    } else {
        255
    }
}

pub fn get_color32(r: u32, g: u32, b: u32, a: u32) -> (color: u32)
    ensures
        color == spec_color32(r, g, b, a),
{
    clamp_channel(r) + clamp_channel(g) * 0x100 + clamp_channel(b) * 0x10000 + clamp_channel(a)
        * 0x1000000
}

/// Whether a draw renders into the scene's targets or into the shadow map;
/// the value is shared with the shader constants.
#[allow(non_camel_case_types)]
#[derive(Clone, Copy, Debug, PartialEq, Eq, Structural)]
pub enum RenderMode {
    RenderMode_Common,
    RenderMode_Shadow,
}

/// Skinning class of a drawn object; each class binds its own pipeline.
#[derive(Clone, Copy, Debug, PartialEq, Eq, Structural)]
pub enum RenderObjectType {
    Static,
    Skeletal,
}

/// How the atmosphere model converts spectral radiance to luminance.
#[derive(Clone, Copy, Debug, PartialEq, Eq, Structural)]
pub enum Luminance {
    NONE,
    APPROXIMATE,
    PRECOMPUTED,
}

} // verus!
