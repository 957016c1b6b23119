//! The render-target registry: the closed set of intermediate images the
//! frame pipeline renders into, and the table of creation descriptions that
//! derives each target's size from the window extent by a fixed ratio (full,
//! half, quarter) or uses a fixed simulation-space size.

use vstd::prelude::*;
use crate::constants::{FFT_LAYER_COUNT, FFT_SIZE, N_SLOPE_VARIANCE, SHADOW_MAP_SIZE};
use crate::texture::TextureCreateInfo;
use crate::vk_types::{Filter, Format, ImageViewType, SampleCount, SamplerAddressMode};

verus! {

/// Number of live render targets the registry creates; `MaxBound` is a
/// cycling sentinel and gets no texture.
pub const RENDER_TARGET_COUNT: usize = 23;

/// Number of values the debug-overlay cycling walks through, the sentinel
/// included.
pub const RENDER_TARGET_CYCLE_COUNT: usize = 24;

/// Logical name of one intermediate render target.
#[allow(non_camel_case_types)]
#[derive(Clone, Copy, Debug, PartialEq, Eq, Structural, Hash)]
pub enum RenderTargetType {
    SceneColor,
    SceneColorCopy,
    SceneDepth,
    HierarchicalMinZ,
    BackBuffer,
    BackBufferCopy,
    SceneAlbedo,
    SceneNormal,
    SceneMaterial,
    SceneVelocity,
    TAAResolve,
    Bloom0,
    BloomTemp0,
    LightShaft,
    SSAO,
    SSAOTemp,
    Shadow,
    SSR,
    SSRResolved,
    SSRResolvedPrev,
    FFT_A,
    FFT_B,
    FFT_SLOPE_VARIANCE,
    MaxBound,
}

/// Ordinal of a render-target name in the fixed declaration order.
pub open spec fn spec_render_target_index(t: RenderTargetType) -> int {
    match t {
        RenderTargetType::SceneColor => 0,
        RenderTargetType::SceneColorCopy => 1,
        RenderTargetType::SceneDepth => 2,
        RenderTargetType::HierarchicalMinZ => 3,
        RenderTargetType::BackBuffer => 4,
        RenderTargetType::BackBufferCopy => 5,
        RenderTargetType::SceneAlbedo => 6,
        RenderTargetType::SceneNormal => 7,
        RenderTargetType::SceneMaterial => 8,
        RenderTargetType::SceneVelocity => 9,
        RenderTargetType::TAAResolve => 10,
        RenderTargetType::Bloom0 => 11,
        RenderTargetType::BloomTemp0 => 12,
        RenderTargetType::LightShaft => 13,
        RenderTargetType::SSAO => 14,
        RenderTargetType::SSAOTemp => 15,
        RenderTargetType::Shadow => 16,
        RenderTargetType::SSR => 17,
        RenderTargetType::SSRResolved => 18,
        RenderTargetType::SSRResolvedPrev => 19,
        RenderTargetType::FFT_A => 20,
        RenderTargetType::FFT_B => 21,
        RenderTargetType::FFT_SLOPE_VARIANCE => 22,
        RenderTargetType::MaxBound => 23,
    }
}

/// The render-target name with the given ordinal.
pub open spec fn spec_render_target_from_index(i: int) -> RenderTargetType {
    if i == 0 {
        RenderTargetType::SceneColor
    } else if i == 1 {
        RenderTargetType::SceneColorCopy
    } else if i == 2 {
        RenderTargetType::SceneDepth
    } else if i == 3 {
        RenderTargetType::HierarchicalMinZ
    } else if i == 4 {
        RenderTargetType::BackBuffer
    } else if i == 5 {
        RenderTargetType::BackBufferCopy
    } else if i == 6 {
        RenderTargetType::SceneAlbedo
    } else if i == 7 {
        RenderTargetType::SceneNormal
    } else if i == 8 {
        RenderTargetType::SceneMaterial
    } else if i == 9 {
        RenderTargetType::SceneVelocity
    } else if i == 10 {
        RenderTargetType::TAAResolve
    } else if i == 11 {
        RenderTargetType::Bloom0
    } else if i == 12 {
        RenderTargetType::BloomTemp0
    } else if i == 13 {
        RenderTargetType::LightShaft
    } else if i == 14 {
        RenderTargetType::SSAO
    } else if i == 15 {
        RenderTargetType::SSAOTemp
    } else if i == 16 {
        RenderTargetType::Shadow
    } else if i == 17 {
        RenderTargetType::SSR
    } else if i == 18 {
        RenderTargetType::SSRResolved
    } else if i == 19 {
        RenderTargetType::SSRResolvedPrev
    } else if i == 20 {
        RenderTargetType::FFT_A
    } else if i == 21 {
        RenderTargetType::FFT_B
    } else if i == 22 {
        RenderTargetType::FFT_SLOPE_VARIANCE
    } else {
        RenderTargetType::MaxBound
    }
}

impl RenderTargetType {
    /// Ordinal of this name in declaration order.
    pub fn index(&self) -> (r: usize)
        ensures
            r == spec_render_target_index(*self),
            r < RENDER_TARGET_CYCLE_COUNT,
    {
        match self {
            RenderTargetType::SceneColor => 0,
            RenderTargetType::SceneColorCopy => 1,
            RenderTargetType::SceneDepth => 2,
            RenderTargetType::HierarchicalMinZ => 3,
            RenderTargetType::BackBuffer => 4,
            RenderTargetType::BackBufferCopy => 5,
            RenderTargetType::SceneAlbedo => 6,
            RenderTargetType::SceneNormal => 7,
            RenderTargetType::SceneMaterial => 8,
            RenderTargetType::SceneVelocity => 9,
            RenderTargetType::TAAResolve => 10,
            RenderTargetType::Bloom0 => 11,
            RenderTargetType::BloomTemp0 => 12,
            RenderTargetType::LightShaft => 13,
            RenderTargetType::SSAO => 14,
            RenderTargetType::SSAOTemp => 15,
            RenderTargetType::Shadow => 16,
            RenderTargetType::SSR => 17,
            RenderTargetType::SSRResolved => 18,
            RenderTargetType::SSRResolvedPrev => 19,
            RenderTargetType::FFT_A => 20,
            RenderTargetType::FFT_B => 21,
            RenderTargetType::FFT_SLOPE_VARIANCE => 22,
            RenderTargetType::MaxBound => 23,
        }
    }

    /// The name with the given ordinal.
    pub fn from_index(i: usize) -> (r: RenderTargetType)
        requires
            i < RENDER_TARGET_CYCLE_COUNT,
        ensures
            r == spec_render_target_from_index(i as int),
    {
        if i == 0 {
            RenderTargetType::SceneColor
        } else if i == 1 {
            RenderTargetType::SceneColorCopy
        } else if i == 2 {
            RenderTargetType::SceneDepth
        } else if i == 3 {
            RenderTargetType::HierarchicalMinZ
        } else if i == 4 {
            RenderTargetType::BackBuffer
        } else if i == 5 {
            RenderTargetType::BackBufferCopy
        } else if i == 6 {
            RenderTargetType::SceneAlbedo
        } else if i == 7 {
            RenderTargetType::SceneNormal
        } else if i == 8 {
            RenderTargetType::SceneMaterial
        } else if i == 9 {
            RenderTargetType::SceneVelocity
        } else if i == 10 {
            RenderTargetType::TAAResolve
        } else if i == 11 {
            RenderTargetType::Bloom0
        } else if i == 12 {
            RenderTargetType::BloomTemp0
        } else if i == 13 {
            RenderTargetType::LightShaft
        } else if i == 14 {
            RenderTargetType::SSAO
        } else if i == 15 {
            RenderTargetType::SSAOTemp
        } else if i == 16 {
            RenderTargetType::Shadow
        } else if i == 17 {
            RenderTargetType::SSR
        } else if i == 18 {
            RenderTargetType::SSRResolved
        } else if i == 19 {
            RenderTargetType::SSRResolvedPrev
        } else if i == 20 {
            RenderTargetType::FFT_A
        } else if i == 21 {
            RenderTargetType::FFT_B
        } else if i == 22 {
            RenderTargetType::FFT_SLOPE_VARIANCE
        } else {
            RenderTargetType::MaxBound
        }
    }

    /// The next name in cycling order, wrapping from the sentinel back to
    /// the first target; used by the debug-overlay selection.
    pub fn next(&self) -> (r: RenderTargetType)
        ensures
            r == spec_render_target_from_index(
                if spec_render_target_index(*self) == RENDER_TARGET_CYCLE_COUNT - 1 {
                    0int
                } else {
                    spec_render_target_index(*self) + 1
                },
            ),
    {
        let i = self.index();
        if i == RENDER_TARGET_CYCLE_COUNT - 1 {
            Self::from_index(0)
        } else {
            Self::from_index(i + 1)
        }
    }

    /// The previous name in cycling order, wrapping from the first target to
    /// the last one before the sentinel.
    pub fn prev(&self) -> (r: RenderTargetType)
        ensures
            r == spec_render_target_from_index(
                if spec_render_target_index(*self) == 0 {
                    RENDER_TARGET_CYCLE_COUNT - 2
                } else {
                    spec_render_target_index(*self) - 1
                },
            ),
    {
        let i = self.index();
        if i == 0 {
            Self::from_index(RENDER_TARGET_CYCLE_COUNT - 2)
        } else {
            Self::from_index(i - 1)
        }
    }
}

/// Round trip between a name and its ordinal, both ways: the ordinal map is
/// a bijection between the cycle and `0 .. RENDER_TARGET_CYCLE_COUNT`.
pub proof fn lemma_render_target_index_bijective()
    ensures
        forall|t: RenderTargetType|
            spec_render_target_from_index(#[trigger] spec_render_target_index(t)) == t,
        forall|i: int|
            0 <= i < RENDER_TARGET_CYCLE_COUNT ==> spec_render_target_index(
                #[trigger] spec_render_target_from_index(i),
            ) == i,
{
}

/// Creation description shared by every entry of the registry table: one
/// image with the given extent, format, view dimensionality and sampler
/// filter/addressing, single-sampled, with a full mip chain and without
/// anisotropic filtering.
pub open spec fn spec_target_info(
    name: RenderTargetType,
    width: u32,
    height: u32,
    depth: u32,
    layers: u32,
    format: Format,
    view_type: ImageViewType,
    filter: Filter,
    wrap: SamplerAddressMode,
) -> TextureCreateInfo {
    TextureCreateInfo {
        _texture_name: name,
        _texture_width: width,
        _texture_height: height,
        _texture_depth: depth,
        _texture_layers: layers,
        _texture_format: format,
        _texture_view_type: view_type,
        _texture_samples: SampleCount::Type1,
        _texture_min_filter: filter,
        _texture_mag_filter: filter,
        _texture_wrap_mode: wrap,
        _enable_mipmap: true,
        _enable_anisotropy: false,
    }
}

fn target_info(
    name: RenderTargetType,
    width: u32,
    height: u32,
    depth: u32,
    layers: u32,
    format: Format,
    view_type: ImageViewType,
    filter: Filter,
    wrap: SamplerAddressMode,
) -> (r: TextureCreateInfo)
    ensures
        r == spec_target_info(name, width, height, depth, layers, format, view_type, filter, wrap),
{
    TextureCreateInfo {
        _texture_name: name,
        _texture_width: width,
        _texture_height: height,
        _texture_depth: depth,
        _texture_layers: layers,
        _texture_format: format,
        _texture_view_type: view_type,
        _texture_samples: SampleCount::Type1,
        _texture_min_filter: filter,
        _texture_mag_filter: filter,
        _texture_wrap_mode: wrap,
        _enable_mipmap: true,
        _enable_anisotropy: false,
    }
}

/// The registry's creation policy for one target at the given window
/// extent: scene-resolution targets use the full extent, the bloom, light
/// shaft and ambient-occlusion targets half of it, the reflection targets a
/// quarter; the shadow map and the ocean textures are
/// resolution-independent.  The sentinel maps to the first target's entry
/// and is never created.
pub open spec fn spec_render_target_create_info(
    t: RenderTargetType,
    width: u32,
    height: u32,
) -> TextureCreateInfo {
    match t {
        RenderTargetType::SceneColor => spec_target_info(
            t,
            width,
            height,
            1,
            1,
            Format::R16G16B16A16_SFLOAT,
            ImageViewType::Type2d,
            Filter::Linear,
            SamplerAddressMode::ClampToEdge,
        ),
        RenderTargetType::SceneColorCopy => spec_target_info(
            t,
            width,
            height,
            1,
            1,
            Format::R16G16B16A16_SFLOAT,
            ImageViewType::Type2d,
            Filter::Linear,
            SamplerAddressMode::ClampToEdge,
        ),
        RenderTargetType::SceneDepth => spec_target_info(
            t,
            width,
            height,
            1,
            1,
            Format::D32_SFLOAT,
            ImageViewType::Type2d,
            Filter::Nearest,
            SamplerAddressMode::ClampToEdge,
        ),
        RenderTargetType::HierarchicalMinZ => spec_target_info(
            t,
            width,
            height,
            1,
            1,
            Format::R32_SFLOAT,
            ImageViewType::Type2d,
            Filter::Nearest,
            SamplerAddressMode::ClampToEdge,
        ),
        RenderTargetType::BackBuffer => spec_target_info(
            t,
            width,
            height,
            1,
            1,
            Format::R8G8B8A8_UNORM,
            ImageViewType::Type2d,
            Filter::Linear,
            SamplerAddressMode::ClampToEdge,
        ),
        RenderTargetType::BackBufferCopy => spec_target_info(
            t,
            width,
            height,
            1,
            1,
            Format::R8G8B8A8_UNORM,
            ImageViewType::Type2d,
            Filter::Linear,
            SamplerAddressMode::ClampToEdge,
        ),
        RenderTargetType::SceneAlbedo => spec_target_info(
            t,
            width,
            height,
            1,
            1,
            Format::R8G8B8A8_UNORM,
            ImageViewType::Type2d,
            Filter::Linear,
            SamplerAddressMode::ClampToEdge,
        ),
        RenderTargetType::SceneNormal => spec_target_info(
            t,
            width,
            height,
            1,
            1,
            Format::R8G8B8A8_UNORM,
            ImageViewType::Type2d,
            Filter::Nearest,
            SamplerAddressMode::ClampToEdge,
        ),
        RenderTargetType::SceneMaterial => spec_target_info(
            t,
            width,
            height,
            1,
            1,
            Format::R8G8B8A8_UNORM,
            ImageViewType::Type2d,
            Filter::Nearest,
            SamplerAddressMode::ClampToEdge,
        ),
        RenderTargetType::SceneVelocity => spec_target_info(
            t,
            width,
            height,
            1,
            1,
            Format::R16G16_SFLOAT,
            ImageViewType::Type2d,
            Filter::Nearest,
            SamplerAddressMode::ClampToEdge,
        ),
        RenderTargetType::TAAResolve => spec_target_info(
            t,
            width,
            height,
            1,
            1,
            Format::R16G16B16A16_SFLOAT,
            ImageViewType::Type2d,
            Filter::Linear,
            SamplerAddressMode::ClampToEdge,
        ),
        RenderTargetType::Bloom0 => spec_target_info(
            t,
            width / 2,
            height / 2,
            1,
            1,
            Format::R16G16B16A16_SFLOAT,
            ImageViewType::Type2d,
            Filter::Linear,
            SamplerAddressMode::ClampToEdge,
        ),
        RenderTargetType::BloomTemp0 => spec_target_info(
            t,
            width / 2,
            height / 2,
            1,
            1,
            Format::R16G16B16A16_SFLOAT,
            ImageViewType::Type2d,
            Filter::Linear,
            SamplerAddressMode::ClampToEdge,
        ),
        RenderTargetType::LightShaft => spec_target_info(
            t,
            width / 2,
            height / 2,
            1,
            1,
            Format::R16G16B16A16_SFLOAT,
            ImageViewType::Type2d,
            Filter::Linear,
            SamplerAddressMode::ClampToEdge,
        ),
        RenderTargetType::SSAO => spec_target_info(
            t,
            width / 2,
            height / 2,
            1,
            1,
            Format::R16_SFLOAT,
            ImageViewType::Type2d,
            Filter::Linear,
            SamplerAddressMode::ClampToEdge,
        ),
        RenderTargetType::SSAOTemp => spec_target_info(
            t,
            width / 2,
            height / 2,
            1,
            1,
            Format::R16_SFLOAT,
            ImageViewType::Type2d,
            Filter::Linear,
            SamplerAddressMode::ClampToEdge,
        ),
        RenderTargetType::Shadow => spec_target_info(
            t,
            SHADOW_MAP_SIZE,
            SHADOW_MAP_SIZE,
            1,
            1,
            Format::D32_SFLOAT,
            ImageViewType::Type2d,
            Filter::Nearest,
            SamplerAddressMode::ClampToEdge,
        ),
        RenderTargetType::SSR => spec_target_info(
            t,
            width / 4,
            height / 4,
            1,
            1,
            Format::R16G16B16A16_SFLOAT,
            ImageViewType::Type2d,
            Filter::Linear,
            SamplerAddressMode::ClampToEdge,
        ),
        RenderTargetType::SSRResolved => spec_target_info(
            t,
            width / 4,
            height / 4,
            1,
            1,
            Format::R16G16B16A16_SFLOAT,
            ImageViewType::Type2d,
            Filter::Linear,
            SamplerAddressMode::ClampToEdge,
        ),
        RenderTargetType::SSRResolvedPrev => spec_target_info(
            t,
            width / 4,
            height / 4,
            1,
            1,
            Format::R16G16B16A16_SFLOAT,
            ImageViewType::Type2d,
            Filter::Linear,
            SamplerAddressMode::ClampToEdge,
        ),
        RenderTargetType::FFT_A => spec_target_info(
            t,
            FFT_SIZE,
            FFT_SIZE,
            1,
            FFT_LAYER_COUNT,
            Format::R16G16B16A16_SFLOAT,
            ImageViewType::Type2dArray,
            Filter::Linear,
            SamplerAddressMode::Repeat,
        ),
        RenderTargetType::FFT_B => spec_target_info(
            t,
            FFT_SIZE,
            FFT_SIZE,
            1,
            FFT_LAYER_COUNT,
            Format::R16G16B16A16_SFLOAT,
            ImageViewType::Type2dArray,
            Filter::Linear,
            SamplerAddressMode::Repeat,
        ),
        RenderTargetType::FFT_SLOPE_VARIANCE => spec_target_info(
            t,
            N_SLOPE_VARIANCE,
            N_SLOPE_VARIANCE,
            N_SLOPE_VARIANCE,
            1,
            Format::R16G16B16A16_SFLOAT,
            ImageViewType::Type3d,
            Filter::Linear,
            SamplerAddressMode::ClampToEdge,
        ),
        RenderTargetType::MaxBound => spec_target_info(
            RenderTargetType::SceneColor,
            width,
            height,
            1,
            1,
            Format::R16G16B16A16_SFLOAT,
            ImageViewType::Type2d,
            Filter::Linear,
            SamplerAddressMode::ClampToEdge,
        ),
    }
}

/// Creation description of one render target at the given window extent.
pub fn render_target_create_info(t: RenderTargetType, width: u32, height: u32) -> (r:
    TextureCreateInfo)
    requires
        t != RenderTargetType::MaxBound,
    ensures
        r == spec_render_target_create_info(t, width, height),
{
    match t {
        RenderTargetType::SceneColor => target_info(
            t,
            width,
            height,
            1,
            1,
            Format::R16G16B16A16_SFLOAT,
            ImageViewType::Type2d,
            Filter::Linear,
            SamplerAddressMode::ClampToEdge,
        ),
        RenderTargetType::SceneColorCopy => target_info(
            t,
            width,
            height,
            1,
            1,
            Format::R16G16B16A16_SFLOAT,
            ImageViewType::Type2d,
            Filter::Linear,
            SamplerAddressMode::ClampToEdge,
        ),
        RenderTargetType::SceneDepth => target_info(
            t,
            width,
            height,
            1,
            1,
            Format::D32_SFLOAT,
            ImageViewType::Type2d,
            Filter::Nearest,
            SamplerAddressMode::ClampToEdge,
        ),
        RenderTargetType::HierarchicalMinZ => target_info(
            t,
            width,
            height,
            1,
            1,
            Format::R32_SFLOAT,
            ImageViewType::Type2d,
            Filter::Nearest,
            SamplerAddressMode::ClampToEdge,
        ),
        RenderTargetType::BackBuffer => target_info(
            t,
            width,
            height,
            1,
            1,
            Format::R8G8B8A8_UNORM,
            ImageViewType::Type2d,
            Filter::Linear,
            SamplerAddressMode::ClampToEdge,
        ),
        RenderTargetType::BackBufferCopy => target_info(
            t,
            width,
            height,
            1,
            1,
            Format::R8G8B8A8_UNORM,
            ImageViewType::Type2d,
            Filter::Linear,
            SamplerAddressMode::ClampToEdge,
        ),
        RenderTargetType::SceneAlbedo => target_info(
            t,
            width,
            height,
            1,
            1,
            Format::R8G8B8A8_UNORM,
            ImageViewType::Type2d,
            Filter::Linear,
            SamplerAddressMode::ClampToEdge,
        ),
        RenderTargetType::SceneNormal => target_info(
            t,
            width,
            height,
            1,
            1,
            Format::R8G8B8A8_UNORM,
            ImageViewType::Type2d,
            Filter::Nearest,
            SamplerAddressMode::ClampToEdge,
        ),
        RenderTargetType::SceneMaterial => target_info(
            t,
            width,
            height,
            1,
            1,
            Format::R8G8B8A8_UNORM,
            ImageViewType::Type2d,
            Filter::Nearest,
            SamplerAddressMode::ClampToEdge,
        ),
        RenderTargetType::SceneVelocity => target_info(
            t,
            width,
            height,
            1,
            1,
            Format::R16G16_SFLOAT,
            ImageViewType::Type2d,
            Filter::Nearest,
            SamplerAddressMode::ClampToEdge,
        ),
        RenderTargetType::TAAResolve => target_info(
            t,
            width,
            height,
            1,
            1,
            Format::R16G16B16A16_SFLOAT,
            ImageViewType::Type2d,
            Filter::Linear,
            SamplerAddressMode::ClampToEdge,
        ),
        RenderTargetType::Bloom0 => target_info(
            t,
            width / 2,
            height / 2,
            1,
            1,
            Format::R16G16B16A16_SFLOAT,
            ImageViewType::Type2d,
            Filter::Linear,
            SamplerAddressMode::ClampToEdge,
        ),
        RenderTargetType::BloomTemp0 => target_info(
            t,
            width / 2,
            height / 2,
            1,
            1,
            Format::R16G16B16A16_SFLOAT,
            ImageViewType::Type2d,
            Filter::Linear,
            SamplerAddressMode::ClampToEdge,
        ),
        RenderTargetType::LightShaft => target_info(
            t,
            width / 2,
            height / 2,
            1,
            1,
            Format::R16G16B16A16_SFLOAT,
            ImageViewType::Type2d,
            Filter::Linear,
            SamplerAddressMode::ClampToEdge,
        ),
        RenderTargetType::SSAO => target_info(
            t,
            width / 2,
            height / 2,
            1,
            1,
            Format::R16_SFLOAT,
            ImageViewType::Type2d,
            Filter::Linear,
            SamplerAddressMode::ClampToEdge,
        ),
        RenderTargetType::SSAOTemp => target_info(
            t,
            width / 2,
            height / 2,
            1,
            1,
            Format::R16_SFLOAT,
            ImageViewType::Type2d,
            Filter::Linear,
            SamplerAddressMode::ClampToEdge,
        ),
        RenderTargetType::Shadow => target_info(
            t,
            SHADOW_MAP_SIZE,
            SHADOW_MAP_SIZE,
            1,
            1,
            Format::D32_SFLOAT,
            ImageViewType::Type2d,
            Filter::Nearest,
            SamplerAddressMode::ClampToEdge,
        ),
        RenderTargetType::SSR => target_info(
            t,
            width / 4,
            height / 4,
            1,
            1,
            Format::R16G16B16A16_SFLOAT,
            ImageViewType::Type2d,
            Filter::Linear,
            SamplerAddressMode::ClampToEdge,
        ),
        RenderTargetType::SSRResolved => target_info(
            t,
            width / 4,
            height / 4,
            1,
            1,
            Format::R16G16B16A16_SFLOAT,
            ImageViewType::Type2d,
            Filter::Linear,
            SamplerAddressMode::ClampToEdge,
        ),
        RenderTargetType::SSRResolvedPrev => target_info(
            t,
            width / 4,
            height / 4,
            1,
            1,
            Format::R16G16B16A16_SFLOAT,
            ImageViewType::Type2d,
            Filter::Linear,
            SamplerAddressMode::ClampToEdge,
        ),
        RenderTargetType::FFT_A => target_info(
            t,
            FFT_SIZE,
            FFT_SIZE,
            1,
            FFT_LAYER_COUNT,
            Format::R16G16B16A16_SFLOAT,
            ImageViewType::Type2dArray,
            Filter::Linear,
            SamplerAddressMode::Repeat,
        ),
        RenderTargetType::FFT_B => target_info(
            t,
            FFT_SIZE,
            FFT_SIZE,
            1,
            FFT_LAYER_COUNT,
            Format::R16G16B16A16_SFLOAT,
            ImageViewType::Type2dArray,
            Filter::Linear,
            SamplerAddressMode::Repeat,
        ),
        RenderTargetType::FFT_SLOPE_VARIANCE => target_info(
            t,
            N_SLOPE_VARIANCE,
            N_SLOPE_VARIANCE,
            N_SLOPE_VARIANCE,
            1,
            Format::R16G16B16A16_SFLOAT,
            ImageViewType::Type3d,
            Filter::Linear,
            SamplerAddressMode::ClampToEdge,
        ),
        RenderTargetType::MaxBound => target_info(
            RenderTargetType::SceneColor,
            width,
            height,
            1,
            1,
            Format::R16G16B16A16_SFLOAT,
            ImageViewType::Type2d,
            Filter::Linear,
            SamplerAddressMode::ClampToEdge,
        ),
    }
}

/// The whole registry table at the given window extent, one entry per
/// render target, in declaration order.
pub open spec fn spec_render_target_create_infos(width: u32, height: u32) -> Seq<
    TextureCreateInfo,
> {
    Seq::new(
        RENDER_TARGET_COUNT as nat,
        |i: int| spec_render_target_create_info(spec_render_target_from_index(i), width, height),
    )
}

/// Every entry of the table is creatable (all dimensions at least one) as
/// soon as the window is at least four texels on each side, the quarter
/// resolution of the reflection targets included.
pub proof fn lemma_render_target_create_infos_wf(width: u32, height: u32)
    requires
        4 <= width,
        4 <= height,
    ensures
        forall|i: int|
            0 <= i < RENDER_TARGET_COUNT ==> (#[trigger] spec_render_target_create_infos(
                width,
                height,
            )[i]).wf(),
{
}

/// The registry's creation table for the given window extent.  The table is
/// a function of the extent alone: building it twice, or rebuilding it after
/// a resize back to the same extent, yields a structurally identical table.
pub fn get_render_target_create_infos(width: u32, height: u32) -> (r: Vec<TextureCreateInfo>)
    requires
        4 <= width,
        4 <= height,
    ensures
        r@ == spec_render_target_create_infos(width, height),
        r@.len() == RENDER_TARGET_COUNT,
{
    let mut infos: Vec<TextureCreateInfo> = Vec::new();
    let mut i: usize = 0;
    while i < RENDER_TARGET_COUNT
        invariant
            i <= RENDER_TARGET_COUNT,
            infos@.len() == i,
            forall|j: int|
                0 <= j < i ==> infos@[j] == spec_render_target_create_info(
                    spec_render_target_from_index(j),
                    width,
                    height,
                ),
        decreases RENDER_TARGET_COUNT - i,
    {
        let t = RenderTargetType::from_index(i);
        infos.push(render_target_create_info(t, width, height));
        i = i + 1;
    }
    proof {
        assert(infos@ =~= spec_render_target_create_infos(width, height));
    }
    infos
}

} // verus!
