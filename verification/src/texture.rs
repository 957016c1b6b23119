//! Texture descriptions and the mip-chain arithmetic: how many levels a full
//! mip chain has, and how a dimension shrinks from one level to the next.

use vstd::prelude::*;
use vstd::arithmetic::power2::{pow2, lemma_pow2_unfold, lemma_pow2_pos, lemma2_to64};
use vstd::arithmetic::div_mod::lemma_div_denominator;
use crate::render_target::RenderTargetType;
use crate::vk_types::{Filter, Format, ImageViewType, SampleCount, SamplerAddressMode};

verus! {

/// Length of the full mip chain of an image whose largest dimension is `n`:
/// one level for the base image plus one for each halving until a single
/// texel is left.  Equals `floor(log2(n)) + 1` (see
/// `lemma_mip_levels_is_floor_log2`).
pub open spec fn spec_mip_levels(n: nat) -> nat
    decreases n,
{
    if n <= 1 {
        1
    } else {
        (1 + spec_mip_levels(n / 2)) as nat
    }
}

/// `spec_mip_levels(n)` is exactly `floor(log2(n)) + 1`: the number of levels
/// `l` is the unique value with `pow2(l - 1) <= n < pow2(l)`.
pub proof fn lemma_mip_levels_is_floor_log2(n: nat)
    requires
        1 <= n,
    ensures
        pow2((spec_mip_levels(n) - 1) as nat) <= n < pow2(spec_mip_levels(n)),
    decreases n,
{
    if n <= 1 {
        assert(pow2(0) == 1 && pow2(1) == 2) by {
            lemma2_to64();
        }
    } else {
        lemma_mip_levels_is_floor_log2(n / 2);
        let m = spec_mip_levels(n / 2);
        lemma_pow2_unfold(m);
        lemma_pow2_unfold((m + 1) as nat);
        assert(pow2(m) == 2 * pow2((m - 1) as nat));
        assert(pow2(m) <= 2 * (n / 2) <= n);
        assert(n < 2 * pow2(m) == pow2((m + 1) as nat));
    }
}

/// A chain never exceeds `k` levels while the largest dimension is below
/// `pow2(k)`; with `k == 32` this bounds the result for any `u32` dimension.
proof fn lemma_mip_levels_bound(n: nat, k: nat)
    requires
        1 <= n < pow2(k),
    ensures
        spec_mip_levels(n) <= k,
    decreases n,
{
    assert(pow2(0) == 1) by {
        lemma2_to64();
    }
    if k == 0 {
        assert(false);
    } else if 1 < n {
        lemma_pow2_unfold(k);
        assert(n / 2 < pow2((k - 1) as nat));
        lemma_mip_levels_bound(n / 2, (k - 1) as nat);
    }
}

/// Mip-chain length of an image with the given dimensions:
/// `floor(log2(max(w, h, d))) + 1`.
pub fn calc_mip_levels(image_width: u32, image_height: u32, image_depth: u32) -> (r: u32)
    requires
        1 <= image_width || 1 <= image_height || 1 <= image_depth,
    ensures
        r == spec_mip_levels(vstd::math::max3(
            image_width as int,
            image_height as int,
            image_depth as int,
        ) as nat),
{
    let mut max_size: u32 = image_width;
    if max_size < image_height {
        max_size = image_height;
    }
    if max_size < image_depth {
        max_size = image_depth;
    }
    let ghost n = vstd::math::max3(image_width as int, image_height as int, image_depth as int)
        as nat;
    let mut levels: u32 = 1;
    let mut size: u32 = max_size;
    proof {
        assert(u32::MAX < pow2(32)) by {
            lemma2_to64();
        }
        lemma_mip_levels_bound(n, 32);
    }
    while 1 < size
        invariant
            1 <= size <= max_size,
            max_size == n,
            1 <= levels,
            levels - 1 + spec_mip_levels(size as nat) == spec_mip_levels(n),
            spec_mip_levels(n) <= 32,
        decreases size,
    {
        size = size / 2;
        levels = levels + 1;
    }
    levels
}

/// The next smaller mip dimension: half the current one, never below one.
pub fn next_mipmap_size(n: i32) -> (r: i32)
    ensures
        r == if 1 < n {
            n / 2
        } else {
            1
        },
{
    if 1 < n {
        n / 2
    } else {
        1
    }
}

/// Dimension of mip level `mip` of an image whose base dimension is `base`:
/// halved `mip` times, never below one texel.
pub open spec fn spec_mip_dimension(base: nat, mip: nat) -> nat {
    if base / pow2(mip) < 1 {
        1
    } else {
        base / pow2(mip)
    }
}

pub fn mip_dimension(base: u32, mip: u32) -> (r: u32)
    ensures
        r == spec_mip_dimension(base as nat, mip as nat),
{
    let mut d: u32 = base;
    let mut i: u32 = 0;
    proof {
        assert(pow2(0) == 1) by {
            lemma2_to64();
        }
    }
    while i < mip
        invariant
            i <= mip,
            d == base as nat / pow2(i as nat),
        decreases mip - i,
    {
        proof {
            lemma_pow2_pos(i as nat);
            lemma_pow2_unfold((i + 1) as nat);
            lemma_div_denominator(base as int, pow2(i as nat) as int, 2);
        }
        d = d / 2;
        i = i + 1;
    }
    if d < 1 {
        1
    } else {
        d
    }
}

/// A creatable texture asks for between one and 32 mip levels: the full
/// chain of any `u32` dimension fits a `u32` mip count.
pub proof fn lemma_texture_mip_levels_range(info: TextureCreateInfo)
    requires
        info.wf(),
    ensures
        1 <= spec_texture_mip_levels(info) <= 32,
{
    if info._enable_mipmap {
        let n = vstd::math::max3(
            info._texture_width as int,
            info._texture_height as int,
            info._texture_depth as int,
        ) as nat;
        assert(u32::MAX < pow2(32)) by {
            lemma2_to64();
        }
        lemma_mip_levels_bound(n, 32);
    }
}

/// Everything the render-target registry decides about one texture before
/// any allocation happens: identity, dimensions, format, sampler policy, and
/// whether a full mip chain is built.
#[derive(Clone, Copy, Debug, PartialEq, Eq, Structural)]
pub struct TextureCreateInfo {
    pub _texture_name: RenderTargetType,
    pub _texture_width: u32,
    pub _texture_height: u32,
    pub _texture_depth: u32,
    pub _texture_layers: u32,
    pub _texture_format: Format,
    pub _texture_view_type: ImageViewType,
    pub _texture_samples: SampleCount,
    pub _texture_min_filter: Filter,
    pub _texture_mag_filter: Filter,
    pub _texture_wrap_mode: SamplerAddressMode,
    pub _enable_mipmap: bool,
    pub _enable_anisotropy: bool,
}

impl TextureCreateInfo {
    /// A creatable texture has at least one texel in each dimension and at
    /// least one layer.
    pub open spec fn wf(self) -> bool {
        1 <= self._texture_width && 1 <= self._texture_height && 1 <= self._texture_depth && 1
            <= self._texture_layers
    }
}

/// The observable shape of one live texture: what the registry guarantees
/// about the image behind a render-target handle.
#[derive(Clone, Copy, Debug, PartialEq, Eq, Structural)]
pub struct TextureData {
    pub _texture_data_name: RenderTargetType,
    pub _image_width: u32,
    pub _image_height: u32,
    pub _image_depth: u32,
    pub _image_layers: u32,
    pub _image_mip_levels: u32,
    pub _image_format: Format,
    pub _image_view_type: ImageViewType,
    pub _image_sample_count: SampleCount,
}

/// The mip-level count a creation description asks for: the full chain when
/// mipmapping is enabled, a single level otherwise.
pub open spec fn spec_texture_mip_levels(info: TextureCreateInfo) -> nat {
    if info._enable_mipmap {
        spec_mip_levels(vstd::math::max3(
            info._texture_width as int,
            info._texture_height as int,
            info._texture_depth as int,
        ) as nat)
    } else {
        1
    }
}

/// The texture shape that creating from `info` must yield.
pub open spec fn spec_texture_data(info: TextureCreateInfo) -> TextureData {
    TextureData {
        _texture_data_name: info._texture_name,
        _image_width: info._texture_width,
        _image_height: info._texture_height,
        _image_depth: info._texture_depth,
        _image_layers: info._texture_layers,
        _image_mip_levels: spec_texture_mip_levels(info) as u32,
        _image_format: info._texture_format,
        _image_view_type: info._texture_view_type,
        _image_sample_count: info._texture_samples,
    }
}

/// Shape of the render target created from `info`: dimensions, format and
/// sampler policy are taken over unchanged, and the mip count follows
/// `spec_texture_mip_levels`.
pub fn create_render_target(info: &TextureCreateInfo) -> (r: TextureData)
    requires
        info.wf(),
    ensures
        r == spec_texture_data(*info),
{
    let mip_levels: u32 = if info._enable_mipmap {
        calc_mip_levels(info._texture_width, info._texture_height, info._texture_depth)
    } else {
        1
    };
    TextureData {
        _texture_data_name: info._texture_name,
        _image_width: info._texture_width,
        _image_height: info._texture_height,
        _image_depth: info._texture_depth,
        _image_layers: info._texture_layers,
        _image_mip_levels: mip_levels,
        _image_format: info._texture_format,
        _image_view_type: info._texture_view_type,
        _image_sample_count: info._texture_samples,
    }
}

} // verus!
