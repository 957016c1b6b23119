//! Per-feature post-process state: the reflection resolve ping-pong pair,
//! the downsampling dispatch arithmetic shared by the hierarchical min-Z,
//! scene-color and bloom chains, and the mip-chain provisioning counts.

use vstd::prelude::*;
use crate::framebuffer::{DescriptorResourceInfo, FramebufferData, create_framebuffer};
use crate::render_target::RenderTargetType;
use crate::texture::{TextureData, mip_dimension, spec_mip_dimension};

verus! {

/// The reflection-resolve ping-pong pair: which of the two equivalent
/// targets currently holds this frame's result and which holds the previous
/// frame's.  Reading the previous while writing the current is what makes a
/// cross-frame feedback loop safe; a single self-referencing binding would
/// read and write the same image in one pass.
#[allow(non_camel_case_types)]
#[derive(Clone, Copy, Debug, PartialEq, Eq, Structural)]
pub struct PostProcessData_SSR {
    pub _current_ssr_resolved: RenderTargetType,
    pub _previous_ssr_resolved: RenderTargetType,
}

/// The pair holds the two resolve targets, one in each role.
pub open spec fn spec_ssr_wf(s: PostProcessData_SSR) -> bool {
    (s._current_ssr_resolved == RenderTargetType::SSRResolved && s._previous_ssr_resolved
        == RenderTargetType::SSRResolvedPrev) || (s._current_ssr_resolved
        == RenderTargetType::SSRResolvedPrev && s._previous_ssr_resolved
        == RenderTargetType::SSRResolved)
}

/// The pair with its roles exchanged.
pub open spec fn spec_ssr_swapped(s: PostProcessData_SSR) -> PostProcessData_SSR {
    PostProcessData_SSR {
        _current_ssr_resolved: s._previous_ssr_resolved,
        _previous_ssr_resolved: s._current_ssr_resolved,
    }
}

/// The pair after `n` frame updates.
pub open spec fn spec_ssr_after(s: PostProcessData_SSR, n: nat) -> PostProcessData_SSR
    decreases n,
{
    if n == 0 {
        s
    } else {
        spec_ssr_swapped(spec_ssr_after(s, (n - 1) as nat))
    }
}

/// Ping-pong toggle: after an even number of frame updates the roles match
/// the original assignment; after an odd number they are exchanged exactly
/// once.
pub proof fn lemma_ssr_ping_pong(s: PostProcessData_SSR, n: nat)
    ensures
        spec_ssr_after(s, n) == if n % 2 == 0 {
            s
        } else {
            spec_ssr_swapped(s)
        },
    decreases n,
{
    if n > 0 {
        lemma_ssr_ping_pong(s, (n - 1) as nat);
    }
}

impl PostProcessData_SSR {
    /// The initial assignment of roles to the two resolve targets.
    pub fn new_default() -> (r: PostProcessData_SSR)
        ensures
            r._current_ssr_resolved == RenderTargetType::SSRResolved,
            r._previous_ssr_resolved == RenderTargetType::SSRResolvedPrev,
            spec_ssr_wf(r),
    {
        PostProcessData_SSR {
            _current_ssr_resolved: RenderTargetType::SSRResolved,
            _previous_ssr_resolved: RenderTargetType::SSRResolvedPrev,
        }
    }

    /// The per-frame role swap: current and previous exchange places, and
    /// nothing else changes.
    pub fn update(&mut self)
        ensures
            *final(self) == spec_ssr_swapped(*old(self)),
    {
        let temp = self._current_ssr_resolved;
        self._current_ssr_resolved = self._previous_ssr_resolved;
        self._previous_ssr_resolved = temp;
    }
}

/// Group count of a downsampling dispatch along one axis: the dispatch that
/// fills mip `mip_level + 1` from mip `mip_level` covers that destination
/// mip's extent, never fewer than one group.
pub fn dispatch_group_count(base_dim: u32, mip_level: u32) -> (r: u32)
    requires
        mip_level < 32,
    ensures
        r == spec_mip_dimension(base_dim as nat, (mip_level + 1) as nat),
        1 <= r,
{
    mip_dimension(base_dim, mip_level + 1)
}

/// Downsampling state of a mip-chained target (hierarchical min-Z and
/// scene-color downsampling): the base extent the dispatch arithmetic
/// starts from and one descriptor set per mip transition.
#[allow(non_camel_case_types)]
pub struct PostProcessData_HierachicalMinZ {
    pub _dispatch_group_x: u32,
    pub _dispatch_group_y: u32,
    pub _dispatch_count: u32,
}

impl PostProcessData_HierachicalMinZ {
    /// Adopt a target's base extent and mip count: one dispatch per mip
    /// transition.
    pub fn initialize(&mut self, render_target: &TextureData)
        requires
            1 <= render_target._image_mip_levels,
        ensures
            final(self)._dispatch_group_x == render_target._image_width,
            final(self)._dispatch_group_y == render_target._image_height,
            final(self)._dispatch_count == render_target._image_mip_levels - 1,
    {
        self._dispatch_group_x = render_target._image_width;
        self._dispatch_group_y = render_target._image_height;
        self._dispatch_count = render_target._image_mip_levels - 1;
    }
}

/// The bloom chain over a mip-chained half-resolution target: a downsample
/// framebuffer per mip transition and a pair of blur framebuffers (one
/// horizontal into the temporary target, one vertical back) per mip level.
#[allow(non_camel_case_types)]
pub struct PostProcessData_Bloom {
    pub _bloom_downsample_framebuffer_datas: Vec<FramebufferData>,
    pub _bloom_temp_framebuffer_datas: Vec<FramebufferData>,
}

impl PostProcessData_Bloom {
    /// Build the chain for the bloom target and its blur temporary: for a
    /// target with `n` mip levels, `n - 1` downsample framebuffers, the one
    /// for transition `m` rendering into mip `m + 1`, and `2 n` blur
    /// framebuffers, level `m`'s pair rendering into the temporary and the
    /// bloom target at mip `m`.
    pub fn initialize(
        &mut self,
        render_target_bloom0: &TextureData,
        render_target_bloom_temp0: &TextureData,
    )
        requires
            1 <= render_target_bloom0._image_layers,
            1 <= render_target_bloom_temp0._image_layers,
            1 <= render_target_bloom0._image_mip_levels,
            render_target_bloom0._image_mip_levels
                <= render_target_bloom_temp0._image_mip_levels,
        ensures
            final(self)._bloom_downsample_framebuffer_datas@.len()
                == render_target_bloom0._image_mip_levels - 1,
            forall|m: int|
                0 <= m < render_target_bloom0._image_mip_levels - 1 ==> (
                #[trigger] final(self)._bloom_downsample_framebuffer_datas@[m])._framebuffer_width
                    == spec_mip_dimension(render_target_bloom0._image_width as nat, (m + 1) as nat),
            final(self)._bloom_temp_framebuffer_datas@.len() == 2
                * render_target_bloom0._image_mip_levels,
    {
        self._bloom_downsample_framebuffer_datas = Vec::new();
        self._bloom_temp_framebuffer_datas = Vec::new();
        let mip_levels = render_target_bloom0._image_mip_levels;
        let mut mip_level: u32 = 0;
        while mip_level < mip_levels - 1
            invariant
                mip_level <= mip_levels - 1,
                mip_levels == render_target_bloom0._image_mip_levels,
                1 <= render_target_bloom0._image_layers,
                self._bloom_temp_framebuffer_datas@.len() == 0,
                self._bloom_downsample_framebuffer_datas@.len() == mip_level,
                forall|m: int|
                    0 <= m < mip_level ==> (
                    #[trigger] self._bloom_downsample_framebuffer_datas@[m])._framebuffer_width
                        == spec_mip_dimension(
                        render_target_bloom0._image_width as nat,
                        (m + 1) as nat,
                    ),
            decreases mip_levels - 1 - mip_level,
        {
            self._bloom_downsample_framebuffer_datas.push(
                create_framebuffer(render_target_bloom0, 0, mip_level + 1, None),
            );
            mip_level = mip_level + 1;
        }
        let mut mip_level: u32 = 0;
        while mip_level < mip_levels
            invariant
                mip_level <= mip_levels,
                mip_levels == render_target_bloom0._image_mip_levels,
                mip_levels <= render_target_bloom_temp0._image_mip_levels,
                1 <= render_target_bloom0._image_layers,
                1 <= render_target_bloom_temp0._image_layers,
                self._bloom_temp_framebuffer_datas@.len() == 2 * mip_level,
                self._bloom_downsample_framebuffer_datas@.len() == mip_levels - 1,
                forall|m: int|
                    0 <= m < mip_levels - 1 ==> (
                    #[trigger] self._bloom_downsample_framebuffer_datas@[m])._framebuffer_width
                        == spec_mip_dimension(
                        render_target_bloom0._image_width as nat,
                        (m + 1) as nat,
                    ),
            decreases mip_levels - mip_level,
        {
            self._bloom_temp_framebuffer_datas.push(
                create_framebuffer(render_target_bloom_temp0, 0, mip_level, None),
            );
            self._bloom_temp_framebuffer_datas.push(
                create_framebuffer(render_target_bloom0, 0, mip_level, None),
            );
            mip_level = mip_level + 1;
        }
    }
}


/// The two cross-wired framebuffer/descriptor pairs of a ping-pong feature:
/// each pair renders into one of the two equivalent targets while sampling
/// the other, and the frame's role swap selects a pair instead of rewriting
/// any binding.
pub struct PingPongTargets {
    pub _framebuffer_data0: FramebufferData,
    pub _descriptor_input0: DescriptorResourceInfo,
    pub _framebuffer_data1: FramebufferData,
    pub _descriptor_input1: DescriptorResourceInfo,
}

/// Provision the reflection-resolve ping-pong: the first pair renders into
/// the resolve target and reads the previous-frame target, the second pair
/// the other way around, both at the targets' base layer and mip level.
pub fn initialize_ssr_resolve(
    texture_ssr_resolved: &TextureData,
    texture_ssr_resolved_prev: &TextureData,
) -> (r: PingPongTargets)
    requires
        1 <= texture_ssr_resolved._image_layers,
        1 <= texture_ssr_resolved._image_mip_levels,
        1 <= texture_ssr_resolved_prev._image_layers,
        1 <= texture_ssr_resolved_prev._image_mip_levels,
    ensures
        r._framebuffer_data0._attachments@.len() == 1,
        r._framebuffer_data0._attachments@[0]._render_target
            == texture_ssr_resolved._texture_data_name,
        r._descriptor_input0 == DescriptorResourceInfo::DefaultImage(
            texture_ssr_resolved_prev._texture_data_name,
        ),
        r._framebuffer_data1._attachments@.len() == 1,
        r._framebuffer_data1._attachments@[0]._render_target
            == texture_ssr_resolved_prev._texture_data_name,
        r._descriptor_input1 == DescriptorResourceInfo::DefaultImage(
            texture_ssr_resolved._texture_data_name,
        ),
{
    let framebuffer_data0 = create_framebuffer(texture_ssr_resolved, 0, 0, None);
    let framebuffer_data1 = create_framebuffer(texture_ssr_resolved_prev, 0, 0, None);
    PingPongTargets {
        _framebuffer_data0: framebuffer_data0,
        _descriptor_input0: DescriptorResourceInfo::DefaultImage(
            texture_ssr_resolved_prev._texture_data_name,
        ),
        _framebuffer_data1: framebuffer_data1,
        _descriptor_input1: DescriptorResourceInfo::DefaultImage(
            texture_ssr_resolved._texture_data_name,
        ),
    }
}

} // verus!
