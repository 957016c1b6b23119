//! The renderer core state and its two protocols: the per-frame
//! acquire/record/submit/present cycle with its frame-slot rotation, and the
//! strictly ordered swapchain-recreation path that a resize or an
//! out-of-date presentation triggers.  The device work itself (waiting,
//! allocating, recording, submitting) happens outside; this state machine
//! decides what to do and accounts for the outcome events.

use vstd::prelude::*;
use crate::constants::{MAX_FRAME_COUNT, SWAPCHAIN_IMAGE_COUNT};
use crate::frame_sync::{
    AcquireResult, FrameResult, PresentResult, next_frame_index, spec_next_frame_index,
};
use crate::post_process::{PostProcessData_SSR, spec_ssr_swapped, spec_ssr_wf};
use crate::render_pass::{PipelineName, RenderPassName, RenderPassPipelineDataName};
use crate::render_target::{
    RENDER_TARGET_COUNT, RenderTargetType, get_render_target_create_infos,
    lemma_render_target_create_infos_wf, spec_render_target_create_info,
    spec_render_target_from_index, spec_render_target_index,
};
use crate::texture::{TextureData, create_render_target, spec_texture_data};
use crate::vk_types::RenderObjectType;

verus! {

/// The render-target table a well-formed renderer holds at the given window
/// extent: one live texture per render target, each shaped by the
/// registry's creation policy.
pub open spec fn spec_render_target_table(width: u32, height: u32) -> Seq<TextureData> {
    Seq::new(
        RENDER_TARGET_COUNT as nat,
        |i: int|
            spec_texture_data(
                spec_render_target_create_info(spec_render_target_from_index(i), width, height),
            ),
    )
}

/// One step of the fixed per-frame pass sequence, in the order the
/// orchestrator records it.
#[derive(Clone, Copy, Debug, PartialEq, Eq, Structural)]
pub enum FrameStep {
    /// Upload the scene/view/light/SSAO constants into the current
    /// swapchain image's buffer replicas.
    UploadUniformBuffers,
    /// The shadow pass of one skinning class; absent when that class has no
    /// elements this frame.
    RenderShadow(RenderObjectType),
    /// The opaque g-buffer pass of one skinning class; absent when that
    /// class has no elements this frame.
    RenderSolid(RenderObjectType),
    /// One complete begin/bind/draw/end unit over a full-screen quad.
    RenderPipeline(RenderPassPipelineDataName),
    /// The diagnostic overlay, rebinding its input to the selected target;
    /// absent while the back buffer itself is selected.
    RenderDebug(RenderTargetType),
}

/// The pass sequence of one frame: uniform upload, then shadow and opaque
/// passes per skinning class (each skipped when its element list is empty),
/// then the fixed post-process chain ending in the final composition, then
/// the overlay when a target other than the back buffer is selected.
pub open spec fn spec_frame_steps(
    has_static_elements: bool,
    has_skeletal_elements: bool,
    debug_render_target: RenderTargetType,
) -> Seq<FrameStep> {
    seq![FrameStep::UploadUniformBuffers] + (if has_static_elements {
        seq![FrameStep::RenderShadow(RenderObjectType::Static)]
    } else {
        Seq::empty()
    }) + (if has_skeletal_elements {
        seq![FrameStep::RenderShadow(RenderObjectType::Skeletal)]
    } else {
        Seq::empty()
    }) + (if has_static_elements {
        seq![FrameStep::RenderSolid(RenderObjectType::Static)]
    } else {
        Seq::empty()
    }) + (if has_skeletal_elements {
        seq![FrameStep::RenderSolid(RenderObjectType::Skeletal)]
    } else {
        Seq::empty()
    }) + seq![
        FrameStep::RenderPipeline(
            RenderPassPipelineDataName {
                _render_pass_data_name: RenderPassName::RenderSsao,
                _pipeline_data_name: PipelineName::RenderSsao,
            },
        ),
        FrameStep::RenderPipeline(
            RenderPassPipelineDataName {
                _render_pass_data_name: RenderPassName::CompositeGBuffer,
                _pipeline_data_name: PipelineName::CompositeGBuffer,
            },
        ),
        FrameStep::RenderPipeline(
            RenderPassPipelineDataName {
                _render_pass_data_name: RenderPassName::RenderMotionBlur,
                _pipeline_data_name: PipelineName::RenderMotionBlur,
            },
        ),
        FrameStep::RenderPipeline(
            RenderPassPipelineDataName {
                _render_pass_data_name: RenderPassName::RenderFinal,
                _pipeline_data_name: PipelineName::RenderFinal,
            },
        ),
    ] + (if debug_render_target != RenderTargetType::BackBuffer {
        seq![FrameStep::RenderDebug(debug_render_target)]
    } else {
        Seq::empty()
    })
}

pub struct RendererData {
    pub _frame_index: usize,
    pub _swapchain_index: usize,
    pub _need_recreate_swapchain: bool,
    pub _is_first_resize_event: bool,
    pub _swapchain_width: u32,
    pub _swapchain_height: u32,
    pub _debug_render_target: RenderTargetType,
    pub _debug_render_target_miplevel: u32,
    pub _render_target_data_map: Vec<TextureData>,
    pub _postprocess_ssr: PostProcessData_SSR,
}

impl RendererData {
    /// The frame-slot index the next frame will use.
    pub open spec fn spec_frame_index(self) -> int {
        self._frame_index as int
    }

    /// The swapchain-image index the last acquire returned.
    pub open spec fn spec_swapchain_index(self) -> int {
        self._swapchain_index as int
    }

    /// Whether the swapchain must be recreated before the next frame
    /// renders.
    pub open spec fn spec_need_recreate_swapchain(self) -> bool {
        self._need_recreate_swapchain
    }

    /// Renderer well-formedness: the indices are within their rotations,
    /// the window is large enough for the quarter-resolution targets, every
    /// render target is live with the shape the registry derives from the
    /// current extent, and the ping-pong pair holds both resolve targets.
    pub open spec fn wf(self) -> bool {
        &&& 0 <= self.spec_frame_index() < MAX_FRAME_COUNT
        &&& 0 <= self.spec_swapchain_index() < SWAPCHAIN_IMAGE_COUNT
        &&& 4 <= self._swapchain_width
        &&& 4 <= self._swapchain_height
        &&& self._debug_render_target_miplevel < 32
        &&& self._render_target_data_map@ == spec_render_target_table(
            self._swapchain_width,
            self._swapchain_height,
        )
        &&& spec_ssr_wf(self._postprocess_ssr)
    }

    pub fn get_need_recreate_swapchain(&self) -> (r: bool)
        ensures
            r == self.spec_need_recreate_swapchain(),
    {
        self._need_recreate_swapchain
    }

    pub fn set_need_recreate_swapchain(&mut self, value: bool)
        ensures
            *final(self) == (RendererData { _need_recreate_swapchain: value, ..*old(self) }),
    {
        self._need_recreate_swapchain = value;
    }

    pub fn get_is_first_resize_event(&self) -> (r: bool)
        ensures
            r == self._is_first_resize_event,
    {
        self._is_first_resize_event
    }

    pub fn set_is_first_resize_event(&mut self, value: bool)
        ensures
            *final(self) == (RendererData { _is_first_resize_event: value, ..*old(self) }),
    {
        self._is_first_resize_event = value;
    }

    pub fn get_swap_chain_index(&self) -> (r: usize)
        ensures
            r == self.spec_swapchain_index(),
    {
        self._swapchain_index
    }

    pub fn get_frame_index(&self) -> (r: usize)
        ensures
            r == self.spec_frame_index(),
    {
        self._frame_index
    }

    /// The live texture of one render target.
    pub fn get_render_target(&self, render_target_type: RenderTargetType) -> (r: &TextureData)
        requires
            self.wf(),
            render_target_type != RenderTargetType::MaxBound,
        ensures
            *r == spec_render_target_table(
                self._swapchain_width,
                self._swapchain_height,
            )[spec_render_target_index(render_target_type)],
    {
        let index = render_target_type.index();
        &self._render_target_data_map[index]
    }

    /// Select the next target in cycling order for the diagnostic overlay,
    /// and show it from its base mip level.
    pub fn next_debug_render_target(&mut self)
        ensures
            *final(self) == (RendererData {
                _debug_render_target: final(self)._debug_render_target,
                _debug_render_target_miplevel: 0,
                ..*old(self)
            }),
            spec_render_target_index(final(self)._debug_render_target)
                == if spec_render_target_index(old(self)._debug_render_target) == 23 {
                0int
            } else {
                spec_render_target_index(old(self)._debug_render_target) + 1
            },
    {
        self._debug_render_target = self._debug_render_target.next();
        self._debug_render_target_miplevel = 0;
        proof {
            crate::render_target::lemma_render_target_index_bijective();
        }
    }

    /// Select the previous target in cycling order for the diagnostic
    /// overlay, and show it from its base mip level.
    pub fn prev_debug_render_target(&mut self)
        ensures
            *final(self) == (RendererData {
                _debug_render_target: final(self)._debug_render_target,
                _debug_render_target_miplevel: 0,
                ..*old(self)
            }),
            spec_render_target_index(final(self)._debug_render_target)
                == if spec_render_target_index(old(self)._debug_render_target) == 0 {
                22int
            } else {
                spec_render_target_index(old(self)._debug_render_target) - 1
            },
    {
        self._debug_render_target = self._debug_render_target.prev();
        self._debug_render_target_miplevel = 0;
        proof {
            crate::render_target::lemma_render_target_index_bijective();
        }
    }

    /// Show the next mip level of the selected target, wrapping back to
    /// the base level past the last one; while the cycling sentinel is
    /// selected there is no texture and the level stays at the base.
    pub fn next_debug_render_target_miplevel(&mut self)
        requires
            old(self).wf(),
        ensures
            final(self).wf(),
            *final(self) == (RendererData {
                _debug_render_target_miplevel: final(self)._debug_render_target_miplevel,
                ..*old(self)
            }),
            final(self)._debug_render_target_miplevel == (
            if old(self)._debug_render_target == RenderTargetType::MaxBound {
                0int
            } else {
                (old(self)._debug_render_target_miplevel + 1) % (spec_render_target_table(
                    old(self)._swapchain_width,
                    old(self)._swapchain_height,
                )[spec_render_target_index(old(self)._debug_render_target)]._image_mip_levels
                    as int)
            }),
    {
        let is_sentinel = match self._debug_render_target {
            RenderTargetType::MaxBound => true,
            _ => false,
        };
        if is_sentinel {
            self._debug_render_target_miplevel = 0;
        } else {
            let mip_levels = self.get_render_target(self._debug_render_target)._image_mip_levels;
            proof {
                lemma_debug_target_mip_levels_range(*self);
            }
            self._debug_render_target_miplevel = (self._debug_render_target_miplevel + 1)
                % mip_levels;
        }
    }

    /// Show the previous mip level of the selected target, wrapping from
    /// the base level to the last one; while the cycling sentinel is
    /// selected there is no texture and the level stays at the base.
    pub fn prev_debug_render_target_miplevel(&mut self)
        requires
            old(self).wf(),
        ensures
            final(self).wf(),
            *final(self) == (RendererData {
                _debug_render_target_miplevel: final(self)._debug_render_target_miplevel,
                ..*old(self)
            }),
            final(self)._debug_render_target_miplevel == (
            if old(self)._debug_render_target == RenderTargetType::MaxBound {
                0int
            } else {
                (old(self)._debug_render_target_miplevel + spec_render_target_table(
                    old(self)._swapchain_width,
                    old(self)._swapchain_height,
                )[spec_render_target_index(old(self)._debug_render_target)]._image_mip_levels - 1)
                    % (spec_render_target_table(
                    old(self)._swapchain_width,
                    old(self)._swapchain_height,
                )[spec_render_target_index(old(self)._debug_render_target)]._image_mip_levels
                    as int)
            }),
    {
        let is_sentinel = match self._debug_render_target {
            RenderTargetType::MaxBound => true,
            _ => false,
        };
        if is_sentinel {
            self._debug_render_target_miplevel = 0;
        } else {
            let mip_levels = self.get_render_target(self._debug_render_target)._image_mip_levels;
            proof {
                lemma_debug_target_mip_levels_range(*self);
            }
            self._debug_render_target_miplevel = (self._debug_render_target_miplevel + mip_levels
                - 1) % mip_levels;
        }
    }

    /// The per-frame post-process bookkeeping: the reflection ping-pong
    /// pair swaps roles; everything else is untouched.
    pub fn update_post_process_datas(&mut self)
        requires
            old(self).wf(),
        ensures
            final(self).wf(),
            *final(self) == (RendererData {
                _postprocess_ssr: spec_ssr_swapped(old(self)._postprocess_ssr),
                ..*old(self)
            }),
    {
        self._postprocess_ssr.update();
    }

    /// Destroy and recreate every window-size-dependent render target at
    /// the current extent; the fixed-size targets are recreated with their
    /// unchanged fixed shape.  The caller must have made the device idle
    /// first: no in-flight work may reference the old targets.
    pub fn create_render_targets(&mut self)
        requires
            4 <= old(self)._swapchain_width,
            4 <= old(self)._swapchain_height,
        ensures
            *final(self) == (RendererData {
                _render_target_data_map: final(self)._render_target_data_map,
                ..*old(self)
            }),
            final(self)._render_target_data_map@ == spec_render_target_table(
                old(self)._swapchain_width,
                old(self)._swapchain_height,
            ),
    {
        let width = self._swapchain_width;
        let height = self._swapchain_height;
        let infos = get_render_target_create_infos(width, height);
        proof {
            lemma_render_target_create_infos_wf(width, height);
        }
        let mut table: Vec<TextureData> = Vec::new();
        let mut i: usize = 0;
        while i < RENDER_TARGET_COUNT
            invariant
                i <= RENDER_TARGET_COUNT,
                infos@ == crate::render_target::spec_render_target_create_infos(width, height),
                forall|j: int| 0 <= j < RENDER_TARGET_COUNT ==> (#[trigger] infos@[j]).wf(),
                table@.len() == i,
                forall|j: int|
                    0 <= j < i ==> table@[j] == spec_texture_data(
                        spec_render_target_create_info(
                            spec_render_target_from_index(j),
                            width,
                            height,
                        ),
                    ),
            decreases RENDER_TARGET_COUNT - i,
        {
            table.push(create_render_target(&infos[i]));
            i = i + 1;
        }
        self._render_target_data_map = table;
        proof {
            assert(self._render_target_data_map@ =~= spec_render_target_table(width, height));
        }
    }

    /// The swapchain-recreation protocol, in its strict order: the caller
    /// has made the device idle and recreated the swapchain at the new
    /// extent; this step drops and rebuilds the window-size-dependent
    /// render targets at that extent and clears the recreate flag.  The
    /// frame-slot and swapchain indices survive a resize.
    pub fn resize_window(&mut self, width: u32, height: u32)
        requires
            old(self).wf(),
            4 <= width,
            4 <= height,
        ensures
            final(self).wf(),
            *final(self) == (RendererData {
                _swapchain_width: width,
                _swapchain_height: height,
                _need_recreate_swapchain: false,
                _render_target_data_map: final(self)._render_target_data_map,
                ..*old(self)
            }),
            final(self)._render_target_data_map@ == spec_render_target_table(width, height),
    {
        self._swapchain_width = width;
        self._swapchain_height = height;
        self.create_render_targets();
        self._need_recreate_swapchain = false;
    }

    /// One frame of the synchronization protocol, accounting for the two
    /// outside events: what acquire reported before recording, and what
    /// presenting reported after.  A frame whose acquire came back out of
    /// date or suboptimal is skipped and asks for recreation; a presented
    /// frame that reported out of date or suboptimal asks for recreation
    /// after the fact; a lost device is surfaced unrendered.  The
    /// frame-slot index advances by one modulo `MAX_FRAME_COUNT` in every
    /// case.
    ///
    /// This controller takes the fully synchronous side of the fence
    /// trade-off: the caller drains the device after each present, so a
    /// slot's earlier work is already complete (its fence signaled) when
    /// the slot comes around again — simpler, at the cost of one full
    /// device round trip of latency per frame.  The rotation itself is
    /// bounded by `lemma_frame_slot_rotation`: a slot is reused exactly
    /// every `MAX_FRAME_COUNT` frames.
    pub fn render_frame(
        &mut self,
        acquire_result: AcquireResult,
        present_result: PresentResult,
    ) -> (r: FrameResult)
        requires
            old(self).wf(),
            !old(self).spec_need_recreate_swapchain(),
            acquire_result matches AcquireResult::Acquired { image_index, .. } ==> image_index
                < SWAPCHAIN_IMAGE_COUNT,
        ensures
            final(self).wf(),
            *final(self) == (RendererData {
                _frame_index: final(self)._frame_index,
                _swapchain_index: final(self)._swapchain_index,
                _need_recreate_swapchain: final(self)._need_recreate_swapchain,
                ..*old(self)
            }),
            final(self).spec_frame_index() == spec_next_frame_index(old(self).spec_frame_index()),
            final(self).spec_swapchain_index() == (match acquire_result {
                AcquireResult::Acquired { image_index, .. } => image_index as int,
                AcquireResult::OutOfDate => old(self).spec_swapchain_index(),
            }),
            (match acquire_result {
                AcquireResult::OutOfDate => {
                    &&& r == FrameResult::NeedsRetry
                    &&& final(self).spec_need_recreate_swapchain()
                },
                AcquireResult::Acquired { image_index, suboptimal } => {
                    if suboptimal {
                        &&& r == FrameResult::NeedsRetry
                        &&& final(self).spec_need_recreate_swapchain()
                    } else {
                        match present_result {
                            PresentResult::Success => {
                                &&& r == FrameResult::Rendered
                                &&& !final(self).spec_need_recreate_swapchain()
                            },
                            PresentResult::Suboptimal => {
                                &&& r == FrameResult::Rendered
                                &&& final(self).spec_need_recreate_swapchain()
                            },
                            PresentResult::OutOfDate => {
                                &&& r == FrameResult::Rendered
                                &&& final(self).spec_need_recreate_swapchain()
                            },
                            PresentResult::DeviceLost => {
                                &&& r == FrameResult::DeviceLost
                                &&& !final(self).spec_need_recreate_swapchain()
                            },
                        }
                    }
                },
            }),
    {
        let result: FrameResult = match acquire_result {
            AcquireResult::OutOfDate => {
                self._need_recreate_swapchain = true;
                FrameResult::NeedsRetry
            },
            AcquireResult::Acquired { image_index, suboptimal } => {
                self._swapchain_index = image_index as usize;
                if suboptimal {
                    self._need_recreate_swapchain = true;
                    FrameResult::NeedsRetry
                } else {
                    match present_result {
                        PresentResult::Success => FrameResult::Rendered,
                        PresentResult::Suboptimal => {
                            self._need_recreate_swapchain = true;
                            FrameResult::Rendered
                        },
                        PresentResult::OutOfDate => {
                            self._need_recreate_swapchain = true;
                            FrameResult::Rendered
                        },
                        PresentResult::DeviceLost => FrameResult::DeviceLost,
                    }
                }
            },
        };
        self._frame_index = next_frame_index(self._frame_index);
        result
    }

    /// The ordered pass sequence the orchestrator records for one frame,
    /// given which element lists are non-empty and which target the
    /// diagnostic overlay shows.
    pub fn plan_frame(&self, has_static_elements: bool, has_skeletal_elements: bool) -> (r: Vec<
        FrameStep,
    >)
        ensures
            r@ == spec_frame_steps(
                has_static_elements,
                has_skeletal_elements,
                self._debug_render_target,
            ),
    {
        let mut steps: Vec<FrameStep> = Vec::new();
        steps.push(FrameStep::UploadUniformBuffers);
        if has_static_elements {
            steps.push(FrameStep::RenderShadow(RenderObjectType::Static));
        }
        if has_skeletal_elements {
            steps.push(FrameStep::RenderShadow(RenderObjectType::Skeletal));
        }
        if has_static_elements {
            steps.push(FrameStep::RenderSolid(RenderObjectType::Static));
        }
        if has_skeletal_elements {
            steps.push(FrameStep::RenderSolid(RenderObjectType::Skeletal));
        }
        steps.push(
            FrameStep::RenderPipeline(
                RenderPassPipelineDataName {
                    _render_pass_data_name: RenderPassName::RenderSsao,
                    _pipeline_data_name: PipelineName::RenderSsao,
                },
            ),
        );
        steps.push(
            FrameStep::RenderPipeline(
                RenderPassPipelineDataName {
                    _render_pass_data_name: RenderPassName::CompositeGBuffer,
                    _pipeline_data_name: PipelineName::CompositeGBuffer,
                },
            ),
        );
        steps.push(
            FrameStep::RenderPipeline(
                RenderPassPipelineDataName {
                    _render_pass_data_name: RenderPassName::RenderMotionBlur,
                    _pipeline_data_name: PipelineName::RenderMotionBlur,
                },
            ),
        );
        steps.push(
            FrameStep::RenderPipeline(
                RenderPassPipelineDataName {
                    _render_pass_data_name: RenderPassName::RenderFinal,
                    _pipeline_data_name: PipelineName::RenderFinal,
                },
            ),
        );
        let is_back_buffer = match self._debug_render_target {
            RenderTargetType::BackBuffer => true,
            _ => false,
        };
        if !is_back_buffer {
            steps.push(FrameStep::RenderDebug(self._debug_render_target));
        }
        proof {
            assert(steps@ =~= spec_frame_steps(
                has_static_elements,
                has_skeletal_elements,
                self._debug_render_target,
            ));
        }
        steps
    }
}

/// One recorded command of a multi-draw pass (shadow or opaque): bind the
/// descriptor sets of one pipeline binding, or draw one element.
#[derive(Clone, Copy, Debug, PartialEq, Eq, Structural)]
pub enum DrawCommand {
    /// Bind the descriptor sets of the pipeline binding with this index.
    BindDescriptors(usize),
    /// Draw the element at this position of the frame's element list.
    Draw(usize),
}

/// The command sequence that draws every element in order, binding
/// descriptor sets only where the element's pipeline binding differs from
/// its predecessor's.
pub open spec fn spec_element_draws(bindings: Seq<usize>) -> Seq<DrawCommand>
    decreases bindings.len(),
{
    if bindings.len() == 0 {
        Seq::empty()
    } else {
        spec_element_draws(bindings.drop_last()) + (if bindings.len() == 1 || bindings[
            bindings.len() - 2
        ] != bindings.last() {
            seq![DrawCommand::BindDescriptors(bindings.last())]
        } else {
            Seq::empty()
        }) + seq![DrawCommand::Draw((bindings.len() - 1) as usize)]
    }
}

/// The recording plan of one multi-draw pass (shadow or opaque), given each
/// element's pipeline-binding index in draw order: the pass is begun once
/// by the caller, every element is drawn in order, and descriptor sets are
/// re-bound only when the element's binding differs from the previous
/// element's — never redundantly for a run of elements sharing a binding.
pub fn plan_element_draws(element_bindings: &Vec<usize>) -> (r: Vec<DrawCommand>)
    ensures
        r@ == spec_element_draws(element_bindings@),
{
    let mut commands: Vec<DrawCommand> = Vec::new();
    let n = element_bindings.len();
    let mut i: usize = 0;
    while i < n
        invariant
            i <= n,
            n == element_bindings@.len(),
            commands@ == spec_element_draws(element_bindings@.take(i as int)),
        decreases n - i,
    {
        proof {
            assert(element_bindings@.take(i + 1).drop_last() =~= element_bindings@.take(i as int));
            assert(element_bindings@.take(i + 1).last() == element_bindings@[i as int]);
        }
        if i == 0 || element_bindings[i - 1] != element_bindings[i] {
            commands.push(DrawCommand::BindDescriptors(element_bindings[i]));
        }
        commands.push(DrawCommand::Draw(i));
        proof {
            assert(commands@ =~= spec_element_draws(element_bindings@.take(i + 1)));
        }
        i = i + 1;
    }
    proof {
        assert(element_bindings@.take(n as int) =~= element_bindings@);
    }
    commands
}

/// Every render target of a well-formed renderer has between one and 32 mip
/// levels; in particular the overlay's mip cycling stays within `u32`.
pub proof fn lemma_debug_target_mip_levels_range(s: RendererData)
    requires
        s.wf(),
        s._debug_render_target != RenderTargetType::MaxBound,
    ensures
        1 <= spec_render_target_table(s._swapchain_width, s._swapchain_height)[
            spec_render_target_index(s._debug_render_target)]._image_mip_levels <= 32,
{
    crate::texture::lemma_texture_mip_levels_range(
        spec_render_target_create_info(
            spec_render_target_from_index(spec_render_target_index(s._debug_render_target)),
            s._swapchain_width,
            s._swapchain_height,
        ),
    );
    crate::render_target::lemma_render_target_index_bijective();
    lemma_render_target_create_infos_wf(s._swapchain_width, s._swapchain_height);
}

/// The initial renderer state at the given window extent: frame slot and
/// swapchain index at zero, no pending recreation, the overlay off (showing
/// the back buffer at its base level), every render target live at the
/// given extent, and the ping-pong pair in its initial role assignment.
pub fn create_renderer_data(width: u32, height: u32) -> (r: RendererData)
    requires
        4 <= width,
        4 <= height,
    ensures
        r.wf(),
        r.spec_frame_index() == 0,
        r.spec_swapchain_index() == 0,
        !r.spec_need_recreate_swapchain(),
        r._is_first_resize_event,
        r._swapchain_width == width,
        r._swapchain_height == height,
        r._debug_render_target == RenderTargetType::BackBuffer,
        r._debug_render_target_miplevel == 0,
        r._render_target_data_map@ == spec_render_target_table(width, height),
        r._postprocess_ssr._current_ssr_resolved == RenderTargetType::SSRResolved,
        r._postprocess_ssr._previous_ssr_resolved == RenderTargetType::SSRResolvedPrev,
{
    let mut renderer_data = RendererData {
        _frame_index: 0,
        _swapchain_index: 0,
        _need_recreate_swapchain: false,
        _is_first_resize_event: true,
        _swapchain_width: width,
        _swapchain_height: height,
        _debug_render_target: RenderTargetType::BackBuffer,
        _debug_render_target_miplevel: 0,
        _render_target_data_map: Vec::new(),
        _postprocess_ssr: PostProcessData_SSR::new_default(),
    };
    renderer_data.create_render_targets();
    renderer_data
}

/// Resize idempotence: any two well-formed renderer states with the same
/// extent hold structurally identical render-target tables — same count,
/// same names, formats and sizes.  In particular, resizing to the extent
/// the renderer already has leaves the table exactly as it was.
pub proof fn lemma_resize_idempotent(before: RendererData, after: RendererData)
    requires
        before.wf(),
        after.wf(),
        before._swapchain_width == after._swapchain_width,
        before._swapchain_height == after._swapchain_height,
    ensures
        after._render_target_data_map@ == before._render_target_data_map@,
{
}

} // verus!
