//! The framebuffer and descriptor-set provisioner: given a pipeline's
//! binding layout and input/output textures — optionally per array layer,
//! per mip level, or as a ping-pong pair — it wires up one framebuffer and
//! one descriptor set per swapchain image.  Retargeting a single binding
//! (the ping-pong swap, the debug overlay) is a targeted write that leaves
//! every other binding untouched.

use vstd::prelude::*;
use crate::constants::SWAPCHAIN_IMAGE_COUNT;
use crate::render_pass::RenderPassPipelineDataName;
use crate::render_target::RenderTargetType;
use crate::shader_buffer::ShaderBufferDataType;
use crate::texture::{TextureData, mip_dimension, spec_mip_dimension};

verus! {

/// A clear value an attachment is cleared with at pass begin; the set this
/// design uses.
#[derive(Clone, Copy, Debug, PartialEq, Eq, Structural)]
pub enum ClearValue {
    ColorZero,
    ColorOne,
    DepthOneStencilZero,
}

/// One framebuffer attachment: a render target at one array layer and one
/// mip level.
#[derive(Clone, Copy, Debug, PartialEq, Eq, Structural)]
pub struct RenderTargetInfo {
    pub _render_target: RenderTargetType,
    pub _target_layer: u32,
    pub _target_mip_level: u32,
    pub _clear_value: Option<ClearValue>,
}

/// The shape of one provisioned framebuffer: the attachments it references
/// and the precomputed begin-render-pass parameters (render area); the
/// underlying device objects exist once per swapchain image, all with this
/// shape.
#[derive(Clone, Debug)]
pub struct FramebufferData {
    pub _framebuffer_width: u32,
    pub _framebuffer_height: u32,
    pub _attachments: Vec<RenderTargetInfo>,
}

/// What is bound at one descriptor binding of one descriptor set.
#[derive(Clone, Copy, Debug, PartialEq, Eq, Structural)]
pub enum DescriptorResourceInfo {
    Buffer(ShaderBufferDataType),
    /// A render target sampled at one layer and one mip level.
    Image { target: RenderTargetType, layer: u32, mip_level: u32 },
    /// A render target sampled through its default whole view.
    DefaultImage(RenderTargetType),
}

/// A built pipeline binding: the (pass, pipeline) pair it belongs to and,
/// per swapchain image, the resources currently bound at each binding
/// index.  The descriptor-set layout is fixed at build time; only the bound
/// resources change.
pub struct PipelineBindingData {
    pub _render_pass_pipeline_data_name: RenderPassPipelineDataName,
    pub _descriptor_resource_infos_list: Vec<Vec<DescriptorResourceInfo>>,
}

impl PipelineBindingData {
    /// Per-image replication: one descriptor set per swapchain image, all
    /// with the same number of bindings.
    pub open spec fn wf(self) -> bool {
        &&& self._descriptor_resource_infos_list@.len() == SWAPCHAIN_IMAGE_COUNT
        &&& forall|i: int, j: int|
            0 <= i < SWAPCHAIN_IMAGE_COUNT && 0 <= j < SWAPCHAIN_IMAGE_COUNT ==> (
            #[trigger] self._descriptor_resource_infos_list@[i]@).len() == (
            #[trigger] self._descriptor_resource_infos_list@[j]@).len()
    }
}

/// The framebuffer the provisioner builds for one render target at one
/// layer and one mip level: a single attachment, with the render area of
/// that mip level.
pub fn create_framebuffer(
    render_target: &TextureData,
    render_target_layer: u32,
    render_target_miplevel: u32,
    clear_value: Option<ClearValue>,
) -> (r: FramebufferData)
    requires
        render_target_layer < render_target._image_layers,
        render_target_miplevel < render_target._image_mip_levels,
    ensures
        r._framebuffer_width == spec_mip_dimension(
            render_target._image_width as nat,
            render_target_miplevel as nat,
        ),
        r._framebuffer_height == spec_mip_dimension(
            render_target._image_height as nat,
            render_target_miplevel as nat,
        ),
        r._attachments@ == seq![
            RenderTargetInfo {
                _render_target: render_target._texture_data_name,
                _target_layer: render_target_layer,
                _target_mip_level: render_target_miplevel,
                _clear_value: clear_value,
            },
        ],
{
    let mut attachments: Vec<RenderTargetInfo> = Vec::new();
    attachments.push(
        RenderTargetInfo {
            _render_target: render_target._texture_data_name,
            _target_layer: render_target_layer,
            _target_mip_level: render_target_miplevel,
            _clear_value: clear_value,
        },
    );
    let r = FramebufferData {
        _framebuffer_width: mip_dimension(render_target._image_width, render_target_miplevel),
        _framebuffer_height: mip_dimension(render_target._image_height, render_target_miplevel),
        _attachments: attachments,
    };
    proof {
        assert(r._attachments@ =~= seq![
            RenderTargetInfo {
                _render_target: render_target._texture_data_name,
                _target_layer: render_target_layer,
                _target_mip_level: render_target_miplevel,
                _clear_value: clear_value,
            },
        ]);
    }
    r
}

/// The framebuffer of a 2D-array target: every array layer of the target is
/// bound as its own attachment, all at the same mip level, in layer order —
/// one render pass execution then processes all layers at once.
pub fn create_framebuffer_2d_array(
    render_target: &TextureData,
    render_target_miplevel: u32,
    clear_value: Option<ClearValue>,
) -> (r: FramebufferData)
    requires
        render_target_miplevel < render_target._image_mip_levels,
    ensures
        r._framebuffer_width == spec_mip_dimension(
            render_target._image_width as nat,
            render_target_miplevel as nat,
        ),
        r._framebuffer_height == spec_mip_dimension(
            render_target._image_height as nat,
            render_target_miplevel as nat,
        ),
        r._attachments@.len() == render_target._image_layers,
        forall|l: int|
            0 <= l < render_target._image_layers ==> r._attachments@[l] == (RenderTargetInfo {
                _render_target: render_target._texture_data_name,
                _target_layer: l as u32,
                _target_mip_level: render_target_miplevel,
                _clear_value: clear_value,
            }),
{
    let mut attachments: Vec<RenderTargetInfo> = Vec::new();
    let layer_count = render_target._image_layers;
    let mut layer: u32 = 0;
    while layer < layer_count
        invariant
            layer <= layer_count,
            attachments@.len() == layer,
            forall|l: int|
                0 <= l < layer ==> attachments@[l] == (RenderTargetInfo {
                    _render_target: render_target._texture_data_name,
                    _target_layer: l as u32,
                    _target_mip_level: render_target_miplevel,
                    _clear_value: clear_value,
                }),
        decreases layer_count - layer,
    {
        attachments.push(
            RenderTargetInfo {
                _render_target: render_target._texture_data_name,
                _target_layer: layer,
                _target_mip_level: render_target_miplevel,
                _clear_value: clear_value,
            },
        );
        layer = layer + 1;
    }
    FramebufferData {
        _framebuffer_width: mip_dimension(render_target._image_width, render_target_miplevel),
        _framebuffer_height: mip_dimension(render_target._image_height, render_target_miplevel),
        _attachments: attachments,
    }
}

/// One image's bindings with the given targeted writes applied, in order.
pub open spec fn spec_apply_writes(
    base: Seq<DescriptorResourceInfo>,
    writes: Seq<(usize, DescriptorResourceInfo)>,
) -> Seq<DescriptorResourceInfo>
    decreases writes.len(),
{
    if writes.len() == 0 {
        base
    } else {
        spec_apply_writes(base, writes.drop_last()).update(
            writes.last().0 as int,
            writes.last().1,
        )
    }
}

/// The descriptor sets the provisioner builds for one pipeline binding: per
/// swapchain image, the pipeline's current bindings with each given
/// `(binding index, resource)` pair written over them.
pub fn create_descriptor_sets(
    pipeline_binding_data: &PipelineBindingData,
    descriptor_resource_infos: &Vec<(usize, DescriptorResourceInfo)>,
) -> (r: Vec<Vec<DescriptorResourceInfo>>)
    requires
        pipeline_binding_data.wf(),
        forall|w: int|
            0 <= w < descriptor_resource_infos@.len() ==> (
            #[trigger] descriptor_resource_infos@[w]).0
                < pipeline_binding_data._descriptor_resource_infos_list@[0]@.len(),
    ensures
        r@.len() == SWAPCHAIN_IMAGE_COUNT,
        forall|i: int|
            0 <= i < SWAPCHAIN_IMAGE_COUNT ==> (#[trigger] r@[i])@ == spec_apply_writes(
                pipeline_binding_data._descriptor_resource_infos_list@[i]@,
                descriptor_resource_infos@,
            ),
{
    let mut sets: Vec<Vec<DescriptorResourceInfo>> = Vec::new();
    let mut i: usize = 0;
    while i < SWAPCHAIN_IMAGE_COUNT
        invariant
            pipeline_binding_data.wf(),
            forall|w: int|
                0 <= w < descriptor_resource_infos@.len() ==> (
                #[trigger] descriptor_resource_infos@[w]).0
                    < pipeline_binding_data._descriptor_resource_infos_list@[0]@.len(),
            i <= SWAPCHAIN_IMAGE_COUNT,
            sets@.len() == i,
            forall|a: int|
                0 <= a < i ==> (#[trigger] sets@[a])@ == spec_apply_writes(
                    pipeline_binding_data._descriptor_resource_infos_list@[a]@,
                    descriptor_resource_infos@,
                ),
        decreases SWAPCHAIN_IMAGE_COUNT - i,
    {
        let mut image_bindings: Vec<DescriptorResourceInfo> =
            pipeline_binding_data._descriptor_resource_infos_list[i].clone();
        assert(image_bindings@ == spec_apply_writes(
            pipeline_binding_data._descriptor_resource_infos_list@[i as int]@,
            descriptor_resource_infos@.take(0),
        ));
        let write_count = descriptor_resource_infos.len();
        let mut w: usize = 0;
        while w < write_count
            invariant
                pipeline_binding_data.wf(),
                forall|x: int|
                    0 <= x < descriptor_resource_infos@.len() ==> (
                    #[trigger] descriptor_resource_infos@[x]).0
                        < pipeline_binding_data._descriptor_resource_infos_list@[0]@.len(),
                i < SWAPCHAIN_IMAGE_COUNT,
                w <= write_count,
                write_count == descriptor_resource_infos@.len(),
                image_bindings@ == spec_apply_writes(
                    pipeline_binding_data._descriptor_resource_infos_list@[i as int]@,
                    descriptor_resource_infos@.take(w as int),
                ),
                image_bindings@.len()
                    == pipeline_binding_data._descriptor_resource_infos_list@[i as int]@.len(),
            decreases write_count - w,
        {
            let (index, info) = descriptor_resource_infos[w];
            image_bindings.set(index, info);
            proof {
                assert(descriptor_resource_infos@.take(w + 1).drop_last()
                    =~= descriptor_resource_infos@.take(w as int));
                assert(descriptor_resource_infos@.take(w + 1).last()
                    == descriptor_resource_infos@[w as int]);
            }
            w = w + 1;
        }
        proof {
            assert(descriptor_resource_infos@.take(write_count as int)
                =~= descriptor_resource_infos@);
        }
        sets.push(image_bindings);
        i = i + 1;
    }
    sets
}

/// A targeted descriptor write: rebinds one binding of one swapchain
/// image's descriptor set and leaves every other binding of every image
/// untouched — a resource swap never rebuilds the set.
pub fn update_descriptor_set(
    swapchain_index: usize,
    pipeline_binding_data: &mut PipelineBindingData,
    descriptor_offset: usize,
    descriptor_resource_info: DescriptorResourceInfo,
)
    requires
        old(pipeline_binding_data).wf(),
        swapchain_index < SWAPCHAIN_IMAGE_COUNT,
        descriptor_offset < old(pipeline_binding_data)._descriptor_resource_infos_list@[
            swapchain_index as int]@.len(),
    ensures
        final(pipeline_binding_data).wf(),
        final(pipeline_binding_data)._render_pass_pipeline_data_name == old(
            pipeline_binding_data)._render_pass_pipeline_data_name,
        final(pipeline_binding_data)._descriptor_resource_infos_list@.len()
            == SWAPCHAIN_IMAGE_COUNT,
        final(pipeline_binding_data)._descriptor_resource_infos_list@[swapchain_index as int]@
            == old(pipeline_binding_data)._descriptor_resource_infos_list@[
            swapchain_index as int]@.update(descriptor_offset as int, descriptor_resource_info),
        forall|i: int|
            0 <= i < SWAPCHAIN_IMAGE_COUNT && i != swapchain_index ==> final(
                pipeline_binding_data)._descriptor_resource_infos_list@[i] == old(
                pipeline_binding_data)._descriptor_resource_infos_list@[i],
{
    let image_bindings: &mut Vec<DescriptorResourceInfo> = &mut pipeline_binding_data
        ._descriptor_resource_infos_list[swapchain_index];
    image_bindings.set(descriptor_offset, descriptor_resource_info);
}

/// The mip-chain descriptor sets of a downsampling compute pipeline: for a
/// texture with `n` mip levels, `n - 1` sets, the one for transition `m`
/// binding mip `m` as source (binding 0) and mip `m + 1` as destination
/// (binding 1); the pipeline is dispatched once per transition.
pub fn create_mip_chain_descriptor_pairs(texture: &TextureData) -> (r: Vec<(
    DescriptorResourceInfo,
    DescriptorResourceInfo,
)>)
    requires
        1 <= texture._image_mip_levels,
    ensures
        r@.len() == texture._image_mip_levels - 1,
        forall|m: int|
            0 <= m < texture._image_mip_levels - 1 ==> #[trigger] r@[m] == (
            DescriptorResourceInfo::Image {
                target: texture._texture_data_name,
                layer: 0,
                mip_level: m as u32,
            },
            DescriptorResourceInfo::Image {
                target: texture._texture_data_name,
                layer: 0,
                mip_level: (m + 1) as u32,
            },
        ),
{
    let mut pairs: Vec<(DescriptorResourceInfo, DescriptorResourceInfo)> = Vec::new();
    let dispatch_count = texture._image_mip_levels - 1;
    let mut m: u32 = 0;
    while m < dispatch_count
        invariant
            m <= dispatch_count,
            dispatch_count == texture._image_mip_levels - 1,
            pairs@.len() == m,
            forall|a: int|
                0 <= a < m ==> #[trigger] pairs@[a] == (
                DescriptorResourceInfo::Image {
                    target: texture._texture_data_name,
                    layer: 0,
                    mip_level: a as u32,
                },
                DescriptorResourceInfo::Image {
                    target: texture._texture_data_name,
                    layer: 0,
                    mip_level: (a + 1) as u32,
                },
            ),
        decreases dispatch_count - m,
    {
        pairs.push(
            (
                DescriptorResourceInfo::Image {
                    target: texture._texture_data_name,
                    layer: 0,
                    mip_level: m,
                },
                DescriptorResourceInfo::Image {
                    target: texture._texture_data_name,
                    layer: 0,
                    mip_level: m + 1,
                },
            ),
        );
        m = m + 1;
    }
    pairs
}

} // verus!
