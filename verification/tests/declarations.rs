use render_core::render_pass::{
    build, declare_passes, BindingIndexCollision, DescriptorDataCreateInfo,
    DescriptorResourceName, DescriptorResourceType, PipelineName, RenderPassName,
};
use render_core::shader_buffer::ShaderBufferDataType;
use render_core::vk_types::{AttachmentLoadOp, AttachmentStoreOp, ShaderStageVisibility};

#[test]
fn declare_passes_is_referentially_transparent() {
    let first = declare_passes();
    let second = declare_passes();
    assert_eq!(first, second);
}

#[test]
fn declare_passes_names_the_frame_sequence_in_order() {
    let passes = declare_passes();
    let names: Vec<RenderPassName> =
        passes.iter().map(|p| p._render_pass_create_info_name).collect();
    assert_eq!(
        names,
        vec![
            RenderPassName::RenderPassStaticShadow,
            RenderPassName::RenderPassSkeletalShadow,
            RenderPassName::RenderPassStaticOpaque,
            RenderPassName::RenderPassSkeletalOpaque,
            RenderPassName::RenderSsao,
            RenderPassName::CompositeGBuffer,
            RenderPassName::RenderMotionBlur,
            RenderPassName::RenderFinal,
            RenderPassName::RenderDebug,
        ]
    );
}

#[test]
fn clearing_passes_clear_from_undefined() {
    let passes = declare_passes();
    // The shadow pass clears its depth attachment from an undefined layout.
    let shadow = &passes[0];
    assert_eq!(shadow._depth_attachment_descriptions.len(), 1);
    let depth = &shadow._depth_attachment_descriptions[0];
    assert_eq!(depth._attachment_load_operation, AttachmentLoadOp::Clear);
    assert_eq!(
        depth._attachment_initial_layout,
        render_core::vk_types::ImageLayout::Undefined
    );
    assert_eq!(depth._attachment_store_operation, AttachmentStoreOp::Store);
    // The g-buffer pass clears all four color planes and the depth plane.
    let opaque = &passes[2];
    assert_eq!(opaque._color_attachment_descriptions.len(), 4);
    for color in opaque._color_attachment_descriptions.iter() {
        assert_eq!(color._attachment_load_operation, AttachmentLoadOp::Clear);
    }
    assert_eq!(opaque._depth_attachment_descriptions.len(), 1);
}

#[test]
fn boundary_dependencies_are_by_region() {
    let passes = declare_passes();
    for pass in passes.iter() {
        for dependency in pass._subpass_dependencies.iter() {
            assert!(dependency._by_region);
        }
    }
}

#[test]
fn build_accepts_the_catalog() {
    let passes = declare_passes();
    let handles = build(&passes).expect("the shipped catalog has no binding collision");
    assert_eq!(handles.len(), passes.len());
    for (handle, pass) in handles.iter().zip(passes.iter()) {
        assert_eq!(
            handle._render_pass_data_name,
            pass._render_pass_create_info_name
        );
        let names: Vec<PipelineName> = pass
            ._pipeline_data_create_infos
            .iter()
            .map(|p| p._pipeline_data_create_info_name)
            .collect();
        assert_eq!(handle._pipeline_data_names, names);
    }
}

#[test]
fn build_rejects_a_binding_index_collision() {
    let mut passes = declare_passes();
    // Declare the motion-blur pipeline's scene-color input at an index the
    // view constants already use.
    let motion_blur = &mut passes[6];
    assert_eq!(
        motion_blur._render_pass_create_info_name,
        RenderPassName::RenderMotionBlur
    );
    motion_blur._pipeline_data_create_infos[0]._descriptor_data_create_infos.push(
        DescriptorDataCreateInfo {
            _descriptor_binding_index: 1,
            _descriptor_name: DescriptorResourceName::ShaderBuffer(
                ShaderBufferDataType::SceneConstants,
            ),
            _descriptor_resource_type: DescriptorResourceType::UniformBuffer,
            _descriptor_shader_stage: ShaderStageVisibility::VertexAndFragment,
        },
    );
    let error = build(&passes).expect_err("a duplicated binding index must be rejected");
    assert_eq!(
        error,
        BindingIndexCollision {
            _render_pass_name: RenderPassName::RenderMotionBlur,
            _pipeline_name: PipelineName::RenderMotionBlur,
            _binding_index: 1,
        }
    );
}

#[test]
fn ssao_pipeline_declares_its_seven_bindings() {
    let passes = declare_passes();
    let ssao = &passes[4];
    let pipeline = &ssao._pipeline_data_create_infos[0];
    let indices: Vec<u32> = pipeline
        ._descriptor_data_create_infos
        .iter()
        .map(|b| b._descriptor_binding_index)
        .collect();
    assert_eq!(indices, vec![0, 1, 2, 3, 4, 5, 6]);
}
