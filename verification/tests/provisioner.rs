use render_core::framebuffer::{
    create_descriptor_sets, create_framebuffer, create_framebuffer_2d_array,
    create_mip_chain_descriptor_pairs, update_descriptor_set, DescriptorResourceInfo,
    PipelineBindingData,
};
use render_core::material::MaterialInstanceData;
use render_core::render_pass::{PipelineName, RenderPassName, RenderPassPipelineDataName};
use render_core::render_target::{get_render_target_create_infos, RenderTargetType};
use render_core::shader_buffer::ShaderBufferDataType;
use render_core::texture::create_render_target;

fn bloom_texture() -> render_core::texture::TextureData {
    let infos = get_render_target_create_infos(1024, 768);
    create_render_target(&infos[RenderTargetType::Bloom0.index()])
}

fn ssao_binding_data() -> PipelineBindingData {
    let bindings = vec![
        DescriptorResourceInfo::Buffer(ShaderBufferDataType::SceneConstants),
        DescriptorResourceInfo::Buffer(ShaderBufferDataType::ViewConstants),
        DescriptorResourceInfo::DefaultImage(RenderTargetType::SceneNormal),
    ];
    PipelineBindingData {
        _render_pass_pipeline_data_name: RenderPassPipelineDataName {
            _render_pass_data_name: RenderPassName::RenderSsao,
            _pipeline_data_name: PipelineName::RenderSsao,
        },
        _descriptor_resource_infos_list: vec![bindings.clone(), bindings.clone(), bindings],
    }
}

#[test]
fn framebuffer_render_area_follows_the_mip_level() {
    let bloom = bloom_texture();
    let base = create_framebuffer(&bloom, 0, 0, None);
    assert_eq!(base._framebuffer_width, 512);
    assert_eq!(base._framebuffer_height, 384);
    let mip3 = create_framebuffer(&bloom, 0, 3, None);
    assert_eq!(mip3._framebuffer_width, 64);
    assert_eq!(mip3._framebuffer_height, 48);
    assert_eq!(mip3._attachments.len(), 1);
    assert_eq!(mip3._attachments[0]._target_mip_level, 3);
    assert_eq!(mip3._attachments[0]._render_target, RenderTargetType::Bloom0);
}

#[test]
fn array_target_framebuffer_binds_every_layer() {
    let infos = get_render_target_create_infos(1024, 768);
    let fft = create_render_target(&infos[RenderTargetType::FFT_A.index()]);
    let framebuffer = create_framebuffer_2d_array(&fft, 0, None);
    assert_eq!(framebuffer._attachments.len(), 5);
    for (layer, attachment) in framebuffer._attachments.iter().enumerate() {
        assert_eq!(attachment._target_layer, layer as u32);
        assert_eq!(attachment._target_mip_level, 0);
        assert_eq!(attachment._render_target, RenderTargetType::FFT_A);
    }
}

#[test]
fn mip_chain_pairs_bind_source_and_destination() {
    let bloom = bloom_texture();
    assert_eq!(bloom._image_mip_levels, 10);
    let pairs = create_mip_chain_descriptor_pairs(&bloom);
    assert_eq!(pairs.len(), 9);
    for (m, (source, destination)) in pairs.iter().enumerate() {
        assert_eq!(
            *source,
            DescriptorResourceInfo::Image {
                target: RenderTargetType::Bloom0,
                layer: 0,
                mip_level: m as u32,
            }
        );
        assert_eq!(
            *destination,
            DescriptorResourceInfo::Image {
                target: RenderTargetType::Bloom0,
                layer: 0,
                mip_level: m as u32 + 1,
            }
        );
    }
}

#[test]
fn descriptor_sets_apply_overrides_per_image() {
    let binding_data = ssao_binding_data();
    let overrides = vec![(
        2usize,
        DescriptorResourceInfo::DefaultImage(RenderTargetType::SceneDepth),
    )];
    let sets = create_descriptor_sets(&binding_data, &overrides);
    assert_eq!(sets.len(), 3);
    for set in sets.iter() {
        assert_eq!(
            set[0],
            DescriptorResourceInfo::Buffer(ShaderBufferDataType::SceneConstants)
        );
        assert_eq!(
            set[2],
            DescriptorResourceInfo::DefaultImage(RenderTargetType::SceneDepth)
        );
    }
}

#[test]
fn targeted_write_touches_one_binding_of_one_image() {
    let mut binding_data = ssao_binding_data();
    update_descriptor_set(
        1,
        &mut binding_data,
        2,
        DescriptorResourceInfo::DefaultImage(RenderTargetType::SSRResolvedPrev),
    );
    assert_eq!(
        binding_data._descriptor_resource_infos_list[1][2],
        DescriptorResourceInfo::DefaultImage(RenderTargetType::SSRResolvedPrev)
    );
    // Every other image and binding is untouched.
    assert_eq!(
        binding_data._descriptor_resource_infos_list[0][2],
        DescriptorResourceInfo::DefaultImage(RenderTargetType::SceneNormal)
    );
    assert_eq!(
        binding_data._descriptor_resource_infos_list[2][2],
        DescriptorResourceInfo::DefaultImage(RenderTargetType::SceneNormal)
    );
    assert_eq!(
        binding_data._descriptor_resource_infos_list[1][0],
        DescriptorResourceInfo::Buffer(ShaderBufferDataType::SceneConstants)
    );
}

#[test]
fn material_instance_lookup_finds_the_named_binding() {
    let name = String::from("render_ssao");
    let material = MaterialInstanceData::create_material_instance(
        &name,
        vec![ssao_binding_data()],
    );
    let key = RenderPassPipelineDataName {
        _render_pass_data_name: RenderPassName::RenderSsao,
        _pipeline_data_name: PipelineName::RenderSsao,
    };
    assert!(material.has_pipeline_binding_data(key));
    let binding = material.get_pipeline_binding_data(key);
    assert_eq!(binding._render_pass_pipeline_data_name, key);
    let other = RenderPassPipelineDataName {
        _render_pass_data_name: RenderPassName::RenderFinal,
        _pipeline_data_name: PipelineName::RenderFinal,
    };
    assert!(!material.has_pipeline_binding_data(other));
}
