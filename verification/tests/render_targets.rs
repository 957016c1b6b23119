use render_core::render_target::{
    get_render_target_create_infos, RenderTargetType, RENDER_TARGET_COUNT,
};
use render_core::renderer::create_renderer_data;
use render_core::texture::create_render_target;
use render_core::vk_types::{Filter, Format, ImageViewType, SamplerAddressMode};

#[test]
fn table_has_one_entry_per_target() {
    let infos = get_render_target_create_infos(1024, 768);
    assert_eq!(infos.len(), RENDER_TARGET_COUNT);
    for (i, info) in infos.iter().enumerate() {
        assert_eq!(info._texture_name.index(), i);
    }
}

#[test]
fn scene_targets_use_the_full_extent() {
    let infos = get_render_target_create_infos(1024, 768);
    let scene_color = &infos[RenderTargetType::SceneColor.index()];
    assert_eq!(scene_color._texture_width, 1024);
    assert_eq!(scene_color._texture_height, 768);
    assert_eq!(scene_color._texture_format, Format::R16G16B16A16_SFLOAT);
    assert_eq!(scene_color._texture_wrap_mode, SamplerAddressMode::ClampToEdge);
    let depth = &infos[RenderTargetType::SceneDepth.index()];
    assert_eq!(depth._texture_format, Format::D32_SFLOAT);
    assert_eq!(depth._texture_min_filter, Filter::Nearest);
}

#[test]
fn bloom_and_ssao_use_half_the_extent() {
    let infos = get_render_target_create_infos(1024, 768);
    let bloom = &infos[RenderTargetType::Bloom0.index()];
    assert_eq!(bloom._texture_width, 512);
    assert_eq!(bloom._texture_height, 384);
    let ssao = &infos[RenderTargetType::SSAO.index()];
    assert_eq!(ssao._texture_width, 512);
    assert_eq!(ssao._texture_height, 384);
    assert_eq!(ssao._texture_format, Format::R16_SFLOAT);
}

#[test]
fn reflection_targets_use_a_quarter_of_the_extent() {
    let infos = get_render_target_create_infos(1024, 768);
    for target in [
        RenderTargetType::SSR,
        RenderTargetType::SSRResolved,
        RenderTargetType::SSRResolvedPrev,
    ] {
        let info = &infos[target.index()];
        assert_eq!(info._texture_width, 256);
        assert_eq!(info._texture_height, 192);
    }
}

#[test]
fn fixed_size_targets_ignore_the_extent() {
    let small = get_render_target_create_infos(640, 480);
    let large = get_render_target_create_infos(1920, 1080);
    for target in [
        RenderTargetType::Shadow,
        RenderTargetType::FFT_A,
        RenderTargetType::FFT_B,
        RenderTargetType::FFT_SLOPE_VARIANCE,
    ] {
        assert_eq!(small[target.index()], large[target.index()]);
    }
    let shadow = &small[RenderTargetType::Shadow.index()];
    assert_eq!(shadow._texture_width, 2048);
    assert_eq!(shadow._texture_height, 2048);
    let fft = &small[RenderTargetType::FFT_A.index()];
    assert_eq!(fft._texture_width, 256);
    assert_eq!(fft._texture_layers, 5);
    assert_eq!(fft._texture_view_type, ImageViewType::Type2dArray);
    let variance = &small[RenderTargetType::FFT_SLOPE_VARIANCE.index()];
    assert_eq!(variance._texture_depth, 10);
    assert_eq!(variance._texture_view_type, ImageViewType::Type3d);
}

#[test]
fn created_targets_carry_the_full_mip_chain() {
    let infos = get_render_target_create_infos(1024, 768);
    let scene_color = create_render_target(&infos[RenderTargetType::SceneColor.index()]);
    assert_eq!(scene_color._image_mip_levels, 11);
    let bloom = create_render_target(&infos[RenderTargetType::Bloom0.index()]);
    assert_eq!(bloom._image_mip_levels, 10);
    let variance = create_render_target(&infos[RenderTargetType::FFT_SLOPE_VARIANCE.index()]);
    assert_eq!(variance._image_mip_levels, 4);
}

#[test]
fn debug_target_cycling_wraps_both_ways() {
    assert_eq!(RenderTargetType::SceneColor.next(), RenderTargetType::SceneColorCopy);
    assert_eq!(RenderTargetType::MaxBound.next(), RenderTargetType::SceneColor);
    assert_eq!(
        RenderTargetType::SceneColor.prev(),
        RenderTargetType::FFT_SLOPE_VARIANCE
    );
    assert_eq!(RenderTargetType::MaxBound.prev(), RenderTargetType::FFT_SLOPE_VARIANCE);
    // Walking the whole cycle forward returns to the start.
    let mut t = RenderTargetType::SceneColor;
    for _ in 0..24 {
        t = t.next();
    }
    assert_eq!(t, RenderTargetType::SceneColor);
}

#[test]
fn renderer_cycles_debug_target_and_mip_level() {
    let mut renderer = create_renderer_data(1024, 768);
    assert_eq!(renderer._debug_render_target, RenderTargetType::BackBuffer);
    renderer.next_debug_render_target();
    assert_eq!(renderer._debug_render_target, RenderTargetType::BackBufferCopy);
    renderer.prev_debug_render_target();
    assert_eq!(renderer._debug_render_target, RenderTargetType::BackBuffer);

    // The back buffer at 1024x768 has 11 mip levels; the cycling wraps.
    for expected in [1, 2, 3, 4, 5, 6, 7, 8, 9, 10, 0] {
        renderer.next_debug_render_target_miplevel();
        assert_eq!(renderer._debug_render_target_miplevel, expected);
    }
    renderer.prev_debug_render_target_miplevel();
    assert_eq!(renderer._debug_render_target_miplevel, 10);
}
