use render_core::framebuffer::DescriptorResourceInfo;
use render_core::post_process::{initialize_ssr_resolve, PostProcessData_SSR};
use render_core::render_target::get_render_target_create_infos;
use render_core::texture::create_render_target;
use render_core::render_target::RenderTargetType;
use render_core::renderer::create_renderer_data;

#[test]
fn one_update_swaps_the_roles_once() {
    let mut ssr = PostProcessData_SSR::new_default();
    assert_eq!(ssr._current_ssr_resolved, RenderTargetType::SSRResolved);
    assert_eq!(ssr._previous_ssr_resolved, RenderTargetType::SSRResolvedPrev);
    ssr.update();
    assert_eq!(ssr._current_ssr_resolved, RenderTargetType::SSRResolvedPrev);
    assert_eq!(ssr._previous_ssr_resolved, RenderTargetType::SSRResolved);
}

#[test]
fn odd_update_counts_swap_and_even_counts_restore() {
    let initial = PostProcessData_SSR::new_default();
    let mut ssr = initial;
    for n in 1..=8u32 {
        ssr.update();
        if n % 2 == 1 {
            assert_eq!(ssr._current_ssr_resolved, initial._previous_ssr_resolved);
            assert_eq!(ssr._previous_ssr_resolved, initial._current_ssr_resolved);
        } else {
            assert_eq!(ssr, initial);
        }
    }
}

#[test]
fn renderer_swaps_the_pair_each_post_process_update() {
    let mut renderer = create_renderer_data(1024, 768);
    let before = renderer._postprocess_ssr;
    renderer.update_post_process_datas();
    assert_eq!(
        renderer._postprocess_ssr._current_ssr_resolved,
        before._previous_ssr_resolved
    );
    renderer.update_post_process_datas();
    assert_eq!(renderer._postprocess_ssr, before);
}

#[test]
fn ssr_resolve_pairs_are_cross_wired() {
    let infos = get_render_target_create_infos(1024, 768);
    let resolved = create_render_target(&infos[RenderTargetType::SSRResolved.index()]);
    let resolved_prev = create_render_target(&infos[RenderTargetType::SSRResolvedPrev.index()]);
    let pairs = initialize_ssr_resolve(&resolved, &resolved_prev);

    assert_eq!(
        pairs._framebuffer_data0._attachments[0]._render_target,
        RenderTargetType::SSRResolved
    );
    assert_eq!(
        pairs._descriptor_input0,
        DescriptorResourceInfo::DefaultImage(RenderTargetType::SSRResolvedPrev)
    );
    assert_eq!(
        pairs._framebuffer_data1._attachments[0]._render_target,
        RenderTargetType::SSRResolvedPrev
    );
    assert_eq!(
        pairs._descriptor_input1,
        DescriptorResourceInfo::DefaultImage(RenderTargetType::SSRResolved)
    );
}
