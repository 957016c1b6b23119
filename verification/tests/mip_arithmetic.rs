use render_core::texture::{calc_mip_levels, mip_dimension, next_mipmap_size};
use render_core::post_process::dispatch_group_count;

#[test]
fn calc_mip_levels_square_power_of_two() {
    assert_eq!(calc_mip_levels(1024, 1024, 1), 11);
}

#[test]
fn calc_mip_levels_single_texel() {
    assert_eq!(calc_mip_levels(1, 1, 1), 1);
}

#[test]
fn calc_mip_levels_non_power_of_two() {
    assert_eq!(calc_mip_levels(300, 150, 1), 9);
}

#[test]
fn calc_mip_levels_uses_largest_dimension() {
    assert_eq!(calc_mip_levels(1, 1, 1024), 11);
    assert_eq!(calc_mip_levels(2, 512, 1), 10);
}

#[test]
fn calc_mip_levels_window_sized() {
    // 1024x768: floor(log2(1024)) + 1
    assert_eq!(calc_mip_levels(1024, 768, 1), 11);
    // half resolution 512x384
    assert_eq!(calc_mip_levels(512, 384, 1), 10);
}

#[test]
fn next_mipmap_size_halves_until_one() {
    assert_eq!(next_mipmap_size(1024), 512);
    assert_eq!(next_mipmap_size(3), 1);
    assert_eq!(next_mipmap_size(2), 1);
    assert_eq!(next_mipmap_size(1), 1);
    assert_eq!(next_mipmap_size(0), 1);
}

#[test]
fn mip_dimension_clamps_at_one() {
    assert_eq!(mip_dimension(1024, 0), 1024);
    assert_eq!(mip_dimension(1024, 3), 128);
    assert_eq!(mip_dimension(1024, 10), 1);
    assert_eq!(mip_dimension(1024, 11), 1);
    assert_eq!(mip_dimension(768, 1), 384);
}

#[test]
fn dispatch_groups_for_first_mip_transition() {
    // 1024x768 source, mip level 0: the dispatch covers mip 1.
    assert_eq!(dispatch_group_count(1024, 0), 512);
    assert_eq!(dispatch_group_count(768, 0), 384);
}

#[test]
fn dispatch_groups_clamp_to_one_group() {
    assert_eq!(dispatch_group_count(1024, 12), 1);
    assert_eq!(dispatch_group_count(768, 12), 1);
}
