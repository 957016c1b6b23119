use render_core::fft::bit_reverse;
use render_core::vk_types::{
    get_color32, get_color_blend_mode, get_transition_dependent, AccessMask, BlendMode,
    ImageLayout, ImageLayoutTransition, PipelineStage,
};

#[test]
fn bit_reverse_reverses_the_low_bits() {
    assert_eq!(bit_reverse(0, 256), 0);
    assert_eq!(bit_reverse(1, 256), 128);
    assert_eq!(bit_reverse(2, 256), 64);
    assert_eq!(bit_reverse(128, 256), 1);
    assert_eq!(bit_reverse(255, 256), 255);
    assert_eq!(bit_reverse(0b00000011, 256), 0b11000000);
}

#[test]
fn bit_reverse_small_sizes() {
    assert_eq!(bit_reverse(1, 2), 1);
    assert_eq!(bit_reverse(1, 8), 4);
    assert_eq!(bit_reverse(3, 8), 6);
    assert_eq!(bit_reverse(6, 8), 3);
    assert_eq!(bit_reverse(5, 8), 5);
}

#[test]
fn bit_reverse_ignores_bits_above_the_size() {
    assert_eq!(bit_reverse(8 + 3, 8), bit_reverse(3, 8));
}

#[test]
fn bit_reverse_is_an_involution_below_the_size() {
    for i in 0..256 {
        assert_eq!(bit_reverse(bit_reverse(i, 256), 256), i);
    }
}

#[test]
fn color32_packs_and_clamps_channels() {
    assert_eq!(get_color32(0, 0, 0, 0), 0);
    assert_eq!(get_color32(255, 255, 255, 255), 0xFFFF_FFFF);
    assert_eq!(get_color32(1, 2, 3, 4), 0x0403_0201);
    // Channels above 255 clamp to a full byte.
    assert_eq!(get_color32(999, 0, 0, 0), 0xFF);
    assert_eq!(get_color32(0, 300, 0, 0), 0xFF00);
}

#[test]
fn alpha_blend_mode_uses_source_alpha() {
    let blend = get_color_blend_mode(BlendMode::AlphaBlend);
    assert!(blend.blend_enable);
    let replace = get_color_blend_mode(BlendMode::NoBlend);
    assert!(!replace.blend_enable);
    assert!(replace.color_write_mask.r && !replace.color_write_mask.a);
}

#[test]
fn upload_transition_waits_for_nothing_and_targets_the_transfer_stage() {
    let t = get_transition_dependent(ImageLayoutTransition::TransferUndefToTransferDst);
    assert_eq!(t._old_layout, ImageLayout::Undefined);
    assert_eq!(t._new_layout, ImageLayout::TransferDstOptimal);
    assert_eq!(t._src_access_mask, AccessMask::Empty);
    assert_eq!(t._dst_access_mask, AccessMask::TransferWrite);
    assert_eq!(t._src_stage_mask, PipelineStage::TopOfPipe);
    assert_eq!(t._dst_stage_mask, PipelineStage::Transfer);

    let s = get_transition_dependent(ImageLayoutTransition::TransferDstToShaderReadOnly);
    assert_eq!(s._src_access_mask, AccessMask::TransferWrite);
    assert_eq!(s._dst_access_mask, AccessMask::ShaderRead);
    assert_eq!(s._dst_stage_mask, PipelineStage::FragmentShader);
}
