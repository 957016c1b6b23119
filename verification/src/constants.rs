//! Fixed configuration of the renderer core.

use vstd::prelude::*;

verus! {

/// Number of images in the swapchain; command buffers, uniform-buffer
/// replicas and descriptor sets are allocated once per swapchain image.
pub const SWAPCHAIN_IMAGE_COUNT: usize = 3;

/// Number of frames that may be in flight at once; fences and the two
/// per-frame semaphores are allocated once per frame slot.
pub const MAX_FRAME_COUNT: usize = 2;

/// Edge length of the (resolution-independent) shadow map.
pub const SHADOW_MAP_SIZE: u32 = 2048;

/// Edge length of the textures storing the ocean waves in frequency and
/// spatial domain.
pub const FFT_SIZE: u32 = 256;

/// Edge length of the 3D slope-variance lookup texture.
pub const N_SLOPE_VARIANCE: u32 = 10;

/// Number of simultaneously processed ocean-grid layers.
pub const FFT_LAYER_COUNT: u32 = 5;

} // verus!
