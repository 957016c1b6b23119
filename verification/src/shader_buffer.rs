//! The closed set of shader-visible buffers the frame uploads each frame;
//! every buffer exists once per swapchain image so that no two in-flight
//! frames write the same replica.

use vstd::prelude::*;

verus! {

/// Logical name of one shader buffer.
#[derive(Clone, Copy, Debug, PartialEq, Eq, Structural, Hash)]
pub enum ShaderBufferDataType {
    SceneConstants,
    ViewConstants,
    LightConstants,
    SSAOConstants,
    BoneMatrices,
}

} // verus!
