//! Render pipeline settings: the depth-test comparison and the blend
//! factors a renderer selects before drawing.

use vstd::prelude::*;

verus! {

/// The comparison a depth test applies between an incoming fragment's depth
/// value and the depth buffer value.
#[derive(Debug, Clone, Copy, PartialEq, Eq, Structural)]
pub enum DepthFunc {
    /// Never pass.
    Never,
    /// Pass if the incoming value is less than the depth buffer value.
    Less,
    /// Pass if the incoming value equals the depth buffer value.
    Equal,
    /// Pass if the incoming value is less than or equal to the depth buffer
    /// value.
    LEqual,
    /// Pass if the incoming value is greater than the depth buffer value.
    Greater,
    /// Pass if the incoming value is not equal to the depth buffer value.
    NotEqual,
    /// Pass if the incoming value is greater than or equal to the depth
    /// buffer value.
    GEqual,
    /// Always pass.
    Always,
}

/// A blending factor: the weight applied to the source or destination color
/// when a drawn fragment is blended into the frame buffer.
#[derive(Debug, Clone, Copy, PartialEq, Eq, Structural)]
pub enum BlendFactor {
    /// Weight of 0 for every channel.
    Zero,
    /// Weight of 1 for every channel.
    One,
    /// Each channel weighted by the source color.
    SrcColor,
    /// Each channel weighted by the destination color.
    DstColor,
    /// Each channel weighted by one minus the source color.
    OneMinusSrcColor,
    /// Each channel weighted by one minus the destination color.
    OneMinusDstColor,
    /// Every channel weighted by the source alpha.
    SrcAlpha,
    /// Every channel weighted by the destination alpha.
    DstAlpha,
    /// Every channel weighted by one minus the source alpha.
    OneMinusSrcAlpha,
    /// Every channel weighted by one minus the destination alpha.
    OneMinusDstAlpha,
    /// Each channel weighted by the constant blend color.
    ConstantColor,
    /// Each channel weighted by one minus the constant blend color.
    OneMinusConstantColor,
    /// Every channel weighted by the constant blend alpha.
    ConstantAlpha,
    /// Every channel weighted by one minus the constant blend alpha.
    OneMinusConstantAlpha,
    /// Color channels weighted by the lesser of the source alpha and one
    /// minus the destination alpha; alpha weighted by 1.
    SrcAlphaSaturate,
}

} // verus!
