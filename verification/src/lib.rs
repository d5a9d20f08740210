//! Alpha blending and compositing of four-channel colors.
//!
//! The [`RgbaBlend`] trait defines a method for blending two RGBA colors
//! together, and the [`BlendMode`] enum provides the blending modes based on
//! Porter-Duff coefficients; for example [`BlendMode::SourceOver`] blends the
//! source color over the destination color using
//! [`PorterDuff::src_over`](crate::porter_duff::PorterDuff::src_over).
//!
//! Colors are generic over their channel type: any
//! [`Channel`](crate::channel::Channel), that is any `Copy` type with the four
//! arithmetic operators that can be made from a `u8`. The floating-point
//! types of the language are channels, and so are its integer types.
//!
//! A blend clamps nothing and rounds nothing of its own: a component of the
//! result is the channel type's sum of two of its products, and may lie
//! outside the range that the inputs were taken from.
//!
//! ## Contracts
//!
//! Every function that computes on channels states its result twice. A
//! relation says which operators produced each component from which
//! operands; it holds for every channel type. Where the operators of the
//! channel type follow the specification that `vstd` gives them, an equation
//! names the value. The [`laws`] of the blend modes are proved from these
//! equations.
pub mod channel;
pub mod laws;
pub mod porter_duff;
pub mod rgba;
pub mod vec4;

use crate::channel::{obeys_channel_spec, Channel};
use crate::porter_duff::{Coefficient, PorterDuff};
use crate::rgba::Rgba;
use vstd::prelude::*;

verus! {

/// Supported blend modes by this crate.
#[derive(Debug, Clone, Copy, PartialEq, Eq)]
pub enum BlendMode {
    /// Destination pixels covered by the source pixels are cleared.
    Clear,
    /// Source pixels are copied to the destination.
    Source,
    /// Destination pixels are copied to the source.
    Destination,
    /// Source pixels are placed over the destination pixels.
    SourceOver,
    /// Destination pixels are placed over the source pixels.
    DestinationOver,
    /// Source pixels are kept only where the destination is opaque.
    SourceIn,
    /// Destination pixels are kept only where the source is opaque.
    DestinationIn,
    /// Source pixels are kept only where the destination is transparent.
    SourceOut,
    /// Destination pixels are kept only where the source is transparent.
    DestinationOut,
    /// Source pixels are placed atop the destination, within its coverage.
    SourceAtop,
    /// Destination pixels are placed atop the source, within its coverage.
    DestinationAtop,
    /// Source and destination are kept only where the other is transparent.
    Xor,
    /// Source pixels are added to the destination.
    Plus,
}

impl BlendMode {
    /// The factor that the mode applies to the source color.
    pub open spec fn src_coefficient(self) -> Coefficient {
        match self {
            BlendMode::Clear
            | BlendMode::Destination
            | BlendMode::DestinationIn
            | BlendMode::DestinationOut => Coefficient::Zero,
            BlendMode::Source | BlendMode::Plus => Coefficient::One,
            BlendMode::SourceOver => Coefficient::Src,
            BlendMode::SourceIn | BlendMode::SourceAtop => Coefficient::Dst,
            BlendMode::DestinationOver
            | BlendMode::SourceOut
            | BlendMode::DestinationAtop
            | BlendMode::Xor => Coefficient::OneMinusDst,
        }
    }

    /// The factor that the mode applies to the destination color.
    pub open spec fn dst_coefficient(self) -> Coefficient {
        match self {
            BlendMode::Clear
            | BlendMode::Source
            | BlendMode::SourceIn
            | BlendMode::SourceOut => Coefficient::Zero,
            BlendMode::Destination | BlendMode::Plus => Coefficient::One,
            BlendMode::DestinationIn | BlendMode::DestinationAtop => Coefficient::Src,
            BlendMode::DestinationOver => Coefficient::Dst,
            BlendMode::SourceOver
            | BlendMode::DestinationOut
            | BlendMode::SourceAtop
            | BlendMode::Xor => Coefficient::OneMinusSrc,
        }
    }

    /// The Porter-Duff operator of the mode.
    pub open spec fn porter_duff(self) -> PorterDuff {
        PorterDuff { src: self.src_coefficient(), dst: self.dst_coefficient() }
    }

    /// Returns the [`RgbaBlend`] implementation for this blend mode.
    #[must_use]
    pub fn as_rgba_blend(&self) -> (out: PorterDuff)
        ensures
            out == self.porter_duff(),
    {
        match self {
            BlendMode::Clear => PorterDuff::clear(),
            BlendMode::Source => PorterDuff::src(),
            BlendMode::Destination => PorterDuff::dst(),
            BlendMode::SourceOver => PorterDuff::src_over(),
            BlendMode::DestinationOver => PorterDuff::dst_over(),
            BlendMode::SourceIn => PorterDuff::src_in(),
            BlendMode::DestinationIn => PorterDuff::dst_in(),
            BlendMode::SourceOut => PorterDuff::src_out(),
            BlendMode::DestinationOut => PorterDuff::dst_out(),
            BlendMode::SourceAtop => PorterDuff::src_atop(),
            BlendMode::DestinationAtop => PorterDuff::dst_atop(),
            BlendMode::Xor => PorterDuff::xor(),
            BlendMode::Plus => PorterDuff::plus(),
        }
    }
}

impl<C: Channel> RgbaBlend<C> for BlendMode {
    open spec fn obeys_apply_spec() -> bool {
        obeys_channel_spec::<C>()
    }

    open spec fn apply_req(&self, src: Rgba<C>, dst: Rgba<C>) -> bool {
        self.porter_duff().blend_req(src, dst)
    }

    open spec fn apply_spec(&self, src: Rgba<C>, dst: Rgba<C>) -> Rgba<C> {
        self.porter_duff().blend_spec(src, dst)
    }

    fn apply(&self, src: Rgba<C>, dst: Rgba<C>) -> (out: Rgba<C>)
        ensures
            self.porter_duff().blends(src, dst, out),
    {
        self.as_rgba_blend().apply(src, dst)
    }
}

/// Blends pixel colors using alpha compositing.
pub trait RgbaBlend<C: Copy> {
    /// Whether `apply` is a function of its arguments: it returns what
    /// `apply_spec` says.
    open spec fn obeys_apply_spec() -> bool {
        false
    }

    /// What `apply` asks of the two colors.
    open spec fn apply_req(&self, src: Rgba<C>, dst: Rgba<C>) -> bool {
        true
    }

    /// The color that blending `src` onto `dst` gives.
    open spec fn apply_spec(&self, src: Rgba<C>, dst: Rgba<C>) -> Rgba<C> {
        arbitrary()
    }

    /// Blends two colors together using this blend mode.
    fn apply(&self, src: Rgba<C>, dst: Rgba<C>) -> (out: Rgba<C>)
        requires
            self.apply_req(src, dst),
        ensures
            Self::obeys_apply_spec() ==> out == self.apply_spec(src, dst),
    ;
}

} // verus!
