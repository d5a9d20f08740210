//! RGBA color representation.
//!
//! Not a full featured implementation, but provides basic functionality for
//! this crate.
use crate::channel::{
    arith_total, channel_level, full_scale, is_level, is_product, is_quotient, level,
    obeys_channel_spec, Channel,
};
use vstd::math::{max, min};
use vstd::prelude::*;
use vstd::std_specs::ops::{DivSpec, MulSpec};

verus! {

/// Four-component color: red, green, blue and alpha, in this order, each a
/// value of the channel type `C`.
///
/// No range is enforced on any component.
///
/// See [`U8x4Rgba`] for the alias with 8-bit components.
#[derive(Debug, PartialEq, PartialOrd)]
pub struct Rgba<C> where C: Copy {
    /// Red component of the color.
    pub r: C,
    /// Green component of the color.
    pub g: C,
    /// Blue component of the color.
    pub b: C,
    /// Alpha component of the color.
    pub a: C,
}

impl<C: Copy> Clone for Rgba<C> {
    fn clone(&self) -> (out: Self)
        ensures
            out == *self,
    {
        *self
    }
}

impl<C: Copy> Copy for Rgba<C> {

}

impl<C> Rgba<C> where C: Copy {
    /// Creates a new `Rgba` instance with the specified components.
    pub fn new(r: C, g: C, b: C, a: C) -> (out: Self)
        ensures
            out.r == r,
            out.g == g,
            out.b == b,
            out.a == a,
    {
        Self { r, g, b, a }
    }

    /// Returns the red component.
    pub fn red(&self) -> (out: C)
        ensures
            out == self.r,
    {
        self.r
    }

    /// Returns the green component.
    pub fn green(&self) -> (out: C)
        ensures
            out == self.g,
    {
        self.g
    }

    /// Returns the blue component.
    pub fn blue(&self) -> (out: C)
        ensures
            out == self.b,
    {
        self.b
    }

    /// Returns the alpha component.
    pub fn alpha(&self) -> (out: C)
        ensures
            out == self.a,
    {
        self.a
    }
}

/// Four-component RGBA color with a component type of [`u8`].
pub type U8x4Rgba = Rgba<u8>;

impl U8x4Rgba {
    /// Creates a new `U8x4Rgba` instance with `0` for all components.
    #[must_use]
    pub fn zeroed() -> (out: Self)
        ensures
            out.r == 0,
            out.g == 0,
            out.b == 0,
            out.a == 0,
    {
        Self::new(0, 0, 0, 0)
    }
}

/// `out` is a result of widening the 8-bit channel `v`: of dividing what `v`
/// converts to by what the largest 8-bit value converts to.
pub open spec fn is_widened<C: Channel>(v: u8, out: C) -> bool {
    exists|n: C, max: C| is_level(v, n) && is_level(255u8, max) && is_quotient(n, max, out)
}

/// The channel value that the 8-bit channel `v` widens to: `v` over the
/// largest 8-bit value, both taken as channel values.
pub open spec fn widen<C: Channel>(v: u8) -> C {
    level::<C>(v).div_spec(full_scale::<C>())
}

/// `out` is a result of bringing `v` to the scale of an 8-bit channel: of
/// multiplying `v` by what the largest 8-bit value converts to.
pub open spec fn is_scaled<C: Channel>(v: C, out: C) -> bool {
    exists|max: C| is_level(255u8, max) && is_product(v, max, out)
}

/// The channel value `v` brought to the scale of an 8-bit channel: `v` times
/// the largest 8-bit value.
pub open spec fn scale<C: Channel>(v: C) -> C {
    v.mul_spec(full_scale::<C>())
}

/// The 8-bit value nearest to the integer `n`: `n` itself where it fits, the
/// smallest 8-bit value below the range and the largest above it.
pub open spec fn saturate_spec(n: i64) -> u8 {
    max(0, min(n as int, 255)) as u8
}

/// Cuts an integer to eight bits by saturation.
pub fn saturate(n: i64) -> (out: u8)
    ensures
        out == saturate_spec(n),
{
    if n <= 0 {
        0
    } else if n >= 255 {
        255
    } else {
        n as u8
    }
}

/// `out` is a result of rounding `scaled` to eight bits: of saturating an
/// integer that `round` gives for `scaled`.
pub open spec fn is_rounded<C: Channel, F: Fn(C) -> i64>(round: F, scaled: C, out: u8) -> bool {
    exists|n: i64| round.ensures((scaled,), n) && out == saturate_spec(n)
}

/// `out` is a result of narrowing `v` to eight bits: of rounding a result of
/// scaling `v`.
pub open spec fn is_narrowed<C: Channel, F: Fn(C) -> i64>(round: F, v: C, out: u8) -> bool {
    exists|scaled: C| is_scaled(v, scaled) && is_rounded(round, scaled, out)
}

impl<C: Channel> Rgba<C> {
    /// Widening the components of `rgba` to `C` cannot fail: either the
    /// operators of `C` never do, or they follow their specification and
    /// accept the four divisions.
    pub open spec fn from_u8x4_req(rgba: U8x4Rgba) -> bool {
        ||| arith_total::<C>()
        ||| {
            &&& obeys_channel_spec::<C>()
            &&& level::<C>(rgba.r).div_req(full_scale::<C>())
            &&& level::<C>(rgba.g).div_req(full_scale::<C>())
            &&& level::<C>(rgba.b).div_req(full_scale::<C>())
            &&& level::<C>(rgba.a).div_req(full_scale::<C>())
        }
    }

    /// The color that `rgba` widens to.
    pub open spec fn from_u8x4_spec(rgba: U8x4Rgba) -> Self {
        Rgba { r: widen(rgba.r), g: widen(rgba.g), b: widen(rgba.b), a: widen(rgba.a) }
    }

    /// Converts an 8-bit color to channel type `C`: each component, alpha
    /// included, is divided by the largest 8-bit value.
    pub fn from_u8x4(rgba: U8x4Rgba) -> (out: Self)
        requires
            Self::from_u8x4_req(rgba),
        ensures
            is_widened(rgba.r, out.r),
            is_widened(rgba.g, out.g),
            is_widened(rgba.b, out.b),
            is_widened(rgba.a, out.a),
            obeys_channel_spec::<C>() ==> out == Self::from_u8x4_spec(rgba),
    {
        let max: C = channel_level(255u8);
        let nr: C = channel_level(rgba.red());
        let ng: C = channel_level(rgba.green());
        let nb: C = channel_level(rgba.blue());
        let na: C = channel_level(rgba.alpha());
        let out = Self::new(nr / max, ng / max, nb / max, na / max);
        proof {
            assert(is_level(rgba.r, nr) && is_level(255u8, max) && is_quotient(nr, max, out.r));
            assert(is_level(rgba.g, ng) && is_level(255u8, max) && is_quotient(ng, max, out.g));
            assert(is_level(rgba.b, nb) && is_level(255u8, max) && is_quotient(nb, max, out.b));
            assert(is_level(rgba.a, na) && is_level(255u8, max) && is_quotient(na, max, out.a));
        }
        out
    }

    /// Scaling the components of `self` to 8 bits cannot fail: either the
    /// operators of `C` never do, or they follow their specification and
    /// accept the four products.
    pub open spec fn into_u8x4_req(self) -> bool {
        ||| arith_total::<C>()
        ||| {
            &&& obeys_channel_spec::<C>()
            &&& self.r.mul_req(full_scale::<C>())
            &&& self.g.mul_req(full_scale::<C>())
            &&& self.b.mul_req(full_scale::<C>())
            &&& self.a.mul_req(full_scale::<C>())
        }
    }

    /// Converts the color to 8 bits: each component, alpha included, is
    /// multiplied by the largest 8-bit value, rounded to an integer by
    /// `round`, and cut to eight bits by saturation.
    ///
    /// No component is rejected: a product that rounds to an integer below
    /// the 8-bit range becomes the smallest 8-bit value, one above it the
    /// largest.
    pub fn into_u8x4<F: Fn(C) -> i64>(self, round: F) -> (out: U8x4Rgba)
        requires
            self.into_u8x4_req(),
            forall|v: C| #[trigger] round.requires((v,)),
        ensures
            is_narrowed(round, self.r, out.r),
            is_narrowed(round, self.g, out.g),
            is_narrowed(round, self.b, out.b),
            is_narrowed(round, self.a, out.a),
            obeys_channel_spec::<C>() ==> {
                &&& is_rounded(round, scale(self.r), out.r)
                &&& is_rounded(round, scale(self.g), out.g)
                &&& is_rounded(round, scale(self.b), out.b)
                &&& is_rounded(round, scale(self.a), out.a)
            },
    {
        let max: C = channel_level(255u8);
        let sr = self.red() * max;
        let sg = self.green() * max;
        let sb = self.blue() * max;
        let sa = self.alpha() * max;
        let nr: i64 = round(sr);
        let ng: i64 = round(sg);
        let nb: i64 = round(sb);
        let na: i64 = round(sa);
        let out = Rgba::new(saturate(nr), saturate(ng), saturate(nb), saturate(na));
        proof {
            assert(is_level(255u8, max) && is_product(self.r, max, sr));
            assert(is_level(255u8, max) && is_product(self.g, max, sg));
            assert(is_level(255u8, max) && is_product(self.b, max, sb));
            assert(is_level(255u8, max) && is_product(self.a, max, sa));
            assert(round.ensures((sr,), nr) && out.r == saturate_spec(nr));
            assert(round.ensures((sg,), ng) && out.g == saturate_spec(ng));
            assert(round.ensures((sb,), nb) && out.b == saturate_spec(nb));
            assert(round.ensures((sa,), na) && out.a == saturate_spec(na));
            assert(is_scaled(self.r, sr) && is_rounded(round, sr, out.r));
            assert(is_scaled(self.g, sg) && is_rounded(round, sg, out.g));
            assert(is_scaled(self.b, sb) && is_rounded(round, sb, out.b));
            assert(is_scaled(self.a, sa) && is_rounded(round, sa, out.a));
        }
        out
    }
}

} // verus!
