//! Alpha blending using Porter-Duff coefficients.
//!
//! A Porter-Duff operator scales the source color by one factor and the
//! destination color by another, and adds the two. Each factor is one of six
//! [`Coefficient`]s of the two alpha values. [`PorterDuff`] pairs two of
//! them; the thirteen classic operators are its associated functions.
use crate::channel::{
    arith_total, channel_level, is_difference, is_level, is_product, is_sum, obeys_channel_spec,
    one, zero, Channel,
};
use crate::rgba::Rgba;
use crate::vec4::Cx4;
use crate::RgbaBlend;
use vstd::prelude::*;
use vstd::std_specs::ops::{AddSpec, MulSpec, SubSpec};

verus! {

/// A factor by which a color is scaled, as a function of the source alpha
/// and the destination alpha.
#[derive(Debug, Clone, Copy, PartialEq, Eq)]
pub enum Coefficient {
    /// Always zero.
    Zero,
    /// Always one.
    One,
    /// The source alpha.
    Src,
    /// The destination alpha.
    Dst,
    /// One minus the source alpha.
    OneMinusSrc,
    /// One minus the destination alpha.
    OneMinusDst,
}

/// Subtracting `alpha` from one cannot fail: either the operators of `C`
/// never do, or they follow their specification and accept the difference.
pub open spec fn complement_req<C: Channel>(alpha: C) -> bool {
    arith_total::<C>() || (obeys_channel_spec::<C>() && one::<C>().sub_req(alpha))
}

/// `out` is a result of subtracting `alpha` from what one converts to.
pub open spec fn is_complement<C: Channel>(alpha: C, out: C) -> bool {
    exists|unit: C| is_level(1u8, unit) && is_difference(unit, alpha, out)
}

impl Coefficient {
    /// The value of the factor for source alpha `sa` and destination alpha
    /// `da`.
    pub open spec fn eval_spec<C: Channel>(self, sa: C, da: C) -> C {
        match self {
            Coefficient::Zero => zero::<C>(),
            Coefficient::One => one::<C>(),
            Coefficient::Src => sa,
            Coefficient::Dst => da,
            Coefficient::OneMinusSrc => one::<C>().sub_spec(sa),
            Coefficient::OneMinusDst => one::<C>().sub_spec(da),
        }
    }

    /// `out` is a result of evaluating the factor for source alpha `sa` and
    /// destination alpha `da`.
    pub open spec fn evaluates<C: Channel>(self, sa: C, da: C, out: C) -> bool {
        match self {
            Coefficient::Zero => is_level(0u8, out),
            Coefficient::One => is_level(1u8, out),
            Coefficient::Src => out == sa,
            Coefficient::Dst => out == da,
            Coefficient::OneMinusSrc => is_complement(sa, out),
            Coefficient::OneMinusDst => is_complement(da, out),
        }
    }

    /// Evaluating the factor on `sa` and `da` cannot fail.
    pub open spec fn eval_req<C: Channel>(self, sa: C, da: C) -> bool {
        match self {
            Coefficient::OneMinusSrc => complement_req(sa),
            Coefficient::OneMinusDst => complement_req(da),
            _ => true,
        }
    }

    /// Evaluates the factor for source alpha `sa` and destination alpha `da`.
    pub fn eval<C: Channel>(self, sa: C, da: C) -> (out: C)
        requires
            self.eval_req(sa, da),
        ensures
            self.evaluates(sa, da, out),
            obeys_channel_spec::<C>() ==> out == self.eval_spec(sa, da),
    {
        match self {
            Coefficient::Zero => channel_level(0u8),
            Coefficient::One => channel_level(1u8),
            Coefficient::Src => sa,
            Coefficient::Dst => da,
            Coefficient::OneMinusSrc => {
                let unit: C = channel_level(1u8);
                let out = unit - sa;
                assert(is_level(1u8, unit) && is_difference(unit, sa, out));
                out
            },
            Coefficient::OneMinusDst => {
                let unit: C = channel_level(1u8);
                let out = unit - da;
                assert(is_level(1u8, unit) && is_difference(unit, da, out));
                out
            },
        }
    }
}

/// `out` is a result of blending one channel: of adding a product of `cd`
/// and the destination channel `d` to a product of `cs` and the source
/// channel `s`.
pub open spec fn is_mix<C: Channel>(cs: C, s: C, cd: C, d: C, out: C) -> bool {
    exists|ps: C, pd: C| is_product(cs, s, ps) && is_product(cd, d, pd) && is_sum(ps, pd, out)
}

/// One blended channel: the source channel `s` scaled by `cs`, plus the
/// destination channel `d` scaled by `cd`.
pub open spec fn mix<C: Channel>(cs: C, s: C, cd: C, d: C) -> C {
    cs.mul_spec(s).add_spec(cd.mul_spec(d))
}

/// The two products and the sum that [`mix`] stands for cannot fail.
pub open spec fn mix_req<C: Channel>(cs: C, s: C, cd: C, d: C) -> bool {
    &&& cs.mul_req(s)
    &&& cd.mul_req(d)
    &&& cs.mul_spec(s).add_req(cd.mul_spec(d))
}

/// A blend operator given by two coefficients: the factor of the source
/// color and the factor of the destination color.
#[derive(Debug, Clone, Copy, PartialEq, Eq)]
pub struct PorterDuff {
    /// The factor by which the source color is scaled.
    pub src: Coefficient,
    /// The factor by which the destination color is scaled.
    pub dst: Coefficient,
}

impl PorterDuff {
    /// Pairs a source factor with a destination factor.
    pub fn new(src: Coefficient, dst: Coefficient) -> (out: Self)
        ensures
            out.src == src,
            out.dst == dst,
    {
        Self { src, dst }
    }

    /// Destination pixels covered by the source are cleared to zero.
    pub fn clear() -> (out: Self)
        ensures
            out.src == Coefficient::Zero,
            out.dst == Coefficient::Zero,
    {
        Self::new(Coefficient::Zero, Coefficient::Zero)
    }

    /// Destination pixels are replaced with the source pixels.
    pub fn src() -> (out: Self)
        ensures
            out.src == Coefficient::One,
            out.dst == Coefficient::Zero,
    {
        Self::new(Coefficient::One, Coefficient::Zero)
    }

    /// Source pixels are replaced by the destination pixels.
    pub fn dst() -> (out: Self)
        ensures
            out.src == Coefficient::Zero,
            out.dst == Coefficient::One,
    {
        Self::new(Coefficient::Zero, Coefficient::One)
    }

    /// Source color is placed over the destination color.
    pub fn src_over() -> (out: Self)
        ensures
            out.src == Coefficient::Src,
            out.dst == Coefficient::OneMinusSrc,
    {
        Self::new(Coefficient::Src, Coefficient::OneMinusSrc)
    }

    /// Destination color is placed over the source color.
    pub fn dst_over() -> (out: Self)
        ensures
            out.src == Coefficient::OneMinusDst,
            out.dst == Coefficient::Dst,
    {
        Self::new(Coefficient::OneMinusDst, Coefficient::Dst)
    }

    /// Source that overlaps the destination replaces the destination.
    pub fn src_in() -> (out: Self)
        ensures
            out.src == Coefficient::Dst,
            out.dst == Coefficient::Zero,
    {
        Self::new(Coefficient::Dst, Coefficient::Zero)
    }

    /// Destination that overlaps the source replaces the source.
    pub fn dst_in() -> (out: Self)
        ensures
            out.src == Coefficient::Zero,
            out.dst == Coefficient::Src,
    {
        Self::new(Coefficient::Zero, Coefficient::Src)
    }

    /// Source that does not overlap the destination replaces the destination.
    pub fn src_out() -> (out: Self)
        ensures
            out.src == Coefficient::OneMinusDst,
            out.dst == Coefficient::Zero,
    {
        Self::new(Coefficient::OneMinusDst, Coefficient::Zero)
    }

    /// Destination that does not overlap the source replaces the source.
    pub fn dst_out() -> (out: Self)
        ensures
            out.src == Coefficient::Zero,
            out.dst == Coefficient::OneMinusSrc,
    {
        Self::new(Coefficient::Zero, Coefficient::OneMinusSrc)
    }

    /// Source that overlaps the destination is blended with the destination.
    pub fn src_atop() -> (out: Self)
        ensures
            out.src == Coefficient::Dst,
            out.dst == Coefficient::OneMinusSrc,
    {
        Self::new(Coefficient::Dst, Coefficient::OneMinusSrc)
    }

    /// Destination that overlaps the source is blended with the source.
    pub fn dst_atop() -> (out: Self)
        ensures
            out.src == Coefficient::OneMinusDst,
            out.dst == Coefficient::Src,
    {
        Self::new(Coefficient::OneMinusDst, Coefficient::Src)
    }

    /// Non-overlapping regions of the source and destination are combined.
    pub fn xor() -> (out: Self)
        ensures
            out.src == Coefficient::OneMinusDst,
            out.dst == Coefficient::OneMinusSrc,
    {
        Self::new(Coefficient::OneMinusDst, Coefficient::OneMinusSrc)
    }

    /// Source and destination regions are added together.
    pub fn plus() -> (out: Self)
        ensures
            out.src == Coefficient::One,
            out.dst == Coefficient::One,
    {
        Self::new(Coefficient::One, Coefficient::One)
    }

    /// `out` is a result of blending `src` onto `dst` where the two factors
    /// came out as `cs` and `cd`: both are results of evaluating the factors
    /// on the two alpha values, and every component of `out`, alpha included,
    /// mixes the components of `src` and `dst` with them.
    pub open spec fn blends_with<C: Channel>(
        &self,
        src: Rgba<C>,
        dst: Rgba<C>,
        cs: C,
        cd: C,
        out: Rgba<C>,
    ) -> bool {
        &&& self.src.evaluates(src.a, dst.a, cs)
        &&& self.dst.evaluates(src.a, dst.a, cd)
        &&& is_mix(cs, src.r, cd, dst.r, out.r)
        &&& is_mix(cs, src.g, cd, dst.g, out.g)
        &&& is_mix(cs, src.b, cd, dst.b, out.b)
        &&& is_mix(cs, src.a, cd, dst.a, out.a)
    }

    /// `out` is a result of blending `src` onto `dst`.
    pub open spec fn blends<C: Channel>(&self, src: Rgba<C>, dst: Rgba<C>, out: Rgba<C>) -> bool {
        exists|cs: C, cd: C| self.blends_with(src, dst, cs, cd, out)
    }

    /// The color that blending `src` onto `dst` gives.
    ///
    /// Both factors are taken from the two alpha values. Then every
    /// component, alpha included, is the source component times the source
    /// factor plus the destination component times the destination factor.
    pub open spec fn blend_spec<C: Channel>(&self, src: Rgba<C>, dst: Rgba<C>) -> Rgba<C> {
        let cs = self.src.eval_spec(src.a, dst.a);
        let cd = self.dst.eval_spec(src.a, dst.a);
        Rgba {
            r: mix(cs, src.r, cd, dst.r),
            g: mix(cs, src.g, cd, dst.g),
            b: mix(cs, src.b, cd, dst.b),
            a: mix(cs, src.a, cd, dst.a),
        }
    }

    /// No step of blending `src` onto `dst` can fail: either the operators
    /// of `C` never do, or they follow their specification and accept the
    /// operands that arise.
    pub open spec fn blend_req<C: Channel>(&self, src: Rgba<C>, dst: Rgba<C>) -> bool {
        ||| arith_total::<C>()
        ||| {
            let cs = self.src.eval_spec(src.a, dst.a);
            let cd = self.dst.eval_spec(src.a, dst.a);
            &&& obeys_channel_spec::<C>()
            &&& self.src.eval_req(src.a, dst.a)
            &&& self.dst.eval_req(src.a, dst.a)
            &&& mix_req(cs, src.r, cd, dst.r)
            &&& mix_req(cs, src.g, cd, dst.g)
            &&& mix_req(cs, src.b, cd, dst.b)
            &&& mix_req(cs, src.a, cd, dst.a)
        }
    }

    /// Returns the result of the blend operation using source and
    /// destination alpha values.
    #[must_use]
    pub fn blend<C: Channel>(&self, src: Rgba<C>, dst: Rgba<C>) -> (out: Rgba<C>)
        requires
            self.blend_req(src, dst),
        ensures
            self.blends(src, dst, out),
            obeys_channel_spec::<C>() ==> out == self.blend_spec(src, dst),
    {
        let cs = self.src.eval(src.alpha(), dst.alpha());
        let cd = self.dst.eval(src.alpha(), dst.alpha());
        let from_src = Cx4::splat(cs) * Cx4::from(src);
        let from_dst = Cx4::splat(cd) * Cx4::from(dst);
        let blend: Cx4<C> = from_src + from_dst;
        let out = blend.into_rgba();
        proof {
            assert(is_product(cs, src.r, from_src.w) && is_product(cd, dst.r, from_dst.w)
                && is_sum(from_src.w, from_dst.w, out.r));
            assert(is_product(cs, src.g, from_src.x) && is_product(cd, dst.g, from_dst.x)
                && is_sum(from_src.x, from_dst.x, out.g));
            assert(is_product(cs, src.b, from_src.y) && is_product(cd, dst.b, from_dst.y)
                && is_sum(from_src.y, from_dst.y, out.b));
            assert(is_product(cs, src.a, from_src.z) && is_product(cd, dst.a, from_dst.z)
                && is_sum(from_src.z, from_dst.z, out.a));
            assert(self.blends_with(src, dst, cs, cd, out));
        }
        out
    }
}

impl<C: Channel> RgbaBlend<C> for PorterDuff {
    open spec fn obeys_apply_spec() -> bool {
        obeys_channel_spec::<C>()
    }

    open spec fn apply_req(&self, src: Rgba<C>, dst: Rgba<C>) -> bool {
        self.blend_req(src, dst)
    }

    open spec fn apply_spec(&self, src: Rgba<C>, dst: Rgba<C>) -> Rgba<C> {
        self.blend_spec(src, dst)
    }

    fn apply(&self, src: Rgba<C>, dst: Rgba<C>) -> (out: Rgba<C>)
        ensures
            self.blends(src, dst, out),
    {
        self.blend(src, dst)
    }
}

} // verus!
