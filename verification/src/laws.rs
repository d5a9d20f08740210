//! Laws of the blend modes.
//!
//! The laws are stated over [`RgbaBlend::apply_spec`], the function that
//! [`RgbaBlend::apply`] computes for [`BlendMode`]. Most of them hold for
//! every channel type whose arithmetic is exact in the sense of
//! [`exact_channel`]: zero annihilates, one and zero are neutral. The
//! unsigned integer types are such types. A type with values that zero does
//! not annihilate, such as an infinity or a not-a-number value, is not.
use crate::channel::{obeys_channel_spec, one, zero, Channel};
use crate::porter_duff::PorterDuff;
use crate::rgba::Rgba;
use crate::{BlendMode, RgbaBlend};
use vstd::prelude::*;
use vstd::std_specs::ops::{AddSpec, MulSpec, SubSpec};

verus! {

/// The arithmetic of `C` is exact: a product with zero is zero, a product
/// with one and a sum with zero leave the other operand as it is, and one
/// minus one is zero.
pub open spec fn exact_channel<C: Channel>() -> bool {
    &&& forall|x: C| #[trigger] zero::<C>().mul_spec(x) == zero::<C>()
    &&& forall|x: C| #[trigger] one::<C>().mul_spec(x) == x
    &&& forall|x: C| #[trigger] x.add_spec(zero::<C>()) == x
    &&& forall|x: C| #[trigger] zero::<C>().add_spec(x) == x
    &&& one::<C>().sub_spec(one::<C>()) == zero::<C>()
}

/// A sum in `C` does not depend on the order of its operands.
pub open spec fn commutative_sum<C: Channel>() -> bool {
    forall|x: C, y: C| #[trigger] x.add_spec(y) == y.add_spec(x)
}

/// The color whose four components are zero.
pub open spec fn zero_color<C: Channel>() -> Rgba<C> {
    Rgba { r: zero::<C>(), g: zero::<C>(), b: zero::<C>(), a: zero::<C>() }
}

/// The component-wise sum of two colors.
pub open spec fn sum_color<C: Channel>(src: Rgba<C>, dst: Rgba<C>) -> Rgba<C> {
    Rgba {
        r: src.r.add_spec(dst.r),
        g: src.g.add_spec(dst.g),
        b: src.b.add_spec(dst.b),
        a: src.a.add_spec(dst.a),
    }
}

/// The color left after blending `src` onto `dst` with `mode`, then `src`
/// onto the result, and so on, `times` times in all. Each step is the
/// `apply_spec` of the mode, written out.
pub open spec fn blend_repeatedly<C: Channel>(
    mode: BlendMode,
    src: Rgba<C>,
    dst: Rgba<C>,
    times: nat,
) -> Rgba<C>
    decreases times,
{
    if times == 0 {
        dst
    } else {
        mode.porter_duff().blend_spec(src, blend_repeatedly(mode, src, dst, (times - 1) as nat))
    }
}

/// What a mode gives on two opaque colors: nothing, the source, the
/// destination, or their sum.
pub open spec fn opaque_blend<C: Channel>(mode: BlendMode, src: Rgba<C>, dst: Rgba<C>) -> Rgba<C> {
    match mode {
        BlendMode::Clear
        | BlendMode::SourceOut
        | BlendMode::DestinationOut
        | BlendMode::Xor => zero_color::<C>(),
        BlendMode::Source
        | BlendMode::SourceOver
        | BlendMode::SourceIn
        | BlendMode::SourceAtop => src,
        BlendMode::Destination
        | BlendMode::DestinationOver
        | BlendMode::DestinationIn
        | BlendMode::DestinationAtop => dst,
        BlendMode::Plus => sum_color(src, dst),
    }
}

/// The mode that treats the destination as `mode` treats the source, and the
/// source as `mode` treats the destination.
pub open spec fn mirrored(mode: BlendMode) -> BlendMode {
    match mode {
        BlendMode::Clear => BlendMode::Clear,
        BlendMode::Source => BlendMode::Destination,
        BlendMode::Destination => BlendMode::Source,
        BlendMode::SourceOver => BlendMode::DestinationOver,
        BlendMode::DestinationOver => BlendMode::SourceOver,
        BlendMode::SourceIn => BlendMode::DestinationIn,
        BlendMode::DestinationIn => BlendMode::SourceIn,
        BlendMode::SourceOut => BlendMode::DestinationOut,
        BlendMode::DestinationOut => BlendMode::SourceOut,
        BlendMode::SourceAtop => BlendMode::DestinationAtop,
        BlendMode::DestinationAtop => BlendMode::SourceAtop,
        BlendMode::Xor => BlendMode::Xor,
        BlendMode::Plus => BlendMode::Plus,
    }
}

/// The unsigned integer types wider than eight bits are channel types whose
/// operators follow their specification, whose arithmetic is exact and whose
/// sums commute.
pub proof fn lemma_unsigned_channels_are_exact()
    ensures
        obeys_channel_spec::<u16>() && exact_channel::<u16>() && commutative_sum::<u16>(),
        obeys_channel_spec::<u32>() && exact_channel::<u32>() && commutative_sum::<u32>(),
        obeys_channel_spec::<u64>() && exact_channel::<u64>() && commutative_sum::<u64>(),
        obeys_channel_spec::<u128>() && exact_channel::<u128>() && commutative_sum::<u128>(),
        obeys_channel_spec::<usize>() && exact_channel::<usize>() && commutative_sum::<usize>(),
{
    assert(exact_channel::<u16>()) by {
        assert(zero::<u16>() == 0 && one::<u16>() == 1);
    }
    assert(exact_channel::<u32>()) by {
        assert(zero::<u32>() == 0 && one::<u32>() == 1);
    }
    assert(exact_channel::<u64>()) by {
        assert(zero::<u64>() == 0 && one::<u64>() == 1);
    }
    assert(exact_channel::<u128>()) by {
        assert(zero::<u128>() == 0 && one::<u128>() == 1);
    }
    assert(exact_channel::<usize>()) by {
        assert(zero::<usize>() == 0 && one::<usize>() == 1);
    }
}

/// Where the operators of the channel type follow their specification,
/// blending is a function: a color that is a result of blending `src` onto
/// `dst` is the color that [`PorterDuff::blend_spec`] names.
pub proof fn lemma_blends_is_blend_spec<C: Channel>(
    op: PorterDuff,
    src: Rgba<C>,
    dst: Rgba<C>,
    out: Rgba<C>,
)
    requires
        obeys_channel_spec::<C>(),
        op.blends(src, dst, out),
    ensures
        out == op.blend_spec(src, dst),
{
    let (cs, cd) = choose|cs: C, cd: C| op.blends_with(src, dst, cs, cd, out);
    assert(cs == op.src.eval_spec(src.a, dst.a));
    assert(cd == op.dst.eval_spec(src.a, dst.a));
}

/// `Clear` gives the zero color, whatever the two colors are.
pub proof fn lemma_clear_is_zero<C: Channel>(src: Rgba<C>, dst: Rgba<C>)
    requires
        exact_channel::<C>(),
    ensures
        BlendMode::Clear.apply_spec(src, dst) == zero_color::<C>(),
{
}

/// `Source` gives the source color and `Destination` the destination color,
/// whatever the other color is.
pub proof fn lemma_source_and_destination<C: Channel>(src: Rgba<C>, dst: Rgba<C>)
    requires
        exact_channel::<C>(),
    ensures
        BlendMode::Source.apply_spec(src, dst) == src,
        BlendMode::Destination.apply_spec(src, dst) == dst,
{
}

/// `Plus` adds the two colors component by component, alpha included, and
/// clamps nothing.
pub proof fn lemma_plus_is_sum<C: Channel>(src: Rgba<C>, dst: Rgba<C>)
    requires
        exact_channel::<C>(),
    ensures
        BlendMode::Plus.apply_spec(src, dst) == sum_color(src, dst),
{
}

/// An opaque source occludes the destination under `SourceOver`.
pub proof fn lemma_opaque_source_over<C: Channel>(src: Rgba<C>, dst: Rgba<C>)
    requires
        exact_channel::<C>(),
        src.a == one::<C>(),
    ensures
        BlendMode::SourceOver.apply_spec(src, dst) == src,
{
}

/// On two opaque colors every mode gives nothing, the source, the
/// destination or their sum. In particular `Xor`, `SourceOut` and
/// `DestinationOut` cancel two opaque colors to the zero color.
pub proof fn lemma_opaque_pair<C: Channel>(mode: BlendMode, src: Rgba<C>, dst: Rgba<C>)
    requires
        exact_channel::<C>(),
        src.a == one::<C>(),
        dst.a == one::<C>(),
    ensures
        mode.apply_spec(src, dst) == opaque_blend(mode, src, dst),
{
}

/// Every mode is the mirror image of another: blending `src` onto `dst` with
/// a mode gives what blending `dst` onto `src` with the mirrored mode gives.
/// Each `Destination` mode is thus its `Source` mode with the colors
/// exchanged; `Clear`, `Xor` and `Plus` are their own mirror images.
pub proof fn lemma_mirrored<C: Channel>(mode: BlendMode, src: Rgba<C>, dst: Rgba<C>)
    requires
        commutative_sum::<C>(),
    ensures
        mode.apply_spec(src, dst) == mirrored(mode).apply_spec(dst, src),
{
}

/// `Destination` applied any number of times leaves the destination
/// unchanged.
pub proof fn lemma_destination_repeated<C: Channel>(src: Rgba<C>, dst: Rgba<C>, times: nat)
    requires
        exact_channel::<C>(),
    ensures
        blend_repeatedly(BlendMode::Destination, src, dst, times) == dst,
    decreases times,
{
    if times > 0 {
        lemma_destination_repeated(src, dst, (times - 1) as nat);
    }
}

/// `Clear` applied once or more gives the zero color, the same for every
/// pair of colors.
pub proof fn lemma_clear_repeated<C: Channel>(src: Rgba<C>, dst: Rgba<C>, times: nat)
    requires
        exact_channel::<C>(),
        times > 0,
    ensures
        blend_repeatedly(BlendMode::Clear, src, dst, times) == zero_color::<C>(),
{
}

} // verus!
