use alpha_blend::porter_duff::Coefficient::{Dst, One, OneMinusDst, OneMinusSrc, Src, Zero};
use alpha_blend::porter_duff::PorterDuff;
use alpha_blend::rgba::Rgba;
use alpha_blend::{BlendMode, RgbaBlend};

const ALL: [BlendMode; 13] = [
    BlendMode::Clear,
    BlendMode::Source,
    BlendMode::Destination,
    BlendMode::SourceOver,
    BlendMode::DestinationOver,
    BlendMode::SourceIn,
    BlendMode::DestinationIn,
    BlendMode::SourceOut,
    BlendMode::DestinationOut,
    BlendMode::SourceAtop,
    BlendMode::DestinationAtop,
    BlendMode::Xor,
    BlendMode::Plus,
];

struct Swap;

impl RgbaBlend<f32> for Swap {
    fn apply(&self, _src: Rgba<f32>, dst: Rgba<f32>) -> Rgba<f32> {
        Rgba::new(dst.b, dst.g, dst.r, dst.a)
    }
}

fn blend_with(blend: &impl RgbaBlend<f32>, src: Rgba<f32>, dst: Rgba<f32>) -> Rgba<f32> {
    blend.apply(src, dst)
}

#[test]
fn source_over_mixes_red_onto_blue() {
    let src = Rgba::<f32>::new(1.0, 0.0, 0.0, 0.5);
    let dst = Rgba::<f32>::new(0.0, 0.0, 1.0, 1.0);
    let blended = BlendMode::SourceOver.apply(src, dst);
    assert_eq!(blended, Rgba::new(0.5, 0.0, 0.5, 0.75));
}

#[test]
fn every_mode_has_its_row_of_the_table() {
    let rows = [
        (BlendMode::Clear, Zero, Zero),
        (BlendMode::Source, One, Zero),
        (BlendMode::Destination, Zero, One),
        (BlendMode::SourceOver, Src, OneMinusSrc),
        (BlendMode::DestinationOver, OneMinusDst, Dst),
        (BlendMode::SourceIn, Dst, Zero),
        (BlendMode::DestinationIn, Zero, Src),
        (BlendMode::SourceOut, OneMinusDst, Zero),
        (BlendMode::DestinationOut, Zero, OneMinusSrc),
        (BlendMode::SourceAtop, Dst, OneMinusSrc),
        (BlendMode::DestinationAtop, OneMinusDst, Src),
        (BlendMode::Xor, OneMinusDst, OneMinusSrc),
        (BlendMode::Plus, One, One),
    ];
    for (mode, src, dst) in rows {
        assert_eq!(mode.as_rgba_blend(), PorterDuff::new(src, dst), "{mode:?}");
    }
}

#[test]
fn every_mode_blends_as_its_operator() {
    let operators = [
        PorterDuff::clear(),
        PorterDuff::src(),
        PorterDuff::dst(),
        PorterDuff::src_over(),
        PorterDuff::dst_over(),
        PorterDuff::src_in(),
        PorterDuff::dst_in(),
        PorterDuff::src_out(),
        PorterDuff::dst_out(),
        PorterDuff::src_atop(),
        PorterDuff::dst_atop(),
        PorterDuff::xor(),
        PorterDuff::plus(),
    ];
    let src = Rgba::<f32>::new(0.9, 0.1, 0.4, 0.25);
    let dst = Rgba::<f32>::new(0.2, 0.8, 0.6, 0.75);
    for (mode, operator) in ALL.iter().zip(operators) {
        assert_eq!(mode.as_rgba_blend(), operator, "{mode:?}");
        assert_eq!(mode.apply(src, dst), operator.blend(src, dst), "{mode:?}");
    }
}

#[test]
fn every_mode_follows_the_blend_formula() {
    let src = Rgba::<f32>::new(0.9, 0.1, 0.4, 0.25);
    let dst = Rgba::<f32>::new(0.2, 0.8, 0.6, 0.75);
    for mode in ALL {
        let operator = mode.as_rgba_blend();
        let cs: f32 = operator.src.eval(src.a, dst.a);
        let cd: f32 = operator.dst.eval(src.a, dst.a);
        let expected = Rgba::new(
            cs * src.r + cd * dst.r,
            cs * src.g + cd * dst.g,
            cs * src.b + cd * dst.b,
            cs * src.a + cd * dst.a,
        );
        assert_eq!(mode.apply(src, dst), expected, "{mode:?}");
    }
}

#[test]
fn partial_coverage_has_exact_values() {
    let src = Rgba::<f32>::new(1.0, 0.5, 0.0, 0.25);
    let dst = Rgba::<f32>::new(0.0, 0.5, 1.0, 0.5);
    assert_eq!(BlendMode::SourceOver.apply(src, dst), Rgba::new(0.25, 0.5, 0.75, 0.4375));
    assert_eq!(BlendMode::DestinationOver.apply(src, dst), Rgba::new(0.5, 0.5, 0.5, 0.375));
    assert_eq!(BlendMode::SourceIn.apply(src, dst), Rgba::new(0.5, 0.25, 0.0, 0.125));
    assert_eq!(BlendMode::DestinationIn.apply(src, dst), Rgba::new(0.0, 0.125, 0.25, 0.125));
    assert_eq!(BlendMode::SourceOut.apply(src, dst), Rgba::new(0.5, 0.25, 0.0, 0.125));
    assert_eq!(BlendMode::DestinationOut.apply(src, dst), Rgba::new(0.0, 0.375, 0.75, 0.375));
    assert_eq!(BlendMode::SourceAtop.apply(src, dst), Rgba::new(0.5, 0.625, 0.75, 0.5));
    assert_eq!(BlendMode::DestinationAtop.apply(src, dst), Rgba::new(0.5, 0.375, 0.25, 0.25));
    assert_eq!(BlendMode::Xor.apply(src, dst), Rgba::new(0.5, 0.625, 0.75, 0.5));
    assert_eq!(BlendMode::Plus.apply(src, dst), Rgba::new(1.0, 1.0, 1.0, 0.75));
}

#[test]
fn alpha_is_blended_like_a_color_channel() {
    let src = Rgba::<f32>::new(0.5, 0.5, 0.5, 0.5);
    let dst = Rgba::<f32>::new(0.25, 0.25, 0.25, 0.25);
    for mode in ALL {
        let out = mode.apply(src, dst);
        assert_eq!(out.r, out.g, "{mode:?}");
        assert_eq!(out.g, out.b, "{mode:?}");
        assert_eq!(out.b, out.a, "{mode:?}");
    }
}

#[test]
fn plus_is_not_clamped() {
    let src = Rgba::<f32>::new(0.75, 1.0, 0.5, 1.0);
    let dst = Rgba::<f32>::new(0.75, 1.0, 0.25, 1.0);
    assert_eq!(BlendMode::Plus.apply(src, dst), Rgba::new(1.5, 2.0, 0.75, 2.0));
}

#[test]
fn results_may_fall_below_zero() {
    let src = Rgba::<f32>::new(0.5, 0.5, 0.5, 2.0);
    let dst = Rgba::<f32>::new(1.0, 1.0, 1.0, 1.0);
    assert_eq!(BlendMode::DestinationOut.apply(src, dst), Rgba::new(-1.0, -1.0, -1.0, -1.0));
}

#[test]
fn not_a_number_is_propagated() {
    let src = Rgba::<f32>::new(f32::NAN, 0.5, 0.5, 1.0);
    let dst = Rgba::<f32>::new(0.25, 0.25, 0.25, 1.0);
    let over = BlendMode::SourceOver.apply(src, dst);
    assert!(over.r.is_nan());
    assert_eq!((over.g, over.b, over.a), (0.5, 0.5, 1.0));
    let cleared = BlendMode::Clear.apply(src, dst);
    assert!(cleared.r.is_nan());
    assert_eq!((cleared.g, cleared.b, cleared.a), (0.0, 0.0, 0.0));
}

#[test]
fn infinity_is_propagated() {
    let src = Rgba::<f32>::new(f32::INFINITY, 0.5, 0.5, 1.0);
    let dst = Rgba::<f32>::new(0.25, 0.25, 0.25, 1.0);
    let plus = BlendMode::Plus.apply(src, dst);
    assert_eq!(plus, Rgba::new(f32::INFINITY, 0.75, 0.75, 2.0));
    let kept = BlendMode::Destination.apply(src, dst);
    assert!(kept.r.is_nan());
}

#[test]
fn a_nan_alpha_reaches_every_channel() {
    let src = Rgba::<f32>::new(0.5, 0.5, 0.5, f32::NAN);
    let dst = Rgba::<f32>::new(0.25, 0.25, 0.25, 1.0);
    let out = BlendMode::SourceOver.apply(src, dst);
    assert!(out.r.is_nan() && out.g.is_nan() && out.b.is_nan() && out.a.is_nan());
}

#[test]
fn blend_modes_compare_by_tag() {
    assert_eq!(BlendMode::Xor, BlendMode::Xor);
    assert_ne!(BlendMode::Source, BlendMode::SourceOver);
    let copy = BlendMode::Plus;
    assert_eq!(format!("{copy:?}"), "Plus");
    assert_eq!(format!("{:?}", BlendMode::DestinationAtop), "DestinationAtop");
}

#[test]
fn a_mode_and_an_operator_serve_as_a_blend() {
    let src = Rgba::<f32>::new(0.1, 0.2, 0.3, 1.0);
    let dst = Rgba::<f32>::new(0.4, 0.5, 0.6, 1.0);
    assert_eq!(blend_with(&BlendMode::Source, src, dst), src);
    assert_eq!(blend_with(&PorterDuff::dst(), src, dst), dst);
}

#[test]
fn a_blend_of_the_caller_serves_as_a_blend() {
    let dst = Rgba::<f32>::new(0.25, 0.5, 0.75, 1.0);
    assert_eq!(blend_with(&Swap, dst, dst), Rgba::new(0.75, 0.5, 0.25, 1.0));
}

#[test]
fn double_precision_is_a_channel_too() {
    let src = Rgba::<f64>::new(1.0, 0.0, 0.0, 0.5);
    let dst = Rgba::<f64>::new(0.0, 0.0, 1.0, 1.0);
    assert_eq!(BlendMode::SourceOver.apply(src, dst), Rgba::new(0.5, 0.0, 0.5, 0.75));
}

#[test]
fn integer_channels_blend_exactly() {
    let src = Rgba::<u32>::new(10, 20, 30, 1);
    let dst = Rgba::<u32>::new(40, 50, 60, 1);
    assert_eq!(BlendMode::Plus.apply(src, dst), Rgba::new(50, 70, 90, 2));
    assert_eq!(BlendMode::SourceOver.apply(src, dst), src);
    assert_eq!(BlendMode::DestinationAtop.apply(src, dst), dst);
    assert_eq!(BlendMode::Xor.apply(src, dst), Rgba::new(0, 0, 0, 0));
    let thin = Rgba::<u32>::new(10, 20, 30, 0);
    assert_eq!(BlendMode::SourceOver.apply(thin, dst), dst);
    assert_eq!(BlendMode::SourceIn.apply(src, thin), Rgba::new(0, 0, 0, 0));
}
