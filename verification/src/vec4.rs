//! Four-lane vectors, the arithmetic substrate of blending.
//!
//! A [`Cx4`] holds the four components of a color as four anonymous lanes
//! `w`, `x`, `y`, `z`, in the order red, green, blue, alpha. Sums and
//! products are taken lane by lane, either with another vector or with one
//! value that is applied to every lane.
use crate::channel::{
    channel_level, is_level, is_product, is_sum, obeys_channel_spec, zero, Channel,
};
use crate::rgba::Rgba;
use core::ops::{Add, Mul};
use vstd::prelude::*;
use vstd::std_specs::ops::{AddSpec, MulSpec};

verus! {

/// Vector with four components of the channel type `C`.
pub struct Cx4<C> where C: Copy {
    /// The `w` lane, the first component.
    pub w: C,
    /// The `x` lane, the second component.
    pub x: C,
    /// The `y` lane, the third component.
    pub y: C,
    /// The `z` lane, the fourth component.
    pub z: C,
}

impl<C: Copy> From<Rgba<C>> for Cx4<C> {
    /// Takes red, green, blue and alpha as the lanes `w`, `x`, `y` and `z`.
    fn from(rgba: Rgba<C>) -> (out: Self) {
        Cx4 { w: rgba.r, x: rgba.g, y: rgba.b, z: rgba.a }
    }
}

impl<C: Copy> vstd::std_specs::convert::FromSpecImpl<Rgba<C>> for Cx4<C> {
    open spec fn obeys_from_spec() -> bool {
        true
    }

    open spec fn from_spec(rgba: Rgba<C>) -> Self {
        Cx4 { w: rgba.r, x: rgba.g, y: rgba.b, z: rgba.a }
    }
}

impl<C: Copy> From<Cx4<C>> for Rgba<C> {
    /// Takes the lanes `w`, `x`, `y` and `z` as red, green, blue and alpha.
    fn from(vec: Cx4<C>) -> (out: Self) {
        Rgba { r: vec.w, g: vec.x, b: vec.y, a: vec.z }
    }
}

impl<C: Copy> vstd::std_specs::convert::FromSpecImpl<Cx4<C>> for Rgba<C> {
    open spec fn obeys_from_spec() -> bool {
        true
    }

    open spec fn from_spec(vec: Cx4<C>) -> Self {
        Rgba { r: vec.w, g: vec.x, b: vec.y, a: vec.z }
    }
}

impl<C: Copy> Cx4<C> {
    /// Creates a new `Cx4` instance with the specified components.
    pub fn new(w: C, x: C, y: C, z: C) -> (out: Self)
        ensures
            out.w == w,
            out.x == x,
            out.y == y,
            out.z == z,
    {
        Self { w, x, y, z }
    }

    /// The vector whose four lanes all hold `value`.
    pub open spec fn splat_spec(value: C) -> Self {
        Cx4 { w: value, x: value, y: value, z: value }
    }

    /// Creates a new `Cx4` instance with all components set to the given
    /// value.
    #[must_use]
    pub fn splat(value: C) -> (out: Self)
        ensures
            out == Self::splat_spec(value),
    {
        Self { w: value, x: value, y: value, z: value }
    }

    /// The color whose red, green, blue and alpha are the lanes `w`, `x`,
    /// `y` and `z`.
    pub open spec fn rgba(self) -> Rgba<C> {
        Rgba { r: self.w, g: self.x, b: self.y, a: self.z }
    }

    /// Returns the RGBA-equivalent of this `Cx4`.
    #[must_use]
    pub fn into_rgba(self) -> (out: Rgba<C>)
        ensures
            out == self.rgba(),
    {
        Rgba { r: self.w, g: self.x, b: self.y, a: self.z }
    }
}

impl<C: Channel> Cx4<C> {
    /// Creates a new `Cx4` instance with all components set to zero.
    #[must_use]
    pub fn zeroed() -> (out: Self)
        ensures
            is_level(0u8, out.w),
            out == Self::splat_spec(out.w),
            obeys_channel_spec::<C>() ==> out == Self::splat_spec(zero::<C>()),
    {
        Self::splat(channel_level(0u8))
    }
}

impl<C: Channel> Add<C> for Cx4<C> {
    type Output = Cx4<C>;

    /// Adds `rhs` to every lane.
    fn add(self, rhs: C) -> (out: Cx4<C>)
        ensures
            is_sum(self.w, rhs, out.w),
            is_sum(self.x, rhs, out.x),
            is_sum(self.y, rhs, out.y),
            is_sum(self.z, rhs, out.z),
    {
        Cx4 { w: self.w + rhs, x: self.x + rhs, y: self.y + rhs, z: self.z + rhs }
    }
}

impl<C: Channel> vstd::std_specs::ops::AddSpecImpl<C> for Cx4<C> {
    open spec fn obeys_add_spec() -> bool {
        <C as AddSpec>::obeys_add_spec()
    }

    open spec fn add_req(self, rhs: C) -> bool {
        &&& self.w.add_req(rhs)
        &&& self.x.add_req(rhs)
        &&& self.y.add_req(rhs)
        &&& self.z.add_req(rhs)
    }

    open spec fn add_spec(self, rhs: C) -> Cx4<C> {
        Cx4 {
            w: self.w.add_spec(rhs),
            x: self.x.add_spec(rhs),
            y: self.y.add_spec(rhs),
            z: self.z.add_spec(rhs),
        }
    }
}

impl<C: Channel> Add<Cx4<C>> for Cx4<C> {
    type Output = Cx4<C>;

    /// Adds the two vectors lane by lane.
    fn add(self, rhs: Cx4<C>) -> (out: Cx4<C>)
        ensures
            is_sum(self.w, rhs.w, out.w),
            is_sum(self.x, rhs.x, out.x),
            is_sum(self.y, rhs.y, out.y),
            is_sum(self.z, rhs.z, out.z),
    {
        Cx4 { w: self.w + rhs.w, x: self.x + rhs.x, y: self.y + rhs.y, z: self.z + rhs.z }
    }
}

impl<C: Channel> vstd::std_specs::ops::AddSpecImpl<Cx4<C>> for Cx4<C> {
    open spec fn obeys_add_spec() -> bool {
        <C as AddSpec>::obeys_add_spec()
    }

    open spec fn add_req(self, rhs: Cx4<C>) -> bool {
        &&& self.w.add_req(rhs.w)
        &&& self.x.add_req(rhs.x)
        &&& self.y.add_req(rhs.y)
        &&& self.z.add_req(rhs.z)
    }

    open spec fn add_spec(self, rhs: Cx4<C>) -> Cx4<C> {
        Cx4 {
            w: self.w.add_spec(rhs.w),
            x: self.x.add_spec(rhs.x),
            y: self.y.add_spec(rhs.y),
            z: self.z.add_spec(rhs.z),
        }
    }
}

impl<C: Channel> Mul<C> for Cx4<C> {
    type Output = Cx4<C>;

    /// Multiplies every lane by `rhs`.
    fn mul(self, rhs: C) -> (out: Cx4<C>)
        ensures
            is_product(self.w, rhs, out.w),
            is_product(self.x, rhs, out.x),
            is_product(self.y, rhs, out.y),
            is_product(self.z, rhs, out.z),
    {
        Cx4 { w: self.w * rhs, x: self.x * rhs, y: self.y * rhs, z: self.z * rhs }
    }
}

impl<C: Channel> vstd::std_specs::ops::MulSpecImpl<C> for Cx4<C> {
    open spec fn obeys_mul_spec() -> bool {
        <C as MulSpec>::obeys_mul_spec()
    }

    open spec fn mul_req(self, rhs: C) -> bool {
        &&& self.w.mul_req(rhs)
        &&& self.x.mul_req(rhs)
        &&& self.y.mul_req(rhs)
        &&& self.z.mul_req(rhs)
    }

    open spec fn mul_spec(self, rhs: C) -> Cx4<C> {
        Cx4 {
            w: self.w.mul_spec(rhs),
            x: self.x.mul_spec(rhs),
            y: self.y.mul_spec(rhs),
            z: self.z.mul_spec(rhs),
        }
    }
}

impl<C: Channel> Mul<Cx4<C>> for Cx4<C> {
    type Output = Cx4<C>;

    /// Multiplies the two vectors lane by lane.
    fn mul(self, rhs: Cx4<C>) -> (out: Cx4<C>)
        ensures
            is_product(self.w, rhs.w, out.w),
            is_product(self.x, rhs.x, out.x),
            is_product(self.y, rhs.y, out.y),
            is_product(self.z, rhs.z, out.z),
    {
        Cx4 { w: self.w * rhs.w, x: self.x * rhs.x, y: self.y * rhs.y, z: self.z * rhs.z }
    }
}

impl<C: Channel> vstd::std_specs::ops::MulSpecImpl<Cx4<C>> for Cx4<C> {
    open spec fn obeys_mul_spec() -> bool {
        <C as MulSpec>::obeys_mul_spec()
    }

    open spec fn mul_req(self, rhs: Cx4<C>) -> bool {
        &&& self.w.mul_req(rhs.w)
        &&& self.x.mul_req(rhs.x)
        &&& self.y.mul_req(rhs.y)
        &&& self.z.mul_req(rhs.z)
    }

    open spec fn mul_spec(self, rhs: Cx4<C>) -> Cx4<C> {
        Cx4 {
            w: self.w.mul_spec(rhs.w),
            x: self.x.mul_spec(rhs.x),
            y: self.y.mul_spec(rhs.y),
            z: self.z.mul_spec(rhs.z),
        }
    }
}

} // verus!
