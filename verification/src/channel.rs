//! The arithmetic a color channel has to offer.
//!
//! Blending never looks inside a channel value. It only adds, subtracts,
//! multiplies and divides channel values, and obtains the constants it needs
//! from small integers. Any `Copy` type with these operators is a
//! [`Channel`].
//!
//! Contracts speak of a channel type in two ways. The relations [`is_level`],
//! [`is_sum`], [`is_difference`], [`is_product`] and [`is_quotient`] say that
//! a value is a result of the type's own operator on given operands; they
//! hold of every channel type. Where the operators of the type follow the
//! specification that `vstd` attaches to them ([`obeys_channel_spec`]), the
//! result is moreover the value that this specification names.
use core::ops::{Add, Div, Mul, Sub};
use vstd::prelude::*;
use vstd::std_specs::convert::FromSpec;
use vstd::std_specs::ops::{AddSpec, DivSpec, MulSpec, SubSpec};

verus! {

/// A numeric type that can serve as one channel of a color.
///
/// The trait has no methods of its own: it names the operators that blending
/// and conversion use, and every type that has them is a channel.
pub trait Channel: Copy + From<u8> + Add<Output = Self> + Sub<Output = Self> + Mul<
    Output = Self,
> + Div<Output = Self> {

}

impl<T> Channel for T where
    T: Copy + From<u8> + Add<Output = T> + Sub<Output = T> + Mul<Output = T> + Div<Output = T>,
 {
}

/// `out` is a result of converting the integer `n` to `C`.
pub open spec fn is_level<C: Channel>(n: u8, out: C) -> bool {
    call_ensures(<C as From<u8>>::from, (n,), out)
}

/// `out` is a result of adding `b` to `a`.
pub open spec fn is_sum<C: Channel>(a: C, b: C, out: C) -> bool {
    call_ensures(<C as Add>::add, (a, b), out)
}

/// `out` is a result of subtracting `b` from `a`.
pub open spec fn is_difference<C: Channel>(a: C, b: C, out: C) -> bool {
    call_ensures(<C as Sub>::sub, (a, b), out)
}

/// `out` is a result of multiplying `a` by `b`.
pub open spec fn is_product<C: Channel>(a: C, b: C, out: C) -> bool {
    call_ensures(<C as Mul>::mul, (a, b), out)
}

/// `out` is a result of dividing `a` by `b`.
pub open spec fn is_quotient<C: Channel>(a: C, b: C, out: C) -> bool {
    call_ensures(<C as Div>::div, (a, b), out)
}

/// The channel value that the integer `n` converts to.
pub open spec fn level<C: Channel>(n: u8) -> C {
    <C as FromSpec<u8>>::from_spec(n)
}

/// The channel value of an absent contribution.
pub open spec fn zero<C: Channel>() -> C {
    level::<C>(0u8)
}

/// The channel value of a full contribution, and of an opaque alpha.
pub open spec fn one<C: Channel>() -> C {
    level::<C>(1u8)
}

/// The channel value that the largest 8-bit channel converts to.
pub open spec fn full_scale<C: Channel>() -> C {
    level::<C>(255u8)
}

/// The operators of `C` are functions of their operands: each returns what
/// its specification says.
///
/// This holds of the unsigned integer types wider than eight bits. Nothing
/// is known of it for a type whose operators carry no specification.
pub open spec fn obeys_channel_spec<C: Channel>() -> bool {
    &&& <C as FromSpec<u8>>::obeys_from_spec()
    &&& <C as AddSpec>::obeys_add_spec()
    &&& <C as SubSpec>::obeys_sub_spec()
    &&& <C as MulSpec>::obeys_mul_spec()
    &&& <C as DivSpec>::obeys_div_spec()
}

/// The operators of `C` accept every pair of operands: none can overflow or
/// otherwise fail.
pub open spec fn arith_total<C: Channel>() -> bool {
    &&& forall|x: C, y: C| #[trigger] x.add_req(y)
    &&& forall|x: C, y: C| #[trigger] x.sub_req(y)
    &&& forall|x: C, y: C| #[trigger] x.mul_req(y)
    &&& forall|x: C, y: C| #[trigger] x.div_req(y)
}

/// Converts a small integer to a channel value.
pub fn channel_level<C: Channel>(n: u8) -> (out: C)
    ensures
        is_level(n, out),
        obeys_channel_spec::<C>() ==> out == level::<C>(n),
{
    C::from(n)
}

} // verus!
