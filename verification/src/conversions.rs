//! Conversions between the engine's plain-data layouts and the value types
//! that callers work with.
//!
//! Every conversion is a total function of its argument. Each trait names that
//! function as a spec function, so that contracts elsewhere can speak of the
//! converted value.

use vstd::prelude::*;

verus! {

/// Trait for converting a value from its corresponding native layout.
pub trait FromJolt: Sized {
    type Jolt;

    /// The value that the native `value` stands for.
    spec fn from_jolt_spec(value: Self::Jolt) -> Self;

    fn from_jolt(value: Self::Jolt) -> (converted: Self)
        ensures
            converted == Self::from_jolt_spec(value),
    ;
}

/// Trait for converting a value into its corresponding native layout.
pub trait IntoJolt: Sized {
    type Jolt;

    /// The native layout of `self`.
    spec fn into_jolt_spec(self) -> Self::Jolt;

    fn into_jolt(self) -> (converted: Self::Jolt)
        ensures
            converted == self.into_jolt_spec(),
    ;
}

/// Convenience trait for [`FromJolt`], called on the native value.
pub trait IntoRolt<Rolt>: Sized {
    /// The value that `self` stands for.
    spec fn into_rolt_spec(self) -> Rolt;

    fn into_rolt(self) -> (converted: Rolt)
        ensures
            converted == self.into_rolt_spec(),
    ;
}

impl<J, R> IntoRolt<R> for J where R: FromJolt<Jolt = J> {
    open spec fn into_rolt_spec(self) -> R {
        R::from_jolt_spec(self)
    }

    fn into_rolt(self) -> (converted: R) {
        R::from_jolt(self)
    }
}

} // verus!
