//! Vectors, quaternions, matrices and colors, with the engine's layouts for
//! them and the conversions between the two.
//!
//! The engine pads a three-lane vector to four lanes and expects the fourth to
//! repeat the third. The padding is no part of the vector's value, but it is
//! written exactly that way on every conversion into the native layout.

use vstd::prelude::*;
use vstd::std_specs::convert::FromSpecImpl;

use crate::conversions::{FromJolt, IntoJolt};
use crate::scalar::{Double, Float};

verus! {

/// A vector of three single precision lanes.
#[derive(Debug, Clone, Copy, PartialEq, Eq, Structural)]
pub struct Vec3 {
    pub x: Float,
    pub y: Float,
    pub z: Float,
}

/// A vector of four single precision lanes.
#[derive(Debug, Clone, Copy, PartialEq, Eq, Structural)]
pub struct Vec4 {
    pub x: Float,
    pub y: Float,
    pub z: Float,
    pub w: Float,
}

/// A vector of three double precision lanes.
#[derive(Debug, Clone, Copy, PartialEq, Eq, Structural)]
pub struct DVec3 {
    pub x: Double,
    pub y: Double,
    pub z: Double,
}

/// A quaternion; `w` is the real part.
#[derive(Debug, Clone, Copy, PartialEq, Eq, Structural)]
pub struct Quat {
    pub x: Float,
    pub y: Float,
    pub z: Float,
    pub w: Float,
}

/// A 4x4 matrix, stored by columns.
#[derive(Debug, Clone, Copy, PartialEq, Eq, Structural)]
pub struct Mat4 {
    pub x_axis: Vec4,
    pub y_axis: Vec4,
    pub z_axis: Vec4,
    pub w_axis: Vec4,
}

/// A world-space vector. The engine is used in single precision, so this is
/// [`Vec3`].
pub type RVec3 = Vec3;

/// Represents an sRGB color with alpha.
#[derive(Debug, Clone, Copy, PartialEq, Eq, Structural)]
pub struct Color {
    pub r: u8,
    pub g: u8,
    pub b: u8,
    pub a: u8,
}

/// The engine's layout of a three-lane vector: four lanes, the last one
/// padding.
#[derive(Debug, Clone, Copy, PartialEq, Eq, Structural)]
pub struct NativeVec3 {
    pub x: Float,
    pub y: Float,
    pub z: Float,
    /// Padding. The engine expects a copy of `z` here.
    pub w: Float,
}

/// The engine's layout of a four-lane vector.
#[derive(Debug, Clone, Copy, PartialEq, Eq, Structural)]
pub struct NativeVec4 {
    pub x: Float,
    pub y: Float,
    pub z: Float,
    pub w: Float,
}

/// The engine's layout of a double precision three-lane vector: four lanes,
/// the last one padding.
#[derive(Debug, Clone, Copy, PartialEq, Eq, Structural)]
pub struct NativeDVec3 {
    pub x: Double,
    pub y: Double,
    pub z: Double,
    /// Padding. The engine expects a copy of `z` here.
    pub w: Double,
}

/// The engine's layout of a quaternion.
#[derive(Debug, Clone, Copy, PartialEq, Eq, Structural)]
pub struct NativeQuat {
    pub x: Float,
    pub y: Float,
    pub z: Float,
    pub w: Float,
}

/// The engine's layout of a 4x4 matrix: its four columns.
#[derive(Debug, Clone, Copy, PartialEq, Eq)]
pub struct NativeMat44 {
    pub matrix: [NativeVec4; 4],
}

/// The engine's layout of a world-space transform: three rotation columns and
/// a translation.
#[derive(Debug, Clone, Copy, PartialEq, Eq)]
pub struct NativeRMat44 {
    pub col: [NativeVec4; 3],
    pub col3: NativeRVec3,
}

/// The engine's layout of a world-space vector.
pub type NativeRVec3 = NativeVec3;

/// The engine's layout of a color.
#[derive(Debug, Clone, Copy, PartialEq, Eq, Structural)]
pub struct NativeColor {
    pub r: u8,
    pub g: u8,
    pub b: u8,
    pub a: u8,
}

impl Vec3 {
    pub fn new(x: Float, y: Float, z: Float) -> (v: Self)
        ensures
            v == (Vec3 { x, y, z }),
    {
        Self { x, y, z }
    }
}

impl Vec4 {
    pub fn new(x: Float, y: Float, z: Float, w: Float) -> (v: Self)
        ensures
            v == (Vec4 { x, y, z, w }),
    {
        Self { x, y, z, w }
    }
}

impl DVec3 {
    pub fn new(x: Double, y: Double, z: Double) -> (v: Self)
        ensures
            v == (DVec3 { x, y, z }),
    {
        Self { x, y, z }
    }
}

impl Quat {
    pub fn new(x: Float, y: Float, z: Float, w: Float) -> (q: Self)
        ensures
            q == (Quat { x, y, z, w }),
    {
        Self { x, y, z, w }
    }

    /// The rotation that turns nothing: `(0, 0, 0, 1)`.
    pub open spec fn identity_spec() -> Quat {
        Quat {
            x: Float { bits: 0 },
            y: Float { bits: 0 },
            z: Float { bits: 0 },
            w: Float { bits: crate::scalar::ONE_BITS },
        }
    }

    pub fn identity() -> (q: Self)
        ensures
            q == Self::identity_spec(),
    {
        Self::new(Float::zero(), Float::zero(), Float::zero(), Float::one())
    }
}

impl Mat4 {
    pub fn from_cols(x_axis: Vec4, y_axis: Vec4, z_axis: Vec4, w_axis: Vec4) -> (m: Self)
        ensures
            m == (Mat4 { x_axis, y_axis, z_axis, w_axis }),
    {
        Self { x_axis, y_axis, z_axis, w_axis }
    }
}

impl Color {
    pub fn new(r: u8, g: u8, b: u8, a: u8) -> (c: Self)
        ensures
            c == (Color { r, g, b, a }),
    {
        Self { r, g, b, a }
    }
}

impl IntoJolt for Vec3 {
    type Jolt = NativeVec3;

    open spec fn into_jolt_spec(self) -> NativeVec3 {
        NativeVec3 { x: self.x, y: self.y, z: self.z, w: self.z }
    }

    fn into_jolt(self) -> (converted: NativeVec3) {
        NativeVec3 { x: self.x, y: self.y, z: self.z, w: self.z }
    }
}

impl FromJolt for Vec3 {
    type Jolt = NativeVec3;

    open spec fn from_jolt_spec(value: NativeVec3) -> Vec3 {
        Vec3 { x: value.x, y: value.y, z: value.z }
    }

    fn from_jolt(value: NativeVec3) -> (converted: Vec3) {
        Vec3::new(value.x, value.y, value.z)
    }
}

impl IntoJolt for Vec4 {
    type Jolt = NativeVec4;

    open spec fn into_jolt_spec(self) -> NativeVec4 {
        NativeVec4 { x: self.x, y: self.y, z: self.z, w: self.w }
    }

    fn into_jolt(self) -> (converted: NativeVec4) {
        NativeVec4 { x: self.x, y: self.y, z: self.z, w: self.w }
    }
}

impl FromJolt for Vec4 {
    type Jolt = NativeVec4;

    open spec fn from_jolt_spec(value: NativeVec4) -> Vec4 {
        Vec4 { x: value.x, y: value.y, z: value.z, w: value.w }
    }

    fn from_jolt(value: NativeVec4) -> (converted: Vec4) {
        Vec4::new(value.x, value.y, value.z, value.w)
    }
}

impl IntoJolt for DVec3 {
    type Jolt = NativeDVec3;

    open spec fn into_jolt_spec(self) -> NativeDVec3 {
        NativeDVec3 { x: self.x, y: self.y, z: self.z, w: self.z }
    }

    fn into_jolt(self) -> (converted: NativeDVec3) {
        NativeDVec3 { x: self.x, y: self.y, z: self.z, w: self.z }
    }
}

impl FromJolt for DVec3 {
    type Jolt = NativeDVec3;

    open spec fn from_jolt_spec(value: NativeDVec3) -> DVec3 {
        DVec3 { x: value.x, y: value.y, z: value.z }
    }

    fn from_jolt(value: NativeDVec3) -> (converted: DVec3) {
        DVec3::new(value.x, value.y, value.z)
    }
}

impl IntoJolt for Quat {
    type Jolt = NativeQuat;

    open spec fn into_jolt_spec(self) -> NativeQuat {
        NativeQuat { x: self.x, y: self.y, z: self.z, w: self.w }
    }

    fn into_jolt(self) -> (converted: NativeQuat) {
        NativeQuat { x: self.x, y: self.y, z: self.z, w: self.w }
    }
}

impl FromJolt for Quat {
    type Jolt = NativeQuat;

    open spec fn from_jolt_spec(value: NativeQuat) -> Quat {
        Quat { x: value.x, y: value.y, z: value.z, w: value.w }
    }

    fn from_jolt(value: NativeQuat) -> (converted: Quat) {
        Quat::new(value.x, value.y, value.z, value.w)
    }
}

impl IntoJolt for Mat4 {
    type Jolt = NativeMat44;

    open spec fn into_jolt_spec(self) -> NativeMat44 {
        NativeMat44 {
            matrix: [
                self.x_axis.into_jolt_spec(),
                self.y_axis.into_jolt_spec(),
                self.z_axis.into_jolt_spec(),
                self.w_axis.into_jolt_spec(),
            ],
        }
    }

    fn into_jolt(self) -> (converted: NativeMat44) {
        NativeMat44 {
            matrix: [
                self.x_axis.into_jolt(),
                self.y_axis.into_jolt(),
                self.z_axis.into_jolt(),
                self.w_axis.into_jolt(),
            ],
        }
    }
}

impl FromJolt for Mat4 {
    type Jolt = NativeMat44;

    open spec fn from_jolt_spec(value: NativeMat44) -> Mat4 {
        Mat4 {
            x_axis: Vec4::from_jolt_spec(value.matrix[0]),
            y_axis: Vec4::from_jolt_spec(value.matrix[1]),
            z_axis: Vec4::from_jolt_spec(value.matrix[2]),
            w_axis: Vec4::from_jolt_spec(value.matrix[3]),
        }
    }

    fn from_jolt(value: NativeMat44) -> (converted: Mat4) {
        Mat4::from_cols(
            Vec4::from_jolt(value.matrix[0]),
            Vec4::from_jolt(value.matrix[1]),
            Vec4::from_jolt(value.matrix[2]),
            Vec4::from_jolt(value.matrix[3]),
        )
    }
}

impl IntoJolt for Color {
    type Jolt = NativeColor;

    open spec fn into_jolt_spec(self) -> NativeColor {
        NativeColor { r: self.r, g: self.g, b: self.b, a: self.a }
    }

    fn into_jolt(self) -> (converted: NativeColor) {
        NativeColor { r: self.r, g: self.g, b: self.b, a: self.a }
    }
}

impl FromJolt for Color {
    type Jolt = NativeColor;

    open spec fn from_jolt_spec(value: NativeColor) -> Color {
        Color { r: value.r, g: value.g, b: value.b, a: value.a }
    }

    fn from_jolt(value: NativeColor) -> (converted: Color) {
        Color { r: value.r, g: value.g, b: value.b, a: value.a }
    }
}

// The same conversions through the standard conversion traits.
impl From<Vec3> for NativeVec3 {
    fn from(value: Vec3) -> (converted: Self) {
        value.into_jolt()
    }
}

impl FromSpecImpl<Vec3> for NativeVec3 {
    open spec fn obeys_from_spec() -> bool {
        true
    }

    open spec fn from_spec(value: Vec3) -> Self {
        value.into_jolt_spec()
    }
}

impl From<NativeVec3> for Vec3 {
    fn from(value: NativeVec3) -> (converted: Self) {
        Vec3::from_jolt(value)
    }
}

impl FromSpecImpl<NativeVec3> for Vec3 {
    open spec fn obeys_from_spec() -> bool {
        true
    }

    open spec fn from_spec(value: NativeVec3) -> Self {
        Vec3::from_jolt_spec(value)
    }
}

impl From<DVec3> for NativeDVec3 {
    fn from(value: DVec3) -> (converted: Self) {
        value.into_jolt()
    }
}

impl FromSpecImpl<DVec3> for NativeDVec3 {
    open spec fn obeys_from_spec() -> bool {
        true
    }

    open spec fn from_spec(value: DVec3) -> Self {
        value.into_jolt_spec()
    }
}

impl From<NativeDVec3> for DVec3 {
    fn from(value: NativeDVec3) -> (converted: Self) {
        DVec3::from_jolt(value)
    }
}

impl FromSpecImpl<NativeDVec3> for DVec3 {
    open spec fn obeys_from_spec() -> bool {
        true
    }

    open spec fn from_spec(value: NativeDVec3) -> Self {
        DVec3::from_jolt_spec(value)
    }
}

impl From<Quat> for NativeQuat {
    fn from(value: Quat) -> (converted: Self) {
        value.into_jolt()
    }
}

impl FromSpecImpl<Quat> for NativeQuat {
    open spec fn obeys_from_spec() -> bool {
        true
    }

    open spec fn from_spec(value: Quat) -> Self {
        value.into_jolt_spec()
    }
}

impl From<NativeQuat> for Quat {
    fn from(value: NativeQuat) -> (converted: Self) {
        Quat::from_jolt(value)
    }
}

impl FromSpecImpl<NativeQuat> for Quat {
    open spec fn obeys_from_spec() -> bool {
        true
    }

    open spec fn from_spec(value: NativeQuat) -> Self {
        Quat::from_jolt_spec(value)
    }
}

impl From<Color> for NativeColor {
    fn from(value: Color) -> (converted: Self) {
        value.into_jolt()
    }
}

impl FromSpecImpl<Color> for NativeColor {
    open spec fn obeys_from_spec() -> bool {
        true
    }

    open spec fn from_spec(value: Color) -> Self {
        value.into_jolt_spec()
    }
}

impl From<NativeColor> for Color {
    fn from(value: NativeColor) -> (converted: Self) {
        Color::from_jolt(value)
    }
}

impl FromSpecImpl<NativeColor> for Color {
    open spec fn obeys_from_spec() -> bool {
        true
    }

    open spec fn from_spec(value: NativeColor) -> Self {
        Color::from_jolt_spec(value)
    }
}

/// The native vector with lanes `x`, `y`, `z` and the padding the engine
/// expects.
pub open spec fn vec3_spec(x: Float, y: Float, z: Float) -> NativeVec3 {
    NativeVec3 { x, y, z, w: z }
}

pub fn vec3(x: Float, y: Float, z: Float) -> (v: NativeVec3)
    ensures
        v == vec3_spec(x, y, z),
{
    NativeVec3 { x, y, z, w: z }
}

/// The native world-space vector with lanes `x`, `y`, `z`.
pub fn rvec3(x: Float, y: Float, z: Float) -> (v: NativeRVec3)
    ensures
        v == vec3_spec(x, y, z),
{
    NativeVec3 { x, y, z, w: z }
}

pub fn vec4(x: Float, y: Float, z: Float, w: Float) -> (v: NativeVec4)
    ensures
        v == (NativeVec4 { x, y, z, w }),
{
    NativeVec4 { x, y, z, w }
}

/// The lane `1.0` at `lane` and `0.0` elsewhere: a column of the identity.
pub open spec fn unit_column(lane: int) -> NativeVec4 {
    let zero = Float { bits: 0 };
    let one = Float { bits: crate::scalar::ONE_BITS };
    NativeVec4 {
        x: if lane == 0 { one } else { zero },
        y: if lane == 1 { one } else { zero },
        z: if lane == 2 { one } else { zero },
        w: if lane == 3 { one } else { zero },
    }
}

/// The transform with the identity's rotation columns and translation `col3`.
pub open spec fn rmat44_translation_spec(col3: NativeRVec3) -> NativeRMat44 {
    NativeRMat44 { col: [unit_column(0), unit_column(1), unit_column(2)], col3 }
}

/// The transform that moves nothing: unit rotation columns and a zero
/// translation.
pub fn rmat44_identity() -> (m: NativeRMat44)
    ensures
        m == rmat44_translation_spec(vec3_spec(Float { bits: 0 }, Float { bits: 0 }, Float { bits: 0 })),
{
    let zero = Float::zero();
    let one = Float::one();
    NativeRMat44 {
        col: [vec4(one, zero, zero, zero), vec4(zero, one, zero, zero), vec4(zero, zero, one, zero)],
        col3: rvec3(zero, zero, zero),
    }
}

/// The transform that only translates by `col3`.
pub fn rmat44_translation(col3: NativeRVec3) -> (m: NativeRMat44)
    ensures
        m == rmat44_translation_spec(col3),
{
    let identity = rmat44_identity();
    NativeRMat44 { col: identity.col, col3 }
}

/// Going to the semantic vector and back keeps the three lanes of any native
/// vector and puts a copy of the third into the padding lane.
pub proof fn lemma_vec3_round_trip_native(v: NativeVec3)
    ensures
        Vec3::from_jolt_spec(v).into_jolt_spec().x == v.x,
        Vec3::from_jolt_spec(v).into_jolt_spec().y == v.y,
        Vec3::from_jolt_spec(v).into_jolt_spec().z == v.z,
        Vec3::from_jolt_spec(v).into_jolt_spec().w == v.z,
        v.w == v.z ==> Vec3::from_jolt_spec(v).into_jolt_spec() == v,
{
}

/// Going to the native layout and back gives every vector back.
pub proof fn lemma_vec3_round_trip(v: Vec3)
    ensures
        Vec3::from_jolt_spec(v.into_jolt_spec()) == v,
        v.into_jolt_spec().w == v.z,
{
}

/// The double precision vector keeps its three lanes both ways, with the
/// padding lane a copy of the third.
pub proof fn lemma_dvec3_round_trip(native: NativeDVec3, v: DVec3)
    ensures
        DVec3::from_jolt_spec(native).into_jolt_spec().x == native.x,
        DVec3::from_jolt_spec(native).into_jolt_spec().y == native.y,
        DVec3::from_jolt_spec(native).into_jolt_spec().z == native.z,
        DVec3::from_jolt_spec(native).into_jolt_spec().w == native.z,
        DVec3::from_jolt_spec(v.into_jolt_spec()) == v,
{
}

/// The layouts without padding convert back and forth without loss.
pub proof fn lemma_unpadded_round_trips(
    v: Vec4,
    native_v: NativeVec4,
    q: Quat,
    native_q: NativeQuat,
    c: Color,
    native_c: NativeColor,
)
    ensures
        Vec4::from_jolt_spec(v.into_jolt_spec()) == v,
        Vec4::from_jolt_spec(native_v).into_jolt_spec() == native_v,
        Quat::from_jolt_spec(q.into_jolt_spec()) == q,
        Quat::from_jolt_spec(native_q).into_jolt_spec() == native_q,
        Color::from_jolt_spec(c.into_jolt_spec()) == c,
        Color::from_jolt_spec(native_c).into_jolt_spec() == native_c,
{
}

/// A matrix converts to its four native columns and back without loss.
pub proof fn lemma_mat4_round_trip(m: Mat4, native: NativeMat44)
    ensures
        Mat4::from_jolt_spec(m.into_jolt_spec()) == m,
        Mat4::from_jolt_spec(native).into_jolt_spec().matrix@ =~= native.matrix@,
{
}

} // verus!
