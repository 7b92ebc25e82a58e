use rolt::scalar::ONE_BITS;
use rolt::{
    rmat44_identity, rmat44_translation, rvec3, vec3, vec4, Color, DVec3, Double, Float, FromJolt,
    IntoJolt, IntoRolt, Mat4, NativeColor, NativeDVec3, NativeMat44, NativeQuat, NativeVec3,
    NativeVec4, Quat, RVec3, Vec3, Vec4,
};

fn float(x: f32) -> Float {
    Float::from_bits(x.to_bits())
}

fn double(x: f64) -> Double {
    Double::from_bits(x.to_bits())
}

#[test]
fn a_vector_goes_native_with_the_third_lane_as_padding() {
    let v = Vec3::new(float(1.5), float(-2.0), float(3.25));
    let native = v.into_jolt();
    assert_eq!(
        native,
        NativeVec3 { x: float(1.5), y: float(-2.0), z: float(3.25), w: float(3.25) }
    );
    assert_eq!(Vec3::from_jolt(native), v);
}

#[test]
fn a_native_vector_comes_back_with_its_padding_rewritten() {
    // whatever stood in the padding lane, the round trip puts z there
    let native = NativeVec3 { x: float(1.0), y: float(2.0), z: float(0.0), w: float(77.0) };
    let semantic = Vec3::from_jolt(native);
    assert_eq!(semantic, Vec3 { x: float(1.0), y: float(2.0), z: float(0.0) });
    let back = semantic.into_jolt();
    assert_eq!(back.x, native.x);
    assert_eq!(back.y, native.y);
    assert_eq!(back.z, native.z);
    assert_eq!(back.w, native.z);
    assert_ne!(back, native);
}

#[test]
fn the_round_trip_is_exact_to_the_bit() {
    // a NaN payload and a negative zero are numbers like any other here
    let v = Vec3::new(Float::from_bits(0x7FC0_1234), float(-0.0), Float::from_bits(1));
    let back = Vec3::from_jolt(v.into_jolt());
    assert_eq!(back.x.to_bits(), 0x7FC0_1234);
    assert_eq!(back.y.to_bits(), 0x8000_0000);
    assert_eq!(back.z.to_bits(), 1);
    assert_eq!(v.into_jolt().w.to_bits(), 1);
}

#[test]
fn a_double_vector_goes_native_with_the_third_lane_as_padding() {
    let v = DVec3::new(double(1.0), double(2.0), double(-3.0));
    let native = v.into_jolt();
    assert_eq!(
        native,
        NativeDVec3 { x: double(1.0), y: double(2.0), z: double(-3.0), w: double(-3.0) }
    );
    assert_eq!(DVec3::from_jolt(native), v);
    let odd = NativeDVec3 { x: double(1.0), y: double(2.0), z: double(3.0), w: double(4.0) };
    assert_eq!(DVec3::from_jolt(odd).into_jolt().w, double(3.0));
}

#[test]
fn four_lanes_and_quaternions_convert_lane_by_lane() {
    let v = Vec4::new(float(1.0), float(2.0), float(3.0), float(4.0));
    assert_eq!(
        v.into_jolt(),
        NativeVec4 { x: float(1.0), y: float(2.0), z: float(3.0), w: float(4.0) }
    );
    assert_eq!(Vec4::from_jolt(v.into_jolt()), v);

    let q = Quat::new(float(0.1), float(0.2), float(0.3), float(0.4));
    assert_eq!(
        q.into_jolt(),
        NativeQuat { x: float(0.1), y: float(0.2), z: float(0.3), w: float(0.4) }
    );
    assert_eq!(Quat::from_jolt(q.into_jolt()), q);
}

#[test]
fn the_identity_quaternion_is_not_the_zero_quaternion() {
    let identity = Quat::identity();
    assert_eq!(identity, Quat::new(float(0.0), float(0.0), float(0.0), float(1.0)));
    assert_eq!(identity.w.to_bits(), ONE_BITS);
}

#[test]
fn a_matrix_converts_column_by_column() {
    let m = Mat4::from_cols(
        Vec4::new(float(1.0), float(2.0), float(3.0), float(4.0)),
        Vec4::new(float(5.0), float(6.0), float(7.0), float(8.0)),
        Vec4::new(float(9.0), float(10.0), float(11.0), float(12.0)),
        Vec4::new(float(13.0), float(14.0), float(15.0), float(16.0)),
    );
    let native: NativeMat44 = m.into_jolt();
    assert_eq!(native.matrix[0], vec4(float(1.0), float(2.0), float(3.0), float(4.0)));
    assert_eq!(native.matrix[1], vec4(float(5.0), float(6.0), float(7.0), float(8.0)));
    assert_eq!(native.matrix[2], vec4(float(9.0), float(10.0), float(11.0), float(12.0)));
    assert_eq!(native.matrix[3], vec4(float(13.0), float(14.0), float(15.0), float(16.0)));
    assert_eq!(Mat4::from_jolt(native), m);
}

#[test]
fn a_color_converts_channel_by_channel() {
    let c = Color::new(1, 2, 3, 255);
    assert_eq!(c.into_jolt(), NativeColor { r: 1, g: 2, b: 3, a: 255 });
    assert_eq!(Color::from_jolt(NativeColor { r: 9, g: 8, b: 7, a: 0 }), Color::new(9, 8, 7, 0));
    assert_eq!(Color::from_jolt(c.into_jolt()), c);
}

#[test]
fn into_rolt_is_from_jolt_called_on_the_native_value() {
    let native = NativeVec3 { x: float(1.0), y: float(2.0), z: float(3.0), w: float(3.0) };
    let v: Vec3 = native.into_rolt();
    assert_eq!(v, Vec3::from_jolt(native));
    let world: RVec3 = native.into_rolt();
    assert_eq!(world, v);
    let q: Quat = NativeQuat { x: float(0.0), y: float(0.0), z: float(0.0), w: float(1.0) }.into_rolt();
    assert_eq!(q, Quat::identity());
    let c: Color = NativeColor { r: 1, g: 2, b: 3, a: 4 }.into_rolt();
    assert_eq!(c, Color::new(1, 2, 3, 4));
}

#[test]
fn the_standard_conversions_are_the_same_conversions() {
    let v = Vec3::new(float(1.0), float(2.0), float(3.0));
    let native: NativeVec3 = v.into();
    assert_eq!(native, v.into_jolt());
    assert_eq!(Vec3::from(native), v);

    let d = DVec3::new(double(1.0), double(2.0), double(3.0));
    let native: NativeDVec3 = d.into();
    assert_eq!(native, d.into_jolt());
    assert_eq!(DVec3::from(native), d);

    let q = Quat::identity();
    let native: NativeQuat = q.into();
    assert_eq!(native, q.into_jolt());
    assert_eq!(Quat::from(native), q);

    let c = Color::new(10, 20, 30, 40);
    let native: NativeColor = c.into();
    assert_eq!(native, c.into_jolt());
    assert_eq!(Color::from(native), c);
}

#[test]
fn the_helpers_build_native_vectors() {
    assert_eq!(
        vec3(float(100.0), float(1.0), float(100.0)),
        NativeVec3 { x: float(100.0), y: float(1.0), z: float(100.0), w: float(100.0) }
    );
    assert_eq!(
        rvec3(float(0.0), float(2.0), float(-1.0)),
        NativeVec3 { x: float(0.0), y: float(2.0), z: float(-1.0), w: float(-1.0) }
    );
    assert_eq!(
        vec4(float(1.0), float(0.0), float(0.0), float(0.0)),
        NativeVec4 { x: float(1.0), y: float(0.0), z: float(0.0), w: float(0.0) }
    );
}

#[test]
fn the_identity_transform_has_unit_columns_and_no_translation() {
    let identity = rmat44_identity();
    assert_eq!(identity.col[0], vec4(float(1.0), float(0.0), float(0.0), float(0.0)));
    assert_eq!(identity.col[1], vec4(float(0.0), float(1.0), float(0.0), float(0.0)));
    assert_eq!(identity.col[2], vec4(float(0.0), float(0.0), float(1.0), float(0.0)));
    assert_eq!(identity.col3, rvec3(float(0.0), float(0.0), float(0.0)));
}

#[test]
fn a_translation_is_the_identity_with_another_last_column() {
    let by = rvec3(float(-5.0), float(2.0), float(0.0));
    let translation = rmat44_translation(by);
    assert_eq!(translation.col, rmat44_identity().col);
    assert_eq!(translation.col3, by);
    assert_eq!(rmat44_translation(rmat44_identity().col3), rmat44_identity());
}
