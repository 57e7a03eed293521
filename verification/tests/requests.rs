use kms_surface::error::Error;
use kms_surface::geometry::Rectangle;
use kms_surface::plane::{PlaneConfig, PlaneState, Transform, ALPHA_OPAQUE};
use kms_surface::properties::{PlaneProperties, Property};
use kms_surface::request::{
    marshal_clear, marshal_plane, push_assign, scaled_alpha, signed, PropertyAssignment,
    PropertyValue, ATOMIC_ALLOW_MODESET, ATOMIC_NONBLOCK, ATOMIC_TEST_ONLY, PAGE_FLIP_EVENT,
};

fn raw(object: u32, property: u32, value: u64) -> PropertyAssignment {
    PropertyAssignment { object, property, value: PropertyValue::Raw(value) }
}

fn full_properties() -> PlaneProperties {
    PlaneProperties {
        plane: 31,
        crtc_id: Some(40),
        fb_id: Some(41),
        src_x: Some(42),
        src_y: Some(43),
        src_w: Some(44),
        src_h: Some(45),
        crtc_x: Some(46),
        crtc_y: Some(47),
        crtc_w: Some(48),
        crtc_h: Some(49),
        in_fence_fd: Some(50),
        fb_damage_clips: Some(51),
        rotation: Some(52),
        alpha: Some(Property { id: 53, min: 0, max: 0xffff }),
        in_formats: Some(54),
    }
}

fn config() -> PlaneConfig {
    PlaneConfig {
        src: Rectangle::new(1 << 16, 2 << 16, 640 << 16, 480 << 16),
        dst: Rectangle::new(-5, 10, 1280, 960),
        transform: Transform::Flipped90,
        alpha: 0x8000,
        damage_clips: Some(900),
        fb: 7,
    }
}

#[test]
fn flags_are_those_of_the_kernel() {
    assert_eq!(PAGE_FLIP_EVENT, drm_ffi::DRM_MODE_PAGE_FLIP_EVENT);
    assert_eq!(ATOMIC_TEST_ONLY, drm_ffi::DRM_MODE_ATOMIC_TEST_ONLY);
    assert_eq!(ATOMIC_NONBLOCK, drm_ffi::DRM_MODE_ATOMIC_NONBLOCK);
    assert_eq!(ATOMIC_ALLOW_MODESET, drm_ffi::DRM_MODE_ATOMIC_ALLOW_MODESET);
    assert_eq!(ATOMIC_TEST_ONLY, drm::control::AtomicCommitFlags::TEST_ONLY.bits());
    assert_eq!(ATOMIC_ALLOW_MODESET, drm::control::AtomicCommitFlags::ALLOW_MODESET.bits());
    assert_eq!(PAGE_FLIP_EVENT, drm::control::AtomicCommitFlags::PAGE_FLIP_EVENT.bits());
}

#[test]
fn signed_values_are_sign_extended() {
    assert_eq!(signed(0), 0);
    assert_eq!(signed(1920), 1920);
    assert_eq!(signed(i32::MAX), 0x7fff_ffff);
    assert_eq!(signed(-1), u64::MAX);
    assert_eq!(signed(-5), 0xffff_ffff_ffff_fffb);
    assert_eq!(signed(i32::MIN), 0xffff_ffff_8000_0000);
    for v in [i32::MIN, -65536, -1, 0, 7, i32::MAX] {
        assert_eq!(signed(v), u64::from(drm::control::property::Value::SignedRange(v as i64)));
    }
}

#[test]
fn alpha_is_scaled_to_the_range() {
    let full = Property { id: 53, min: 0, max: 0xffff };
    assert_eq!(scaled_alpha(0, full), 0);
    assert_eq!(scaled_alpha(0x8000, full), 0x8000);
    assert_eq!(scaled_alpha(ALPHA_OPAQUE, full), 0xffff);
    let byte = Property { id: 53, min: 0, max: 255 };
    assert_eq!(scaled_alpha(0, byte), 0);
    assert_eq!(scaled_alpha(ALPHA_OPAQUE, byte), 255);
    assert_eq!(scaled_alpha(0x8000, byte), 128);
    assert_eq!(scaled_alpha(128, byte), 0);
    assert_eq!(scaled_alpha(129, byte), 1);
    let shifted = Property { id: 53, min: 100, max: 200 };
    assert_eq!(scaled_alpha(0, shifted), 100);
    assert_eq!(scaled_alpha(ALPHA_OPAQUE, shifted), 200);
    assert_eq!(scaled_alpha(0x7fff, shifted), 150);
}

#[test]
fn alpha_on_degenerate_and_huge_ranges() {
    let reversed = Property { id: 53, min: 9, max: 3 };
    assert_eq!(scaled_alpha(ALPHA_OPAQUE, reversed), 9);
    assert_eq!(scaled_alpha(0, reversed), 9);
    let huge = Property { id: 53, min: 0, max: u64::MAX };
    assert_eq!(scaled_alpha(ALPHA_OPAQUE, huge), u64::MAX);
    assert_eq!(scaled_alpha(0, huge), 0);
    assert_eq!(scaled_alpha(1, huge), 281479271743489);
}

#[test]
fn absent_property_is_skipped() {
    let mut out: Vec<PropertyAssignment> = Vec::new();
    push_assign(&mut out, 31, None, PropertyValue::Raw(5));
    assert!(out.is_empty());
    push_assign(&mut out, 31, Some(8), PropertyValue::Raw(5));
    assert_eq!(out, vec![raw(31, 8, 5)]);
}

#[test]
fn configured_plane_is_marshalled_in_order() {
    let mut out: Vec<PropertyAssignment> = Vec::new();
    let state = PlaneState { handle: 31, config: Some(config()) };
    assert_eq!(marshal_plane(&mut out, &state, 42, &full_properties()), Ok(()));
    assert_eq!(
        out,
        vec![
            raw(31, 40, 42),
            raw(31, 41, 7),
            raw(31, 42, 65536),
            raw(31, 43, 131072),
            raw(31, 44, 41943040),
            raw(31, 45, 31457280),
            raw(31, 46, 0xffff_ffff_ffff_fffb),
            raw(31, 47, 10),
            raw(31, 48, 1280),
            raw(31, 49, 960),
            raw(31, 52, 34),
            raw(31, 53, 0x8000),
            raw(31, 51, 900),
        ]
    );
}

#[test]
fn plane_without_damage_gets_no_clips() {
    let mut out: Vec<PropertyAssignment> = Vec::new();
    let mut plain = config();
    plain.damage_clips = None;
    let state = PlaneState { handle: 31, config: Some(plain) };
    assert_eq!(marshal_plane(&mut out, &state, 42, &full_properties()), Ok(()));
    assert_eq!(out.last(), Some(&raw(31, 51, 0)));
}

#[test]
fn disabled_plane_loses_crtc_and_framebuffer() {
    let mut out = vec![raw(1, 2, 3)];
    let state = PlaneState { handle: 31, config: None };
    assert_eq!(marshal_plane(&mut out, &state, 42, &full_properties()), Ok(()));
    assert_eq!(out, vec![raw(1, 2, 3), raw(31, 40, 0), raw(31, 41, 0)]);
    let mut out: Vec<PropertyAssignment> = Vec::new();
    marshal_clear(&mut out, 33, &full_properties());
    assert_eq!(out, vec![raw(33, 40, 0), raw(33, 41, 0)]);
}

#[test]
fn unexposed_properties_are_skipped_silently() {
    let mut props = PlaneProperties::empty(31);
    props.fb_id = Some(41);
    props.crtc_w = Some(48);
    let mut default = config();
    default.transform = Transform::Normal;
    default.alpha = ALPHA_OPAQUE;
    let state = PlaneState { handle: 31, config: Some(default) };
    let mut out: Vec<PropertyAssignment> = Vec::new();
    assert_eq!(marshal_plane(&mut out, &state, 42, &props), Ok(()));
    assert_eq!(out, vec![raw(31, 41, 7), raw(31, 48, 1280)]);
    let mut out: Vec<PropertyAssignment> = Vec::new();
    let disabled = PlaneState { handle: 31, config: None };
    assert_eq!(marshal_plane(&mut out, &disabled, 42, &PlaneProperties::empty(31)), Ok(()));
    assert!(out.is_empty());
}

#[test]
fn transform_without_rotation_property_is_unsupported() {
    let mut props = full_properties();
    props.rotation = None;
    let state = PlaneState { handle: 31, config: Some(config()) };
    let mut out = vec![raw(1, 2, 3)];
    assert_eq!(
        marshal_plane(&mut out, &state, 42, &props),
        Err(Error::UnsupportedPlaneConfiguration(31))
    );
    assert_eq!(out, vec![raw(1, 2, 3)]);
}

#[test]
fn opacity_without_alpha_property_is_unsupported() {
    let mut props = full_properties();
    props.alpha = None;
    let mut translucent = config();
    translucent.transform = Transform::Normal;
    let state = PlaneState { handle: 31, config: Some(translucent) };
    let mut out: Vec<PropertyAssignment> = Vec::new();
    assert_eq!(
        marshal_plane(&mut out, &state, 42, &props),
        Err(Error::UnsupportedPlaneConfiguration(31))
    );
    translucent.alpha = ALPHA_OPAQUE;
    let state = PlaneState { handle: 31, config: Some(translucent) };
    assert_eq!(marshal_plane(&mut out, &state, 42, &props), Ok(()));
    assert_eq!(out.len(), 12);
}
