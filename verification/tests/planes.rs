use kms_surface::error::Error;
use kms_surface::plane::{
    enumerate_planes, find_plane, PlaneConfig, PlaneDescription, PlaneInfo, PlaneState, Planes,
    Transform, REFLECT_Y, ROTATE_0, ROTATE_180, ROTATE_270, ROTATE_90,
};
use kms_surface::geometry::{Point, Rectangle, Size};
use kms_surface::resources::{PlaneType, PLANE_TYPE_CURSOR, PLANE_TYPE_PRIMARY};

fn description(handle: u32, plane_type: PlaneType, possible_crtcs: u32) -> PlaneDescription {
    PlaneDescription {
        handle,
        plane_type,
        possible_crtcs,
        zpos: Some(handle as i32),
        formats: Vec::new(),
        in_formats: None,
    }
}

fn info(handle: u32, plane_type: PlaneType) -> PlaneInfo {
    PlaneInfo { handle, plane_type, zpos: Some(handle as i32) }
}

#[test]
fn planes_are_sorted_by_kind() {
    let crtcs = vec![41u32, 42];
    let candidates = vec![
        description(30, PlaneType::Primary, 0b01),
        description(31, PlaneType::Primary, 0b10),
        description(32, PlaneType::Overlay, 0b11),
        description(33, PlaneType::Cursor, 0b10),
        description(34, PlaneType::Overlay, 0b01),
        description(35, PlaneType::Overlay, 0b10),
    ];
    assert_eq!(
        enumerate_planes(&candidates, &crtcs, 42, true),
        Ok(Planes {
            primary: info(31, PlaneType::Primary),
            cursor: Some(info(33, PlaneType::Cursor)),
            overlay: vec![info(32, PlaneType::Overlay), info(35, PlaneType::Overlay)],
        })
    );
}

#[test]
fn only_the_primary_plane_without_universal_planes() {
    let crtcs = vec![42u32];
    let candidates = vec![
        description(31, PlaneType::Primary, 1),
        description(32, PlaneType::Overlay, 1),
        description(33, PlaneType::Cursor, 1),
    ];
    assert_eq!(
        enumerate_planes(&candidates, &crtcs, 42, false),
        Ok(Planes { primary: info(31, PlaneType::Primary), cursor: None, overlay: Vec::new() })
    );
}

#[test]
fn the_last_primary_plane_wins() {
    let crtcs = vec![42u32];
    let candidates =
        vec![description(31, PlaneType::Primary, 1), description(36, PlaneType::Primary, 1)];
    let planes = enumerate_planes(&candidates, &crtcs, 42, true).unwrap();
    assert_eq!(planes.primary.handle, 36);
}

#[test]
fn no_primary_plane_is_no_plane() {
    let crtcs = vec![41u32, 42];
    let candidates =
        vec![description(30, PlaneType::Primary, 0b01), description(32, PlaneType::Overlay, 0b10)];
    assert_eq!(enumerate_planes(&candidates, &crtcs, 42, true), Err(Error::NoPlane));
    assert_eq!(enumerate_planes(&Vec::new(), &crtcs, 42, true), Err(Error::NoPlane));
}

#[test]
fn rotation_bits_of_transforms() {
    assert_eq!(ROTATE_0, 1);
    assert_eq!(Transform::Normal.rotation(), 1);
    assert_eq!(Transform::_90.rotation(), ROTATE_90);
    assert_eq!(Transform::_180.rotation(), ROTATE_180);
    assert_eq!(Transform::_270.rotation(), ROTATE_270);
    assert_eq!(Transform::Flipped.rotation(), REFLECT_Y | ROTATE_0);
    assert_eq!(Transform::Flipped90.rotation(), 34);
    assert_eq!(Transform::Flipped180.rotation(), 36);
    assert_eq!(Transform::Flipped270.rotation(), 40);
}

#[test]
fn first_state_of_a_plane_is_found() {
    let config = PlaneConfig {
        src: Rectangle::new(0, 0, 65536, 65536),
        dst: Rectangle::new(0, 0, 1, 1),
        transform: Transform::Normal,
        alpha: 0xffff,
        damage_clips: None,
        fb: 7,
    };
    let planes = vec![
        PlaneState { handle: 32, config: None },
        PlaneState { handle: 31, config: Some(config) },
        PlaneState { handle: 31, config: None },
    ];
    assert_eq!(find_plane(&planes, 31), Some(PlaneState { handle: 31, config: Some(config) }));
    assert_eq!(find_plane(&planes, 32), Some(PlaneState { handle: 32, config: None }));
    assert_eq!(find_plane(&planes, 33), None);
}

#[test]
fn fixed_point_rectangle_covers_pixels() {
    let dst = Rectangle::new(10, 20, 1920, 1080);
    assert!(Rectangle::new(0, 0, 1920 << 16, 1080 << 16).fixed_covers(&dst));
    assert!(!Rectangle::new(0, 0, (1920 << 16) + 1, 1080 << 16).fixed_covers(&dst));
    assert!(!Rectangle::new(1, 0, 1920 << 16, 1080 << 16).fixed_covers(&dst));
    assert!(!Rectangle::new(0, 0, 960 << 16, 540 << 16).fixed_covers(&dst));
    assert!(!Rectangle::new(0, 0, 0, 0).fixed_covers(&Rectangle::new(0, 0, 65536, 65536)));
    assert!(Point::new(0, 0).is_origin());
    assert!(!Point::new(0, -1).is_origin());
    assert_eq!(Size::new(3, 4), Size { w: 3, h: 4 });
}

#[test]
fn plane_kind_follows_the_type_property() {
    assert_eq!(PlaneType::from_raw(0), PlaneType::Overlay);
    assert_eq!(PlaneType::from_raw(1), PlaneType::Primary);
    assert_eq!(PlaneType::from_raw(2), PlaneType::Cursor);
    assert_eq!(PlaneType::from_raw(3), PlaneType::Overlay);
    assert_eq!(PlaneType::from_raw(u64::MAX), PlaneType::Overlay);
    assert_eq!(PLANE_TYPE_PRIMARY, u64::from(drm_ffi::DRM_PLANE_TYPE_PRIMARY));
    assert_eq!(PLANE_TYPE_CURSOR, u64::from(drm_ffi::DRM_PLANE_TYPE_CURSOR));
    assert_eq!(0, drm_ffi::DRM_PLANE_TYPE_OVERLAY);
    assert_eq!(drm::control::PlaneType::Primary as u64, PLANE_TYPE_PRIMARY);
    assert_eq!(drm::control::PlaneType::Cursor as u64, PLANE_TYPE_CURSOR);
}
