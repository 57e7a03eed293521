use kms_surface::claim::PlaneClaimStorage;
use kms_surface::error::{Error, Operation, EACCES, EBUSY, EINVAL};
use kms_surface::geometry::Rectangle;
use kms_surface::kernel::{KernelCall, KernelReply};
use kms_surface::mode::Mode;
use kms_surface::plane::{
    PlaneConfig, PlaneDescription, PlaneInfo, PlaneState, Planes, Transform, ALPHA_OPAQUE,
};
use kms_surface::properties::{CrtcProperties, PropertyMapping};
use kms_surface::resources::{ConnectorInfo, DriverCapabilities, EncoderInfo, PlaneType};
use kms_surface::session::Event;
use kms_surface::surface::{ensure_legacy_planes, DrmSurface};

const CRTC: u32 = 42;
const PRIMARY: u32 = 31;
const FB: u32 = 7;

fn mode_1080p() -> Mode {
    Mode { clock: 148500, hdisplay: 1920, vdisplay: 1080, vrefresh: 60, ..Mode::zeroed() }
}

fn connector(handle: u32, current_crtc: Option<u32>) -> ConnectorInfo {
    ConnectorInfo {
        handle,
        modes: vec![mode_1080p()],
        encoders: vec![EncoderInfo { possible_crtcs: 1 }],
        current_crtc,
    }
}

fn no_mapping() -> PropertyMapping {
    PropertyMapping {
        crtc: CrtcProperties { active: None, mode_id: None },
        connectors: Vec::new(),
        planes: Vec::new(),
    }
}

fn open(universal_planes: bool, atomic: bool, claims: &mut PlaneClaimStorage) -> DrmSurface {
    let capabilities = DriverCapabilities { universal_planes, atomic, addfb2_modifiers: false };
    let infos = vec![connector(71, Some(CRTC))];
    DrmSurface::new(
        1,
        CRTC,
        PRIMARY,
        vec![CRTC],
        capabilities,
        no_mapping(),
        Some(mode_1080p()),
        &infos,
        claims,
    )
    .unwrap()
}

fn state(src: Rectangle, dst: Rectangle, transform: Transform) -> PlaneState {
    PlaneState {
        handle: PRIMARY,
        config: Some(PlaneConfig {
            src,
            dst,
            transform,
            alpha: ALPHA_OPAQUE,
            damage_clips: None,
            fb: FB,
        }),
    }
}

fn full_surface() -> PlaneState {
    state(
        Rectangle::new(0, 0, 1920 << 16, 1080 << 16),
        Rectangle::new(0, 0, 1920, 1080),
        Transform::Normal,
    )
}

fn set_crtc(connectors: Vec<u32>) -> KernelCall {
    KernelCall::SetCrtc {
        crtc: CRTC,
        framebuffer: Some(FB),
        connectors,
        mode: Some(mode_1080p()),
    }
}

#[test]
fn legacy_rejects_scale() {
    let mut claims = PlaneClaimStorage::new();
    let mut surface = open(false, false, &mut claims);
    assert!(!surface.is_atomic());
    assert_eq!(surface.add_connector(&connector(72, None)), Ok(()));
    let scaled = vec![state(
        Rectangle::new(0, 0, 1920 << 16, 1080 << 16),
        Rectangle::new(0, 0, 960, 540),
        Transform::Normal,
    )];
    assert_eq!(
        surface.commit_request(&scaled, true, PlaneType::Primary),
        Err(Error::UnsupportedPlaneConfiguration(PRIMARY))
    );
    assert_eq!(
        surface.commit(&scaled, true, PlaneType::Primary, KernelReply::Done),
        Err(Error::UnsupportedPlaneConfiguration(PRIMARY))
    );
    assert_eq!(surface.current_connectors(), vec![71u32]);
    assert_eq!(surface.pending_connectors(), vec![71u32, 72]);
    assert_eq!(surface.current_mode(), mode_1080p());
    assert!(surface.commit_pending());
}

#[test]
fn legacy_accepts_exactly_the_full_framebuffer_on_the_primary_plane() {
    assert_eq!(ensure_legacy_planes(&vec![full_surface()], PlaneType::Primary), Ok(FB));
}

#[test]
fn legacy_rejections_in_their_order() {
    let none: Vec<PlaneState> = Vec::new();
    assert_eq!(ensure_legacy_planes(&none, PlaneType::Primary), Err(Error::NoPlane));
    assert_eq!(
        ensure_legacy_planes(&vec![full_surface()], PlaneType::Overlay),
        Err(Error::NonPrimaryPlane(PRIMARY))
    );
    assert_eq!(
        ensure_legacy_planes(&vec![full_surface()], PlaneType::Cursor),
        Err(Error::NonPrimaryPlane(PRIMARY))
    );
    let second = PlaneState { handle: 33, config: None };
    assert_eq!(
        ensure_legacy_planes(&vec![full_surface(), second], PlaneType::Primary),
        Err(Error::UnsupportedPlaneConfiguration(33))
    );
    assert_eq!(
        ensure_legacy_planes(&vec![PlaneState { handle: PRIMARY, config: None }], PlaneType::Primary),
        Err(Error::NoFramebuffer(PRIMARY))
    );
    let full = Rectangle::new(0, 0, 1920 << 16, 1080 << 16);
    let moved = state(full, Rectangle::new(1, 0, 1920, 1080), Transform::Normal);
    assert_eq!(
        ensure_legacy_planes(&vec![moved], PlaneType::Primary),
        Err(Error::UnsupportedPlaneConfiguration(PRIMARY))
    );
    let cropped = state(
        Rectangle::new(1 << 16, 0, 1919 << 16, 1080 << 16),
        Rectangle::new(0, 0, 1919, 1080),
        Transform::Normal,
    );
    assert_eq!(
        ensure_legacy_planes(&vec![cropped], PlaneType::Primary),
        Err(Error::UnsupportedPlaneConfiguration(PRIMARY))
    );
    let fraction = state(
        Rectangle::new(0, 0, (1920 << 16) + 1, 1080 << 16),
        Rectangle::new(0, 0, 1920, 1080),
        Transform::Normal,
    );
    assert_eq!(
        ensure_legacy_planes(&vec![fraction], PlaneType::Primary),
        Err(Error::UnsupportedPlaneConfiguration(PRIMARY))
    );
    let turned = state(full, Rectangle::new(0, 0, 1920, 1080), Transform::_180);
    assert_eq!(
        ensure_legacy_planes(&vec![turned], PlaneType::Primary),
        Err(Error::UnsupportedPlaneConfiguration(PRIMARY))
    );
}

#[test]
fn legacy_commit_is_a_modeset() {
    let mut claims = PlaneClaimStorage::new();
    let mut surface = open(false, false, &mut claims);
    assert_eq!(surface.add_connector(&connector(70, None)), Ok(()));
    let planes = vec![full_surface()];
    assert_eq!(
        surface.commit_request(&planes, false, PlaneType::Primary),
        Ok(vec![set_crtc(vec![70, 71])])
    );
    assert_eq!(surface.commit(&planes, false, PlaneType::Primary, KernelReply::Done), Ok(()));
    assert_eq!(surface.current_connectors(), vec![70u32, 71]);
    assert!(!surface.commit_pending());
}

#[test]
fn legacy_commit_with_event_asks_for_the_vblank() {
    let mut claims = PlaneClaimStorage::new();
    let surface = open(false, false, &mut claims);
    let planes = vec![full_surface()];
    assert_eq!(
        surface.commit_request(&planes, true, PlaneType::Primary),
        Ok(vec![set_crtc(vec![71]), KernelCall::PageFlip { crtc: CRTC, target: FB, event: true }])
    );
}

#[test]
fn legacy_commit_that_fails_in_the_modeset_changes_nothing() {
    let mut claims = PlaneClaimStorage::new();
    let mut surface = open(false, false, &mut claims);
    assert_eq!(surface.remove_connector(71), Ok(()));
    let planes = vec![full_surface()];
    for event in [false, true] {
        let reply = KernelReply::Failed { step: 0, errno: EINVAL };
        assert_eq!(
            surface.commit(&planes, event, PlaneType::Primary, reply),
            Err(Error::Access { operation: Operation::SetCrtc, errno: EINVAL })
        );
        assert_eq!(surface.current_connectors(), vec![71u32]);
        assert!(surface.commit_pending());
    }
    let busy = KernelReply::Failed { step: 0, errno: EBUSY };
    let failure = surface.commit(&planes, true, PlaneType::Primary, busy).unwrap_err();
    assert!(failure.is_retry_later());
    let denied = KernelReply::Failed { step: 0, errno: EACCES };
    assert_eq!(
        surface.commit(&planes, true, PlaneType::Primary, denied),
        Err(Error::DeviceInactive)
    );
    assert_eq!(surface.current_connectors(), vec![71u32]);
}

#[test]
fn legacy_commit_that_fails_after_the_modeset_has_changed_the_state() {
    let mut claims = PlaneClaimStorage::new();
    let mut surface = open(false, false, &mut claims);
    assert_eq!(surface.remove_connector(71), Ok(()));
    let planes = vec![full_surface()];
    let reply = KernelReply::Failed { step: 1, errno: EINVAL };
    assert_eq!(
        surface.commit(&planes, true, PlaneType::Primary, reply),
        Err(Error::Access { operation: Operation::VblankRequest, errno: EINVAL })
    );
    assert_eq!(surface.current_connectors(), Vec::<u32>::new());
    assert!(!surface.commit_pending());
}

#[test]
fn legacy_test_without_modeset_makes_no_call() {
    let mut claims = PlaneClaimStorage::new();
    let mut surface = open(false, false, &mut claims);
    let planes = vec![full_surface()];
    assert_eq!(surface.test_state_request(&planes, false, PlaneType::Primary), Ok(Vec::new()));
    assert_eq!(surface.test_state(&planes, false, PlaneType::Primary, KernelReply::Done), Ok(()));
    surface.session_event(Event::PauseSession);
    assert_eq!(surface.test_state_request(&planes, false, PlaneType::Primary), Ok(Vec::new()));
    assert_eq!(surface.test_state(&planes, false, PlaneType::Primary, KernelReply::Done), Ok(()));
    let none: Vec<PlaneState> = Vec::new();
    assert_eq!(
        surface.test_state(&none, false, PlaneType::Primary, KernelReply::Done),
        Err(Error::NoPlane)
    );
}

#[test]
fn legacy_test_with_modeset_is_a_modeset() {
    let mut claims = PlaneClaimStorage::new();
    let mut surface = open(false, false, &mut claims);
    assert_eq!(surface.add_connector(&connector(72, None)), Ok(()));
    let planes = vec![full_surface()];
    assert_eq!(
        surface.test_state_request(&planes, true, PlaneType::Primary),
        Ok(vec![set_crtc(vec![71, 72])])
    );
    assert_eq!(surface.test_state(&planes, true, PlaneType::Primary, KernelReply::Done), Ok(()));
    assert!(surface.commit_pending());
    assert_eq!(surface.current_connectors(), vec![71u32]);
    let reply = KernelReply::Failed { step: 0, errno: EINVAL };
    assert_eq!(
        surface.test_state(&planes, true, PlaneType::Primary, reply),
        Err(Error::Access { operation: Operation::TestBuffer, errno: EINVAL })
    );
}

#[test]
fn legacy_page_flip_is_one_call_and_keeps_the_state() {
    let mut claims = PlaneClaimStorage::new();
    let mut surface = open(false, false, &mut claims);
    assert_eq!(surface.add_connector(&connector(72, None)), Ok(()));
    let planes = vec![full_surface()];
    for event in [false, true] {
        assert_eq!(
            surface.page_flip_request(&planes, event, PlaneType::Primary),
            Ok(vec![KernelCall::PageFlip { crtc: CRTC, target: FB, event }])
        );
    }
    assert_eq!(surface.page_flip(&planes, true, PlaneType::Primary, KernelReply::Done), Ok(()));
    assert!(surface.commit_pending());
    assert_eq!(surface.current_connectors(), vec![71u32]);
    let busy = KernelReply::Failed { step: 0, errno: EBUSY };
    assert_eq!(
        surface.page_flip(&planes, true, PlaneType::Primary, busy),
        Err(Error::Access { operation: Operation::PageFlip, errno: EBUSY })
    );
}

#[test]
fn legacy_inactive_device_makes_no_call() {
    let mut claims = PlaneClaimStorage::new();
    let mut surface = open(false, false, &mut claims);
    surface.session_event(Event::PauseSession);
    let planes = vec![full_surface()];
    assert_eq!(
        surface.commit_request(&planes, true, PlaneType::Primary),
        Err(Error::DeviceInactive)
    );
    assert_eq!(
        surface.commit(&planes, true, PlaneType::Primary, KernelReply::Done),
        Err(Error::DeviceInactive)
    );
    assert_eq!(
        surface.page_flip_request(&planes, true, PlaneType::Primary),
        Err(Error::DeviceInactive)
    );
    assert_eq!(
        surface.test_state_request(&planes, true, PlaneType::Primary),
        Err(Error::DeviceInactive)
    );
    let none: Vec<PlaneState> = Vec::new();
    assert_eq!(surface.commit_request(&none, true, PlaneType::Primary), Err(Error::NoPlane));
}

#[test]
fn legacy_cannot_clear_a_plane() {
    let mut claims = PlaneClaimStorage::new();
    let surface = open(true, false, &mut claims);
    assert_eq!(surface.clear_plane_request(33), Err(Error::NonPrimaryPlane(33)));
    assert_eq!(surface.clear_plane(33, KernelReply::Done), Err(Error::NonPrimaryPlane(33)));
    assert_eq!(surface.clear_plane_request(PRIMARY), Err(Error::NonPrimaryPlane(PRIMARY)));
}

#[test]
fn legacy_reports_only_the_primary_plane() {
    let mut claims = PlaneClaimStorage::new();
    let candidates = vec![
        PlaneDescription {
            handle: PRIMARY,
            plane_type: PlaneType::Primary,
            possible_crtcs: 1,
            zpos: None,
            formats: Vec::new(),
            in_formats: None,
        },
        PlaneDescription {
            handle: 33,
            plane_type: PlaneType::Cursor,
            possible_crtcs: 1,
            zpos: Some(2),
            formats: Vec::new(),
            in_formats: None,
        },
        PlaneDescription {
            handle: 34,
            plane_type: PlaneType::Overlay,
            possible_crtcs: 1,
            zpos: Some(1),
            formats: Vec::new(),
            in_formats: None,
        },
    ];
    let primary = PlaneInfo { handle: PRIMARY, plane_type: PlaneType::Primary, zpos: None };
    let legacy = open(true, false, &mut claims);
    assert_eq!(
        legacy.planes(&candidates),
        Ok(Planes { primary, cursor: None, overlay: Vec::new() })
    );
    let _ = legacy.destroy(&mut claims);
    let atomic = open(true, true, &mut claims);
    assert_eq!(
        atomic.planes(&candidates),
        Ok(Planes {
            primary,
            cursor: Some(PlaneInfo { handle: 33, plane_type: PlaneType::Cursor, zpos: Some(2) }),
            overlay: vec![PlaneInfo { handle: 34, plane_type: PlaneType::Overlay, zpos: Some(1) }],
        })
    );
    let _ = atomic.destroy(&mut claims);
    let plain = open(false, true, &mut claims);
    assert_eq!(plain.planes(&candidates), Ok(Planes { primary, cursor: None, overlay: Vec::new() }));
}

#[test]
fn legacy_destroy_switches_the_crtc_off() {
    let mut claims = PlaneClaimStorage::new();
    let surface = open(false, false, &mut claims);
    assert_eq!(
        surface.destroy(&mut claims),
        vec![KernelCall::SetCrtc { crtc: CRTC, framebuffer: None, connectors: Vec::new(), mode: None }]
    );
    assert_eq!(claims.holder(PRIMARY), None);
}

#[test]
fn surface_formats_of_a_cursor_plane() {
    let mut claims = PlaneClaimStorage::new();
    let surface = open(true, false, &mut claims);
    let cursor = PlaneDescription {
        handle: 33,
        plane_type: PlaneType::Cursor,
        possible_crtcs: 1,
        zpos: None,
        formats: vec![875713089],
        in_formats: None,
    };
    let formats = surface.supported_formats(&cursor, kms_surface::blob::ByteOrder::Little).unwrap();
    assert_eq!(formats.len(), 2);
    assert!(formats.iter().any(|f| f.code == 875713089 && f.modifier == 0x00ff_ffff_ffff_ffff));
    assert!(formats.iter().any(|f| f.code == 875713089 && f.modifier == 0));
}
