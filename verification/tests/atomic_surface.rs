use kms_surface::claim::PlaneClaimStorage;
use kms_surface::error::{Error, Operation, EACCES, EBUSY, EINVAL};
use kms_surface::geometry::Rectangle;
use kms_surface::kernel::{KernelCall, KernelReply};
use kms_surface::mode::Mode;
use kms_surface::plane::{PlaneConfig, PlaneState, Transform, ALPHA_OPAQUE};
use kms_surface::properties::{
    ConnectorProperties, CrtcProperties, PlaneProperties, Property, PropertyMapping,
};
use kms_surface::request::{PropertyAssignment, PropertyValue};
use kms_surface::resources::{ConnectorInfo, DriverCapabilities, EncoderInfo, PlaneType};
use kms_surface::session::Event;
use kms_surface::surface::DrmSurface;

const CRTC: u32 = 42;
const PRIMARY: u32 = 31;
const CURSOR: u32 = 33;
const FB: u32 = 7;

fn raw(object: u32, property: u32, value: u64) -> PropertyAssignment {
    PropertyAssignment { object, property, value: PropertyValue::Raw(value) }
}

fn mode_1080p() -> Mode {
    Mode {
        clock: 148500,
        hdisplay: 1920,
        hsync_start: 2008,
        hsync_end: 2052,
        htotal: 2200,
        hskew: 0,
        vdisplay: 1080,
        vsync_start: 1084,
        vsync_end: 1089,
        vtotal: 1125,
        vscan: 0,
        vrefresh: 60,
        flags: 5,
        mode_type: 0x48,
    }
}

fn mode_720p() -> Mode {
    Mode { clock: 74250, hdisplay: 1280, vdisplay: 720, vrefresh: 60, ..Mode::zeroed() }
}

fn connector(handle: u32, modes: Vec<Mode>, current_crtc: Option<u32>) -> ConnectorInfo {
    ConnectorInfo {
        handle,
        modes,
        encoders: vec![EncoderInfo { possible_crtcs: 0b10 }],
        current_crtc,
    }
}

fn plane_properties(plane: u32, base: u32) -> PlaneProperties {
    PlaneProperties {
        plane,
        crtc_id: Some(base),
        fb_id: Some(base + 1),
        src_x: Some(base + 2),
        src_y: Some(base + 3),
        src_w: Some(base + 4),
        src_h: Some(base + 5),
        crtc_x: Some(base + 6),
        crtc_y: Some(base + 7),
        crtc_w: Some(base + 8),
        crtc_h: Some(base + 9),
        in_fence_fd: Some(base + 10),
        fb_damage_clips: Some(base + 11),
        rotation: Some(base + 12),
        alpha: Some(Property { id: base + 13, min: 0, max: 0xffff }),
        in_formats: Some(base + 14),
    }
}

fn mapping() -> PropertyMapping {
    PropertyMapping {
        crtc: CrtcProperties { active: Some(20), mode_id: Some(21) },
        connectors: vec![
            ConnectorProperties { connector: 71, crtc_id: Some(30) },
            ConnectorProperties { connector: 72, crtc_id: Some(35) },
        ],
        planes: vec![plane_properties(PRIMARY, 40), plane_properties(CURSOR, 60)],
    }
}

fn capabilities() -> DriverCapabilities {
    DriverCapabilities { universal_planes: true, atomic: true, addfb2_modifiers: true }
}

fn open(mode: Option<Mode>, infos: &Vec<ConnectorInfo>, claims: &mut PlaneClaimStorage) -> DrmSurface {
    DrmSurface::new(1, CRTC, PRIMARY, vec![41, CRTC], capabilities(), mapping(), mode, infos, claims)
        .unwrap()
}

fn full_surface(fb: u32) -> PlaneState {
    PlaneState {
        handle: PRIMARY,
        config: Some(PlaneConfig {
            src: Rectangle::new(0, 0, 1920 << 16, 1080 << 16),
            dst: Rectangle::new(0, 0, 1920, 1080),
            transform: Transform::Normal,
            alpha: ALPHA_OPAQUE,
            damage_clips: None,
            fb,
        }),
    }
}

fn primary_entries(fb: u32) -> Vec<PropertyAssignment> {
    vec![
        raw(PRIMARY, 40, CRTC as u64),
        raw(PRIMARY, 41, fb as u64),
        raw(PRIMARY, 42, 0),
        raw(PRIMARY, 43, 0),
        raw(PRIMARY, 44, 125829120),
        raw(PRIMARY, 45, 70778880),
        raw(PRIMARY, 46, 0),
        raw(PRIMARY, 47, 0),
        raw(PRIMARY, 48, 1920),
        raw(PRIMARY, 49, 1080),
        raw(PRIMARY, 52, 1),
        raw(PRIMARY, 53, 0xffff),
        raw(PRIMARY, 51, 0),
    ]
}

fn brought_up(claims: &mut PlaneClaimStorage) -> DrmSurface {
    let mut surface = open(None, &Vec::new(), claims);
    let info = connector(71, vec![mode_1080p()], None);
    assert_eq!(surface.use_mode(mode_1080p(), &Vec::new()), Ok(()));
    assert_eq!(surface.add_connector(&info), Ok(()));
    surface
}

#[test]
fn basic_modeset() {
    let mut claims = PlaneClaimStorage::new();
    let mut surface = brought_up(&mut claims);
    assert!(surface.commit_pending());
    let planes = vec![full_surface(FB)];
    let calls = surface.commit_request(&planes, true, PlaneType::Primary).unwrap();
    let mut expected = vec![
        raw(71, 30, CRTC as u64),
        PropertyAssignment { object: CRTC, property: 21, value: PropertyValue::ModeBlob(mode_1080p()) },
        raw(CRTC, 20, 1),
    ];
    expected.extend(primary_entries(FB));
    assert_eq!(calls, vec![KernelCall::Atomic { flags: 0x401, properties: expected }]);
    assert_eq!(surface.commit(&planes, true, PlaneType::Primary, KernelReply::Done), Ok(()));
    assert_eq!(surface.current_mode(), mode_1080p());
    assert_eq!(surface.current_mode().size(), (1920, 1080));
    assert_eq!(surface.current_mode().vrefresh, 60);
    assert_eq!(surface.current_connectors(), vec![71u32]);
    assert!(!surface.commit_pending());
}

#[test]
fn surface_opens_on_what_the_kernel_reports() {
    let mut claims = PlaneClaimStorage::new();
    let infos = vec![
        connector(70, vec![mode_1080p()], Some(41)),
        connector(71, vec![mode_1080p()], Some(CRTC)),
        connector(72, vec![mode_1080p()], None),
    ];
    let surface = open(Some(mode_1080p()), &infos, &mut claims);
    assert_eq!(surface.crtc(), CRTC);
    assert_eq!(surface.plane(), PRIMARY);
    assert_eq!(surface.dev_id(), 1);
    assert!(surface.is_atomic());
    assert!(surface.is_active());
    assert_eq!(surface.current_connectors(), vec![71u32]);
    assert_eq!(surface.pending_connectors(), vec![71u32]);
    assert_eq!(surface.current_mode(), mode_1080p());
    assert_eq!(surface.pending_mode(), mode_1080p());
    assert!(!surface.commit_pending());
    assert_eq!(claims.holder(PRIMARY), Some(CRTC));
}

#[test]
fn surface_without_kernel_mode_has_the_zero_mode() {
    let mut claims = PlaneClaimStorage::new();
    let surface = open(None, &Vec::new(), &mut claims);
    assert_eq!(surface.current_mode(), Mode::zeroed());
    assert_eq!(surface.current_connectors(), Vec::<u32>::new());
}

#[test]
fn surface_needs_the_claim_on_its_primary_plane() {
    let mut claims = PlaneClaimStorage::new();
    let other = claims.claim(PRIMARY, 41);
    assert!(other.is_some());
    let refused = DrmSurface::new(
        1,
        CRTC,
        PRIMARY,
        vec![41, CRTC],
        capabilities(),
        mapping(),
        None,
        &Vec::new(),
        &mut claims,
    );
    assert!(refused.is_none());
    assert_eq!(claims.holder(PRIMARY), Some(41));
}

#[test]
fn destroyed_surface_gives_its_plane_back() {
    let mut claims = PlaneClaimStorage::new();
    let infos = vec![connector(71, vec![mode_1080p()], Some(CRTC))];
    let surface = open(Some(mode_1080p()), &infos, &mut claims);
    let calls = surface.destroy(&mut claims);
    assert_eq!(claims.holder(PRIMARY), None);
    assert_eq!(
        calls,
        vec![KernelCall::Atomic {
            flags: 0x400,
            properties: vec![
                raw(71, 30, 0),
                raw(CRTC, 21, 0),
                raw(CRTC, 20, 0),
                raw(PRIMARY, 40, 0),
                raw(PRIMARY, 41, 0),
            ],
        }]
    );
}

#[test]
fn destroyed_inactive_surface_makes_no_call() {
    let mut claims = PlaneClaimStorage::new();
    let mut surface = open(None, &Vec::new(), &mut claims);
    surface.session_event(Event::PauseSession);
    assert_eq!(surface.destroy(&mut claims), Vec::<KernelCall>::new());
    assert_eq!(claims.holder(PRIMARY), None);
}

#[test]
fn two_surfaces_exclude_each_other_on_a_plane() {
    let mut claims = PlaneClaimStorage::new();
    let a = open(None, &Vec::new(), &mut claims);
    let b = DrmSurface::new(
        1,
        41,
        30,
        vec![41, CRTC],
        capabilities(),
        mapping(),
        None,
        &Vec::new(),
        &mut claims,
    )
    .unwrap();
    let first = a.claim_plane(&mut claims, 5);
    assert!(first.is_some());
    let second = b.claim_plane(&mut claims, 5);
    assert!(second.is_none());
    claims.release(first.unwrap());
    let third = b.claim_plane(&mut claims, 5);
    assert!(third.is_some());
    assert!(a.claim_plane(&mut claims, 30).is_none());
    assert!(b.claim_plane(&mut claims, PRIMARY).is_none());
    assert!(a.claim_plane(&mut claims, PRIMARY).is_some());
}

#[test]
fn atomic_test_without_modeset() {
    let mut claims = PlaneClaimStorage::new();
    let infos = vec![connector(71, vec![mode_1080p(), mode_720p()], Some(CRTC))];
    let mut surface = open(Some(mode_1080p()), &infos, &mut claims);
    assert!(!surface.commit_pending());
    assert_eq!(surface.use_mode(mode_720p(), &infos), Ok(()));
    assert!(surface.commit_pending());
    let planes = vec![full_surface(FB)];
    let calls = surface.test_state_request(&planes, false, PlaneType::Primary).unwrap();
    match &calls[0] {
        KernelCall::Atomic { flags, properties } => {
            assert_eq!(*flags, 0x100);
            assert!(properties.contains(&PropertyAssignment {
                object: CRTC,
                property: 21,
                value: PropertyValue::ModeBlob(mode_720p()),
            }));
        }
        _ => panic!("an atomic surface makes atomic calls"),
    }
    assert_eq!(calls.len(), 1);
    let reply = KernelReply::Failed { step: 0, errno: EINVAL };
    assert_eq!(
        surface.test_state(&planes, false, PlaneType::Primary, reply),
        Err(Error::TestFailed(CRTC))
    );
    assert!(surface.commit_pending());
    assert_eq!(surface.current_mode(), mode_1080p());
    assert_eq!(surface.pending_mode(), mode_720p());
}

#[test]
fn test_flags_follow_allow_modeset() {
    let mut claims = PlaneClaimStorage::new();
    let surface = brought_up(&mut claims);
    let planes = vec![full_surface(FB)];
    for (allow, expected) in [(false, 0x100u32), (true, 0x500)] {
        let calls = surface.test_state_request(&planes, allow, PlaneType::Primary).unwrap();
        match &calls[0] {
            KernelCall::Atomic { flags, .. } => assert_eq!(*flags, expected),
            _ => panic!("an atomic surface makes atomic calls"),
        }
    }
    assert_eq!(surface.test_state(&planes, true, PlaneType::Primary, KernelReply::Done), Ok(()));
    assert!(surface.commit_pending());
}

#[test]
fn commit_and_page_flip_flags() {
    let mut claims = PlaneClaimStorage::new();
    let surface = brought_up(&mut claims);
    let planes = vec![full_surface(FB)];
    let flags_of = |calls: Vec<KernelCall>| match &calls[0] {
        KernelCall::Atomic { flags, .. } => *flags,
        _ => panic!("an atomic surface makes atomic calls"),
    };
    assert_eq!(flags_of(surface.commit_request(&planes, false, PlaneType::Primary).unwrap()), 0x400);
    assert_eq!(flags_of(surface.commit_request(&planes, true, PlaneType::Primary).unwrap()), 0x401);
    assert_eq!(flags_of(surface.page_flip_request(&planes, false, PlaneType::Primary).unwrap()), 0);
    assert_eq!(flags_of(surface.page_flip_request(&planes, true, PlaneType::Primary).unwrap()), 1);
}

#[test]
fn failed_commit_changes_nothing() {
    let mut claims = PlaneClaimStorage::new();
    let mut surface = brought_up(&mut claims);
    let planes = vec![full_surface(FB)];
    let busy = KernelReply::Failed { step: 0, errno: EBUSY };
    let failure = surface.commit(&planes, true, PlaneType::Primary, busy).unwrap_err();
    assert_eq!(failure, Error::Access { operation: Operation::AtomicCommit, errno: EBUSY });
    assert!(failure.is_retry_later());
    assert_eq!(surface.current_mode(), Mode::zeroed());
    assert_eq!(surface.current_connectors(), Vec::<u32>::new());
    assert!(surface.commit_pending());
    let invalid = KernelReply::Failed { step: 0, errno: EINVAL };
    assert_eq!(
        surface.commit(&planes, true, PlaneType::Primary, invalid),
        Err(Error::Access { operation: Operation::AtomicCommit, errno: EINVAL })
    );
    let denied = KernelReply::Failed { step: 0, errno: EACCES };
    assert_eq!(
        surface.commit(&planes, true, PlaneType::Primary, denied),
        Err(Error::DeviceInactive)
    );
    assert_eq!(surface.current_connectors(), Vec::<u32>::new());
    assert_eq!(surface.pending_connectors(), vec![71u32]);
}

#[test]
fn page_flip_settles_the_state_on_success_only() {
    let mut claims = PlaneClaimStorage::new();
    let mut surface = brought_up(&mut claims);
    let planes = vec![full_surface(FB)];
    let invalid = KernelReply::Failed { step: 0, errno: EINVAL };
    assert_eq!(
        surface.page_flip(&planes, true, PlaneType::Primary, invalid),
        Err(Error::Access { operation: Operation::AtomicPageFlip, errno: EINVAL })
    );
    assert!(surface.commit_pending());
    assert_eq!(surface.page_flip(&planes, true, PlaneType::Primary, KernelReply::Done), Ok(()));
    assert!(!surface.commit_pending());
    assert_eq!(surface.current_connectors(), vec![71u32]);
}

#[test]
fn commit_needs_the_primary_plane_with_a_framebuffer() {
    let mut claims = PlaneClaimStorage::new();
    let mut surface = brought_up(&mut claims);
    let none: Vec<PlaneState> = Vec::new();
    assert_eq!(surface.commit_request(&none, true, PlaneType::Primary), Err(Error::NoPlane));
    assert_eq!(
        surface.commit(&none, true, PlaneType::Primary, KernelReply::Done),
        Err(Error::NoPlane)
    );
    let mut cursor_only = full_surface(FB);
    cursor_only.handle = CURSOR;
    assert_eq!(
        surface.commit_request(&vec![cursor_only], true, PlaneType::Cursor),
        Err(Error::NonPrimaryPlane(CURSOR))
    );
    let disabled = vec![PlaneState { handle: PRIMARY, config: None }];
    assert_eq!(
        surface.commit_request(&disabled, true, PlaneType::Primary),
        Err(Error::NoFramebuffer(PRIMARY))
    );
    assert_eq!(
        surface.test_state(&disabled, true, PlaneType::Primary, KernelReply::Done),
        Err(Error::NoFramebuffer(PRIMARY))
    );
    assert_eq!(
        surface.page_flip(&disabled, true, PlaneType::Primary, KernelReply::Done),
        Err(Error::NoFramebuffer(PRIMARY))
    );
    assert!(surface.commit_pending());
    let with_cursor = vec![cursor_only, full_surface(FB)];
    assert!(surface.commit_request(&with_cursor, true, PlaneType::Cursor).is_ok());
}

#[test]
fn disabling_the_pipeline_needs_no_plane() {
    let mut claims = PlaneClaimStorage::new();
    let infos = vec![connector(71, vec![mode_1080p()], Some(CRTC))];
    let mut surface = open(Some(mode_1080p()), &infos, &mut claims);
    assert_eq!(surface.remove_connector(71), Ok(()));
    assert!(surface.commit_pending());
    let none: Vec<PlaneState> = Vec::new();
    let calls = surface.commit_request(&none, false, PlaneType::Primary).unwrap();
    assert_eq!(
        calls,
        vec![KernelCall::Atomic {
            flags: 0x400,
            properties: vec![raw(71, 30, 0), raw(CRTC, 21, 0), raw(CRTC, 20, 0)],
        }]
    );
    assert_eq!(surface.commit(&none, false, PlaneType::Primary, KernelReply::Done), Ok(()));
    assert_eq!(surface.current_connectors(), Vec::<u32>::new());
    assert!(!surface.commit_pending());
}

#[test]
fn removed_connectors_are_detached() {
    let mut claims = PlaneClaimStorage::new();
    let infos = vec![
        connector(72, vec![mode_1080p()], Some(CRTC)),
        connector(71, vec![mode_1080p()], Some(CRTC)),
    ];
    let mut surface = open(Some(mode_1080p()), &infos, &mut claims);
    assert_eq!(surface.remove_connector(72), Ok(()));
    let planes = vec![PlaneState { handle: CURSOR, config: None }, full_surface(FB)];
    let calls = surface.commit_request(&planes, false, PlaneType::Cursor).unwrap();
    let mut expected = vec![
        raw(71, 30, CRTC as u64),
        raw(72, 35, 0),
        PropertyAssignment { object: CRTC, property: 21, value: PropertyValue::ModeBlob(mode_1080p()) },
        raw(CRTC, 20, 1),
        raw(CURSOR, 60, 0),
        raw(CURSOR, 61, 0),
    ];
    expected.extend(primary_entries(FB));
    assert_eq!(calls, vec![KernelCall::Atomic { flags: 0x400, properties: expected }]);
}

#[test]
fn unsupported_plane_configuration_stops_the_request() {
    let mut claims = PlaneClaimStorage::new();
    let mut surface = brought_up(&mut claims);
    let mut unknown = full_surface(9);
    unknown.handle = 99;
    let mut turned = unknown;
    turned.config = turned.config.map(|c| PlaneConfig { transform: Transform::_90, ..c });
    let planes = vec![full_surface(FB), turned];
    assert_eq!(
        surface.commit_request(&planes, true, PlaneType::Primary),
        Err(Error::UnsupportedPlaneConfiguration(99))
    );
    assert_eq!(
        surface.commit(&planes, true, PlaneType::Primary, KernelReply::Done),
        Err(Error::UnsupportedPlaneConfiguration(99))
    );
    assert!(surface.commit_pending());
    let planes = vec![full_surface(FB), unknown];
    let calls = surface.commit_request(&planes, true, PlaneType::Primary).unwrap();
    match &calls[0] {
        KernelCall::Atomic { properties, .. } => assert_eq!(properties.len(), 3 + 13),
        _ => panic!("an atomic surface makes atomic calls"),
    }
}

#[test]
fn inactive_device_makes_no_call() {
    let mut claims = PlaneClaimStorage::new();
    let mut surface = brought_up(&mut claims);
    surface.session_event(Event::PauseSession);
    assert!(!surface.is_active());
    let planes = vec![full_surface(FB)];
    assert_eq!(
        surface.commit_request(&planes, true, PlaneType::Primary),
        Err(Error::DeviceInactive)
    );
    assert_eq!(
        surface.commit(&planes, true, PlaneType::Primary, KernelReply::Done),
        Err(Error::DeviceInactive)
    );
    assert_eq!(
        surface.test_state_request(&Vec::new(), true, PlaneType::Primary),
        Err(Error::DeviceInactive)
    );
    assert_eq!(surface.clear_plane_request(CURSOR), Err(Error::DeviceInactive));
    assert_eq!(surface.clear_plane(CURSOR, KernelReply::Done), Err(Error::DeviceInactive));
    assert!(surface.commit_pending());
    surface.session_event(Event::ActivateSession);
    assert!(surface.is_active());
    assert_eq!(surface.commit(&planes, true, PlaneType::Primary, KernelReply::Done), Ok(()));
}

#[test]
fn clear_plane_touches_one_plane() {
    let mut claims = PlaneClaimStorage::new();
    let surface = brought_up(&mut claims);
    assert_eq!(
        surface.clear_plane_request(CURSOR),
        Ok(vec![KernelCall::Atomic {
            flags: 0,
            properties: vec![raw(CURSOR, 60, 0), raw(CURSOR, 61, 0)],
        }])
    );
    assert_eq!(surface.clear_plane(CURSOR, KernelReply::Done), Ok(()));
    assert_eq!(
        surface.clear_plane(CURSOR, KernelReply::Failed { step: 0, errno: EINVAL }),
        Err(Error::Access { operation: Operation::ClearPlane, errno: EINVAL })
    );
    assert_eq!(
        surface.clear_plane_request(98),
        Ok(vec![KernelCall::Atomic { flags: 0, properties: Vec::new() }])
    );
    assert!(surface.commit_pending());
}

#[test]
fn add_connector_checks_encoder_and_mode() {
    let mut claims = PlaneClaimStorage::new();
    let mut surface = open(Some(mode_1080p()), &Vec::new(), &mut claims);
    let mut wrong_encoder = connector(71, vec![mode_1080p()], None);
    wrong_encoder.encoders = vec![EncoderInfo { possible_crtcs: 0b01 }];
    assert_eq!(surface.add_connector(&wrong_encoder), Err(Error::IncompatibleEncoder(71)));
    let wrong_mode = connector(71, vec![mode_720p()], None);
    assert_eq!(surface.add_connector(&wrong_mode), Err(Error::ModeNotSuitable(mode_1080p())));
    assert_eq!(surface.pending_connectors(), Vec::<u32>::new());
    assert!(!surface.commit_pending());
    assert_eq!(surface.add_connector(&connector(71, vec![mode_1080p()], None)), Ok(()));
    assert_eq!(surface.pending_connectors(), vec![71u32]);
    assert_eq!(surface.current_connectors(), Vec::<u32>::new());
}

#[test]
fn add_then_remove_restores_the_pending_connectors() {
    let mut claims = PlaneClaimStorage::new();
    let infos = vec![connector(71, vec![mode_1080p()], Some(CRTC))];
    let mut surface = open(Some(mode_1080p()), &infos, &mut claims);
    let before = surface.pending_connectors();
    assert_eq!(surface.add_connector(&connector(72, vec![mode_1080p()], None)), Ok(()));
    assert_eq!(surface.pending_connectors(), vec![71u32, 72]);
    assert!(surface.commit_pending());
    assert_eq!(surface.remove_connector(72), Ok(()));
    assert_eq!(surface.pending_connectors(), before);
    assert!(!surface.commit_pending());
    assert_eq!(surface.remove_connector(72), Ok(()));
    assert_eq!(surface.pending_connectors(), before);
}

#[test]
fn set_connectors_twice_is_set_connectors_once() {
    let mut claims = PlaneClaimStorage::new();
    let infos = vec![connector(71, vec![mode_1080p()], Some(CRTC))];
    let mut surface = open(Some(mode_1080p()), &infos, &mut claims);
    let wanted = vec![
        connector(72, vec![mode_1080p()], None),
        connector(71, vec![mode_1080p()], Some(CRTC)),
    ];
    assert_eq!(surface.set_connectors(&wanted), Ok(()));
    let pending = surface.commit_pending();
    let connectors = surface.pending_connectors();
    assert!(pending);
    assert_eq!(connectors, vec![71u32, 72]);
    assert_eq!(surface.set_connectors(&wanted), Ok(()));
    assert_eq!(surface.commit_pending(), pending);
    assert_eq!(surface.pending_connectors(), connectors);
    assert_eq!(surface.set_connectors(&infos), Ok(()));
    assert!(!surface.commit_pending());
    assert_eq!(surface.set_connectors(&infos), Ok(()));
    assert!(!surface.commit_pending());
}

#[test]
fn set_connectors_is_all_or_nothing() {
    let mut claims = PlaneClaimStorage::new();
    let infos = vec![connector(71, vec![mode_1080p()], Some(CRTC))];
    let mut surface = open(Some(mode_1080p()), &infos, &mut claims);
    let wanted = vec![
        connector(72, vec![mode_1080p()], None),
        connector(73, vec![mode_720p()], None),
    ];
    assert_eq!(surface.set_connectors(&wanted), Err(Error::ModeNotSuitable(mode_1080p())));
    assert_eq!(surface.pending_connectors(), vec![71u32]);
    assert!(!surface.commit_pending());
    assert_eq!(surface.set_connectors(&Vec::new()), Ok(()));
    assert_eq!(surface.pending_connectors(), Vec::<u32>::new());
}

#[test]
fn use_mode_needs_every_pending_connector() {
    let mut claims = PlaneClaimStorage::new();
    let infos = vec![
        connector(71, vec![mode_1080p(), mode_720p()], Some(CRTC)),
        connector(72, vec![mode_1080p()], Some(CRTC)),
    ];
    let mut surface = open(Some(mode_1080p()), &infos, &mut claims);
    assert_eq!(surface.use_mode(mode_720p(), &infos), Err(Error::ModeNotSuitable(mode_720p())));
    assert_eq!(surface.pending_mode(), mode_1080p());
    let partial = vec![connector(71, vec![mode_1080p(), mode_720p()], Some(CRTC))];
    assert_eq!(surface.use_mode(mode_720p(), &partial), Err(Error::ModeNotSuitable(mode_720p())));
    assert_eq!(surface.remove_connector(72), Ok(()));
    assert_eq!(surface.use_mode(mode_720p(), &partial), Ok(()));
    assert_eq!(surface.pending_mode(), mode_720p());
    assert_eq!(surface.current_mode(), mode_1080p());
    assert!(surface.commit_pending());
}

#[test]
fn reset_state_is_idempotent() {
    let mut claims = PlaneClaimStorage::new();
    let mut surface = brought_up(&mut claims);
    assert!(surface.commit_pending());
    let kernel = vec![
        connector(72, vec![mode_720p()], Some(CRTC)),
        connector(71, vec![mode_1080p()], Some(41)),
    ];
    assert_eq!(surface.reset_state(Some(mode_720p()), &kernel), Ok(()));
    assert!(!surface.commit_pending());
    assert_eq!(surface.current_connectors(), vec![72u32]);
    assert_eq!(surface.pending_connectors(), vec![72u32]);
    assert_eq!(surface.current_mode(), mode_720p());
    assert_eq!(surface.pending_mode(), mode_720p());
    assert_eq!(surface.reset_state(Some(mode_720p()), &kernel), Ok(()));
    assert!(!surface.commit_pending());
    assert_eq!(surface.current_connectors(), vec![72u32]);
    assert_eq!(surface.pending_connectors(), vec![72u32]);
    assert_eq!(surface.current_mode(), mode_720p());
    assert_eq!(surface.reset_state(None, &Vec::new()), Ok(()));
    assert_eq!(surface.current_mode(), Mode::zeroed());
    assert_eq!(surface.current_connectors(), Vec::<u32>::new());
}
