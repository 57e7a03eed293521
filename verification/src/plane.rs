//! The state that a commit asks of a plane.

use vstd::prelude::*;
use crate::error::Error;
use crate::geometry::Rectangle;
use crate::resources::{crtc_is_selected, crtc_selected, PlaneType};

verus! {

/// What is done to a framebuffer before it is shown: a turn counter-clockwise
/// by a multiple of 90 degrees, after a flip where the name says so.
#[derive(Clone, Copy, Debug, PartialEq, Eq, Structural)]
pub enum Transform {
    Normal,
    _90,
    _180,
    _270,
    Flipped,
    Flipped90,
    Flipped180,
    Flipped270,
}

/// The rotation bit for no turn.
pub const ROTATE_0: u64 = 1;

/// The rotation bit for a turn by 90 degrees.
pub const ROTATE_90: u64 = 2;

/// The rotation bit for a turn by 180 degrees.
pub const ROTATE_180: u64 = 4;

/// The rotation bit for a turn by 270 degrees.
pub const ROTATE_270: u64 = 8;

/// The rotation bit for a reflection along the x axis.
pub const REFLECT_X: u64 = 16;

/// The rotation bit for a reflection along the y axis.
pub const REFLECT_Y: u64 = 32;

/// The alpha value of an opaque plane.
pub const ALPHA_OPAQUE: u16 = 0xffff;

impl Transform {
    /// The value of the rotation property for this transform: one rotation
    /// bit, and the bit of the reflection along the y axis for the flipped
    /// ones.
    pub open spec fn spec_rotation(self) -> u64 {
        match self {
            Transform::Normal => ROTATE_0,
            Transform::_90 => ROTATE_90,
            Transform::_180 => ROTATE_180,
            Transform::_270 => ROTATE_270,
            Transform::Flipped => (REFLECT_Y + ROTATE_0) as u64,
            Transform::Flipped90 => (REFLECT_Y + ROTATE_90) as u64,
            Transform::Flipped180 => (REFLECT_Y + ROTATE_180) as u64,
            Transform::Flipped270 => (REFLECT_Y + ROTATE_270) as u64,
        }
    }

    /// The value of the rotation property for this transform.
    #[verifier::when_used_as_spec(spec_rotation)]
    pub fn rotation(self) -> (bits: u64)
        ensures
            bits == self.spec_rotation(),
    {
        match self {
            Transform::Normal => ROTATE_0,
            Transform::_90 => ROTATE_90,
            Transform::_180 => ROTATE_180,
            Transform::_270 => ROTATE_270,
            Transform::Flipped => REFLECT_Y + ROTATE_0,
            Transform::Flipped90 => REFLECT_Y + ROTATE_90,
            Transform::Flipped180 => REFLECT_Y + ROTATE_180,
            Transform::Flipped270 => REFLECT_Y + ROTATE_270,
        }
    }
}

/// The configuration of a plane that shows a framebuffer.
#[derive(Clone, Copy, Debug, PartialEq, Eq, Structural)]
pub struct PlaneConfig {
    /// The part of the framebuffer that is shown, in 16.16 fixed point.
    pub src: Rectangle,
    /// Where on the CRTC it is shown, in pixels.
    pub dst: Rectangle,
    /// The transform of the framebuffer.
    pub transform: Transform,
    /// The opacity of the plane, from 0 for transparent to `ALPHA_OPAQUE`.
    pub alpha: u16,
    /// The blob of the damage clips of the framebuffer, if there is one.
    pub damage_clips: Option<u64>,
    /// The framebuffer.
    pub fb: u32,
}

/// The state of one plane.
#[derive(Clone, Copy, Debug, PartialEq, Eq, Structural)]
pub struct PlaneState {
    /// The plane.
    pub handle: u32,
    /// Its configuration; nothing to disable the plane.
    pub config: Option<PlaneConfig>,
}

/// The first state of `planes` from index `from` on that speaks of `plane`.
pub open spec fn spec_find_plane_from(planes: Seq<PlaneState>, from: int, plane: u32) -> Option<
    PlaneState,
>
    decreases planes.len() - from,
{
    if from < 0 || from >= planes.len() {
        None
    } else if planes[from].handle == plane {
        Some(planes[from])
    } else {
        spec_find_plane_from(planes, from + 1, plane)
    }
}

/// The first state of `planes` that speaks of `plane`.
pub open spec fn spec_find_plane(planes: Seq<PlaneState>, plane: u32) -> Option<PlaneState> {
    spec_find_plane_from(planes, 0, plane)
}

/// The first state of `planes` that speaks of `plane`.
pub fn find_plane(planes: &Vec<PlaneState>, plane: u32) -> (found: Option<PlaneState>)
    ensures
        found == spec_find_plane(planes@, plane),
{
    let mut i: usize = 0;
    while i < planes.len()
        invariant
            i <= planes@.len(),
            spec_find_plane(planes@, plane) == spec_find_plane_from(planes@, i as int, plane),
        decreases planes@.len() - i,
    {
        if planes[i].handle == plane {
            return Some(planes[i]);
        }
        i = i + 1;
    }
    None
}

/// A plane as the kernel describes it.
#[derive(Clone, Debug, PartialEq, Eq)]
pub struct PlaneDescription {
    /// The identifier of the plane.
    pub handle: u32,
    /// The kind of the plane.
    pub plane_type: PlaneType,
    /// The CRTCs that the plane can serve: bit `n` stands for the `n`-th
    /// CRTC of the device.
    pub possible_crtcs: u32,
    /// The position of the plane in the stack of planes, where known.
    pub zpos: Option<i32>,
    /// The fourcc codes of the plane's plain format list.
    pub formats: Vec<u32>,
    /// The plane's format table, where it has one.
    pub in_formats: Option<Vec<u8>>,
}

/// A plane of a surface.
#[derive(Clone, Copy, Debug, PartialEq, Eq, Structural)]
pub struct PlaneInfo {
    pub handle: u32,
    pub plane_type: PlaneType,
    pub zpos: Option<i32>,
}

/// The planes of a surface.
#[derive(Clone, Debug, PartialEq, Eq)]
pub struct Planes {
    /// The primary plane.
    pub primary: PlaneInfo,
    /// The cursor plane, if there is one.
    pub cursor: Option<PlaneInfo>,
    /// The overlay planes.
    pub overlay: Vec<PlaneInfo>,
}

/// The planes of a surface as a value.
#[verifier::ext_equal]
pub struct PlanesView {
    pub primary: PlaneInfo,
    pub cursor: Option<PlaneInfo>,
    pub overlay: Seq<PlaneInfo>,
}

impl View for Planes {
    type V = PlanesView;

    open spec fn view(&self) -> PlanesView {
        PlanesView { primary: self.primary, cursor: self.cursor, overlay: self.overlay@ }
    }
}

impl PlaneDescription {
    /// What a surface keeps of the description.
    pub open spec fn info(&self) -> PlaneInfo {
        PlaneInfo { handle: self.handle, plane_type: self.plane_type, zpos: self.zpos }
    }

    /// Whether the plane can serve `crtc`.
    pub open spec fn serves(&self, crtcs: Seq<u32>, crtc: u32) -> bool {
        crtc_selected(crtcs, self.possible_crtcs, crtc)
    }
}

/// The last plane of `candidates` that can serve `crtc` and is of the kind
/// `kind`.
pub open spec fn spec_last_plane(
    candidates: Seq<PlaneDescription>,
    crtcs: Seq<u32>,
    crtc: u32,
    kind: PlaneType,
) -> Option<PlaneInfo>
    decreases candidates.len(),
{
    if candidates.len() == 0 {
        None
    } else if candidates.last().serves(crtcs, crtc) && candidates.last().plane_type == kind {
        Some(candidates.last().info())
    } else {
        spec_last_plane(candidates.drop_last(), crtcs, crtc, kind)
    }
}

/// The overlay planes of `candidates` that can serve `crtc`, in their
/// order.
pub open spec fn spec_overlay_planes(candidates: Seq<PlaneDescription>, crtcs: Seq<u32>, crtc: u32) -> Seq<
    PlaneInfo,
>
    decreases candidates.len(),
{
    if candidates.len() == 0 {
        Seq::empty()
    } else if candidates.last().serves(crtcs, crtc) && candidates.last().plane_type
        == PlaneType::Overlay {
        spec_overlay_planes(candidates.drop_last(), crtcs, crtc).push(candidates.last().info())
    } else {
        spec_overlay_planes(candidates.drop_last(), crtcs, crtc)
    }
}

/// The planes of `crtc` among `candidates`: its primary plane and, where
/// `universal` says that the surface uses them, its cursor plane and its
/// overlay planes. Without a primary plane there is no plane at all.
pub open spec fn spec_planes(
    candidates: Seq<PlaneDescription>,
    crtcs: Seq<u32>,
    crtc: u32,
    universal: bool,
) -> Result<PlanesView, Error> {
    match spec_last_plane(candidates, crtcs, crtc, PlaneType::Primary) {
        None => Err(Error::NoPlane),
        Some(primary) => Ok(
            PlanesView {
                primary,
                cursor: if universal {
                    spec_last_plane(candidates, crtcs, crtc, PlaneType::Cursor)
                } else {
                    None
                },
                overlay: if universal {
                    spec_overlay_planes(candidates, crtcs, crtc)
                } else {
                    Seq::empty()
                },
            },
        ),
    }
}

/// Picks the planes of `crtc` among `candidates`.
pub fn enumerate_planes(
    candidates: &Vec<PlaneDescription>,
    crtcs: &Vec<u32>,
    crtc: u32,
    universal: bool,
) -> (res: Result<Planes, Error>)
    ensures
        match spec_planes(candidates@, crtcs@, crtc, universal) {
            Ok(planes) => res is Ok && res->Ok_0@ == planes,
            Err(e) => res is Err && res->Err_0 == e,
        },
{
    let mut primary: Option<PlaneInfo> = None;
    let mut cursor: Option<PlaneInfo> = None;
    let mut overlay: Vec<PlaneInfo> = Vec::new();
    let mut i: usize = 0;
    assert(candidates@.take(0) =~= Seq::<PlaneDescription>::empty());
    while i < candidates.len()
        invariant
            i <= candidates@.len(),
            primary == spec_last_plane(
                candidates@.take(i as int),
                crtcs@,
                crtc,
                PlaneType::Primary,
            ),
            cursor == spec_last_plane(candidates@.take(i as int), crtcs@, crtc, PlaneType::Cursor),
            overlay@ == spec_overlay_planes(candidates@.take(i as int), crtcs@, crtc),
        decreases candidates@.len() - i,
    {
        let candidate = &candidates[i];
        proof {
            let next = candidates@.take(i + 1);
            assert(next.drop_last() =~= candidates@.take(i as int));
            assert(next.last() == candidates@[i as int]);
        }
        if crtc_is_selected(crtcs, candidate.possible_crtcs, crtc) {
            let info = PlaneInfo {
                handle: candidate.handle,
                plane_type: candidate.plane_type,
                zpos: candidate.zpos,
            };
            match candidate.plane_type {
                PlaneType::Primary => {
                    primary = Some(info);
                },
                PlaneType::Cursor => {
                    cursor = Some(info);
                },
                PlaneType::Overlay => {
                    overlay.push(info);
                },
            }
        }
        i = i + 1;
    }
    assert(candidates@.take(i as int) =~= candidates@);
    match primary {
        None => Err(Error::NoPlane),
        Some(primary) => {
            if universal {
                Ok(Planes { primary, cursor, overlay })
            } else {
                Ok(Planes { primary, cursor: None, overlay: Vec::new() })
            }
        },
    }
}

} // verus!
