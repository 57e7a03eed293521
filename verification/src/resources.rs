//! What the kernel reports about the objects of a device, as plain values.

use vstd::prelude::*;
use crate::error::Error;
use crate::mode::{modes_contain, Mode};

verus! {

/// The capabilities of a driver, probed when the device is opened.
#[derive(Clone, Copy, Debug, PartialEq, Eq, Structural)]
pub struct DriverCapabilities {
    /// The driver exposes overlay and cursor planes.
    pub universal_planes: bool,
    /// The driver takes atomic commits.
    pub atomic: bool,
    /// The driver takes framebuffers with layout modifiers.
    pub addfb2_modifiers: bool,
}

/// The kind of a plane.
#[derive(Clone, Copy, Debug, PartialEq, Eq, Structural)]
pub enum PlaneType {
    /// A layer above the primary plane.
    Overlay,
    /// The plane that carries the main framebuffer of a CRTC.
    Primary,
    /// The plane of the pointer image.
    Cursor,
}

/// The value of the `type` property of a primary plane.
pub const PLANE_TYPE_PRIMARY: u64 = 1;

/// The value of the `type` property of a cursor plane.
pub const PLANE_TYPE_CURSOR: u64 = 2;

impl PlaneType {
    /// The kind of a plane whose `type` property has the value `value`. A
    /// value that names neither a primary nor a cursor plane stands for an
    /// overlay plane.
    pub open spec fn spec_from_raw(value: u64) -> PlaneType {
        if value == PLANE_TYPE_PRIMARY {
            PlaneType::Primary
        } else if value == PLANE_TYPE_CURSOR {
            PlaneType::Cursor
        } else {
            PlaneType::Overlay
        }
    }

    /// The kind of a plane whose `type` property has the value `value`.
    #[verifier::when_used_as_spec(spec_from_raw)]
    pub fn from_raw(value: u64) -> (kind: PlaneType)
        ensures
            kind == Self::spec_from_raw(value),
    {
        if value == PLANE_TYPE_PRIMARY {
            PlaneType::Primary
        } else if value == PLANE_TYPE_CURSOR {
            PlaneType::Cursor
        } else {
            PlaneType::Overlay
        }
    }
}

/// An encoder of a connector.
#[derive(Clone, Copy, Debug, PartialEq, Eq, Structural)]
pub struct EncoderInfo {
    /// The CRTCs that the encoder can be driven by: bit `n` stands for the
    /// `n`-th CRTC of the device.
    pub possible_crtcs: u32,
}

/// A connector as the kernel describes it.
#[derive(Clone, Debug, PartialEq, Eq)]
pub struct ConnectorInfo {
    /// The identifier of the connector.
    pub handle: u32,
    /// The modes that the connector advertises.
    pub modes: Vec<Mode>,
    /// The encoders that the connector can use.
    pub encoders: Vec<EncoderInfo>,
    /// The CRTC that the connector is attached to at present, if any.
    pub current_crtc: Option<u32>,
}

/// Whether bit `n` of `mask` is set.
pub open spec fn bit_selected(mask: u32, n: u32) -> bool {
    mask & (1u32 << n) != 0
}

/// Whether `mask` selects `crtc` among the CRTCs `crtcs` of a device, which
/// are listed in the kernel's order.
pub open spec fn crtc_selected(crtcs: Seq<u32>, mask: u32, crtc: u32) -> bool {
    exists|n: int|
        0 <= n < crtcs.len() && n < 32 && bit_selected(mask, n as u32) && #[trigger] crtcs[n]
            == crtc
}

/// Whether `mask` selects `crtc` among the CRTCs `crtcs` of a device.
pub fn crtc_is_selected(crtcs: &Vec<u32>, mask: u32, crtc: u32) -> (b: bool)
    ensures
        b == crtc_selected(crtcs@, mask, crtc),
{
    let mut n: usize = 0;
    while n < crtcs.len() && n < 32
        invariant
            n <= crtcs@.len(),
            n <= 32,
            forall|k: int|
                0 <= k < n ==> !(bit_selected(mask, k as u32) && #[trigger] crtcs@[k] == crtc),
        decreases crtcs@.len() - n,
    {
        if mask & (1u32 << (n as u32)) != 0 && crtcs[n] == crtc {
            assert(bit_selected(mask, n as u32) && crtcs@[n as int] == crtc);
            return true;
        }
        n = n + 1;
    }
    false
}

impl ConnectorInfo {
    /// Whether one of the connector's encoders links it to `crtc`.
    pub open spec fn drives(&self, crtcs: Seq<u32>, crtc: u32) -> bool {
        exists|e: int|
            0 <= e < self.encoders@.len() && crtc_selected(
                crtcs,
                (#[trigger] self.encoders@[e]).possible_crtcs,
                crtc,
            )
    }

    /// Whether the connector advertises `mode`.
    pub open spec fn supports(&self, mode: Mode) -> bool {
        self.modes@.contains(mode)
    }

    /// Whether one of the connector's encoders links it to `crtc`.
    pub fn can_drive(&self, crtcs: &Vec<u32>, crtc: u32) -> (b: bool)
        ensures
            b == self.drives(crtcs@, crtc),
    {
        let mut e: usize = 0;
        while e < self.encoders.len()
            invariant
                e <= self.encoders@.len(),
                forall|k: int|
                    0 <= k < e ==> !crtc_selected(
                        crtcs@,
                        (#[trigger] self.encoders@[k]).possible_crtcs,
                        crtc,
                    ),
            decreases self.encoders@.len() - e,
        {
            if crtc_is_selected(crtcs, self.encoders[e].possible_crtcs, crtc) {
                assert(crtc_selected(crtcs@, self.encoders@[e as int].possible_crtcs, crtc));
                return true;
            }
            e = e + 1;
        }
        false
    }

    /// Whether the connector advertises `mode`.
    pub fn supports_mode(&self, mode: &Mode) -> (b: bool)
        ensures
            b == self.supports(*mode),
    {
        modes_contain(&self.modes, mode)
    }
}

/// Why the connector `info` cannot serve `crtc` in `mode`, or nothing where
/// it can: it needs an encoder that links it to the CRTC, and it has to
/// advertise the mode.
pub open spec fn spec_check_connector(
    info: ConnectorInfo,
    crtcs: Seq<u32>,
    crtc: u32,
    mode: Mode,
) -> Option<Error> {
    if !info.drives(crtcs, crtc) {
        Some(Error::IncompatibleEncoder(info.handle))
    } else if !info.supports(mode) {
        Some(Error::ModeNotSuitable(mode))
    } else {
        None
    }
}

/// Why the connector `info` cannot serve `crtc` in `mode`, or nothing where
/// it can.
pub fn check_connector(info: &ConnectorInfo, crtcs: &Vec<u32>, crtc: u32, mode: &Mode) -> (e:
    Option<Error>)
    ensures
        e == spec_check_connector(*info, crtcs@, crtc, *mode),
{
    if !info.can_drive(crtcs, crtc) {
        Some(Error::IncompatibleEncoder(info.handle))
    } else if !info.supports_mode(mode) {
        Some(Error::ModeNotSuitable(*mode))
    } else {
        None
    }
}

/// The first failure among the connectors of `infos` from index `from` on.
pub open spec fn spec_first_rejection_from(
    infos: Seq<ConnectorInfo>,
    from: int,
    crtcs: Seq<u32>,
    crtc: u32,
    mode: Mode,
) -> Option<Error>
    decreases infos.len() - from,
{
    if from < 0 || from >= infos.len() {
        None
    } else {
        match spec_check_connector(infos[from], crtcs, crtc, mode) {
            Some(e) => Some(e),
            None => spec_first_rejection_from(infos, from + 1, crtcs, crtc, mode),
        }
    }
}

/// The failure of the first connector of `infos` that cannot serve `crtc` in
/// `mode`, or nothing where all of them can.
pub open spec fn spec_first_rejection(
    infos: Seq<ConnectorInfo>,
    crtcs: Seq<u32>,
    crtc: u32,
    mode: Mode,
) -> Option<Error> {
    spec_first_rejection_from(infos, 0, crtcs, crtc, mode)
}

/// All or nothing: no connector is rejected exactly if each one can serve.
pub proof fn lemma_no_rejection(
    infos: Seq<ConnectorInfo>,
    from: int,
    crtcs: Seq<u32>,
    crtc: u32,
    mode: Mode,
)
    requires
        0 <= from,
    ensures
        spec_first_rejection_from(infos, from, crtcs, crtc, mode) is None <==> forall|k: int|
            from <= k < infos.len() ==> spec_check_connector(
                #[trigger] infos[k],
                crtcs,
                crtc,
                mode,
            ) is None,
    decreases infos.len() - from,
{
    if from < infos.len() {
        lemma_no_rejection(infos, from + 1, crtcs, crtc, mode);
        if spec_first_rejection_from(infos, from, crtcs, crtc, mode) is None {
            assert forall|k: int| from <= k < infos.len() implies spec_check_connector(
                #[trigger] infos[k],
                crtcs,
                crtc,
                mode,
            ) is None by {
                if k > from {
                }
            }
        }
    }
}

/// The failure of the first connector of `infos` that cannot serve `crtc` in
/// `mode`, or nothing where all of them can.
pub fn first_rejection(infos: &Vec<ConnectorInfo>, crtcs: &Vec<u32>, crtc: u32, mode: &Mode) -> (e:
    Option<Error>)
    ensures
        e == spec_first_rejection(infos@, crtcs@, crtc, *mode),
{
    let mut i: usize = 0;
    while i < infos.len()
        invariant
            i <= infos@.len(),
            spec_first_rejection(infos@, crtcs@, crtc, *mode) == spec_first_rejection_from(
                infos@,
                i as int,
                crtcs@,
                crtc,
                *mode,
            ),
        decreases infos@.len() - i,
    {
        let found = check_connector(&infos[i], crtcs, crtc, mode);
        if found.is_some() {
            return found;
        }
        i = i + 1;
    }
    None
}

/// The identifiers of the connectors of `infos`, as a set.
pub open spec fn handles_of(infos: Seq<ConnectorInfo>) -> Set<u32> {
    Set::new(|c: u32| exists|k: int| 0 <= k < infos.len() && (#[trigger] infos[k]).handle == c)
}

/// The connectors of `infos` that are attached to `crtc` at present.
pub open spec fn bound_connectors(infos: Seq<ConnectorInfo>, crtc: u32) -> Set<u32> {
    Set::new(
        |c: u32|
            exists|k: int|
                0 <= k < infos.len() && (#[trigger] infos[k]).handle == c && infos[k].current_crtc
                    == Some(crtc),
    )
}

/// Whether `infos` describes the connector `c` as one that advertises
/// `mode`.
pub open spec fn connector_supports(infos: Seq<ConnectorInfo>, c: u32, mode: Mode) -> bool {
    exists|k: int|
        0 <= k < infos.len() && (#[trigger] infos[k]).handle == c && infos[k].supports(mode)
}

/// Whether `infos` describes the connector `c` as one that advertises
/// `mode`.
pub fn connector_supports_mode(infos: &Vec<ConnectorInfo>, c: u32, mode: &Mode) -> (b: bool)
    ensures
        b == connector_supports(infos@, c, *mode),
{
    let mut i: usize = 0;
    while i < infos.len()
        invariant
            i <= infos@.len(),
            forall|k: int|
                0 <= k < i ==> !((#[trigger] infos@[k]).handle == c && infos@[k].supports(*mode)),
        decreases infos@.len() - i,
    {
        if infos[i].handle == c && infos[i].supports_mode(mode) {
            assert(infos@[i as int].handle == c && infos@[i as int].supports(*mode));
            return true;
        }
        i = i + 1;
    }
    false
}

} // verus!
