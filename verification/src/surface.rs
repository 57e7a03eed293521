//! The surface: one CRTC with its primary plane, on either kernel interface.

use vstd::prelude::*;
use crate::atomic::{AtomicDrmSurface, AtomicSurfaceView, CommitKind};
use crate::blob::ByteOrder;
use crate::claim::{spec_claim, spec_release, PlaneClaim, PlaneClaimStorage};
use crate::connectors::strictly_increasing;
use crate::error::Error;
use crate::format::{
    advertises, spec_supported_formats, supported_formats, Format, MODIFIER_INVALID,
    MODIFIER_LINEAR,
};
use crate::geometry::{Point, Rectangle};
use crate::kernel::{calls_view, KernelCall, KernelCallView, KernelReply};
use crate::legacy::{LegacyDrmSurface, LegacySurfaceView};
use crate::mode::Mode;
use crate::plane::{
    enumerate_planes, spec_planes, PlaneDescription, PlaneState, Planes, Transform,
};
use crate::properties::PropertyMapping;
use crate::resources::{ConnectorInfo, DriverCapabilities, PlaneType};
use crate::session::Event;
use crate::state::{kernel_state, Pipeline, PipelineView};

verus! {

/// The framebuffer that the legacy interface shows for the states `planes`,
/// or why it cannot show them. `first_type` is the kind of the plane that the
/// first state speaks of.
///
/// The legacy interface takes exactly one state, of the primary plane, with
/// a configuration that puts the whole framebuffer at the origin of the CRTC:
/// no offset, no crop, no scale, no transform.
pub open spec fn spec_ensure_legacy_planes(planes: Seq<PlaneState>, first_type: PlaneType) -> Result<
    u32,
    Error,
> {
    if planes.len() == 0 {
        Err(Error::NoPlane)
    } else if first_type != PlaneType::Primary {
        Err(Error::NonPrimaryPlane(planes[0].handle))
    } else if planes.len() > 1 {
        Err(Error::UnsupportedPlaneConfiguration(planes[1].handle))
    } else {
        match planes[0].config {
            None => Err(Error::NoFramebuffer(planes[0].handle)),
            Some(config) => if config.dst.loc != Point::origin() {
                Err(Error::UnsupportedPlaneConfiguration(planes[0].handle))
            } else if config.src.loc != Point::origin() || !Rectangle::fixed_size_is(
                config.src.size,
                config.dst.size,
            ) {
                Err(Error::UnsupportedPlaneConfiguration(planes[0].handle))
            } else if config.transform != Transform::Normal {
                Err(Error::UnsupportedPlaneConfiguration(planes[0].handle))
            } else {
                Ok(config.fb)
            },
        }
    }
}

/// The framebuffer that the legacy interface shows for the states `planes`,
/// or why it cannot show them.
pub fn ensure_legacy_planes(planes: &Vec<PlaneState>, first_type: PlaneType) -> (res: Result<
    u32,
    Error,
>)
    ensures
        res == spec_ensure_legacy_planes(planes@, first_type),
{
    if planes.len() == 0 {
        return Err(Error::NoPlane);
    }
    let state: PlaneState = planes[0];
    if first_type != PlaneType::Primary {
        return Err(Error::NonPrimaryPlane(state.handle));
    }
    if planes.len() > 1 {
        return Err(Error::UnsupportedPlaneConfiguration(planes[1].handle));
    }
    match state.config {
        None => Err(Error::NoFramebuffer(state.handle)),
        Some(config) => {
            if !config.dst.loc.is_origin() {
                return Err(Error::UnsupportedPlaneConfiguration(state.handle));
            }
            if !config.src.fixed_covers(&config.dst) {
                return Err(Error::UnsupportedPlaneConfiguration(state.handle));
            }
            if config.transform != Transform::Normal {
                return Err(Error::UnsupportedPlaneConfiguration(state.handle));
            }
            Ok(config.fb)
        },
    }
}

/// The engine of a surface. Which one it is, is fixed when the surface is
/// made.
#[derive(Debug)]
pub enum DrmSurfaceInternal {
    Atomic(AtomicDrmSurface),
    Legacy(LegacyDrmSurface),
}

/// An engine as a value.
pub enum InternalView {
    Atomic(AtomicSurfaceView),
    Legacy(LegacySurfaceView),
}

impl View for DrmSurfaceInternal {
    type V = InternalView;

    open spec fn view(&self) -> InternalView {
        match *self {
            DrmSurfaceInternal::Atomic(surf) => InternalView::Atomic(surf@),
            DrmSurfaceInternal::Legacy(surf) => InternalView::Legacy(surf@),
        }
    }
}

impl DrmSurfaceInternal {
    /// The representation invariant.
    pub open spec fn wf(&self) -> bool {
        match *self {
            DrmSurfaceInternal::Atomic(surf) => surf.wf(),
            DrmSurfaceInternal::Legacy(surf) => surf.wf(),
        }
    }

    /// The bookkeeping of the pipeline.
    pub fn pipeline(&self) -> (p: &Pipeline)
        requires
            self.wf(),
        ensures
            p.wf(),
            p@ == self@.pipeline(),
    {
        match self {
            DrmSurfaceInternal::Atomic(surf) => surf.pipeline(),
            DrmSurfaceInternal::Legacy(surf) => surf.pipeline(),
        }
    }
}

impl InternalView {
    /// The pipeline of the engine.
    pub open spec fn pipeline(self) -> PipelineView {
        match self {
            InternalView::Atomic(surf) => surf.pipeline,
            InternalView::Legacy(surf) => surf.pipeline,
        }
    }

    /// Whether the device is active.
    pub open spec fn active(self) -> bool {
        match self {
            InternalView::Atomic(surf) => surf.active,
            InternalView::Legacy(surf) => surf.active,
        }
    }

    /// The engine with the pipeline `pipeline`.
    pub open spec fn with_pipeline(self, pipeline: PipelineView) -> InternalView {
        match self {
            InternalView::Atomic(surf) => InternalView::Atomic(
                AtomicSurfaceView { pipeline, ..surf },
            ),
            InternalView::Legacy(surf) => InternalView::Legacy(
                LegacySurfaceView { pipeline, ..surf },
            ),
        }
    }

    /// The engine on a device that is active or not.
    pub open spec fn with_active(self, active: bool) -> InternalView {
        match self {
            InternalView::Atomic(surf) => InternalView::Atomic(AtomicSurfaceView { active, ..surf }),
            InternalView::Legacy(surf) => InternalView::Legacy(LegacySurfaceView { active, ..surf }),
        }
    }

    /// The calls for the request `kind` with the planes in the states
    /// `planes`, or why none is made.
    pub open spec fn plan(self, planes: Seq<PlaneState>, first_type: PlaneType, kind: CommitKind) -> Result<
        Seq<KernelCallView>,
        Error,
    > {
        match self {
            InternalView::Atomic(surf) => match surf.plan(planes, kind) {
                Ok(call) => Ok(seq![call]),
                Err(e) => Err(e),
            },
            InternalView::Legacy(surf) => match spec_ensure_legacy_planes(planes, first_type) {
                Ok(framebuffer) => surf.plan(framebuffer, kind),
                Err(e) => Err(e),
            },
        }
    }

    /// How the request `kind` ends when the kernel replies `reply` to its
    /// calls.
    pub open spec fn outcome(
        self,
        planes: Seq<PlaneState>,
        first_type: PlaneType,
        kind: CommitKind,
        reply: KernelReply,
    ) -> Result<(), Error> {
        match self {
            InternalView::Atomic(surf) => surf.outcome(planes, kind, reply),
            InternalView::Legacy(surf) => match spec_ensure_legacy_planes(planes, first_type) {
                Ok(framebuffer) => surf.outcome(framebuffer, kind, reply),
                Err(e) => Err(e),
            },
        }
    }

    /// The engine after the request `kind` to which the kernel replied
    /// `reply`.
    pub open spec fn after(
        self,
        planes: Seq<PlaneState>,
        first_type: PlaneType,
        kind: CommitKind,
        reply: KernelReply,
    ) -> InternalView {
        match self {
            InternalView::Atomic(surf) => InternalView::Atomic(surf.after(planes, kind, reply)),
            InternalView::Legacy(surf) => match spec_ensure_legacy_planes(planes, first_type) {
                Ok(_) => InternalView::Legacy(surf.after(kind, reply)),
                Err(_) => self,
            },
        }
    }

    /// The calls that disable the plane `plane`, or why none is made. The
    /// legacy interface cannot disable a plane.
    pub open spec fn plan_clear(self, plane: u32) -> Result<Seq<KernelCallView>, Error> {
        match self {
            InternalView::Atomic(surf) => match surf.plan_clear(plane) {
                Ok(call) => Ok(seq![call]),
                Err(e) => Err(e),
            },
            InternalView::Legacy(_) => Err(Error::NonPrimaryPlane(plane)),
        }
    }

    /// How disabling the plane `plane` ends when the kernel replies `reply`.
    pub open spec fn outcome_clear(self, plane: u32, reply: KernelReply) -> Result<(), Error> {
        match self {
            InternalView::Atomic(surf) => surf.outcome_clear(reply),
            InternalView::Legacy(_) => Err(Error::NonPrimaryPlane(plane)),
        }
    }

    /// The calls that switch the pipeline off when the surface goes away.
    pub open spec fn plan_disable(self) -> Seq<KernelCallView> {
        let call = match self {
            InternalView::Atomic(surf) => surf.plan_disable(),
            InternalView::Legacy(surf) => surf.plan_disable(),
        };
        match call {
            Some(call) => seq![call],
            None => Seq::empty(),
        }
    }
}

/// Whether a commit failed after its modeset took place: on the legacy
/// interface the call that asks for the event comes after the modeset, and
/// its failure leaves the kernel in the new state.
pub open spec fn failed_after_modeset(s: InternalView, kind: CommitKind, reply: KernelReply) -> bool {
    s matches InternalView::Legacy(surf) && surf.modeset_done(kind, reply) && reply is Failed
}

/// A commit that succeeds leaves the two snapshots equal by value, and
/// nothing is pending after it, on either interface.
pub proof fn lemma_commit_settles(
    s: InternalView,
    planes: Seq<PlaneState>,
    first_type: PlaneType,
    event: bool,
    reply: KernelReply,
)
    requires
        s.outcome(planes, first_type, CommitKind::Commit { event }, reply) is Ok,
    ensures
        ({
            let after = s.after(planes, first_type, CommitKind::Commit { event }, reply);
            &&& after.pipeline().current == after.pipeline().pending
            &&& !after.pipeline().commit_pending()
            &&& after.pipeline().pending == s.pipeline().pending
        }),
{
}

/// A request that fails leaves the current snapshot as it was, on either
/// interface, unless it is a legacy commit that failed after its modeset.
pub proof fn lemma_failure_keeps_current(
    s: InternalView,
    planes: Seq<PlaneState>,
    first_type: PlaneType,
    kind: CommitKind,
    reply: KernelReply,
)
    requires
        s.outcome(planes, first_type, kind, reply) is Err,
        !failed_after_modeset(s, kind, reply),
    ensures
        s.after(planes, first_type, kind, reply) == s,
        s.after(planes, first_type, kind, reply).pipeline().current == s.pipeline().current,
{
}

/// A test leaves the surface as it is, whatever the kernel replies.
pub proof fn lemma_test_keeps(
    s: InternalView,
    planes: Seq<PlaneState>,
    first_type: PlaneType,
    allow_modeset: bool,
    reply: KernelReply,
)
    ensures
        s.after(planes, first_type, CommitKind::Test { allow_modeset }, reply) == s,
{
}

/// A surface as a value.
pub struct SurfaceView {
    pub dev_id: u64,
    pub crtc: u32,
    pub primary: u32,
    pub internal: InternalView,
    pub has_universal_planes: bool,
    pub has_modifiers: bool,
}

/// An open CRTC with its primary plane, ready for scan-out.
#[derive(Debug)]
pub struct DrmSurface {
    dev_id: u64,
    crtc: u32,
    primary: u32,
    internal: DrmSurfaceInternal,
    has_universal_planes: bool,
    has_modifiers: bool,
    claim: PlaneClaim,
}

impl View for DrmSurface {
    type V = SurfaceView;

    closed spec fn view(&self) -> SurfaceView {
        SurfaceView {
            dev_id: self.dev_id,
            crtc: self.crtc,
            primary: self.primary,
            internal: self.internal@,
            has_universal_planes: self.has_universal_planes,
            has_modifiers: self.has_modifiers,
        }
    }
}

impl DrmSurface {
    /// Whether the engine is sound and the surface holds the claim on its
    /// primary plane for its CRTC.
    pub closed spec fn holds_claim(&self) -> bool {
        &&& self.internal.wf()
        &&& self.claim.spec_plane() == self.primary
        &&& self.claim.spec_crtc() == self.crtc
    }

    /// The representation invariant: the surface holds the claim on its
    /// primary plane, and its engine serves the CRTC and the primary plane of
    /// the surface.
    pub open spec fn wf(&self) -> bool {
        &&& self.holds_claim()
        &&& self@.internal.pipeline().crtc == self@.crtc
        &&& self@.internal matches InternalView::Atomic(surf) ==> surf.primary == self@.primary
    }

    /// Makes the surface of `crtc` with the primary plane `primary` on the
    /// device `dev_id`, and claims the primary plane for it. There is no
    /// surface where the claim is refused.
    ///
    /// The engine is the atomic one where the driver takes atomic commits,
    /// else the legacy one. The device is taken as active. Both snapshots are
    /// what the kernel reports: the mode `mode` of the CRTC and the connectors
    /// of `infos` that are attached to it.
    pub fn new(
        dev_id: u64,
        crtc: u32,
        primary: u32,
        crtcs: Vec<u32>,
        capabilities: DriverCapabilities,
        mapping: PropertyMapping,
        mode: Option<Mode>,
        infos: &Vec<ConnectorInfo>,
        claims: &mut PlaneClaimStorage,
    ) -> (res: Option<DrmSurface>)
        requires
            old(claims).wf(),
        ensures
            final(claims).wf(),
            match spec_claim(old(claims)@, primary, crtc) {
                None => res is None && final(claims)@ == old(claims)@,
                Some(after) => {
                    &&& final(claims)@ == after
                    &&& res is Some
                    &&& res->0.wf()
                    &&& res->0@.dev_id == dev_id
                    &&& res->0@.crtc == crtc
                    &&& res->0@.primary == primary
                    &&& res->0@.has_universal_planes == capabilities.universal_planes
                    &&& res->0@.has_modifiers == capabilities.addfb2_modifiers
                    &&& res->0@.internal is Atomic == capabilities.atomic
                    &&& res->0@.internal matches InternalView::Atomic(surf) ==> surf.mapping
                        == mapping
                    &&& res->0@.internal.active()
                    &&& res->0@.internal.pipeline().crtcs == crtcs@
                    &&& res->0@.internal.pipeline().current == kernel_state(crtc, mode, infos@)
                    &&& res->0@.internal.pipeline().pending == kernel_state(crtc, mode, infos@)
                },
            },
    {
        match claims.claim(primary, crtc) {
            None => None,
            Some(claim) => {
                let internal = if capabilities.atomic {
                    DrmSurfaceInternal::Atomic(
                        AtomicDrmSurface::new(crtc, primary, crtcs, mapping, mode, infos),
                    )
                } else {
                    DrmSurfaceInternal::Legacy(LegacyDrmSurface::new(crtc, crtcs, mode, infos))
                };
                Some(
                    DrmSurface {
                        dev_id,
                        crtc,
                        primary,
                        internal,
                        has_universal_planes: capabilities.universal_planes,
                        has_modifiers: capabilities.addfb2_modifiers,
                        claim,
                    },
                )
            },
        }
    }

    /// Gives up the surface: the claim on the primary plane goes back to
    /// `claims`. Returns the calls that switch the pipeline off.
    pub fn destroy(self, claims: &mut PlaneClaimStorage) -> (calls: Vec<KernelCall>)
        requires
            self.wf(),
            old(claims).wf(),
        ensures
            final(claims).wf(),
            final(claims)@ == spec_release(old(claims)@, self@.primary, self@.crtc),
            calls_view(calls@) == self@.internal.plan_disable(),
    {
        let DrmSurface { internal, claim, .. } = self;
        claims.release(claim);
        let call = match &internal {
            DrmSurfaceInternal::Atomic(surf) => surf.disable_request(),
            DrmSurfaceInternal::Legacy(surf) => surf.disable_request(),
        };
        let mut calls: Vec<KernelCall> = Vec::new();
        match call {
            Some(call) => {
                calls.push(call);
            },
            None => {},
        }
        assert(calls_view(calls@) =~= self@.internal.plan_disable());
        calls
    }

    /// The device of the surface.
    pub fn dev_id(&self) -> (id: u64)
        ensures
            id == self@.dev_id,
    {
        self.dev_id
    }

    /// The CRTC of the surface.
    pub fn crtc(&self) -> (crtc: u32)
        ensures
            crtc == self@.crtc,
    {
        self.crtc
    }

    /// The primary plane of the surface.
    pub fn plane(&self) -> (plane: u32)
        ensures
            plane == self@.primary,
    {
        self.primary
    }

    /// Whether the surface is on the atomic interface.
    pub fn is_atomic(&self) -> (b: bool)
        ensures
            b == (self@.internal is Atomic),
    {
        match self.internal {
            DrmSurfaceInternal::Atomic(_) => true,
            DrmSurfaceInternal::Legacy(_) => false,
        }
    }

    /// Whether the device is active.
    pub fn is_active(&self) -> (b: bool)
        ensures
            b == self@.internal.active(),
    {
        match &self.internal {
            DrmSurfaceInternal::Atomic(surf) => surf.is_active(),
            DrmSurfaceInternal::Legacy(surf) => surf.is_active(),
        }
    }

    /// Takes note of what the session tells: a paused session makes the
    /// device inactive, an activated one makes it active again.
    pub fn session_event(&mut self, event: Event)
        requires
            old(self).wf(),
        ensures
            final(self).wf(),
            final(self)@ == (
            SurfaceView {
                internal: old(self)@.internal.with_active(event.spec_activates()),
                ..old(self)@
            }),
    {
        let active = event.activates();
        match &mut self.internal {
            DrmSurfaceInternal::Atomic(surf) => surf.set_active(active),
            DrmSurfaceInternal::Legacy(surf) => surf.set_active(active),
        }
    }

    /// The connectors that the kernel scans out to, in ascending order.
    pub fn current_connectors(&self) -> (v: Vec<u32>)
        requires
            self.wf(),
        ensures
            v@.to_set() == self@.internal.pipeline().current.connectors,
            strictly_increasing(v@),
            v@.no_duplicates(),
    {
        self.internal.pipeline().current_connectors()
    }

    /// The connectors that the next commit asks for, in ascending order.
    pub fn pending_connectors(&self) -> (v: Vec<u32>)
        requires
            self.wf(),
        ensures
            v@.to_set() == self@.internal.pipeline().pending.connectors,
            strictly_increasing(v@),
            v@.no_duplicates(),
    {
        self.internal.pipeline().pending_connectors()
    }

    /// The mode that the kernel scans out.
    pub fn current_mode(&self) -> (m: Mode)
        requires
            self.wf(),
        ensures
            m == self@.internal.pipeline().current.mode,
    {
        self.internal.pipeline().current_mode()
    }

    /// The mode that the next commit asks for.
    pub fn pending_mode(&self) -> (m: Mode)
        requires
            self.wf(),
        ensures
            m == self@.internal.pipeline().pending.mode,
    {
        self.internal.pipeline().pending_mode()
    }

    /// Whether a commit would change anything: the pending snapshot differs
    /// from the current one.
    pub fn commit_pending(&self) -> (b: bool)
        requires
            self.wf(),
        ensures
            b == self@.internal.pipeline().commit_pending(),
    {
        self.internal.pipeline().commit_pending()
    }

    /// Adds the connector that `info` describes to the pending snapshot. The
    /// connector needs an encoder that links it to the CRTC, and has to
    /// advertise the pending mode.
    pub fn add_connector(&mut self, info: &ConnectorInfo) -> (res: Result<(), Error>)
        requires
            old(self).wf(),
        ensures
            final(self).wf(),
            match old(self)@.internal.pipeline().add_connector(*info) {
                Ok(after) => res is Ok && final(self)@ == (
                SurfaceView { internal: old(self)@.internal.with_pipeline(after), ..old(self)@ }),
                Err(e) => res == Err::<(), Error>(e) && final(self)@ == old(self)@,
            },
    {
        match &mut self.internal {
            DrmSurfaceInternal::Atomic(surf) => surf.add_connector(info),
            DrmSurfaceInternal::Legacy(surf) => surf.add_connector(info),
        }
    }

    /// Takes a connector out of the pending snapshot. This cannot fail, and
    /// doing it again changes nothing.
    pub fn remove_connector(&mut self, connector: u32) -> (res: Result<(), Error>)
        requires
            old(self).wf(),
        ensures
            final(self).wf(),
            res is Ok,
            final(self)@ == (
            SurfaceView {
                internal: old(self)@.internal.with_pipeline(
                    old(self)@.internal.pipeline().without_connector(connector),
                ),
                ..old(self)@
            }),
    {
        match &mut self.internal {
            DrmSurfaceInternal::Atomic(surf) => surf.remove_connector(connector),
            DrmSurfaceInternal::Legacy(surf) => surf.remove_connector(connector),
        }
    }

    /// Replaces the pending connectors by those that `infos` describes, all
    /// of them or none: each needs an encoder that links it to the CRTC, and
    /// has to advertise the pending mode.
    pub fn set_connectors(&mut self, infos: &Vec<ConnectorInfo>) -> (res: Result<(), Error>)
        requires
            old(self).wf(),
        ensures
            final(self).wf(),
            match old(self)@.internal.pipeline().set_connectors(infos@) {
                Ok(after) => res is Ok && final(self)@ == (
                SurfaceView { internal: old(self)@.internal.with_pipeline(after), ..old(self)@ }),
                Err(e) => res == Err::<(), Error>(e) && final(self)@ == old(self)@,
            },
    {
        match &mut self.internal {
            DrmSurfaceInternal::Atomic(surf) => surf.set_connectors(infos),
            DrmSurfaceInternal::Legacy(surf) => surf.set_connectors(infos),
        }
    }

    /// Chooses the mode of the next commit. `infos` has to show that every
    /// pending connector advertises it.
    pub fn use_mode(&mut self, mode: Mode, infos: &Vec<ConnectorInfo>) -> (res: Result<(), Error>)
        requires
            old(self).wf(),
        ensures
            final(self).wf(),
            match old(self)@.internal.pipeline().use_mode(mode, infos@) {
                Ok(after) => res is Ok && final(self)@ == (
                SurfaceView { internal: old(self)@.internal.with_pipeline(after), ..old(self)@ }),
                Err(e) => res == Err::<(), Error>(e) && final(self)@ == old(self)@,
            },
    {
        match &mut self.internal {
            DrmSurfaceInternal::Atomic(surf) => surf.use_mode(mode, infos),
            DrmSurfaceInternal::Legacy(surf) => surf.use_mode(mode, infos),
        }
    }

    /// Reads the state of the pipeline from what the kernel reports: the
    /// mode `mode` of the CRTC and the connectors of `infos` that are attached
    /// to it. Both snapshots are that state afterwards. This cannot fail.
    pub fn reset_state(&mut self, mode: Option<Mode>, infos: &Vec<ConnectorInfo>) -> (res: Result<
        (),
        Error,
    >)
        requires
            old(self).wf(),
        ensures
            final(self).wf(),
            res is Ok,
            final(self)@ == (
            SurfaceView {
                internal: old(self)@.internal.with_pipeline(
                    old(self)@.internal.pipeline().reset(mode, infos@),
                ),
                ..old(self)@
            }),
    {
        match &mut self.internal {
            DrmSurfaceInternal::Atomic(surf) => surf.reset_state(mode, infos),
            DrmSurfaceInternal::Legacy(surf) => surf.reset_state(mode, infos),
        }
        Ok(())
    }

    /// The calls for the request `kind` with the planes in the states
    /// `planes`, or why none is made.
    fn plan(&self, planes: &Vec<PlaneState>, first_type: PlaneType, kind: CommitKind) -> (res:
        Result<Vec<KernelCall>, Error>)
        requires
            self.wf(),
        ensures
            match self@.internal.plan(planes@, first_type, kind) {
                Ok(calls) => res is Ok && calls_view(res->Ok_0@) == calls,
                Err(e) => res is Err && res->Err_0 == e,
            },
    {
        match &self.internal {
            DrmSurfaceInternal::Atomic(surf) => match surf.plan(planes, kind) {
                Err(e) => Err(e),
                Ok(call) => {
                    let mut calls: Vec<KernelCall> = Vec::new();
                    calls.push(call);
                    assert(calls_view(calls@) =~= seq![call@]);
                    Ok(calls)
                },
            },
            DrmSurfaceInternal::Legacy(surf) => match ensure_legacy_planes(planes, first_type) {
                Err(e) => Err(e),
                Ok(framebuffer) => surf.plan(framebuffer, kind),
            },
        }
    }

    /// How the request `kind` ends when the kernel replies `reply`.
    fn complete(
        &mut self,
        planes: &Vec<PlaneState>,
        first_type: PlaneType,
        kind: CommitKind,
        reply: KernelReply,
    ) -> (res: Result<(), Error>)
        requires
            old(self).wf(),
        ensures
            final(self).wf(),
            res == old(self)@.internal.outcome(planes@, first_type, kind, reply),
            final(self)@ == (
            SurfaceView {
                internal: old(self)@.internal.after(planes@, first_type, kind, reply),
                ..old(self)@
            }),
    {
        match &mut self.internal {
            DrmSurfaceInternal::Atomic(surf) => surf.complete(planes, kind, reply),
            DrmSurfaceInternal::Legacy(surf) => match ensure_legacy_planes(planes, first_type) {
                Err(e) => Err(e),
                Ok(framebuffer) => surf.complete(framebuffer, kind, reply),
            },
        }
    }

    /// The calls that test the pending snapshot with the planes in the
    /// states `planes`, or why none is made. `first_type` is the kind of the
    /// plane that the first state speaks of.
    ///
    /// On the atomic interface this is one commit that is only tested, and
    /// that may reconfigure the timing only if `allow_modeset` is set. On the
    /// legacy interface it is a real modeset if `allow_modeset` is set, and
    /// no call at all otherwise.
    pub fn test_state_request(
        &self,
        planes: &Vec<PlaneState>,
        allow_modeset: bool,
        first_type: PlaneType,
    ) -> (res: Result<Vec<KernelCall>, Error>)
        requires
            self.wf(),
        ensures
            match self@.internal.plan(planes@, first_type, CommitKind::Test { allow_modeset }) {
                Ok(calls) => res is Ok && calls_view(res->Ok_0@) == calls,
                Err(e) => res is Err && res->Err_0 == e,
            },
    {
        self.plan(planes, first_type, CommitKind::Test { allow_modeset })
    }

    /// How the test ends when the kernel replies `reply` to the calls of
    /// `test_state_request`. The surface is left as it is.
    pub fn test_state(
        &self,
        planes: &Vec<PlaneState>,
        allow_modeset: bool,
        first_type: PlaneType,
        reply: KernelReply,
    ) -> (res: Result<(), Error>)
        requires
            self.wf(),
        ensures
            res == self@.internal.outcome(
                planes@,
                first_type,
                CommitKind::Test { allow_modeset },
                reply,
            ),
    {
        match &self.internal {
            DrmSurfaceInternal::Atomic(surf) => surf.test_state(planes, allow_modeset, reply),
            DrmSurfaceInternal::Legacy(surf) => match ensure_legacy_planes(planes, first_type) {
                Err(e) => Err(e),
                Ok(_) => {
                    if !allow_modeset {
                        Ok(())
                    } else {
                        surf.test_buffer(reply)
                    }
                },
            },
        }
    }

    /// The calls that commit the pending snapshot with the planes in the
    /// states `planes`, or why none is made. The commit may reconfigure the
    /// timing. An event tells when it is done if `event` is set.
    pub fn commit_request(&self, planes: &Vec<PlaneState>, event: bool, first_type: PlaneType) -> (res:
        Result<Vec<KernelCall>, Error>)
        requires
            self.wf(),
        ensures
            match self@.internal.plan(planes@, first_type, CommitKind::Commit { event }) {
                Ok(calls) => res is Ok && calls_view(res->Ok_0@) == calls,
                Err(e) => res is Err && res->Err_0 == e,
            },
    {
        self.plan(planes, first_type, CommitKind::Commit { event })
    }

    /// How the commit ends when the kernel replies `reply` to the calls of
    /// `commit_request`.
    ///
    /// After a commit that succeeded the current snapshot is the pending one.
    /// A commit that failed leaves the current snapshot as it was, unless it
    /// is a legacy commit that failed after its modeset.
    pub fn commit(
        &mut self,
        planes: &Vec<PlaneState>,
        event: bool,
        first_type: PlaneType,
        reply: KernelReply,
    ) -> (res: Result<(), Error>)
        requires
            old(self).wf(),
        ensures
            final(self).wf(),
            res == old(self)@.internal.outcome(
                planes@,
                first_type,
                CommitKind::Commit { event },
                reply,
            ),
            final(self)@ == (
            SurfaceView {
                internal: old(self)@.internal.after(
                    planes@,
                    first_type,
                    CommitKind::Commit { event },
                    reply,
                ),
                ..old(self)@
            }),
            res is Ok ==> final(self)@.internal.pipeline().current
                == final(self)@.internal.pipeline().pending
                && !final(self)@.internal.pipeline().commit_pending(),
            res is Err && !failed_after_modeset(
                old(self)@.internal,
                CommitKind::Commit { event },
                reply,
            ) ==> final(self)@ == old(self)@,
    {
        self.complete(planes, first_type, CommitKind::Commit { event }, reply)
    }

    /// The calls that flip to the planes in the states `planes`, or why none
    /// is made. A page flip may not reconfigure the timing.
    pub fn page_flip_request(&self, planes: &Vec<PlaneState>, event: bool, first_type: PlaneType) -> (res:
        Result<Vec<KernelCall>, Error>)
        requires
            self.wf(),
        ensures
            match self@.internal.plan(planes@, first_type, CommitKind::PageFlip { event }) {
                Ok(calls) => res is Ok && calls_view(res->Ok_0@) == calls,
                Err(e) => res is Err && res->Err_0 == e,
            },
    {
        self.plan(planes, first_type, CommitKind::PageFlip { event })
    }

    /// How the page flip ends when the kernel replies `reply` to the calls
    /// of `page_flip_request`. A page flip that failed changes nothing.
    pub fn page_flip(
        &mut self,
        planes: &Vec<PlaneState>,
        event: bool,
        first_type: PlaneType,
        reply: KernelReply,
    ) -> (res: Result<(), Error>)
        requires
            old(self).wf(),
        ensures
            final(self).wf(),
            res == old(self)@.internal.outcome(
                planes@,
                first_type,
                CommitKind::PageFlip { event },
                reply,
            ),
            final(self)@ == (
            SurfaceView {
                internal: old(self)@.internal.after(
                    planes@,
                    first_type,
                    CommitKind::PageFlip { event },
                    reply,
                ),
                ..old(self)@
            }),
            res is Err ==> final(self)@ == old(self)@,
    {
        self.complete(planes, first_type, CommitKind::PageFlip { event }, reply)
    }

    /// The calls that disable the plane `plane`, or why none is made. On the
    /// legacy interface no plane can be disabled.
    pub fn clear_plane_request(&self, plane: u32) -> (res: Result<Vec<KernelCall>, Error>)
        ensures
            match self@.internal.plan_clear(plane) {
                Ok(calls) => res is Ok && calls_view(res->Ok_0@) == calls,
                Err(e) => res is Err && res->Err_0 == e,
            },
    {
        match &self.internal {
            DrmSurfaceInternal::Atomic(surf) => match surf.clear_plane_request(plane) {
                Err(e) => Err(e),
                Ok(call) => {
                    let mut calls: Vec<KernelCall> = Vec::new();
                    calls.push(call);
                    assert(calls_view(calls@) =~= seq![call@]);
                    Ok(calls)
                },
            },
            DrmSurfaceInternal::Legacy(_) => Err(Error::NonPrimaryPlane(plane)),
        }
    }

    /// How disabling the plane `plane` ends when the kernel replies `reply`
    /// to the calls of `clear_plane_request`.
    pub fn clear_plane(&self, plane: u32, reply: KernelReply) -> (res: Result<(), Error>)
        ensures
            res == self@.internal.outcome_clear(plane, reply),
    {
        match &self.internal {
            DrmSurfaceInternal::Atomic(surf) => surf.clear_plane(plane, reply),
            DrmSurfaceInternal::Legacy(_) => Err(Error::NonPrimaryPlane(plane)),
        }
    }

    /// Whether the surface uses cursor and overlay planes: the driver has to
    /// expose them, and the surface has to be on the atomic interface.
    pub open spec fn uses_universal_planes(v: SurfaceView) -> bool {
        v.internal is Atomic && v.has_universal_planes
    }

    /// The planes of this surface among `candidates`, the planes of the
    /// device. A legacy surface has its primary plane only.
    pub fn planes(&self, candidates: &Vec<PlaneDescription>) -> (res: Result<Planes, Error>)
        requires
            self.wf(),
        ensures
            match spec_planes(
                candidates@,
                self@.internal.pipeline().crtcs,
                self@.crtc,
                Self::uses_universal_planes(self@),
            ) {
                Ok(planes) => res is Ok && res->Ok_0@ == planes,
                Err(e) => res is Err && res->Err_0 == e,
            },
    {
        let universal = match self.internal {
            DrmSurfaceInternal::Atomic(_) => self.has_universal_planes,
            DrmSurfaceInternal::Legacy(_) => false,
        };
        enumerate_planes(candidates, self.internal.pipeline().crtcs(), self.crtc, universal)
    }

    /// Claims `plane` for the CRTC of this surface in the registry `claims`
    /// of the device. The claim is refused while another CRTC holds the plane.
    pub fn claim_plane(&self, claims: &mut PlaneClaimStorage, plane: u32) -> (token: Option<
        PlaneClaim,
    >)
        requires
            old(claims).wf(),
        ensures
            final(claims).wf(),
            match spec_claim(old(claims)@, plane, self@.crtc) {
                Some(after) => final(claims)@ == after && token is Some && token->0.spec_plane()
                    == plane && token->0.spec_crtc() == self@.crtc,
                None => final(claims)@ == old(claims)@ && token is None,
            },
    {
        claims.claim(plane, self.crtc)
    }

    /// The formats that the plane `plane` supports, each one once. Codes
    /// that are not recognized fourcc codes are left out. The plane's format
    /// table is in the byte order `order`. This cannot fail.
    ///
    /// Every pair comes without a modifier, or is advertised by the plane's
    /// format table, or is the linear layout on a cursor plane.
    pub fn supported_formats(&self, plane: &PlaneDescription, order: ByteOrder) -> (res: Result<
        Vec<Format>,
        Error,
    >)
        ensures
            res is Ok,
            res->Ok_0@.no_duplicates(),
            res->Ok_0@.to_set() == spec_supported_formats(
                plane.formats@,
                self@.has_modifiers,
                match plane.in_formats {
                    Some(table) => Some(table@),
                    None => None,
                },
                order,
                plane.plane_type == PlaneType::Cursor,
            ),
            forall|f: Format| #[trigger]
                res->Ok_0@.contains(f) ==> f.modifier == MODIFIER_INVALID || (plane.in_formats
                    matches Some(table) && advertises(table@, order, f)) || (plane.plane_type
                    == PlaneType::Cursor && f.modifier == MODIFIER_LINEAR),
    {
        let is_cursor = match plane.plane_type {
            PlaneType::Cursor => true,
            _ => false,
        };
        let table: Option<&[u8]> = match &plane.in_formats {
            Some(bytes) => Some(bytes.as_slice()),
            None => None,
        };
        Ok(supported_formats(&plane.formats, self.has_modifiers, table, order, is_cursor))
    }
}

} // verus!
