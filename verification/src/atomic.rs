//! The engine of a surface on the atomic kernel interface.

use vstd::prelude::*;
use crate::error::{classify, spec_classify, Error, Operation};
use crate::kernel::{KernelCall, KernelCallView, KernelReply};
use crate::mode::Mode;
use crate::plane::{find_plane, spec_find_plane, PlaneState};
use crate::properties::{spec_plane_properties, PropertyMapping};
use crate::request::{
    ascending, assign, build_request, lemma_ascending, marshal_clear, marshal_connectors,
    push_assign, spec_clear_assignments, spec_connector_assignments, spec_request,
    PropertyAssignment, PropertyValue, ATOMIC_ALLOW_MODESET, ATOMIC_TEST_ONLY, PAGE_FLIP_EVENT,
};
use crate::resources::ConnectorInfo;
use crate::state::{Pipeline, PipelineView};

verus! {

/// What a caller asks of a pipeline with a set of plane states.
#[derive(Clone, Copy, Debug, PartialEq, Eq, Structural)]
pub enum CommitKind {
    /// A commit that is only tested.
    Test { allow_modeset: bool },
    /// A commit that may reconfigure the timing.
    Commit { event: bool },
    /// A commit that may not reconfigure the timing.
    PageFlip { event: bool },
}

impl CommitKind {
    /// The flags of the commit.
    pub open spec fn spec_flags(self) -> u32 {
        match self {
            CommitKind::Test { allow_modeset } => if allow_modeset {
                (ATOMIC_TEST_ONLY + ATOMIC_ALLOW_MODESET) as u32
            } else {
                ATOMIC_TEST_ONLY
            },
            CommitKind::Commit { event } => if event {
                (ATOMIC_ALLOW_MODESET + PAGE_FLIP_EVENT) as u32
            } else {
                ATOMIC_ALLOW_MODESET
            },
            CommitKind::PageFlip { event } => if event {
                PAGE_FLIP_EVENT
            } else {
                0
            },
        }
    }

    /// The flags of the commit.
    #[verifier::when_used_as_spec(spec_flags)]
    pub fn flags(self) -> (f: u32)
        ensures
            f == self.spec_flags(),
    {
        match self {
            CommitKind::Test { allow_modeset } => if allow_modeset {
                ATOMIC_TEST_ONLY + ATOMIC_ALLOW_MODESET
            } else {
                ATOMIC_TEST_ONLY
            },
            CommitKind::Commit { event } => if event {
                ATOMIC_ALLOW_MODESET + PAGE_FLIP_EVENT
            } else {
                ATOMIC_ALLOW_MODESET
            },
            CommitKind::PageFlip { event } => if event {
                PAGE_FLIP_EVENT
            } else {
                0
            },
        }
    }

    /// The label of the commit in a failure.
    pub open spec fn spec_operation(self) -> Operation {
        match self {
            CommitKind::Test { .. } => Operation::AtomicTest,
            CommitKind::Commit { .. } => Operation::AtomicCommit,
            CommitKind::PageFlip { .. } => Operation::AtomicPageFlip,
        }
    }

    /// The label of the commit in a failure.
    #[verifier::when_used_as_spec(spec_operation)]
    pub fn operation(self) -> (op: Operation)
        ensures
            op == self.spec_operation(),
    {
        match self {
            CommitKind::Test { .. } => Operation::AtomicTest,
            CommitKind::Commit { .. } => Operation::AtomicCommit,
            CommitKind::PageFlip { .. } => Operation::AtomicPageFlip,
        }
    }

    /// Whether the shadow state follows the kernel when the commit succeeds.
    pub open spec fn spec_applies(self) -> bool {
        !(self is Test)
    }
}

/// What is wrong with the states `planes` for a commit of the pipeline `v`
/// whose primary plane is `primary`, or nothing.
///
/// A pipeline that keeps connectors needs the primary plane with a
/// framebuffer: some state has to be given, one of them has to speak of the
/// primary plane, and the first that does has to hold a configuration. A
/// pipeline that is being disabled needs nothing.
pub open spec fn spec_validate_planes(v: PipelineView, primary: u32, planes: Seq<PlaneState>) -> Option<
    Error,
> {
    if v.pending.connectors == Set::<u32>::empty() {
        None
    } else if planes.len() == 0 {
        Some(Error::NoPlane)
    } else {
        match spec_find_plane(planes, primary) {
            None => Some(Error::NonPrimaryPlane(planes[0].handle)),
            Some(state) => if state.config is None {
                Some(Error::NoFramebuffer(primary))
            } else {
                None
            },
        }
    }
}

/// An atomic surface as a value.
pub struct AtomicSurfaceView {
    pub pipeline: PipelineView,
    pub primary: u32,
    pub active: bool,
    pub mapping: PropertyMapping,
}

impl AtomicSurfaceView {
    /// The call for a commit of kind `kind` with the planes in the states
    /// `planes`, or why none is made: the device is inactive, the states are
    /// not enough, or the driver cannot express one of them.
    pub open spec fn plan(self, planes: Seq<PlaneState>, kind: CommitKind) -> Result<
        KernelCallView,
        Error,
    > {
        if !self.active {
            Err(Error::DeviceInactive)
        } else {
            match spec_validate_planes(self.pipeline, self.primary, planes) {
                Some(e) => Err(e),
                None => match spec_request(self.pipeline, self.mapping, planes) {
                    Err(e) => Err(e),
                    Ok(properties) => Ok(
                        KernelCallView::Atomic { flags: kind.spec_flags(), properties },
                    ),
                },
            }
        }
    }

    /// How a commit of kind `kind` ends when the kernel replies `reply` to
    /// its call.
    pub open spec fn outcome(self, planes: Seq<PlaneState>, kind: CommitKind, reply: KernelReply) -> Result<
        (),
        Error,
    > {
        match self.plan(planes, kind) {
            Err(e) => Err(e),
            Ok(_) => match reply {
                KernelReply::Done => Ok(()),
                KernelReply::Failed { errno, .. } => Err(
                    spec_classify(kind.spec_operation(), self.pipeline.crtc, errno),
                ),
            },
        }
    }

    /// The surface after a commit of kind `kind` to which the kernel replied
    /// `reply`: the kernel's state is the pending one after a commit or a
    /// page flip that succeeded, and nothing changes otherwise.
    pub open spec fn after(self, planes: Seq<PlaneState>, kind: CommitKind, reply: KernelReply) -> AtomicSurfaceView {
        if kind.spec_applies() && self.outcome(planes, kind, reply) is Ok {
            AtomicSurfaceView { pipeline: self.pipeline.committed(), ..self }
        } else {
            self
        }
    }

    /// The call that disables the plane `plane`, or why none is made.
    pub open spec fn plan_clear(self, plane: u32) -> Result<KernelCallView, Error> {
        if !self.active {
            Err(Error::DeviceInactive)
        } else {
            Ok(
                KernelCallView::Atomic {
                    flags: 0,
                    properties: spec_clear_assignments(
                        plane,
                        spec_plane_properties(self.mapping.planes@, plane),
                    ),
                },
            )
        }
    }

    /// The entries of the request that switches the pipeline off: every
    /// connector that is attached at present is detached, the CRTC loses its
    /// mode and is switched off, and the primary plane is disabled.
    pub open spec fn disable_entries(self) -> Seq<PropertyAssignment> {
        spec_connector_assignments(
            ascending(self.pipeline.current.connectors),
            self.mapping.connectors@,
            0,
        ) + assign(self.pipeline.crtc, self.mapping.crtc.mode_id, PropertyValue::Raw(0)) + assign(
            self.pipeline.crtc,
            self.mapping.crtc.active,
            PropertyValue::Raw(0),
        ) + spec_clear_assignments(
            self.primary,
            spec_plane_properties(self.mapping.planes@, self.primary),
        )
    }

    /// The call that switches the pipeline off when the surface goes away;
    /// none on an inactive device.
    pub open spec fn plan_disable(self) -> Option<KernelCallView> {
        if !self.active {
            None
        } else {
            Some(
                KernelCallView::Atomic {
                    flags: ATOMIC_ALLOW_MODESET,
                    properties: self.disable_entries(),
                },
            )
        }
    }

    /// How disabling a plane ends when the kernel replies `reply`.
    pub open spec fn outcome_clear(self, reply: KernelReply) -> Result<(), Error> {
        if !self.active {
            Err(Error::DeviceInactive)
        } else {
            match reply {
                KernelReply::Done => Ok(()),
                KernelReply::Failed { errno, .. } => Err(
                    spec_classify(Operation::ClearPlane, self.pipeline.crtc, errno),
                ),
            }
        }
    }
}

/// A commit that succeeds leaves the two snapshots equal by value, and
/// nothing is pending after it.
pub proof fn lemma_atomic_commit_settles(
    s: AtomicSurfaceView,
    planes: Seq<PlaneState>,
    kind: CommitKind,
    reply: KernelReply,
)
    requires
        kind.spec_applies(),
        s.outcome(planes, kind, reply) is Ok,
    ensures
        s.after(planes, kind, reply).pipeline.current == s.after(
            planes,
            kind,
            reply,
        ).pipeline.pending,
        !s.after(planes, kind, reply).pipeline.commit_pending(),
{
}

/// A commit that fails changes nothing: the current snapshot is the one
/// from before.
pub proof fn lemma_atomic_failure_keeps(
    s: AtomicSurfaceView,
    planes: Seq<PlaneState>,
    kind: CommitKind,
    reply: KernelReply,
)
    requires
        s.outcome(planes, kind, reply) is Err,
    ensures
        s.after(planes, kind, reply) == s,
        s.after(planes, kind, reply).pipeline.current == s.pipeline.current,
{
}

/// A test never changes the surface, whatever the kernel replies.
pub proof fn lemma_atomic_test_keeps(
    s: AtomicSurfaceView,
    planes: Seq<PlaneState>,
    allow_modeset: bool,
    reply: KernelReply,
)
    ensures
        s.after(planes, CommitKind::Test { allow_modeset }, reply) == s,
{
}

/// The engine of a surface on the atomic kernel interface.
#[derive(Debug)]
pub struct AtomicDrmSurface {
    pipeline: Pipeline,
    primary: u32,
    active: bool,
    mapping: PropertyMapping,
}

impl View for AtomicDrmSurface {
    type V = AtomicSurfaceView;

    closed spec fn view(&self) -> AtomicSurfaceView {
        AtomicSurfaceView {
            pipeline: self.pipeline@,
            primary: self.primary,
            active: self.active,
            mapping: self.mapping,
        }
    }
}

impl AtomicDrmSurface {
    /// The representation invariant.
    pub closed spec fn wf(&self) -> bool {
        self.pipeline.wf()
    }

    /// The engine for `crtc` with the primary plane `primary`, on an active
    /// device whose CRTCs are `crtcs`. Both snapshots are what the kernel
    /// reports: the mode `mode` of the CRTC and the connectors of `infos`
    /// that are attached to it.
    pub fn new(
        crtc: u32,
        primary: u32,
        crtcs: Vec<u32>,
        mapping: PropertyMapping,
        mode: Option<Mode>,
        infos: &Vec<ConnectorInfo>,
    ) -> (s: AtomicDrmSurface)
        ensures
            s.wf(),
            s@.primary == primary,
            s@.active,
            s@.mapping == mapping,
            s@.pipeline.crtc == crtc,
            s@.pipeline.crtcs == crtcs@,
            s@.pipeline.current == crate::state::kernel_state(crtc, mode, infos@),
            s@.pipeline.pending == s@.pipeline.current,
    {
        AtomicDrmSurface {
            pipeline: Pipeline::new(crtc, crtcs, mode, infos),
            primary,
            active: true,
            mapping,
        }
    }

    /// The bookkeeping of the pipeline.
    pub fn pipeline(&self) -> (p: &Pipeline)
        requires
            self.wf(),
        ensures
            p.wf(),
            p@ == self@.pipeline,
    {
        &self.pipeline
    }

    /// Whether the device is active.
    pub fn is_active(&self) -> (b: bool)
        ensures
            b == self@.active,
    {
        self.active
    }

    /// Records whether the device is active.
    pub fn set_active(&mut self, active: bool)
        requires
            old(self).wf(),
        ensures
            final(self).wf(),
            final(self)@ == (AtomicSurfaceView { active, ..old(self)@ }),
    {
        self.active = active;
    }

    /// Adds a connector to the pending snapshot, if it can serve this CRTC
    /// in the pending mode.
    pub fn add_connector(&mut self, info: &ConnectorInfo) -> (res: Result<(), Error>)
        requires
            old(self).wf(),
        ensures
            final(self).wf(),
            match old(self)@.pipeline.add_connector(*info) {
                Ok(after) => res is Ok && final(self)@ == (
                AtomicSurfaceView { pipeline: after, ..old(self)@ }),
                Err(e) => res == Err::<(), Error>(e) && final(self)@ == old(self)@,
            },
    {
        self.pipeline.add_connector(info)
    }

    /// Takes a connector out of the pending snapshot. This cannot fail.
    pub fn remove_connector(&mut self, connector: u32) -> (res: Result<(), Error>)
        requires
            old(self).wf(),
        ensures
            final(self).wf(),
            res is Ok,
            final(self)@ == (
            AtomicSurfaceView {
                pipeline: old(self)@.pipeline.without_connector(connector),
                ..old(self)@
            }),
    {
        self.pipeline.remove_connector(connector);
        Ok(())
    }

    /// Replaces the pending connectors by those of `infos`, if each of them
    /// can serve this CRTC in the pending mode.
    pub fn set_connectors(&mut self, infos: &Vec<ConnectorInfo>) -> (res: Result<(), Error>)
        requires
            old(self).wf(),
        ensures
            final(self).wf(),
            match old(self)@.pipeline.set_connectors(infos@) {
                Ok(after) => res is Ok && final(self)@ == (
                AtomicSurfaceView { pipeline: after, ..old(self)@ }),
                Err(e) => res == Err::<(), Error>(e) && final(self)@ == old(self)@,
            },
    {
        self.pipeline.set_connectors(infos)
    }

    /// Chooses the pending mode, if `infos` shows that every pending
    /// connector advertises it.
    pub fn use_mode(&mut self, mode: Mode, infos: &Vec<ConnectorInfo>) -> (res: Result<(), Error>)
        requires
            old(self).wf(),
        ensures
            final(self).wf(),
            match old(self)@.pipeline.use_mode(mode, infos@) {
                Ok(after) => res is Ok && final(self)@ == (
                AtomicSurfaceView { pipeline: after, ..old(self)@ }),
                Err(e) => res == Err::<(), Error>(e) && final(self)@ == old(self)@,
            },
    {
        self.pipeline.use_mode(mode, infos)
    }

    /// Reads both snapshots from what the kernel reports.
    pub fn reset_state(&mut self, mode: Option<Mode>, infos: &Vec<ConnectorInfo>)
        requires
            old(self).wf(),
        ensures
            final(self).wf(),
            final(self)@ == (
            AtomicSurfaceView { pipeline: old(self)@.pipeline.reset(mode, infos@), ..old(self)@ }),
    {
        self.pipeline.reset_state(mode, infos);
    }

    /// What is wrong with the states `planes` for a commit, or nothing.
    pub fn validate_planes(&self, planes: &Vec<PlaneState>) -> (e: Option<Error>)
        requires
            self.wf(),
        ensures
            e == spec_validate_planes(self@.pipeline, self@.primary, planes@),
    {
        if self.pipeline.pending_is_disabled() {
            None
        } else if planes.len() == 0 {
            Some(Error::NoPlane)
        } else {
            match find_plane(planes, self.primary) {
                None => Some(Error::NonPrimaryPlane(planes[0].handle)),
                Some(state) => if state.config.is_none() {
                    Some(Error::NoFramebuffer(self.primary))
                } else {
                    None
                },
            }
        }
    }

    /// The call for a commit of kind `kind` with the planes in the states
    /// `planes`, or why none is made.
    pub fn plan(&self, planes: &Vec<PlaneState>, kind: CommitKind) -> (res: Result<
        KernelCall,
        Error,
    >)
        requires
            self.wf(),
        ensures
            match self@.plan(planes@, kind) {
                Ok(call) => res is Ok && res->Ok_0@ == call,
                Err(e) => res is Err && res->Err_0 == e,
            },
    {
        if !self.active {
            return Err(Error::DeviceInactive);
        }
        match self.validate_planes(planes) {
            Some(e) => Err(e),
            None => match build_request(&self.pipeline, &self.mapping, planes) {
                Err(e) => Err(e),
                Ok(properties) => Ok(KernelCall::Atomic { flags: kind.flags(), properties }),
            },
        }
    }

    /// How a commit of kind `kind` ends when the kernel replies `reply` to
    /// its call. The shadow state follows the kernel after a commit or a
    /// page flip that succeeded.
    pub fn complete(&mut self, planes: &Vec<PlaneState>, kind: CommitKind, reply: KernelReply) -> (res:
        Result<(), Error>)
        requires
            old(self).wf(),
        ensures
            final(self).wf(),
            res == old(self)@.outcome(planes@, kind, reply),
            final(self)@ == old(self)@.after(planes@, kind, reply),
    {
        match self.plan(planes, kind) {
            Err(e) => Err(e),
            Ok(_) => match reply {
                KernelReply::Done => {
                    match kind {
                        CommitKind::Test { .. } => {},
                        _ => {
                            self.pipeline.commit();
                        },
                    }
                    Ok(())
                },
                KernelReply::Failed { errno, .. } => Err(
                    classify(kind.operation(), self.pipeline.crtc(), errno),
                ),
            },
        }
    }

    /// The call that tests the pending snapshot with the planes in the
    /// states `planes`: an atomic commit that is only tested, and that may
    /// reconfigure the timing only if `allow_modeset` is set.
    pub fn test_state_request(&self, planes: &Vec<PlaneState>, allow_modeset: bool) -> (res: Result<
        KernelCall,
        Error,
    >)
        requires
            self.wf(),
        ensures
            match self@.plan(planes@, CommitKind::Test { allow_modeset }) {
                Ok(call) => res is Ok && res->Ok_0@ == call,
                Err(e) => res is Err && res->Err_0 == e,
            },
    {
        self.plan(planes, CommitKind::Test { allow_modeset })
    }

    /// How the test ends when the kernel replies `reply`. The surface is
    /// left as it is.
    pub fn test_state(&self, planes: &Vec<PlaneState>, allow_modeset: bool, reply: KernelReply) -> (res:
        Result<(), Error>)
        requires
            self.wf(),
        ensures
            res == self@.outcome(planes@, CommitKind::Test { allow_modeset }, reply),
    {
        let kind = CommitKind::Test { allow_modeset };
        match self.plan(planes, kind) {
            Err(e) => Err(e),
            Ok(_) => match reply {
                KernelReply::Done => Ok(()),
                KernelReply::Failed { errno, .. } => Err(
                    classify(kind.operation(), self.pipeline.crtc(), errno),
                ),
            },
        }
    }

    /// The call that commits the pending snapshot with the planes in the
    /// states `planes`: an atomic commit that may reconfigure the timing,
    /// with an event when it is done if `event` is set.
    pub fn commit_request(&self, planes: &Vec<PlaneState>, event: bool) -> (res: Result<
        KernelCall,
        Error,
    >)
        requires
            self.wf(),
        ensures
            match self@.plan(planes@, CommitKind::Commit { event }) {
                Ok(call) => res is Ok && res->Ok_0@ == call,
                Err(e) => res is Err && res->Err_0 == e,
            },
    {
        self.plan(planes, CommitKind::Commit { event })
    }

    /// How the commit ends when the kernel replies `reply`. On success the
    /// current snapshot becomes the pending one; on failure nothing changes.
    pub fn commit(&mut self, planes: &Vec<PlaneState>, event: bool, reply: KernelReply) -> (res:
        Result<(), Error>)
        requires
            old(self).wf(),
        ensures
            final(self).wf(),
            res == old(self)@.outcome(planes@, CommitKind::Commit { event }, reply),
            final(self)@ == old(self)@.after(planes@, CommitKind::Commit { event }, reply),
            res is Ok ==> final(self)@.pipeline.current == final(self)@.pipeline.pending
                && !final(self)@.pipeline.commit_pending(),
            res is Err ==> final(self)@ == old(self)@,
    {
        self.complete(planes, CommitKind::Commit { event }, reply)
    }

    /// The call that flips to the planes in the states `planes`: the commit
    /// of the pending snapshot without the right to reconfigure the timing.
    pub fn page_flip_request(&self, planes: &Vec<PlaneState>, event: bool) -> (res: Result<
        KernelCall,
        Error,
    >)
        requires
            self.wf(),
        ensures
            match self@.plan(planes@, CommitKind::PageFlip { event }) {
                Ok(call) => res is Ok && res->Ok_0@ == call,
                Err(e) => res is Err && res->Err_0 == e,
            },
    {
        self.plan(planes, CommitKind::PageFlip { event })
    }

    /// How the page flip ends when the kernel replies `reply`. On success
    /// the current snapshot becomes the pending one; on failure nothing
    /// changes.
    pub fn page_flip(&mut self, planes: &Vec<PlaneState>, event: bool, reply: KernelReply) -> (res:
        Result<(), Error>)
        requires
            old(self).wf(),
        ensures
            final(self).wf(),
            res == old(self)@.outcome(planes@, CommitKind::PageFlip { event }, reply),
            final(self)@ == old(self)@.after(planes@, CommitKind::PageFlip { event }, reply),
            res is Ok ==> final(self)@.pipeline.current == final(self)@.pipeline.pending
                && !final(self)@.pipeline.commit_pending(),
            res is Err ==> final(self)@ == old(self)@,
    {
        self.complete(planes, CommitKind::PageFlip { event }, reply)
    }

    /// The call that disables the plane `plane`: a commit that takes the
    /// CRTC and the framebuffer from this plane and touches nothing else.
    pub fn clear_plane_request(&self, plane: u32) -> (res: Result<KernelCall, Error>)
        ensures
            match self@.plan_clear(plane) {
                Ok(call) => res is Ok && res->Ok_0@ == call,
                Err(e) => res is Err && res->Err_0 == e,
            },
    {
        if !self.active {
            return Err(Error::DeviceInactive);
        }
        let mut properties: Vec<PropertyAssignment> = Vec::new();
        let props = self.mapping.plane_properties(plane);
        marshal_clear(&mut properties, plane, &props);
        assert(properties@ =~= spec_clear_assignments(plane, props));
        Ok(KernelCall::Atomic { flags: 0, properties })
    }

    /// The call that switches the pipeline off when the surface goes away;
    /// none on an inactive device.
    pub fn disable_request(&self) -> (res: Option<KernelCall>)
        requires
            self.wf(),
        ensures
            match self@.plan_disable() {
                Some(call) => res is Some && res->0@ == call,
                None => res is None,
            },
    {
        if !self.active {
            return None;
        }
        let crtc: u32 = self.pipeline.crtc();
        let mut properties: Vec<PropertyAssignment> = Vec::new();
        let attached = self.pipeline.current_connectors();
        proof {
            lemma_ascending(attached@);
        }
        marshal_connectors(&mut properties, &attached, &self.mapping, 0);
        let ghost connectors = properties@;
        assert(connectors =~= spec_connector_assignments(
            ascending(self@.pipeline.current.connectors),
            self.mapping.connectors@,
            0,
        ));
        push_assign(&mut properties, crtc, self.mapping.crtc.mode_id, PropertyValue::Raw(0));
        push_assign(&mut properties, crtc, self.mapping.crtc.active, PropertyValue::Raw(0));
        let props = self.mapping.plane_properties(self.primary);
        marshal_clear(&mut properties, self.primary, &props);
        assert(properties@ == self@.disable_entries());
        Some(KernelCall::Atomic { flags: ATOMIC_ALLOW_MODESET, properties })
    }

    /// How disabling a plane ends when the kernel replies `reply`.
    pub fn clear_plane(&self, plane: u32, reply: KernelReply) -> (res: Result<(), Error>)
        ensures
            res == self@.outcome_clear(reply),
    {
        if !self.active {
            return Err(Error::DeviceInactive);
        }
        match reply {
            KernelReply::Done => Ok(()),
            KernelReply::Failed { errno, .. } => Err(
                classify(Operation::ClearPlane, self.pipeline.crtc(), errno),
            ),
        }
    }
}

} // verus!
