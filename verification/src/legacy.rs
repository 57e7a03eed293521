//! The engine of a surface on the legacy kernel interface.
//!
//! The legacy interface shows one framebuffer on the primary plane, at the
//! origin of the CRTC, without crop, scale or transform.

use vstd::prelude::*;
use crate::atomic::CommitKind;
use crate::error::{classify, spec_classify, Error, Operation};
use crate::kernel::{calls_view, KernelCall, KernelCallView, KernelReply};
use crate::mode::Mode;
use crate::request::{ascending, lemma_ascending};
use crate::resources::ConnectorInfo;
use crate::state::{Pipeline, PipelineView};

verus! {

/// A legacy surface as a value.
pub struct LegacySurfaceView {
    pub pipeline: PipelineView,
    pub active: bool,
}

impl LegacySurfaceView {
    /// The modeset that shows `framebuffer` on the pending connectors in
    /// `mode`.
    pub open spec fn set_crtc(self, framebuffer: u32, mode: Mode) -> KernelCallView {
        KernelCallView::SetCrtc {
            crtc: self.pipeline.crtc,
            framebuffer: Some(framebuffer),
            connectors: ascending(self.pipeline.pending.connectors),
            mode: Some(mode),
        }
    }

    /// The page flip to `framebuffer`.
    pub open spec fn flip(self, framebuffer: u32, event: bool) -> KernelCallView {
        KernelCallView::PageFlip { crtc: self.pipeline.crtc, target: framebuffer, event }
    }

    /// The calls for the request `kind` with `framebuffer`, or why none is
    /// made.
    ///
    /// A test that may not reconfigure the timing makes no call, whatever
    /// the state of the device: the legacy interface cannot try a buffer
    /// without showing it. A test that may is a modeset to the pending mode. A
    /// commit is a modeset to the pending snapshot, followed by a page flip to
    /// the same framebuffer that asks for the event if one is wanted. A page
    /// flip is one call.
    pub open spec fn plan(self, framebuffer: u32, kind: CommitKind) -> Result<
        Seq<KernelCallView>,
        Error,
    > {
        match kind {
            CommitKind::Test { allow_modeset } => if !allow_modeset {
                Ok(Seq::empty())
            } else if !self.active {
                Err(Error::DeviceInactive)
            } else {
                Ok(seq![self.set_crtc(framebuffer, self.pipeline.pending.mode)])
            },
            CommitKind::Commit { event } => if !self.active {
                Err(Error::DeviceInactive)
            } else if event {
                Ok(
                    seq![
                        self.set_crtc(framebuffer, self.pipeline.pending.mode),
                        self.flip(framebuffer, true),
                    ],
                )
            } else {
                Ok(seq![self.set_crtc(framebuffer, self.pipeline.pending.mode)])
            },
            CommitKind::PageFlip { event } => if !self.active {
                Err(Error::DeviceInactive)
            } else {
                Ok(seq![self.flip(framebuffer, event)])
            },
        }
    }

    /// The call that switches the pipeline off when the surface goes away:
    /// a modeset without framebuffer, connectors and mode; none on an inactive
    /// device.
    pub open spec fn plan_disable(self) -> Option<KernelCallView> {
        if !self.active {
            None
        } else {
            Some(
                KernelCallView::SetCrtc {
                    crtc: self.pipeline.crtc,
                    framebuffer: None,
                    connectors: Seq::empty(),
                    mode: None,
                },
            )
        }
    }

    /// The call that tries `framebuffer` in `mode`: a real modeset on the
    /// pending connectors. None is made on an inactive device.
    pub open spec fn plan_test_buffer(self, framebuffer: u32, mode: Mode) -> Result<
        KernelCallView,
        Error,
    > {
        if !self.active {
            Err(Error::DeviceInactive)
        } else {
            Ok(self.set_crtc(framebuffer, mode))
        }
    }

    /// How trying a buffer ends when the kernel replies `reply`.
    pub open spec fn outcome_test_buffer(self, reply: KernelReply) -> Result<(), Error> {
        if !self.active {
            Err(Error::DeviceInactive)
        } else {
            match reply {
                KernelReply::Done => Ok(()),
                KernelReply::Failed { errno, .. } => Err(
                    spec_classify(Operation::TestBuffer, self.pipeline.crtc, errno),
                ),
            }
        }
    }

    /// The label of the call at index `step` of the request `kind`.
    pub open spec fn operation(kind: CommitKind, step: usize) -> Operation {
        match kind {
            CommitKind::Test { .. } => Operation::TestBuffer,
            CommitKind::Commit { event } => if event && step > 0 {
                Operation::VblankRequest
            } else {
                Operation::SetCrtc
            },
            CommitKind::PageFlip { .. } => Operation::PageFlip,
        }
    }

    /// How the request `kind` ends when the kernel replies `reply` to its
    /// calls. Where no call is made the reply does not matter.
    pub open spec fn outcome(self, framebuffer: u32, kind: CommitKind, reply: KernelReply) -> Result<
        (),
        Error,
    > {
        match self.plan(framebuffer, kind) {
            Err(e) => Err(e),
            Ok(calls) => match reply {
                KernelReply::Done => Ok(()),
                KernelReply::Failed { step, errno } => if calls.len() == 0 {
                    Ok(())
                } else {
                    Err(spec_classify(Self::operation(kind, step), self.pipeline.crtc, errno))
                },
            },
        }
    }

    /// Whether the modeset of a commit took place: the device is active and
    /// the reply does not say that the first call failed.
    pub open spec fn modeset_done(self, kind: CommitKind, reply: KernelReply) -> bool {
        kind matches CommitKind::Commit { event } && self.active && match reply {
            KernelReply::Done => true,
            KernelReply::Failed { step, .. } => event && step > 0,
        }
    }

    /// The surface after the request `kind` to which the kernel replied
    /// `reply`: the kernel's state is the pending one once the modeset of a
    /// commit took place, and nothing changes otherwise.
    pub open spec fn after(self, kind: CommitKind, reply: KernelReply) -> LegacySurfaceView {
        if self.modeset_done(kind, reply) {
            LegacySurfaceView { pipeline: self.pipeline.committed(), ..self }
        } else {
            self
        }
    }
}

/// A commit that succeeds leaves the two snapshots equal by value, and
/// nothing is pending after it.
pub proof fn lemma_legacy_commit_settles(
    s: LegacySurfaceView,
    framebuffer: u32,
    event: bool,
    reply: KernelReply,
)
    requires
        s.outcome(framebuffer, CommitKind::Commit { event }, reply) is Ok,
    ensures
        s.after(CommitKind::Commit { event }, reply).pipeline.current == s.after(
            CommitKind::Commit { event },
            reply,
        ).pipeline.pending,
        !s.after(CommitKind::Commit { event }, reply).pipeline.commit_pending(),
{
}

/// A request that fails before or in its first call changes nothing: the
/// current snapshot is the one from before. (A commit whose modeset took
/// place and whose request for the event failed has changed the kernel's
/// state, and the shadow state with it.)
pub proof fn lemma_legacy_failure_keeps(
    s: LegacySurfaceView,
    framebuffer: u32,
    kind: CommitKind,
    reply: KernelReply,
)
    requires
        s.outcome(framebuffer, kind, reply) is Err,
        !s.modeset_done(kind, reply),
    ensures
        s.after(kind, reply) == s,
        s.after(kind, reply).pipeline.current == s.pipeline.current,
{
}

/// A commit fails after its modeset took place only if the event was asked
/// for and the call that asks for it failed.
pub proof fn lemma_legacy_late_failure(
    s: LegacySurfaceView,
    framebuffer: u32,
    kind: CommitKind,
    reply: KernelReply,
)
    requires
        s.outcome(framebuffer, kind, reply) is Err,
        s.modeset_done(kind, reply),
    ensures
        kind == (CommitKind::Commit { event: true }),
        reply matches KernelReply::Failed { step, .. } && step > 0,
{
}

/// The engine of a surface on the legacy kernel interface.
#[derive(Debug)]
pub struct LegacyDrmSurface {
    pipeline: Pipeline,
    active: bool,
}

impl View for LegacyDrmSurface {
    type V = LegacySurfaceView;

    closed spec fn view(&self) -> LegacySurfaceView {
        LegacySurfaceView { pipeline: self.pipeline@, active: self.active }
    }
}

impl LegacyDrmSurface {
    /// The representation invariant.
    pub closed spec fn wf(&self) -> bool {
        self.pipeline.wf()
    }

    /// The engine for `crtc` on an active device whose CRTCs are `crtcs`.
    /// Both snapshots are what the kernel reports.
    pub fn new(crtc: u32, crtcs: Vec<u32>, mode: Option<Mode>, infos: &Vec<ConnectorInfo>) -> (s:
        LegacyDrmSurface)
        ensures
            s.wf(),
            s@.active,
            s@.pipeline.crtc == crtc,
            s@.pipeline.crtcs == crtcs@,
            s@.pipeline.current == crate::state::kernel_state(crtc, mode, infos@),
            s@.pipeline.pending == s@.pipeline.current,
    {
        LegacyDrmSurface { pipeline: Pipeline::new(crtc, crtcs, mode, infos), active: true }
    }

    /// The bookkeeping of the pipeline.
    pub fn pipeline(&self) -> (p: &Pipeline)
        requires
            self.wf(),
        ensures
            p.wf(),
            p@ == self@.pipeline,
    {
        &self.pipeline
    }

    /// Whether the device is active.
    pub fn is_active(&self) -> (b: bool)
        ensures
            b == self@.active,
    {
        self.active
    }

    /// Records whether the device is active.
    pub fn set_active(&mut self, active: bool)
        requires
            old(self).wf(),
        ensures
            final(self).wf(),
            final(self)@ == (LegacySurfaceView { active, ..old(self)@ }),
    {
        self.active = active;
    }

    /// Adds a connector to the pending snapshot, if it can serve this CRTC
    /// in the pending mode.
    pub fn add_connector(&mut self, info: &ConnectorInfo) -> (res: Result<(), Error>)
        requires
            old(self).wf(),
        ensures
            final(self).wf(),
            match old(self)@.pipeline.add_connector(*info) {
                Ok(after) => res is Ok && final(self)@ == (
                LegacySurfaceView { pipeline: after, ..old(self)@ }),
                Err(e) => res == Err::<(), Error>(e) && final(self)@ == old(self)@,
            },
    {
        self.pipeline.add_connector(info)
    }

    /// Takes a connector out of the pending snapshot. This cannot fail.
    pub fn remove_connector(&mut self, connector: u32) -> (res: Result<(), Error>)
        requires
            old(self).wf(),
        ensures
            final(self).wf(),
            res is Ok,
            final(self)@ == (
            LegacySurfaceView {
                pipeline: old(self)@.pipeline.without_connector(connector),
                ..old(self)@
            }),
    {
        self.pipeline.remove_connector(connector);
        Ok(())
    }

    /// Replaces the pending connectors by those of `infos`, if each of them
    /// can serve this CRTC in the pending mode.
    pub fn set_connectors(&mut self, infos: &Vec<ConnectorInfo>) -> (res: Result<(), Error>)
        requires
            old(self).wf(),
        ensures
            final(self).wf(),
            match old(self)@.pipeline.set_connectors(infos@) {
                Ok(after) => res is Ok && final(self)@ == (
                LegacySurfaceView { pipeline: after, ..old(self)@ }),
                Err(e) => res == Err::<(), Error>(e) && final(self)@ == old(self)@,
            },
    {
        self.pipeline.set_connectors(infos)
    }

    /// Chooses the pending mode, if `infos` shows that every pending
    /// connector advertises it.
    pub fn use_mode(&mut self, mode: Mode, infos: &Vec<ConnectorInfo>) -> (res: Result<(), Error>)
        requires
            old(self).wf(),
        ensures
            final(self).wf(),
            match old(self)@.pipeline.use_mode(mode, infos@) {
                Ok(after) => res is Ok && final(self)@ == (
                LegacySurfaceView { pipeline: after, ..old(self)@ }),
                Err(e) => res == Err::<(), Error>(e) && final(self)@ == old(self)@,
            },
    {
        self.pipeline.use_mode(mode, infos)
    }

    /// Reads both snapshots from what the kernel reports.
    pub fn reset_state(&mut self, mode: Option<Mode>, infos: &Vec<ConnectorInfo>)
        requires
            old(self).wf(),
        ensures
            final(self).wf(),
            final(self)@ == (
            LegacySurfaceView { pipeline: old(self)@.pipeline.reset(mode, infos@), ..old(self)@ }),
    {
        self.pipeline.reset_state(mode, infos);
    }

    /// The modeset that shows `framebuffer` on the pending connectors in
    /// `mode`.
    fn set_crtc_call(&self, framebuffer: u32, mode: Mode) -> (call: KernelCall)
        requires
            self.wf(),
        ensures
            call@ == self@.set_crtc(framebuffer, mode),
    {
        let connectors = self.pipeline.pending_connectors();
        proof {
            lemma_ascending(connectors@);
        }
        KernelCall::SetCrtc {
            crtc: self.pipeline.crtc(),
            framebuffer: Some(framebuffer),
            connectors,
            mode: Some(mode),
        }
    }

    /// The calls for the request `kind` with `framebuffer`, or why none is
    /// made.
    pub fn plan(&self, framebuffer: u32, kind: CommitKind) -> (res: Result<Vec<KernelCall>, Error>)
        requires
            self.wf(),
        ensures
            match self@.plan(framebuffer, kind) {
                Ok(calls) => res is Ok && calls_view(res->Ok_0@) == calls,
                Err(e) => res is Err && res->Err_0 == e,
            },
    {
        let mut calls: Vec<KernelCall> = Vec::new();
        match kind {
            CommitKind::Test { allow_modeset } => {
                if allow_modeset {
                    if !self.active {
                        return Err(Error::DeviceInactive);
                    }
                    calls.push(self.set_crtc_call(framebuffer, self.pipeline.pending_mode()));
                }
            },
            CommitKind::Commit { event } => {
                if !self.active {
                    return Err(Error::DeviceInactive);
                }
                calls.push(self.set_crtc_call(framebuffer, self.pipeline.pending_mode()));
                if event {
                    calls.push(
                        KernelCall::PageFlip {
                            crtc: self.pipeline.crtc(),
                            target: framebuffer,
                            event: true,
                        },
                    );
                }
            },
            CommitKind::PageFlip { event } => {
                if !self.active {
                    return Err(Error::DeviceInactive);
                }
                calls.push(
                    KernelCall::PageFlip { crtc: self.pipeline.crtc(), target: framebuffer, event },
                );
            },
        }
        assert(calls_view(calls@) =~= self@.plan(framebuffer, kind)->Ok_0);
        Ok(calls)
    }

    /// The calls that commit the pending snapshot with `framebuffer`: a
    /// modeset, followed by the request for the event if `event` is set.
    pub fn commit_request(&self, framebuffer: u32, event: bool) -> (res: Result<
        Vec<KernelCall>,
        Error,
    >)
        requires
            self.wf(),
        ensures
            match self@.plan(framebuffer, CommitKind::Commit { event }) {
                Ok(calls) => res is Ok && calls_view(res->Ok_0@) == calls,
                Err(e) => res is Err && res->Err_0 == e,
            },
    {
        self.plan(framebuffer, CommitKind::Commit { event })
    }

    /// How the commit ends when the kernel replies `reply`. The current
    /// snapshot becomes the pending one once the modeset took place.
    pub fn commit(&mut self, framebuffer: u32, event: bool, reply: KernelReply) -> (res: Result<
        (),
        Error,
    >)
        requires
            old(self).wf(),
        ensures
            final(self).wf(),
            res == old(self)@.outcome(framebuffer, CommitKind::Commit { event }, reply),
            final(self)@ == old(self)@.after(CommitKind::Commit { event }, reply),
            res is Ok ==> final(self)@.pipeline.current == final(self)@.pipeline.pending,
    {
        self.complete(framebuffer, CommitKind::Commit { event }, reply)
    }

    /// The call that tries `framebuffer` in `mode`: a real modeset on the
    /// pending connectors, which shows the buffer.
    pub fn test_buffer_request(&self, framebuffer: u32, mode: &Mode) -> (res: Result<
        KernelCall,
        Error,
    >)
        requires
            self.wf(),
        ensures
            match self@.plan_test_buffer(framebuffer, *mode) {
                Ok(call) => res is Ok && res->Ok_0@ == call,
                Err(e) => res is Err && res->Err_0 == e,
            },
    {
        if !self.active {
            return Err(Error::DeviceInactive);
        }
        Ok(self.set_crtc_call(framebuffer, *mode))
    }

    /// How trying a buffer ends when the kernel replies `reply`. The
    /// snapshots are left as they are.
    pub fn test_buffer(&self, reply: KernelReply) -> (res: Result<(), Error>)
        ensures
            res == self@.outcome_test_buffer(reply),
    {
        if !self.active {
            return Err(Error::DeviceInactive);
        }
        match reply {
            KernelReply::Done => Ok(()),
            KernelReply::Failed { errno, .. } => Err(
                classify(Operation::TestBuffer, self.pipeline.crtc(), errno),
            ),
        }
    }

    /// The call that flips to `framebuffer`, with an event when it is done
    /// if `event` is set.
    pub fn page_flip_request(&self, framebuffer: u32, event: bool) -> (res: Result<
        Vec<KernelCall>,
        Error,
    >)
        requires
            self.wf(),
        ensures
            match self@.plan(framebuffer, CommitKind::PageFlip { event }) {
                Ok(calls) => res is Ok && calls_view(res->Ok_0@) == calls,
                Err(e) => res is Err && res->Err_0 == e,
            },
    {
        self.plan(framebuffer, CommitKind::PageFlip { event })
    }

    /// How the page flip ends when the kernel replies `reply`. The
    /// snapshots are left as they are.
    pub fn page_flip(&self, framebuffer: u32, event: bool, reply: KernelReply) -> (res: Result<
        (),
        Error,
    >)
        ensures
            res == self@.outcome(framebuffer, CommitKind::PageFlip { event }, reply),
    {
        if !self.active {
            return Err(Error::DeviceInactive);
        }
        match reply {
            KernelReply::Done => Ok(()),
            KernelReply::Failed { errno, .. } => Err(
                classify(Operation::PageFlip, self.pipeline.crtc(), errno),
            ),
        }
    }

    /// The call that switches the pipeline off when the surface goes away;
    /// none on an inactive device.
    pub fn disable_request(&self) -> (res: Option<KernelCall>)
        ensures
            match self@.plan_disable() {
                Some(call) => res is Some && res->0@ == call,
                None => res is None,
            },
    {
        if !self.active {
            return None;
        }
        Some(
            KernelCall::SetCrtc {
                crtc: self.pipeline.crtc(),
                framebuffer: None,
                connectors: Vec::new(),
                mode: None,
            },
        )
    }

    /// How the request `kind` ends when the kernel replies `reply` to its
    /// calls. The shadow state follows the kernel once the modeset of a
    /// commit took place.
    pub fn complete(&mut self, framebuffer: u32, kind: CommitKind, reply: KernelReply) -> (res:
        Result<(), Error>)
        requires
            old(self).wf(),
        ensures
            final(self).wf(),
            res == old(self)@.outcome(framebuffer, kind, reply),
            final(self)@ == old(self)@.after(kind, reply),
    {
        let crtc: u32 = self.pipeline.crtc();
        match kind {
            CommitKind::Test { allow_modeset } => {
                if !allow_modeset {
                    return Ok(());
                }
                if !self.active {
                    return Err(Error::DeviceInactive);
                }
                match reply {
                    KernelReply::Done => Ok(()),
                    KernelReply::Failed { errno, .. } => Err(
                        classify(Operation::TestBuffer, crtc, errno),
                    ),
                }
            },
            CommitKind::Commit { event } => {
                if !self.active {
                    return Err(Error::DeviceInactive);
                }
                match reply {
                    KernelReply::Done => {
                        self.pipeline.commit();
                        Ok(())
                    },
                    KernelReply::Failed { step, errno } => {
                        if event && step > 0 {
                            self.pipeline.commit();
                            Err(classify(Operation::VblankRequest, crtc, errno))
                        } else {
                            Err(classify(Operation::SetCrtc, crtc, errno))
                        }
                    },
                }
            },
            CommitKind::PageFlip { event } => {
                if !self.active {
                    return Err(Error::DeviceInactive);
                }
                match reply {
                    KernelReply::Done => Ok(()),
                    KernelReply::Failed { errno, .. } => Err(
                        classify(Operation::PageFlip, crtc, errno),
                    ),
                }
            },
        }
    }
}

} // verus!
