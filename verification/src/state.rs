//! The shadow of a display pipeline: what the kernel scans out at present and
//! what the next commit asks for.

use vstd::prelude::*;
use crate::connectors::{strictly_increasing, ConnectorSet};
use crate::error::Error;
use crate::mode::Mode;
use crate::resources::{
    bound_connectors, check_connector, connector_supports, connector_supports_mode,
    first_rejection, handles_of, spec_check_connector, spec_first_rejection, ConnectorInfo,
};

verus! {

/// One snapshot of a pipeline: a mode and the connectors attached to the
/// CRTC. Without connectors the pipeline is disabled.
#[derive(Debug)]
pub struct State {
    pub mode: Mode,
    pub connectors: ConnectorSet,
}

/// A snapshot as a value: two snapshots are equal exactly if their modes and
/// their sets of connectors are.
#[verifier::ext_equal]
pub struct StateView {
    pub mode: Mode,
    pub connectors: Set<u32>,
}

impl View for State {
    type V = StateView;

    open spec fn view(&self) -> StateView {
        StateView { mode: self.mode, connectors: self.connectors@ }
    }
}

impl State {
    /// The representation invariant.
    pub open spec fn wf(&self) -> bool {
        self.connectors.wf()
    }

    /// A copy of this snapshot.
    pub fn copy(&self) -> (s: State)
        requires
            self.wf(),
        ensures
            s.wf(),
            s@ == self@,
    {
        State { mode: self.mode, connectors: self.connectors.copy() }
    }

    /// Whether the two snapshots are equal by value.
    pub fn equals(&self, other: &State) -> (b: bool)
        requires
            self.wf(),
            other.wf(),
        ensures
            b == (self@ == other@),
    {
        self.mode == other.mode && self.connectors.equals(&other.connectors)
    }
}

/// A pipeline as a value: the CRTC, the CRTCs of its device in the kernel's
/// order, and the two snapshots.
#[verifier::ext_equal]
pub struct PipelineView {
    pub crtc: u32,
    pub crtcs: Seq<u32>,
    pub current: StateView,
    pub pending: StateView,
}

/// Whether `infos` describes every connector of `connectors` as one that
/// advertises `mode`.
pub open spec fn mode_fits(connectors: Set<u32>, infos: Seq<ConnectorInfo>, mode: Mode) -> bool {
    forall|c: u32| connectors.contains(c) ==> #[trigger] connector_supports(infos, c, mode)
}

/// The snapshot that the kernel reports: the mode of the CRTC, or the zero
/// mode where it has none, and the connectors attached to it.
pub open spec fn kernel_state(crtc: u32, mode: Option<Mode>, infos: Seq<ConnectorInfo>) -> StateView {
    StateView {
        mode: match mode {
            Some(m) => m,
            None => Mode::spec_zeroed(),
        },
        connectors: bound_connectors(infos, crtc),
    }
}

impl PipelineView {
    /// Whether a commit would change anything: the snapshots differ.
    pub open spec fn commit_pending(self) -> bool {
        self.pending != self.current
    }

    /// The pipeline with `c` among the pending connectors.
    pub open spec fn with_connector(self, c: u32) -> PipelineView {
        PipelineView {
            pending: StateView { connectors: self.pending.connectors.insert(c), ..self.pending },
            ..self
        }
    }

    /// The pipeline without `c` among the pending connectors.
    pub open spec fn without_connector(self, c: u32) -> PipelineView {
        PipelineView {
            pending: StateView { connectors: self.pending.connectors.remove(c), ..self.pending },
            ..self
        }
    }

    /// The pipeline with exactly `connectors` pending.
    pub open spec fn with_connectors(self, connectors: Set<u32>) -> PipelineView {
        PipelineView { pending: StateView { connectors, ..self.pending }, ..self }
    }

    /// The pipeline with the pending mode `mode`.
    pub open spec fn with_mode(self, mode: Mode) -> PipelineView {
        PipelineView { pending: StateView { mode, ..self.pending }, ..self }
    }

    /// The pipeline after the kernel took over the pending snapshot.
    pub open spec fn committed(self) -> PipelineView {
        PipelineView { current: self.pending, ..self }
    }

    /// The pipeline with both snapshots read from the kernel.
    pub open spec fn reset(self, mode: Option<Mode>, infos: Seq<ConnectorInfo>) -> PipelineView {
        let state = kernel_state(self.crtc, mode, infos);
        PipelineView { current: state, pending: state, ..self }
    }

    /// What adding the connector `info` gives: the pipeline with it, or why
    /// it cannot serve this CRTC in the pending mode.
    pub open spec fn add_connector(self, info: ConnectorInfo) -> Result<PipelineView, Error> {
        match spec_check_connector(info, self.crtcs, self.crtc, self.pending.mode) {
            Some(e) => Err(e),
            None => Ok(self.with_connector(info.handle)),
        }
    }

    /// What replacing the pending connectors by those of `infos` gives: the
    /// pipeline with them, or why the first one that cannot serve cannot.
    pub open spec fn set_connectors(self, infos: Seq<ConnectorInfo>) -> Result<PipelineView, Error> {
        match spec_first_rejection(infos, self.crtcs, self.crtc, self.pending.mode) {
            Some(e) => Err(e),
            None => Ok(self.with_connectors(handles_of(infos))),
        }
    }

    /// What choosing `mode` gives: the pipeline with it, or a failure where
    /// `infos` does not show that every pending connector advertises it.
    pub open spec fn use_mode(self, mode: Mode, infos: Seq<ConnectorInfo>) -> Result<
        PipelineView,
        Error,
    > {
        if mode_fits(self.pending.connectors, infos, mode) {
            Ok(self.with_mode(mode))
        } else {
            Err(Error::ModeNotSuitable(mode))
        }
    }
}

/// After a commit the snapshots are equal by value and nothing is pending.
pub proof fn lemma_commit_settles(v: PipelineView)
    ensures
        v.committed().current == v.committed().pending,
        !v.committed().commit_pending(),
        v.committed().pending == v.pending,
{
}

/// Adding a connector that was not pending and removing it again restores
/// the pending connectors, and with them the whole pipeline.
pub proof fn lemma_add_remove_restores(v: PipelineView, info: ConnectorInfo)
    requires
        !v.pending.connectors.contains(info.handle),
        v.add_connector(info) is Ok,
    ensures
        v.add_connector(info)->Ok_0.without_connector(info.handle).pending.connectors
            == v.pending.connectors,
        v.add_connector(info)->Ok_0.without_connector(info.handle) == v,
{
    let added = v.add_connector(info)->Ok_0;
    let back = added.without_connector(info.handle);
    assert(back.pending.connectors =~= v.pending.connectors);
    assert(back =~= v);
}

/// Removing a connector is idempotent.
pub proof fn lemma_remove_idempotent(v: PipelineView, c: u32)
    ensures
        v.without_connector(c).without_connector(c) == v.without_connector(c),
{
    let once = v.without_connector(c);
    assert(once.without_connector(c).pending.connectors =~= once.pending.connectors);
    assert(once.without_connector(c) =~= once);
}

/// Replacing the pending connectors twice by the same connectors is the same
/// as doing it once: the second call succeeds, changes nothing, and leaves
/// the answer to "is a commit pending" as it was.
pub proof fn lemma_set_connectors_twice(v: PipelineView, infos: Seq<ConnectorInfo>)
    requires
        v.set_connectors(infos) is Ok,
    ensures
        v.set_connectors(infos)->Ok_0.set_connectors(infos) == v.set_connectors(infos),
        v.set_connectors(infos)->Ok_0.set_connectors(infos)->Ok_0.commit_pending()
            == v.set_connectors(infos)->Ok_0.commit_pending(),
{
    let once = v.set_connectors(infos)->Ok_0;
    let twice = once.set_connectors(infos);
    assert(twice is Ok);
    assert(twice->Ok_0 =~= once);
}

/// Reading the state from the kernel twice, while the kernel reports the
/// same, is the same as reading it once.
pub proof fn lemma_reset_idempotent(v: PipelineView, mode: Option<Mode>, infos: Seq<ConnectorInfo>)
    ensures
        v.reset(mode, infos).reset(mode, infos) == v.reset(mode, infos),
        !v.reset(mode, infos).commit_pending(),
{
}

/// The bookkeeping of a pipeline, shared by both engines.
#[derive(Debug)]
pub struct Pipeline {
    crtc: u32,
    crtcs: Vec<u32>,
    current: State,
    pending: State,
}

impl View for Pipeline {
    type V = PipelineView;

    closed spec fn view(&self) -> PipelineView {
        PipelineView {
            crtc: self.crtc,
            crtcs: self.crtcs@,
            current: self.current@,
            pending: self.pending@,
        }
    }
}

/// The set of the connectors of `infos` that are attached to `crtc`.
pub fn connectors_of_crtc(infos: &Vec<ConnectorInfo>, crtc: u32) -> (set: ConnectorSet)
    ensures
        set.wf(),
        set@ == bound_connectors(infos@, crtc),
{
    let mut set = ConnectorSet::new();
    let mut i: usize = 0;
    assert(set@ =~= bound_connectors(infos@.take(0), crtc));
    while i < infos.len()
        invariant
            i <= infos@.len(),
            set.wf(),
            set@ == bound_connectors(infos@.take(i as int), crtc),
        decreases infos@.len() - i,
    {
        let bound: bool = match infos[i].current_crtc {
            Some(c) => c == crtc,
            None => false,
        };
        let ghost before = set@;
        if bound {
            set.insert(infos[i].handle);
        }
        proof {
            let prev = infos@.take(i as int);
            let next = infos@.take(i + 1);
            assert forall|c: u32| set@.contains(c) == bound_connectors(next, crtc).contains(c) by {
                if bound_connectors(next, crtc).contains(c) {
                    let k = choose|k: int|
                        0 <= k < next.len() && (#[trigger] next[k]).handle == c
                            && next[k].current_crtc == Some(crtc);
                    if k < i {
                        assert(prev[k].handle == c && prev[k].current_crtc == Some(crtc));
                        assert(bound_connectors(prev, crtc).contains(c));
                    }
                }
                if before.contains(c) {
                    let k = choose|k: int|
                        0 <= k < prev.len() && (#[trigger] prev[k]).handle == c
                            && prev[k].current_crtc == Some(crtc);
                    assert(next[k].handle == c && next[k].current_crtc == Some(crtc));
                }
                if bound && c == infos@[i as int].handle {
                    assert(next[i as int].handle == c && next[i as int].current_crtc == Some(
                        crtc,
                    ));
                }
            }
            assert(set@ =~= bound_connectors(next, crtc));
        }
        i = i + 1;
    }
    assert(infos@.take(i as int) =~= infos@);
    set
}

/// The set of the identifiers of the connectors of `infos`.
pub fn connectors_of(infos: &Vec<ConnectorInfo>) -> (set: ConnectorSet)
    ensures
        set.wf(),
        set@ == handles_of(infos@),
{
    let mut set = ConnectorSet::new();
    let mut i: usize = 0;
    assert(set@ =~= handles_of(infos@.take(0)));
    while i < infos.len()
        invariant
            i <= infos@.len(),
            set.wf(),
            set@ == handles_of(infos@.take(i as int)),
        decreases infos@.len() - i,
    {
        let ghost before = set@;
        set.insert(infos[i].handle);
        proof {
            let prev = infos@.take(i as int);
            let next = infos@.take(i + 1);
            assert forall|c: u32| set@.contains(c) == handles_of(next).contains(c) by {
                if handles_of(next).contains(c) {
                    let k = choose|k: int| 0 <= k < next.len() && (#[trigger] next[k]).handle == c;
                    if k < i {
                        assert(prev[k].handle == c);
                        assert(handles_of(prev).contains(c));
                    }
                }
                if before.contains(c) {
                    let k = choose|k: int| 0 <= k < prev.len() && (#[trigger] prev[k]).handle == c;
                    assert(next[k].handle == c);
                }
                if c == infos@[i as int].handle {
                    assert(next[i as int].handle == c);
                }
            }
            assert(set@ =~= handles_of(next));
        }
        i = i + 1;
    }
    assert(infos@.take(i as int) =~= infos@);
    set
}

impl Pipeline {
    /// The representation invariant.
    pub closed spec fn wf(&self) -> bool {
        self.current.wf() && self.pending.wf()
    }

    /// The pipeline of `crtc` on a device whose CRTCs are `crtcs`, with both
    /// snapshots as the kernel reports them.
    pub fn new(crtc: u32, crtcs: Vec<u32>, mode: Option<Mode>, infos: &Vec<ConnectorInfo>) -> (p:
        Pipeline)
        ensures
            p.wf(),
            p@.crtc == crtc,
            p@.crtcs == crtcs@,
            p@.current == kernel_state(crtc, mode, infos@),
            p@.pending == kernel_state(crtc, mode, infos@),
    {
        let connectors = connectors_of_crtc(infos, crtc);
        let current = State {
            mode: match mode {
                Some(m) => m,
                None => Mode::zeroed(),
            },
            connectors,
        };
        let pending = current.copy();
        Pipeline { crtc, crtcs, current, pending }
    }

    /// The CRTC of the pipeline.
    pub fn crtc(&self) -> (c: u32)
        ensures
            c == self@.crtc,
    {
        self.crtc
    }

    /// The CRTCs of the device, in the kernel's order.
    pub fn crtcs(&self) -> (c: &Vec<u32>)
        ensures
            c@ == self@.crtcs,
    {
        &self.crtcs
    }

    /// The connectors that the kernel scans out to, in ascending order.
    pub fn current_connectors(&self) -> (v: Vec<u32>)
        requires
            self.wf(),
        ensures
            v@.to_set() == self@.current.connectors,
            strictly_increasing(v@),
            v@.no_duplicates(),
    {
        let v = self.current.connectors.to_vec();
        v
    }

    /// The connectors that the next commit asks for, in ascending order.
    pub fn pending_connectors(&self) -> (v: Vec<u32>)
        requires
            self.wf(),
        ensures
            v@.to_set() == self@.pending.connectors,
            strictly_increasing(v@),
            v@.no_duplicates(),
    {
        let v = self.pending.connectors.to_vec();
        v
    }

    /// The connectors that are attached at present and that the next commit
    /// detaches, in ascending order.
    pub fn removed_connectors(&self) -> (v: Vec<u32>)
        requires
            self.wf(),
        ensures
            v@.to_set() == self@.current.connectors.difference(self@.pending.connectors),
            strictly_increasing(v@),
            v@.no_duplicates(),
    {
        let v = self.current.connectors.difference(&self.pending.connectors);
        v
    }

    /// Whether the next commit asks for no connector at all.
    pub fn pending_is_disabled(&self) -> (b: bool)
        requires
            self.wf(),
        ensures
            b == (self@.pending.connectors == Set::<u32>::empty()),
    {
        self.pending.connectors.is_empty()
    }

    /// The mode that the kernel scans out.
    pub fn current_mode(&self) -> (m: Mode)
        ensures
            m == self@.current.mode,
    {
        self.current.mode
    }

    /// The mode that the next commit asks for.
    pub fn pending_mode(&self) -> (m: Mode)
        ensures
            m == self@.pending.mode,
    {
        self.pending.mode
    }

    /// Whether a commit would change anything.
    pub fn commit_pending(&self) -> (b: bool)
        requires
            self.wf(),
        ensures
            b == self@.commit_pending(),
    {
        !self.pending.equals(&self.current)
    }

    /// Adds a connector to the pending snapshot, if it can serve this CRTC
    /// in the pending mode.
    pub fn add_connector(&mut self, info: &ConnectorInfo) -> (res: Result<(), Error>)
        requires
            old(self).wf(),
        ensures
            final(self).wf(),
            match old(self)@.add_connector(*info) {
                Ok(after) => res is Ok && final(self)@ == after,
                Err(e) => res == Err::<(), Error>(e) && final(self)@ == old(self)@,
            },
    {
        match check_connector(info, &self.crtcs, self.crtc, &self.pending.mode) {
            Some(e) => Err(e),
            None => {
                self.pending.connectors.insert(info.handle);
                Ok(())
            },
        }
    }

    /// Takes a connector out of the pending snapshot.
    pub fn remove_connector(&mut self, connector: u32)
        requires
            old(self).wf(),
        ensures
            final(self).wf(),
            final(self)@ == old(self)@.without_connector(connector),
    {
        self.pending.connectors.remove(connector);
    }

    /// Replaces the pending connectors by those of `infos`, if each of them
    /// can serve this CRTC in the pending mode.
    pub fn set_connectors(&mut self, infos: &Vec<ConnectorInfo>) -> (res: Result<(), Error>)
        requires
            old(self).wf(),
        ensures
            final(self).wf(),
            match old(self)@.set_connectors(infos@) {
                Ok(after) => res is Ok && final(self)@ == after,
                Err(e) => res == Err::<(), Error>(e) && final(self)@ == old(self)@,
            },
    {
        match first_rejection(infos, &self.crtcs, self.crtc, &self.pending.mode) {
            Some(e) => Err(e),
            None => {
                self.pending.connectors = connectors_of(infos);
                Ok(())
            },
        }
    }

    /// Chooses the pending mode, if `infos` shows that every pending
    /// connector advertises it.
    pub fn use_mode(&mut self, mode: Mode, infos: &Vec<ConnectorInfo>) -> (res: Result<(), Error>)
        requires
            old(self).wf(),
        ensures
            final(self).wf(),
            match old(self)@.use_mode(mode, infos@) {
                Ok(after) => res is Ok && final(self)@ == after,
                Err(e) => res == Err::<(), Error>(e) && final(self)@ == old(self)@,
            },
    {
        let pending = self.pending.connectors.to_vec();
        let mut i: usize = 0;
        while i < pending.len()
            invariant
                i <= pending@.len(),
                self.wf(),
                *self == *old(self),
                pending@.to_set() == self@.pending.connectors,
                forall|k: int|
                    0 <= k < i ==> connector_supports(infos@, #[trigger] pending@[k], mode),
            decreases pending@.len() - i,
        {
            if !connector_supports_mode(infos, pending[i], &mode) {
                proof {
                    assert(pending@.contains(pending@[i as int]));
                    assert(self@.pending.connectors.contains(pending@[i as int]));
                }
                return Err(Error::ModeNotSuitable(mode));
            }
            i = i + 1;
        }
        proof {
            assert forall|c: u32| self@.pending.connectors.contains(c) implies #[trigger] connector_supports(
                infos@,
                c,
                mode,
            ) by {
                assert(pending@.contains(c));
                let k = choose|k: int| 0 <= k < pending@.len() && pending@[k] == c;
                assert(connector_supports(infos@, pending@[k], mode));
            }
        }
        self.pending.mode = mode;
        Ok(())
    }

    /// Records that the kernel took over the pending snapshot.
    pub fn commit(&mut self)
        requires
            old(self).wf(),
        ensures
            final(self).wf(),
            final(self)@ == old(self)@.committed(),
    {
        self.current = self.pending.copy();
    }

    /// Reads both snapshots from what the kernel reports.
    pub fn reset_state(&mut self, mode: Option<Mode>, infos: &Vec<ConnectorInfo>)
        ensures
            final(self).wf(),
            final(self)@ == old(self)@.reset(mode, infos@),
    {
        let connectors = connectors_of_crtc(infos, self.crtc);
        let current = State {
            mode: match mode {
                Some(m) => m,
                None => Mode::zeroed(),
            },
            connectors,
        };
        self.pending = current.copy();
        self.current = current;
    }
}

} // verus!
