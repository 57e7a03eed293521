//! What the bookkeeping of a pipeline guarantees about its connectors, as
//! long as every operation is given descriptions from one and the same
//! account of the device.

use vstd::prelude::*;
use crate::mode::Mode;
use crate::resources::{
    connector_supports, handles_of, lemma_no_rejection, spec_check_connector, ConnectorInfo,
};
use crate::state::{PipelineView, StateView};

verus! {

/// Whether no two descriptions of `world` speak of the same connector.
pub open spec fn unique_handles(world: Seq<ConnectorInfo>) -> bool {
    forall|i: int, j: int|
        0 <= i < j < world.len() ==> (#[trigger] world[i]).handle != (#[trigger] world[j]).handle
}

/// Whether every description of `infos` is one of `world`.
pub open spec fn all_within(infos: Seq<ConnectorInfo>, world: Seq<ConnectorInfo>) -> bool {
    forall|k: int| 0 <= k < infos.len() ==> world.contains(#[trigger] infos[k])
}

/// Whether `world` describes the connector `c` as one that has an encoder
/// for `crtc` and advertises `mode`.
pub open spec fn serves(world: Seq<ConnectorInfo>, crtcs: Seq<u32>, crtc: u32, c: u32, mode: Mode) -> bool {
    exists|k: int|
        0 <= k < world.len() && (#[trigger] world[k]).handle == c && world[k].drives(crtcs, crtc)
            && world[k].supports(mode)
}

/// Whether every connector of the snapshot `s` has an encoder for `crtc`
/// and advertises the mode of the snapshot, by the account `world`.
pub open spec fn state_valid(s: StateView, crtcs: Seq<u32>, crtc: u32, world: Seq<ConnectorInfo>) -> bool {
    forall|c: u32| s.connectors.contains(c) ==> #[trigger] serves(world, crtcs, crtc, c, s.mode)
}

/// Adding a connector keeps the pending snapshot valid.
pub proof fn lemma_add_connector_valid(v: PipelineView, info: ConnectorInfo, world: Seq<ConnectorInfo>)
    requires
        state_valid(v.pending, v.crtcs, v.crtc, world),
        world.contains(info),
        v.add_connector(info) is Ok,
    ensures
        state_valid(v.add_connector(info)->Ok_0.pending, v.crtcs, v.crtc, world),
{
    let after = v.add_connector(info)->Ok_0;
    assert forall|c: u32| after.pending.connectors.contains(c) implies #[trigger] serves(
        world,
        v.crtcs,
        v.crtc,
        c,
        after.pending.mode,
    ) by {
        if c == info.handle {
            let k = choose|k: int| 0 <= k < world.len() && world[k] == info;
            assert(world[k].handle == c && world[k].drives(v.crtcs, v.crtc) && world[k].supports(
                v.pending.mode,
            ));
        } else {
            assert(v.pending.connectors.contains(c));
        }
    }
}

/// Removing a connector keeps the pending snapshot valid.
pub proof fn lemma_remove_connector_valid(v: PipelineView, c: u32, world: Seq<ConnectorInfo>)
    requires
        state_valid(v.pending, v.crtcs, v.crtc, world),
    ensures
        state_valid(v.without_connector(c).pending, v.crtcs, v.crtc, world),
{
    let after = v.without_connector(c);
    assert forall|d: u32| after.pending.connectors.contains(d) implies #[trigger] serves(
        world,
        v.crtcs,
        v.crtc,
        d,
        after.pending.mode,
    ) by {
        assert(v.pending.connectors.contains(d));
    }
}

/// Replacing the connectors makes the pending snapshot valid, whatever it
/// was before.
pub proof fn lemma_set_connectors_valid(
    v: PipelineView,
    infos: Seq<ConnectorInfo>,
    world: Seq<ConnectorInfo>,
)
    requires
        all_within(infos, world),
        v.set_connectors(infos) is Ok,
    ensures
        state_valid(v.set_connectors(infos)->Ok_0.pending, v.crtcs, v.crtc, world),
{
    let after = v.set_connectors(infos)->Ok_0;
    lemma_no_rejection(infos, 0, v.crtcs, v.crtc, v.pending.mode);
    assert forall|c: u32| after.pending.connectors.contains(c) implies #[trigger] serves(
        world,
        v.crtcs,
        v.crtc,
        c,
        after.pending.mode,
    ) by {
        assert(handles_of(infos).contains(c));
        let i = choose|i: int| 0 <= i < infos.len() && (#[trigger] infos[i]).handle == c;
        assert(spec_check_connector(infos[i], v.crtcs, v.crtc, v.pending.mode) is None);
        assert(world.contains(infos[i]));
        let k = choose|k: int| 0 <= k < world.len() && world[k] == infos[i];
        assert(world[k].handle == c && world[k].drives(v.crtcs, v.crtc) && world[k].supports(
            v.pending.mode,
        ));
    }
}

/// Choosing a mode keeps the pending snapshot valid, where the account
/// describes every connector once.
pub proof fn lemma_use_mode_valid(
    v: PipelineView,
    mode: Mode,
    infos: Seq<ConnectorInfo>,
    world: Seq<ConnectorInfo>,
)
    requires
        state_valid(v.pending, v.crtcs, v.crtc, world),
        unique_handles(world),
        all_within(infos, world),
        v.use_mode(mode, infos) is Ok,
    ensures
        state_valid(v.use_mode(mode, infos)->Ok_0.pending, v.crtcs, v.crtc, world),
{
    let after = v.use_mode(mode, infos)->Ok_0;
    assert forall|c: u32| after.pending.connectors.contains(c) implies #[trigger] serves(
        world,
        v.crtcs,
        v.crtc,
        c,
        after.pending.mode,
    ) by {
        assert(v.pending.connectors.contains(c));
        assert(serves(world, v.crtcs, v.crtc, c, v.pending.mode));
        let k = choose|k: int|
            0 <= k < world.len() && (#[trigger] world[k]).handle == c && world[k].drives(
                v.crtcs,
                v.crtc,
            ) && world[k].supports(v.pending.mode);
        assert(connector_supports(infos, c, mode));
        let i = choose|i: int|
            0 <= i < infos.len() && (#[trigger] infos[i]).handle == c && infos[i].supports(mode);
        assert(world.contains(infos[i]));
        let j = choose|j: int| 0 <= j < world.len() && world[j] == infos[i];
        if j != k {
            if j < k {
                assert(world[j].handle != world[k].handle);
            } else {
                assert(world[k].handle != world[j].handle);
            }
        }
        assert(world[k].handle == c && world[k].drives(v.crtcs, v.crtc) && world[k].supports(
            mode,
        ));
    }
}

/// After a commit of a valid pending snapshot, every current connector has
/// an encoder for the CRTC and advertises the current mode; and the current
/// mode is advertised by a current connector unless there is none.
pub proof fn lemma_commit_valid(v: PipelineView, world: Seq<ConnectorInfo>)
    requires
        state_valid(v.pending, v.crtcs, v.crtc, world),
    ensures
        state_valid(v.committed().current, v.crtcs, v.crtc, world),
        v.committed().current.connectors == Set::<u32>::empty() || exists|k: int|
            0 <= k < world.len() && v.committed().current.connectors.contains(
                (#[trigger] world[k]).handle,
            ) && world[k].supports(v.committed().current.mode),
{
    let current = v.committed().current;
    if current.connectors != Set::<u32>::empty() {
        assert(!(current.connectors =~= Set::<u32>::empty()));
        let c = choose|c: u32| current.connectors.contains(c);
        assert(serves(world, v.crtcs, v.crtc, c, current.mode));
        let k = choose|k: int|
            0 <= k < world.len() && (#[trigger] world[k]).handle == c && world[k].drives(
                v.crtcs,
                v.crtc,
            ) && world[k].supports(current.mode);
        assert(current.connectors.contains(world[k].handle) && world[k].supports(current.mode));
    }
}

} // verus!
