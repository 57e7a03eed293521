//! Atomic requests: the property values that a commit hands to the kernel.

use vstd::prelude::*;
use crate::connectors::{lemma_increasing_unique, strictly_increasing};
use crate::error::Error;
use crate::mode::Mode;
use crate::plane::{PlaneConfig, PlaneState, Transform, ALPHA_OPAQUE};
use crate::properties::{
    spec_connector_property, spec_plane_properties, ConnectorProperties, CrtcProperties,
    PlaneProperties, Property, PropertyMapping,
};
use crate::state::{Pipeline, PipelineView, StateView};

verus! {

/// The flag of a commit that asks for an event when the flip is done.
pub const PAGE_FLIP_EVENT: u32 = 0x0001;

/// The flag of an atomic commit that only tests the request.
pub const ATOMIC_TEST_ONLY: u32 = 0x0100;

/// The flag of an atomic commit that does not wait for the hardware.
pub const ATOMIC_NONBLOCK: u32 = 0x0200;

/// The flag of an atomic commit that may reconfigure the timing.
pub const ATOMIC_ALLOW_MODESET: u32 = 0x0400;

/// The value that a request gives to a property.
#[derive(Clone, Copy, Debug, PartialEq, Eq, Structural)]
pub enum PropertyValue {
    /// The value as the kernel takes it.
    Raw(u64),
    /// The identifier of a blob that holds this mode. Whoever hands the
    /// request to the kernel creates the blob.
    ModeBlob(Mode),
}

/// One entry of a request: a property of an object and its new value.
#[derive(Clone, Copy, Debug, PartialEq, Eq, Structural)]
pub struct PropertyAssignment {
    pub object: u32,
    pub property: u32,
    pub value: PropertyValue,
}

/// The signed integer `v` as a property value: 64 bits in two's complement.
pub open spec fn spec_signed(v: i32) -> u64 {
    if v >= 0 {
        v as u64
    } else {
        (v + 0x1_0000_0000_0000_0000) as u64
    }
}

/// The signed integer `v` as a property value.
#[verifier::when_used_as_spec(spec_signed)]
pub fn signed(v: i32) -> (raw: u64)
    ensures
        raw == spec_signed(v),
{
    if v >= 0 {
        v as u64
    } else {
        let magnitude: u64 = (-(v as i64)) as u64;
        u64::MAX - magnitude + 1
    }
}

/// The opacity `alpha` scaled to the range of the property `range`:
/// transparent is the least value of the range, opaque the greatest, and what
/// lies between is rounded to the nearest value.
pub open spec fn spec_scaled_alpha(alpha: u16, range: Property) -> u64 {
    let span: int = if range.max >= range.min {
        range.max - range.min
    } else {
        0
    };
    (range.min + (alpha as int * span + 32767) / 65535) as u64
}

/// The opacity `alpha` scaled to the range of the property `range`.
#[verifier::when_used_as_spec(spec_scaled_alpha)]
pub fn scaled_alpha(alpha: u16, range: Property) -> (raw: u64)
    ensures
        raw == spec_scaled_alpha(alpha, range),
{
    let span: u64 = if range.max >= range.min {
        range.max - range.min
    } else {
        0
    };
    assert(alpha as int * span as int <= 65535 * span as int) by (nonlinear_arith)
        requires
            0 <= alpha as int <= 65535,
            0 <= span as int,
    ;
    assert(alpha as int * span as int >= 0) by (nonlinear_arith)
        requires
            0 <= alpha as int,
            0 <= span as int,
    ;
    let scaled: u128 = (alpha as u128 * span as u128 + 32767) / 65535;
    assert(scaled <= span);
    range.min + scaled as u64
}

/// The entry that gives `value` to the property `property` of `object`;
/// nothing where the driver does not expose the property.
pub open spec fn assign(object: u32, property: Option<u32>, value: PropertyValue) -> Seq<
    PropertyAssignment,
> {
    match property {
        Some(id) => seq![PropertyAssignment { object, property: id, value }],
        None => Seq::empty(),
    }
}

/// Appends the entry that gives `value` to the property `property` of
/// `object`, where the driver exposes it.
pub fn push_assign(
    out: &mut Vec<PropertyAssignment>,
    object: u32,
    property: Option<u32>,
    value: PropertyValue,
)
    ensures
        final(out)@ == old(out)@ + assign(object, property, value),
{
    match property {
        Some(id) => {
            out.push(PropertyAssignment { object, property: id, value });
            assert(out@ =~= old(out)@ + assign(object, property, value));
        },
        None => {
            assert(out@ =~= old(out)@ + assign(object, property, value));
        },
    }
}

/// The identifier of a property that was found.
pub open spec fn id_of(property: Option<Property>) -> Option<u32> {
    match property {
        Some(p) => Some(p.id),
        None => None,
    }
}

/// Whether the driver cannot express the state of a plane: the state asks
/// for a transform or an opacity other than the default, and the plane lacks
/// the property for it.
pub open spec fn spec_plane_rejected(state: PlaneState, props: PlaneProperties) -> bool {
    state.config matches Some(config) && ((props.rotation is None && config.transform
        != Transform::Normal) || (props.alpha is None && config.alpha != ALPHA_OPAQUE))
}

/// The entries for a plane that shows a framebuffer.
pub open spec fn spec_config_assignments(
    plane: u32,
    config: PlaneConfig,
    crtc: u32,
    props: PlaneProperties,
) -> Seq<PropertyAssignment> {
    assign(plane, props.crtc_id, PropertyValue::Raw(crtc as u64)) + assign(
        plane,
        props.fb_id,
        PropertyValue::Raw(config.fb as u64),
    ) + assign(plane, props.src_x, PropertyValue::Raw(spec_signed(config.src.loc.x))) + assign(
        plane,
        props.src_y,
        PropertyValue::Raw(spec_signed(config.src.loc.y)),
    ) + assign(plane, props.src_w, PropertyValue::Raw(spec_signed(config.src.size.w))) + assign(
        plane,
        props.src_h,
        PropertyValue::Raw(spec_signed(config.src.size.h)),
    ) + assign(plane, props.crtc_x, PropertyValue::Raw(spec_signed(config.dst.loc.x))) + assign(
        plane,
        props.crtc_y,
        PropertyValue::Raw(spec_signed(config.dst.loc.y)),
    ) + assign(plane, props.crtc_w, PropertyValue::Raw(spec_signed(config.dst.size.w))) + assign(
        plane,
        props.crtc_h,
        PropertyValue::Raw(spec_signed(config.dst.size.h)),
    ) + assign(plane, props.rotation, PropertyValue::Raw(config.transform.spec_rotation()))
        + assign(
        plane,
        id_of(props.alpha),
        PropertyValue::Raw(
            match props.alpha {
                Some(range) => spec_scaled_alpha(config.alpha, range),
                None => 0,
            },
        ),
    ) + assign(
        plane,
        props.fb_damage_clips,
        PropertyValue::Raw(
            match config.damage_clips {
                Some(blob) => blob,
                None => 0,
            },
        ),
    )
}

/// The entries that disable a plane: no CRTC and no framebuffer.
pub open spec fn spec_clear_assignments(plane: u32, props: PlaneProperties) -> Seq<
    PropertyAssignment,
> {
    assign(plane, props.crtc_id, PropertyValue::Raw(0)) + assign(
        plane,
        props.fb_id,
        PropertyValue::Raw(0),
    )
}

/// The entries for the state of one plane on the CRTC `crtc`.
pub open spec fn spec_plane_assignments(state: PlaneState, crtc: u32, props: PlaneProperties) -> Seq<
    PropertyAssignment,
> {
    match state.config {
        Some(config) => spec_config_assignments(state.handle, config, crtc, props),
        None => spec_clear_assignments(state.handle, props),
    }
}

/// Appends the entries that disable the plane `plane`.
pub fn marshal_clear(out: &mut Vec<PropertyAssignment>, plane: u32, props: &PlaneProperties)
    ensures
        final(out)@ == old(out)@ + spec_clear_assignments(plane, *props),
{
    let ghost before = out@;
    push_assign(out, plane, props.crtc_id, PropertyValue::Raw(0));
    push_assign(out, plane, props.fb_id, PropertyValue::Raw(0));
    assert(out@ =~= before + spec_clear_assignments(plane, *props));
}

/// Appends the entries for the state of one plane, unless the driver cannot
/// express it.
pub fn marshal_plane(
    out: &mut Vec<PropertyAssignment>,
    state: &PlaneState,
    crtc: u32,
    props: &PlaneProperties,
) -> (res: Result<(), Error>)
    ensures
        spec_plane_rejected(*state, *props) ==> res == Err::<(), Error>(
            Error::UnsupportedPlaneConfiguration(state.handle),
        ) && final(out)@ == old(out)@,
        !spec_plane_rejected(*state, *props) ==> res is Ok && final(out)@ == old(out)@
            + spec_plane_assignments(*state, crtc, *props),
{
    let ghost before = out@;
    let plane: u32 = state.handle;
    match state.config {
        None => {
            marshal_clear(out, plane, props);
            Ok(())
        },
        Some(config) => {
            if props.rotation.is_none() && config.transform != Transform::Normal {
                return Err(Error::UnsupportedPlaneConfiguration(plane));
            }
            if props.alpha.is_none() && config.alpha != ALPHA_OPAQUE {
                return Err(Error::UnsupportedPlaneConfiguration(plane));
            }
            let alpha_id: Option<u32> = match props.alpha {
                Some(range) => Some(range.id),
                None => None,
            };
            let alpha: u64 = match props.alpha {
                Some(range) => scaled_alpha(config.alpha, range),
                None => 0,
            };
            let clips: u64 = match config.damage_clips {
                Some(blob) => blob,
                None => 0,
            };
            let ghost mut acc: Seq<PropertyAssignment>;
            let ghost mut step: Seq<PropertyAssignment>;
            push_assign(out, plane, props.crtc_id, PropertyValue::Raw(crtc as u64));
            proof {
                acc = assign(plane, props.crtc_id, PropertyValue::Raw(crtc as u64));
            }
            push_assign(out, plane, props.fb_id, PropertyValue::Raw(config.fb as u64));
            proof {
                step = assign(plane, props.fb_id, PropertyValue::Raw(config.fb as u64));
                lemma_add_assoc(before, acc, step);
                acc = acc + step;
            }
            push_assign(out, plane, props.src_x, PropertyValue::Raw(signed(config.src.loc.x)));
            proof {
                step = assign(plane, props.src_x, PropertyValue::Raw(spec_signed(config.src.loc.x)));
                lemma_add_assoc(before, acc, step);
                acc = acc + step;
            }
            push_assign(out, plane, props.src_y, PropertyValue::Raw(signed(config.src.loc.y)));
            proof {
                step = assign(plane, props.src_y, PropertyValue::Raw(spec_signed(config.src.loc.y)));
                lemma_add_assoc(before, acc, step);
                acc = acc + step;
            }
            push_assign(out, plane, props.src_w, PropertyValue::Raw(signed(config.src.size.w)));
            proof {
                step = assign(
                    plane,
                    props.src_w,
                    PropertyValue::Raw(spec_signed(config.src.size.w)),
                );
                lemma_add_assoc(before, acc, step);
                acc = acc + step;
            }
            push_assign(out, plane, props.src_h, PropertyValue::Raw(signed(config.src.size.h)));
            proof {
                step = assign(
                    plane,
                    props.src_h,
                    PropertyValue::Raw(spec_signed(config.src.size.h)),
                );
                lemma_add_assoc(before, acc, step);
                acc = acc + step;
            }
            push_assign(out, plane, props.crtc_x, PropertyValue::Raw(signed(config.dst.loc.x)));
            proof {
                step = assign(
                    plane,
                    props.crtc_x,
                    PropertyValue::Raw(spec_signed(config.dst.loc.x)),
                );
                lemma_add_assoc(before, acc, step);
                acc = acc + step;
            }
            push_assign(out, plane, props.crtc_y, PropertyValue::Raw(signed(config.dst.loc.y)));
            proof {
                step = assign(
                    plane,
                    props.crtc_y,
                    PropertyValue::Raw(spec_signed(config.dst.loc.y)),
                );
                lemma_add_assoc(before, acc, step);
                acc = acc + step;
            }
            push_assign(out, plane, props.crtc_w, PropertyValue::Raw(signed(config.dst.size.w)));
            proof {
                step = assign(
                    plane,
                    props.crtc_w,
                    PropertyValue::Raw(spec_signed(config.dst.size.w)),
                );
                lemma_add_assoc(before, acc, step);
                acc = acc + step;
            }
            push_assign(out, plane, props.crtc_h, PropertyValue::Raw(signed(config.dst.size.h)));
            proof {
                step = assign(
                    plane,
                    props.crtc_h,
                    PropertyValue::Raw(spec_signed(config.dst.size.h)),
                );
                lemma_add_assoc(before, acc, step);
                acc = acc + step;
            }
            push_assign(
                out,
                plane,
                props.rotation,
                PropertyValue::Raw(config.transform.rotation()),
            );
            proof {
                step = assign(
                    plane,
                    props.rotation,
                    PropertyValue::Raw(config.transform.spec_rotation()),
                );
                lemma_add_assoc(before, acc, step);
                acc = acc + step;
            }
            push_assign(out, plane, alpha_id, PropertyValue::Raw(alpha));
            proof {
                step = assign(plane, alpha_id, PropertyValue::Raw(alpha));
                lemma_add_assoc(before, acc, step);
                acc = acc + step;
            }
            push_assign(out, plane, props.fb_damage_clips, PropertyValue::Raw(clips));
            proof {
                step = assign(plane, props.fb_damage_clips, PropertyValue::Raw(clips));
                lemma_add_assoc(before, acc, step);
                acc = acc + step;
                assert(out@ == before + acc);
                assert(acc == spec_config_assignments(plane, config, crtc, *props));
            }
            Ok(())
        },
    }
}

/// Appending is associative.
pub proof fn lemma_add_assoc(
    a: Seq<PropertyAssignment>,
    b: Seq<PropertyAssignment>,
    c: Seq<PropertyAssignment>,
)
    ensures
        (a + b) + c == a + (b + c),
{
    assert((a + b) + c =~= a + (b + c));
}

/// The entries for the states `planes`, in their order; the failure of the
/// first state that the driver cannot express.
pub open spec fn spec_planes_assignments(
    planes: Seq<PlaneState>,
    crtc: u32,
    entries: Seq<PlaneProperties>,
) -> Result<Seq<PropertyAssignment>, Error>
    decreases planes.len(),
{
    if planes.len() == 0 {
        Ok(Seq::empty())
    } else {
        match spec_planes_assignments(planes.drop_last(), crtc, entries) {
            Err(e) => Err(e),
            Ok(before) => {
                let state = planes.last();
                let props = spec_plane_properties(entries, state.handle);
                if spec_plane_rejected(state, props) {
                    Err(Error::UnsupportedPlaneConfiguration(state.handle))
                } else {
                    Ok(before + spec_plane_assignments(state, crtc, props))
                }
            },
        }
    }
}

/// The entries that give `value` to the attachment property of each of
/// `connectors`, in their order.
pub open spec fn spec_connector_assignments(
    connectors: Seq<u32>,
    entries: Seq<ConnectorProperties>,
    value: u64,
) -> Seq<PropertyAssignment>
    decreases connectors.len(),
{
    if connectors.len() == 0 {
        Seq::empty()
    } else {
        spec_connector_assignments(connectors.drop_last(), entries, value) + assign(
            connectors.last(),
            spec_connector_property(entries, connectors.last()),
            PropertyValue::Raw(value),
        )
    }
}

/// The entries for the CRTC: its mode and whether it is active. A pipeline
/// without connectors is switched off and gets no mode.
pub open spec fn spec_crtc_assignments(crtc: u32, props: CrtcProperties, pending: StateView) -> Seq<
    PropertyAssignment,
> {
    if pending.connectors == Set::<u32>::empty() {
        assign(crtc, props.mode_id, PropertyValue::Raw(0)) + assign(
            crtc,
            props.active,
            PropertyValue::Raw(0),
        )
    } else {
        assign(crtc, props.mode_id, PropertyValue::ModeBlob(pending.mode)) + assign(
            crtc,
            props.active,
            PropertyValue::Raw(1),
        )
    }
}

/// The elements of the finite set `s` in ascending order.
pub open spec fn ascending(s: Set<u32>) -> Seq<u32> {
    choose|q: Seq<u32>| strictly_increasing(q) && q.to_set() == s
}

/// A strictly increasing sequence is the ascending order of its elements.
pub proof fn lemma_ascending(q: Seq<u32>)
    requires
        strictly_increasing(q),
    ensures
        ascending(q.to_set()) == q,
{
    let a = ascending(q.to_set());
    assert(strictly_increasing(a) && a.to_set() == q.to_set());
    lemma_increasing_unique(a, q);
}

/// The entries of the request that brings the kernel to the pending
/// snapshot with the planes in the states `planes`.
///
/// Every pending connector is attached to the CRTC. Every connector that is
/// attached at present and no longer pending is detached. The CRTC gets its
/// mode and is switched on or off. The planes follow in their order.
pub open spec fn spec_request(v: PipelineView, mapping: PropertyMapping, planes: Seq<PlaneState>) -> Result<
    Seq<PropertyAssignment>,
    Error,
> {
    match spec_planes_assignments(planes, v.crtc, mapping.planes@) {
        Err(e) => Err(e),
        Ok(plane_entries) => Ok(
            spec_connector_assignments(
                ascending(v.pending.connectors),
                mapping.connectors@,
                v.crtc as u64,
            ) + spec_connector_assignments(
                ascending(v.current.connectors.difference(v.pending.connectors)),
                mapping.connectors@,
                0,
            ) + spec_crtc_assignments(v.crtc, mapping.crtc, v.pending) + plane_entries,
        ),
    }
}

/// Appends the entries that give `value` to the attachment property of each
/// of `connectors`.
pub fn marshal_connectors(
    out: &mut Vec<PropertyAssignment>,
    connectors: &Vec<u32>,
    mapping: &PropertyMapping,
    value: u64,
)
    ensures
        final(out)@ == old(out)@ + spec_connector_assignments(
            connectors@,
            mapping.connectors@,
            value,
        ),
{
    let ghost before = out@;
    let mut i: usize = 0;
    assert(connectors@.take(0) =~= Seq::<u32>::empty());
    assert(out@ =~= before + spec_connector_assignments(
        connectors@.take(0),
        mapping.connectors@,
        value,
    ));
    while i < connectors.len()
        invariant
            i <= connectors@.len(),
            out@ == before + spec_connector_assignments(
                connectors@.take(i as int),
                mapping.connectors@,
                value,
            ),
        decreases connectors@.len() - i,
    {
        let c: u32 = connectors[i];
        let ghost sofar = out@;
        push_assign(out, c, mapping.connector_property(c), PropertyValue::Raw(value));
        proof {
            let next = connectors@.take(i + 1);
            assert(next.drop_last() =~= connectors@.take(i as int));
            assert(next.last() == c);
            assert(out@ =~= before + spec_connector_assignments(
                next,
                mapping.connectors@,
                value,
            ));
        }
        i = i + 1;
    }
    assert(connectors@.take(i as int) =~= connectors@);
}

/// Appends the entries for the states `planes`, up to the first one that the
/// driver cannot express.
pub fn marshal_planes(
    out: &mut Vec<PropertyAssignment>,
    planes: &Vec<PlaneState>,
    crtc: u32,
    mapping: &PropertyMapping,
) -> (res: Result<(), Error>)
    ensures
        match spec_planes_assignments(planes@, crtc, mapping.planes@) {
            Ok(entries) => res is Ok && final(out)@ == old(out)@ + entries,
            Err(e) => res == Err::<(), Error>(e),
        },
{
    let ghost before = out@;
    let mut i: usize = 0;
    assert(planes@.take(0) =~= Seq::<PlaneState>::empty());
    assert(out@ =~= before + Seq::<PropertyAssignment>::empty());
    while i < planes.len()
        invariant
            i <= planes@.len(),
            spec_planes_assignments(planes@.take(i as int), crtc, mapping.planes@) is Ok,
            out@ == before + spec_planes_assignments(
                planes@.take(i as int),
                crtc,
                mapping.planes@,
            )->Ok_0,
        decreases planes@.len() - i,
    {
        let state: PlaneState = planes[i];
        let props = mapping.plane_properties(state.handle);
        let ghost sofar = out@;
        proof {
            let next = planes@.take(i + 1);
            assert(next.drop_last() =~= planes@.take(i as int));
            assert(next.last() == state);
        }
        match marshal_plane(out, &state, crtc, &props) {
            Err(e) => {
                proof {
                    lemma_planes_failure_stays(planes@, i + 1, crtc, mapping.planes@);
                }
                return Err(e);
            },
            Ok(()) => {
                assert(out@ =~= before + spec_planes_assignments(
                    planes@.take(i + 1),
                    crtc,
                    mapping.planes@,
                )->Ok_0);
            },
        }
        i = i + 1;
    }
    assert(planes@.take(i as int) =~= planes@);
    Ok(())
}

/// A failure among the first `n` states is the failure of them all.
pub proof fn lemma_planes_failure_stays(
    planes: Seq<PlaneState>,
    n: int,
    crtc: u32,
    entries: Seq<PlaneProperties>,
)
    requires
        0 <= n <= planes.len(),
        spec_planes_assignments(planes.take(n), crtc, entries) is Err,
    ensures
        spec_planes_assignments(planes, crtc, entries) == spec_planes_assignments(
            planes.take(n),
            crtc,
            entries,
        ),
    decreases planes.len() - n,
{
    if n == planes.len() {
        assert(planes.take(n) =~= planes);
    } else {
        assert(planes.take(n + 1).drop_last() =~= planes.take(n));
        lemma_planes_failure_stays(planes, n + 1, crtc, entries);
    }
}

/// Builds the request that brings the kernel to the pending snapshot of
/// `pipeline` with the planes in the states `planes`.
pub fn build_request(pipeline: &Pipeline, mapping: &PropertyMapping, planes: &Vec<PlaneState>) -> (res:
    Result<Vec<PropertyAssignment>, Error>)
    requires
        pipeline.wf(),
    ensures
        match spec_request(pipeline@, *mapping, planes@) {
            Ok(entries) => res is Ok && res->Ok_0@ == entries,
            Err(e) => res is Err && res->Err_0 == e,
        },
{
    let mut out: Vec<PropertyAssignment> = Vec::new();
    let crtc: u32 = pipeline.crtc();
    let attached = pipeline.pending_connectors();
    let detached = pipeline.removed_connectors();
    proof {
        lemma_ascending(attached@);
        lemma_ascending(detached@);
    }
    marshal_connectors(&mut out, &attached, mapping, crtc as u64);
    marshal_connectors(&mut out, &detached, mapping, 0);
    if pipeline.pending_is_disabled() {
        push_assign(&mut out, crtc, mapping.crtc.mode_id, PropertyValue::Raw(0));
        push_assign(&mut out, crtc, mapping.crtc.active, PropertyValue::Raw(0));
    } else {
        push_assign(
            &mut out,
            crtc,
            mapping.crtc.mode_id,
            PropertyValue::ModeBlob(pipeline.pending_mode()),
        );
        push_assign(&mut out, crtc, mapping.crtc.active, PropertyValue::Raw(1));
    }
    let ghost head = out@;
    assert(head =~= spec_connector_assignments(
        ascending(pipeline@.pending.connectors),
        mapping.connectors@,
        crtc as u64,
    ) + spec_connector_assignments(
        ascending(pipeline@.current.connectors.difference(pipeline@.pending.connectors)),
        mapping.connectors@,
        0,
    ) + spec_crtc_assignments(crtc, mapping.crtc, pipeline@.pending));
    match marshal_planes(&mut out, planes, crtc, mapping) {
        Err(e) => Err(e),
        Ok(()) => Ok(out),
    }
}

} // verus!
