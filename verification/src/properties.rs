//! The identifiers of the kernel properties that a surface writes, found
//! once by name and kept.

use vstd::prelude::*;

verus! {

/// A property of a kernel object as the kernel describes it.
#[derive(Clone, Debug, PartialEq, Eq)]
pub struct PropertyInfo {
    /// The name of the property.
    pub name: String,
    /// The identifier of the property.
    pub id: u32,
    /// The smallest value of a property that is a range; else 0.
    pub min: u64,
    /// The largest value of a property that is a range; else 0.
    pub max: u64,
}

/// A property that was found: its identifier and its range.
#[derive(Clone, Copy, Debug, PartialEq, Eq, Structural)]
pub struct Property {
    pub id: u32,
    pub min: u64,
    pub max: u64,
}

/// The first property of `props` from index `from` on that is named `name`.
pub open spec fn spec_find_property_from(props: Seq<PropertyInfo>, from: int, name: Seq<char>) -> Option<
    Property,
>
    decreases props.len() - from,
{
    if from < 0 || from >= props.len() {
        None
    } else if props[from].name@ == name {
        Some(Property { id: props[from].id, min: props[from].min, max: props[from].max })
    } else {
        spec_find_property_from(props, from + 1, name)
    }
}

/// The first property of `props` that is named `name`.
pub open spec fn spec_find_property(props: Seq<PropertyInfo>, name: Seq<char>) -> Option<Property> {
    spec_find_property_from(props, 0, name)
}

/// The identifier of the first property of `props` that is named `name`.
pub open spec fn spec_find_id(props: Seq<PropertyInfo>, name: Seq<char>) -> Option<u32> {
    match spec_find_property(props, name) {
        Some(p) => Some(p.id),
        None => None,
    }
}

/// The first property of `props` that is named `name`.
pub fn find_property(props: &Vec<PropertyInfo>, name: &str) -> (found: Option<Property>)
    ensures
        found == spec_find_property(props@, name@),
{
    let wanted: String = name.to_owned();
    let mut i: usize = 0;
    while i < props.len()
        invariant
            i <= props@.len(),
            wanted@ == name@,
            spec_find_property(props@, name@) == spec_find_property_from(
                props@,
                i as int,
                name@,
            ),
        decreases props@.len() - i,
    {
        if props[i].name == wanted {
            return Some(Property { id: props[i].id, min: props[i].min, max: props[i].max });
        }
        i = i + 1;
    }
    None
}

/// The identifier of the first property of `props` that is named `name`.
pub fn find_id(props: &Vec<PropertyInfo>, name: &str) -> (found: Option<u32>)
    ensures
        found == spec_find_id(props@, name@),
{
    match find_property(props, name) {
        Some(p) => Some(p.id),
        None => None,
    }
}

/// The properties of a CRTC that a surface writes.
#[derive(Clone, Copy, Debug, PartialEq, Eq, Structural)]
pub struct CrtcProperties {
    pub active: Option<u32>,
    pub mode_id: Option<u32>,
}

/// The property of a connector that a surface writes.
#[derive(Clone, Copy, Debug, PartialEq, Eq, Structural)]
pub struct ConnectorProperties {
    pub connector: u32,
    pub crtc_id: Option<u32>,
}

/// The properties of a plane that a surface knows. A property that the
/// driver does not expose is absent.
#[derive(Clone, Copy, Debug, PartialEq, Eq, Structural)]
pub struct PlaneProperties {
    pub plane: u32,
    pub crtc_id: Option<u32>,
    pub fb_id: Option<u32>,
    pub src_x: Option<u32>,
    pub src_y: Option<u32>,
    pub src_w: Option<u32>,
    pub src_h: Option<u32>,
    pub crtc_x: Option<u32>,
    pub crtc_y: Option<u32>,
    pub crtc_w: Option<u32>,
    pub crtc_h: Option<u32>,
    pub in_fence_fd: Option<u32>,
    pub fb_damage_clips: Option<u32>,
    pub rotation: Option<u32>,
    pub alpha: Option<Property>,
    pub in_formats: Option<u32>,
}

impl CrtcProperties {
    /// The properties of a CRTC among `props`, by their names.
    pub open spec fn spec_discover(props: Seq<PropertyInfo>) -> CrtcProperties {
        CrtcProperties {
            active: spec_find_id(props, "ACTIVE"@),
            mode_id: spec_find_id(props, "MODE_ID"@),
        }
    }

    /// Finds the properties of a CRTC among `props`, by their names.
    pub fn discover(props: &Vec<PropertyInfo>) -> (found: CrtcProperties)
        ensures
            found == Self::spec_discover(props@),
    {
        CrtcProperties { active: find_id(props, "ACTIVE"), mode_id: find_id(props, "MODE_ID") }
    }
}

impl ConnectorProperties {
    /// The property of the connector `connector` among `props`, by its name.
    pub open spec fn spec_discover(connector: u32, props: Seq<PropertyInfo>) -> ConnectorProperties {
        ConnectorProperties { connector, crtc_id: spec_find_id(props, "CRTC_ID"@) }
    }

    /// Finds the property of the connector `connector` among `props`, by its
    /// name.
    pub fn discover(connector: u32, props: &Vec<PropertyInfo>) -> (found: ConnectorProperties)
        ensures
            found == Self::spec_discover(connector, props@),
    {
        ConnectorProperties { connector, crtc_id: find_id(props, "CRTC_ID") }
    }
}

impl PlaneProperties {
    /// The properties of a plane of which the driver exposes none.
    pub open spec fn spec_empty(plane: u32) -> PlaneProperties {
        PlaneProperties {
            plane,
            crtc_id: None,
            fb_id: None,
            src_x: None,
            src_y: None,
            src_w: None,
            src_h: None,
            crtc_x: None,
            crtc_y: None,
            crtc_w: None,
            crtc_h: None,
            in_fence_fd: None,
            fb_damage_clips: None,
            rotation: None,
            alpha: None,
            in_formats: None,
        }
    }

    /// The properties of a plane of which the driver exposes none.
    #[verifier::when_used_as_spec(spec_empty)]
    pub fn empty(plane: u32) -> (p: PlaneProperties)
        ensures
            p == Self::spec_empty(plane),
    {
        PlaneProperties {
            plane,
            crtc_id: None,
            fb_id: None,
            src_x: None,
            src_y: None,
            src_w: None,
            src_h: None,
            crtc_x: None,
            crtc_y: None,
            crtc_w: None,
            crtc_h: None,
            in_fence_fd: None,
            fb_damage_clips: None,
            rotation: None,
            alpha: None,
            in_formats: None,
        }
    }

    /// The properties of the plane `plane` among `props`, by their names.
    pub open spec fn spec_discover(plane: u32, props: Seq<PropertyInfo>) -> PlaneProperties {
        PlaneProperties {
            plane,
            crtc_id: spec_find_id(props, "CRTC_ID"@),
            fb_id: spec_find_id(props, "FB_ID"@),
            src_x: spec_find_id(props, "SRC_X"@),
            src_y: spec_find_id(props, "SRC_Y"@),
            src_w: spec_find_id(props, "SRC_W"@),
            src_h: spec_find_id(props, "SRC_H"@),
            crtc_x: spec_find_id(props, "CRTC_X"@),
            crtc_y: spec_find_id(props, "CRTC_Y"@),
            crtc_w: spec_find_id(props, "CRTC_W"@),
            crtc_h: spec_find_id(props, "CRTC_H"@),
            in_fence_fd: spec_find_id(props, "IN_FENCE_FD"@),
            fb_damage_clips: spec_find_id(props, "FB_DAMAGE_CLIPS"@),
            rotation: spec_find_id(props, "rotation"@),
            alpha: spec_find_property(props, "alpha"@),
            in_formats: spec_find_id(props, "IN_FORMATS"@),
        }
    }

    /// Finds the properties of the plane `plane` among `props`, by their
    /// names.
    pub fn discover(plane: u32, props: &Vec<PropertyInfo>) -> (found: PlaneProperties)
        ensures
            found == Self::spec_discover(plane, props@),
    {
        PlaneProperties {
            plane,
            crtc_id: find_id(props, "CRTC_ID"),
            fb_id: find_id(props, "FB_ID"),
            src_x: find_id(props, "SRC_X"),
            src_y: find_id(props, "SRC_Y"),
            src_w: find_id(props, "SRC_W"),
            src_h: find_id(props, "SRC_H"),
            crtc_x: find_id(props, "CRTC_X"),
            crtc_y: find_id(props, "CRTC_Y"),
            crtc_w: find_id(props, "CRTC_W"),
            crtc_h: find_id(props, "CRTC_H"),
            in_fence_fd: find_id(props, "IN_FENCE_FD"),
            fb_damage_clips: find_id(props, "FB_DAMAGE_CLIPS"),
            rotation: find_id(props, "rotation"),
            alpha: find_property(props, "alpha"),
            in_formats: find_id(props, "IN_FORMATS"),
        }
    }
}

/// The properties of every object that a surface touches.
#[derive(Clone, Debug, PartialEq, Eq)]
pub struct PropertyMapping {
    pub crtc: CrtcProperties,
    pub connectors: Vec<ConnectorProperties>,
    pub planes: Vec<PlaneProperties>,
}

/// The property of the connector `connector` in the first entry for it from
/// index `from` on, if there is one and the driver exposes the property.
pub open spec fn spec_connector_property_from(
    entries: Seq<ConnectorProperties>,
    from: int,
    connector: u32,
) -> Option<u32>
    decreases entries.len() - from,
{
    if from < 0 || from >= entries.len() {
        None
    } else if entries[from].connector == connector {
        entries[from].crtc_id
    } else {
        spec_connector_property_from(entries, from + 1, connector)
    }
}

/// The property by which the connector `connector` is attached to a CRTC.
pub open spec fn spec_connector_property(entries: Seq<ConnectorProperties>, connector: u32) -> Option<
    u32,
> {
    spec_connector_property_from(entries, 0, connector)
}

/// The properties of the plane `plane` in the first entry for it from index
/// `from` on; none at all where there is no entry.
pub open spec fn spec_plane_properties_from(entries: Seq<PlaneProperties>, from: int, plane: u32) -> PlaneProperties
    decreases entries.len() - from,
{
    if from < 0 || from >= entries.len() {
        PlaneProperties::spec_empty(plane)
    } else if entries[from].plane == plane {
        entries[from]
    } else {
        spec_plane_properties_from(entries, from + 1, plane)
    }
}

/// The properties of the plane `plane`.
pub open spec fn spec_plane_properties(entries: Seq<PlaneProperties>, plane: u32) -> PlaneProperties {
    spec_plane_properties_from(entries, 0, plane)
}

impl PropertyMapping {
    /// The property by which the connector `connector` is attached to a
    /// CRTC, if the driver exposes it.
    pub fn connector_property(&self, connector: u32) -> (id: Option<u32>)
        ensures
            id == spec_connector_property(self.connectors@, connector),
    {
        let mut i: usize = 0;
        while i < self.connectors.len()
            invariant
                i <= self.connectors@.len(),
                spec_connector_property(self.connectors@, connector)
                    == spec_connector_property_from(self.connectors@, i as int, connector),
            decreases self.connectors@.len() - i,
        {
            if self.connectors[i].connector == connector {
                return self.connectors[i].crtc_id;
            }
            i = i + 1;
        }
        None
    }

    /// The properties of the plane `plane`.
    pub fn plane_properties(&self, plane: u32) -> (p: PlaneProperties)
        ensures
            p == spec_plane_properties(self.planes@, plane),
    {
        let mut i: usize = 0;
        while i < self.planes.len()
            invariant
                i <= self.planes@.len(),
                spec_plane_properties(self.planes@, plane) == spec_plane_properties_from(
                    self.planes@,
                    i as int,
                    plane,
                ),
            decreases self.planes@.len() - i,
        {
            if self.planes[i].plane == plane {
                return self.planes[i];
            }
            i = i + 1;
        }
        PlaneProperties::empty(plane)
    }
}

} // verus!
