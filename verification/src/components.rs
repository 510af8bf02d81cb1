//! The data that a node of the scene carries.
//!
//! A node is a record of optional components. Other nodes are referred to by
//! handle, never owned: a decoration names its owner, a flow names the
//! entities at its ends, a subsystem names the system that contains it.

use vstd::prelude::*;
use crate::geometry::MeshHandle;
use crate::nesting::NestingLevel;
use crate::units::{Vec2, Vec3, ONE};

verus! {

/// Half the width of an external entity, in whole units.
pub const EXTERNAL_ENTITY_WIDTH_HALF: u32 = 19;

/// Half the width of a creation button, in whole units.
pub const BUTTON_WIDTH_HALF: u32 = 8;

/// Width of an external entity's outline at scale one, in whole units.
pub const EXTERNAL_ENTITY_LINE_WIDTH: u32 = 3;

/// Width of a selected external entity's outline, in whole units.
pub const EXTERNAL_ENTITY_SELECTED_LINE_WIDTH: u32 = 5;

/// Layer of external entities, in whole units.
pub const EXTERNAL_ENTITY_Z: i32 = 1;

/// Layer of labels and markers, in whole units.
pub const LABEL_Z: i32 = 150;

/// Width of a name label's footprint, in whole units.
pub const NAME_LABEL_WIDTH: i32 = 70;

/// Height of a name label's footprint, in whole units.
pub const NAME_LABEL_HEIGHT: i32 = 100;

/// Stable handle of a node: its index in the scene's arena.
#[derive(Clone, Copy, Debug, PartialEq, Eq, Structural)]
pub struct SceneNode {
    pub index: usize,
}

/// What a node is.
#[derive(Clone, Copy, Debug, PartialEq, Eq, Structural)]
pub enum SystemElement {
    System,
    Subsystem,
    Interface,
    Flow,
    ExternalEntity,
    NameLabel,
    Marker,
}

/// Direction of an interface, seen from the system that owns it.
#[derive(Clone, Copy, Debug, PartialEq, Eq, Structural)]
pub enum InterfaceType {
    Import,
    Export,
}

/// What a flow carries.
#[derive(Clone, Copy, Debug, PartialEq, Eq, Structural)]
pub enum SubstanceType {
    Energy,
    Material,
    Message,
}

/// An opaque colour in sRGB.
#[derive(Clone, Copy, Debug, PartialEq, Eq, Structural)]
pub struct Color {
    pub red: u8,
    pub green: u8,
    pub blue: u8,
}

/// The colour in which flows of a substance, and the entities at their ends,
/// are drawn.
pub open spec fn spec_flow_color_default(substance: SubstanceType) -> Color {
    match substance {
        SubstanceType::Energy => Color { red: 181, green: 27, blue: 27 },
        SubstanceType::Material => Color { red: 64, green: 64, blue: 64 },
        SubstanceType::Message => Color { red: 160, green: 160, blue: 160 },
    }
}

impl SubstanceType {
    pub fn flow_color_default(self) -> (color: Color)
        ensures
            color == spec_flow_color_default(self),
    {
        match self {
            SubstanceType::Energy => Color { red: 181, green: 27, blue: 27 },
            SubstanceType::Material => Color { red: 64, green: 64, blue: 64 },
            SubstanceType::Message => Color { red: 160, green: 160, blue: 160 },
        }
    }
}

/// How the ends of a stroked line are drawn.
#[derive(Clone, Copy, Debug, PartialEq, Eq, Structural)]
pub enum LineCap {
    Butt,
    Square,
    Round,
}

/// An outline style. `line_width` is a fixed-point length.
#[derive(Clone, Copy, Debug, PartialEq, Eq, Structural)]
pub struct Stroke {
    pub color: Color,
    pub line_width: u64,
    pub line_cap: LineCap,
}

/// The two outlines of a selectable element.
#[derive(Clone, Copy, Debug, PartialEq, Eq, Structural)]
pub struct HighlightBundles {
    pub idle: Stroke,
    pub selected: Stroke,
}

/// Whether an element can be picked, and whether it is picked now.
#[derive(Clone, Copy, Debug, PartialEq, Eq, Structural)]
pub struct PickSelection {
    pub is_selected: bool,
}

/// Placement of a node. `rotation` is the angle about the z axis in
/// fixed-point radians.
#[derive(Clone, Copy, Debug, PartialEq, Eq, Structural)]
pub struct Transform {
    pub translation: Vec3,
    pub rotation: i64,
    pub scale: Vec3,
}

/// Where an element was first placed, at zoom one.
#[derive(Clone, Copy, Debug, PartialEq, Eq, Structural)]
pub struct InitialPosition {
    pub position: Vec2,
}

/// Marks a system that lies inside another one.
#[derive(Clone, Copy, Debug, PartialEq, Eq, Structural)]
pub struct Subsystem {
    pub parent_system: SceneNode,
}

/// Marks a source or sink outside the system boundary.
#[derive(Clone, Debug)]
pub struct ExternalEntity {
    pub equivalence: String,
    pub model: String,
}

/// What stands at the start of a flow.
#[derive(Clone, Copy, Debug, PartialEq, Eq, Structural)]
pub enum StartTargetType {
    Source,
    System,
}

/// What stands at the end of a flow.
#[derive(Clone, Copy, Debug, PartialEq, Eq, Structural)]
pub enum EndTargetType {
    Sink,
    System,
}

/// The start of a flow.
#[derive(Clone, Copy, Debug, PartialEq, Eq, Structural)]
pub struct FlowStartConnection {
    pub target: SceneNode,
    pub target_type: StartTargetType,
}

/// The end of a flow.
#[derive(Clone, Copy, Debug, PartialEq, Eq, Structural)]
pub struct FlowEndConnection {
    pub target: SceneNode,
    pub target_type: EndTargetType,
}

/// On the holder of an equivalence identifier: the marker that shows it.
#[derive(Clone, Copy, Debug, PartialEq, Eq, Structural)]
pub struct MarkerLabel {
    pub label: SceneNode,
}

/// How a decoration is aligned on one axis.
#[derive(Clone, Copy, Debug, PartialEq, Eq, Structural)]
pub enum Alignment {
    Auto,
    Center,
}

/// Side of the owner on which a decoration hangs, horizontally. The `Local`
/// sides turn with the owner, the `World` sides do not.
#[derive(Clone, Copy, Debug, PartialEq, Eq, Structural)]
pub enum HorizontalAttachmentAnchor {
    EastWorld,
    WestWorld,
    EastLocal,
    WestLocal,
}

impl Default for HorizontalAttachmentAnchor {
    /// A decoration hangs on the east side unless told otherwise.
    fn default() -> (anchor: HorizontalAttachmentAnchor)
        ensures
            anchor == HorizontalAttachmentAnchor::EastWorld,
    {
        HorizontalAttachmentAnchor::EastWorld
    }
}

/// Side of the owner on which a decoration hangs, vertically.
#[derive(Clone, Copy, Debug, PartialEq, Eq, Structural)]
pub enum VerticalAttachmentAnchor {
    NorthWorld,
    SouthWorld,
    NorthLocal,
    SouthLocal,
}

impl Default for VerticalAttachmentAnchor {
    /// A decoration hangs on the north side unless told otherwise.
    fn default() -> (anchor: VerticalAttachmentAnchor)
        ensures
            anchor == VerticalAttachmentAnchor::NorthWorld,
    {
        VerticalAttachmentAnchor::NorthWorld
    }
}

/// How a decoration follows the position of its owner.
#[derive(Clone, Copy, Debug, PartialEq, Eq, Structural)]
pub struct CopyPositionArgs {
    pub offset: Vec3,
    pub horizontal_alignment: Alignment,
    pub vertical_alignment: Alignment,
    pub horizontal_anchor: HorizontalAttachmentAnchor,
    pub vertical_anchor: VerticalAttachmentAnchor,
}

/// Picture shown by a marker.
#[derive(Clone, Copy, Debug, PartialEq, Eq, Structural)]
pub enum MarkerIcon {
    EquivalenceAnnotation,
}

/// Path of an icon's picture among the assets.
pub open spec fn spec_icon_path(icon: MarkerIcon) -> Seq<char> {
    match icon {
        MarkerIcon::EquivalenceAnnotation => "label-icons/equivalence_annotation.png"@,
    }
}

impl MarkerIcon {
    pub fn asset_path(self) -> (path: &'static str)
        ensures
            path@ == spec_icon_path(self),
    {
        match self {
            MarkerIcon::EquivalenceAnnotation => "label-icons/equivalence_annotation.png",
        }
    }
}

/// On a label or marker: the node it decorates and how it is laid out.
/// The decoration refers to its owner and does not own it.
#[derive(Clone, Copy, Debug, PartialEq, Eq, Structural)]
pub struct Decoration {
    pub owner: SceneNode,
    pub size: Vec2,
    pub copy_position: Option<CopyPositionArgs>,
    pub icon: Option<MarkerIcon>,
    pub auto_contrast_text: bool,
    pub follows_owner: bool,
}

/// Who hears of it when a node is dragged.
#[derive(Clone, Copy, Debug, PartialEq, Eq, Structural)]
pub enum DragSubscriber {
    ExternalEntityDrag,
}

/// A drag of an external entity, republished for the input handling.
#[derive(Clone, Copy, Debug, PartialEq, Eq, Structural)]
pub struct ExternalEntityDrag {
    pub target: SceneNode,
    pub position: Vec2,
}

/// One node of the scene.
#[derive(Clone, Debug)]
pub struct NodeRecord {
    pub kind: SystemElement,
    pub parent: Option<SceneNode>,
    pub nesting_level: NestingLevel,
    pub name: String,
    pub description: String,
    pub transform: Transform,
    pub initial_position: Option<InitialPosition>,
    pub highlight: Option<HighlightBundles>,
    pub pick_selection: Option<PickSelection>,
    pub geometry: Option<MeshHandle>,
    pub subsystem: Option<Subsystem>,
    pub external_entity: Option<ExternalEntity>,
    pub flow_start: Option<FlowStartConnection>,
    pub flow_end: Option<FlowEndConnection>,
    pub is_same_as_id: Option<usize>,
    pub marker_label: Option<MarkerLabel>,
    pub decoration: Option<Decoration>,
    pub text: Option<String>,
    pub drag_subscriber: Option<DragSubscriber>,
}

/// The placement of a node that was not moved, turned or stretched.
pub open spec fn spec_identity_transform() -> Transform {
    Transform {
        translation: Vec3 { x: 0, y: 0, z: 0 },
        rotation: 0,
        scale: Vec3 { x: ONE as i64, y: ONE as i64, z: ONE as i64 },
    }
}

impl Transform {
    pub fn identity() -> (t: Transform)
        ensures
            t == spec_identity_transform(),
    {
        Transform {
            translation: Vec3 { x: 0, y: 0, z: 0 },
            rotation: 0,
            scale: Vec3 { x: ONE as i64, y: ONE as i64, z: ONE as i64 },
        }
    }
}

/// A record of the given kind and depth that carries nothing else.
pub open spec fn is_bare(record: NodeRecord, kind: SystemElement, level: u16) -> bool {
    &&& record.kind == kind
    &&& record.parent is None
    &&& record.nesting_level.level == level
    &&& record.name@ == Seq::<char>::empty()
    &&& record.description@ == Seq::<char>::empty()
    &&& record.transform == spec_identity_transform()
    &&& record.initial_position is None
    &&& record.highlight is None
    &&& record.pick_selection is None
    &&& record.geometry is None
    &&& record.subsystem is None
    &&& record.external_entity is None
    &&& record.flow_start is None
    &&& record.flow_end is None
    &&& record.is_same_as_id is None
    &&& record.marker_label is None
    &&& record.decoration is None
    &&& record.text is None
    &&& record.drag_subscriber is None
}

impl NodeRecord {
    /// A record of the given kind and depth with no other component.
    pub fn bare(kind: SystemElement, level: u16) -> (record: NodeRecord)
        ensures
            is_bare(record, kind, level),
    {
        NodeRecord {
            kind,
            parent: None,
            nesting_level: NestingLevel::new(level),
            name: String::new(),
            description: String::new(),
            transform: Transform::identity(),
            initial_position: None,
            highlight: None,
            pick_selection: None,
            geometry: None,
            subsystem: None,
            external_entity: None,
            flow_start: None,
            flow_end: None,
            is_same_as_id: None,
            marker_label: None,
            decoration: None,
            text: None,
            drag_subscriber: None,
        }
    }
}

} // verus!
