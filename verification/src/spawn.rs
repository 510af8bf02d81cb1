//! Spawning external entities and wiring them to their flows.

use vstd::prelude::*;
use crate::components::{
    spec_flow_color_default, DragSubscriber, EndTargetType, ExternalEntity, FlowEndConnection,
    FlowStartConnection, HighlightBundles, InitialPosition, InterfaceType, LineCap, NodeRecord,
    PickSelection, SceneNode, StartTargetType, Stroke, SubstanceType, SystemElement, Transform,
    BUTTON_WIDTH_HALF, EXTERNAL_ENTITY_LINE_WIDTH, EXTERNAL_ENTITY_SELECTED_LINE_WIDTH,
    EXTERNAL_ENTITY_WIDTH_HALF,
};
use crate::geometry::{
    cache_matches_store, get_or_create_post, spec_geometry_for, spec_scale_factor,
    FixedSystemElementGeometriesByNestingLevel, FixedSystemElementGeometry, MeshStore,
};
use crate::nesting::NestingLevel;
use crate::scene::{lemma_push_keeps_wf, record_wf, Scene};
use crate::units::{whole, Factor, ONE};

verus! {

/// How far right of a placement point the centre of a new external entity
/// lies, as a fixed-point length. Placed from a creation button, the entity
/// touches the button's far edge. Placed freely, it is set off by its half
/// width as seen at the current zoom, which no length can express at zoom
/// zero.
pub open spec fn spec_external_entity_offset(consider_button: bool, zoom: Factor) -> Option<int> {
    if consider_button {
        Some((EXTERNAL_ENTITY_WIDTH_HALF - BUTTON_WIDTH_HALF) * ONE)
    } else if zoom.raw == 0 {
        None
    } else {
        Some((EXTERNAL_ENTITY_WIDTH_HALF * ONE * ONE) / (zoom.raw as int))
    }
}

/// The offset to hand to the placement of a new external entity.
pub fn external_entity_offset(consider_button: bool, zoom: Factor) -> (offset: Option<i64>)
    ensures
        offset is Some <==> spec_external_entity_offset(consider_button, zoom) is Some,
        offset matches Some(length) ==> spec_external_entity_offset(consider_button, zoom)
            == Some(length as int),
{
    let half_width: i64 = EXTERNAL_ENTITY_WIDTH_HALF as i64;
    let button_half_width: i64 = BUTTON_WIDTH_HALF as i64;
    let one: i64 = ONE as i64;
    assert(half_width == 19 && button_half_width == 8 && one == 65536);
    if consider_button {
        Some((half_width - button_half_width) * one)
    } else if zoom.raw == 0 {
        None
    } else {
        Some(half_width * one * one / (zoom.raw as i64))
    }
}

/// The outlines of an external entity at a scale: the idle outline grows with
/// the scale, the outline of a selected entity has one width at every scale
/// and round ends. Both have the colour of the substance.
pub open spec fn spec_external_entity_highlight(
    substance_type: SubstanceType,
    scale: Factor,
) -> HighlightBundles {
    HighlightBundles {
        idle: Stroke {
            color: spec_flow_color_default(substance_type),
            line_width: (EXTERNAL_ENTITY_LINE_WIDTH * scale.raw) as u64,
            line_cap: LineCap::Butt,
        },
        selected: Stroke {
            color: spec_flow_color_default(substance_type),
            line_width: (EXTERNAL_ENTITY_SELECTED_LINE_WIDTH * ONE) as u64,
            line_cap: LineCap::Round,
        },
    }
}

/// The outlines of an external entity at a scale.
pub fn external_entity_highlight(substance_type: SubstanceType, scale: Factor) -> (highlight:
    HighlightBundles)
    ensures
        highlight == spec_external_entity_highlight(substance_type, scale),
{
    let color = substance_type.flow_color_default();
    let idle_width: u64 = EXTERNAL_ENTITY_LINE_WIDTH as u64;
    let selected_width: i64 = whole(EXTERNAL_ENTITY_SELECTED_LINE_WIDTH as i32);
    assert(idle_width == 3 && selected_width == 5 * 65536);
    HighlightBundles {
        idle: Stroke { color, line_width: idle_width * (scale.raw as u64), line_cap: LineCap::Butt },
        selected: Stroke { color, line_width: selected_width as u64, line_cap: LineCap::Round },
    }
}

/// Everything that a freshly spawned external entity carries, but for its
/// parent: the given placement, name and description, empty equivalence and
/// model texts, the outlines of its substance at the scale of its depth and
/// the zoom, the outline shape made for that depth and zoom, the selection
/// flag, and a subscriber that republishes its drags. It has no identifier,
/// no marker and no connection yet.
pub open spec fn is_external_entity_record(
    record: NodeRecord,
    substance_type: SubstanceType,
    is_selected: bool,
    name: Seq<char>,
    description: Seq<char>,
    transform: Transform,
    initial_position: InitialPosition,
    nesting_level: u16,
    zoom: Factor,
    geometry: FixedSystemElementGeometry,
) -> bool {
    &&& record.kind is ExternalEntity
    &&& record.nesting_level.level == nesting_level
    &&& record.name@ == name
    &&& record.description@ == description
    &&& record.transform == transform
    &&& record.initial_position == Some(initial_position)
    &&& record.highlight == Some(
        spec_external_entity_highlight(substance_type, spec_scale_factor(nesting_level, zoom)),
    )
    &&& record.pick_selection == Some(PickSelection { is_selected })
    &&& record.geometry == Some(geometry.external_entity)
    &&& record.subsystem is None
    &&& record.external_entity matches Some(entity) ==> {
        &&& entity.equivalence@ == Seq::<char>::empty()
        &&& entity.model@ == Seq::<char>::empty()
    }
    &&& record.external_entity is Some
    &&& record.flow_start is None
    &&& record.flow_end is None
    &&& record.is_same_as_id is None
    &&& record.marker_label is None
    &&& record.decoration is None
    &&& record.text is None
    &&& record.drag_subscriber == Some(DragSubscriber::ExternalEntityDrag)
}

/// The parent of an external entity spawned under a focused system: the
/// container of the focused system where that is a subsystem, so that the
/// entity stands outside the subsystem's box; none where it is not.
pub open spec fn spec_parent_under(focused: NodeRecord) -> Option<SceneNode> {
    match focused.subsystem {
        Some(subsystem) => Some(subsystem.parent_system),
        None => None,
    }
}

/// The flow after the new entity was wired to it: an import makes the entity
/// the source at the flow's start, an export makes it the sink at the flow's
/// end, and the other end stays as it was.
pub open spec fn is_wired(
    after: NodeRecord,
    before: NodeRecord,
    interface_type: InterfaceType,
    entity: SceneNode,
) -> bool {
    match interface_type {
        InterfaceType::Import => after == (NodeRecord {
            flow_start: Some(
                FlowStartConnection { target: entity, target_type: StartTargetType::Source },
            ),
            ..before
        }),
        InterfaceType::Export => after == (NodeRecord {
            flow_end: Some(FlowEndConnection { target: entity, target_type: EndTargetType::Sink }),
            ..before
        }),
    }
}

/// Spawns an external entity from resolved parameters: no system is looked
/// up, nothing is wired, and the node has no parent. The node is queued for
/// its name label.
pub fn spawn_external_entity_only(
    scene: &mut Scene,
    substance_type: SubstanceType,
    is_selected: bool,
    name: &str,
    description: &str,
    transform: Transform,
    initial_position: InitialPosition,
    nesting_level: u16,
    zoom: Factor,
    fixed_system_element_geometries: &mut FixedSystemElementGeometriesByNestingLevel,
    meshes: &mut MeshStore,
) -> (node: SceneNode)
    requires
        old(scene).wf(),
    ensures
        final(scene).wf(),
        node.index == old(scene).nodes@.len(),
        final(scene).nodes@.len() == old(scene).nodes@.len() + 1,
        forall|i: int|
            0 <= i < old(scene).nodes@.len() ==> final(scene).nodes@[i] == old(scene).nodes@[i],
        is_external_entity_record(
            final(scene).nodes@[node.index as int],
            substance_type,
            is_selected,
            name@,
            description@,
            transform,
            initial_position,
            nesting_level,
            zoom,
            spec_geometry_for(
                old(fixed_system_element_geometries)@,
                old(meshes)@,
                nesting_level,
                zoom,
            ),
        ),
        final(scene).nodes@[node.index as int].parent is None,
        final(scene).added_external_entities@ == old(scene).added_external_entities@.push(node),
        final(scene).added_is_same_as@ == old(scene).added_is_same_as@,
        final(scene).changed_is_same_as@ == old(scene).changed_is_same_as@,
        final(scene).drag_events@ == old(scene).drag_events@,
        get_or_create_post(
            old(fixed_system_element_geometries)@,
            old(meshes)@,
            final(fixed_system_element_geometries)@,
            final(meshes)@,
            nesting_level,
            zoom,
            spec_geometry_for(
                old(fixed_system_element_geometries)@,
                old(meshes)@,
                nesting_level,
                zoom,
            ),
        ),
        cache_matches_store(old(fixed_system_element_geometries)@, old(meshes)@)
            ==> cache_matches_store(final(fixed_system_element_geometries)@, final(meshes)@),
{
    let scale = NestingLevel::compute_scale(nesting_level, zoom);
    let geometry = fixed_system_element_geometries.get_or_create(nesting_level, zoom, meshes);
    let record = NodeRecord {
        kind: SystemElement::ExternalEntity,
        parent: None,
        nesting_level: NestingLevel::new(nesting_level),
        name: name.to_owned(),
        description: description.to_owned(),
        transform,
        initial_position: Some(initial_position),
        highlight: Some(external_entity_highlight(substance_type, scale)),
        pick_selection: Some(PickSelection { is_selected }),
        geometry: Some(geometry.external_entity),
        subsystem: None,
        external_entity: Some(ExternalEntity { equivalence: String::new(), model: String::new() }),
        flow_start: None,
        flow_end: None,
        is_same_as_id: None,
        marker_label: None,
        decoration: None,
        text: None,
        drag_subscriber: Some(DragSubscriber::ExternalEntityDrag),
    };
    let index = scene.nodes.len();
    scene.nodes.push(record);
    scene.added_external_entities.push(SceneNode { index });
    proof {
        lemma_push_keeps_wf(*old(scene), *scene);
    }
    SceneNode { index }
}

/// Spawns an external entity under the focused system and wires it to a
/// flow. The entity takes the depth of the focused system. Where the focused
/// system is a subsystem, the entity becomes a child of the system that
/// contains the subsystem; else it has no parent. An import makes it the
/// source of the flow, an export the sink, in place of what the flow had at
/// that end.
pub fn spawn_external_entity(
    scene: &mut Scene,
    focused_system: SceneNode,
    interface_type: InterfaceType,
    substance_type: SubstanceType,
    flow_entity: SceneNode,
    transform: Transform,
    initial_position: InitialPosition,
    fixed_system_element_geometries: &mut FixedSystemElementGeometriesByNestingLevel,
    zoom: Factor,
    is_selected: bool,
    meshes: &mut MeshStore,
    name: &str,
    description: &str,
) -> (node: SceneNode)
    requires
        old(scene).wf(),
        old(scene).spec_contains(focused_system),
        old(scene).spec_contains(flow_entity),
    ensures
        final(scene).wf(),
        node.index == old(scene).nodes@.len(),
        final(scene).nodes@.len() == old(scene).nodes@.len() + 1,
        forall|i: int|
            0 <= i < old(scene).nodes@.len() && i != flow_entity.index ==> final(scene).nodes@[i]
                == old(scene).nodes@[i],
        is_wired(
            final(scene).nodes@[flow_entity.index as int],
            old(scene).nodes@[flow_entity.index as int],
            interface_type,
            node,
        ),
        is_external_entity_record(
            final(scene).nodes@[node.index as int],
            substance_type,
            is_selected,
            name@,
            description@,
            transform,
            initial_position,
            old(scene).nodes@[focused_system.index as int].nesting_level.level,
            zoom,
            spec_geometry_for(
                old(fixed_system_element_geometries)@,
                old(meshes)@,
                old(scene).nodes@[focused_system.index as int].nesting_level.level,
                zoom,
            ),
        ),
        final(scene).nodes@[node.index as int].parent == spec_parent_under(
            old(scene).nodes@[focused_system.index as int],
        ),
        final(scene).added_external_entities@ == old(scene).added_external_entities@.push(node),
        final(scene).added_is_same_as@ == old(scene).added_is_same_as@,
        final(scene).changed_is_same_as@ == old(scene).changed_is_same_as@,
        final(scene).drag_events@ == old(scene).drag_events@,
        get_or_create_post(
            old(fixed_system_element_geometries)@,
            old(meshes)@,
            final(fixed_system_element_geometries)@,
            final(meshes)@,
            old(scene).nodes@[focused_system.index as int].nesting_level.level,
            zoom,
            spec_geometry_for(
                old(fixed_system_element_geometries)@,
                old(meshes)@,
                old(scene).nodes@[focused_system.index as int].nesting_level.level,
                zoom,
            ),
        ),
        cache_matches_store(old(fixed_system_element_geometries)@, old(meshes)@)
            ==> cache_matches_store(final(fixed_system_element_geometries)@, final(meshes)@),
{
    let nesting_level = NestingLevel::current(focused_system, scene);
    let container = match scene.nodes[focused_system.index].subsystem {
        Some(subsystem) => Some(subsystem.parent_system),
        None => None,
    };
    proof {
        assert(record_wf(old(scene).nodes@, focused_system.index as int));
    }

    let external_entity = spawn_external_entity_only(
        scene,
        substance_type,
        is_selected,
        name,
        description,
        transform,
        initial_position,
        nesting_level,
        zoom,
        fixed_system_element_geometries,
        meshes,
    );

    if let Some(parent_system) = container {
        scene.set_parent(external_entity, parent_system);
    }

    match interface_type {
        InterfaceType::Import => {
            scene.insert_flow_start(
                flow_entity,
                FlowStartConnection { target: external_entity, target_type: StartTargetType::Source },
            );
        },
        InterfaceType::Export => {
            scene.insert_flow_end(
                flow_entity,
                FlowEndConnection { target: external_entity, target_type: EndTargetType::Sink },
            );
        },
    }

    external_entity
}

} // verus!
