use bert::components::{
    Color, DragSubscriber, EndTargetType, FlowEndConnection, FlowStartConnection, InitialPosition,
    InterfaceType, LineCap, PickSelection, SceneNode, StartTargetType, Stroke, SubstanceType,
    SystemElement, Transform,
};
use bert::geometry::{FixedSystemElementGeometriesByNestingLevel, MeshHandle, MeshStore};
use bert::scene::Scene;
use bert::spawn::{
    external_entity_highlight, external_entity_offset, spawn_external_entity,
    spawn_external_entity_only,
};
use bert::units::{Factor, Vec2, Vec3};

fn placed_at(x: i64, y: i64) -> (Transform, InitialPosition) {
    let mut transform = Transform::identity();
    transform.translation = Vec3 { x, y, z: 65536 };
    (transform, InitialPosition { position: Vec2 { x, y } })
}

#[test]
fn entity_under_a_subsystem_is_parented_to_the_containing_system() {
    let mut scene = Scene::new();
    let mut cache = FixedSystemElementGeometriesByNestingLevel::new();
    let mut meshes = MeshStore::new();
    let root = scene.spawn_system();
    let subsystem = scene.spawn_subsystem(root).unwrap();
    let flow = scene.spawn_flow(1);
    let (transform, position) = placed_at(10, 20);
    let node = spawn_external_entity(
        &mut scene,
        subsystem,
        InterfaceType::Import,
        SubstanceType::Energy,
        flow,
        transform,
        position,
        &mut cache,
        Factor { raw: 65536 },
        false,
        &mut meshes,
        "Sun",
        "Source of light",
    );
    assert_eq!(scene.nodes[node.index].parent, Some(root));
    assert_ne!(scene.nodes[node.index].parent, Some(subsystem));
    assert_eq!(scene.nodes[node.index].nesting_level.level, 1);
}

#[test]
fn entity_under_a_nested_subsystem_is_parented_one_level_up() {
    let mut scene = Scene::new();
    let mut cache = FixedSystemElementGeometriesByNestingLevel::new();
    let mut meshes = MeshStore::new();
    let root = scene.spawn_system();
    let outer = scene.spawn_subsystem(root).unwrap();
    let inner = scene.spawn_subsystem(outer).unwrap();
    let flow = scene.spawn_flow(2);
    let (transform, position) = placed_at(0, 0);
    let node = spawn_external_entity(
        &mut scene,
        inner,
        InterfaceType::Export,
        SubstanceType::Material,
        flow,
        transform,
        position,
        &mut cache,
        Factor { raw: 65536 },
        false,
        &mut meshes,
        "Waste",
        "",
    );
    assert_eq!(scene.nodes[node.index].parent, Some(outer));
    assert_eq!(scene.nodes[node.index].nesting_level.level, 2);
}

#[test]
fn entity_under_a_top_level_system_has_no_parent() {
    let mut scene = Scene::new();
    let mut cache = FixedSystemElementGeometriesByNestingLevel::new();
    let mut meshes = MeshStore::new();
    let root = scene.spawn_system();
    let flow = scene.spawn_flow(0);
    let (transform, position) = placed_at(0, 0);
    let node = spawn_external_entity(
        &mut scene,
        root,
        InterfaceType::Export,
        SubstanceType::Message,
        flow,
        transform,
        position,
        &mut cache,
        Factor { raw: 65536 },
        true,
        &mut meshes,
        "Customer",
        "Buys things",
    );
    assert_eq!(scene.nodes[node.index].parent, None);
    assert_eq!(scene.nodes[node.index].nesting_level.level, 0);
}

#[test]
fn import_sets_the_source_and_leaves_the_sink() {
    let mut scene = Scene::new();
    let mut cache = FixedSystemElementGeometriesByNestingLevel::new();
    let mut meshes = MeshStore::new();
    let root = scene.spawn_system();
    let flow = scene.spawn_flow(0);
    let (transform, position) = placed_at(0, 0);
    let node = spawn_external_entity(
        &mut scene,
        root,
        InterfaceType::Import,
        SubstanceType::Energy,
        flow,
        transform,
        position,
        &mut cache,
        Factor { raw: 65536 },
        false,
        &mut meshes,
        "Sun",
        "",
    );
    assert_eq!(
        scene.nodes[flow.index].flow_start,
        Some(FlowStartConnection { target: node, target_type: StartTargetType::Source })
    );
    assert_eq!(scene.nodes[flow.index].flow_end, None);
    assert_eq!(scene.nodes[flow.index].kind, SystemElement::Flow);
}

#[test]
fn export_sets_the_sink_and_leaves_the_source() {
    let mut scene = Scene::new();
    let mut cache = FixedSystemElementGeometriesByNestingLevel::new();
    let mut meshes = MeshStore::new();
    let root = scene.spawn_system();
    let flow = scene.spawn_flow(0);
    let (transform, position) = placed_at(0, 0);
    let source = spawn_external_entity(
        &mut scene,
        root,
        InterfaceType::Import,
        SubstanceType::Energy,
        flow,
        transform,
        position,
        &mut cache,
        Factor { raw: 65536 },
        false,
        &mut meshes,
        "Sun",
        "",
    );
    let sink = spawn_external_entity(
        &mut scene,
        root,
        InterfaceType::Export,
        SubstanceType::Energy,
        flow,
        transform,
        position,
        &mut cache,
        Factor { raw: 65536 },
        false,
        &mut meshes,
        "Space",
        "",
    );
    assert_eq!(
        scene.nodes[flow.index].flow_start,
        Some(FlowStartConnection { target: source, target_type: StartTargetType::Source })
    );
    assert_eq!(
        scene.nodes[flow.index].flow_end,
        Some(FlowEndConnection { target: sink, target_type: EndTargetType::Sink })
    );
}

#[test]
fn a_second_wiring_of_the_same_end_wins() {
    let mut scene = Scene::new();
    let mut cache = FixedSystemElementGeometriesByNestingLevel::new();
    let mut meshes = MeshStore::new();
    let root = scene.spawn_system();
    let flow = scene.spawn_flow(0);
    let (transform, position) = placed_at(0, 0);
    let first = spawn_external_entity(
        &mut scene, root, InterfaceType::Import, SubstanceType::Energy, flow, transform,
        position, &mut cache, Factor { raw: 65536 }, false, &mut meshes, "A", "",
    );
    let second = spawn_external_entity(
        &mut scene, root, InterfaceType::Import, SubstanceType::Energy, flow, transform,
        position, &mut cache, Factor { raw: 65536 }, false, &mut meshes, "B", "",
    );
    assert_ne!(first, second);
    assert_eq!(
        scene.nodes[flow.index].flow_start,
        Some(FlowStartConnection { target: second, target_type: StartTargetType::Source })
    );
    assert_eq!(scene.nodes[flow.index].flow_end, None);
}

#[test]
fn spawned_entity_carries_its_components() {
    let mut scene = Scene::new();
    let mut cache = FixedSystemElementGeometriesByNestingLevel::new();
    let mut meshes = MeshStore::new();
    let root = scene.spawn_system();
    let subsystem = scene.spawn_subsystem(root).unwrap();
    let flow = scene.spawn_flow(1);
    let (transform, position) = placed_at(-7, 9);
    let node = spawn_external_entity(
        &mut scene,
        subsystem,
        InterfaceType::Import,
        SubstanceType::Energy,
        flow,
        transform,
        position,
        &mut cache,
        Factor { raw: 65536 },
        true,
        &mut meshes,
        "Sun",
        "Source of light",
    );
    assert_eq!(node, SceneNode { index: 3 });
    assert_eq!(scene.len(), 4);
    let record = &scene.nodes[node.index];
    assert_eq!(record.kind, SystemElement::ExternalEntity);
    assert_eq!(record.name, "Sun");
    assert_eq!(record.description, "Source of light");
    assert_eq!(record.transform, transform);
    assert_eq!(record.initial_position, Some(position));
    assert_eq!(record.pick_selection, Some(PickSelection { is_selected: true }));
    assert_eq!(record.geometry, Some(MeshHandle { index: 1 }));
    assert_eq!(record.subsystem, None);
    assert_eq!(record.flow_start, None);
    assert_eq!(record.flow_end, None);
    assert_eq!(record.is_same_as_id, None);
    assert_eq!(record.marker_label, None);
    assert_eq!(record.decoration, None);
    assert_eq!(record.text, None);
    assert_eq!(record.drag_subscriber, Some(DragSubscriber::ExternalEntityDrag));
    let entity = record.external_entity.as_ref().unwrap();
    assert_eq!(entity.equivalence, "");
    assert_eq!(entity.model, "");
    let highlight = record.highlight.unwrap();
    let red = Color { red: 181, green: 27, blue: 27 };
    assert_eq!(highlight.idle, Stroke { color: red, line_width: 98304, line_cap: LineCap::Butt });
    assert_eq!(
        highlight.selected,
        Stroke { color: red, line_width: 327680, line_cap: LineCap::Round }
    );
    assert_eq!(scene.added_external_entities, vec![node]);
}

#[test]
fn spawning_leaves_the_other_nodes_alone() {
    let mut scene = Scene::new();
    let mut cache = FixedSystemElementGeometriesByNestingLevel::new();
    let mut meshes = MeshStore::new();
    let root = scene.spawn_system();
    let subsystem = scene.spawn_subsystem(root).unwrap();
    let flow = scene.spawn_flow(1);
    let other_flow = scene.spawn_flow(1);
    let (transform, position) = placed_at(0, 0);
    spawn_external_entity(
        &mut scene, subsystem, InterfaceType::Import, SubstanceType::Energy, flow, transform,
        position, &mut cache, Factor { raw: 65536 }, false, &mut meshes, "Sun", "",
    );
    assert_eq!(scene.nodes[root.index].kind, SystemElement::System);
    assert_eq!(scene.nodes[root.index].parent, None);
    assert_eq!(scene.nodes[subsystem.index].parent, Some(root));
    assert_eq!(scene.nodes[subsystem.index].kind, SystemElement::Subsystem);
    assert_eq!(scene.nodes[other_flow.index].flow_start, None);
    assert_eq!(scene.nodes[other_flow.index].flow_end, None);
    assert!(scene.added_is_same_as.is_empty());
    assert!(scene.changed_is_same_as.is_empty());
    assert!(scene.drag_events.is_empty());
}

#[test]
fn entities_at_one_level_and_zoom_share_their_geometry() {
    let mut scene = Scene::new();
    let mut cache = FixedSystemElementGeometriesByNestingLevel::new();
    let mut meshes = MeshStore::new();
    let root = scene.spawn_system();
    let flow = scene.spawn_flow(0);
    let (transform, position) = placed_at(0, 0);
    let zoom = Factor { raw: 131072 };
    let a = spawn_external_entity(
        &mut scene, root, InterfaceType::Import, SubstanceType::Energy, flow, transform,
        position, &mut cache, zoom, false, &mut meshes, "A", "",
    );
    let b = spawn_external_entity(
        &mut scene, root, InterfaceType::Export, SubstanceType::Energy, flow, transform,
        position, &mut cache, zoom, false, &mut meshes, "B", "",
    );
    assert_eq!(scene.nodes[a.index].geometry, scene.nodes[b.index].geometry);
    assert_eq!(meshes.len(), 2);
    let c = spawn_external_entity(
        &mut scene, root, InterfaceType::Export, SubstanceType::Energy, flow, transform,
        position, &mut cache, Factor { raw: 65536 }, false, &mut meshes, "C", "",
    );
    assert_ne!(scene.nodes[a.index].geometry, scene.nodes[c.index].geometry);
    assert_eq!(meshes.len(), 4);
}

#[test]
fn constructor_alone_neither_parents_nor_wires() {
    let mut scene = Scene::new();
    let mut cache = FixedSystemElementGeometriesByNestingLevel::new();
    let mut meshes = MeshStore::new();
    let flow = scene.spawn_flow(3);
    let (transform, position) = placed_at(1, 2);
    let node = spawn_external_entity_only(
        &mut scene,
        SubstanceType::Material,
        false,
        "Mine",
        "Ore",
        transform,
        position,
        3,
        Factor { raw: 65536 },
        &mut cache,
        &mut meshes,
    );
    assert_eq!(node, SceneNode { index: 1 });
    let record = &scene.nodes[node.index];
    assert_eq!(record.parent, None);
    assert_eq!(record.nesting_level.level, 3);
    assert_eq!(record.name, "Mine");
    assert_eq!(record.description, "Ore");
    assert_eq!(record.pick_selection, Some(PickSelection { is_selected: false }));
    assert_eq!(record.highlight.unwrap().idle.line_width, 3 * 8192);
    assert_eq!(record.highlight.unwrap().idle.color, Color { red: 64, green: 64, blue: 64 });
    assert_eq!(scene.nodes[flow.index].flow_start, None);
    assert_eq!(scene.nodes[flow.index].flow_end, None);
    assert_eq!(scene.added_external_entities, vec![node]);
}

#[test]
fn idle_outline_grows_with_the_scale() {
    let thin = external_entity_highlight(SubstanceType::Message, Factor { raw: 0 });
    assert_eq!(thin.idle.line_width, 0);
    assert_eq!(thin.selected.line_width, 327680);
    let wide = external_entity_highlight(SubstanceType::Message, Factor { raw: u32::MAX });
    assert_eq!(wide.idle.line_width, 3 * (u32::MAX as u64));
    assert_eq!(wide.selected.line_width, 327680);
    assert_eq!(wide.idle.color, Color { red: 160, green: 160, blue: 160 });
    assert_eq!(wide.idle.line_cap, LineCap::Butt);
    assert_eq!(wide.selected.line_cap, LineCap::Round);
}

#[test]
fn substances_have_their_colours() {
    assert_eq!(SubstanceType::Energy.flow_color_default(), Color { red: 181, green: 27, blue: 27 });
    assert_eq!(
        SubstanceType::Material.flow_color_default(),
        Color { red: 64, green: 64, blue: 64 }
    );
    assert_eq!(
        SubstanceType::Message.flow_color_default(),
        Color { red: 160, green: 160, blue: 160 }
    );
}

#[test]
fn offset_from_a_button_ignores_the_zoom() {
    assert_eq!(external_entity_offset(true, Factor { raw: 65536 }), Some(11 * 65536));
    assert_eq!(external_entity_offset(true, Factor { raw: 1 }), Some(11 * 65536));
    assert_eq!(external_entity_offset(true, Factor { raw: 0 }), Some(11 * 65536));
}

#[test]
fn free_offset_is_the_half_width_over_the_zoom() {
    assert_eq!(external_entity_offset(false, Factor { raw: 65536 }), Some(19 * 65536));
    assert_eq!(external_entity_offset(false, Factor { raw: 131072 }), Some(622592));
    assert_eq!(external_entity_offset(false, Factor { raw: 32768 }), Some(38 * 65536));
    assert_eq!(external_entity_offset(false, Factor { raw: 1 }), Some(19 * 65536 * 65536));
    assert_eq!(external_entity_offset(false, Factor { raw: u32::MAX }), Some(19));
    assert_eq!(external_entity_offset(false, Factor { raw: 3 }), Some(27201459541));
}

#[test]
fn free_offset_at_zoom_zero_is_none() {
    assert_eq!(external_entity_offset(false, Factor { raw: 0 }), None);
}

#[test]
fn entity_at_zoom_zero_has_no_extent() {
    let mut scene = Scene::new();
    let mut cache = FixedSystemElementGeometriesByNestingLevel::new();
    let mut meshes = MeshStore::new();
    let root = scene.spawn_system();
    let flow = scene.spawn_flow(0);
    let (transform, position) = placed_at(0, 0);
    let node = spawn_external_entity(
        &mut scene, root, InterfaceType::Import, SubstanceType::Energy, flow, transform,
        position, &mut cache, Factor { raw: 0 }, false, &mut meshes, "", "",
    );
    let record = &scene.nodes[node.index];
    assert_eq!(record.highlight.unwrap().idle.line_width, 0);
    assert_eq!(record.highlight.unwrap().selected.line_width, 327680);
    assert_eq!(record.name, "");
    assert_eq!(meshes.get(record.geometry.unwrap()).unwrap().scale, Factor { raw: 0 });
    assert!(scene.is_well_formed());
}

#[test]
fn entity_deep_down_is_drawn_at_the_scale_of_its_depth() {
    let mut scene = Scene::new();
    let mut cache = FixedSystemElementGeometriesByNestingLevel::new();
    let mut meshes = MeshStore::new();
    let root = scene.spawn_system();
    let a = scene.spawn_subsystem(root).unwrap();
    let b = scene.spawn_subsystem(a).unwrap();
    let c = scene.spawn_subsystem(b).unwrap();
    let flow = scene.spawn_flow(3);
    let (transform, position) = placed_at(0, 0);
    let node = spawn_external_entity(
        &mut scene, c, InterfaceType::Export, SubstanceType::Material, flow, transform,
        position, &mut cache, Factor { raw: 2 * 65536 }, false, &mut meshes, "Dump", "",
    );
    let record = &scene.nodes[node.index];
    assert_eq!(record.nesting_level.level, 3);
    assert_eq!(record.parent, Some(b));
    assert_eq!(record.highlight.unwrap().idle.line_width, 3 * 16384);
    assert_eq!(meshes.get(record.geometry.unwrap()).unwrap().scale, Factor { raw: 16384 });
    assert_eq!(cache.get(3, Factor { raw: 2 * 65536 }).unwrap().external_entity, record.geometry.unwrap());
}
