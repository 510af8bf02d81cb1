//! Decorations that follow from what was added or changed: name labels of
//! external entities, markers of equivalence identifiers, and the text of
//! those markers.
//!
//! Each procedure works off one queue of the scene and empties it, so that a
//! node is decorated once, whichever code path spawned it.

use vstd::prelude::*;
use crate::components::{
    is_bare, Alignment, CopyPositionArgs, Decoration, HorizontalAttachmentAnchor, MarkerIcon,
    MarkerLabel, NodeRecord, SceneNode, SystemElement, VerticalAttachmentAnchor,
    BUTTON_WIDTH_HALF, LABEL_Z, NAME_LABEL_HEIGHT, NAME_LABEL_WIDTH,
};
use crate::decimal::{decimal_string, spec_decimal};
use crate::scene::{record_wf, Scene};
use crate::units::{spec_whole, whole, Vec2, Vec3, ONE};

verus! {

/// How a name label hangs on its owner: one unit to the right, aligned
/// automatically across and centred down, on the sides that a decoration
/// hangs on by default, on a fixed footprint, following the owner wherever
/// it goes.
pub open spec fn spec_name_label_decoration(owner: SceneNode) -> Decoration {
    Decoration {
        owner,
        size: Vec2 {
            x: spec_whole(NAME_LABEL_WIDTH) as i64,
            y: spec_whole(NAME_LABEL_HEIGHT) as i64,
        },
        copy_position: Some(
            CopyPositionArgs {
                offset: Vec3 { x: spec_whole(1) as i64, y: 0, z: 0 },
                horizontal_alignment: Alignment::Auto,
                vertical_alignment: Alignment::Center,
                horizontal_anchor: HorizontalAttachmentAnchor::EastWorld,
                vertical_anchor: VerticalAttachmentAnchor::NorthWorld,
            },
        ),
        icon: None,
        auto_contrast_text: false,
        follows_owner: true,
    }
}

/// How an equivalence marker hangs on its owner: a badge as wide as a button
/// at the north-west corner of the owner's box, on the label layer, with the
/// equivalence icon and a text colour chosen against it.
pub open spec fn spec_marker_decoration(owner: SceneNode) -> Decoration {
    Decoration {
        owner,
        size: Vec2 {
            x: (2 * BUTTON_WIDTH_HALF * ONE) as i64,
            y: (2 * BUTTON_WIDTH_HALF * ONE) as i64,
        },
        copy_position: Some(
            CopyPositionArgs {
                offset: Vec3 {
                    x: spec_whole(10) as i64,
                    y: spec_whole(10) as i64,
                    z: spec_whole(LABEL_Z) as i64,
                },
                horizontal_alignment: Alignment::Center,
                vertical_alignment: Alignment::Center,
                horizontal_anchor: HorizontalAttachmentAnchor::WestLocal,
                vertical_anchor: VerticalAttachmentAnchor::NorthWorld,
            },
        ),
        icon: Some(MarkerIcon::EquivalenceAnnotation),
        auto_contrast_text: true,
        follows_owner: true,
    }
}

/// The record is the name label of `owner`: a label at the owner's depth that
/// shows the owner's name.
pub open spec fn is_name_label(record: NodeRecord, owner: SceneNode, owner_record: NodeRecord) -> bool {
    &&& is_bare(
        NodeRecord { decoration: None, text: None, ..record },
        SystemElement::NameLabel,
        owner_record.nesting_level.level,
    )
    &&& record.decoration == Some(spec_name_label_decoration(owner))
    &&& record.text is Some
    &&& record.text matches Some(text) ==> text@ == owner_record.name@
}

/// The record is the equivalence marker of `owner`: a marker at the owner's
/// depth that shows the owner's identifier in decimal.
pub open spec fn is_marker(record: NodeRecord, owner: SceneNode, owner_record: NodeRecord) -> bool {
    &&& is_bare(
        NodeRecord { decoration: None, text: None, ..record },
        SystemElement::Marker,
        owner_record.nesting_level.level,
    )
    &&& record.decoration == Some(spec_marker_decoration(owner))
    &&& record.text is Some
    &&& owner_record.is_same_as_id is Some
    &&& record.text matches Some(text) ==> text@ == spec_decimal(
        owner_record.is_same_as_id.unwrap() as nat,
    )
}

/// Whether a node stands among the first `k` entries of a queue.
pub open spec fn queued_before(queue: Seq<SceneNode>, k: int, node: SceneNode) -> bool {
    exists|j: int| 0 <= j < k && j < queue.len() && #[trigger] queue[j] == node
}

/// A node among the first `k` entries stands among the first `k + 1`.
proof fn lemma_queued_one_later(queue: Seq<SceneNode>, k: int, node: SceneNode)
    requires
        queued_before(queue, k, node),
    ensures
        queued_before(queue, k + 1, node),
{
    let j = choose|j: int| 0 <= j < k && j < queue.len() && #[trigger] queue[j] == node;
}

/// A node among all the entries of a queue is contained in it.
proof fn lemma_queued_is_contained(queue: Seq<SceneNode>, node: SceneNode)
    requires
        queued_before(queue, queue.len() as int, node),
    ensures
        queue.contains(node),
{
    let j = choose|j: int| 0 <= j < queue.len() && j < queue.len() && #[trigger] queue[j] == node;
}

fn name_label_decoration(owner: SceneNode) -> (decoration: Decoration)
    ensures
        decoration == spec_name_label_decoration(owner),
{
    Decoration {
        owner,
        size: Vec2 { x: whole(NAME_LABEL_WIDTH), y: whole(NAME_LABEL_HEIGHT) },
        copy_position: Some(
            CopyPositionArgs {
                offset: Vec3 { x: whole(1), y: 0, z: 0 },
                horizontal_alignment: Alignment::Auto,
                vertical_alignment: Alignment::Center,
                horizontal_anchor: HorizontalAttachmentAnchor::default(),
                vertical_anchor: VerticalAttachmentAnchor::default(),
            },
        ),
        icon: None,
        auto_contrast_text: false,
        follows_owner: true,
    }
}

fn marker_decoration(owner: SceneNode) -> (decoration: Decoration)
    ensures
        decoration == spec_marker_decoration(owner),
{
    let button_width: i64 = 2 * whole(BUTTON_WIDTH_HALF as i32);
    Decoration {
        owner,
        size: Vec2 { x: button_width, y: button_width },
        copy_position: Some(
            CopyPositionArgs {
                offset: Vec3 { x: whole(10), y: whole(10), z: whole(LABEL_Z) },
                horizontal_alignment: Alignment::Center,
                vertical_alignment: Alignment::Center,
                horizontal_anchor: HorizontalAttachmentAnchor::WestLocal,
                vertical_anchor: VerticalAttachmentAnchor::NorthWorld,
            },
        ),
        icon: Some(MarkerIcon::EquivalenceAnnotation),
        auto_contrast_text: true,
        follows_owner: true,
    }
}

/// Gives every external entity that was spawned since the last pass its name
/// label. The labels are appended in the order of the queue, the queue is
/// emptied, and no node that was there is touched.
pub fn auto_spawn_external_entity_label(scene: &mut Scene)
    requires
        old(scene).wf(),
    ensures
        final(scene).wf(),
        final(scene).nodes@.len() == old(scene).nodes@.len() + old(
            scene,
        ).added_external_entities@.len(),
        forall|i: int|
            0 <= i < old(scene).nodes@.len() ==> final(scene).nodes@[i] == old(scene).nodes@[i],
        forall|i: int|
            old(scene).nodes@.len() <= i < final(scene).nodes@.len() ==> is_name_label(
                #[trigger] final(scene).nodes@[i],
                old(scene).added_external_entities@[i - old(scene).nodes@.len()],
                old(scene).nodes@[old(scene).added_external_entities@[i - old(
                    scene,
                ).nodes@.len()].index as int],
            ),
        final(scene).added_external_entities@.len() == 0,
        final(scene).added_is_same_as@ == old(scene).added_is_same_as@,
        final(scene).changed_is_same_as@ == old(scene).changed_is_same_as@,
        final(scene).drag_events@ == old(scene).drag_events@,
{
    let ghost before_len = scene.nodes@.len();
    let pending = scene.added_external_entities.len();
    let mut k: usize = 0;
    while k < pending
        invariant
            old(scene).wf(),
            before_len == old(scene).nodes@.len(),
            pending == old(scene).added_external_entities@.len(),
            0 <= k <= pending,
            scene.added_external_entities@ == old(scene).added_external_entities@,
            scene.added_is_same_as@ == old(scene).added_is_same_as@,
            scene.changed_is_same_as@ == old(scene).changed_is_same_as@,
            scene.drag_events@ == old(scene).drag_events@,
            scene.nodes@.len() == before_len + k,
            forall|i: int| 0 <= i < before_len ==> scene.nodes@[i] == old(scene).nodes@[i],
            forall|i: int|
                before_len <= i < before_len + k ==> is_name_label(
                    #[trigger] scene.nodes@[i],
                    old(scene).added_external_entities@[i - before_len],
                    old(scene).nodes@[old(scene).added_external_entities@[i - before_len].index as int],
                ),
        decreases pending - k,
    {
        let owner = scene.added_external_entities[k];
        let level = scene.nodes[owner.index].nesting_level.level;
        let mut label = NodeRecord::bare(SystemElement::NameLabel, level);
        label.decoration = Some(name_label_decoration(owner));
        label.text = Some(scene.nodes[owner.index].name.clone());
        scene.nodes.push(label);
        k = k + 1;
    }
    scene.added_external_entities.clear();
    proof {
        assert forall|i: int| 0 <= i < scene.nodes@.len() implies #[trigger] record_wf(
            scene.nodes@,
            i,
        ) by {
            if i < before_len {
                assert(record_wf(old(scene).nodes@, i));
            }
        }
    }
}

/// Whether a record names the node at `j` as its marker.
pub open spec fn names_marker(record: NodeRecord, j: int) -> bool {
    record.marker_label matches Some(marker) && marker.label.index == j
}

/// The scene after every node of the queue of added identifiers was given
/// its marker. The markers stand behind the nodes that were there, in the
/// order of the queue, and show the identifiers in decimal. Each holder names
/// its marker and is otherwise as it was; a node that was not queued is
/// untouched. The queue is empty, the other queues are as they were.
pub open spec fn markers_spawned(before: Scene, after: Scene) -> bool {
    &&& after.nodes@.len() == before.nodes@.len() + before.added_is_same_as@.len()
    &&& forall|i: int|
        before.nodes@.len() <= i < after.nodes@.len() ==> is_marker(
            #[trigger] after.nodes@[i],
            before.added_is_same_as@[i - before.nodes@.len()],
            before.nodes@[before.added_is_same_as@[i - before.nodes@.len()].index as int],
        )
    &&& forall|k: int|
        0 <= k < before.added_is_same_as@.len() ==> names_marker(
            after.nodes@[(#[trigger] before.added_is_same_as@[k]).index as int],
            before.nodes@.len() + k,
        )
    &&& forall|i: int|
        0 <= i < before.nodes@.len() ==> #[trigger] after.nodes@[i] == (NodeRecord {
            marker_label: after.nodes@[i].marker_label,
            ..before.nodes@[i]
        })
    &&& forall|node: SceneNode|
        node.index < before.nodes@.len() && !(#[trigger] before.added_is_same_as@.contains(node))
            ==> after.nodes@[node.index as int] == before.nodes@[node.index as int]
    &&& after.added_is_same_as@.len() == 0
    &&& after.added_external_entities@ == before.added_external_entities@
    &&& after.changed_is_same_as@ == before.changed_is_same_as@
    &&& after.drag_events@ == before.drag_events@
}

/// Gives every node that received an equivalence identifier since the last
/// pass its marker, and empties the queue.
pub fn auto_spawn_source_sink_equivalence(scene: &mut Scene)
    requires
        old(scene).wf(),
    ensures
        final(scene).wf(),
        markers_spawned(*old(scene), *final(scene)),
{
    let ghost before_len = scene.nodes@.len();
    let ghost queue = scene.added_is_same_as@;
    let pending = scene.added_is_same_as.len();
    let mut k: usize = 0;
    while k < pending
        invariant
            old(scene).wf(),
            before_len == old(scene).nodes@.len(),
            queue == old(scene).added_is_same_as@,
            pending == queue.len(),
            0 <= k <= pending,
            scene.added_is_same_as@ == queue,
            scene.added_external_entities@ == old(scene).added_external_entities@,
            scene.changed_is_same_as@ == old(scene).changed_is_same_as@,
            scene.drag_events@ == old(scene).drag_events@,
            scene.nodes@.len() == before_len + k,
            forall|i: int|
                0 <= i < before_len ==> #[trigger] scene.nodes@[i] == (NodeRecord {
                    marker_label: scene.nodes@[i].marker_label,
                    ..old(scene).nodes@[i]
                }),
            forall|i: int|
                before_len <= i < before_len + k ==> is_marker(
                    #[trigger] scene.nodes@[i],
                    queue[i - before_len],
                    old(scene).nodes@[queue[i - before_len].index as int],
                ),
            forall|j: int|
                0 <= j < k ==> names_marker(
                    scene.nodes@[(#[trigger] queue[j]).index as int],
                    before_len + j,
                ),
            forall|node: SceneNode|
                node.index < before_len && !(#[trigger] queued_before(queue, k as int, node))
                    ==> scene.nodes@[node.index as int] == old(scene).nodes@[node.index as int],
        decreases pending - k,
    {
        let owner = scene.added_is_same_as[k];
        let level = scene.nodes[owner.index].nesting_level.level;
        let id = scene.nodes[owner.index].is_same_as_id.unwrap();
        let mut marker = NodeRecord::bare(SystemElement::Marker, level);
        marker.decoration = Some(marker_decoration(owner));
        marker.text = Some(decimal_string(id));
        let label = SceneNode { index: scene.nodes.len() };
        scene.nodes.push(marker);
        scene.nodes[owner.index].marker_label = Some(MarkerLabel { label });
        proof {
            assert forall|node: SceneNode|
                node.index < before_len && !(#[trigger] queued_before(
                    queue,
                    k as int + 1,
                    node,
                )) implies scene.nodes@[node.index as int] == old(scene).nodes@[node.index as int] by {
                if queued_before(queue, k as int, node) {
                    lemma_queued_one_later(queue, k as int, node);
                }
            }
        }
        k = k + 1;
    }
    scene.added_is_same_as.clear();
    proof {
        assert forall|node: SceneNode|
            node.index < before_len && !(#[trigger] queue.contains(node)) implies scene.nodes@[node.index as int]
            == old(scene).nodes@[node.index as int] by {
            if queued_before(queue, pending as int, node) {
                lemma_queued_is_contained(queue, node);
            }
        }
        assert forall|i: int| 0 <= i < scene.nodes@.len() implies #[trigger] record_wf(
            scene.nodes@,
            i,
        ) by {
            if i < before_len {
                lemma_marked_record_wf(*old(scene), *scene, i);
            }
        }
    }
}

/// A record that was there before the markers were spawned is well formed
/// after it.
proof fn lemma_marked_record_wf(before: Scene, after: Scene, i: int)
    requires
        before.wf(),
        0 <= i < before.nodes@.len(),
        after.nodes@.len() == before.nodes@.len() + before.added_is_same_as@.len(),
        forall|i: int|
            0 <= i < before.nodes@.len() ==> #[trigger] after.nodes@[i] == (NodeRecord {
                marker_label: after.nodes@[i].marker_label,
                ..before.nodes@[i]
            }),
        forall|i: int|
            before.nodes@.len() <= i < after.nodes@.len() ==> is_marker(
                #[trigger] after.nodes@[i],
                before.added_is_same_as@[i - before.nodes@.len()],
                before.nodes@[before.added_is_same_as@[i - before.nodes@.len()].index as int],
            ),
        forall|j: int|
            0 <= j < before.added_is_same_as@.len() ==> names_marker(
                after.nodes@[(#[trigger] before.added_is_same_as@[j]).index as int],
                before.nodes@.len() + j,
            ),
        forall|node: SceneNode|
            node.index < before.nodes@.len() && !(#[trigger] queued_before(
                before.added_is_same_as@,
                before.added_is_same_as@.len() as int,
                node,
            )) ==> after.nodes@[node.index as int] == before.nodes@[node.index as int],
    ensures
        record_wf(after.nodes@, i),
{
    assert(record_wf(before.nodes@, i));
    assert(before.nodes@.len() == before.nodes.len());
    let holder = SceneNode { index: i as usize };
    assert(!queued_before(before.added_is_same_as@, before.added_is_same_as@.len() as int, holder)
        ==> after.nodes@[i] == before.nodes@[i]);
}

/// The identifier that the marker at `j` is to show after a pass that has
/// worked off the first `k` holders of the queue, if the pass has reached it:
/// the marker has a text, its owner names it as its marker, and the owner
/// stands among those holders.
pub open spec fn spec_text_synced_before(scene: Scene, k: int, j: int) -> Option<usize> {
    let record = scene.nodes@[j];
    if record.text is Some && record.decoration is Some {
        let owner = record.decoration.unwrap().owner;
        if owner.index < scene.nodes@.len() && names_marker(scene.nodes@[owner.index as int], j)
            && queued_before(scene.changed_is_same_as@, k, owner) {
            scene.nodes@[owner.index as int].is_same_as_id
        } else {
            None
        }
    } else {
        None
    }
}

/// The identifier that the marker at `j` is to show after a pass over all
/// the holders whose identifier was written, if the pass reaches it.
pub open spec fn spec_text_to_sync(scene: Scene, j: int) -> Option<usize> {
    spec_text_synced_before(scene, scene.changed_is_same_as@.len() as int, j)
}

/// The scene after the texts of the markers were brought in line with the
/// identifiers that were written. A marker that the pass reaches shows its
/// holder's identifier in decimal and is otherwise as it was; every other
/// node is untouched, and none is added. The queue is empty, the other
/// queues are as they were.
pub open spec fn marker_texts_synced(before: Scene, after: Scene) -> bool {
    &&& after.nodes@.len() == before.nodes@.len()
    &&& forall|j: int|
        0 <= j < before.nodes@.len() ==> #[trigger] after.nodes@[j] == (NodeRecord {
            text: after.nodes@[j].text,
            ..before.nodes@[j]
        })
    &&& forall|j: int|
        0 <= j < before.nodes@.len() ==> match spec_text_to_sync(before, j) {
            Some(id) => {
                &&& (#[trigger] after.nodes@[j]).text is Some
                &&& after.nodes@[j].text.unwrap()@ == spec_decimal(id as nat)
            },
            None => after.nodes@[j] == before.nodes@[j],
        }
    &&& after.changed_is_same_as@.len() == 0
    &&& after.added_external_entities@ == before.added_external_entities@
    &&& after.added_is_same_as@ == before.added_is_same_as@
    &&& after.drag_events@ == before.drag_events@
}

/// Brings the text of every marker whose holder's identifier was written
/// since the last pass in line with that identifier. A holder without
/// marker, or whose marker has no text, is passed over. No node is added,
/// and the queue is emptied.
pub fn update_is_same_as_id_label(scene: &mut Scene)
    requires
        old(scene).wf(),
    ensures
        final(scene).wf(),
        marker_texts_synced(*old(scene), *final(scene)),
{
    let ghost queue = scene.changed_is_same_as@;
    let ghost len = scene.nodes@.len();
    let pending = scene.changed_is_same_as.len();
    let mut k: usize = 0;
    while k < pending
        invariant
            old(scene).wf(),
            queue == old(scene).changed_is_same_as@,
            len == old(scene).nodes@.len(),
            pending == queue.len(),
            0 <= k <= pending,
            scene.changed_is_same_as@ == queue,
            scene.added_external_entities@ == old(scene).added_external_entities@,
            scene.added_is_same_as@ == old(scene).added_is_same_as@,
            scene.drag_events@ == old(scene).drag_events@,
            scene.nodes@.len() == len,
            forall|i: int|
                0 <= i < len ==> #[trigger] scene.nodes@[i] == (NodeRecord {
                    text: scene.nodes@[i].text,
                    ..old(scene).nodes@[i]
                }),
            forall|i: int|
                0 <= i < len ==> ((#[trigger] scene.nodes@[i]).text is Some <==> old(
                    scene,
                ).nodes@[i].text is Some),
            forall|j: int|
                0 <= j < len ==> match spec_text_synced_before(*old(scene), k as int, j) {
                    Some(id) => (#[trigger] scene.nodes@[j]).text.unwrap()@ == spec_decimal(
                        id as nat,
                    ),
                    None => scene.nodes@[j] == old(scene).nodes@[j],
                },
        decreases pending - k,
    {
        let holder = scene.changed_is_same_as[k];
        proof {
            assert(record_wf(old(scene).nodes@, holder.index as int));
        }
        let marker_label = scene.nodes[holder.index].marker_label;
        let is_same_as_id = scene.nodes[holder.index].is_same_as_id;
        if let Some(marker) = marker_label {
            if let Some(id) = is_same_as_id {
                if scene.nodes[marker.label.index].text.is_some() {
                    scene.nodes[marker.label.index].text = Some(decimal_string(id));
                }
            }
        }
        proof {
            assert forall|j: int| 0 <= j < len implies match spec_text_synced_before(
                *old(scene),
                k as int + 1,
                j,
            ) {
                Some(id) => (#[trigger] scene.nodes@[j]).text.unwrap()@ == spec_decimal(id as nat),
                None => scene.nodes@[j] == old(scene).nodes@[j],
            } by {
                lemma_synced_step(*old(scene), k as int, j);
            }
        }
        k = k + 1;
    }
    scene.changed_is_same_as.clear();
    proof {
        assert forall|i: int| 0 <= i < scene.nodes@.len() implies #[trigger] record_wf(
            scene.nodes@,
            i,
        ) by {
            assert(record_wf(old(scene).nodes@, i));
        }
    }
}

/// What one more holder of the queue changes: the marker of the holder at
/// `k`, if that holder has a marker with a text, and no other node.
proof fn lemma_synced_step(scene: Scene, k: int, j: int)
    requires
        scene.wf(),
        0 <= k < scene.changed_is_same_as@.len(),
        0 <= j < scene.nodes@.len(),
    ensures
        ({
            let holder = scene.changed_is_same_as@[k];
            let record = scene.nodes@[holder.index as int];
            if names_marker(record, j) && scene.nodes@[j].text is Some {
                spec_text_synced_before(scene, k + 1, j) == record.is_same_as_id
            } else {
                spec_text_synced_before(scene, k + 1, j) == spec_text_synced_before(scene, k, j)
            }
        }),
{
    let holder = scene.changed_is_same_as@[k];
    assert(record_wf(scene.nodes@, holder.index as int));
}

/// A marker follows its holder's identifier. Where a holder that has a
/// marker with a text is given a new identifier, the next pass of the marker
/// spawner and of the text update leaves the holder with the same marker,
/// spawns markers only for the nodes that waited for one, and the marker
/// shows the new identifier in decimal.
pub proof fn lemma_marker_follows_identifier(
    start: Scene,
    written: Scene,
    spawned: Scene,
    synced: Scene,
    holder: SceneNode,
    marker: SceneNode,
    id: usize,
)
    requires
        start.wf(),
        start.spec_contains(holder),
        start.nodes@[holder.index as int].is_same_as_id is Some,
        names_marker(start.nodes@[holder.index as int], marker.index as int),
        start.nodes@[marker.index as int].text is Some,
        !start.added_is_same_as@.contains(holder),
        written.identifier_written(start, holder, id),
        markers_spawned(written, spawned),
        marker_texts_synced(spawned, synced),
    ensures
        synced.nodes@.len() == start.nodes@.len() + start.added_is_same_as@.len(),
        names_marker(synced.nodes@[holder.index as int], marker.index as int),
        synced.nodes@[marker.index as int].text is Some,
        synced.nodes@[marker.index as int].text.unwrap()@ == spec_decimal(id as nat),
{
    let m = marker.index as int;
    assert(record_wf(start.nodes@, holder.index as int));
    assert(spawned.changed_is_same_as@[start.changed_is_same_as@.len() as int] == holder);
}

} // verus!
