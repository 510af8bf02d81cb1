//! The scene: an arena of nodes that only grows, and the queues through which
//! the decorators learn of what was added or changed.

use vstd::prelude::*;
use crate::components::{
    is_bare, DragSubscriber, ExternalEntityDrag, FlowEndConnection, FlowStartConnection,
    NodeRecord, SceneNode, Subsystem, SystemElement,
};
use crate::units::Vec2;

verus! {

/// The nodes of a diagram and the work that waits for the next pass of the
/// decorators.
pub struct Scene {
    /// The arena. A node's handle is its position here.
    pub nodes: Vec<NodeRecord>,
    /// External entities that have no name label yet.
    pub added_external_entities: Vec<SceneNode>,
    /// Nodes that were given an equivalence identifier and have no marker yet.
    pub added_is_same_as: Vec<SceneNode>,
    /// Nodes whose equivalence identifier was written since the last pass.
    pub changed_is_same_as: Vec<SceneNode>,
    /// Drags republished for the input handling, oldest first.
    pub drag_events: Vec<ExternalEntityDrag>,
}

/// Whether a record is a system, at the root or nested.
pub open spec fn is_system(record: NodeRecord) -> bool {
    record.kind is System || record.kind is Subsystem
}

/// Every handle in the record at `i` is one of the arena; a marker named by
/// its holder names the holder as its owner; and a subsystem lies one level
/// below the system that contains it, which was spawned before it.
pub open spec fn record_wf(nodes: Seq<NodeRecord>, i: int) -> bool {
    let record = nodes[i];
    &&& record.parent matches Some(parent) ==> parent.index < nodes.len()
    &&& record.flow_start matches Some(start) ==> start.target.index < nodes.len()
    &&& record.flow_end matches Some(end) ==> end.target.index < nodes.len()
    &&& record.decoration matches Some(decoration) ==> decoration.owner.index < nodes.len()
    &&& record.marker_label matches Some(marker) ==> {
        &&& marker.label.index < nodes.len()
        &&& nodes[marker.label.index as int].decoration matches Some(decoration)
        &&& decoration.owner.index == i
    }
    &&& record.kind is Subsystem <==> record.subsystem is Some
    &&& record.kind is System ==> record.nesting_level.level == 0
    &&& record.subsystem matches Some(subsystem) ==> {
        &&& subsystem.parent_system.index < i
        &&& is_system(nodes[subsystem.parent_system.index as int])
        &&& record.nesting_level.level == nodes[subsystem.parent_system.index as int].nesting_level.level
            + 1
    }
}

/// Every entry of a queue is a handle of the arena.
pub open spec fn queue_within(queue: Seq<SceneNode>, len: nat) -> bool {
    forall|k: int| 0 <= k < queue.len() ==> (#[trigger] queue[k]).index < len
}

/// No handle stands twice in the queue.
pub open spec fn queue_distinct(queue: Seq<SceneNode>) -> bool {
    forall|j: int, k: int| 0 <= j < k < queue.len() ==> queue[j] != queue[k]
}

/// The number of subsystem boundaries between the root and the node at `i`.
pub open spec fn containment_depth(nodes: Seq<NodeRecord>, i: int) -> nat
    decreases i,
{
    if 0 <= i < nodes.len() && nodes[i].subsystem is Some && nodes[i].subsystem.unwrap().parent_system.index
        < i {
        1 + containment_depth(nodes, nodes[i].subsystem.unwrap().parent_system.index as int)
    } else {
        0
    }
}

/// Whether every entry of the queue is a handle below `len`.
fn queue_is_within(queue: &Vec<SceneNode>, len: usize) -> (ok: bool)
    ensures
        ok == queue_within(queue@, len as nat),
{
    let mut k: usize = 0;
    while k < queue.len()
        invariant
            0 <= k <= queue@.len(),
            forall|j: int| 0 <= j < k ==> (#[trigger] queue@[j]).index < len,
        decreases queue@.len() - k,
    {
        if queue[k].index >= len {
            return false;
        }
        k = k + 1;
    }
    true
}

impl Scene {
    /// The scene's invariant.
    pub open spec fn wf(&self) -> bool {
        &&& forall|i: int| 0 <= i < self.nodes@.len() ==> #[trigger] record_wf(self.nodes@, i)
        &&& queue_within(self.added_external_entities@, self.nodes@.len())
        &&& queue_within(self.added_is_same_as@, self.nodes@.len())
        &&& queue_within(self.changed_is_same_as@, self.nodes@.len())
        &&& queue_distinct(self.added_is_same_as@)
        &&& forall|k: int|
            0 <= k < self.added_is_same_as@.len() ==> self.nodes@[(#[trigger] self.added_is_same_as@[k]).index as int].is_same_as_id
                is Some
        &&& forall|k: int|
            0 <= k < self.drag_events@.len() ==> (#[trigger] self.drag_events@[k]).target.index
                < self.nodes@.len()
    }

    /// Whether a handle is one of this scene.
    pub open spec fn spec_contains(&self, node: SceneNode) -> bool {
        node.index < self.nodes@.len()
    }

    /// The scene after one more node: what was there is untouched, and the
    /// new node stands at the end.
    pub open spec fn grown_by_one(&self, before: Scene, node: SceneNode) -> bool {
        &&& node.index == before.nodes@.len()
        &&& self.nodes@.len() == before.nodes@.len() + 1
        &&& forall|i: int| 0 <= i < before.nodes@.len() ==> self.nodes@[i] == before.nodes@[i]
        &&& self.added_external_entities@ == before.added_external_entities@
        &&& self.added_is_same_as@ == before.added_is_same_as@
        &&& self.changed_is_same_as@ == before.changed_is_same_as@
        &&& self.drag_events@ == before.drag_events@
    }

    /// The scene after a change to the one node at `node`: the other nodes
    /// and the queues are untouched.
    pub open spec fn changed_only_at(&self, before: Scene, node: SceneNode) -> bool {
        &&& self.nodes@.len() == before.nodes@.len()
        &&& forall|i: int|
            0 <= i < before.nodes@.len() && i != node.index ==> self.nodes@[i] == before.nodes@[i]
        &&& self.added_external_entities@ == before.added_external_entities@
        &&& self.added_is_same_as@ == before.added_is_same_as@
        &&& self.changed_is_same_as@ == before.changed_is_same_as@
        &&& self.drag_events@ == before.drag_events@
    }

    /// An empty scene.
    pub fn new() -> (scene: Scene)
        ensures
            scene.wf(),
            scene.nodes@.len() == 0,
            scene.added_external_entities@.len() == 0,
            scene.added_is_same_as@.len() == 0,
            scene.changed_is_same_as@.len() == 0,
            scene.drag_events@.len() == 0,
    {
        Scene {
            nodes: Vec::new(),
            added_external_entities: Vec::new(),
            added_is_same_as: Vec::new(),
            changed_is_same_as: Vec::new(),
            drag_events: Vec::new(),
        }
    }

    /// Number of nodes.
    pub fn len(&self) -> (n: usize)
        ensures
            n == self.nodes@.len(),
    {
        self.nodes.len()
    }

    /// Whether a handle is one of this scene.
    pub fn contains(&self, node: SceneNode) -> (found: bool)
        ensures
            found == self.spec_contains(node),
    {
        node.index < self.nodes.len()
    }

    /// The record behind a handle, if the handle is one of this scene.
    pub fn get(&self, node: SceneNode) -> (record: Option<&NodeRecord>)
        ensures
            self.spec_contains(node) ==> record == Some(&self.nodes@[node.index as int]),
            !self.spec_contains(node) ==> record is None,
    {
        if node.index < self.nodes.len() {
            Some(&self.nodes[node.index])
        } else {
            None
        }
    }

    /// Whether the record at `i` is well formed within this scene.
    fn record_is_well_formed(&self, i: usize) -> (ok: bool)
        requires
            i < self.nodes@.len(),
        ensures
            ok == record_wf(self.nodes@, i as int),
    {
        let len = self.nodes.len();
        let record = &self.nodes[i];
        let parent_ok = match record.parent {
            Some(parent) => parent.index < len,
            None => true,
        };
        let start_ok = match record.flow_start {
            Some(start) => start.target.index < len,
            None => true,
        };
        let end_ok = match record.flow_end {
            Some(end) => end.target.index < len,
            None => true,
        };
        let decoration_ok = match record.decoration {
            Some(decoration) => decoration.owner.index < len,
            None => true,
        };
        let marker_ok = match record.marker_label {
            Some(marker) => marker.label.index < len && match self.nodes[marker.label.index].decoration {
                Some(decoration) => decoration.owner.index == i,
                None => false,
            },
            None => true,
        };
        let is_subsystem = match record.kind {
            SystemElement::Subsystem => true,
            _ => false,
        };
        let is_root = match record.kind {
            SystemElement::System => true,
            _ => false,
        };
        let kind_ok = is_subsystem == record.subsystem.is_some() && (!is_root
            || record.nesting_level.level == 0);
        let subsystem_ok = match record.subsystem {
            Some(subsystem) => subsystem.parent_system.index < i && {
                let container = &self.nodes[subsystem.parent_system.index];
                let container_is_system = match container.kind {
                    SystemElement::System => true,
                    SystemElement::Subsystem => true,
                    _ => false,
                };
                container_is_system && container.nesting_level.level < u16::MAX
                    && record.nesting_level.level == container.nesting_level.level + 1
            },
            None => true,
        };
        parent_ok && start_ok && end_ok && decoration_ok && marker_ok && kind_ok && subsystem_ok
    }

    /// Whether the scene meets its invariant. Every operation of this module
    /// keeps it; a scene whose fields were written by hand may not.
    pub fn is_well_formed(&self) -> (ok: bool)
        ensures
            ok == self.wf(),
    {
        let len = self.nodes.len();
        let mut i: usize = 0;
        while i < len
            invariant
                len == self.nodes@.len(),
                0 <= i <= len,
                forall|j: int| 0 <= j < i ==> #[trigger] record_wf(self.nodes@, j),
            decreases len - i,
        {
            if !self.record_is_well_formed(i) {
                return false;
            }
            i = i + 1;
        }
        if !queue_is_within(&self.added_external_entities, len) {
            return false;
        }
        if !queue_is_within(&self.added_is_same_as, len) {
            return false;
        }
        if !queue_is_within(&self.changed_is_same_as, len) {
            return false;
        }
        let mut k: usize = 0;
        while k < self.added_is_same_as.len()
            invariant
                len == self.nodes@.len(),
                0 <= k <= self.added_is_same_as@.len(),
                queue_within(self.added_is_same_as@, len as nat),
                forall|a: int, b: int|
                    0 <= a < b < k ==> self.added_is_same_as@[a] != self.added_is_same_as@[b],
                forall|a: int|
                    0 <= a < k ==> self.nodes@[(#[trigger] self.added_is_same_as@[a]).index as int].is_same_as_id
                        is Some,
            decreases self.added_is_same_as@.len() - k,
        {
            let node = self.added_is_same_as[k];
            if self.nodes[node.index].is_same_as_id.is_none() {
                return false;
            }
            let mut j: usize = 0;
            while j < k
                invariant
                    0 <= j <= k < self.added_is_same_as@.len(),
                    node == self.added_is_same_as@[k as int],
                    forall|a: int| 0 <= a < j ==> self.added_is_same_as@[a] != node,
                decreases k - j,
            {
                if self.added_is_same_as[j].index == node.index {
                    return false;
                }
                j = j + 1;
            }
            k = k + 1;
        }
        let mut e: usize = 0;
        while e < self.drag_events.len()
            invariant
                len == self.nodes@.len(),
                0 <= e <= self.drag_events@.len(),
                forall|a: int|
                    0 <= a < e ==> (#[trigger] self.drag_events@[a]).target.index < self.nodes@.len(),
            decreases self.drag_events@.len() - e,
        {
            if self.drag_events[e].target.index >= len {
                return false;
            }
            e = e + 1;
        }
        true
    }

    /// Spawns a system at the root of the containment hierarchy.
    pub fn spawn_system(&mut self) -> (node: SceneNode)
        requires
            old(self).wf(),
        ensures
            final(self).wf(),
            final(self).grown_by_one(*old(self), node),
            is_bare(final(self).nodes@[node.index as int], SystemElement::System, 0),
    {
        let index = self.nodes.len();
        self.nodes.push(NodeRecord::bare(SystemElement::System, 0));
        proof {
            lemma_push_keeps_wf(*old(self), *self);
        }
        SceneNode { index }
    }

    /// Spawns a flow at the given depth, with nothing at either end.
    pub fn spawn_flow(&mut self, nesting_level: u16) -> (node: SceneNode)
        requires
            old(self).wf(),
        ensures
            final(self).wf(),
            final(self).grown_by_one(*old(self), node),
            is_bare(final(self).nodes@[node.index as int], SystemElement::Flow, nesting_level),
    {
        let index = self.nodes.len();
        self.nodes.push(NodeRecord::bare(SystemElement::Flow, nesting_level));
        proof {
            lemma_push_keeps_wf(*old(self), *self);
        }
        SceneNode { index }
    }

    /// Whether a subsystem can be spawned inside `parent_system`: the parent
    /// is a system of this scene, and one more level of depth can be counted.
    pub open spec fn can_nest_in(&self, parent_system: SceneNode) -> bool {
        &&& self.spec_contains(parent_system)
        &&& is_system(self.nodes@[parent_system.index as int])
        &&& self.nodes@[parent_system.index as int].nesting_level.level < u16::MAX
    }

    /// Spawns a subsystem inside a system, one level below it and as its
    /// child in the scene graph. Nothing is spawned where that cannot be.
    pub fn spawn_subsystem(&mut self, parent_system: SceneNode) -> (node: Option<SceneNode>)
        requires
            old(self).wf(),
        ensures
            final(self).wf(),
            !old(self).can_nest_in(parent_system) ==> node is None && *final(self) == *old(self),
            old(self).can_nest_in(parent_system) ==> {
                &&& node matches Some(spawned)
                &&& final(self).grown_by_one(*old(self), spawned)
                &&& final(self).nodes@[spawned.index as int] == (NodeRecord {
                    parent: Some(parent_system),
                    subsystem: Some(Subsystem { parent_system }),
                    ..final(self).nodes@[spawned.index as int]
                })
                &&& is_bare(
                    NodeRecord {
                        parent: None,
                        subsystem: None,
                        ..final(self).nodes@[spawned.index as int]
                    },
                    SystemElement::Subsystem,
                    (old(self).nodes@[parent_system.index as int].nesting_level.level + 1) as u16,
                )
            },
    {
        if parent_system.index >= self.nodes.len() {
            return None;
        }
        let parent_kind = self.nodes[parent_system.index].kind;
        let parent_level = self.nodes[parent_system.index].nesting_level.level;
        let parent_is_system = match parent_kind {
            SystemElement::System => true,
            SystemElement::Subsystem => true,
            _ => false,
        };
        if !parent_is_system || parent_level == u16::MAX {
            return None;
        }
        let index = self.nodes.len();
        let mut record = NodeRecord::bare(SystemElement::Subsystem, parent_level + 1);
        record.parent = Some(parent_system);
        record.subsystem = Some(Subsystem { parent_system });
        self.nodes.push(record);
        proof {
            lemma_push_keeps_wf(*old(self), *self);
        }
        Some(SceneNode { index })
    }

    /// Makes `parent` the parent of `child` in the scene graph, whatever the
    /// child's parent was.
    pub fn set_parent(&mut self, child: SceneNode, parent: SceneNode)
        requires
            old(self).wf(),
            old(self).spec_contains(child),
            old(self).spec_contains(parent),
        ensures
            final(self).wf(),
            final(self).changed_only_at(*old(self), child),
            final(self).nodes@[child.index as int] == (NodeRecord {
                parent: Some(parent),
                ..old(self).nodes@[child.index as int]
            }),
    {
        self.nodes[child.index].parent = Some(parent);
        proof {
            assert(record_wf(old(self).nodes@, child.index as int));
            lemma_local_change_keeps_wf(*old(self), *self, child);
        }
    }

    /// Puts a start on a flow, in place of the start it had, if any.
    pub fn insert_flow_start(&mut self, flow: SceneNode, connection: FlowStartConnection)
        requires
            old(self).wf(),
            old(self).spec_contains(flow),
            old(self).spec_contains(connection.target),
        ensures
            final(self).wf(),
            final(self).changed_only_at(*old(self), flow),
            final(self).nodes@[flow.index as int] == (NodeRecord {
                flow_start: Some(connection),
                ..old(self).nodes@[flow.index as int]
            }),
    {
        self.nodes[flow.index].flow_start = Some(connection);
        proof {
            assert(record_wf(old(self).nodes@, flow.index as int));
            lemma_local_change_keeps_wf(*old(self), *self, flow);
        }
    }

    /// Puts an end on a flow, in place of the end it had, if any.
    pub fn insert_flow_end(&mut self, flow: SceneNode, connection: FlowEndConnection)
        requires
            old(self).wf(),
            old(self).spec_contains(flow),
            old(self).spec_contains(connection.target),
        ensures
            final(self).wf(),
            final(self).changed_only_at(*old(self), flow),
            final(self).nodes@[flow.index as int] == (NodeRecord {
                flow_end: Some(connection),
                ..old(self).nodes@[flow.index as int]
            }),
    {
        self.nodes[flow.index].flow_end = Some(connection);
        proof {
            assert(record_wf(old(self).nodes@, flow.index as int));
            lemma_local_change_keeps_wf(*old(self), *self, flow);
        }
    }

    /// The scene after the identifier of `node` was written: the node has the
    /// identifier and is otherwise as it was, it is queued as changed, and as
    /// added where it had no identifier before; nothing else differs.
    pub open spec fn identifier_written(&self, before: Scene, node: SceneNode, id: usize) -> bool {
        &&& self.nodes@.len() == before.nodes@.len()
        &&& forall|i: int|
            0 <= i < before.nodes@.len() && i != node.index ==> self.nodes@[i] == before.nodes@[i]
        &&& self.nodes@[node.index as int] == (NodeRecord {
            is_same_as_id: Some(id),
            ..before.nodes@[node.index as int]
        })
        &&& self.changed_is_same_as@ == before.changed_is_same_as@.push(node)
        &&& self.added_is_same_as@ == if before.nodes@[node.index as int].is_same_as_id is None {
            before.added_is_same_as@.push(node)
        } else {
            before.added_is_same_as@
        }
        &&& self.added_external_entities@ == before.added_external_entities@
        &&& self.drag_events@ == before.drag_events@
    }

    /// Writes the equivalence identifier of a node. The node is queued as
    /// changed, and as added where it had no identifier before.
    pub fn set_is_same_as_id(&mut self, node: SceneNode, id: usize)
        requires
            old(self).wf(),
            old(self).spec_contains(node),
        ensures
            final(self).wf(),
            final(self).identifier_written(*old(self), node, id),
    {
        let is_new = self.nodes[node.index].is_same_as_id.is_none();
        self.nodes[node.index].is_same_as_id = Some(id);
        self.changed_is_same_as.push(node);
        if is_new {
            self.added_is_same_as.push(node);
        }
        proof {
            assert forall|i: int| 0 <= i < self.nodes@.len() implies #[trigger] record_wf(
                self.nodes@,
                i,
            ) by {
                assert(record_wf(old(self).nodes@, i));
            }
        }
    }

    /// A drag of a node reaches its subscriber: for an external entity the
    /// drag is republished on the event channel. A node without subscriber,
    /// or a handle of no node, republishes nothing.
    pub fn dispatch_drag(&mut self, node: SceneNode, position: Vec2)
        requires
            old(self).wf(),
        ensures
            final(self).wf(),
            final(self).nodes@ == old(self).nodes@,
            final(self).added_external_entities@ == old(self).added_external_entities@,
            final(self).added_is_same_as@ == old(self).added_is_same_as@,
            final(self).changed_is_same_as@ == old(self).changed_is_same_as@,
            final(self).drag_events@ == if old(self).spec_contains(node) && old(self).nodes@[node.index as int].drag_subscriber
                is Some {
                old(self).drag_events@.push(ExternalEntityDrag { target: node, position })
            } else {
                old(self).drag_events@
            },
    {
        if node.index < self.nodes.len() {
            match self.nodes[node.index].drag_subscriber {
                Some(DragSubscriber::ExternalEntityDrag) => {
                    self.drag_events.push(ExternalEntityDrag { target: node, position });
                },
                None => {},
            }
        }
    }

    /// Hands out the republished drags, oldest first, and empties the
    /// channel.
    pub fn take_drag_events(&mut self) -> (events: Vec<ExternalEntityDrag>)
        requires
            old(self).wf(),
        ensures
            final(self).wf(),
            events@ == old(self).drag_events@,
            final(self).drag_events@.len() == 0,
            final(self).nodes@ == old(self).nodes@,
            final(self).added_external_entities@ == old(self).added_external_entities@,
            final(self).added_is_same_as@ == old(self).added_is_same_as@,
            final(self).changed_is_same_as@ == old(self).changed_is_same_as@,
    {
        let mut events: Vec<ExternalEntityDrag> = Vec::new();
        std::mem::swap(&mut self.drag_events, &mut events);
        events
    }
}

/// A scene stays well formed when one well-formed record is appended.
pub proof fn lemma_push_keeps_wf(before: Scene, after: Scene)
    requires
        before.wf(),
        after.nodes@.len() == before.nodes@.len() + 1,
        forall|i: int| 0 <= i < before.nodes@.len() ==> after.nodes@[i] == before.nodes@[i],
        record_wf(after.nodes@, before.nodes@.len() as int),
        after.added_is_same_as@ == before.added_is_same_as@,
        after.changed_is_same_as@ == before.changed_is_same_as@,
        after.drag_events@ == before.drag_events@,
        after.added_external_entities@ == before.added_external_entities@
            || after.added_external_entities@ == before.added_external_entities@.push(
            SceneNode { index: before.nodes@.len() as usize },
        ),
    ensures
        after.wf(),
{
    assert forall|i: int| 0 <= i < after.nodes@.len() implies #[trigger] record_wf(
        after.nodes@,
        i,
    ) by {
        if i < before.nodes@.len() {
            assert(record_wf(before.nodes@, i));
        }
    }
}

/// A scene stays well formed when one record changes in its parent or in the
/// ends of its flow, and the new handles are handles of the arena.
pub proof fn lemma_local_change_keeps_wf(before: Scene, after: Scene, node: SceneNode)
    requires
        before.wf(),
        before.spec_contains(node),
        after.changed_only_at(before, node),
        after.nodes@[node.index as int] == (NodeRecord {
            parent: after.nodes@[node.index as int].parent,
            flow_start: after.nodes@[node.index as int].flow_start,
            flow_end: after.nodes@[node.index as int].flow_end,
            ..before.nodes@[node.index as int]
        }),
        after.nodes@[node.index as int].parent matches Some(parent) ==> parent.index
            < after.nodes@.len(),
        after.nodes@[node.index as int].flow_start matches Some(start) ==> start.target.index
            < after.nodes@.len(),
        after.nodes@[node.index as int].flow_end matches Some(end) ==> end.target.index
            < after.nodes@.len(),
    ensures
        after.wf(),
{
    assert forall|i: int| 0 <= i < after.nodes@.len() implies #[trigger] record_wf(
        after.nodes@,
        i,
    ) by {
        assert(record_wf(before.nodes@, i));
    }
}

} // verus!
