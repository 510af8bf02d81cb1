//! Shapes of fixed size, tessellated once per nesting level and zoom.
//!
//! The mesh store lists every shape that was sent to tessellation, in order;
//! a mesh handle is a position in that list. The cache remembers, for each
//! pair of nesting level and zoom, the handles of the shapes made for it, so
//! that a second request at the same pair tessellates nothing.

use std::collections::HashMap;
use vstd::prelude::*;
use crate::nesting::{spec_compute_scale, NestingLevel};
use crate::units::Factor;

verus! {

/// The element kinds whose outline depends on the scale alone.
#[derive(Clone, Copy, Debug, PartialEq, Eq, Structural)]
pub enum FixedShape {
    Interface,
    ExternalEntity,
}

/// What the tessellation of one shape is given.
#[derive(Clone, Copy, Debug, PartialEq, Eq, Structural)]
pub struct ShapeParams {
    pub shape: FixedShape,
    pub scale: Factor,
}

/// Handle of a tessellated shape: its position in the mesh store.
#[derive(Clone, Copy, Debug, PartialEq, Eq, Structural)]
pub struct MeshHandle {
    pub index: usize,
}

/// Every shape that was tessellated, oldest first.
#[derive(Clone, Debug)]
pub struct MeshStore {
    pub meshes: Vec<ShapeParams>,
}

impl View for MeshStore {
    type V = Seq<ShapeParams>;

    open spec fn view(&self) -> Seq<ShapeParams> {
        self.meshes@
    }
}

impl MeshStore {
    pub fn new() -> (store: MeshStore)
        ensures
            store@ == Seq::<ShapeParams>::empty(),
    {
        MeshStore { meshes: Vec::new() }
    }

    /// Number of tessellations made so far.
    pub fn len(&self) -> (n: usize)
        ensures
            n == self@.len(),
    {
        self.meshes.len()
    }

    /// Tessellates one shape and hands out its handle.
    pub fn tessellate(&mut self, params: ShapeParams) -> (handle: MeshHandle)
        ensures
            final(self)@ == old(self)@.push(params),
            handle.index == old(self)@.len(),
    {
        let index = self.meshes.len();
        self.meshes.push(params);
        MeshHandle { index }
    }

    /// The shape behind a handle, if the handle is one of this store.
    pub fn get(&self, handle: MeshHandle) -> (params: Option<ShapeParams>)
        ensures
            handle.index < self@.len() ==> params == Some(self@[handle.index as int]),
            handle.index >= self@.len() ==> params is None,
    {
        if handle.index < self.meshes.len() {
            Some(self.meshes[handle.index])
        } else {
            None
        }
    }
}

/// The tessellated outlines of the fixed-size element kinds at one scale.
#[derive(Clone, Copy, Debug, PartialEq, Eq, Structural)]
pub struct FixedSystemElementGeometry {
    pub interface: MeshHandle,
    pub external_entity: MeshHandle,
}

/// The key under which the geometry of a level and zoom is filed: the level
/// in the upper half, the raw zoom in the lower.
pub open spec fn spec_key(level: u16, zoom: Factor) -> u64 {
    (level as int * 0x1_0000_0000 + zoom.raw as int) as u64
}

/// The scale of the shapes made for a level and zoom.
pub open spec fn spec_scale_factor(level: u16, zoom: Factor) -> Factor {
    Factor { raw: spec_compute_scale(level, zoom) as u32 }
}

/// The shapes that a miss at a level and zoom sends to tessellation, in order.
pub open spec fn spec_fresh_shapes(level: u16, zoom: Factor) -> Seq<ShapeParams> {
    seq![
        ShapeParams { shape: FixedShape::Interface, scale: spec_scale_factor(level, zoom) },
        ShapeParams { shape: FixedShape::ExternalEntity, scale: spec_scale_factor(level, zoom) },
    ]
}

/// The handles of the shapes that a miss appends to a store of `stored` shapes.
pub open spec fn spec_fresh_geometry(stored: nat) -> FixedSystemElementGeometry {
    FixedSystemElementGeometry {
        interface: MeshHandle { index: stored as usize },
        external_entity: MeshHandle { index: (stored + 1) as usize },
    }
}

/// The geometry that a request at a level and zoom returns: the entry if
/// there is one, else the handles of the shapes it appends to the store.
pub open spec fn spec_geometry_for(
    cache: Map<(u16, Factor), FixedSystemElementGeometry>,
    store: Seq<ShapeParams>,
    level: u16,
    zoom: Factor,
) -> FixedSystemElementGeometry {
    if cache.contains_key((level, zoom)) {
        cache[(level, zoom)]
    } else {
        spec_fresh_geometry(store.len())
    }
}

/// What one request does to cache and store, and what it returns. A hit
/// returns the entry and changes nothing. A miss tessellates the shapes at the
/// scale of the level and zoom, files their handles and returns them.
pub open spec fn get_or_create_post(
    old_cache: Map<(u16, Factor), FixedSystemElementGeometry>,
    old_store: Seq<ShapeParams>,
    new_cache: Map<(u16, Factor), FixedSystemElementGeometry>,
    new_store: Seq<ShapeParams>,
    level: u16,
    zoom: Factor,
    geometry: FixedSystemElementGeometry,
) -> bool {
    if old_cache.contains_key((level, zoom)) {
        &&& geometry == old_cache[(level, zoom)]
        &&& new_cache == old_cache
        &&& new_store == old_store
    } else {
        &&& geometry == spec_fresh_geometry(old_store.len())
        &&& new_cache == old_cache.insert((level, zoom), geometry)
        &&& new_store == old_store + spec_fresh_shapes(level, zoom)
    }
}

/// Every entry of the cache points at shapes of the store that have the kind
/// it files them under and the scale of its level and zoom.
pub open spec fn cache_matches_store(
    cache: Map<(u16, Factor), FixedSystemElementGeometry>,
    store: Seq<ShapeParams>,
) -> bool {
    forall|level: u16, zoom: Factor| #[trigger]
        cache.contains_key((level, zoom)) ==> {
            let geometry = cache[(level, zoom)];
            let shapes = spec_fresh_shapes(level, zoom);
            &&& geometry.interface.index < store.len()
            &&& geometry.external_entity.index < store.len()
            &&& store[geometry.interface.index as int] == shapes[0]
            &&& store[geometry.external_entity.index as int] == shapes[1]
        }
}

/// The geometry of the fixed-size elements, by nesting level and zoom.
/// An entry, once made, stays as it is.
pub struct FixedSystemElementGeometriesByNestingLevel {
    pub entries: HashMap<u64, FixedSystemElementGeometry>,
}

impl View for FixedSystemElementGeometriesByNestingLevel {
    type V = Map<(u16, Factor), FixedSystemElementGeometry>;

    open spec fn view(&self) -> Map<(u16, Factor), FixedSystemElementGeometry> {
        Map::new(
            |key: (u16, Factor)| self.entries@.contains_key(spec_key(key.0, key.1)),
            |key: (u16, Factor)| self.entries@[spec_key(key.0, key.1)],
        )
    }
}

/// Two pairs of level and zoom are filed under one key only if they are one
/// pair.
pub proof fn lemma_key_injective(level_a: u16, zoom_a: Factor, level_b: u16, zoom_b: Factor)
    requires
        spec_key(level_a, zoom_a) == spec_key(level_b, zoom_b),
    ensures
        level_a == level_b,
        zoom_a == zoom_b,
{
}

fn key_of(level: u16, zoom: Factor) -> (key: u64)
    ensures
        key == spec_key(level, zoom),
{
    let upper: u64 = level as u64;
    upper * 0x1_0000_0000 + (zoom.raw as u64)
}

impl FixedSystemElementGeometriesByNestingLevel {
    pub fn new() -> (cache: FixedSystemElementGeometriesByNestingLevel)
        ensures
            cache@ == Map::<(u16, Factor), FixedSystemElementGeometry>::empty(),
    {
        let cache = FixedSystemElementGeometriesByNestingLevel { entries: HashMap::new() };
        cache
    }

    /// The entry for a level and zoom, if there is one.
    pub fn get(&self, nesting_level: u16, zoom: Factor) -> (geometry: Option<
        FixedSystemElementGeometry,
    >)
        ensures
            self@.contains_key((nesting_level, zoom)) ==> geometry == Some(
                self@[(nesting_level, zoom)],
            ),
            !self@.contains_key((nesting_level, zoom)) ==> geometry is None,
    {
        broadcast use vstd::std_specs::hash::group_hash_axioms;

        let key = key_of(nesting_level, zoom);
        match self.entries.get(&key) {
            Some(found) => Some(*found),
            None => None,
        }
    }

    /// The geometry for a level and zoom: the entry if there is one, else
    /// freshly tessellated shapes, which are filed for the next request.
    pub fn get_or_create(
        &mut self,
        nesting_level: u16,
        zoom: Factor,
        meshes: &mut MeshStore,
    ) -> (geometry: FixedSystemElementGeometry)
        ensures
            get_or_create_post(
                old(self)@,
                old(meshes)@,
                final(self)@,
                final(meshes)@,
                nesting_level,
                zoom,
                geometry,
            ),
            cache_matches_store(old(self)@, old(meshes)@) ==> cache_matches_store(
                final(self)@,
                final(meshes)@,
            ),
    {
        broadcast use vstd::std_specs::hash::group_hash_axioms;

        let key = key_of(nesting_level, zoom);
        let found = match self.entries.get(&key) {
            Some(entry) => Some(*entry),
            None => None,
        };
        match found {
            Some(geometry) => geometry,
            None => {
                let scale = NestingLevel::compute_scale(nesting_level, zoom);
                let interface = meshes.tessellate(
                    ShapeParams { shape: FixedShape::Interface, scale },
                );
                let external_entity = meshes.tessellate(
                    ShapeParams { shape: FixedShape::ExternalEntity, scale },
                );
                let geometry = FixedSystemElementGeometry { interface, external_entity };
                self.entries.insert(key, geometry);
                proof {
                    assert(meshes@ =~= old(meshes)@ + spec_fresh_shapes(nesting_level, zoom));
                    assert forall|other: (u16, Factor)| other != (nesting_level, zoom) implies spec_key(
                        other.0,
                        other.1,
                    ) != key by {
                        if spec_key(other.0, other.1) == key {
                            lemma_key_injective(other.0, other.1, nesting_level, zoom);
                        }
                    }
                    assert(self@ =~= old(self)@.insert((nesting_level, zoom), geometry));
                    assert(meshes@.len() == meshes.meshes.len());
                }
                geometry
            },
        }
    }
}

/// A second request at the same level and zoom returns the handles of the
/// first, tessellates nothing and leaves the cache as the first left it.
pub proof fn lemma_get_or_create_idempotent(
    cache_0: Map<(u16, Factor), FixedSystemElementGeometry>,
    store_0: Seq<ShapeParams>,
    cache_1: Map<(u16, Factor), FixedSystemElementGeometry>,
    store_1: Seq<ShapeParams>,
    cache_2: Map<(u16, Factor), FixedSystemElementGeometry>,
    store_2: Seq<ShapeParams>,
    level: u16,
    zoom: Factor,
    first: FixedSystemElementGeometry,
    second: FixedSystemElementGeometry,
)
    requires
        get_or_create_post(cache_0, store_0, cache_1, store_1, level, zoom, first),
        get_or_create_post(cache_1, store_1, cache_2, store_2, level, zoom, second),
    ensures
        second == first,
        store_2 == store_1,
        cache_2 == cache_1,
{
}

} // verus!
