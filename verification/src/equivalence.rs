//! The counter from which fresh equivalence identifiers are taken.

use vstd::prelude::*;
use crate::data_model::{list_has_id, model_has_id, system_has_id, ExternalEntity, WorldModel};

verus! {

/// The last equivalence identifier that is in use. One counter belongs to one
/// loaded model.
#[derive(Clone, Copy, Debug, PartialEq, Eq, Structural)]
pub struct IsSameAsIdCounter {
    pub value: usize,
}

/// `value` is the greatest identifier of the model, or zero where the model
/// has none.
pub open spec fn is_highest_id(model: WorldModel, value: usize) -> bool {
    &&& forall|id: usize| model_has_id(model, id) ==> id <= value
    &&& value == 0 || model_has_id(model, value)
}

impl IsSameAsIdCounter {
    /// A counter for a model without identifiers.
    pub fn new() -> (counter: IsSameAsIdCounter)
        ensures
            counter.value == 0,
    {
        IsSameAsIdCounter { value: 0 }
    }

    /// Takes the next identifier, one above the last. Nothing is taken where
    /// no greater identifier exists.
    pub fn next_id(&mut self) -> (id: Option<usize>)
        ensures
            old(self).value < usize::MAX ==> {
                &&& id == Some((old(self).value + 1) as usize)
                &&& final(self).value == old(self).value + 1
            },
            old(self).value == usize::MAX ==> id is None && final(self).value == old(self).value,
    {
        if self.value < usize::MAX {
            self.value = self.value + 1;
            Some(self.value)
        } else {
            None
        }
    }
}

/// The greatest of `floor` and the identifiers of a list.
fn highest_in_list(list: &Vec<ExternalEntity>, floor: usize) -> (highest: usize)
    ensures
        floor <= highest,
        forall|id: usize| list_has_id(list@, id) ==> id <= highest,
        highest == floor || list_has_id(list@, highest),
{
    let mut highest = floor;
    let mut i: usize = 0;
    while i < list.len()
        invariant
            0 <= i <= list.len(),
            floor <= highest,
            forall|j: int|
                0 <= j < i ==> ((#[trigger] list@[j]).is_same_as_id matches Some(id) ==> id
                    <= highest),
            highest == floor || list_has_id(list@, highest),
        decreases list.len() - i,
    {
        if let Some(id) = list[i].is_same_as_id {
            if id > highest {
                highest = id;
            }
        }
        i = i + 1;
    }
    highest
}

/// Seeds the counter from a loaded model: with the greatest equivalence
/// identifier among the sources and sinks of every system and of the
/// environment, or with zero where none of them has an identifier.
pub fn spawn_is_same_as_id_counter(
    world_model: &WorldModel,
    is_same_as_id_counter: &mut IsSameAsIdCounter,
)
    ensures
        is_highest_id(*world_model, final(is_same_as_id_counter).value),
{
    let mut highest_id: usize = 0;
    let mut s: usize = 0;
    while s < world_model.systems.len()
        invariant
            0 <= s <= world_model.systems.len(),
            forall|t: int, id: usize|
                0 <= t < s && #[trigger] system_has_id(world_model.systems@[t], id) ==> id
                    <= highest_id,
            highest_id == 0 || model_has_id(*world_model, highest_id),
        decreases world_model.systems.len() - s,
    {
        let system = &world_model.systems[s];
        let with_sources = highest_in_list(&system.sources, highest_id);
        let with_sinks = highest_in_list(&system.sinks, with_sources);
        proof {
            if with_sinks != highest_id {
                assert(system_has_id(world_model.systems@[s as int], with_sinks));
            }
        }
        highest_id = with_sinks;
        s = s + 1;
    }
    let with_sources = highest_in_list(&world_model.environment.sources, highest_id);
    let with_sinks = highest_in_list(&world_model.environment.sinks, with_sources);
    is_same_as_id_counter.value = with_sinks;
}

/// An identifier taken after seeding is none of the model's: every
/// identifier above the seed is unused.
pub proof fn lemma_above_seed_is_unused(model: WorldModel, seed: usize, id: usize)
    requires
        is_highest_id(model, seed),
        seed < id,
    ensures
        !model_has_id(model, id),
{
}

} // verus!
