//! The part of a loaded world model that the scene reads: the sources and
//! sinks of every system and of the environment, each with its equivalence
//! identifier, if it has one.

use vstd::prelude::*;

verus! {

/// A source or sink as the model has it.
#[derive(Clone, Copy, Debug, PartialEq, Eq, Structural)]
pub struct ExternalEntity {
    pub is_same_as_id: Option<usize>,
}

/// A system of the model.
#[derive(Debug)]
pub struct System {
    pub sources: Vec<ExternalEntity>,
    pub sinks: Vec<ExternalEntity>,
}

/// What lies outside every system.
#[derive(Debug)]
pub struct Environment {
    pub sources: Vec<ExternalEntity>,
    pub sinks: Vec<ExternalEntity>,
}

/// A loaded model.
#[derive(Debug)]
pub struct WorldModel {
    pub systems: Vec<System>,
    pub environment: Environment,
}

/// Whether some entity of the list has the identifier.
pub open spec fn list_has_id(list: Seq<ExternalEntity>, id: usize) -> bool {
    exists|i: int| 0 <= i < list.len() && (#[trigger] list[i]).is_same_as_id == Some(id)
}

/// Whether some source or sink of the system has the identifier.
pub open spec fn system_has_id(system: System, id: usize) -> bool {
    list_has_id(system.sources@, id) || list_has_id(system.sinks@, id)
}

/// Whether some source or sink of the model has the identifier, in a system
/// or in the environment.
pub open spec fn model_has_id(model: WorldModel, id: usize) -> bool {
    ||| list_has_id(model.environment.sources@, id)
    ||| list_has_id(model.environment.sinks@, id)
    ||| exists|s: int|
        0 <= s < model.systems@.len() && #[trigger] system_has_id(model.systems@[s], id)
}

} // verus!
