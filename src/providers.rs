use vstd::prelude::*;

verus! {

/// Supplies the component definitions of a plugin.
pub trait ComponentProvider: Send + Sync {
}

/// Supplies the entity type definitions of a plugin.
pub trait EntityTypeProvider: Send + Sync {
}

/// Supplies the relation type definitions of a plugin.
pub trait RelationTypeProvider: Send + Sync {
}

/// Attaches a plugin's behaviours to entity instances.
pub trait EntityBehaviourProvider: Send + Sync {
}

/// Attaches a plugin's behaviours to relation instances.
pub trait RelationBehaviourProvider: Send + Sync {
}

/// Supplies the flows of a plugin.
pub trait FlowProvider: Send + Sync {
}

} // verus!
