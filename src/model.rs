use indradb::EdgeKey;
use uuid::Uuid;

use vstd::prelude::*;

verus! {

/// Identifier of a vertex in the graph store.
#[verifier::external_type_specification]
#[verifier::external_body]
pub struct ExUuid(Uuid);

/// Key of an edge in the graph store: outbound vertex, edge type, inbound vertex.
#[verifier::external_type_specification]
#[verifier::external_body]
pub struct ExEdgeKey(EdgeKey);

/// A named component that entity and relation types are built from.
pub struct Component {
    pub name: String,
}

/// An entity instance of the reactive graph, as the host hands it to a plugin.
pub struct ReactiveEntityInstance {
    pub id: Uuid,
}

/// A relation instance of the reactive graph, as the host hands it to a plugin.
pub struct ReactiveRelationInstance {
    pub edge_key: EdgeKey,
}

} // verus!
