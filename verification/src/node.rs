//! The node gate: the identifier that the coordination store assigns to this
//! process, written once at startup and only read afterwards.
//!
//! Whoever needs the node's identity asks for it and fails at once while it
//! is unset: nobody waits for the store here.

use vstd::prelude::*;
use crate::response::InternalServerError;

verus! {

/// The identifier of a node.
pub type NodeId = u16;

/// A cell for the node's identifier that can be written once.
#[derive(Clone, Copy, Debug, PartialEq, Eq, Structural)]
pub struct NodeGate {
    id: Option<NodeId>,
}

impl View for NodeGate {
    type V = Option<NodeId>;

    closed spec fn view(&self) -> Option<NodeId> {
        self.id
    }
}

impl NodeGate {
    /// A node gate that is unset: the coordination store has not answered yet.
    pub fn new() -> (gate: NodeGate)
        ensures
            gate@ is None,
    {
        NodeGate { id: None }
    }

    /// Writes the node's identifier, once. On a gate that is already set
    /// nothing changes and the rejected identifier comes back.
    pub fn set(&mut self, id: NodeId) -> (outcome: Result<(), NodeId>)
        ensures
            old(self)@ is None ==> outcome is Ok && final(self)@ == Some(id),
            old(self)@ is Some ==> outcome == Err::<(), NodeId>(id) && final(self)@ == old(self)@,
    {
        match self.id {
            None => {
                self.id = Some(id);
                Ok(())
            },
            Some(_) => Err(id),
        }
    }

    /// The node's identifier, if it has been written.
    pub fn current(&self) -> (id: Option<NodeId>)
        ensures
            id == self@,
    {
        self.id
    }
}

/// The node's identifier, or the answer that the service is not ready.
///
/// What mints identifiers calls this first and gives the answer back without
/// touching the store.
pub fn get_node_id(gate: &NodeGate) -> (outcome: Result<NodeId, InternalServerError>)
    ensures
        match outcome {
            Ok(id) => gate@ == Some(id),
            Err(body) => gate@ is None && body.is_node_unset(),
        },
{
    match gate.current() {
        Some(id) => Ok(id),
        None => Err(InternalServerError::node_unset()),
    }
}

} // verus!
