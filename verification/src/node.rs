//! Scene nodes: a mesh, perhaps, and the nodes below.

use vstd::prelude::*;
use crate::error::AssetError;
use crate::mesh::{first_failure, Mesh, MeshSource};

verus! {

/// What the asset says of one node and of those below it.
#[derive(Debug)]
pub struct NodeSource {
    pub mesh: Option<MeshSource>,
    pub children: Vec<NodeSource>,
}

/// A node ready to be drawn.
#[derive(Debug)]
pub struct Node {
    mesh: Option<Mesh>,
    children: Vec<Node>,
}

/// The reason the node cannot be drawn, if there is one: that of its own
/// mesh, or else that of the first child, in order, that has one. With
/// `from` below 0 the whole node is looked at, else only its children at or
/// after `from`.
pub open spec fn node_failure(source: NodeSource, from: int) -> Option<AssetError>
    decreases source, source.children@.len() - from,
{
    if from < 0 {
        let own = match source.mesh {
            Some(mesh) => first_failure(mesh.primitives@, 0),
            None => None,
        };
        if own.is_some() {
            own
        } else {
            node_failure(source, 0)
        }
    } else if from >= source.children@.len() {
        None
    } else {
        let below = node_failure(source.children@[from], -1);
        if below.is_some() {
            below
        } else {
            node_failure(source, from + 1)
        }
    }
}

impl Node {
    /// The node's mesh.
    pub closed spec fn own_mesh(&self) -> Option<Mesh> {
        self.mesh
    }

    /// The nodes directly below.
    pub closed spec fn below(&self) -> Seq<Node> {
        self.children@
    }

    /// Whether the node is what `source` describes: mesh for mesh and child
    /// for child, all the way down.
    pub open spec fn built_from(&self, source: NodeSource) -> bool
        decreases source,
    {
        &&& match (self.own_mesh(), source.mesh) {
            (Some(mesh), Some(mesh_source)) => mesh.built_from(mesh_source),
            (None, None) => true,
            _ => false,
        }
        &&& self.below().len() == source.children@.len()
        &&& forall|i: int|
            0 <= i < source.children@.len() ==> (#[trigger] self.below()[i]).built_from(
                source.children@[i],
            )
    }

    /// The node the asset describes, with everything below it, or the reason
    /// the first undrawable primitive met on the way down cannot be drawn.
    pub fn new(node: &NodeSource) -> (outcome: Result<Self, AssetError>)
        ensures
            match node_failure(*node, -1) {
                Some(error) => outcome matches Err(e) && e == error,
                None => outcome matches Ok(made) && made.built_from(*node),
            },
        decreases node,
    {
        let mesh = match &node.mesh {
            Some(mesh) => match Mesh::new(mesh) {
                Ok(mesh) => Some(mesh),
                Err(error) => {
                    return Err(error);
                },
            },
            None => None,
        };
        let mut children: Vec<Node> = Vec::new();
        let mut i: usize = 0;
        while i < node.children.len()
            invariant
                i <= node.children@.len(),
                children@.len() == i,
                node_failure(*node, -1) == node_failure(*node, i as int),
                forall|j: int|
                    0 <= j < i ==> (#[trigger] children@[j]).built_from(node.children@[j]),
            decreases node.children@.len() - i,
        {
            match Node::new(&node.children[i]) {
                Ok(child) => {
                    children.push(child);
                },
                Err(error) => {
                    return Err(error);
                },
            }
            i += 1;
        }
        Ok(Self { mesh, children })
    }

    pub fn mesh(&self) -> (mesh: &Option<Mesh>)
        ensures
            *mesh == self.own_mesh(),
    {
        &self.mesh
    }

    pub fn children(&self) -> (children: &Vec<Node>)
        ensures
            children@ == self.below(),
    {
        &self.children
    }
}

} // verus!
