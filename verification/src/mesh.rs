//! Meshes: the primitives drawn together.

use vstd::prelude::*;
use crate::error::AssetError;
use crate::primitive::{layout_of, topology_of, Primitive, PrimitiveSource};

verus! {

/// What the asset says of one mesh.
#[derive(Clone, Debug)]
pub struct MeshSource {
    pub primitives: Vec<PrimitiveSource>,
}

/// The reason the first primitive at or after `from` that cannot be drawn
/// cannot be, if there is such a primitive.
pub open spec fn first_failure(sources: Seq<PrimitiveSource>, from: int) -> Option<AssetError>
    decreases sources.len() - from,
{
    if from < 0 || from >= sources.len() {
        None
    } else {
        match layout_of(sources[from]) {
            Err(error) => Some(error),
            Ok(_) => first_failure(sources, from + 1),
        }
    }
}

/// Whether `primitive` is what `source` describes.
pub open spec fn primitive_built_from(primitive: Primitive, source: PrimitiveSource) -> bool {
    layout_of(source) == Ok::<_, AssetError>(primitive.layout()) && topology_of(source.mode)
        == Some(primitive.drawn_as())
}

/// A mesh ready to be drawn.
#[derive(Debug)]
pub struct Mesh {
    primitives: Vec<Primitive>,
}

impl Mesh {
    /// The mesh's primitives, in the asset's order.
    pub closed spec fn parts(&self) -> Seq<Primitive> {
        self.primitives@
    }

    /// Whether the mesh is what `source` describes: primitive for primitive.
    pub open spec fn built_from(&self, source: MeshSource) -> bool {
        &&& self.parts().len() == source.primitives@.len()
        &&& forall|i: int|
            0 <= i < self.parts().len() ==> primitive_built_from(
                #[trigger] self.parts()[i],
                source.primitives@[i],
            )
    }

    /// The mesh the asset describes, or the reason its first undrawable
    /// primitive cannot be drawn.
    pub fn new(mesh: &MeshSource) -> (outcome: Result<Self, AssetError>)
        ensures
            match first_failure(mesh.primitives@, 0) {
                Some(error) => outcome matches Err(e) && e == error,
                None => outcome matches Ok(made) && made.built_from(*mesh),
            },
    {
        let mut primitives: Vec<Primitive> = Vec::new();
        let mut i: usize = 0;
        while i < mesh.primitives.len()
            invariant
                i <= mesh.primitives@.len(),
                primitives@.len() == i,
                first_failure(mesh.primitives@, 0) == first_failure(mesh.primitives@, i as int),
                forall|j: int|
                    0 <= j < i ==> primitive_built_from(
                        #[trigger] primitives@[j],
                        mesh.primitives@[j],
                    ),
            decreases mesh.primitives@.len() - i,
        {
            match Primitive::new(&mesh.primitives[i]) {
                Ok(primitive) => {
                    primitives.push(primitive);
                },
                Err(error) => {
                    return Err(error);
                },
            }
            i += 1;
        }
        Ok(Self { primitives })
    }

    pub fn primitives(&self) -> (primitives: &Vec<Primitive>)
        ensures
            primitives@ == self.parts(),
    {
        &self.primitives
    }
}

} // verus!
