//! Scenes: the roots of what is drawn.

use vstd::prelude::*;

verus! {

/// A scene of the asset.
#[derive(Clone, Copy, Debug, PartialEq, Eq, Structural)]
pub struct Scene {}

impl Scene {
    pub fn new() -> (scene: Self)
        ensures
            scene == (Scene {  }),
    {
        Self {  }
    }

    /// Draws the scene. A scene holds no nodes of its own, so there is
    /// nothing to draw.
    pub fn render(&self) {
    }
}

} // verus!
