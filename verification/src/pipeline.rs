//! What every pipeline has: a handle and the point it is bound at.

use vstd::prelude::*;

verus! {

/// The part of the device a pipeline drives.
#[derive(Clone, Copy, Debug, PartialEq, Eq, Structural)]
pub enum PipelineBindPoint {
    Graphics,
    Compute,
}

/// A pipeline that commands can bind.
pub trait Pipeline {
    /// The pipeline's handle.
    spec fn id(&self) -> u64;

    /// Where the pipeline is bound.
    spec fn point(&self) -> PipelineBindPoint;

    fn bind_point(&self) -> (point: PipelineBindPoint)
        ensures
            point == self.point(),
    ;

    fn handle(&self) -> (handle: u64)
        ensures
            handle == self.id(),
    ;
}

} // verus!
