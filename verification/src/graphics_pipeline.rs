//! The pipeline that draws.

use vstd::prelude::*;
use crate::error::ResourceError;
use crate::pipeline::{Pipeline, PipelineBindPoint};

verus! {

/// A graphics pipeline.
#[derive(Debug)]
pub struct GraphicsPipeline {
    handle: u64,
}

impl GraphicsPipeline {
    /// The pipeline from what creating pipelines gave: the last handle that
    /// came back. A creation that succeeded gave at least one.
    pub fn new(created: Result<Vec<u64>, ResourceError>) -> (outcome: Result<Self, ResourceError>)
        requires
            created matches Ok(handles) ==> handles@.len() > 0,
        ensures
            match created {
                Ok(handles) => outcome matches Ok(pipeline) && pipeline.id() == handles@.last(),
                Err(error) => outcome matches Err(e) && e == error,
            },
    {
        match created {
            Ok(mut handles) => match handles.pop() {
                Some(handle) => Ok(Self { handle }),
                None => Err(ResourceError::HandleCreation),
            },
            Err(error) => Err(error),
        }
    }
}

impl Pipeline for GraphicsPipeline {
    closed spec fn id(&self) -> u64 {
        self.handle
    }

    open spec fn point(&self) -> PipelineBindPoint {
        PipelineBindPoint::Graphics
    }

    fn bind_point(&self) -> (point: PipelineBindPoint) {
        PipelineBindPoint::Graphics
    }

    fn handle(&self) -> (handle: u64) {
        self.handle
    }
}

} // verus!
