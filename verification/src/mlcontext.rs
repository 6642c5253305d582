//! The context that a builder is made from, and the backend behind it.
use crate::error::Error;
use crate::graph::{DescriptorView, GraphInfo};
use crate::operator_enums::MLOperandDataType;
use vstd::prelude::*;

verus! {

/// A handle to an operand of a graph: its position there.
#[derive(Clone, Copy, Debug, PartialEq, Eq, Structural)]
pub struct MLOperand {
    pub id: usize,
}

/// The caller's description of an operand.
#[derive(Debug, PartialEq, Eq)]
pub struct MLOperandDescriptor {
    pub data_type: MLOperandDataType,
    pub shape: Vec<u32>,
}

impl View for MLOperandDescriptor {
    type V = DescriptorView;

    open spec fn view(&self) -> DescriptorView {
        DescriptorView { data_type: self.data_type, shape: self.shape@ }
    }
}

impl MLOperandDescriptor {
    pub fn new(data_type: MLOperandDataType, shape: Vec<u32>) -> (descriptor: Self)
        ensures
            descriptor@ == (DescriptorView { data_type, shape: shape@ }),
    {
        MLOperandDescriptor { data_type, shape }
    }
}

/// Turns a finished graph into one that can be run. What comes back is up to the backend: this
/// trait promises nothing of it.
pub trait MLBackendBuilder {
    /// A graph that the backend can run.
    type Graph;

    fn build(&mut self, graph: GraphInfo) -> (built: Result<Self::Graph, Error>);
}

/// A runtime that can build graphs. Whether it hands out a builder is up to the backend: this
/// trait promises nothing of it.
pub trait MLBackend {
    type Builder: MLBackendBuilder;

    fn create_builder(&mut self) -> (created: Result<Self::Builder, Error>);
}

/// A context: the backend on which graphs are built.
#[derive(Debug)]
pub struct MLContext<K: MLBackend> {
    pub backend: K,
}

} // verus!
