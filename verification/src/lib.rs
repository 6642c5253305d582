//! A builder for neural-network graphs.
//!
//! A [`MLGraphBuilder`](mlgraphbuilder::MLGraphBuilder) collects operands and operations one call
//! at a time. Once the caller names the outputs, it hands the finished [`GraphInfo`] to the backend
//! that the context was made with.
//!
//! Each executable type has a mathematical view, and the contract of each builder call is stated
//! over the views by the transition functions of the module [`model`]. The theorems of the
//! modules [`call_laws`], [`output_laws`] and [`laws`] say what those functions do to a graph, field
//! by field and over many calls; those of [`view_laws`] say that the views hide nothing.

pub mod call_laws;
pub mod error;
pub mod graph;
pub mod laws;
pub mod mlcontext;
pub mod mlgraphbuilder;
pub mod model;
pub mod operator_enums;
pub mod operator_options;
pub mod output_laws;
pub mod outputs;
pub mod view_laws;

pub use graph::{GraphInfo, Operand, OperandDescriptor, OperandKind, Operation};
