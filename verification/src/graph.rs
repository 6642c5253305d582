//! The graph that a builder collects: operands, operations, and which operands are its inputs and
//! outputs.
use crate::mlcontext::MLOperandDescriptor;
use crate::operator_enums::MLOperandDataType;
use crate::operator_options::MLOperatorOptions;
use vstd::prelude::*;

verus! {

/// How an operand gets its value.
#[derive(Clone, Copy, Debug, PartialEq, Eq, Structural)]
pub enum OperandKind {
    /// Fed in when the graph is run.
    Input,
    /// Fixed when the graph is built.
    Constant,
    /// Written by an operation.
    Output,
}

/// The element type and the shape of an operand.
#[derive(Debug, PartialEq, Eq)]
pub struct OperandDescriptor {
    pub data_type: MLOperandDataType,
    pub shape: Vec<u32>,
}

/// The view of a descriptor.
#[verifier::ext_equal]
pub struct DescriptorView {
    pub data_type: MLOperandDataType,
    pub shape: Seq<u32>,
}

impl View for OperandDescriptor {
    type V = DescriptorView;

    open spec fn view(&self) -> DescriptorView {
        DescriptorView { data_type: self.data_type, shape: self.shape@ }
    }
}

impl Clone for OperandDescriptor {
    fn clone(&self) -> (copy: Self)
        ensures
            copy@ == self@,
    {
        OperandDescriptor { data_type: self.data_type, shape: self.shape.clone() }
    }
}

impl OperandDescriptor {
    /// The descriptor that a graph keeps for an operand which the caller described.
    pub fn from_ml(descriptor: &MLOperandDescriptor) -> (kept: Self)
        ensures
            kept@ == descriptor@,
    {
        OperandDescriptor { data_type: descriptor.data_type, shape: descriptor.shape.clone() }
    }
}

/// A value in the graph.
#[derive(Debug, PartialEq, Eq)]
pub struct Operand {
    pub descriptor: OperandDescriptor,
    pub kind: OperandKind,
    pub name: Option<String>,
}

/// The view of an operand.
#[verifier::ext_equal]
pub struct OperandView {
    pub descriptor: DescriptorView,
    pub kind: OperandKind,
    pub name: Option<Seq<char>>,
}

/// The view of an optional name.
pub open spec fn name_view(name: Option<String>) -> Option<Seq<char>> {
    match name {
        Some(text) => Some(text@),
        None => None,
    }
}

impl View for Operand {
    type V = OperandView;

    open spec fn view(&self) -> OperandView {
        OperandView {
            descriptor: self.descriptor@,
            kind: self.kind,
            name: name_view(self.name),
        }
    }
}

impl Clone for Operand {
    fn clone(&self) -> (copy: Self)
        ensures
            copy@ == self@,
    {
        let name = match &self.name {
            Some(text) => Some(text.clone()),
            None => None,
        };
        Operand { descriptor: self.descriptor.clone(), kind: self.kind, name }
    }
}

/// A step of the computation. Operands are given by their position in the graph.
#[derive(Debug, PartialEq, Eq)]
pub enum Operation {
    /// The value of `input`, unchanged.
    Identity { input: u32, options: Option<MLOperatorOptions>, outputs: Vec<u32> },
    /// The sum of `a` and `b`, element by element.
    Add { a: u32, b: u32, options: Option<MLOperatorOptions>, outputs: Vec<u32> },
}

/// The view of an operation. Of its options it holds the label.
#[verifier::ext_equal]
pub enum OperationView {
    Identity { input: u32, options: Option<Seq<char>>, outputs: Seq<u32> },
    Add { a: u32, b: u32, options: Option<Seq<char>>, outputs: Seq<u32> },
}

impl OperationView {
    /// The label of the operation, empty when it has no options.
    pub open spec fn label(self) -> Seq<char> {
        let options = match self {
            OperationView::Identity { options, .. } => options,
            OperationView::Add { options, .. } => options,
        };
        match options {
            Some(label) => label,
            None => Seq::empty(),
        }
    }

    /// The operand that the operation reads first.
    pub open spec fn first_input(self) -> u32 {
        match self {
            OperationView::Identity { input, .. } => input,
            OperationView::Add { a, .. } => a,
        }
    }

    /// The operands that the operation writes.
    pub open spec fn outputs(self) -> Seq<u32> {
        match self {
            OperationView::Identity { outputs, .. } => outputs,
            OperationView::Add { outputs, .. } => outputs,
        }
    }
}

/// The view of optional operator options: the label.
pub open spec fn options_view(options: Option<MLOperatorOptions>) -> Option<Seq<char>> {
    match options {
        Some(given) => Some(given@),
        None => None,
    }
}

impl View for Operation {
    type V = OperationView;

    open spec fn view(&self) -> OperationView {
        match *self {
            Operation::Identity { input, options, outputs } => OperationView::Identity {
                input,
                options: options_view(options),
                outputs: outputs@,
            },
            Operation::Add { a, b, options, outputs } => OperationView::Add {
                a,
                b,
                options: options_view(options),
                outputs: outputs@,
            },
        }
    }
}

impl Operation {
    /// The label of the operation, empty when it has no options.
    pub fn label(&self) -> (label: &str)
        ensures
            label@ == self@.label(),
    {
        let options = match self {
            Operation::Identity { options, .. } => options,
            Operation::Add { options, .. } => options,
        };
        match options {
            Some(given) => given.label.as_str(),
            None => {
                proof {
                    reveal_strlit("");
                }
                assert(""@ =~= Seq::<char>::empty());
                ""
            },
        }
    }
}

/// A graph under construction, or one ready for a backend.
#[derive(Debug, PartialEq, Eq)]
pub struct GraphInfo {
    /// The positions of the inputs, in the order in which they were added.
    pub input_operands: Vec<u32>,
    /// The positions of the outputs, in the order in which they were named.
    pub output_operands: Vec<u32>,
    /// The operands. An operand is referred to by its position here.
    pub operands: Vec<Operand>,
    /// The operations, in the order in which they were added.
    pub operations: Vec<Operation>,
}

/// The view of a graph.
#[verifier::ext_equal]
pub struct GraphView {
    pub input_operands: Seq<u32>,
    pub output_operands: Seq<u32>,
    pub operands: Seq<OperandView>,
    pub operations: Seq<OperationView>,
}

impl View for GraphInfo {
    type V = GraphView;

    open spec fn view(&self) -> GraphView {
        GraphView {
            input_operands: self.input_operands@,
            output_operands: self.output_operands@,
            operands: self.operands@.map_values(|operand: Operand| operand@),
            operations: self.operations@.map_values(|operation: Operation| operation@),
        }
    }
}

impl GraphView {
    /// The graph with nothing in it.
    pub open spec fn empty() -> GraphView {
        GraphView {
            input_operands: Seq::empty(),
            output_operands: Seq::empty(),
            operands: Seq::empty(),
            operations: Seq::empty(),
        }
    }
}

impl Default for GraphInfo {
    fn default() -> (graph: Self)
        ensures
            graph@ == GraphView::empty(),
    {
        GraphInfo {
            input_operands: Vec::new(),
            output_operands: Vec::new(),
            operands: Vec::new(),
            operations: Vec::new(),
        }
    }
}

} // verus!
