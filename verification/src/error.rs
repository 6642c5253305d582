//! The errors of this crate.
use crate::graph::{Operand, OperandView};
use vstd::prelude::*;

verus! {

/// Why a builder refused a call.
#[derive(Debug, PartialEq, Eq)]
pub enum GraphBuilderError {
    /// The operand is not part of the graph.
    InvalidOperand,
    /// No outputs were given, or one was given without a name.
    EmptyOutputHashMap,
    /// The graph has been taken by an earlier build.
    GraphAlreadyBuilt,
    /// An input was named as an output.
    RequestedInputAsOutput { operand: Operand, id: usize },
    /// A constant was named as an output.
    RequestedConstantAsOutput { operand: Operand, id: usize },
}

/// The view of a builder's refusal.
#[verifier::ext_equal]
pub enum RefusalView {
    InvalidOperand,
    EmptyOutputHashMap,
    GraphAlreadyBuilt,
    RequestedInputAsOutput { operand: OperandView, id: int },
    RequestedConstantAsOutput { operand: OperandView, id: int },
}

impl View for GraphBuilderError {
    type V = RefusalView;

    open spec fn view(&self) -> RefusalView {
        match *self {
            GraphBuilderError::InvalidOperand => RefusalView::InvalidOperand,
            GraphBuilderError::EmptyOutputHashMap => RefusalView::EmptyOutputHashMap,
            GraphBuilderError::GraphAlreadyBuilt => RefusalView::GraphAlreadyBuilt,
            GraphBuilderError::RequestedInputAsOutput { operand, id } => {
                RefusalView::RequestedInputAsOutput { operand: operand@, id: id as int }
            },
            GraphBuilderError::RequestedConstantAsOutput { operand, id } => {
                RefusalView::RequestedConstantAsOutput { operand: operand@, id: id as int }
            },
        }
    }
}

/// `number` in decimal digits.
pub open spec fn decimal(number: nat) -> Seq<char>
    decreases number,
{
    let digit = "0123456789"@[(number % 10) as int];
    if number < 10 {
        seq![digit]
    } else {
        decimal(number / 10).push(digit)
    }
}

/// Appends `number` in decimal digits.
fn append_decimal(text: &mut String, number: usize)
    ensures
        final(text)@ == old(text)@ + decimal(number as nat),
    decreases number,
{
    if number >= 10 {
        append_decimal(text, number / 10);
    }
    proof {
        reveal_strlit("0123456789");
    }
    let digit: usize = number % 10;
    text.append("0123456789".substring_char(digit, digit + 1));
    assert(text@ =~= old(text)@ + decimal(number as nat));
}

impl RefusalView {
    /// The sentence that tells a refusal.
    pub open spec fn message(self) -> Seq<char> {
        match self {
            RefusalView::InvalidOperand => "the MLOperand is not part of the graph"@,
            RefusalView::EmptyOutputHashMap => "an output is missing or has no name"@,
            RefusalView::GraphAlreadyBuilt => "the graph has already been built"@,
            RefusalView::RequestedInputAsOutput { id, .. } => "requested an MLOperand with id "@
                + decimal(id as nat) + " as an output that is already an input"@,
            RefusalView::RequestedConstantAsOutput { id, .. } => "requested an MLOperand with id "@
                + decimal(id as nat) + " as an output that is already a constant"@,
        }
    }
}

impl GraphBuilderError {
    /// The sentence that tells this error.
    pub fn message(&self) -> (message: String)
        ensures
            message@ == self@.message(),
    {
        match self {
            GraphBuilderError::InvalidOperand => {
                "the MLOperand is not part of the graph".to_string()
            },
            GraphBuilderError::EmptyOutputHashMap => {
                "an output is missing or has no name".to_string()
            },
            GraphBuilderError::GraphAlreadyBuilt => "the graph has already been built".to_string(),
            GraphBuilderError::RequestedInputAsOutput { id, .. } => {
                let mut message = "requested an MLOperand with id ".to_string();
                append_decimal(&mut message, *id);
                message.append(" as an output that is already an input");
                message
            },
            GraphBuilderError::RequestedConstantAsOutput { id, .. } => {
                let mut message = "requested an MLOperand with id ".to_string();
                append_decimal(&mut message, *id);
                message.append(" as an output that is already a constant");
                message
            },
        }
    }
}

/// What can go wrong in this crate.
#[derive(Debug, PartialEq, Eq)]
pub enum Error {
    /// No backend can be used on this machine.
    NoBackendAvialable,
    /// A builder refused a call.
    GraphBuilderError { source: GraphBuilderError },
    /// The backend failed.
    BackendError { message: String },
}

impl Error {
    /// Whether this error says that a builder refused a call, and why.
    pub open spec fn is_refusal(self, refusal: RefusalView) -> bool {
        self matches Error::GraphBuilderError { source } && source@ == refusal
    }

    /// The sentence that tells this error. A refusal is told as the builder tells it, and a
    /// failure of the backend as the backend does.
    pub fn message(&self) -> (message: String)
        ensures
            match *self {
                Error::NoBackendAvialable => message@ == "no backend is available"@,
                Error::GraphBuilderError { source } => message@ == source@.message(),
                Error::BackendError { message: reported } => message@ == reported@,
            },
    {
        match self {
            Error::NoBackendAvialable => "no backend is available".to_string(),
            Error::GraphBuilderError { source } => source.message(),
            Error::BackendError { message } => message.clone(),
        }
    }
}

impl From<GraphBuilderError> for Error {
    fn from(source: GraphBuilderError) -> (error: Self) {
        Error::GraphBuilderError { source }
    }
}

impl vstd::std_specs::convert::FromSpecImpl<GraphBuilderError> for Error {
    open spec fn obeys_from_spec() -> bool {
        true
    }

    open spec fn from_spec(source: GraphBuilderError) -> Error {
        Error::GraphBuilderError { source }
    }
}

} // verus!
