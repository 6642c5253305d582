//! What each builder call does, as functions on views.
use crate::error::RefusalView;
use crate::graph::{DescriptorView, GraphView, OperandKind, OperandView, OperationView};
use crate::mlcontext::MLOperand;
use vstd::prelude::*;

verus! {

/// What a builder holds: the backend, and the graph until a build takes it.
#[verifier::ext_equal]
pub struct BuilderView<B> {
    pub backend: B,
    pub graph: Option<GraphView>,
}

impl<B> BuilderView<B> {
    /// A builder that has just been made.
    pub open spec fn started(backend: B) -> BuilderView<B> {
        BuilderView { backend, graph: Some(GraphView::empty()) }
    }
}

/// A call that adds one operand to the graph of a builder.
pub enum Call {
    Input { name: Seq<char>, descriptor: DescriptorView },
    Identity { input: int, label: Seq<char> },
    Add { a: int, b: int, label: Seq<char> },
}

/// A name for an output, and the position of the operand that is to be that output.
pub type NamedOutput = (Seq<char>, int);

/// The name of an operand that an operation with this label writes: an unlabelled operation gives
/// its operand the empty name, a labelled one leaves its operand without a name.
pub open spec fn written_name(label: Seq<char>) -> Option<Seq<char>> {
    if label.len() == 0 {
        Some(label)
    } else {
        None
    }
}

impl GraphView {
    /// Whether `id` is the position of an operand.
    pub open spec fn has_operand(self, id: int) -> bool {
        0 <= id < self.operands.len()
    }

    /// The graph with one more input at its end.
    pub open spec fn with_input(self, name: Seq<char>, descriptor: DescriptorView) -> GraphView {
        GraphView {
            operands: self.operands.push(
                OperandView { descriptor, kind: OperandKind::Input, name: Some(name) },
            ),
            input_operands: self.input_operands.push(self.operands.len() as u32),
            ..self
        }
    }

    /// The graph with one more operation, and with the operand that it writes at the end.
    pub open spec fn with_operation(
        self,
        descriptor: DescriptorView,
        operation: OperationView,
    ) -> GraphView {
        GraphView {
            operands: self.operands.push(
                OperandView {
                    descriptor,
                    kind: OperandKind::Output,
                    name: written_name(operation.label()),
                },
            ),
            operations: self.operations.push(operation),
            ..self
        }
    }

    /// The identity of `input` that a call adds to this graph. Positions are cut to 32 bits.
    pub open spec fn identity_operation(self, input: int, label: Seq<char>) -> OperationView {
        OperationView::Identity {
            input: input as u32,
            options: Some(label),
            outputs: seq![self.operands.len() as u32],
        }
    }

    /// The sum of `a` and `b` that a call adds to this graph. Positions are cut to 32 bits.
    pub open spec fn add_operation(self, a: int, b: int, label: Seq<char>) -> OperationView {
        OperationView::Add {
            a: a as u32,
            b: b as u32,
            options: Some(label),
            outputs: seq![self.operands.len() as u32],
        }
    }

    /// The graph after `operation`, whose result has the descriptor of the operand `first`.
    /// `None` when there is no such operand.
    pub open spec fn after_operation(self, first: int, operation: OperationView) -> Option<
        GraphView,
    > {
        if self.has_operand(first) {
            Some(self.with_operation(self.operands[first].descriptor, operation))
        } else {
            None
        }
    }

    /// The graph after `call`; `None` when the call names an operand that the graph lacks. Of the
    /// two operands of an addition only the first is looked up.
    pub open spec fn after(self, call: Call) -> Option<GraphView> {
        match call {
            Call::Input { name, descriptor } => Some(self.with_input(name, descriptor)),
            Call::Identity { input, label } => self.after_operation(
                input,
                self.identity_operation(input, label),
            ),
            Call::Add { a, b, label } => self.after_operation(a, self.add_operation(a, b, label)),
        }
    }

    /// Whether all of this graph is still in `later`, in its place: operands, operations and inputs
    /// may have been added at the end, and the outputs are the same.
    pub open spec fn is_kept_in(self, later: GraphView) -> bool {
        &&& self.operands.is_prefix_of(later.operands)
        &&& self.operations.is_prefix_of(later.operations)
        &&& self.input_operands.is_prefix_of(later.input_operands)
        &&& self.output_operands == later.output_operands
    }

    /// Whether `later` is this graph with one more input.
    pub open spec fn gains_input(self, later: GraphView) -> bool {
        exists|name: Seq<char>, descriptor: DescriptorView|
            later == #[trigger] self.with_input(name, descriptor)
    }

    /// Whether `later` is this graph with one more operation, whatever it is and whatever the
    /// descriptor of its result.
    pub open spec fn gains_operation(self, later: GraphView) -> bool {
        exists|descriptor: DescriptorView, operation: OperationView|
            later == #[trigger] self.with_operation(descriptor, operation)
    }

    /// Whether the positions of all operands can be told apart once they are cut to 32 bits.
    pub open spec fn fits(self) -> bool {
        self.operands.len() <= 0x1_0000_0000
    }

    /// Whether `operation` writes one operand, an output, which comes after the first operand that
    /// it reads, has the descriptor of that, and is named as the label says.
    pub open spec fn is_sound(self, operation: OperationView) -> bool {
        let read = operation.first_input() as int;
        let written = operation.outputs()[0] as int;
        &&& operation.outputs().len() == 1
        &&& 0 <= read < written < self.operands.len()
        &&& self.operands[written].kind == OperandKind::Output
        &&& self.operands[written].descriptor == self.operands[read].descriptor
        &&& self.operands[written].name == written_name(operation.label())
    }

    /// What holds of a graph that a builder has collected: the inputs are listed, each once and in
    /// order; every other operand is the result of one operation, and the operations are in the
    /// order of their results; no output has been named.
    pub open spec fn well_formed(self) -> bool {
        &&& forall|i: int|
            0 <= i < self.input_operands.len() ==> {
                let id = #[trigger] self.input_operands[i] as int;
                id < self.operands.len() && self.operands[id].kind == OperandKind::Input
            }
        &&& forall|i: int, j: int|
            0 <= i < j < self.input_operands.len() ==> #[trigger] self.input_operands[i]
                < #[trigger] self.input_operands[j]
        &&& forall|i: int|
            0 <= i < self.operations.len() ==> self.is_sound(#[trigger] self.operations[i])
        &&& forall|i: int, j: int|
            0 <= i < j < self.operations.len() ==> (#[trigger] self.operations[i]).outputs()[0] < (
            #[trigger] self.operations[j]).outputs()[0]
        &&& forall|id: int|
            0 <= id < self.operands.len() ==> match (#[trigger] self.operands[id]).kind {
                OperandKind::Input => self.is_listed_input(id),
                OperandKind::Constant => false,
                OperandKind::Output => self.is_result(id),
            }
        &&& self.output_operands.len() == 0
    }

    /// Whether the operand at `id` is in the list of inputs.
    pub open spec fn is_listed_input(self, id: int) -> bool {
        exists|i: int| 0 <= i < self.input_operands.len() && #[trigger] self.input_operands[i] == id
    }

    /// Whether an operation writes the operand at `id`.
    pub open spec fn is_result(self, id: int) -> bool {
        exists|i: int|
            0 <= i < self.operations.len() && (#[trigger] self.operations[i]).outputs()[0] == id
    }

    /// Why `output` cannot be an output of this graph; `None` when it can. An operand that the
    /// graph lacks is not refused.
    pub open spec fn refusal(self, output: NamedOutput) -> Option<RefusalView> {
        let (name, id) = output;
        if name.len() == 0 {
            Some(RefusalView::EmptyOutputHashMap)
        } else if self.has_operand(id) && self.operands[id].kind == OperandKind::Input {
            Some(RefusalView::RequestedInputAsOutput { operand: self.operands[id], id })
        } else if self.has_operand(id) && self.operands[id].kind == OperandKind::Constant {
            Some(RefusalView::RequestedConstantAsOutput { operand: self.operands[id], id })
        } else {
            None
        }
    }

    /// Why the first of `outputs` that cannot be an output is refused; `None` when all can.
    pub open spec fn first_refusal(self, outputs: Seq<NamedOutput>) -> Option<RefusalView>
        decreases outputs.len(),
    {
        if outputs.len() == 0 {
            None
        } else if self.refusal(outputs.first()) is Some {
            self.refusal(outputs.first())
        } else {
            self.first_refusal(outputs.drop_first())
        }
    }

    /// The graph with `outputs` as its outputs: each is listed, in order, and the operand that it
    /// stands for bears its name.
    pub open spec fn with_outputs(self, outputs: Seq<NamedOutput>) -> GraphView {
        GraphView {
            operands: self.operands.map(
                |id: int, operand: OperandView| named_last(operand, id, outputs),
            ),
            output_operands: self.output_operands + outputs.map_values(
                |output: NamedOutput| output.1 as u32,
            ),
            ..self
        }
    }
}

/// The last name that `outputs` give to the operand at `id`.
pub open spec fn last_name(outputs: Seq<NamedOutput>, id: int) -> Option<Seq<char>>
    decreases outputs.len(),
{
    if outputs.len() == 0 {
        None
    } else if outputs.last().1 == id {
        Some(outputs.last().0)
    } else {
        last_name(outputs.drop_last(), id)
    }
}

/// The operand at `id` once `outputs` are named: an output under the last name given to it, or as
/// it was when none is.
pub open spec fn named_last(
    operand: OperandView,
    id: int,
    outputs: Seq<NamedOutput>,
) -> OperandView {
    match last_name(outputs, id) {
        Some(name) => OperandView { kind: OperandKind::Output, name: Some(name), ..operand },
        None => operand,
    }
}

/// What a call returns: the position of the new operand, which is the last, or the refusal.
pub open spec fn answer(graph: Option<GraphView>, call: Call) -> Result<int, RefusalView> {
    match graph {
        None => Err(RefusalView::GraphAlreadyBuilt),
        Some(graph) => match graph.after(call) {
            None => Err(RefusalView::InvalidOperand),
            Some(_) => Ok(graph.operands.len() as int),
        },
    }
}

/// The graph that a builder holds after a call. A refused call changes nothing.
pub open spec fn next(graph: Option<GraphView>, call: Call) -> Option<GraphView> {
    match graph {
        None => None,
        Some(held) => match held.after(call) {
            None => graph,
            Some(after) => Some(after),
        },
    }
}

/// Whether a single call that adds an operand can lead from `before` to `after`: it is refused and
/// changes nothing, or it adds an input or an operation.
pub open spec fn is_step(before: Option<GraphView>, after: Option<GraphView>) -> bool {
    ||| after == before
    ||| before matches Some(held) && after matches Some(later) && (held.gains_input(later)
        || held.gains_operation(later))
}

/// The descriptor that the result of an operation on `inputs` takes over: that of the first of
/// them, if `operands` has it.
pub open spec fn first_descriptor(inputs: Seq<MLOperand>, operands: Seq<OperandView>) -> Result<
    DescriptorView,
    RefusalView,
> {
    let id = inputs[0].id as int;
    if id < operands.len() {
        Ok(operands[id].descriptor)
    } else {
        Err(RefusalView::InvalidOperand)
    }
}

/// What holds of the graph of every builder, as long as the positions fit.
pub open spec fn holds_well_formed(graph: Option<GraphView>) -> bool {
    graph matches Some(held) ==> held.fits() ==> held.well_formed()
}

/// The graph that a builder holds after some calls, one after the other.
pub open spec fn run(graph: Option<GraphView>, calls: Seq<Call>) -> Option<GraphView>
    decreases calls.len(),
{
    if calls.len() == 0 {
        graph
    } else {
        next(run(graph, calls.drop_last()), calls.last())
    }
}

/// The graph that naming `outputs` hands to the backend, or the refusal.
pub open spec fn finished(graph: Option<GraphView>, outputs: Seq<NamedOutput>) -> Result<
    GraphView,
    RefusalView,
> {
    if outputs.len() == 0 {
        Err(RefusalView::EmptyOutputHashMap)
    } else {
        match graph {
            None => Err(RefusalView::GraphAlreadyBuilt),
            Some(held) => match held.first_refusal(outputs) {
                Some(refusal) => Err(refusal),
                None => Ok(held.with_outputs(outputs)),
            },
        }
    }
}

/// The graph that a builder holds after naming `outputs`: none, unless there were none to name.
/// The graph is gone even when an output is refused.
pub open spec fn left_over(graph: Option<GraphView>, outputs: Seq<NamedOutput>) -> Option<
    GraphView,
> {
    if outputs.len() == 0 {
        graph
    } else {
        None
    }
}

/// The view of a list of outputs.
pub open spec fn outputs_view(outputs: Seq<(&str, MLOperand)>) -> Seq<NamedOutput> {
    outputs.map_values(|output: (&str, MLOperand)| (output.0@, output.1.id as int))
}

/// Whether `output` is an entry of the map.
pub open spec fn is_entry(map: Map<&str, MLOperand>, output: NamedOutput) -> bool {
    exists|key: &str| #[trigger]
        map.contains_key(key) && output == (key@, map[key].id as int)
}

/// Whether `outputs` list each entry of the map once, in whatever order.
pub open spec fn is_walk(map: Map<&str, MLOperand>, outputs: Seq<NamedOutput>) -> bool {
    &&& outputs.len() == map.len()
    &&& forall|i: int| 0 <= i < outputs.len() ==> is_entry(map, #[trigger] outputs[i])
    &&& forall|output: NamedOutput| #[trigger]
        is_entry(map, output) ==> outputs.contains(output)
    &&& forall|i: int, j: int|
        0 <= i < j < outputs.len() ==> (#[trigger] outputs[i]).0 != (#[trigger] outputs[j]).0
}

} // verus!
