//! What each call that adds an operand leaves behind, field by field.
use crate::error::RefusalView;
use crate::graph::{DescriptorView, GraphView, OperandKind, OperandView, OperationView};
use crate::mlcontext::MLOperand;
use crate::model::{answer, first_descriptor, next, run, BuilderView, Call};
use vstd::prelude::*;

verus! {

/// A new builder stands on the backend that it was given, and its graph has nothing in it.
pub proof fn a_new_builder_holds_an_empty_graph<B>(backend: B)
    ensures
        BuilderView::started(backend).backend == backend,
        BuilderView::started(backend).graph matches Some(graph) && {
            &&& graph.operands.len() == 0
            &&& graph.operations.len() == 0
            &&& graph.input_operands.len() == 0
            &&& graph.output_operands.len() == 0
        },
        GraphView::empty().operands.len() == 0,
        GraphView::empty().operations.len() == 0,
        GraphView::empty().input_operands.len() == 0,
        GraphView::empty().output_operands.len() == 0,
{
}

/// Once the graph is gone, every call is refused for that reason, and the graph stays gone.
pub proof fn nothing_is_added_to_a_graph_that_is_gone(call: Call)
    ensures
        answer(None, call) == Err::<int, _>(RefusalView::GraphAlreadyBuilt),
        next(None, call) is None,
{
}

/// An input is never refused. It is the last operand, an input under the given name and with the
/// given descriptor, and its position is returned and ends the list of inputs. Nothing else
/// changes.
pub proof fn an_input_is_added_as_described(
    graph: GraphView,
    name: Seq<char>,
    descriptor: DescriptorView,
)
    ensures
        answer(Some(graph), Call::Input { name, descriptor }) == Ok::<int, RefusalView>(
            graph.operands.len() as int,
        ),
        next(Some(graph), Call::Input { name, descriptor }) matches Some(after) && {
            let new = after.operands.last();
            &&& after.operands.len() == graph.operands.len() + 1
            &&& after.operands.drop_last() == graph.operands
            &&& new.descriptor.data_type == descriptor.data_type
            &&& new.descriptor.shape == descriptor.shape
            &&& new.kind == OperandKind::Input
            &&& new.name == Some(name)
            &&& after.input_operands.len() == graph.input_operands.len() + 1
            &&& after.input_operands.drop_last() == graph.input_operands
            &&& after.input_operands.last() == graph.operands.len() as u32
            &&& graph.operands.len() < 0x1_0000_0000 ==> after.input_operands.last()
                == graph.operands.len()
            &&& after.operations == graph.operations
            &&& after.output_operands == graph.output_operands
        },
{
    let after = next(Some(graph), Call::Input { name, descriptor })->0;
    assert(after.operands.drop_last() =~= graph.operands);
    assert(after.input_operands.drop_last() =~= graph.input_operands);
}

/// An identity is refused exactly when the graph has no operand at the position given, and then
/// changes nothing. What kind of operand it is does not matter.
pub proof fn an_identity_needs_its_operand(graph: GraphView, input: int, label: Seq<char>)
    ensures
        0 <= input < graph.operands.len() ==> answer(Some(graph), Call::Identity { input, label })
            == Ok::<int, RefusalView>(graph.operands.len() as int),
        !(0 <= input < graph.operands.len()) ==> {
            &&& answer(Some(graph), Call::Identity { input, label }) == Err::<int, _>(
                RefusalView::InvalidOperand,
            )
            &&& next(Some(graph), Call::Identity { input, label }) == Some(graph)
        },
{
}

/// An identity that is carried out ends the operations. It reads the very operand given, bears the
/// label given, and writes the last operand, which has the descriptor of the operand read. Nothing
/// else changes.
pub proof fn an_identity_copies_its_operand(graph: GraphView, input: int, label: Seq<char>)
    requires
        0 <= input < graph.operands.len(),
    ensures
        next(Some(graph), Call::Identity { input, label }) matches Some(after) && {
            let new = after.operands.last();
            &&& after.operations.len() == graph.operations.len() + 1
            &&& after.operations.drop_last() == graph.operations
            &&& after.operations.last() matches OperationView::Identity {
                input: read,
                options,
                outputs,
            } && {
                &&& read == input as u32
                &&& input < 0x1_0000_0000 ==> read == input
                &&& options == Some(label)
                &&& outputs.len() == 1
                &&& outputs[0] == graph.operands.len() as u32
                &&& graph.operands.len() < 0x1_0000_0000 ==> outputs[0] == graph.operands.len()
            }
            &&& after.operands.len() == graph.operands.len() + 1
            &&& after.operands.drop_last() == graph.operands
            &&& new.descriptor == graph.operands[input].descriptor
            &&& new.kind == OperandKind::Output
            &&& label.len() == 0 ==> new.name == Some(Seq::<char>::empty())
            &&& label.len() > 0 ==> new.name is None
            &&& after.input_operands == graph.input_operands
            &&& after.output_operands == graph.output_operands
        },
{
    let after = next(Some(graph), Call::Identity { input, label })->0;
    assert(after.operands.drop_last() =~= graph.operands);
    assert(after.operations.drop_last() =~= graph.operations);
    if label.len() == 0 {
        assert(label =~= Seq::<char>::empty());
    }
}

/// A sum is refused exactly when the graph has no operand at the first position given, and then
/// changes nothing. What kind of operand it is does not matter, nor does the second position.
pub proof fn a_sum_needs_its_first_operand(graph: GraphView, a: int, b: int, label: Seq<char>)
    ensures
        0 <= a < graph.operands.len() ==> answer(Some(graph), Call::Add { a, b, label }) == Ok::<
            int,
            RefusalView,
        >(graph.operands.len() as int),
        !(0 <= a < graph.operands.len()) ==> {
            &&& answer(Some(graph), Call::Add { a, b, label }) == Err::<int, _>(
                RefusalView::InvalidOperand,
            )
            &&& next(Some(graph), Call::Add { a, b, label }) == Some(graph)
        },
{
}

/// A sum that is carried out ends the operations. It reads the two operands given, in that order
/// and whatever they are, bears the label given, and writes the last operand, which has the
/// descriptor of the first operand read. Nothing else changes.
pub proof fn a_sum_adds_its_operands(graph: GraphView, a: int, b: int, label: Seq<char>)
    requires
        0 <= a < graph.operands.len(),
    ensures
        next(Some(graph), Call::Add { a, b, label }) matches Some(after) && {
            let new = after.operands.last();
            &&& after.operations.len() == graph.operations.len() + 1
            &&& after.operations.drop_last() == graph.operations
            &&& after.operations.last() matches OperationView::Add {
                a: first,
                b: second,
                options,
                outputs,
            } && {
                &&& first == a as u32
                &&& a < 0x1_0000_0000 ==> first == a
                &&& second == b as u32
                &&& 0 <= b < 0x1_0000_0000 ==> second == b
                &&& options == Some(label)
                &&& outputs.len() == 1
                &&& outputs[0] == graph.operands.len() as u32
                &&& graph.operands.len() < 0x1_0000_0000 ==> outputs[0] == graph.operands.len()
            }
            &&& after.operands.len() == graph.operands.len() + 1
            &&& after.operands.drop_last() == graph.operands
            &&& new.descriptor == graph.operands[a].descriptor
            &&& new.kind == OperandKind::Output
            &&& label.len() == 0 ==> new.name == Some(Seq::<char>::empty())
            &&& label.len() > 0 ==> new.name is None
            &&& after.input_operands == graph.input_operands
            &&& after.output_operands == graph.output_operands
        },
{
    let after = next(Some(graph), Call::Add { a, b, label })->0;
    assert(after.operands.drop_last() =~= graph.operands);
    assert(after.operations.drop_last() =~= graph.operations);
    if label.len() == 0 {
        assert(label =~= Seq::<char>::empty());
    }
}

/// Two sums on one graph are the same operation only if they have the same operands and the same
/// label, as long as the positions fit in 32 bits.
pub proof fn sums_tell_their_operands_apart(
    graph: GraphView,
    a: int,
    b: int,
    label: Seq<char>,
    other_a: int,
    other_b: int,
    other_label: Seq<char>,
)
    requires
        0 <= a < graph.operands.len() && a < 0x1_0000_0000,
        0 <= other_a < graph.operands.len() && other_a < 0x1_0000_0000,
        0 <= b < 0x1_0000_0000,
        0 <= other_b < 0x1_0000_0000,
        next(Some(graph), Call::Add { a, b, label })->0.operations.last() == next(
            Some(graph),
            Call::Add { a: other_a, b: other_b, label: other_label },
        )->0.operations.last(),
    ensures
        a == other_a,
        b == other_b,
        label == other_label,
{
    a_sum_adds_its_operands(graph, a, b, label);
    a_sum_adds_its_operands(graph, other_a, other_b, other_label);
}

/// Two identities on one graph are the same operation only if they have the same operand and the
/// same label, as long as the positions fit in 32 bits. An identity is never a sum.
pub proof fn identities_tell_their_operands_apart(
    graph: GraphView,
    input: int,
    label: Seq<char>,
    other: int,
    other_label: Seq<char>,
    b: int,
)
    requires
        0 <= input < graph.operands.len() && input < 0x1_0000_0000,
        0 <= other < graph.operands.len() && other < 0x1_0000_0000,
    ensures
        next(Some(graph), Call::Identity { input, label })->0.operations.last() == next(
            Some(graph),
            Call::Identity { input: other, label: other_label },
        )->0.operations.last() ==> input == other && label == other_label,
        next(Some(graph), Call::Identity { input, label })->0.operations.last() != next(
            Some(graph),
            Call::Add { a: other, b, label: other_label },
        )->0.operations.last(),
{
    an_identity_copies_its_operand(graph, input, label);
    an_identity_copies_its_operand(graph, other, other_label);
    a_sum_adds_its_operands(graph, other, b, other_label);
}

/// Adding an operation of any kind, with any descriptor for its result, ends the operations with
/// it and the operands with that result, which has the empty name when the operation has no label
/// and no name when it has one. Nothing else changes.
pub proof fn an_operation_is_added_as_given(
    graph: GraphView,
    descriptor: DescriptorView,
    operation: OperationView,
)
    ensures
        ({
            let after = graph.with_operation(descriptor, operation);
            let new = after.operands.last();
            let options = match operation {
                OperationView::Identity { options, .. } => options,
                OperationView::Add { options, .. } => options,
            };
            &&& after.operations.len() == graph.operations.len() + 1
            &&& after.operations.drop_last() == graph.operations
            &&& after.operations.last() == operation
            &&& after.operands.len() == graph.operands.len() + 1
            &&& after.operands.drop_last() == graph.operands
            &&& new.descriptor == descriptor
            &&& new.kind == OperandKind::Output
            &&& options is None || options->0.len() == 0 ==> new.name == Some(Seq::<char>::empty())
            &&& options is Some && options->0.len() > 0 ==> new.name is None
            &&& after.input_operands == graph.input_operands
            &&& after.output_operands == graph.output_operands
        }),
{
    let after = graph.with_operation(descriptor, operation);
    assert(after.operands.drop_last() =~= graph.operands);
    assert(after.operations.drop_last() =~= graph.operations);
    if operation.label().len() == 0 {
        assert(operation.label() =~= Seq::<char>::empty());
    }
}

/// The label of an operation is that of its options, and empty when it has none.
pub proof fn labels_come_from_the_options(
    input: u32,
    a: u32,
    b: u32,
    options: Option<Seq<char>>,
    outputs: Seq<u32>,
)
    ensures
        options matches Some(label) ==> {
            &&& OperationView::Identity { input, options, outputs }.label() == label
            &&& OperationView::Add { a, b, options, outputs }.label() == label
        },
        options is None ==> {
            &&& OperationView::Identity { input, options, outputs }.label().len() == 0
            &&& OperationView::Add { a, b, options, outputs }.label().len() == 0
        },
{
}

/// The descriptor that a result takes over is that of the operand at the position of the first
/// input; there is none exactly when there is no operand at that position.
pub proof fn the_first_input_gives_the_descriptor(
    inputs: Seq<MLOperand>,
    operands: Seq<OperandView>,
)
    requires
        inputs.len() > 0,
    ensures
        inputs[0].id < operands.len() ==> first_descriptor(inputs, operands) == Ok::<
            DescriptorView,
            RefusalView,
        >(operands[inputs[0].id as int].descriptor),
        inputs[0].id >= operands.len() ==> first_descriptor(inputs, operands) == Err::<
            DescriptorView,
            RefusalView,
        >(RefusalView::InvalidOperand),
{
}

/// Calls take effect one after the other: no calls change nothing, and one more call acts on what
/// the earlier ones left.
pub proof fn calls_act_in_order(graph: Option<GraphView>, calls: Seq<Call>, call: Call)
    ensures
        run(graph, Seq::empty()) == graph,
        run(graph, calls.push(call)) == next(run(graph, calls), call),
{
    assert(calls.push(call).drop_last() =~= calls);
}

} // verus!
