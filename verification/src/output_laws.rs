//! What naming outputs accepts, refuses and leaves behind, field by field.
use crate::error::RefusalView;
use crate::graph::{GraphView, OperandKind, OperandView};
use crate::laws::{
    first_refused_output_decides, last_output_names_its_operand, outputs_are_accepted_together,
};
use crate::mlcontext::MLOperand;
use crate::model::{finished, is_entry, is_walk, left_over, outputs_view, NamedOutput};
use vstd::prelude::*;

verus! {

/// Naming outputs, however it ends, takes the graph from the builder; naming none leaves it.
pub proof fn naming_outputs_takes_the_graph(graph: Option<GraphView>, outputs: Seq<NamedOutput>)
    ensures
        outputs.len() > 0 ==> left_over(graph, outputs) is None,
        outputs.len() == 0 ==> left_over(graph, outputs) == graph,
        outputs.len() == 0 ==> finished(graph, outputs) == Err::<GraphView, _>(
            RefusalView::EmptyOutputHashMap,
        ),
        outputs.len() > 0 && graph is None ==> finished(graph, outputs) == Err::<GraphView, _>(
            RefusalView::GraphAlreadyBuilt,
        ),
{
}

/// Outputs are accepted, and the graph with them is handed on, when each has a name and stands for
/// the result of an operation or for no operand at all.
pub proof fn named_results_are_accepted(graph: GraphView, outputs: Seq<NamedOutput>)
    requires
        outputs.len() > 0,
        forall|i: int|
            0 <= i < outputs.len() ==> {
                let (name, id) = #[trigger] outputs[i];
                &&& name.len() > 0
                &&& 0 <= id < graph.operands.len() ==> graph.operands[id].kind
                    == OperandKind::Output
            },
    ensures
        graph.first_refusal(outputs) is None,
        finished(Some(graph), outputs) == Ok::<GraphView, RefusalView>(graph.with_outputs(outputs)),
{
    outputs_are_accepted_together(graph, outputs);
    assert forall|i: int| 0 <= i < outputs.len() implies graph.refusal(
        #[trigger] outputs[i],
    ) is None by {
        let (name, id) = outputs[i];
        assert(name.len() > 0);
    }
}

/// The first output that has no name, or stands for an input or a constant, is why the outputs are
/// refused. An output without a name is refused for that, whatever it stands for; the refusal of an
/// input or a constant carries that operand, as it is in the graph, and its position.
pub proof fn the_first_bad_output_is_the_reason(
    graph: GraphView,
    outputs: Seq<NamedOutput>,
    at: int,
)
    requires
        0 <= at < outputs.len(),
        forall|i: int|
            0 <= i < at ==> {
                let (name, id) = #[trigger] outputs[i];
                &&& name.len() > 0
                &&& 0 <= id < graph.operands.len() ==> graph.operands[id].kind
                    == OperandKind::Output
            },
    ensures
        ({
            let (name, id) = outputs[at];
            let listed = 0 <= id < graph.operands.len();
            &&& name.len() == 0 ==> {
                &&& graph.first_refusal(outputs) == Some(RefusalView::EmptyOutputHashMap)
                &&& finished(Some(graph), outputs) == Err::<GraphView, _>(
                    RefusalView::EmptyOutputHashMap,
                )
            }
            &&& name.len() > 0 && listed && graph.operands[id].kind == OperandKind::Input ==> {
                &&& graph.first_refusal(outputs) == Some(
                    RefusalView::RequestedInputAsOutput { operand: graph.operands[id], id },
                )
                &&& finished(Some(graph), outputs) == Err::<GraphView, _>(
                    RefusalView::RequestedInputAsOutput { operand: graph.operands[id], id },
                )
            }
            &&& name.len() > 0 && listed && graph.operands[id].kind == OperandKind::Constant ==> {
                &&& graph.first_refusal(outputs) == Some(
                    RefusalView::RequestedConstantAsOutput { operand: graph.operands[id], id },
                )
                &&& finished(Some(graph), outputs) == Err::<GraphView, _>(
                    RefusalView::RequestedConstantAsOutput { operand: graph.operands[id], id },
                )
            }
        }),
{
    assert forall|i: int| 0 <= i < at implies graph.refusal(#[trigger] outputs[i]) is None by {
        let (name, id) = outputs[i];
        assert(name.len() > 0);
    }
    if graph.refusal(outputs[at]) is Some {
        first_refused_output_decides(graph, outputs, at);
    }
}

/// The positions of the outputs follow the outputs that the graph had, one for each and in order.
/// The inputs, the operations and the number of operands stay as they were.
pub proof fn outputs_are_listed_in_order(graph: GraphView, outputs: Seq<NamedOutput>)
    ensures
        ({
            let after = graph.with_outputs(outputs);
            let had = graph.output_operands.len();
            &&& after.output_operands.len() == had + outputs.len()
            &&& forall|i: int|
                0 <= i < had ==> #[trigger] after.output_operands[i] == graph.output_operands[i]
            &&& forall|i: int|
                0 <= i < outputs.len() ==> after.output_operands[had + i] == (
                #[trigger] outputs[i]).1 as u32
            &&& forall|i: int|
                0 <= i < outputs.len() && 0 <= (#[trigger] outputs[i]).1 < 0x1_0000_0000
                    ==> after.output_operands[had + i] == outputs[i].1
            &&& after.input_operands == graph.input_operands
            &&& after.operations == graph.operations
            &&& after.operands.len() == graph.operands.len()
        }),
{
}

/// The operand that an output stands for becomes an output under its name, unless a later output
/// stands for it too. Its descriptor stays as it was.
pub proof fn an_output_names_its_operand(graph: GraphView, outputs: Seq<NamedOutput>, at: int)
    requires
        0 <= at < outputs.len(),
        0 <= outputs[at].1 < graph.operands.len(),
        forall|i: int| at < i < outputs.len() ==> (#[trigger] outputs[i]).1 != outputs[at].1,
    ensures
        graph.with_outputs(outputs).operands[outputs[at].1] == (OperandView {
            descriptor: graph.operands[outputs[at].1].descriptor,
            kind: OperandKind::Output,
            name: Some(outputs[at].0),
        }),
{
    let id = outputs[at].1;
    last_output_names_its_operand(outputs, id);
}

/// An operand that no output stands for stays as it was.
pub proof fn other_operands_stay_as_they_were(graph: GraphView, outputs: Seq<NamedOutput>, id: int)
    requires
        0 <= id < graph.operands.len(),
        forall|i: int| 0 <= i < outputs.len() ==> (#[trigger] outputs[i]).1 != id,
    ensures
        graph.with_outputs(outputs).operands[id] == graph.operands[id],
{
    last_output_names_its_operand(outputs, id);
}

/// A walk of a map meets the entry of every key, meets nothing else, and meets no name twice.
pub proof fn a_walk_meets_every_entry_once(
    map: Map<&str, MLOperand>,
    outputs: Seq<NamedOutput>,
    key: &str,
    at: int,
    other: int,
)
    requires
        is_walk(map, outputs),
    ensures
        outputs.len() == map.len(),
        map.contains_key(key) ==> exists|i: int|
            0 <= i < outputs.len() && #[trigger] outputs[i] == (key@, map[key].id as int),
        0 <= at < outputs.len() ==> exists|met: &str| #[trigger]
            map.contains_key(met) && outputs[at] == (met@, map[met].id as int),
        0 <= at < outputs.len() && 0 <= other < outputs.len() && at != other ==> outputs[at].0
            != outputs[other].0,
{
    if map.contains_key(key) {
        let output = (key@, map[key].id as int);
        assert(is_entry(map, output));
        let i = choose|i: int| 0 <= i < outputs.len() && outputs[i] == output;
        assert(outputs[i] == output);
    }
    if 0 <= at < outputs.len() {
        assert(is_entry(map, outputs[at]));
    }
    if 0 <= at < other < outputs.len() {
        assert(outputs[at].0 != outputs[other].0);
    }
    if 0 <= other < at < outputs.len() {
        assert(outputs[other].0 != outputs[at].0);
    }
}

/// A list of outputs is seen name by name and position by position.
pub proof fn listed_outputs_are_seen_as_given(outputs: Seq<(&str, MLOperand)>)
    ensures
        outputs_view(outputs).len() == outputs.len(),
        forall|i: int|
            0 <= i < outputs.len() ==> {
                &&& (#[trigger] outputs_view(outputs)[i]).0 == outputs[i].0@
                &&& outputs_view(outputs)[i].1 == outputs[i].1.id
            },
{
}

} // verus!
