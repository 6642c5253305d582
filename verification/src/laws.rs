//! Theorems about the builder as a whole, over the functions by which its calls are specified.
use crate::error::RefusalView;
use crate::graph::{DescriptorView, GraphView, OperandKind, OperandView};
use crate::mlcontext::MLOperand;
use crate::model::{
    answer, finished, first_descriptor, holds_well_formed, is_entry, is_step, is_walk, last_name,
    left_over, next, run, written_name, Call, NamedOutput,
};
use vstd::prelude::*;

verus! {

/// Naming outputs fails with the refusal of the first output that is refused.
pub proof fn first_refused_output_decides(graph: GraphView, outputs: Seq<NamedOutput>, at: int)
    requires
        0 <= at < outputs.len(),
        graph.refusal(outputs[at]) is Some,
        forall|i: int| 0 <= i < at ==> graph.refusal(#[trigger] outputs[i]) is None,
    ensures
        graph.first_refusal(outputs) == graph.refusal(outputs[at]),
    decreases outputs.len(),
{
    if at > 0 {
        assert(graph.refusal(outputs[0]) is None);
        first_refused_output_decides(graph, outputs.drop_first(), at - 1);
    }
}

/// Naming outputs is refused exactly when one of them is.
pub proof fn outputs_are_accepted_together(graph: GraphView, outputs: Seq<NamedOutput>)
    ensures
        graph.first_refusal(outputs) is None <==> forall|i: int|
            0 <= i < outputs.len() ==> graph.refusal(#[trigger] outputs[i]) is None,
    decreases outputs.len(),
{
    if outputs.len() > 0 {
        let rest = outputs.drop_first();
        outputs_are_accepted_together(graph, rest);
        if forall|i: int| 0 <= i < outputs.len() ==> graph.refusal(#[trigger] outputs[i]) is None {
            assert forall|i: int| 0 <= i < rest.len() implies graph.refusal(
                #[trigger] rest[i],
            ) is None by {
                assert(rest[i] == outputs[i + 1]);
            }
        }
        if graph.first_refusal(outputs) is None {
            assert forall|i: int| 0 <= i < outputs.len() implies graph.refusal(
                #[trigger] outputs[i],
            ) is None by {
                if i > 0 {
                    assert(outputs[i] == rest[i - 1]);
                }
            }
        }
    }
}

/// An operand that no output stands for gets no name; otherwise it gets the name of the last
/// output that stands for it.
pub proof fn last_output_names_its_operand(outputs: Seq<NamedOutput>, id: int)
    ensures
        match last_name(outputs, id) {
            None => forall|i: int| 0 <= i < outputs.len() ==> (#[trigger] outputs[i]).1 != id,
            Some(name) => exists|i: int|
                {
                    &&& 0 <= i < outputs.len()
                    &&& #[trigger] outputs[i] == (name, id)
                    &&& forall|j: int| i < j < outputs.len() ==> (#[trigger] outputs[j]).1 != id
                },
        },
    decreases outputs.len(),
{
    if outputs.len() > 0 {
        let rest = outputs.drop_last();
        last_output_names_its_operand(rest, id);
        if outputs.last().1 == id {
            assert(outputs[outputs.len() - 1] == (outputs.last().0, id));
        } else {
            match last_name(rest, id) {
                None => {
                    assert forall|i: int| 0 <= i < outputs.len() implies (
                    #[trigger] outputs[i]).1 != id by {
                        if i < rest.len() {
                            assert(outputs[i] == rest[i]);
                        }
                    }
                },
                Some(name) => {
                    let i = choose|i: int|
                        {
                            &&& 0 <= i < rest.len()
                            &&& #[trigger] rest[i] == (name, id)
                            &&& forall|j: int|
                                i < j < rest.len() ==> (#[trigger] rest[j]).1 != id
                        };
                    assert(outputs[i] == rest[i]);
                    assert forall|j: int| i < j < outputs.len() implies (
                    #[trigger] outputs[j]).1 != id by {
                        if j < rest.len() {
                            assert(outputs[j] == rest[j]);
                        }
                    }
                },
            }
        }
    }
}

/// A call that is carried out adds one operand at the end, whose position it returns, and leaves
/// all that was there as it was.
pub proof fn calls_only_append(graph: GraphView, call: Call)
    requires
        graph.after(call) is Some,
    ensures
        answer(Some(graph), call) == Ok::<int, RefusalView>(graph.operands.len() as int),
        next(Some(graph), call) matches Some(after) && {
            &&& after.operands.len() == graph.operands.len() + 1
            &&& graph.is_kept_in(after)
        },
{
}

/// A call is a step: it changes nothing, or adds an input or an operation.
pub proof fn calls_are_steps(graph: Option<GraphView>, call: Call)
    ensures
        is_step(graph, next(graph, call)),
{
    if graph is Some && graph->0.after(call) is Some {
        let held = graph->0;
        let later = held.after(call)->0;
        match call {
            Call::Input { name, descriptor } => {
                assert(later == held.with_input(name, descriptor));
            },
            Call::Identity { input, label } => {
                assert(later == held.with_operation(
                    held.operands[input].descriptor,
                    held.identity_operation(input, label),
                ));
            },
            Call::Add { a, b, label } => {
                assert(later == held.with_operation(
                    held.operands[a].descriptor,
                    held.add_operation(a, b, label),
                ));
            },
        }
    }
}

/// What is kept from one graph to a second, and from that to a third, is kept from the first to
/// the third.
pub proof fn keeping_is_transitive(first: GraphView, second: GraphView, third: GraphView)
    requires
        first.is_kept_in(second),
        second.is_kept_in(third),
    ensures
        first.is_kept_in(third),
{
    lemma_prefixes_are_transitive(first.operands, second.operands, third.operands);
    lemma_prefixes_are_transitive(first.operations, second.operations, third.operations);
    lemma_prefixes_are_transitive(
        first.input_operands,
        second.input_operands,
        third.input_operands,
    );
}

/// A prefix of a prefix is a prefix.
proof fn lemma_prefixes_are_transitive<A>(first: Seq<A>, second: Seq<A>, third: Seq<A>)
    requires
        first.is_prefix_of(second),
        second.is_prefix_of(third),
    ensures
        first.is_prefix_of(third),
{
    assert(first =~= third.subrange(0, first.len() as int)) by {
        assert forall|i: int| 0 <= i < first.len() implies first[i] == third[i] by {
            assert(first[i] == second.subrange(0, first.len() as int)[i]);
            assert(second[i] == third.subrange(0, second.len() as int)[i]);
        }
    }
}

/// Steps only append, however many there are and of whatever operations: the graph that a builder
/// held first is kept in the one that it holds last.
pub proof fn steps_only_append(first: GraphView, states: Seq<Option<GraphView>>)
    requires
        states.len() > 0,
        states.first() == Some(first),
        forall|i: int, j: int|
            0 <= i < states.len() && j == i + 1 && j < states.len() ==> is_step(
                #[trigger] states[i],
                #[trigger] states[j],
            ),
    ensures
        states.last() matches Some(last) && first.is_kept_in(last),
    decreases states.len(),
{
    if states.len() == 1 {
        assert(first.operands.subrange(0, first.operands.len() as int) =~= first.operands);
    } else {
        let earlier = states.drop_last();
        assert forall|i: int, j: int|
            0 <= i < earlier.len() && j == i + 1 && j < earlier.len() implies is_step(
            #[trigger] earlier[i],
            #[trigger] earlier[j],
        ) by {
            assert(is_step(states[i], states[j]));
        }
        steps_only_append(first, earlier);
        let before = earlier.last();
        let after = states.last();
        assert(is_step(states[states.len() - 2], states[states.len() - 1]));
        if after != before {
            lemma_steps_keep(before->0, after->0);
            keeping_is_transitive(first, before->0, after->0);
        }
    }
}

/// A step that changes the graph keeps what was in it.
proof fn lemma_steps_keep(before: GraphView, after: GraphView)
    requires
        before.gains_input(after) || before.gains_operation(after),
    ensures
        before.is_kept_in(after),
{
}

/// A refused call changes nothing.
pub proof fn refused_calls_change_nothing(graph: Option<GraphView>, call: Call)
    requires
        answer(graph, call) is Err,
    ensures
        next(graph, call) == graph,
{
}

/// What is in a graph stays there, in its place, whatever calls follow: operands, operations and
/// inputs are only added at the end, and the outputs stay the same.
pub proof fn graphs_only_grow(graph: GraphView, calls: Seq<Call>)
    ensures
        run(Some(graph), calls) matches Some(after) && graph.is_kept_in(after),
    decreases calls.len(),
{
    if calls.len() > 0 {
        graphs_only_grow(graph, calls.drop_last());
        let before = run(Some(graph), calls.drop_last())->0;
        if before.after(calls.last()) is Some {
            calls_only_append(before, calls.last());
            keeping_is_transitive(graph, before, run(Some(graph), calls)->0);
        }
    }
}

/// The position that a call returns names the same operand for good: its kind, name and descriptor
/// stay as they were when it was added, whatever calls follow.
pub proof fn positions_stay_valid(graph: Option<GraphView>, call: Call, later: Seq<Call>)
    requires
        answer(graph, call) is Ok,
    ensures
        run(next(graph, call), later) matches Some(after) && {
            let id = answer(graph, call)->Ok_0;
            &&& after.has_operand(id)
            &&& after.operands[id] == next(graph, call)->0.operands[id]
        },
{
    let id = answer(graph, call)->Ok_0;
    let added = next(graph, call)->0;
    calls_only_append(graph->0, call);
    graphs_only_grow(added, later);
    let after = run(next(graph, call), later)->0;
    assert(added.operands[id] == after.operands.subrange(0, added.operands.len() as int)[id]);
}

/// The descriptor of a result depends on the first input and the operands alone: further inputs,
/// whether the graph has them or not, and all else in the graph have no influence.
pub proof fn only_the_first_input_gives_the_descriptor(
    inputs: Seq<MLOperand>,
    graph: GraphView,
    other_inputs: Seq<MLOperand>,
    other_graph: GraphView,
)
    requires
        inputs.len() > 0,
        other_inputs.len() > 0,
        inputs[0].id == other_inputs[0].id,
        graph.operands == other_graph.operands,
    ensures
        first_descriptor(inputs, graph.operands) == first_descriptor(
            other_inputs,
            other_graph.operands,
        ),
{
}

/// Calls return positions in increasing order, so no two of them return the same.
pub proof fn positions_are_never_reused(
    graph: Option<GraphView>,
    earlier: Call,
    between: Seq<Call>,
    later: Call,
)
    requires
        answer(graph, earlier) is Ok,
        answer(run(next(graph, earlier), between), later) is Ok,
    ensures
        answer(graph, earlier)->Ok_0 < answer(run(next(graph, earlier), between), later)->Ok_0,
{
    calls_only_append(graph->0, earlier);
    graphs_only_grow(next(graph, earlier)->0, between);
}

/// A call keeps the graph well-formed, as long as the positions fit.
pub proof fn calls_keep_graphs_well_formed(graph: GraphView, call: Call)
    requires
        graph.well_formed(),
        graph.after(call) matches Some(after) && after.fits(),
    ensures
        graph.after(call)->0.well_formed(),
{
    let after = graph.after(call)->0;
    let new = graph.operands.len() as int;
    assert(new as u32 == new);
    assert forall|i: int| 0 <= i < graph.operations.len() implies after.is_sound(
        #[trigger] graph.operations[i],
    ) by {
        assert(graph.is_sound(graph.operations[i]));
    }
    match call {
        Call::Input { name, descriptor } => {
            assert(after.operands[new].kind == OperandKind::Input);
            assert(after.input_operands[graph.input_operands.len() as int] == new);
        },
        _ => {
            let last = graph.operations.len() as int;
            assert(after.operands[new].kind == OperandKind::Output);
            assert(after.is_sound(after.operations[last]));
        },
    }
    assert forall|id: int| 0 <= id < after.operands.len() implies match (
    #[trigger] after.operands[id]).kind {
        OperandKind::Input => after.is_listed_input(id),
        OperandKind::Constant => false,
        OperandKind::Output => after.is_result(id),
    } by {
        if id < new {
            assert(after.operands[id] == graph.operands[id]);
            if graph.is_listed_input(id) {
                let i = choose|i: int|
                    0 <= i < graph.input_operands.len() && #[trigger] graph.input_operands[i] == id;
                assert(after.input_operands[i] == id);
            }
            if graph.is_result(id) {
                let i = choose|i: int|
                    0 <= i < graph.operations.len() && (
                    #[trigger] graph.operations[i]).outputs()[0] == id;
                assert(after.operations[i].outputs()[0] == id);
            }
        }
    }
}

/// A call keeps what a builder holds well-formed, whether it is refused or not.
pub proof fn calls_keep_builders_well_formed(graph: Option<GraphView>, call: Call)
    requires
        holds_well_formed(graph),
    ensures
        holds_well_formed(next(graph, call)),
{
    if graph is Some && graph->0.after(call) is Some && graph->0.after(call)->0.fits() {
        calls_only_append(graph->0, call);
        calls_keep_graphs_well_formed(graph->0, call);
    }
}

/// Every graph that a new builder can collect is well-formed, as long as the positions fit.
pub proof fn collected_graphs_are_well_formed(calls: Seq<Call>)
    ensures
        holds_well_formed(run(Some(GraphView::empty()), calls)),
    decreases calls.len(),
{
    if calls.len() > 0 {
        collected_graphs_are_well_formed(calls.drop_last());
        calls_keep_builders_well_formed(
            run(Some(GraphView::empty()), calls.drop_last()),
            calls.last(),
        );
    }
}

/// The result of an operation has the descriptor of the first operand that it reads.
pub proof fn results_take_over_the_first_descriptor(graph: GraphView, call: Call)
    requires
        graph.after(call) is Some,
    ensures
        match call {
            Call::Input { name, descriptor } => graph.after(call)->0.operands.last()
                == (OperandView { descriptor, kind: OperandKind::Input, name: Some(name) }),
            Call::Identity { input, label } => graph.after(call)->0.operands.last()
                == (OperandView {
                descriptor: graph.operands[input].descriptor,
                kind: OperandKind::Output,
                name: written_name(label),
            }),
            Call::Add { a, b, label } => graph.after(call)->0.operands.last() == (OperandView {
                descriptor: graph.operands[a].descriptor,
                kind: OperandKind::Output,
                name: written_name(label),
            }),
        },
{
}

/// A graph is built at most once: after outputs have been named, whether they were accepted or
/// not, every call and every further naming of outputs is refused for that reason.
pub proof fn a_graph_is_built_once(
    graph: Option<GraphView>,
    first: Seq<NamedOutput>,
    between: Seq<Call>,
    call: Call,
    second: Seq<NamedOutput>,
)
    requires
        first.len() > 0,
        second.len() > 0,
    ensures
        run(left_over(graph, first), between) is None,
        answer(run(left_over(graph, first), between), call) == Err::<int, _>(
            RefusalView::GraphAlreadyBuilt,
        ),
        finished(run(left_over(graph, first), between), second) == Err::<GraphView, _>(
            RefusalView::GraphAlreadyBuilt,
        ),
    decreases between.len(),
{
    if between.len() > 0 {
        a_graph_is_built_once(graph, first, between.drop_last(), call, second);
    }
}

/// Naming no outputs is refused and leaves the graph in place.
pub proof fn naming_no_outputs_changes_nothing(graph: Option<GraphView>)
    ensures
        finished(graph, Seq::empty()) == Err::<GraphView, _>(RefusalView::EmptyOutputHashMap),
        left_over(graph, Seq::empty()) == graph,
{
}

/// An input can never be an output, whatever calls come between.
pub proof fn inputs_are_no_outputs(
    graph: GraphView,
    name: Seq<char>,
    descriptor: DescriptorView,
    between: Seq<Call>,
    outputs: Seq<NamedOutput>,
    at: int,
)
    requires
        0 <= at < outputs.len(),
        outputs[at].1 == graph.operands.len(),
    ensures
        finished(
            run(next(Some(graph), Call::Input { name, descriptor }), between),
            outputs,
        ) is Err,
{
    let after = graph.with_input(name, descriptor);
    graphs_only_grow(after, between);
    let held = run(Some(after), between)->0;
    assert(after.operands[outputs[at].1] == held.operands.subrange(
        0,
        after.operands.len() as int,
    )[outputs[at].1]);
    assert(held.refusal(outputs[at]) is Some);
    outputs_are_accepted_together(held, outputs);
}

/// From a graph that a builder has collected, outputs are accepted if and only if each has a name
/// and none of them is an input.
pub proof fn results_can_be_outputs(graph: GraphView, outputs: Seq<NamedOutput>)
    requires
        graph.well_formed(),
        outputs.len() > 0,
    ensures
        finished(Some(graph), outputs) is Ok <==> forall|i: int|
            0 <= i < outputs.len() ==> (#[trigger] outputs[i]).0.len() > 0
                && !graph.is_listed_input(outputs[i].1),
{
    outputs_are_accepted_together(graph, outputs);
    assert forall|i: int| 0 <= i < outputs.len() implies (graph.refusal(
        #[trigger] outputs[i],
    ) is None <==> outputs[i].0.len() > 0 && !graph.is_listed_input(outputs[i].1)) by {
        let id = outputs[i].1;
        if graph.has_operand(id) {
            assert(match graph.operands[id].kind {
                OperandKind::Input => graph.is_listed_input(id),
                OperandKind::Constant => false,
                OperandKind::Output => graph.is_result(id),
            });
        }
    }
}

/// From a graph that a builder has collected, outputs are refused only because one of them has no
/// name or because one of them is an input, which the refusal then carries.
pub proof fn refusals_tell_the_reason(graph: GraphView, outputs: Seq<NamedOutput>)
    requires
        graph.well_formed(),
        outputs.len() > 0,
        finished(Some(graph), outputs) is Err,
    ensures
        exists|at: int|
            0 <= at < outputs.len() && match finished(Some(graph), outputs)->Err_0 {
                RefusalView::EmptyOutputHashMap => (#[trigger] outputs[at]).0.len() == 0,
                RefusalView::RequestedInputAsOutput { operand, id } => {
                    &&& outputs[at].1 == id
                    &&& graph.is_listed_input(id)
                    &&& operand == graph.operands[id]
                },
                _ => false,
            },
    decreases outputs.len(),
{
    let first = outputs.first();
    assert(first == outputs[0]);
    if graph.refusal(first) is Some {
        let id = first.1;
        if graph.has_operand(id) {
            assert(match graph.operands[id].kind {
                OperandKind::Input => graph.is_listed_input(id),
                OperandKind::Constant => false,
                OperandKind::Output => graph.is_result(id),
            });
        }
    } else {
        let rest = outputs.drop_first();
        refusals_tell_the_reason(graph, rest);
        let at = choose|at: int|
            0 <= at < rest.len() && match finished(Some(graph), rest)->Err_0 {
                RefusalView::EmptyOutputHashMap => (#[trigger] rest[at]).0.len() == 0,
                RefusalView::RequestedInputAsOutput { operand, id } => {
                    &&& rest[at].1 == id
                    &&& graph.is_listed_input(id)
                    &&& operand == graph.operands[id]
                },
                _ => false,
            };
        assert(outputs[at + 1] == rest[at]);
    }
}

/// Naming outputs touches nothing but the list of outputs and the names of the operands that they
/// stand for, in a graph that a builder has collected.
pub proof fn naming_outputs_only_names(graph: GraphView, outputs: Seq<NamedOutput>)
    requires
        graph.well_formed(),
        finished(Some(graph), outputs) is Ok,
    ensures
        finished(Some(graph), outputs)->Ok_0.input_operands == graph.input_operands,
        finished(Some(graph), outputs)->Ok_0.operations == graph.operations,
        finished(Some(graph), outputs)->Ok_0.operands.len() == graph.operands.len(),
        forall|id: int|
            0 <= id < graph.operands.len() ==> {
                let operand = #[trigger] finished(Some(graph), outputs)->Ok_0.operands[id];
                &&& operand.descriptor == graph.operands[id].descriptor
                &&& operand.kind == graph.operands[id].kind
                &&& operand.name == match last_name(outputs, id) {
                    Some(name) => Some(name),
                    None => graph.operands[id].name,
                }
            },
        finished(Some(graph), outputs)->Ok_0.output_operands =~= Seq::new(
            outputs.len(),
            |i: int| outputs[i].1 as u32,
        ),
{
    let built = finished(Some(graph), outputs)->Ok_0;
    outputs_are_accepted_together(graph, outputs);
    assert forall|id: int| 0 <= id < graph.operands.len() implies {
        let operand = #[trigger] built.operands[id];
        &&& operand.descriptor == graph.operands[id].descriptor
        &&& operand.kind == graph.operands[id].kind
        &&& operand.name == match last_name(outputs, id) {
            Some(name) => Some(name),
            None => graph.operands[id].name,
        }
    } by {
        last_output_names_its_operand(outputs, id);
        if last_name(outputs, id) is Some {
            let i = choose|i: int|
                0 <= i < outputs.len() && #[trigger] outputs[i] == (
                last_name(outputs, id)->0,
                id,
            );
            assert(graph.refusal(outputs[i]) is None);
        }
    }
}

/// Lists with the same elements, each as often, are mapped to lists with the same elements, each
/// as often.
proof fn lemma_map_keeps_permutations<A, B>(one: Seq<A>, other: Seq<A>, f: spec_fn(A) -> B)
    requires
        one.to_multiset() == other.to_multiset(),
    ensures
        one.map_values(f).to_multiset() == other.map_values(f).to_multiset(),
    decreases one.len(),
{
    broadcast use vstd::seq_lib::group_to_multiset_ensures;

    assert(one.len() == one.to_multiset().len());
    assert(other.len() == other.to_multiset().len());
    if one.len() == 0 {
        assert(one.map_values(f) =~= other.map_values(f));
    } else {
        let last = one.last();
        let at = one.len() - 1;
        assert(one.contains(last));
        assert(one.to_multiset().count(last) > 0);
        assert(other.contains(last));
        let i = choose|i: int| 0 <= i < other.len() && other[i] == last;
        let shorter = one.remove(at);
        let rest = other.remove(i);
        assert(shorter.to_multiset() == one.to_multiset().remove(last));
        assert(rest.to_multiset() == other.to_multiset().remove(last));
        lemma_map_keeps_permutations(shorter, rest, f);
        assert(one.map_values(f).remove(at) =~= shorter.map_values(f));
        assert(other.map_values(f).remove(i) =~= rest.map_values(f));
        let image = f(last);
        assert(one.map_values(f).contains(one.map_values(f)[at]));
        assert(other.map_values(f).contains(other.map_values(f)[i]));
        assert(one.map_values(f).to_multiset() =~= shorter.map_values(f).to_multiset().insert(
            image,
        ));
        assert(other.map_values(f).to_multiset() =~= rest.map_values(f).to_multiset().insert(
            image,
        ));
    }
}

/// Two walks of one map meet the same entries, each as often.
proof fn lemma_walks_are_permutations(
    map: Map<&str, MLOperand>,
    one: Seq<NamedOutput>,
    other: Seq<NamedOutput>,
)
    requires
        is_walk(map, one),
        is_walk(map, other),
    ensures
        forall|output: NamedOutput| #[trigger] one.contains(output) <==> other.contains(output),
        one.to_multiset() == other.to_multiset(),
{
    broadcast use vstd::seq_lib::group_to_multiset_ensures;

    assert forall|output: NamedOutput| #[trigger] one.contains(output) <==> other.contains(
        output,
    ) by {
        if one.contains(output) {
            let i = choose|i: int| 0 <= i < one.len() && one[i] == output;
            assert(is_entry(map, one[i]));
        }
        if other.contains(output) {
            let i = choose|i: int| 0 <= i < other.len() && other[i] == output;
            assert(is_entry(map, other[i]));
        }
    }
    assert(one.no_duplicates());
    assert(other.no_duplicates());
    one.lemma_multiset_has_no_duplicates();
    other.lemma_multiset_has_no_duplicates();
    assert forall|output: NamedOutput| #[trigger] one.to_multiset().count(output)
        == other.to_multiset().count(output) by {
        assert(one.contains(output) <==> one.to_multiset().count(output) > 0);
        assert(other.contains(output) <==> other.to_multiset().count(output) > 0);
        assert(one.to_multiset().contains(output) ==> one.to_multiset().count(output) == 1);
        assert(other.to_multiset().contains(output) ==> other.to_multiset().count(output) == 1);
    }
    assert(one.to_multiset() =~= other.to_multiset());
}

/// An operand that one output at most stands for gets its name from any list of the same outputs.
proof fn lemma_lone_name(one: Seq<NamedOutput>, other: Seq<NamedOutput>, id: int)
    requires
        forall|output: NamedOutput| #[trigger] one.contains(output) <==> other.contains(output),
        forall|i: int, j: int|
            0 <= i < j < one.len() ==> (#[trigger] one[i]).1 != (#[trigger] one[j]).1,
    ensures
        last_name(one, id) == last_name(other, id),
{
    last_output_names_its_operand(one, id);
    last_output_names_its_operand(other, id);
    if last_name(one, id) is Some {
        let name = last_name(one, id)->0;
        let i = choose|i: int| 0 <= i < one.len() && #[trigger] one[i] == (name, id);
        assert(one.contains(one[i]));
        assert(other.contains(one[i]));
    }
    if last_name(other, id) is Some {
        let name = last_name(other, id)->0;
        let j = choose|j: int| 0 <= j < other.len() && #[trigger] other[j] == (name, id);
        assert(one.contains(other[j]));
    }
}

/// The order in which a map of outputs is walked decides neither whether the outputs are accepted,
/// nor what the builder is left with, nor which positions are listed as outputs. As long as no two
/// names stand for one operand, it does not decide the operands either.
pub proof fn the_order_of_a_walk_decides_little(
    graph: Option<GraphView>,
    map: Map<&str, MLOperand>,
    one: Seq<NamedOutput>,
    other: Seq<NamedOutput>,
)
    requires
        is_walk(map, one),
        is_walk(map, other),
    ensures
        finished(graph, one) is Ok <==> finished(graph, other) is Ok,
        left_over(graph, one) == left_over(graph, other),
        finished(graph, one) is Ok ==> {
            let first = finished(graph, one)->Ok_0;
            let second = finished(graph, other)->Ok_0;
            &&& first.output_operands.to_multiset() == second.output_operands.to_multiset()
            &&& first.input_operands == second.input_operands
            &&& first.operations == second.operations
            &&& (forall|i: int, j: int|
                0 <= i < j < one.len() ==> (#[trigger] one[i]).1 != (#[trigger] one[j]).1)
                ==> first.operands == second.operands
        },
{
    lemma_walks_are_permutations(map, one, other);
    if graph is Some && one.len() > 0 {
        let held = graph->0;
        outputs_are_accepted_together(held, one);
        outputs_are_accepted_together(held, other);
        assert forall|i: int| 0 <= i < one.len() && held.first_refusal(other) is None implies
            held.refusal(#[trigger] one[i]) is None by {
            assert(one.contains(one[i]));
            let j = choose|j: int| 0 <= j < other.len() && other[j] == one[i];
            assert(held.refusal(other[j]) is None);
        }
        assert forall|i: int| 0 <= i < other.len() && held.first_refusal(one) is None implies
            held.refusal(#[trigger] other[i]) is None by {
            assert(other.contains(other[i]));
            let j = choose|j: int| 0 <= j < one.len() && one[j] == other[i];
            assert(held.refusal(one[j]) is None);
        }
        let listed = |output: NamedOutput| output.1 as u32;
        lemma_map_keeps_permutations(one, other, listed);
        vstd::seq_lib::lemma_multiset_commutative(held.output_operands, one.map_values(listed));
        vstd::seq_lib::lemma_multiset_commutative(held.output_operands, other.map_values(listed));
        if forall|i: int, j: int|
            0 <= i < j < one.len() ==> (#[trigger] one[i]).1 != (#[trigger] one[j]).1 {
            assert forall|id: int| #![trigger last_name(one, id)] last_name(one, id) == last_name(
                other,
                id,
            ) by {
                lemma_lone_name(one, other, id);
            }
            assert(held.with_outputs(one).operands =~= held.with_outputs(other).operands);
        }
    }
}

} // verus!
