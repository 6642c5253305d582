//! Naming the outputs of a graph.
use crate::error::GraphBuilderError;
use crate::graph::{GraphInfo, OperandKind};
use crate::laws::{
    first_refused_output_decides, last_output_names_its_operand, outputs_are_accepted_together,
};
use crate::mlcontext::MLOperand;
use crate::model::{is_entry, is_walk, named_last, outputs_view, NamedOutput};
use std::collections::hash_map::Iter;
use std::collections::HashMap;
use vstd::prelude::*;
use vstd::std_specs::iter::IteratorSpec;

verus! {

/// Walks the entries of `outputs`, by `HashMap::iter`.
///
/// Claimed of it: the walk is at its start and ends, as a `for` loop asks; it meets each entry of
/// the map once and nothing else; and no two of the keys it meets are equal as strings. In which
/// order it meets them is left open. The general contract of `HashMap::iter` promises nothing of a
/// map whose keys are strings, which is why it is stated for them here.
#[verifier::external_body]
fn entries<'a, 'b>(outputs: &'a HashMap<&'b str, MLOperand>) -> (walk: Iter<
    'a,
    &'b str,
    MLOperand,
>)
    ensures
        walk.decrease() is Some,
        walk.initial_value_relation(&walk),
        walk.remaining().len() == outputs@.len(),
        forall|i: int|
            0 <= i < walk.remaining().len() ==> outputs@.contains_key(
                *(#[trigger] walk.remaining()[i]).0,
            ) && outputs@[*walk.remaining()[i].0] == *walk.remaining()[i].1,
        forall|key: &'b str| #[trigger]
            outputs@.contains_key(key) ==> walk.remaining().contains((&key, &outputs@[key])),
        forall|i: int, j: int|
            0 <= i < j < walk.remaining().len() ==> (#[trigger] walk.remaining()[i]).0@ != (
            #[trigger] walk.remaining()[j]).0@,
{
    outputs.iter()
}

/// Lists the entries of `outputs`, in whatever order the map is walked.
pub fn list_entries<'b>(outputs: &HashMap<&'b str, MLOperand>) -> (listed: Vec<
    (&'b str, MLOperand),
>)
    ensures
        is_walk(outputs@, outputs_view(listed@)),
{
    let mut listed: Vec<(&'b str, MLOperand)> = Vec::new();
    let iter = entries(outputs);
    let ghost start = iter;
    for entry in walk: iter
        invariant
            walk.seq() == start.remaining(),
            listed@.len() == walk.index(),
            forall|i: int|
                0 <= i < listed@.len() ==> #[trigger] listed@[i] == (
                    *start.remaining()[i].0,
                    *start.remaining()[i].1,
                ),
    {
        listed.push((*entry.0, *entry.1));
    }
    proof {
        let met = outputs_view(listed@);
        assert forall|i: int| 0 <= i < met.len() implies is_entry(
            outputs@,
            #[trigger] met[i],
        ) by {
            assert(met[i] == (listed@[i].0@, listed@[i].1.id as int));
            assert(outputs@.contains_key(*start.remaining()[i].0));
        }
        assert forall|output: NamedOutput| #[trigger] is_entry(
            outputs@,
            output,
        ) implies met.contains(output) by {
            let key = choose|key: &str| #[trigger]
                outputs@.contains_key(key) && output == (key@, outputs@[key].id as int);
            let i = choose|i: int|
                0 <= i < start.remaining().len() && start.remaining()[i] == (&key, &outputs@[key]);
            assert(listed@[i] == (key, outputs@[key]));
            assert(met[i] == output);
        }
        assert forall|i: int, j: int| 0 <= i < j < met.len() implies (#[trigger] met[i]).0 != (
        #[trigger] met[j]).0 by {
            assert(met[i].0 == listed@[i].0@);
            assert(met[j].0 == listed@[j].0@);
        }
    }
    listed
}

impl GraphInfo {
    /// Makes `outputs` the outputs of the graph, in the order given, and their names the names of
    /// the operands. The first output that has no name, or is an input or a constant, is refused.
    pub fn with_outputs(self, outputs: &[(&str, MLOperand)]) -> (named: Result<
        GraphInfo,
        GraphBuilderError,
    >)
        ensures
            match self@.first_refusal(outputs_view(outputs@)) {
                Some(refusal) => named matches Err(error) && error@ == refusal,
                None => named matches Ok(graph) && graph@ == self@.with_outputs(
                    outputs_view(outputs@),
                ),
            },
    {
        let mut graph = self;
        let ghost taken = self@;
        let ghost named = outputs_view(outputs@);
        assert(graph@ =~= taken.with_outputs(named.take(0)));
        let mut at: usize = 0;
        while at < outputs.len()
            invariant
                at <= outputs@.len(),
                taken == self@,
                named == outputs_view(outputs@),
                graph@ == taken.with_outputs(named.take(at as int)),
                forall|i: int| 0 <= i < at ==> taken.refusal(#[trigger] named[i]) is None,
            decreases outputs@.len() - at,
        {
            let (name, operand) = outputs[at];
            let id: usize = operand.id;
            let ghost earlier = named.take(at as int);
            let ghost before = graph@;
            proof {
                assert(named[at as int] == (name@, id as int));
                assert(named.take(at + 1).drop_last() =~= earlier);
                last_output_names_its_operand(earlier, id as int);
                assert forall|i: int| 0 <= i < earlier.len() implies taken.refusal(
                    #[trigger] earlier[i],
                ) is None by {
                    assert(earlier[i] == named[i]);
                }
                if taken.refusal(named[at as int]) is Some {
                    first_refused_output_decides(taken, named, at as int);
                }
                if graph@.has_operand(id as int) {
                    let held = taken.operands[id as int];
                    assert(graph.operands@[id as int]@ == graph@.operands[id as int]);
                    assert(graph@.operands[id as int] == named_last(held, id as int, earlier));
                }
            }
            if name.is_empty() {
                return Err(GraphBuilderError::EmptyOutputHashMap);
            }
            if id < graph.operands.len() {
                if graph.operands[id].kind == OperandKind::Input {
                    return Err(
                        GraphBuilderError::RequestedInputAsOutput {
                            operand: graph.operands[id].clone(),
                            id,
                        },
                    );
                } else if graph.operands[id].kind == OperandKind::Constant {
                    return Err(
                        GraphBuilderError::RequestedConstantAsOutput {
                            operand: graph.operands[id].clone(),
                            id,
                        },
                    );
                }
                graph.operands[id].kind = OperandKind::Output;
                graph.operands[id].name = Some(name.to_string());
            }
            graph.output_operands.push(id as u32);
            at = at + 1;
            proof {
                let expected = taken.with_outputs(named.take(at as int));
                assert forall|i: int| 0 <= i < taken.operands.len() implies graph@.operands[i]
                    == #[trigger] expected.operands[i] by {
                    assert(before.operands[i] == named_last(taken.operands[i], i, earlier));
                }
                assert(graph@.operands =~= expected.operands);
                assert(graph@.output_operands =~= expected.output_operands);
            }
        }
        proof {
            outputs_are_accepted_together(taken, named);
        }
        assert(named.take(at as int) =~= named);
        Ok(graph)
    }
}

} // verus!
