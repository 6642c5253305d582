//! The graph builder.
use crate::error::{Error, GraphBuilderError, RefusalView};
use crate::graph::{GraphInfo, Operand, OperandDescriptor, OperandKind, Operation};
use crate::laws::{calls_are_steps, calls_keep_builders_well_formed};
use crate::mlcontext::{MLBackend, MLBackendBuilder, MLContext, MLOperand, MLOperandDescriptor};
use crate::model::{
    answer, finished, first_descriptor, holds_well_formed, is_step, is_walk, left_over, next,
    outputs_view, BuilderView, Call, NamedOutput,
};
use crate::operator_options::MLOperatorOptions;
use crate::outputs::list_entries;
use std::collections::HashMap;
use vstd::prelude::*;

verus! {

/// Collects a graph, one operand at a time, and has the backend build it.
#[derive(Debug)]
pub struct MLGraphBuilder<B: MLBackendBuilder> {
    backend: B,
    graph: Option<GraphInfo>,
}

impl<B: MLBackendBuilder> View for MLGraphBuilder<B> {
    type V = BuilderView<B>;

    closed spec fn view(&self) -> BuilderView<B> {
        BuilderView {
            backend: self.backend,
            graph: match self.graph {
                Some(graph) => Some(graph@),
                None => None,
            },
        }
    }
}

/// The descriptor of the first input, which the result of an operation takes over. Further inputs
/// are not looked at.
pub fn same_shape(inputs: &[MLOperand], graph: &GraphInfo) -> (inferred: Result<
    OperandDescriptor,
    GraphBuilderError,
>)
    requires
        inputs@.len() > 0,
    ensures
        match first_descriptor(inputs@, graph@.operands) {
            Ok(expected) => inferred matches Ok(descriptor) && descriptor@ == expected,
            Err(refusal) => inferred matches Err(error) && error@ == refusal,
        },
{
    let id: usize = inputs[0].id;
    if id < graph.operands.len() {
        Ok(graph.operands[id].descriptor.clone())
    } else {
        Err(GraphBuilderError::InvalidOperand)
    }
}

impl<B: MLBackendBuilder> MLGraphBuilder<B> {
    /// Makes a builder with an empty graph on the backend of `context`.
    pub fn new<K: MLBackend<Builder = B>>(context: &mut MLContext<K>) -> (made: Result<Self, Error>)
        ensures
            exists|backend: &mut K, created: Result<B, Error>|
                {
                    &&& *backend == old(context).backend
                    &&& *final(backend) == final(context).backend
                    &&& #[trigger] call_ensures(K::create_builder, (backend,), created)
                    &&& match created {
                        Ok(fresh) => made matches Ok(builder) && builder@
                            == BuilderView::started(fresh) && holds_well_formed(builder@.graph),
                        Err(error) => made == Err::<Self, _>(error),
                    }
                },
    {
        let created = context.backend.create_builder();
        Self::from_created(created)
    }

    /// Makes a builder with an empty graph on a backend that has just been created, or passes on
    /// why it could not be.
    pub fn from_created(created: Result<B, Error>) -> (made: Result<Self, Error>)
        ensures
            match created {
                Ok(backend) => made matches Ok(builder) && builder@ == BuilderView::started(
                    backend,
                ) && holds_well_formed(builder@.graph),
                Err(error) => made == Err::<Self, _>(error),
            },
    {
        match created {
            Err(error) => Err(error),
            Ok(backend) => Ok(MLGraphBuilder { backend, graph: Some(GraphInfo::default()) }),
        }
    }

    /// The graph collected so far; `None` once a build has taken it.
    pub fn graph(&self) -> (graph: Option<&GraphInfo>)
        ensures
            match graph {
                Some(graph) => self@.graph == Some(graph@),
                None => self@.graph is None,
            },
    {
        self.graph.as_ref()
    }

    /// Has the backend build `graph`. The graph of this builder plays no part in it.
    pub fn build_graph_info(&mut self, graph: GraphInfo) -> (built: Result<B::Graph, Error>)
        ensures
            exists|backend: &mut B|
                {
                    &&& *backend == old(self)@.backend
                    &&& *final(backend) == final(self)@.backend
                    &&& #[trigger] call_ensures(B::build, (backend, graph), built)
                },
            final(self)@.graph == old(self)@.graph,
            holds_well_formed(old(self)@.graph) ==> holds_well_formed(final(self)@.graph),
    {
        self.backend.build(graph)
    }

    /// Names the outputs of the graph, in the order in which the map is walked, and has the
    /// backend build it. The backend is not called when an output is refused.
    pub fn build(&mut self, outputs: &HashMap<&str, MLOperand>) -> (built: Result<B::Graph, Error>)
        ensures
            exists|walk: Seq<NamedOutput>| #[trigger]
                is_walk(outputs@, walk) && final(self)@.graph == left_over(
                    old(self)@.graph,
                    walk,
                ) && match finished(old(self)@.graph, walk) {
                    Err(refusal) => {
                        &&& built matches Err(error) && error.is_refusal(refusal)
                        &&& final(self)@.backend == old(self)@.backend
                    },
                    Ok(expected) => exists|backend: &mut B, graph: GraphInfo|
                        {
                            &&& *backend == old(self)@.backend
                            &&& *final(backend) == final(self)@.backend
                            &&& graph@ == expected
                            &&& #[trigger] call_ensures(B::build, (backend, graph), built)
                        },
                },
            holds_well_formed(old(self)@.graph) ==> holds_well_formed(final(self)@.graph),
    {
        let listed = list_entries(outputs);
        self.build_listed(listed.as_slice())
    }

    /// Names the outputs of the graph, in the order given, and has the backend build it. The
    /// backend is not called when an output is refused.
    pub fn build_listed(&mut self, outputs: &[(&str, MLOperand)]) -> (built: Result<
        B::Graph,
        Error,
    >)
        ensures
            final(self)@.graph == left_over(old(self)@.graph, outputs_view(outputs@)),
            match finished(old(self)@.graph, outputs_view(outputs@)) {
                Err(refusal) => {
                    &&& built matches Err(error) && error.is_refusal(refusal)
                    &&& final(self)@.backend == old(self)@.backend
                },
                Ok(expected) => exists|backend: &mut B, graph: GraphInfo|
                    {
                        &&& *backend == old(self)@.backend
                        &&& *final(backend) == final(self)@.backend
                        &&& graph@ == expected
                        &&& #[trigger] call_ensures(B::build, (backend, graph), built)
                    },
            },
            holds_well_formed(old(self)@.graph) ==> holds_well_formed(final(self)@.graph),
    {
        match self.finish(outputs) {
            Err(error) => Err(Error::from(error)),
            Ok(graph) => self.backend.build(graph),
        }
    }

    /// Adds an input. Neither the name nor the descriptor is checked.
    pub fn input(&mut self, name: &str, descriptor: &MLOperandDescriptor) -> (added: Result<
        MLOperand,
        Error,
    >)
        ensures
            match answer(
                old(self)@.graph,
                Call::Input { name: name@, descriptor: descriptor@ },
            ) {
                Ok(id) => added matches Ok(operand) && operand.id == id,
                Err(refusal) => added matches Err(error) && error.is_refusal(refusal),
            },
            final(self)@ == (BuilderView {
                graph: next(
                    old(self)@.graph,
                    Call::Input { name: name@, descriptor: descriptor@ },
                ),
                ..old(self)@
            }),
            is_step(old(self)@.graph, final(self)@.graph),
            holds_well_formed(old(self)@.graph) ==> holds_well_formed(final(self)@.graph),
    {
        proof {
            let call = Call::Input { name: name@, descriptor: descriptor@ };
            calls_are_steps(self@.graph, call);
            if holds_well_formed(self@.graph) {
                calls_keep_builders_well_formed(self@.graph, call);
            }
        }
        let operand = Operand {
            descriptor: OperandDescriptor::from_ml(descriptor),
            kind: OperandKind::Input,
            name: Some(name.to_string()),
        };
        match self.graph.as_mut() {
            None => Err(Error::from(GraphBuilderError::GraphAlreadyBuilt)),
            Some(graph) => {
                let ghost before = graph@;
                let id: usize = graph.operands.len();
                graph.operands.push(operand);
                graph.input_operands.push(id as u32);
                assert(graph@ =~= before.with_input(name@, descriptor@));
                Ok(MLOperand { id })
            },
        }
    }

    /// Adds an operation with one result, at the end of the operands, under the descriptor that
    /// `shape_inference` gives.
    fn add_single_output_operation<
        F: Fn(&[MLOperand], &GraphInfo) -> Result<OperandDescriptor, GraphBuilderError>,
    >(&mut self, inputs: &[MLOperand], operation: Operation, shape_inference: F) -> (added: Result<
        MLOperand,
        GraphBuilderError,
    >)
        requires
            forall|graph: &GraphInfo| #[trigger]
                call_requires(shape_inference, (inputs, graph)),
        ensures
            is_step(old(self)@.graph, final(self)@.graph),
            match old(self)@.graph {
                None => added matches Err(error) && error@ == RefusalView::GraphAlreadyBuilt
                    && final(self)@ == old(self)@,
                Some(before) => exists|
                    graph: &GraphInfo,
                    inferred: Result<OperandDescriptor, GraphBuilderError>,
                |
                    {
                        &&& #[trigger] call_ensures(shape_inference, (inputs, graph), inferred)
                        &&& graph@ == before
                        &&& match inferred {
                            Err(error) => {
                                &&& added == Err::<MLOperand, _>(error)
                                &&& final(self)@ == old(self)@
                            },
                            Ok(descriptor) => {
                                &&& added matches Ok(operand) && operand.id
                                    == before.operands.len()
                                &&& final(self)@ == (BuilderView {
                                    graph: Some(
                                        before.with_operation(descriptor@, operation@),
                                    ),
                                    ..old(self)@
                                })
                            },
                        }
                    },
            },
    {
        match self.graph.as_mut() {
            None => Err(GraphBuilderError::GraphAlreadyBuilt),
            Some(graph) => {
                let ghost before = graph@;
                let output_id: usize = graph.operands.len();
                let descriptor = match shape_inference(inputs, &*graph) {
                    Err(error) => {
                        return Err(error);
                    },
                    Ok(descriptor) => descriptor,
                };
                let name = if operation.label().is_empty() {
                    Some(operation.label().to_string())
                } else {
                    None
                };
                let ghost expected = before.with_operation(descriptor@, operation@);
                graph.operands.push(Operand { kind: OperandKind::Output, descriptor, name });
                graph.operations.push(operation);
                assert(graph@ =~= expected);
                Ok(MLOperand { id: output_id })
            },
        }
    }

    /// Adds an identity with the default options, that is, without a label.
    pub fn identity(&mut self, operand: MLOperand) -> (added: Result<MLOperand, GraphBuilderError>)
        ensures
            match answer(
                old(self)@.graph,
                Call::Identity { input: operand.id as int, label: Seq::empty() },
            ) {
                Ok(id) => added matches Ok(operand) && operand.id == id,
                Err(refusal) => added matches Err(error) && error@ == refusal,
            },
            final(self)@ == (BuilderView {
                graph: next(
                    old(self)@.graph,
                    Call::Identity { input: operand.id as int, label: Seq::empty() },
                ),
                ..old(self)@
            }),
            is_step(old(self)@.graph, final(self)@.graph),
            holds_well_formed(old(self)@.graph) ==> holds_well_formed(final(self)@.graph),
    {
        self.identity_with_options(operand, MLOperatorOptions::default())
    }

    /// Adds an operation whose result is `input`, unchanged.
    pub fn identity_with_options(
        &mut self,
        input: MLOperand,
        options: MLOperatorOptions,
    ) -> (added: Result<MLOperand, GraphBuilderError>)
        ensures
            match answer(
                old(self)@.graph,
                Call::Identity { input: input.id as int, label: options@ },
            ) {
                Ok(id) => added matches Ok(operand) && operand.id == id,
                Err(refusal) => added matches Err(error) && error@ == refusal,
            },
            final(self)@ == (BuilderView {
                graph: next(
                    old(self)@.graph,
                    Call::Identity { input: input.id as int, label: options@ },
                ),
                ..old(self)@
            }),
            is_step(old(self)@.graph, final(self)@.graph),
            holds_well_formed(old(self)@.graph) ==> holds_well_formed(final(self)@.graph),
    {
        proof {
            let call = Call::Identity { input: input.id as int, label: options@ };
            calls_are_steps(self@.graph, call);
            if holds_well_formed(self@.graph) {
                calls_keep_builders_well_formed(self@.graph, call);
            }
        }
        let output_id: usize = match self.graph.as_ref() {
            None => {
                return Err(GraphBuilderError::GraphAlreadyBuilt);
            },
            Some(graph) => graph.operands.len(),
        };
        let ghost expected = self@.graph->0.identity_operation(input.id as int, options@);
        let operation = Operation::Identity {
            input: input.id as u32,
            options: Some(options),
            outputs: vec![output_id as u32],
        };
        assert(operation@ =~= expected);
        match self.add_single_output_operation(&[input], operation, same_shape) {
            Err(error) => Err(error),
            Ok(_) => Ok(MLOperand { id: output_id }),
        }
    }

    /// Adds a sum with the default options, that is, without a label.
    pub fn add(&mut self, a: MLOperand, b: MLOperand) -> (added: Result<
        MLOperand,
        GraphBuilderError,
    >)
        ensures
            match answer(
                old(self)@.graph,
                Call::Add { a: a.id as int, b: b.id as int, label: Seq::empty() },
            ) {
                Ok(id) => added matches Ok(operand) && operand.id == id,
                Err(refusal) => added matches Err(error) && error@ == refusal,
            },
            final(self)@ == (BuilderView {
                graph: next(
                    old(self)@.graph,
                    Call::Add { a: a.id as int, b: b.id as int, label: Seq::empty() },
                ),
                ..old(self)@
            }),
            is_step(old(self)@.graph, final(self)@.graph),
            holds_well_formed(old(self)@.graph) ==> holds_well_formed(final(self)@.graph),
    {
        self.add_with_options(a, b, MLOperatorOptions::default())
    }

    /// Adds an operation whose result is the sum of `a` and `b`. The result has the descriptor of
    /// `a`; `b` is not looked up.
    pub fn add_with_options(
        &mut self,
        a: MLOperand,
        b: MLOperand,
        options: MLOperatorOptions,
    ) -> (added: Result<MLOperand, GraphBuilderError>)
        ensures
            match answer(
                old(self)@.graph,
                Call::Add { a: a.id as int, b: b.id as int, label: options@ },
            ) {
                Ok(id) => added matches Ok(operand) && operand.id == id,
                Err(refusal) => added matches Err(error) && error@ == refusal,
            },
            final(self)@ == (BuilderView {
                graph: next(
                    old(self)@.graph,
                    Call::Add { a: a.id as int, b: b.id as int, label: options@ },
                ),
                ..old(self)@
            }),
            is_step(old(self)@.graph, final(self)@.graph),
            holds_well_formed(old(self)@.graph) ==> holds_well_formed(final(self)@.graph),
    {
        proof {
            let call = Call::Add { a: a.id as int, b: b.id as int, label: options@ };
            calls_are_steps(self@.graph, call);
            if holds_well_formed(self@.graph) {
                calls_keep_builders_well_formed(self@.graph, call);
            }
        }
        let output_id: usize = match self.graph.as_ref() {
            None => {
                return Err(GraphBuilderError::GraphAlreadyBuilt);
            },
            Some(graph) => graph.operands.len(),
        };
        let ghost expected = self@.graph->0.add_operation(a.id as int, b.id as int, options@);
        let operation = Operation::Add {
            a: a.id as u32,
            b: b.id as u32,
            options: Some(options),
            outputs: vec![output_id as u32],
        };
        assert(operation@ =~= expected);
        match self.add_single_output_operation(&[a, b], operation, same_shape) {
            Err(error) => Err(error),
            Ok(_) => Ok(MLOperand { id: output_id }),
        }
    }

    /// Takes the graph and names its outputs, in the order given. The graph is gone from then on,
    /// also when an output is refused; only an empty list leaves it in place.
    pub fn finish(&mut self, outputs: &[(&str, MLOperand)]) -> (graph: Result<
        GraphInfo,
        GraphBuilderError,
    >)
        ensures
            match finished(old(self)@.graph, outputs_view(outputs@)) {
                Ok(expected) => graph matches Ok(graph) && graph@ == expected,
                Err(refusal) => graph matches Err(error) && error@ == refusal,
            },
            final(self)@ == (BuilderView {
                graph: left_over(old(self)@.graph, outputs_view(outputs@)),
                ..old(self)@
            }),
            holds_well_formed(old(self)@.graph) ==> holds_well_formed(final(self)@.graph),
    {
        if outputs.len() == 0 {
            return Err(GraphBuilderError::EmptyOutputHashMap);
        }
        match self.graph.take() {
            None => Err(GraphBuilderError::GraphAlreadyBuilt),
            Some(graph) => graph.with_outputs(outputs),
        }
    }
}

} // verus!
