use rustnn::error::{Error, GraphBuilderError};
use rustnn::mlcontext::{
    MLBackend, MLBackendBuilder, MLContext, MLOperand, MLOperandDescriptor,
};
use rustnn::mlgraphbuilder::{same_shape, MLGraphBuilder};
use rustnn::operator_enums::MLOperandDataType;
use rustnn::operator_options::MLOperatorOptions;
use rustnn::outputs::list_entries;
use rustnn::{GraphInfo, Operand, OperandDescriptor, OperandKind, Operation};
use std::collections::HashMap;

/// Hands the graph back as it came, unless it has been told to fail.
#[derive(Debug)]
struct EchoBuilder {
    fails: bool,
    builds: usize,
}

impl MLBackendBuilder for EchoBuilder {
    type Graph = (usize, GraphInfo);

    fn build(&mut self, graph: GraphInfo) -> Result<(usize, GraphInfo), Error> {
        if self.fails {
            return Err(Error::BackendError { message: "out of memory".to_string() });
        }
        self.builds += 1;
        Ok((self.builds, graph))
    }
}

#[derive(Debug)]
struct EchoBackend {
    fails: bool,
    available: bool,
    builders: usize,
}

impl MLBackend for EchoBackend {
    type Builder = EchoBuilder;

    fn create_builder(&mut self) -> Result<EchoBuilder, Error> {
        if !self.available {
            return Err(Error::NoBackendAvialable);
        }
        self.builders += 1;
        Ok(EchoBuilder { fails: self.fails, builds: 0 })
    }
}

fn context() -> MLContext<EchoBackend> {
    MLContext { backend: EchoBackend { fails: false, available: true, builders: 0 } }
}

fn builder() -> MLGraphBuilder<EchoBuilder> {
    MLGraphBuilder::new(&mut context()).unwrap()
}

fn descriptor() -> MLOperandDescriptor {
    MLOperandDescriptor::new(MLOperandDataType::Float32, [2, 2].to_vec())
}

fn kept(shape: &[u32]) -> OperandDescriptor {
    OperandDescriptor { data_type: MLOperandDataType::Float32, shape: shape.to_vec() }
}

fn labelled(label: &str) -> MLOperatorOptions {
    MLOperatorOptions { label: label.to_string() }
}

fn refusal(error: Error) -> GraphBuilderError {
    match error {
        Error::GraphBuilderError { source } => source,
        other => panic!("not a refusal: {other:?}"),
    }
}

#[test]
fn add_inputs() {
    let mut context = context();
    let desc = MLOperandDescriptor::new(MLOperandDataType::Float32, [2, 2].to_vec());

    let mut builder = MLGraphBuilder::new(&mut context).unwrap();

    let a = builder.input("a", &desc).unwrap();
    let b = builder.input("b", &desc).unwrap();
    assert_eq!(builder.graph().unwrap().operands.len(), 2);

    let mut outputs = HashMap::new();
    outputs.insert("out1", a);
    outputs.insert("out2", b);
    let error = builder.build(&outputs).unwrap_err();
    assert!(matches!(error, Error::GraphBuilderError { .. }));
    let error_message = error.message();
    assert!(error_message.contains("requested an MLOperand with id "));
    assert!(error_message.contains(" as an output that is already an input"));

    let mut builder = MLGraphBuilder::new(&mut context).unwrap();
    let a = builder.input("a", &desc).unwrap();
    let b = builder.input("b", &desc).unwrap();
    assert_eq!(builder.graph().unwrap().operands.len(), 2);
    let out1 = builder.identity(a).unwrap();
    let out2 = builder.add(a, b).unwrap();
    let mut outputs = HashMap::new();
    outputs.insert("out1", out1);
    outputs.insert("out2", out2);
    builder.build(&outputs).unwrap();
}

#[test]
fn a_new_builder_has_an_empty_graph() {
    let mut context = context();
    let builder = MLGraphBuilder::new(&mut context).unwrap();
    assert_eq!(builder.graph(), Some(&GraphInfo::default()));
    assert_eq!(context.backend.builders, 1);
}

#[test]
fn no_builder_without_a_backend() {
    let mut context =
        MLContext { backend: EchoBackend { fails: false, available: false, builders: 0 } };
    let error = MLGraphBuilder::new(&mut context).unwrap_err();
    assert_eq!(error, Error::NoBackendAvialable);
    assert_eq!(error.message(), "no backend is available");
    let created: Result<EchoBuilder, Error> = Err(Error::NoBackendAvialable);
    assert_eq!(MLGraphBuilder::from_created(created).unwrap_err(), Error::NoBackendAvialable);
}

#[test]
fn inputs_are_listed_in_order() {
    let mut builder = builder();
    let a = builder.input("a", &descriptor()).unwrap();
    let same = builder.input("a", &descriptor()).unwrap();
    let unnamed = builder.input(
        "",
        &MLOperandDescriptor::new(MLOperandDataType::Int8, vec![]),
    ).unwrap();
    assert_eq!((a.id, same.id, unnamed.id), (0, 1, 2));
    let graph = builder.graph().unwrap();
    assert_eq!(graph.input_operands, [0, 1, 2]);
    assert_eq!(
        graph.operands[0],
        Operand {
            descriptor: kept(&[2, 2]),
            kind: OperandKind::Input,
            name: Some("a".to_string()),
        }
    );
    assert_eq!(graph.operands[2].name, Some(String::new()));
    assert_eq!(graph.operands[2].descriptor.data_type, MLOperandDataType::Int8);
    assert!(graph.operations.is_empty());
    assert!(graph.output_operands.is_empty());
}

#[test]
fn an_unlabelled_operation_gives_an_empty_name() {
    let mut builder = builder();
    let a = builder.input("a", &descriptor()).unwrap();
    let result = builder.identity(a).unwrap();
    assert_eq!(result.id, 1);
    let graph = builder.graph().unwrap();
    assert_eq!(
        graph.operands[1],
        Operand {
            descriptor: kept(&[2, 2]),
            kind: OperandKind::Output,
            name: Some(String::new()),
        }
    );
    assert_eq!(
        graph.operations[0],
        Operation::Identity { input: 0, options: Some(labelled("")), outputs: vec![1] }
    );
    assert_eq!(graph.operations[0].label(), "");
}

#[test]
fn a_labelled_operation_gives_no_name() {
    let mut builder = builder();
    let a = builder.input("a", &descriptor()).unwrap();
    let b = builder.input("b", &descriptor()).unwrap();
    let copy = builder.identity_with_options(b, labelled("copy")).unwrap();
    let sum = builder.add_with_options(copy, a, labelled("sum")).unwrap();
    assert_eq!((copy.id, sum.id), (2, 3));
    let graph = builder.graph().unwrap();
    assert_eq!(graph.operands[2].name, None);
    assert_eq!(graph.operands[3].name, None);
    assert_eq!(
        graph.operations,
        [
            Operation::Identity { input: 1, options: Some(labelled("copy")), outputs: vec![2] },
            Operation::Add { a: 2, b: 0, options: Some(labelled("sum")), outputs: vec![3] },
        ]
    );
    assert_eq!(graph.operations[1].label(), "sum");
}

#[test]
fn an_operation_without_options_has_no_label() {
    let operation = Operation::Add { a: 0, b: 1, options: None, outputs: vec![2] };
    assert_eq!(operation.label(), "");
}

#[test]
fn a_sum_takes_the_shape_of_its_first_operand() {
    let mut builder = builder();
    let a = builder.input("a", &descriptor()).unwrap();
    let wide = builder.input(
        "wide",
        &MLOperandDescriptor::new(MLOperandDataType::Float32, vec![5, 7, 1]),
    ).unwrap();
    let first = builder.add(a, wide).unwrap();
    let second = builder.add(wide, a).unwrap();
    let graph = builder.graph().unwrap();
    assert_eq!(graph.operands[first.id].descriptor, kept(&[2, 2]));
    assert_eq!(graph.operands[second.id].descriptor, kept(&[5, 7, 1]));
}

#[test]
fn only_the_first_input_gives_the_descriptor() {
    let mut builder = builder();
    let a = builder.input("a", &descriptor()).unwrap();
    let unknown = MLOperand { id: 9 };
    let graph = builder.graph().unwrap();
    assert_eq!(same_shape(&[a], graph), Ok(kept(&[2, 2])));
    assert_eq!(same_shape(&[a, unknown], graph), Ok(kept(&[2, 2])));
    assert_eq!(same_shape(&[unknown, a], graph), Err(GraphBuilderError::InvalidOperand));

    let bare = GraphInfo {
        input_operands: vec![],
        output_operands: vec![5],
        operands: graph.operands.clone(),
        operations: vec![],
    };
    assert_eq!(same_shape(&[a, unknown], &bare), same_shape(&[a], graph));
}

#[test]
fn an_operation_on_an_unknown_operand_is_refused() {
    let mut builder = builder();
    let a = builder.input("a", &descriptor()).unwrap();
    let unknown = MLOperand { id: 1 };
    assert_eq!(builder.identity(unknown), Err(GraphBuilderError::InvalidOperand));
    assert_eq!(builder.add(unknown, a), Err(GraphBuilderError::InvalidOperand));
    assert_eq!(builder.graph().unwrap().operands.len(), 1);
    assert!(builder.graph().unwrap().operations.is_empty());
    assert_eq!(
        GraphBuilderError::InvalidOperand.message(),
        "the MLOperand is not part of the graph"
    );
}

#[test]
fn the_second_operand_of_a_sum_is_not_looked_up() {
    let mut builder = builder();
    let a = builder.input("a", &descriptor()).unwrap();
    let sum = builder.add(a, MLOperand { id: 9 }).unwrap();
    assert_eq!(sum.id, 1);
    assert_eq!(
        builder.graph().unwrap().operations[0],
        Operation::Add { a: 0, b: 9, options: Some(labelled("")), outputs: vec![1] }
    );
}

#[test]
fn no_outputs_are_refused_and_change_nothing() {
    let mut builder = builder();
    builder.input("a", &descriptor()).unwrap();
    let error = builder.build(&HashMap::new()).unwrap_err();
    assert_eq!(error.message(), "an output is missing or has no name");
    assert_eq!(refusal(error), GraphBuilderError::EmptyOutputHashMap);
    assert_eq!(builder.graph().unwrap().operands.len(), 1);
}

#[test]
fn an_output_needs_a_name() {
    let mut builder = builder();
    let a = builder.input("a", &descriptor()).unwrap();
    let copy = builder.identity(a).unwrap();
    let outputs = HashMap::from([("", copy)]);
    let error = builder.build(&outputs).unwrap_err();
    assert_eq!(refusal(error), GraphBuilderError::EmptyOutputHashMap);
    assert_eq!(builder.graph(), None);
}

#[test]
fn an_input_is_no_output() {
    let mut builder = builder();
    let a = builder.input("a", &descriptor()).unwrap();
    let outputs = HashMap::from([("out", a)]);
    let error = builder.build(&outputs).unwrap_err();
    assert_eq!(
        error.message(),
        "requested an MLOperand with id 0 as an output that is already an input"
    );
    assert_eq!(
        refusal(error),
        GraphBuilderError::RequestedInputAsOutput {
            operand: Operand {
                descriptor: kept(&[2, 2]),
                kind: OperandKind::Input,
                name: Some("a".to_string()),
            },
            id: 0,
        }
    );
}

#[test]
fn a_constant_is_no_output() {
    let operand = Operand { descriptor: kept(&[]), kind: OperandKind::Constant, name: None };
    let mut graph = GraphInfo::default();
    graph.operands.push(operand.clone());
    let error = graph.with_outputs(&[("out", MLOperand { id: 0 })]).unwrap_err();
    assert_eq!(
        error,
        GraphBuilderError::RequestedConstantAsOutput { operand: operand.clone(), id: 0 }
    );

    let error =
        Error::from(GraphBuilderError::RequestedConstantAsOutput { operand, id: 12070 });
    assert_eq!(
        error.message(),
        "requested an MLOperand with id 12070 as an output that is already a constant"
    );
}

#[test]
fn a_graph_without_new_outputs_stays_as_it_is() {
    let graph = GraphInfo {
        input_operands: vec![],
        output_operands: vec![3],
        operands: vec![],
        operations: vec![],
    };
    assert_eq!(graph.with_outputs(&[]).unwrap().output_operands, [3]);
}

#[test]
fn positions_are_cut_to_32_bits() {
    let mut builder = builder();
    let a = builder.input("a", &descriptor()).unwrap();
    let far = MLOperand { id: 0x1_0000_0005 };
    builder.add(a, far).unwrap();
    assert_eq!(
        builder.graph().unwrap().operations[0],
        Operation::Add { a: 0, b: 5, options: Some(labelled("")), outputs: vec![1] }
    );
    let graph = builder.finish(&[("far", far)]).unwrap();
    assert_eq!(graph.output_operands, [5]);
}

#[test]
fn graphs_only_grow() {
    let mut builder = builder();
    let a = builder.input("a", &descriptor()).unwrap();
    let copy = builder.identity(a).unwrap();
    let before: Vec<Operand> = builder.graph().unwrap().operands.clone();
    builder.identity(MLOperand { id: 2 }).unwrap_err();
    let b = builder.input("b", &descriptor()).unwrap();
    let sum = builder.add(copy, b).unwrap();
    assert_eq!((a.id, copy.id, b.id, sum.id), (0, 1, 2, 3));
    let graph = builder.graph().unwrap();
    assert_eq!(graph.operands[..2], before[..]);
    assert_eq!(graph.input_operands, [0, 2]);
    assert_eq!(
        graph.operations,
        [
            Operation::Identity { input: 0, options: Some(labelled("")), outputs: vec![1] },
            Operation::Add { a: 1, b: 2, options: Some(labelled("")), outputs: vec![3] },
        ]
    );
    assert!(graph.output_operands.is_empty());
}

#[test]
fn the_order_of_the_outputs_decides_only_their_list() {
    let build = |reversed: bool| {
        let mut builder = builder();
        let a = builder.input("a", &descriptor()).unwrap();
        let copy = builder.identity(a).unwrap();
        let sum = builder.add(a, copy).unwrap();
        let mut outputs = vec![("copy", copy), ("sum", sum)];
        if reversed {
            outputs.reverse();
        }
        builder.finish(&outputs).unwrap()
    };
    let one = build(false);
    let other = build(true);
    assert_eq!(one.operands, other.operands);
    assert_eq!(one.operations, other.operations);
    assert_eq!(one.output_operands, [1, 2]);
    assert_eq!(other.output_operands, [2, 1]);
}

#[test]
fn a_map_is_listed_entry_by_entry() {
    let outputs = HashMap::from([
        ("x", MLOperand { id: 4 }),
        ("y", MLOperand { id: 4 }),
        ("z", MLOperand { id: 0 }),
    ]);
    let mut listed = list_entries(&outputs);
    listed.sort_by_key(|entry| entry.0);
    assert_eq!(
        listed,
        [("x", MLOperand { id: 4 }), ("y", MLOperand { id: 4 }), ("z", MLOperand { id: 0 })]
    );
    assert!(list_entries(&HashMap::new()).is_empty());
}

#[test]
fn a_graph_is_built_once() {
    let mut builder = builder();
    let a = builder.input("a", &descriptor()).unwrap();
    let copy = builder.identity(a).unwrap();
    let outputs = HashMap::from([("out", copy)]);
    builder.build(&outputs).unwrap();
    assert_eq!(builder.graph(), None);

    let error = builder.build(&outputs).unwrap_err();
    assert_eq!(error.message(), "the graph has already been built");
    assert_eq!(refusal(error), GraphBuilderError::GraphAlreadyBuilt);
    let error = builder.input("b", &descriptor()).unwrap_err();
    assert_eq!(refusal(error), GraphBuilderError::GraphAlreadyBuilt);
    assert_eq!(builder.identity(a), Err(GraphBuilderError::GraphAlreadyBuilt));
    assert_eq!(builder.add(a, copy), Err(GraphBuilderError::GraphAlreadyBuilt));
    let error = builder.build(&HashMap::new()).unwrap_err();
    assert_eq!(refusal(error), GraphBuilderError::EmptyOutputHashMap);
}

#[test]
fn a_refused_output_uses_up_the_graph() {
    let mut builder = builder();
    let a = builder.input("a", &descriptor()).unwrap();
    let copy = builder.identity(a).unwrap();
    builder.build(&HashMap::from([("a", a)])).unwrap_err();
    let error = builder.build(&HashMap::from([("copy", copy)])).unwrap_err();
    assert_eq!(refusal(error), GraphBuilderError::GraphAlreadyBuilt);
}

#[test]
fn the_backend_gets_the_named_graph() {
    let mut builder = builder();
    let a = builder.input("a", &descriptor()).unwrap();
    let b = builder.input("b", &descriptor()).unwrap();
    let copy = builder.identity(a).unwrap();
    let sum = builder.add(a, b).unwrap();
    let outputs = HashMap::from([("out1", copy), ("out2", sum)]);
    let (build, graph) = builder.build(&outputs).unwrap();
    assert_eq!(build, 1);
    let mut listed = graph.output_operands.clone();
    listed.sort();
    assert_eq!(listed, [2, 3]);
    assert_eq!(graph.input_operands, [0, 1]);
    assert_eq!(graph.operations.len(), 2);
    let names: Vec<Option<&str>> = graph.operands.iter().map(|o| o.name.as_deref()).collect();
    assert_eq!(names, [Some("a"), Some("b"), Some("out1"), Some("out2")]);
    assert_eq!(graph.operands[2].kind, OperandKind::Output);
    assert_eq!(graph.operands[0].kind, OperandKind::Input);
}

#[test]
fn listed_outputs_keep_their_order() {
    let mut builder = builder();
    let a = builder.input("a", &descriptor()).unwrap();
    let copy = builder.identity(a).unwrap();
    let sum = builder.add(a, copy).unwrap();
    let (_, graph) = builder.build_listed(&[("sum", sum), ("copy", copy)]).unwrap();
    assert_eq!(graph.output_operands, [2, 1]);
}

#[test]
fn the_last_name_of_an_operand_stands() {
    let mut builder = builder();
    let a = builder.input("a", &descriptor()).unwrap();
    let copy = builder.identity(a).unwrap();
    let graph = builder.finish(&[("first", copy), ("last", copy)]).unwrap();
    assert_eq!(graph.output_operands, [1, 1]);
    assert_eq!(graph.operands[1].name.as_deref(), Some("last"));
}

#[test]
fn an_unknown_operand_may_be_an_output() {
    let mut builder = builder();
    builder.input("a", &descriptor()).unwrap();
    let outputs = HashMap::from([("ghost", MLOperand { id: 40 })]);
    let (_, graph) = builder.build(&outputs).unwrap();
    assert_eq!(graph.output_operands, [40]);
    assert_eq!(graph.operands.len(), 1);
    assert_eq!(graph.operands[0].kind, OperandKind::Input);
}

#[test]
fn the_first_refused_output_decides() {
    let mut spare = builder();
    let a = spare.input("a", &descriptor()).unwrap();
    let copy = spare.identity(a).unwrap();
    let error = spare.finish(&[("copy", copy), ("", a), ("a", a)]).unwrap_err();
    assert_eq!(error, GraphBuilderError::EmptyOutputHashMap);

    let mut spare = builder();
    let a = spare.input("a", &descriptor()).unwrap();
    let copy = spare.identity(a).unwrap();
    let error = spare.finish(&[("copy", copy), ("a", a), ("", a)]).unwrap_err();
    assert!(matches!(error, GraphBuilderError::RequestedInputAsOutput { id: 0, .. }));
}

#[test]
fn a_given_graph_goes_to_the_backend_as_it_is() {
    let mut builder = builder();
    builder.input("a", &descriptor()).unwrap();
    let graph = GraphInfo {
        input_operands: vec![7],
        output_operands: vec![8, 8],
        operands: vec![],
        operations: vec![],
    };
    let (build, built) = builder.build_graph_info(graph).unwrap();
    assert_eq!(build, 1);
    assert_eq!(built.input_operands, [7]);
    assert_eq!(built.output_operands, [8, 8]);
    assert_eq!(builder.graph().unwrap().operands.len(), 1);
}

#[test]
fn a_failure_of_the_backend_is_passed_on() {
    let mut context =
        MLContext { backend: EchoBackend { fails: true, available: true, builders: 0 } };
    let mut builder = MLGraphBuilder::new(&mut context).unwrap();
    let a = builder.input("a", &descriptor()).unwrap();
    let copy = builder.identity(a).unwrap();
    let error = builder.build_graph_info(GraphInfo::default()).unwrap_err();
    assert_eq!(error.message(), "out of memory");
    let error = builder.build(&HashMap::from([("out", copy)])).unwrap_err();
    assert_eq!(error, Error::BackendError { message: "out of memory".to_string() });
    assert_eq!(builder.graph(), None);
}

#[test]
fn copies_are_equal() {
    let operand = Operand {
        descriptor: kept(&[3, 4]),
        kind: OperandKind::Output,
        name: Some("x".to_string()),
    };
    assert_eq!(operand.clone(), operand);
    assert_eq!(labelled("y").clone(), labelled("y"));
    assert_eq!(MLOperatorOptions::default(), labelled(""));
}
