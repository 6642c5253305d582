//! The views show all that the executable types hold, and messages tell what happened.
use crate::error::{decimal, Error, GraphBuilderError, RefusalView};
use crate::graph::{GraphInfo, Operand, OperandDescriptor, OperandView, Operation};
use crate::mlcontext::MLOperandDescriptor;
use crate::operator_options::MLOperatorOptions;
use vstd::prelude::*;

verus! {

/// A descriptor shows its element type and every dimension of its shape, and so does that of a
/// caller.
pub proof fn descriptors_show_type_and_shape(
    descriptor: OperandDescriptor,
    given: MLOperandDescriptor,
)
    ensures
        descriptor@.data_type == descriptor.data_type,
        descriptor@.shape == descriptor.shape@,
        given@.data_type == given.data_type,
        given@.shape == given.shape@,
{
}

/// An operand shows its descriptor, its kind and its name.
pub proof fn operands_show_every_field(operand: Operand)
    ensures
        operand@.descriptor == operand.descriptor@,
        operand@.kind == operand.kind,
        operand.name is None ==> operand@.name is None,
        operand.name matches Some(name) ==> operand@.name == Some(name@),
{
}

/// Operator options show their label.
pub proof fn options_show_their_label(options: MLOperatorOptions)
    ensures
        options@ == options.label@,
{
}

/// An operation shows what it is, which operands it reads and writes, and its label.
pub proof fn operations_show_every_field(operation: Operation)
    ensures
        match operation {
            Operation::Identity { input, options, outputs } => {
                &&& operation@ is Identity
                &&& operation@->input == input
                &&& operation@->Identity_outputs == outputs@
                &&& options is None ==> operation@->Identity_options is None
                &&& options matches Some(given) ==> operation@->Identity_options == Some(
                    given.label@,
                )
            },
            Operation::Add { a, b, options, outputs } => {
                &&& operation@ is Add
                &&& operation@->a == a
                &&& operation@->b == b
                &&& operation@->Add_outputs == outputs@
                &&& options is None ==> operation@->Add_options is None
                &&& options matches Some(given) ==> operation@->Add_options == Some(given.label@)
            },
        },
{
}

/// A graph shows its inputs, its outputs, and each of its operands and operations at its place.
pub proof fn graphs_show_every_field(graph: GraphInfo)
    ensures
        graph@.input_operands == graph.input_operands@,
        graph@.output_operands == graph.output_operands@,
        graph@.operands.len() == graph.operands@.len(),
        forall|i: int|
            0 <= i < graph.operands@.len() ==> #[trigger] graph@.operands[i]
                == graph.operands@[i]@,
        graph@.operations.len() == graph.operations@.len(),
        forall|i: int|
            0 <= i < graph.operations@.len() ==> #[trigger] graph@.operations[i]
                == graph.operations@[i]@,
{
}

/// A refusal shows its reason, and with it the operand and the position that it carries.
pub proof fn refusals_show_every_field(error: GraphBuilderError)
    ensures
        match error {
            GraphBuilderError::InvalidOperand => error@ is InvalidOperand,
            GraphBuilderError::EmptyOutputHashMap => error@ is EmptyOutputHashMap,
            GraphBuilderError::GraphAlreadyBuilt => error@ is GraphAlreadyBuilt,
            GraphBuilderError::RequestedInputAsOutput { operand, id } => {
                &&& error@ is RequestedInputAsOutput
                &&& error@->RequestedInputAsOutput_operand == operand@
                &&& error@->RequestedInputAsOutput_id == id
            },
            GraphBuilderError::RequestedConstantAsOutput { operand, id } => {
                &&& error@ is RequestedConstantAsOutput
                &&& error@->RequestedConstantAsOutput_operand == operand@
                &&& error@->RequestedConstantAsOutput_id == id
            },
        },
{
}

/// Only an error that carries a builder's refusal is one, and it is the refusal that it carries.
pub proof fn errors_carry_their_refusal(error: Error, refusal: RefusalView)
    ensures
        match error {
            Error::NoBackendAvialable => !error.is_refusal(refusal),
            Error::GraphBuilderError { source } => error.is_refusal(refusal) <==> source@ == refusal,
            Error::BackendError { .. } => !error.is_refusal(refusal),
        },
{
}

/// The number that a row of decimal digits stands for.
pub open spec fn read_decimal(digits: Seq<char>) -> int
    decreases digits.len(),
{
    if digits.len() == 0 {
        0
    } else {
        10 * read_decimal(digits.drop_last()) + (digits.last() as int - '0' as int)
    }
}

/// A number written in decimal is read back as that number. All that is written are digits, and
/// there is no leading zero but that of zero itself.
pub proof fn decimals_are_read_back(number: nat)
    ensures
        read_decimal(decimal(number)) == number,
        decimal(number).len() > 0,
        forall|i: int|
            0 <= i < decimal(number).len() ==> '0' <= #[trigger] decimal(number)[i] <= '9',
        decimal(number)[0] == '0' ==> number == 0 && decimal(number).len() == 1,
    decreases number,
{
    reveal_strlit("0123456789");
    reveal_with_fuel(read_decimal, 2);
    let digit = "0123456789"@[(number % 10) as int];
    assert(digit as int == '0' as int + number % 10);
    if number >= 10 {
        decimals_are_read_back(number / 10);
        assert(decimal(number).drop_last() =~= decimal(number / 10));
        assert(decimal(number)[0] == decimal(number / 10)[0]);
    } else {
        assert(decimal(number).drop_last() =~= Seq::<char>::empty());
    }
}

/// The refusal of an input or a constant as an output tells the position between fixed words, and
/// does not depend on the operand.
pub proof fn messages_tell_the_position(operand: OperandView, id: int)
    ensures
        (RefusalView::RequestedInputAsOutput { operand, id }).message()
            == "requested an MLOperand with id "@ + decimal(id as nat)
            + " as an output that is already an input"@,
        (RefusalView::RequestedConstantAsOutput { operand, id }).message()
            == "requested an MLOperand with id "@ + decimal(id as nat)
            + " as an output that is already a constant"@,
{
}

} // verus!
