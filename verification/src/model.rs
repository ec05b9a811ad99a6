//! The mathematical model of a decoded module and of the verdict on it.

use vstd::prelude::*;

verus! {

/// What one attempt to decode the next instruction of a function body gives.
pub enum OpOutcome {
    /// An instruction, by its canonical text: the name of its operation kind,
    /// followed by its immediate operands if it has any.
    Decoded(Seq<char>),
    /// The instruction stream is malformed at this point; the decoder's message.
    Malformed(Seq<char>),
}

/// What a function body holds.
pub enum BodyModel {
    /// No instruction stream can be had from the body; the decoder's message.
    Unreadable(Seq<char>),
    /// The outcomes of decoding one instruction after the other, up to the end
    /// of the body or to the first malformed instruction.
    Instructions(Seq<OpOutcome>),
}

/// One item of what the decoder yields for a module.
pub enum ItemModel {
    /// A structural chunk that carries no instructions.
    Plain,
    /// A code-section entry: one function body.
    Code(BodyModel),
    /// The module is malformed at this point; the decoder's message.
    Malformed(Seq<char>),
}

/// The reason given for a module that holds a floating-point instruction.
pub open spec fn float_violation() -> Seq<char> {
    "floating-point instructions are not allowed under strict Soroban compatibility"@
}

/// `prefix` stands at the start of `text`.
pub open spec fn starts_with(text: Seq<char>, prefix: Seq<char>) -> bool {
    prefix.len() <= text.len() && text.subrange(0, prefix.len() as int) =~= prefix
}

/// An instruction is forbidden exactly if its canonical text begins with the
/// name of one of the two floating-point families.
pub open spec fn is_float_text(text: Seq<char>) -> bool {
    starts_with(text, seq!['F', '3', '2']) || starts_with(text, seq!['F', '6', '4'])
}

/// The reason for which one decoding outcome ends the scan, if it does.
pub open spec fn op_fault(op: OpOutcome) -> Option<Seq<char>> {
    match op {
        OpOutcome::Malformed(message) => Some(message),
        OpOutcome::Decoded(text) => if is_float_text(text) {
            Some(float_violation())
        } else {
            None
        },
    }
}

/// The first reason found in an instruction stream, in the order of the stream.
pub open spec fn first_op_fault(ops: Seq<OpOutcome>) -> Option<Seq<char>>
    decreases ops.len(),
{
    if ops.len() == 0 {
        None
    } else if op_fault(ops[0]) is Some {
        op_fault(ops[0])
    } else {
        first_op_fault(ops.skip(1))
    }
}

/// The reason for which a function body is rejected, if it is.
pub open spec fn body_fault(body: BodyModel) -> Option<Seq<char>> {
    match body {
        BodyModel::Unreadable(message) => Some(message),
        BodyModel::Instructions(ops) => first_op_fault(ops),
    }
}

/// The reason for which one item ends the scan, if it does.
pub open spec fn item_fault(item: ItemModel) -> Option<Seq<char>> {
    match item {
        ItemModel::Plain => None,
        ItemModel::Code(body) => body_fault(body),
        ItemModel::Malformed(message) => Some(message),
    }
}

/// The first reason found in a module, in the order in which it is decoded.
pub open spec fn first_fault(items: Seq<ItemModel>) -> Option<Seq<char>>
    decreases items.len(),
{
    if items.len() == 0 {
        None
    } else if item_fault(items[0]) is Some {
        item_fault(items[0])
    } else {
        first_fault(items.skip(1))
    }
}

/// `verdict` is the verdict that `fault` calls for: success where there is no
/// reason to reject, and otherwise a failure that carries the reason.
pub open spec fn verdict_matches(verdict: Result<(), String>, fault: Option<Seq<char>>) -> bool {
    match verdict {
        Ok(_) => fault is None,
        Err(reason) => fault == Some(reason@),
    }
}

/// The outcome is an instruction of a floating-point family.
pub open spec fn is_float_outcome(op: OpOutcome) -> bool {
    op matches OpOutcome::Decoded(text) && is_float_text(text)
}

/// The item was decoded to its end: it is a chunk without instructions, or a
/// function body of which every instruction was decoded.
pub open spec fn item_well_formed(item: ItemModel) -> bool {
    match item {
        ItemModel::Plain => true,
        ItemModel::Code(BodyModel::Instructions(ops)) => forall|j: int|
            0 <= j < ops.len() ==> ops[j] is Decoded,
        _ => false,
    }
}

/// The module was decoded to its end, function bodies included.
pub open spec fn well_formed(items: Seq<ItemModel>) -> bool {
    forall|i: int| 0 <= i < items.len() ==> item_well_formed(#[trigger] items[i])
}

/// The item is a function body that holds a floating-point instruction.
pub open spec fn item_holds_float(item: ItemModel) -> bool {
    item matches ItemModel::Code(BodyModel::Instructions(ops)) && exists|j: int|
        0 <= j < ops.len() && is_float_outcome(ops[j])
}

/// Some function body of the module holds a floating-point instruction.
pub open spec fn holds_float(items: Seq<ItemModel>) -> bool {
    exists|i: int| 0 <= i < items.len() && item_holds_float(#[trigger] items[i])
}

} // verus!
