//! The trusted boundary to the `wasmparser` decoder.
//!
//! No contract in this file is proved. Decoding is a function of the bytes
//! alone, so what the decoder computes is given names: what a module yields,
//! what a stream or a reader has yet to yield, what a function body holds, and
//! the text of an instruction and of an error. The contracts say how each call
//! of the decoder relates to those names, and no more: none says what the
//! decoder makes of given bytes.

use vstd::prelude::*;
use crate::model::{BodyModel, ItemModel, OpOutcome};

verus! {

/// A decoding error of `wasmparser`.
#[verifier::external_type_specification]
#[verifier::external_body]
pub struct ExBinaryReaderError(wasmparser::BinaryReaderError);

/// One function body of a code section, as `wasmparser` hands it out.
#[verifier::external_type_specification]
#[verifier::external_body]
pub struct ExFunctionBody<'a>(wasmparser::FunctionBody<'a>);

/// The reader of a function body's instructions.
#[verifier::external_type_specification]
#[verifier::external_body]
pub struct ExOperatorsReader<'a>(wasmparser::OperatorsReader<'a>);

/// One decoded instruction.
#[verifier::external_type_specification]
#[verifier::external_body]
pub struct ExOperator<'a>(wasmparser::Operator<'a>);

/// The lazy sequence of payloads that `wasmparser::Parser::parse_all` returns.
/// Its type has no name that could be declared, so it is held here, hidden.
#[verifier::external_body]
pub struct PayloadStream<'a> {
    inner: Box<dyn Iterator<Item = Result<wasmparser::Payload<'a>, wasmparser::BinaryReaderError>> + 'a>,
}

/// What `Parser::new(0).parse_all` yields on the given bytes, item by item,
/// up to the end of the module or to the first failure, which ends it.
pub uninterp spec fn module_items(wasm: Seq<u8>) -> Seq<ItemModel>;

/// The items that a stream has yet to yield.
pub uninterp spec fn pending_items(stream: PayloadStream<'_>) -> Seq<ItemModel>;

/// The text that `Display` gives for a decoding error.
pub uninterp spec fn error_text(error: wasmparser::BinaryReaderError) -> Seq<char>;

/// What a function body holds.
pub uninterp spec fn body_model(body: wasmparser::FunctionBody<'_>) -> BodyModel;

/// The outcomes of the reads that a reader has yet to make, up to the end of
/// its body or to the first failure.
pub uninterp spec fn pending_ops(reader: wasmparser::OperatorsReader<'_>) -> Seq<OpOutcome>;

/// The text that `Debug` gives for an instruction.
pub uninterp spec fn op_text(op: wasmparser::Operator<'_>) -> Seq<char>;

/// The model of what a payload stream yields in one step.
pub open spec fn item_of(
    step: Result<Option<wasmparser::FunctionBody<'_>>, wasmparser::BinaryReaderError>,
) -> ItemModel {
    match step {
        Ok(None) => ItemModel::Plain,
        Ok(Some(body)) => ItemModel::Code(body_model(body)),
        Err(error) => ItemModel::Malformed(error_text(error)),
    }
}

/// The model of what one read of an instruction gives.
pub open spec fn outcome_of(
    step: Result<wasmparser::Operator<'_>, wasmparser::BinaryReaderError>,
) -> OpOutcome {
    match step {
        Ok(op) => OpOutcome::Decoded(op_text(op)),
        Err(error) => OpOutcome::Malformed(error_text(error)),
    }
}

/// Calls `wasmparser::Parser::new` with offset 0 and `parse_all` on the bytes.
/// Nothing is decoded yet; the stream will yield the items of the module.
#[verifier::external_body]
pub(crate) fn open_stream<'a>(wasm: &'a [u8]) -> (stream: PayloadStream<'a>)
    ensures
        pending_items(stream) == module_items(wasm@),
{
    PayloadStream { inner: Box::new(wasmparser::Parser::new(0).parse_all(wasm)) }
}

/// Calls `next` on the iterator of `parse_all`. It yields the next pending
/// item and leaves the others pending, or `None` where none is pending. Of a
/// payload only this is kept: the function body, where it is a code-section
/// entry.
#[verifier::external_body]
pub(crate) fn next_item<'a>(stream: &mut PayloadStream<'a>) -> (step: Option<
    Result<Option<wasmparser::FunctionBody<'a>>, wasmparser::BinaryReaderError>,
>)
    ensures
        pending_items(*old(stream)).len() == 0 ==> step is None && pending_items(*final(stream)).len() == 0,
        pending_items(*old(stream)).len() > 0 ==> step is Some
            && item_of(step->0) == pending_items(*old(stream))[0]
            && pending_items(*final(stream)) == pending_items(*old(stream)).skip(1),
{
    match stream.inner.next() {
        None => None,
        Some(Err(error)) => Some(Err(error)),
        Some(Ok(wasmparser::Payload::CodeSectionEntry(body))) => Some(Ok(Some(body))),
        Some(Ok(_)) => Some(Ok(None)),
    }
}

/// Calls `wasmparser::FunctionBody::get_operators_reader`, which skips the
/// declarations of locals. The reader's pending reads are the body's
/// instructions; where the call fails, the body is unreadable.
#[verifier::external_body]
pub(crate) fn operators_of<'a>(body: &wasmparser::FunctionBody<'a>) -> (reader: Result<
    wasmparser::OperatorsReader<'a>,
    wasmparser::BinaryReaderError,
>)
    ensures
        match reader {
            Ok(ops) => body_model(*body) == BodyModel::Instructions(pending_ops(ops)),
            Err(error) => body_model(*body) == BodyModel::Unreadable(error_text(error)),
        },
{
    body.get_operators_reader()
}

/// Calls `wasmparser::OperatorsReader::eof`: whether the reader stands at the
/// end of its body, so that no read is pending.
#[verifier::external_body]
pub(crate) fn at_end(reader: &wasmparser::OperatorsReader<'_>) -> (end: bool)
    ensures
        end == (pending_ops(*reader).len() == 0),
{
    reader.eof()
}

/// Calls `wasmparser::OperatorsReader::read`. Where a read is pending, the
/// call gives its outcome; after an instruction the other reads stay pending.
#[verifier::external_body]
pub(crate) fn read_op<'a>(reader: &mut wasmparser::OperatorsReader<'a>) -> (step: Result<
    wasmparser::Operator<'a>,
    wasmparser::BinaryReaderError,
>)
    ensures
        pending_ops(*old(reader)).len() > 0 ==> outcome_of(step) == pending_ops(*old(reader))[0],
        pending_ops(*old(reader)).len() > 0 && step is Ok ==> pending_ops(*final(reader))
            == pending_ops(*old(reader)).skip(1),
{
    reader.read()
}

/// Formats an instruction with `Debug`, as `wasmparser` derives it.
#[verifier::external_body]
pub(crate) fn debug_text(op: &wasmparser::Operator<'_>) -> (text: String)
    ensures
        text@ == op_text(*op),
{
    format!("{:?}", op)
}

/// Formats a decoding error with `Display`.
#[verifier::external_body]
pub(crate) fn error_message(error: &wasmparser::BinaryReaderError) -> (text: String)
    ensures
        text@ == error_text(*error),
{
    error.to_string()
}

} // verus!
