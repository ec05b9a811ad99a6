//! The compatibility check: one pass over a module's function bodies, which
//! ends at the first instruction of a floating-point family or at the first
//! place where the module cannot be decoded.

use vstd::prelude::*;
use vstd::string::StrSliceExecFns;
use wasmparser::{FunctionBody, Operator};
use crate::decoder::{
    at_end, body_model, debug_text, error_message, module_items, next_item, op_text, open_stream,
    operators_of, pending_items, pending_ops, read_op,
};
use crate::model::{
    body_fault, first_fault, first_op_fault, float_violation, is_float_text, verdict_matches,
};

verus! {

/// The reason for which the given bytes are rejected, if they are: the first
/// one that decoding them as a module, item by item, comes upon.
pub open spec fn module_fault(wasm: Seq<u8>) -> Option<Seq<char>> {
    first_fault(module_items(wasm))
}

/// The reason given for a floating-point instruction.
pub fn float_violation_message() -> (message: String)
    ensures
        message@ == float_violation(),
{
    "floating-point instructions are not allowed under strict Soroban compatibility".to_owned()
}

/// Whether an instruction's canonical text names an operation of the 32-bit or
/// of the 64-bit floating-point family.
pub fn is_float_name(name: &str) -> (float: bool)
    ensures
        float == is_float_text(name@),
{
    if name.unicode_len() < 3 {
        return false;
    }
    let family = name.get_char(0);
    let tens = name.get_char(1);
    let units = name.get_char(2);
    proof {
        let head = name@.subrange(0, 3);
        assert(head[0] == family && head[1] == tens && head[2] == units);
    }
    family == 'F' && ((tens == '3' && units == '2') || (tens == '6' && units == '4'))
}

/// Whether an instruction belongs to a floating-point family, judged by the
/// text that the decoder gives for it.
fn is_float_op(op: &Operator<'_>) -> (float: bool)
    ensures
        float == is_float_text(op_text(*op)),
{
    let name = debug_text(op);
    is_float_name(name.as_str())
}

/// Scans one function body, instruction by instruction, and stops at the
/// first reason to reject it.
fn scan_body(body: &FunctionBody<'_>) -> (verdict: Result<(), String>)
    ensures
        verdict_matches(verdict, body_fault(body_model(*body))),
{
    let mut ops = match operators_of(body) {
        Ok(ops) => ops,
        Err(error) => {
            return Err(error_message(&error));
        },
    };
    while !at_end(&ops)
        invariant
            first_op_fault(pending_ops(ops)) == body_fault(body_model(*body)),
        decreases pending_ops(ops).len(),
    {
        match read_op(&mut ops) {
            Ok(op) => {
                if is_float_op(&op) {
                    return Err(float_violation_message());
                }
            },
            Err(error) => {
                return Err(error_message(&error));
            },
        }
    }
    Ok(())
}

/// Accepts a module exactly if decoding it, item by item and instruction by
/// instruction, comes upon no floating-point instruction and no decoding
/// failure. Otherwise the failure carries the first reason found: the fixed
/// text for a floating-point instruction, or the decoder's own message.
/// Nothing behind that place is decoded.
pub fn enforce_soroban_compatibility(wasm: &[u8]) -> (verdict: Result<(), String>)
    ensures
        verdict_matches(verdict, module_fault(wasm@)),
{
    let mut stream = open_stream(wasm);
    loop
        invariant
            first_fault(pending_items(stream)) == module_fault(wasm@),
        decreases pending_items(stream).len(),
    {
        match next_item(&mut stream) {
            None => {
                return Ok(());
            },
            Some(Err(error)) => {
                return Err(error_message(&error));
            },
            Some(Ok(None)) => {},
            Some(Ok(Some(body))) => {
                match scan_body(&body) {
                    Ok(_) => {},
                    Err(reason) => {
                        return Err(reason);
                    },
                }
            },
        }
    }
}

} // verus!
