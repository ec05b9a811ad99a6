//! What holds of the verdict, for every module.
//!
//! The laws speak of the items that decoding a module yields and of any
//! verdict that answers to them, as the verdict of
//! [`enforce_soroban_compatibility`](crate::vm::enforce_soroban_compatibility)
//! does to the items of its input.

use vstd::prelude::*;
use crate::model::{
    first_fault, first_op_fault, float_violation, holds_float, is_float_outcome, item_fault,
    item_holds_float, item_well_formed, op_fault, verdict_matches, well_formed, BodyModel,
    ItemModel, OpOutcome,
};

verus! {

/// An instruction stream gives no reason exactly if none of its outcomes does.
pub proof fn lemma_no_op_fault(ops: Seq<OpOutcome>)
    ensures
        first_op_fault(ops) is None <==> forall|j: int|
            0 <= j < ops.len() ==> op_fault(#[trigger] ops[j]) is None,
    decreases ops.len(),
{
    if ops.len() > 0 {
        let rest = ops.skip(1);
        lemma_no_op_fault(rest);
        assert forall|j: int| 0 <= j < rest.len() implies rest[j] == ops[j + 1] by {}
        if first_op_fault(ops) is None {
            assert forall|j: int| 0 <= j < ops.len() implies op_fault(#[trigger] ops[j]) is None by {
                if j > 0 {
                    assert(ops[j] == rest[j - 1]);
                }
            }
        }
        if forall|j: int| 0 <= j < ops.len() ==> op_fault(#[trigger] ops[j]) is None {
            assert(op_fault(ops[0]) is None);
            assert forall|j: int| 0 <= j < rest.len() implies op_fault(#[trigger] rest[j]) is None by {
                assert(rest[j] == ops[j + 1]);
            }
        }
    }
}

/// A module gives no reason exactly if none of its items does.
pub proof fn lemma_no_fault(items: Seq<ItemModel>)
    ensures
        first_fault(items) is None <==> forall|i: int|
            0 <= i < items.len() ==> item_fault(#[trigger] items[i]) is None,
    decreases items.len(),
{
    if items.len() > 0 {
        let rest = items.skip(1);
        lemma_no_fault(rest);
        if first_fault(items) is None {
            assert forall|i: int| 0 <= i < items.len() implies item_fault(#[trigger] items[i]) is None by {
                if i > 0 {
                    assert(items[i] == rest[i - 1]);
                }
            }
        }
        if forall|i: int| 0 <= i < items.len() ==> item_fault(#[trigger] items[i]) is None {
            assert(item_fault(items[0]) is None);
            assert forall|i: int| 0 <= i < rest.len() implies item_fault(#[trigger] rest[i]) is None by {
                assert(rest[i] == items[i + 1]);
            }
        }
    }
}

/// The reason found in an instruction stream is that of the first outcome
/// that gives one.
pub proof fn lemma_first_op_fault_at(ops: Seq<OpOutcome>, k: int)
    requires
        0 <= k < ops.len(),
        forall|j: int| 0 <= j < k ==> op_fault(#[trigger] ops[j]) is None,
        op_fault(ops[k]) is Some,
    ensures
        first_op_fault(ops) == op_fault(ops[k]),
    decreases k,
{
    if k > 0 {
        let rest = ops.skip(1);
        assert(op_fault(ops[0]) is None);
        assert forall|j: int| 0 <= j < k - 1 implies op_fault(#[trigger] rest[j]) is None by {
            assert(rest[j] == ops[j + 1]);
        }
        assert(rest[k - 1] == ops[k]);
        lemma_first_op_fault_at(rest, k - 1);
    }
}

/// The reason found in a module is that of the first item that gives one,
/// whatever the items behind it hold.
pub proof fn lemma_first_fault_at(items: Seq<ItemModel>, k: int)
    requires
        0 <= k < items.len(),
        forall|i: int| 0 <= i < k ==> item_fault(#[trigger] items[i]) is None,
        item_fault(items[k]) is Some,
    ensures
        first_fault(items) == item_fault(items[k]),
    decreases k,
{
    if k > 0 {
        let rest = items.skip(1);
        assert(item_fault(items[0]) is None);
        assert forall|i: int| 0 <= i < k - 1 implies item_fault(#[trigger] rest[i]) is None by {
            assert(rest[i] == items[i + 1]);
        }
        assert(rest[k - 1] == items[k]);
        lemma_first_fault_at(rest, k - 1);
    }
}

/// Where every instruction of a stream was decoded, the only reason that the
/// stream can give is the floating-point violation.
pub proof fn lemma_decoded_stream_fault(ops: Seq<OpOutcome>)
    requires
        forall|j: int| 0 <= j < ops.len() ==> ops[j] is Decoded,
    ensures
        first_op_fault(ops) is None || first_op_fault(ops) == Some(float_violation()),
    decreases ops.len(),
{
    if ops.len() > 0 {
        let rest = ops.skip(1);
        assert(ops[0] is Decoded);
        assert forall|j: int| 0 <= j < rest.len() implies rest[j] is Decoded by {
            assert(rest[j] == ops[j + 1]);
        }
        lemma_decoded_stream_fault(rest);
    }
}

/// In a well-formed module the only reason that can be found is the
/// floating-point violation.
pub proof fn lemma_well_formed_fault(items: Seq<ItemModel>)
    requires
        well_formed(items),
    ensures
        first_fault(items) is None || first_fault(items) == Some(float_violation()),
    decreases items.len(),
{
    if items.len() > 0 {
        let rest = items.skip(1);
        assert(item_well_formed(items[0]));
        if let ItemModel::Code(BodyModel::Instructions(ops)) = items[0] {
            lemma_decoded_stream_fault(ops);
        }
        assert forall|i: int| 0 <= i < rest.len() implies item_well_formed(#[trigger] rest[i]) by {
            assert(rest[i] == items[i + 1]);
        }
        lemma_well_formed_fault(rest);
    }
}

/// A well-formed module that holds no floating-point instruction is accepted.
pub proof fn law_clean_module_is_accepted(items: Seq<ItemModel>, verdict: Result<(), String>)
    requires
        well_formed(items),
        !holds_float(items),
        verdict_matches(verdict, first_fault(items)),
    ensures
        verdict is Ok,
{
    assert forall|i: int| 0 <= i < items.len() implies item_fault(#[trigger] items[i]) is None by {
        assert(item_well_formed(items[i]));
        assert(!item_holds_float(items[i]));
        if let ItemModel::Code(BodyModel::Instructions(ops)) = items[i] {
            assert forall|j: int| 0 <= j < ops.len() implies op_fault(#[trigger] ops[j]) is None by {
                assert(ops[j] is Decoded);
                assert(!is_float_outcome(ops[j]));
            }
            lemma_no_op_fault(ops);
        }
    }
    lemma_no_fault(items);
}

/// A well-formed module that holds a floating-point instruction is rejected
/// with the floating-point violation as its reason, wherever in the module
/// the instruction stands.
pub proof fn law_float_module_is_rejected(items: Seq<ItemModel>, verdict: Result<(), String>)
    requires
        well_formed(items),
        holds_float(items),
        verdict_matches(verdict, first_fault(items)),
    ensures
        verdict matches Err(reason) && reason@ == float_violation(),
{
    let i = choose|i: int| 0 <= i < items.len() && item_holds_float(#[trigger] items[i]);
    if let ItemModel::Code(BodyModel::Instructions(ops)) = items[i] {
        let j = choose|j: int| 0 <= j < ops.len() && is_float_outcome(ops[j]);
        assert(op_fault(ops[j]) is Some);
        lemma_no_op_fault(ops);
        assert(item_fault(items[i]) is Some);
    }
    lemma_no_fault(items);
    lemma_well_formed_fault(items);
}

/// A module that is not well-formed is rejected.
pub proof fn law_malformed_module_is_rejected(items: Seq<ItemModel>, verdict: Result<(), String>)
    requires
        !well_formed(items),
        verdict_matches(verdict, first_fault(items)),
    ensures
        verdict is Err,
{
    let i = choose|i: int| 0 <= i < items.len() && !item_well_formed(#[trigger] items[i]);
    if let ItemModel::Code(BodyModel::Instructions(ops)) = items[i] {
        let j = choose|j: int| 0 <= j < ops.len() && !(ops[j] is Decoded);
        assert(op_fault(ops[j]) is Some);
        lemma_no_op_fault(ops);
    }
    assert(item_fault(items[i]) is Some);
    lemma_no_fault(items);
}

/// Two verdicts on the same module agree: both accept it, or both reject it
/// for the same reason.
pub proof fn law_verdict_is_repeatable(
    items: Seq<ItemModel>,
    first: Result<(), String>,
    second: Result<(), String>,
)
    requires
        verdict_matches(first, first_fault(items)),
        verdict_matches(second, first_fault(items)),
    ensures
        first is Ok <==> second is Ok,
        first is Err ==> second is Err && first->Err_0@ == second->Err_0@,
{
}

/// Where the first instruction of the first function body belongs to a
/// floating-point family, the module is rejected with the floating-point
/// violation as its reason, whatever stands behind that instruction: the rest
/// of the body and the items that follow it are of no account, malformed or
/// not.
pub proof fn law_leading_float_decides(
    items: Seq<ItemModel>,
    k: int,
    ops: Seq<OpOutcome>,
    verdict: Result<(), String>,
)
    requires
        0 <= k < items.len(),
        forall|i: int| 0 <= i < k ==> items[i] is Plain,
        items[k] == ItemModel::Code(BodyModel::Instructions(ops)),
        ops.len() > 0,
        is_float_outcome(ops[0]),
        verdict_matches(verdict, first_fault(items)),
    ensures
        verdict matches Err(reason) && reason@ == float_violation(),
{
    lemma_first_op_fault_at(ops, 0);
    lemma_first_fault_at(items, k);
}

} // verus!
