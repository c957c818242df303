//! Laws of the registry, proved over its model: identifier monotonicity,
//! the visible-count invariant, idempotent removal, and the write-once
//! clear flag — each stated for arbitrary sequences of operations.

use vstd::prelude::*;

use crate::toast::builder::BuilderView;
use crate::toast::data::ToastId;
use crate::toaster::context::{
    clear_model, dismiss_model, enqueue_model, found_toast, has_toast, index_of_toast,
    lemma_index_of_toast, next_id, remove_model, signal_model, ToasterModel,
};

verus! {

/// One operation of the registry, at the model level: enqueueing a toast
/// built from a builder, removing one by identifier, setting every clear
/// flag at once, a dismiss click, and the expiry path setting one flag.
pub ghost enum ToasterOp {
    Toast(BuilderView),
    Remove(ToastId),
    Clear,
    Dismiss(ToastId),
    Signal(ToastId),
}

/// The state one operation leads to.
pub open spec fn apply_op(m: ToasterModel, op: ToasterOp) -> ToasterModel {
    match op {
        ToasterOp::Toast(b) => enqueue_model(m, b),
        ToasterOp::Remove(id) => remove_model(m, id),
        ToasterOp::Clear => clear_model(m),
        ToasterOp::Dismiss(id) => dismiss_model(m, id),
        ToasterOp::Signal(id) => signal_model(m, id),
    }
}

/// The state a sequence of operations leads to, applied front to back.
pub open spec fn apply_ops(m: ToasterModel, ops: Seq<ToasterOp>) -> ToasterModel
    decreases ops.len(),
{
    if ops.len() == 0 {
        m
    } else {
        apply_ops(apply_op(m, ops[0]), ops.drop_first())
    }
}

/// The all-time counter never shrinks, and grows by at most one per
/// operation: only an enqueue touches it.
pub proof fn lemma_total_monotonic(m: ToasterModel, ops: Seq<ToasterOp>)
    ensures
        m.total <= apply_ops(m, ops).total <= m.total + ops.len(),
    decreases ops.len(),
{
    if ops.len() > 0 {
        lemma_total_monotonic(apply_op(m, ops[0]), ops.drop_first());
    }
}

/// Every operation preserves well-formedness of the registry state; an
/// enqueue needs the all-time counter not yet exhausted, so that the fresh
/// identifier does not wrap around into one already given out.
pub proof fn lemma_wf_apply_op(m: ToasterModel, op: ToasterOp)
    requires
        m.wf(),
        op is Toast ==> m.total < u64::MAX,
    ensures
        apply_op(m, op).wf(),
{
    let t = m.toasts;
    let after = apply_op(m, op);
    match op {
        ToasterOp::Toast(_) => {
            assert(next_id(m) == m.total + 1);
            assert(after.toasts.len() == t.len() + 1);
            assert forall|i: int, j: int|
                0 <= i < j < after.toasts.len() implies after.toasts[i].id
                != after.toasts[j].id by {
                if j < t.len() {
                    assert(after.toasts[i] == t[i] && after.toasts[j] == t[j]);
                } else {
                    assert(after.toasts[i] == t[i]);
                    assert(after.toasts[j].id == m.total + 1);
                }
            }
        },
        ToasterOp::Remove(id) => {
            if has_toast(t, id) {
                lemma_index_of_toast(t, id);
                let k = index_of_toast(t, id);
                assert forall|i: int|
                    0 <= i < after.toasts.len() implies 1 <= (#[trigger] after.toasts[i]).id
                    <= after.total by {
                    if i < k {
                        assert(after.toasts[i] == t[i]);
                    } else {
                        assert(after.toasts[i] == t[i + 1]);
                    }
                }
                assert forall|i: int, j: int|
                    0 <= i < j < after.toasts.len() implies after.toasts[i].id
                    != after.toasts[j].id by {
                    let io = if i < k {
                        i
                    } else {
                        i + 1
                    };
                    let jo = if j < k {
                        j
                    } else {
                        j + 1
                    };
                    assert(after.toasts[i] == t[io]);
                    assert(after.toasts[j] == t[jo]);
                }
            }
        },
        ToasterOp::Clear => {},
        ToasterOp::Dismiss(_) => {},
        ToasterOp::Signal(_) => {},
    }
}

/// Well-formedness is an invariant of every operation sequence whose
/// enqueues cannot exhaust the all-time counter.
pub proof fn lemma_wf_apply_ops(m: ToasterModel, ops: Seq<ToasterOp>)
    requires
        m.wf(),
        m.total + ops.len() <= u64::MAX,
    ensures
        apply_ops(m, ops).wf(),
    decreases ops.len(),
{
    if ops.len() > 0 {
        lemma_wf_apply_op(m, ops[0]);
        lemma_wf_apply_ops(apply_op(m, ops[0]), ops.drop_first());
    }
}

/// Visible-count invariant: after any sequence of operations on a
/// well-formed state, `visible` equals the number of records in the
/// queue — and, being a count, it can never go negative.
pub proof fn lemma_visible_counts_toasts(m: ToasterModel, ops: Seq<ToasterOp>)
    requires
        m.wf(),
        m.total + ops.len() <= u64::MAX,
    ensures
        apply_ops(m, ops).visible == apply_ops(m, ops).toasts.len(),
{
    lemma_wf_apply_ops(m, ops);
}

/// Identifier uniqueness and monotonicity: whatever operations come
/// between them, a later enqueue returns a strictly larger identifier than
/// an earlier one — identifiers are assigned in call order, pairwise
/// distinct, and never reused. The one bound asks only that the enqueues
/// cannot exhaust the 64-bit all-time counter.
pub proof fn lemma_toast_ids_strictly_increase(m: ToasterModel, b: BuilderView, ops: Seq<ToasterOp>)
    requires
        m.total + ops.len() + 2 <= u64::MAX,
    ensures
        ({
            let id1 = next_id(m);
            let id2 = next_id(apply_ops(enqueue_model(m, b), ops));
            id2 > id1
        }),
{
    lemma_total_monotonic(enqueue_model(m, b), ops);
}

/// A fresh identifier is new: the identifier the next enqueue will return
/// is carried by no active toast of a well-formed state.
pub proof fn lemma_next_id_fresh(m: ToasterModel)
    requires
        m.wf(),
        m.total < u64::MAX,
    ensures
        !has_toast(m.toasts, next_id(m)),
{
}

/// Idempotent removal: removing the same identifier twice leaves exactly
/// the state of removing it once — the second call finds nothing and is a
/// no-op, as is any removal of a never-allocated identifier.
pub proof fn lemma_remove_idempotent(m: ToasterModel, id: ToastId)
    requires
        m.wf(),
    ensures
        remove_model(remove_model(m, id), id) == remove_model(m, id),
{
    if has_toast(m.toasts, id) {
        lemma_index_of_toast(m.toasts, id);
        let t = m.toasts;
        let k = index_of_toast(t, id);
        let after = remove_model(m, id);
        assert forall|i: int| 0 <= i < after.toasts.len() implies (#[trigger] after.toasts[i]).id
            != id by {
            if i < k {
                assert(after.toasts[i] == t[i]);
            } else {
                assert(after.toasts[i] == t[i + 1]);
            }
        }
        assert(!has_toast(after.toasts, id));
    }
}

/// Whether the toast carrying `id` is active with its clear flag set.
pub open spec fn toast_cleared(m: ToasterModel, id: ToastId) -> bool {
    match found_toast(m, id) {
        Some(t) => t.clear_signal,
        None => false,
    }
}

/// Clear-signal write-once, one step: once a toast's clear flag is set, no
/// operation resets it — afterwards the toast is either gone or still
/// cleared.
pub proof fn lemma_clear_signal_write_once(m: ToasterModel, op: ToasterOp, id: ToastId)
    requires
        m.wf(),
        op is Toast ==> m.total < u64::MAX,
        toast_cleared(m, id),
    ensures
        has_toast(apply_op(m, op).toasts, id) ==> toast_cleared(apply_op(m, op), id),
{
    let t = m.toasts;
    let after = apply_op(m, op);
    lemma_index_of_toast(t, id);
    let k = index_of_toast(t, id);
    lemma_wf_apply_op(m, op);
    lemma_index_of_toast(after.toasts, id);
    if has_toast(after.toasts, id) {
        let k2 = index_of_toast(after.toasts, id);
        match op {
            ToasterOp::Toast(_) => {
                assert(after.toasts[k2] == if k2 < t.len() {
                    t[k2]
                } else {
                    after.toasts[t.len() as int]
                });
                assert(after.toasts[t.len() as int].id == m.total + 1);
                assert(k2 < t.len());
                assert(t[k2] == t[k]);
            },
            ToasterOp::Remove(rid) => {
                if has_toast(t, rid) {
                    let r = index_of_toast(t, rid);
                    lemma_index_of_toast(t, rid);
                    let orig = if k2 < r {
                        k2
                    } else {
                        k2 + 1
                    };
                    assert(after.toasts[k2] == t[orig]);
                    assert(t[orig] == t[k]);
                }
            },
            ToasterOp::Clear => {
                assert(after.toasts[k2] == clear_model(m).toasts[k2]);
            },
            ToasterOp::Dismiss(_) => {},
            ToasterOp::Signal(_) => {},
        }
    }
}

/// Clear-signal write-once, any sequence: once set, a toast's clear flag
/// stays set for as long as the toast is active, through every later
/// operation.
pub proof fn lemma_clear_signal_write_once_ops(m: ToasterModel, ops: Seq<ToasterOp>, id: ToastId)
    requires
        m.wf(),
        m.total + ops.len() <= u64::MAX,
        toast_cleared(m, id),
    ensures
        has_toast(apply_ops(m, ops).toasts, id) ==> toast_cleared(apply_ops(m, ops), id),
    decreases ops.len(),
{
    if ops.len() > 0 {
        let m1 = apply_op(m, ops[0]);
        lemma_clear_signal_write_once(m, ops[0], id);
        lemma_wf_apply_op(m, ops[0]);
        if has_toast(m1.toasts, id) {
            lemma_clear_signal_write_once_ops(m1, ops.drop_first(), id);
        } else {
            lemma_gone_stays_gone_ops(m1, ops.drop_first(), id);
        }
    }
}

/// An identifier absent from a well-formed state stays absent under every
/// operation whose enqueues cannot exhaust the all-time counter: removal is
/// final, identifiers are never reused.
pub proof fn lemma_gone_stays_gone(m: ToasterModel, op: ToasterOp, id: ToastId)
    requires
        m.wf(),
        op is Toast ==> m.total < u64::MAX,
        !has_toast(m.toasts, id),
        id <= m.total,
    ensures
        !has_toast(apply_op(m, op).toasts, id),
        id <= apply_op(m, op).total,
{
    let t = m.toasts;
    let after = apply_op(m, op);
    assert forall|i: int| 0 <= i < after.toasts.len() implies (#[trigger] after.toasts[i]).id
        != id by {
        match op {
            ToasterOp::Toast(_) => {
                if i < t.len() {
                    assert(after.toasts[i] == t[i]);
                } else {
                    assert(after.toasts[i].id == m.total + 1);
                }
            },
            ToasterOp::Remove(rid) => {
                if has_toast(t, rid) {
                    lemma_index_of_toast(t, rid);
                    let r = index_of_toast(t, rid);
                    let orig = if i < r {
                        i
                    } else {
                        i + 1
                    };
                    assert(after.toasts[i] == t[orig]);
                } else {
                    assert(after.toasts[i] == t[i]);
                }
            },
            ToasterOp::Clear => {},
            ToasterOp::Dismiss(_) => {},
            ToasterOp::Signal(_) => {},
        }
    }
}

/// `lemma_gone_stays_gone`, extended along a sequence of operations.
pub proof fn lemma_gone_stays_gone_ops(m: ToasterModel, ops: Seq<ToasterOp>, id: ToastId)
    requires
        m.wf(),
        m.total + ops.len() <= u64::MAX,
        !has_toast(m.toasts, id),
        id <= m.total,
    ensures
        !has_toast(apply_ops(m, ops).toasts, id),
    decreases ops.len(),
{
    if ops.len() > 0 {
        lemma_gone_stays_gone(m, ops[0], id);
        lemma_wf_apply_op(m, ops[0]);
        lemma_gone_stays_gone_ops(apply_op(m, ops[0]), ops.drop_first(), id);
    }
}

/// Setting an already-set clear flag is a no-op: the registry state is
/// unchanged, bit for bit.
pub proof fn lemma_signal_again_no_op(m: ToasterModel, id: ToastId)
    requires
        m.wf(),
        toast_cleared(m, id),
    ensures
        signal_model(m, id) == m,
{
    lemma_index_of_toast(m.toasts, id);
    let t = m.toasts;
    let k = index_of_toast(t, id);
    assert forall|i: int| 0 <= i < t.len() implies signal_model(m, id).toasts[i] == t[i] by {
        if t[i].id == id {
            assert(i == k);
            assert(t[i].clear_signal);
        }
    }
    assert(signal_model(m, id).toasts =~= t);
    assert(signal_model(m, id) =~= m);
}

/// A dismiss click on a non-dismissable toast changes nothing: the toast
/// can still only clear through its expiry or a bulk clear.
pub proof fn lemma_dismiss_ignored_when_not_dismissable(m: ToasterModel, id: ToastId)
    requires
        m.wf(),
        (found_toast(m, id) matches Some(t) && !t.dismissable),
    ensures
        dismiss_model(m, id) == m,
{
    lemma_index_of_toast(m.toasts, id);
    let t = m.toasts;
    let k = index_of_toast(t, id);
    assert forall|i: int| 0 <= i < t.len() implies dismiss_model(m, id).toasts[i] == t[i] by {
        if t[i].id == id {
            assert(i == k);
            assert(!t[i].dismissable);
        }
    }
    assert(dismiss_model(m, id).toasts =~= t);
    assert(dismiss_model(m, id) =~= m);
}

} // verus!
