//! The toast registry: owner of the identifier counter, the visible-count
//! statistic, and the insertion-ordered queue of active toasts. All queue
//! mutations go through it, so the queue's invariants (unique identifiers,
//! `visible` equal to the queue length, a clear flag that only ever goes
//! from false to true) hold after every operation.

use vstd::prelude::*;

use crate::toast::builder::{default_builder, built_view, BuilderView, ToastBuilder};
use crate::toast::data::{ToastData, ToastId, ToastLevel, ToastView};

verus! {

/// Registry-internal statistics: the count of toasts not yet removed, and
/// the all-time count, which is also the source of the next identifier.
#[derive(Debug)]
struct ToasterStats {
    visible: u32,
    total: u64,
}

/// The mathematical state of a registry: the queue of active toasts in
/// insertion order, and the two counters.
#[verifier::ext_equal]
pub ghost struct ToasterModel {
    pub toasts: Seq<ToastView>,
    pub visible: nat,
    pub total: nat,
}

impl ToasterModel {
    /// Well-formedness of a registry state: `visible` counts exactly the
    /// active toasts, every identifier was allocated from the all-time
    /// counter, and no two toasts share an identifier.
    pub open spec fn wf(self) -> bool {
        &&& self.visible == self.toasts.len()
        &&& forall|i: int|
            0 <= i < self.toasts.len() ==> 1 <= (#[trigger] self.toasts[i]).id <= self.total
        &&& forall|i: int, j: int|
            0 <= i < j < self.toasts.len() ==> self.toasts[i].id != self.toasts[j].id
    }
}

/// The state of a freshly constructed registry: no toasts, both counters
/// zero.
pub open spec fn empty_model() -> ToasterModel {
    ToasterModel { toasts: Seq::empty(), visible: 0, total: 0 }
}

/// The identifier the next successful enqueue will return.
pub open spec fn next_id(m: ToasterModel) -> ToastId {
    (m.total + 1) as u64
}

/// State after enqueueing a toast built from `b`: the new record, carrying
/// the next identifier, is appended at the tail, and both counters grow by
/// one.
pub open spec fn enqueue_model(m: ToasterModel, b: BuilderView) -> ToasterModel {
    ToasterModel {
        toasts: m.toasts.push(built_view(b, next_id(m))),
        visible: m.visible + 1,
        total: m.total + 1,
    }
}

/// Whether some toast in `q` carries the identifier `id`.
pub open spec fn has_toast(q: Seq<ToastView>, id: ToastId) -> bool {
    exists|i: int| 0 <= i < q.len() && q[i].id == id
}

/// Index of the first toast in `q` carrying `id`, or -1 if there is none.
pub open spec fn index_of_toast(q: Seq<ToastView>, id: ToastId) -> int
    decreases q.len(),
{
    if q.len() == 0 {
        -1
    } else if q[0].id == id {
        0
    } else {
        let r = index_of_toast(q.drop_first(), id);
        if r < 0 {
            -1
        } else {
            r + 1
        }
    }
}

/// `index_of_toast` finds the first occurrence of `id` exactly when
/// `has_toast` holds, and is -1 otherwise.
pub proof fn lemma_index_of_toast(q: Seq<ToastView>, id: ToastId)
    ensures
        has_toast(q, id) ==> {
            let k = index_of_toast(q, id);
            &&& 0 <= k < q.len()
            &&& q[k].id == id
            &&& forall|j: int| 0 <= j < k ==> (#[trigger] q[j]).id != id
        },
        !has_toast(q, id) ==> index_of_toast(q, id) == -1,
    decreases q.len(),
{
    if q.len() == 0 {
    } else if q[0].id == id {
    } else {
        let rest = q.drop_first();
        lemma_index_of_toast(rest, id);
        assert forall|i: int| 0 <= i < q.len() && q[i].id == id implies has_toast(rest, id) by {
            assert(rest[i - 1] == q[i]);
        }
        if has_toast(rest, id) {
            let r = index_of_toast(rest, id);
            assert(q[r + 1] == rest[r]);
            assert(has_toast(q, id));
            assert forall|j: int| 0 <= j < r + 1 implies (#[trigger] q[j]).id != id by {
                if j > 0 {
                    assert(q[j] == rest[j - 1]);
                }
            }
        }
    }
}

/// The record `t` with its clear flag set.
pub open spec fn cleared_view(t: ToastView) -> ToastView {
    ToastView { clear_signal: true, ..t }
}

/// State after a bulk clear: every active toast's clear flag is set; the
/// queue itself and the counters are untouched.
pub open spec fn clear_model(m: ToasterModel) -> ToasterModel {
    ToasterModel { toasts: m.toasts.map_values(|t: ToastView| cleared_view(t)), ..m }
}

/// State after the clear flag of the toast carrying `id` is set (the
/// write-once transition of its lifecycle); a no-op on an absent identifier
/// or an already-set flag.
pub open spec fn signal_model(m: ToasterModel, id: ToastId) -> ToasterModel {
    ToasterModel {
        toasts: m.toasts.map_values(
            |t: ToastView|
                if t.id == id {
                    cleared_view(t)
                } else {
                    t
                },
        ),
        ..m
    }
}

/// State after a dismiss click on the toast carrying `id`: as
/// `signal_model`, but only a dismissable toast reacts.
pub open spec fn dismiss_model(m: ToasterModel, id: ToastId) -> ToasterModel {
    ToasterModel {
        toasts: m.toasts.map_values(
            |t: ToastView|
                if t.id == id && t.dismissable {
                    cleared_view(t)
                } else {
                    t
                },
        ),
        ..m
    }
}

/// State after removing the toast carrying `id`: the record leaves the
/// queue and `visible` shrinks by one; a no-op on an absent identifier.
pub open spec fn remove_model(m: ToasterModel, id: ToastId) -> ToasterModel {
    if has_toast(m.toasts, id) {
        ToasterModel {
            toasts: m.toasts.remove(index_of_toast(m.toasts, id)),
            visible: (m.visible - 1) as nat,
            total: m.total,
        }
    } else {
        m
    }
}

/// The record currently carrying `id`, if any.
pub open spec fn found_toast(m: ToasterModel, id: ToastId) -> Option<ToastView> {
    if has_toast(m.toasts, id) {
        Some(m.toasts[index_of_toast(m.toasts, id)])
    } else {
        None
    }
}

/// The registry ("toaster"). A single flat, insertion-ordered queue holds
/// the active toasts of all four corners; the positional split is a pure
/// projection over it. Share one value of this type among all call sites
/// and serialize mutations through it: identifiers are then assigned in
/// strict call order.
#[derive(Debug)]
pub struct ToasterContext {
    stats: ToasterStats,
    queue: Vec<ToastData>,
}

impl View for ToasterContext {
    type V = ToasterModel;

    closed spec fn view(&self) -> ToasterModel {
        ToasterModel {
            toasts: self.queue@.map_values(|t: ToastData| t@),
            visible: self.stats.visible as nat,
            total: self.stats.total as nat,
        }
    }
}

impl Default for ToasterContext {
    /// A fresh registry: empty queue, both counters zero.
    fn default() -> (r: Self)
        ensures
            r@ == empty_model(),
    {
        let r = ToasterContext { stats: ToasterStats { visible: 0, total: 0 }, queue: Vec::new() };
        proof {
            assert(r@.toasts =~= empty_model().toasts);
            assert(r@ =~= empty_model());
        }
        r
    }
}

impl ToasterContext {
    /// Adds the toast built from the supplied builder to the queue, under a
    /// newly allocated identifier, and returns that identifier. Identifiers
    /// are strictly increasing across calls and never reused, even after
    /// removal.
    pub fn toast(&mut self, builder: ToastBuilder) -> (id: ToastId)
        requires
            old(self)@.wf(),
            old(self)@.total < u64::MAX,
            old(self)@.visible < u32::MAX,
        ensures
            final(self)@ == enqueue_model(old(self)@, builder@),
            final(self)@.wf(),
            id == next_id(old(self)@),
    {
        let id = self.stats.total + 1;
        let toast = builder.build(id);
        self.queue.push(toast);
        self.stats.visible = self.stats.visible + 1;
        self.stats.total = self.stats.total + 1;
        proof {
            assert(self@.toasts =~= enqueue_model(old(self)@, builder@).toasts);
            assert(self@ =~= enqueue_model(old(self)@, builder@));
        }
        id
    }

    /// Quickly enqueues an `info` toast with default parameters. For more
    /// customization, use the `toast` function.
    pub fn info(&mut self, message: &str)
        requires
            old(self)@.wf(),
            old(self)@.total < u64::MAX,
            old(self)@.visible < u32::MAX,
        ensures
            final(self)@ == enqueue_model(old(self)@, default_builder(message@)),
            final(self)@.wf(),
    {
        self.toast(ToastBuilder::new(message).with_level(ToastLevel::Info));
    }

    /// Quickly enqueues a `success` toast with default parameters. For more
    /// customization, use the `toast` function.
    pub fn success(&mut self, message: &str)
        requires
            old(self)@.wf(),
            old(self)@.total < u64::MAX,
            old(self)@.visible < u32::MAX,
        ensures
            final(self)@ == enqueue_model(
                old(self)@,
                (BuilderView { level: ToastLevel::Success, ..default_builder(message@) }),
            ),
            final(self)@.wf(),
    {
        self.toast(ToastBuilder::new(message).with_level(ToastLevel::Success));
    }

    /// Quickly enqueues a `warn` toast with default parameters. For more
    /// customization, use the `toast` function.
    pub fn warn(&mut self, message: &str)
        requires
            old(self)@.wf(),
            old(self)@.total < u64::MAX,
            old(self)@.visible < u32::MAX,
        ensures
            final(self)@ == enqueue_model(
                old(self)@,
                (BuilderView { level: ToastLevel::Warn, ..default_builder(message@) }),
            ),
            final(self)@.wf(),
    {
        self.toast(ToastBuilder::new(message).with_level(ToastLevel::Warn));
    }

    /// Quickly enqueues an `error` toast with default parameters. For more
    /// customization, use the `toast` function.
    pub fn error(&mut self, message: &str)
        requires
            old(self)@.wf(),
            old(self)@.total < u64::MAX,
            old(self)@.visible < u32::MAX,
        ensures
            final(self)@ == enqueue_model(
                old(self)@,
                (BuilderView { level: ToastLevel::Error, ..default_builder(message@) }),
            ),
            final(self)@.wf(),
    {
        self.toast(ToastBuilder::new(message).with_level(ToastLevel::Error));
    }

    /// Sets the clear flag on every currently visible toast, without
    /// removing any of them: removal follows through each toast's own
    /// lifecycle reacting to the flag, so bulk-cleared toasts take the same
    /// exit path as individually cleared ones.
    pub fn clear(&mut self)
        requires
            old(self)@.wf(),
        ensures
            final(self)@ == clear_model(old(self)@),
            final(self)@.wf(),
    {
        let mut i: usize = 0;
        while i < self.queue.len()
            invariant
                i <= self.queue.len(),
                self.stats == old(self).stats,
                self.queue.len() == old(self).queue.len(),
                forall|j: int|
                    0 <= j < i ==> (#[trigger] self.queue@[j])@ == cleared_view(
                        old(self).queue@[j]@,
                    ),
                forall|j: int| i <= j < self.queue.len() ==> self.queue@[j] == old(self).queue@[j],
            decreases self.queue.len() - i,
        {
            self.queue[i].clear_signal = true;
            i = i + 1;
        }
        proof {
            assert(self@.toasts =~= clear_model(old(self)@).toasts);
            assert(self@ =~= clear_model(old(self)@));
        }
    }

    /// Locates the toast carrying the supplied identifier in the queue, as
    /// the index of its first (with unique identifiers: only) occurrence.
    fn find_index(&self, toast_id: ToastId) -> (r: Option<usize>)
        ensures
            r matches Some(k) ==> (k < self.queue.len() && has_toast(self@.toasts, toast_id)
                && k as int == index_of_toast(self@.toasts, toast_id) && self@.toasts[k as int].id
                == toast_id),
            r is None ==> !has_toast(self@.toasts, toast_id),
    {
        let n = self.queue.len();
        let mut i: usize = 0;
        while i < n
            invariant
                i <= n,
                n == self.queue.len(),
                forall|j: int| 0 <= j < i ==> (#[trigger] self.queue@[j])@.id != toast_id,
            decreases n - i,
        {
            if self.queue[i].id == toast_id {
                proof {
                    let q = self@.toasts;
                    assert(q[i as int] == self.queue@[i as int]@);
                    assert(has_toast(q, toast_id));
                    lemma_index_of_toast(q, toast_id);
                    let k = index_of_toast(q, toast_id);
                    if k < i as int {
                        assert(q[k] == self.queue@[k]@);
                        assert(false);
                    } else if k > i as int {
                        assert(q[i as int].id != toast_id);
                        assert(false);
                    }
                }
                return Some(i);
            }
            i = i + 1;
        }
        proof {
            assert forall|idx: int| 0 <= idx < self@.toasts.len() implies (#[trigger] self@.toasts[idx]).id
                != toast_id by {
                assert(self@.toasts[idx] == self.queue@[idx]@);
            }
        }
        None
    }

    /// Removes the toast carrying the supplied identifier from the queue
    /// and decrements `visible`. Removing an absent (or already removed)
    /// identifier is a silent no-op: removal is idempotent.
    pub fn remove(&mut self, toast_id: ToastId)
        requires
            old(self)@.wf(),
        ensures
            final(self)@ == remove_model(old(self)@, toast_id),
            final(self)@.wf(),
    {
        if let Some(k) = self.find_index(toast_id) {
            self.queue.remove(k);
            self.stats.visible = self.stats.visible - 1;
            proof {
                assert(self@.toasts =~= remove_model(old(self)@, toast_id).toasts);
                assert(self@ =~= remove_model(old(self)@, toast_id));
            }
        }
    }

    /// Sets the clear flag of the toast carrying the supplied identifier,
    /// beginning its exit transition. The flag only ever goes from false to
    /// true: setting it again, or on an absent identifier, changes nothing.
    /// Returns whether this call newly set the flag.
    pub fn set_clear_signal(&mut self, toast_id: ToastId) -> (newly_set: bool)
        requires
            old(self)@.wf(),
        ensures
            final(self)@ == signal_model(old(self)@, toast_id),
            final(self)@.wf(),
            newly_set == match found_toast(old(self)@, toast_id) {
                Some(t) => !t.clear_signal,
                None => false,
            },
    {
        if let Some(k) = self.find_index(toast_id) {
            let newly_set = !self.queue[k].clear_signal;
            self.queue[k].clear_signal = true;
            proof {
                assert(self@.toasts =~= signal_model(old(self)@, toast_id).toasts);
                assert(self@ =~= signal_model(old(self)@, toast_id));
            }
            newly_set
        } else {
            proof {
                assert(self@.toasts =~= signal_model(old(self)@, toast_id).toasts);
                assert(self@ =~= signal_model(old(self)@, toast_id));
            }
            false
        }
    }

    /// Handles a dismiss click on the toast carrying the supplied
    /// identifier: sets its clear flag, but only if the toast was built
    /// dismissable. A non-dismissable toast, and an absent identifier,
    /// ignore the click. Returns whether this call newly set the flag.
    pub fn dismiss(&mut self, toast_id: ToastId) -> (newly_set: bool)
        requires
            old(self)@.wf(),
        ensures
            final(self)@ == dismiss_model(old(self)@, toast_id),
            final(self)@.wf(),
            newly_set == match found_toast(old(self)@, toast_id) {
                Some(t) => t.dismissable && !t.clear_signal,
                None => false,
            },
    {
        if let Some(k) = self.find_index(toast_id) {
            if !self.queue[k].dismissable {
                proof {
                    assert(self@.toasts =~= dismiss_model(old(self)@, toast_id).toasts);
                    assert(self@ =~= dismiss_model(old(self)@, toast_id));
                }
                return false;
            }
            let newly_set = !self.queue[k].clear_signal;
            self.queue[k].clear_signal = true;
            proof {
                assert(self@.toasts =~= dismiss_model(old(self)@, toast_id).toasts);
                assert(self@ =~= dismiss_model(old(self)@, toast_id));
            }
            newly_set
        } else {
            proof {
                assert(self@.toasts =~= dismiss_model(old(self)@, toast_id).toasts);
                assert(self@ =~= dismiss_model(old(self)@, toast_id));
            }
            false
        }
    }

    /// Reads the clear flag of the toast carrying the supplied identifier,
    /// or `None` if no such toast is active.
    pub fn clear_signal(&self, toast_id: ToastId) -> (r: Option<bool>)
        ensures
            r == match found_toast(self@, toast_id) {
                Some(t) => Some(t.clear_signal),
                None => None::<bool>,
            },
    {
        if let Some(k) = self.find_index(toast_id) {
            Some(self.queue[k].clear_signal)
        } else {
            None
        }
    }

    /// The queue of active toasts, in insertion order: the read-only view a
    /// renderer subscribes to.
    pub fn queue(&self) -> (q: &Vec<ToastData>)
        ensures
            q@.map_values(|t: ToastData| t@) == self@.toasts,
    {
        &self.queue
    }

    /// The count of toasts not yet removed.
    pub fn visible(&self) -> (r: u32)
        ensures
            r == self@.visible,
    {
        self.stats.visible
    }

    /// The all-time count of enqueued toasts.
    pub fn total(&self) -> (r: u64)
        ensures
            r == self@.total,
    {
        self.stats.total
    }
}

} // verus!
