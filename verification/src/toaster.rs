//! The toaster: installing and fetching a shared registry, the pure
//! positional projection that partitions the flat queue into per-corner
//! display order, and the presentation queries a renderer derives from a
//! corner.

pub mod context;
pub mod laws;

use vstd::prelude::*;

use crate::toast::data::{ToastData, ToastPosition, ToastView};
use crate::toaster::context::ToasterContext;

verus! {

/// Installs a fresh registry into the supplied slot, unless one is already
/// installed: a second installation attempt is a no-op, preserving the
/// first-installed instance.
pub fn provide_toaster(slot: &mut Option<ToasterContext>)
    ensures
        *old(slot) is Some ==> *final(slot) == *old(slot),
        *old(slot) is None ==> (*final(slot) matches Some(t) && t@ == context::empty_model()),
{
    if slot.is_none() {
        *slot = Some(ToasterContext::default());
    }
}

/// Fetches the installed registry from the supplied slot. Requesting the
/// registry before one was installed is a programming error of the
/// integrating application, not a recoverable condition, so a caller must
/// establish that the slot is filled (and abort with a diagnostic where it
/// cannot).
#[must_use]
pub fn expect_toaster(slot: &Option<ToasterContext>) -> (r: &ToasterContext)
    requires
        slot is Some,
    ensures
        Some(*r) == *slot,
{
    match slot {
        Some(t) => t,
        None => vstd::pervasive::unreached(),
    }
}

/// The mathematical value of a queue of records.
pub open spec fn views_of(q: Seq<ToastData>) -> Seq<ToastView> {
    q.map_values(|t: ToastData| t@)
}

/// Whether a corner anchors its queue at the top of the screen.
pub open spec fn is_top_position(position: ToastPosition) -> bool {
    position == ToastPosition::TopLeft || position == ToastPosition::TopRight
}

/// The toasts of a queue that sit in the given corner, in insertion order.
pub open spec fn matching_toasts(q: Seq<ToastView>, position: ToastPosition) -> Seq<ToastView> {
    q.filter(|t: ToastView| t.position == position)
}

/// The per-corner display order of a queue: the toasts of that corner, with
/// top-anchored corners reversed (most recent toast nearest the anchor
/// edge) while bottom-anchored corners keep insertion order (most recent
/// toast nearest the bottom edge) — in every corner the newest toast
/// appears closest to the screen edge it slides in from.
pub open spec fn project_model(q: Seq<ToastView>, position: ToastPosition) -> Seq<ToastView> {
    if is_top_position(position) {
        matching_toasts(q, position).reverse()
    } else {
        matching_toasts(q, position)
    }
}

/// Whether some toast of the queue sits in the given corner.
pub open spec fn has_position(q: Seq<ToastView>, position: ToastPosition) -> bool {
    exists|i: int| 0 <= i < q.len() && q[i].position == position
}

/// Partitions and orders the registry's queue for one corner: the records
/// whose position matches, in display order (see `project_model`).
pub fn project(queue: &Vec<ToastData>, position: &ToastPosition) -> (r: Vec<ToastData>)
    ensures
        views_of(r@) == project_model(views_of(queue@), *position),
{
    let ghost qv = views_of(queue@);
    let mut same: Vec<ToastData> = Vec::new();
    let n = queue.len();
    let mut i: usize = 0;
    while i < n
        invariant
            i <= n,
            n == queue.len(),
            qv == views_of(queue@),
            views_of(same@) == matching_toasts(qv.subrange(0, i as int), *position),
        decreases n - i,
    {
        proof {
            reveal(Seq::filter);
            assert(qv.subrange(0, i as int + 1).drop_last() =~= qv.subrange(0, i as int));
            assert(qv.subrange(0, i as int + 1).last() == qv[i as int]);
            assert(qv[i as int] == queue@[i as int]@);
        }
        if queue[i].position == *position {
            same.push(queue[i].clone());
            proof {
                assert(views_of(same@) =~= matching_toasts(qv.subrange(0, i as int + 1), *position));
            }
        } else {
            proof {
                assert(views_of(same@) =~= matching_toasts(qv.subrange(0, i as int + 1), *position));
            }
        }
        i = i + 1;
    }
    proof {
        assert(qv.subrange(0, n as int) =~= qv);
    }
    if !position_is_top(position) {
        return same;
    }
    let mut flipped: Vec<ToastData> = Vec::new();
    let m = same.len();
    let mut j: usize = m;
    while j > 0
        invariant
            j <= m,
            m == same.len(),
            views_of(same@) == matching_toasts(qv, *position),
            flipped.len() == m - j,
            forall|k: int| 0 <= k < flipped@.len() ==> (#[trigger] flipped@[k])@ == same@[m - 1 - k]@,
        decreases j,
    {
        j = j - 1;
        flipped.push(same[j].clone());
    }
    proof {
        assert forall|k: int|
            0 <= k < flipped@.len() implies views_of(flipped@)[k] == matching_toasts(
            qv,
            *position,
        ).reverse()[k] by {
            assert(views_of(same@)[m - 1 - k] == same@[m - 1 - k]@);
        }
        assert(views_of(flipped@) =~= matching_toasts(qv, *position).reverse());
    }
    flipped
}

/// Whether a corner anchors its queue at the top of the screen.
pub fn position_is_top(position: &ToastPosition) -> (r: bool)
    ensures
        r == is_top_position(*position),
{
    match position {
        ToastPosition::TopLeft | ToastPosition::TopRight => true,
        ToastPosition::BottomLeft | ToastPosition::BottomRight => false,
    }
}

/// Whether a corner of the screen currently shows no toast: a cheap
/// existence check, used to avoid rendering an empty container element.
pub fn is_container_empty(queue: &Vec<ToastData>, position: &ToastPosition) -> (r: bool)
    ensures
        r == !has_position(views_of(queue@), *position),
{
    let ghost qv = views_of(queue@);
    let n = queue.len();
    let mut i: usize = 0;
    while i < n
        invariant
            i <= n,
            n == queue.len(),
            qv == views_of(queue@),
            forall|j: int| 0 <= j < i ==> (#[trigger] queue@[j])@.position != *position,
        decreases n - i,
    {
        if queue[i].position == *position {
            proof {
                assert(qv[i as int] == queue@[i as int]@);
                assert(has_position(qv, *position));
            }
            return false;
        }
        i = i + 1;
    }
    proof {
        assert forall|j: int| 0 <= j < qv.len() implies (#[trigger] qv[j]).position != *position by {
            assert(qv[j] == queue@[j]@);
        }
    }
    true
}

/// An empty corner is exactly a corner whose projection is empty: the
/// existence check and the projection agree.
pub proof fn lemma_container_empty_iff_projection_empty(q: Seq<ToastView>, position: ToastPosition)
    ensures
        has_position(q, position) <==> project_model(q, position).len() != 0,
{
    let pred = |t: ToastView| t.position == position;
    if has_position(q, position) {
        let i = choose|i: int| 0 <= i < q.len() && q[i].position == position;
        q.lemma_filter_contains(pred, i);
        assert(matching_toasts(q, position).contains(q[i]));
    } else {
        assert forall|i: int| 0 <= i < q.len() implies !pred(#[trigger] q[i]) by {}
        q.lemma_all_neg_filter_empty(pred);
    }
}

/// Identifier of a corner's container element.
pub open spec fn spec_container_id(position: ToastPosition) -> Seq<char> {
    match position {
        ToastPosition::TopLeft => "top_left"@,
        ToastPosition::TopRight => "top_right"@,
        ToastPosition::BottomRight => "bottom_right"@,
        ToastPosition::BottomLeft => "bottom_left"@,
    }
}

/// Picks the identifier of a corner's container element.
pub fn get_container_id(position: &ToastPosition) -> (r: &'static str)
    ensures
        r@ == spec_container_id(*position),
{
    match position {
        ToastPosition::TopLeft => "top_left",
        ToastPosition::TopRight => "top_right",
        ToastPosition::BottomRight => "bottom_right",
        ToastPosition::BottomLeft => "bottom_left",
    }
}

/// Inset of a corner's container element, pinning it to its corner.
pub open spec fn spec_container_inset(position: ToastPosition) -> Seq<char> {
    match position {
        ToastPosition::TopLeft => "0 auto auto 0"@,
        ToastPosition::TopRight => "0 0 auto auto"@,
        ToastPosition::BottomRight => "auto 0 0 auto"@,
        ToastPosition::BottomLeft => "auto 0 0 0"@,
    }
}

/// Picks the inset of a corner's container element.
pub fn get_container_inset(position: &ToastPosition) -> (r: &'static str)
    ensures
        r@ == spec_container_inset(*position),
{
    match position {
        ToastPosition::TopLeft => "0 auto auto 0",
        ToastPosition::TopRight => "0 0 auto auto",
        ToastPosition::BottomRight => "auto 0 0 auto",
        ToastPosition::BottomLeft => "auto 0 0 0",
    }
}

/// Margin of a corner's container element, keeping it off the side edge.
pub open spec fn spec_container_margin(position: ToastPosition) -> Seq<char> {
    match position {
        ToastPosition::TopLeft => "0 0 0 12px"@,
        ToastPosition::BottomLeft => "0 0 0 12px"@,
        ToastPosition::TopRight => "0 12px 0 0"@,
        ToastPosition::BottomRight => "0 12px 0 0"@,
    }
}

/// Picks the margin of a corner's container element.
pub fn get_container_margin(position: &ToastPosition) -> (r: &'static str)
    ensures
        r@ == spec_container_margin(*position),
{
    match position {
        ToastPosition::TopLeft | ToastPosition::BottomLeft => "0 0 0 12px",
        ToastPosition::TopRight | ToastPosition::BottomRight => "0 12px 0 0",
    }
}

/// Class of a corner's container element: in stacked mode the class that
/// layers same-corner toasts with decreasing prominence by recency, anchored
/// to the corner's edge; no class otherwise.
pub open spec fn spec_container_class(stacked: bool, position: ToastPosition) -> Option<Seq<char>> {
    if !stacked {
        None
    } else if is_top_position(position) {
        Some("leptoaster-stack-container-top"@)
    } else {
        Some("leptoaster-stack-container-bottom"@)
    }
}

/// Picks the class of a corner's container element.
pub fn get_container_class(stacked: bool, position: &ToastPosition) -> (r: Option<&'static str>)
    ensures
        (match r {
            Some(s) => Some(s@),
            None => None,
        }) == spec_container_class(stacked, *position),
{
    if !stacked {
        return None;
    }
    match position {
        ToastPosition::BottomLeft | ToastPosition::BottomRight => Some(
            "leptoaster-stack-container-bottom",
        ),
        ToastPosition::TopLeft | ToastPosition::TopRight => Some("leptoaster-stack-container-top"),
    }
}

} // verus!
