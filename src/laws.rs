//! Properties that hold of every input, stated over the same spec functions
//! that the operations' contracts use.

use vstd::prelude::*;

use crate::api::WsEvent;
use crate::engine::{seek_completed_post, session_text, task_state_changed_post, window_full, Effect, Engine};
use crate::state::{
    fresh_pending, is_needed, is_stale, lists_needed, pending_added, push_applied, stale_purged,
    window_end, SegmentTask, TaskState,
};

verus! {

/// The window never reaches below the cursor, nor to or past the last
/// segment, and never names an index that already has an entry.
pub proof fn prefetch_stays_in_bounds(r: Seq<u32>, cursor: u32, ahead: u32, total: u32, dom: Set<u32>)
    requires
        lists_needed(r, cursor, ahead, total, dom),
    ensures
        forall|j: int| 0 <= j < r.len() ==> cursor <= #[trigger] r[j] < total && !dom.contains(r[j]),
{
    assert forall|j: int| 0 <= j < r.len() implies cursor <= #[trigger] r[j] < total && !dom.contains(r[j]) by {
        assert(is_needed(r[j] as int, cursor, ahead, total, dom));
    }
}

/// Computing the window twice over the same table gives the same indices,
/// in the same order.
pub proof fn prefetch_is_idempotent(r1: Seq<u32>, r2: Seq<u32>, cursor: u32, ahead: u32, total: u32, dom: Set<u32>)
    requires
        lists_needed(r1, cursor, ahead, total, dom),
        lists_needed(r2, cursor, ahead, total, dom),
    ensures
        r1 == r2,
{
    sorted_lists_agree(r1, r2, cursor, ahead, total, dom);
    sorted_lists_agree(r2, r1, cursor, ahead, total, dom);
    assert(r1 =~= r2);
}

/// Two increasing lists of the same indices agree on every position of the
/// shorter one, and the first is no longer than the second.
proof fn sorted_lists_agree(r1: Seq<u32>, r2: Seq<u32>, cursor: u32, ahead: u32, total: u32, dom: Set<u32>)
    requires
        lists_needed(r1, cursor, ahead, total, dom),
        lists_needed(r2, cursor, ahead, total, dom),
    ensures
        r1.len() <= r2.len(),
        forall|i: int| 0 <= i < r1.len() ==> r1[i] == r2[i],
{
    assert forall|i: int| 0 <= i < r1.len() && i < r2.len() implies r1[i] == r2[i] by {
        first_difference(r1, r2, cursor, ahead, total, dom, i);
    }
    if r1.len() > r2.len() {
        let n = r2.len() as int;
        let x = r1[n];
        assert(is_needed(x as int, cursor, ahead, total, dom));
        assert(r2.contains(x));
        let j = choose|j: int| 0 <= j < r2.len() && r2[j] == x;
        first_difference(r1, r2, cursor, ahead, total, dom, j);
        assert(r1[j] == r2[j]);
        assert(r1[j] < r1[n]);
    }
}

/// By induction on `i`: two increasing lists of the same indices agree up to `i`.
proof fn first_difference(
    r1: Seq<u32>,
    r2: Seq<u32>,
    cursor: u32,
    ahead: u32,
    total: u32,
    dom: Set<u32>,
    i: int,
)
    requires
        lists_needed(r1, cursor, ahead, total, dom),
        lists_needed(r2, cursor, ahead, total, dom),
        0 <= i < r1.len(),
        i < r2.len(),
    ensures
        forall|k: int| 0 <= k <= i ==> r1[k] == r2[k],
    decreases i,
{
    if i > 0 {
        first_difference(r1, r2, cursor, ahead, total, dom, i - 1);
    }
    let a = r1[i];
    let b = r2[i];
    if a != b {
        assert(is_needed(a as int, cursor, ahead, total, dom));
        assert(is_needed(b as int, cursor, ahead, total, dom));
        assert(r2.contains(a));
        assert(r1.contains(b));
        let ja = choose|j: int| 0 <= j < r2.len() && r2[j] == a;
        let jb = choose|j: int| 0 <= j < r1.len() && r1[j] == b;
        if a < b {
            if ja < i {
                assert(r1[ja] == r2[ja]);
            }
        } else {
            if jb < i {
                assert(r1[jb] == r2[jb]);
            }
        }
    }
}

/// Once the indices that the window needed have Pending entries, the window
/// needs nothing more: a second computation before any change is empty.
pub proof fn submitted_window_is_full(
    before: Map<u32, SegmentTask>,
    after: Map<u32, SegmentTask>,
    r: Seq<u32>,
    sid: Seq<char>,
    cursor: u32,
    ahead: u32,
    total: u32,
    now: u64,
)
    requires
        lists_needed(r, cursor, ahead, total, before.dom()),
        pending_added(before, after, sid, r, now),
    ensures
        window_full(cursor, ahead, total, after.dom()),
{
    assert forall|i: u32| !is_needed(i as int, cursor, ahead, total, after.dom()) by {
        if is_needed(i as int, cursor, ahead, total, before.dom()) {
            assert(r.contains(i));
            assert(r.to_set().contains(i));
        }
    }
}

/// Adding the same Pending indices a second time changes nothing: every
/// entry, its stamp included, stays as the first call left it.
pub proof fn add_pending_twice_is_noop(
    m0: Map<u32, SegmentTask>,
    m1: Map<u32, SegmentTask>,
    m2: Map<u32, SegmentTask>,
    sid: Seq<char>,
    idx: Seq<u32>,
    t1: u64,
    t2: u64,
)
    requires
        pending_added(m0, m1, sid, idx, t1),
        pending_added(m1, m2, sid, idx, t2),
    ensures
        m2 == m1,
{
    assert(m2.dom() =~= m1.dom());
    assert(m2 =~= m1);
}

/// A push notification of a session other than the active one leaves the
/// table exactly as it was.
pub proof fn foreign_push_leaves_table(
    before: Map<u32, SegmentTask>,
    after: Map<u32, SegmentTask>,
    active: Seq<char>,
    event: WsEvent,
    now: u64,
)
    requires
        push_applied(before, after, active, event, now),
        event matches WsEvent::TaskStateChanged { session_id, .. } && session_id@ != active,
    ensures
        after == before,
{
}

/// The engine drops a push notification of a session other than the active
/// one: its table stays as it was, and nothing is requested.
pub proof fn foreign_push_leaves_engine(pre: Engine, post: Engine, effs: Seq<Effect>, event: WsEvent, now: u64)
    requires
        task_state_changed_post(pre, post, effs, event, now),
        event matches WsEvent::TaskStateChanged { session_id, .. } && session_text(pre.current_session)
            != Some(session_id@),
    ensures
        post.table() == pre.table(),
        effs.len() == 0,
{
}

/// The stale purge removes every Pending entry older than the timeout, and
/// never an entry in any other state, whatever its age.
pub proof fn purge_removes_only_stale_pending(
    before: Map<u32, SegmentTask>,
    after: Map<u32, SegmentTask>,
    timeout_ms: u64,
    now: u64,
)
    requires
        stale_purged(before, after, timeout_ms, now),
    ensures
        forall|k: u32|
            before.contains_key(k) && before[k].state == TaskState::Pending && now > before[k].created_at
                && now - before[k].created_at > timeout_ms ==> !#[trigger] after.contains_key(k),
        forall|k: u32|
            before.contains_key(k) && before[k].state != TaskState::Pending ==> #[trigger] after.contains_key(k)
                && after[k] == before[k],
{
    assert forall|k: u32| before.contains_key(k) && before[k].state != TaskState::Pending implies
        #[trigger] after.contains_key(k) && after[k] == before[k] by {
        assert(!is_stale(before[k], timeout_ms, now));
    }
}

/// After an acknowledged seek of the active session, the table holds only
/// fresh Pending entries of the new window: nothing of the old one survives.
pub proof fn seek_keeps_no_old_entry(
    pre: Engine,
    post: Engine,
    effs: Seq<Effect>,
    session_id: String,
    current_index: u32,
    now: u64,
)
    requires
        seek_completed_post(pre, post, effs, session_id, current_index, now),
        session_text(pre.current_session) == Some(session_id@),
    ensures
        forall|k: u32| #[trigger] post.table().contains_key(k) ==> current_index <= k < window_end(
            current_index,
            pre.ahead(),
            pre.total_segments,
        ) && fresh_pending(post.table()[k], session_id@, k, now),
{
    let m = post.table();
    assert forall|k: u32| #[trigger] m.contains_key(k) implies current_index <= k < window_end(
        current_index,
        pre.ahead(),
        pre.total_segments,
    ) && fresh_pending(m[k], session_id@, k, now) by {
        if window_full(current_index, pre.ahead(), pre.total_segments, Set::empty()) {
            assert(m == Map::<u32, SegmentTask>::empty());
        } else {
            match effs[0] {
                Effect::Api(crate::engine::ApiRequest::SubmitInfer { session_id: s, segment_indices }) => {
                    let r = segment_indices@;
                    assert(r.to_set().contains(k));
                    let j = choose|j: int| 0 <= j < r.len() && r[j] == k;
                    let (a, t) = (pre.ahead(), pre.total_segments);
                    assert(is_needed(r[j] as int, current_index, a, t, Set::empty()));
                },
                _ => {},
            }
        }
    }
}

} // verus!
