//! The per-segment task table, its prefetch window, and the session and
//! playback types that the engine keeps beside it.

use std::collections::HashMap;
use vstd::prelude::*;
use vstd::std_specs::iter::IteratorSpec;

use crate::api::{TaskInfo, WsEvent};

verus! {

broadcast use vstd::std_specs::hash::group_hash_axioms;

/// State of one synthesis task, as the service reports it.
#[derive(Debug, Clone, Copy, PartialEq, Eq, Structural)]
pub enum TaskState {
    Pending,
    Inferring,
    Ready,
    Failed,
    Cancelled,
}

/// The state that a wire name stands for; an unknown name reads as `Pending`.
pub open spec fn wire_state(s: Seq<char>) -> TaskState {
    if s == "pending"@ {
        TaskState::Pending
    } else if s == "inferring"@ {
        TaskState::Inferring
    } else if s == "ready"@ {
        TaskState::Ready
    } else if s == "failed"@ {
        TaskState::Failed
    } else if s == "cancelled"@ {
        TaskState::Cancelled
    } else {
        TaskState::Pending
    }
}

/// Whether two string slices hold the same characters.
pub fn same_text(a: &str, b: &str) -> (r: bool)
    ensures
        r == (a@ == b@),
{
    let x: String = a.to_owned();
    let y: String = b.to_owned();
    x.eq(&y)
}

impl<'a> From<&'a str> for TaskState {
    fn from(s: &'a str) -> (r: TaskState) {
        if same_text(s, "pending") {
            TaskState::Pending
        } else if same_text(s, "inferring") {
            TaskState::Inferring
        } else if same_text(s, "ready") {
            TaskState::Ready
        } else if same_text(s, "failed") {
            TaskState::Failed
        } else if same_text(s, "cancelled") {
            TaskState::Cancelled
        } else {
            TaskState::Pending
        }
    }
}

impl<'a> vstd::std_specs::convert::FromSpecImpl<&'a str> for TaskState {
    open spec fn obeys_from_spec() -> bool {
        true
    }

    open spec fn from_spec(s: &'a str) -> TaskState {
        wire_state(s@)
    }
}

/// The characters of an optional string.
pub open spec fn opt_text(o: Option<String>) -> Option<Seq<char>> {
    match o {
        Some(s) => Some(s@),
        None => None,
    }
}

/// A copy of an optional string.
pub fn copy_opt_text(o: &Option<String>) -> (r: Option<String>)
    ensures
        opt_text(r) == opt_text(*o),
{
    match o {
        Some(s) => Some(s.clone()),
        None => None,
    }
}

/// One segment's synthesis task. `created_at` is a millisecond timestamp,
/// set on creation and refreshed by each confirmed push update.
#[derive(Debug, Clone)]
pub struct SegmentTask {
    pub session_id: String,
    pub task_id: String,
    pub segment_index: u32,
    pub state: TaskState,
    pub duration_ms: Option<u32>,
    pub error: Option<String>,
    pub created_at: u64,
}

/// A freshly submitted entry: Pending, no task id yet, stamped `now`.
pub open spec fn fresh_pending(t: SegmentTask, sid: Seq<char>, k: u32, now: u64) -> bool {
    &&& t.session_id@ == sid
    &&& t.task_id@ == Seq::<char>::empty()
    &&& t.segment_index == k
    &&& t.state == TaskState::Pending
    &&& t.duration_ms is None
    &&& t.error is None
    &&& t.created_at == now
}

/// `after` is `before` with a fresh Pending entry for each index of `idx`
/// that `before` lacks; entries already present are untouched.
pub open spec fn pending_added(
    before: Map<u32, SegmentTask>,
    after: Map<u32, SegmentTask>,
    sid: Seq<char>,
    idx: Seq<u32>,
    now: u64,
) -> bool {
    &&& after.dom() == before.dom().union(idx.to_set())
    &&& forall|k: u32| before.contains_key(k) ==> #[trigger] after[k] == before[k]
    &&& forall|k: u32|
        after.contains_key(k) && !before.contains_key(k) ==> fresh_pending(
            #[trigger] after[k],
            sid,
            k,
            now,
        )
}

/// One past the last index of the window: `min(cursor + ahead + 1, total)`.
pub open spec fn window_end(cursor: u32, ahead: u32, total: u32) -> int {
    let e = cursor + ahead + 1;
    if e < total {
        e
    } else {
        total as int
    }
}

/// Index `i` lies in the window and has no entry yet.
pub open spec fn is_needed(i: int, cursor: u32, ahead: u32, total: u32, dom: Set<u32>) -> bool {
    &&& cursor <= i < window_end(cursor, ahead, total)
    &&& !dom.contains(i as u32)
}

/// The indices of `[from, to)` that `dom` lacks, in increasing order.
pub open spec fn missing_between(from: int, to: int, dom: Set<u32>) -> Seq<u32>
    decreases to - from,
{
    if to <= from {
        Seq::empty()
    } else {
        let p = missing_between(from, to - 1, dom);
        if dom.contains((to - 1) as u32) {
            p
        } else {
            p.push((to - 1) as u32)
        }
    }
}

/// `r` lists, in increasing order, exactly the indices that the window needs.
pub open spec fn lists_needed(r: Seq<u32>, cursor: u32, ahead: u32, total: u32, dom: Set<u32>) -> bool {
    &&& forall|j: int| 0 <= j < r.len() ==> is_needed(#[trigger] r[j] as int, cursor, ahead, total, dom)
    &&& forall|i: u32| is_needed(i as int, cursor, ahead, total, dom) ==> r.contains(i)
    &&& forall|a: int, b: int| 0 <= a < b < r.len() ==> r[a] < r[b]
}

/// A Pending entry whose age exceeds `timeout_ms` at time `now`.
pub open spec fn is_stale(t: SegmentTask, timeout_ms: u64, now: u64) -> bool {
    &&& t.state == TaskState::Pending
    &&& now > t.created_at
    &&& now - t.created_at > timeout_ms
}

/// `after` keeps exactly the entries of `before` that are not stale.
pub open spec fn stale_purged(
    before: Map<u32, SegmentTask>,
    after: Map<u32, SegmentTask>,
    timeout_ms: u64,
    now: u64,
) -> bool {
    &&& forall|k: u32|
        #[trigger] after.contains_key(k) <==> before.contains_key(k) && !is_stale(
            before[k],
            timeout_ms,
            now,
        )
    &&& forall|k: u32| after.contains_key(k) ==> #[trigger] after[k] == before[k]
}

/// The entry that a confirmed push notification leaves at its index.
pub open spec fn pushed_entry(
    t: SegmentTask,
    sid: Seq<char>,
    task_id: Seq<char>,
    k: u32,
    state: Seq<char>,
    duration_ms: Option<u32>,
    error: Option<Seq<char>>,
    now: u64,
) -> bool {
    &&& t.session_id@ == sid
    &&& t.task_id@ == task_id
    &&& t.segment_index == k
    &&& t.state == wire_state(state)
    &&& t.duration_ms == duration_ms
    &&& opt_text(t.error) == (if wire_state(state) == TaskState::Failed {
        error
    } else {
        None
    })
    &&& t.created_at == now
}

/// The table after a push notification, given the active session's id:
/// a notification of another session, or one that names an entry of
/// another session, leaves the table as it was; otherwise the entry at its
/// index is set (inserted when missing) to what the notification states.
pub open spec fn push_applied(
    before: Map<u32, SegmentTask>,
    after: Map<u32, SegmentTask>,
    active: Seq<char>,
    ev: WsEvent,
    now: u64,
) -> bool {
    match ev {
        WsEvent::TaskStateChanged { session_id, task_id, segment_index, state, duration_ms, error } => {
            if session_id@ != active || (before.contains_key(segment_index)
                && before[segment_index].session_id@ != session_id@) {
                after == before
            } else {
                &&& after.dom() == before.dom().insert(segment_index)
                &&& forall|k: u32| k != segment_index && before.contains_key(k) ==> #[trigger] after[k] == before[k]
                &&& pushed_entry(
                    after[segment_index],
                    session_id@,
                    task_id@,
                    segment_index,
                    state@,
                    duration_ms,
                    opt_text(error),
                    now,
                )
            }
        },
        WsEvent::SessionClosed { .. } => after == before,
    }
}

/// The table after one acknowledged task: an entry present at its index
/// takes the task id and the state, and keeps its error only when the new
/// state is Failed; nothing else changes.
pub open spec fn acked(m: Map<u32, SegmentTask>, info: TaskInfo) -> Map<u32, SegmentTask> {
    if m.contains_key(info.segment_index) {
        let o = m[info.segment_index];
        m.insert(
            info.segment_index,
            SegmentTask {
                task_id: info.task_id,
                state: wire_state(info.state@),
                error: if wire_state(info.state@) == TaskState::Failed {
                    o.error
                } else {
                    None
                },
                ..o
            },
        )
    } else {
        m
    }
}

/// The table after a whole acknowledgement batch, applied in order.
pub open spec fn acked_all(m: Map<u32, SegmentTask>, tasks: Seq<TaskInfo>) -> Map<u32, SegmentTask>
    decreases tasks.len(),
{
    if tasks.len() == 0 {
        m
    } else {
        acked(acked_all(m, tasks.drop_last()), tasks.last())
    }
}

/// The task table of the active session, keyed by segment index.
#[derive(Debug, Clone)]
pub struct TaskManager {
    pub tasks: HashMap<u32, SegmentTask>,
    /// How many segments past the cursor the window reaches.
    pub prefetch_ahead: u32,
}

impl TaskManager {
    /// Each entry is stored under its own segment index, and only a Failed
    /// entry carries an error.
    pub open spec fn wf(&self) -> bool {
        forall|k: u32| #[trigger]
            self.tasks@.contains_key(k) ==> self.tasks@[k].segment_index == k && (self.tasks@[k].error is Some
                ==> self.tasks@[k].state == TaskState::Failed)
    }

    pub open spec fn view(&self) -> Map<u32, SegmentTask> {
        self.tasks@
    }

    pub fn new(prefetch_ahead: u32) -> (r: TaskManager)
        ensures
            r.wf(),
            r@ == Map::<u32, SegmentTask>::empty(),
            r.prefetch_ahead == prefetch_ahead,
    {
        TaskManager { tasks: HashMap::new(), prefetch_ahead }
    }

    /// Drops every entry.
    pub fn clear(&mut self)
        ensures
            final(self).wf(),
            final(self)@ == Map::<u32, SegmentTask>::empty(),
            final(self).prefetch_ahead == old(self).prefetch_ahead,
    {
        self.tasks.clear();
    }

    /// The indices from `current_index` up to `current_index + prefetch_ahead`,
    /// clamped below `total_segments`, that have no entry yet, in increasing order.
    pub fn calculate_prefetch_range(&self, current_index: u32, total_segments: u32) -> (r: Vec<u32>)
        ensures
            r@ == missing_between(
                current_index as int,
                window_end(current_index, self.prefetch_ahead, total_segments),
                self@.dom(),
            ),
            lists_needed(r@, current_index, self.prefetch_ahead, total_segments, self@.dom()),
    {
        let mut needed: Vec<u32> = Vec::new();
        let wide: u64 = current_index as u64 + self.prefetch_ahead as u64 + 1;
        let end: u32 = if wide < total_segments as u64 {
            wide as u32
        } else {
            total_segments
        };
        if end <= current_index {
            return needed;
        }
        let mut i: u32 = current_index;
        while i < end
            invariant
                end as int == window_end(current_index, self.prefetch_ahead, total_segments),
                current_index <= i <= end,
                needed@ == missing_between(current_index as int, i as int, self@.dom()),
                forall|j: int|
                    0 <= j < needed@.len() ==> is_needed(
                        #[trigger] needed@[j] as int,
                        current_index,
                        self.prefetch_ahead,
                        total_segments,
                        self@.dom(),
                    ),
                forall|j: int| 0 <= j < needed@.len() ==> #[trigger] needed@[j] < i,
                forall|x: u32|
                    x < i && is_needed(
                        x as int,
                        current_index,
                        self.prefetch_ahead,
                        total_segments,
                        self@.dom(),
                    ) ==> needed@.contains(x),
                forall|a: int, b: int| 0 <= a < b < needed@.len() ==> needed@[a] < needed@[b],
            decreases end - i,
        {
            let ghost prev = needed@;
            let present: bool = self.tasks.contains_key(&i);
            assert(present == self@.dom().contains(i));
            if !present {
                needed.push(i);
                assert(needed@ == prev.push(i));
                assert forall|x: u32| prev.contains(x) implies needed@.contains(x) by {
                    let j = choose|j: int| 0 <= j < prev.len() && prev[j] == x;
                    assert(needed@[j] == x);
                }
                assert(needed@[needed@.len() - 1] == i);
            }
            assert forall|x: u32|
                x <= i && is_needed(
                    x as int,
                    current_index,
                    self.prefetch_ahead,
                    total_segments,
                    self@.dom(),
                ) implies needed@.contains(x) by {
                if x == i {
                    assert(!present);
                    assert(needed@[needed@.len() - 1] == i);
                } else {
                    assert(x < i);
                    assert(prev.contains(x));
                }
            }
            i = i + 1;
        }
        needed
    }

    /// Whether the entry at `segment_index` is Ready.
    pub fn is_segment_ready(&self, segment_index: u32) -> (r: bool)
        ensures
            r == (self@.contains_key(segment_index) && self@[segment_index].state == TaskState::Ready),
    {
        match self.tasks.get(&segment_index) {
            Some(t) => t.state == TaskState::Ready,
            None => false,
        }
    }

    /// Inserts a Pending entry, stamped `now`, for each index that has none;
    /// indices already present are left untouched.
    pub fn add_pending_tasks(&mut self, session_id: &str, indices: &[u32], now: u64)
        requires
            old(self).wf(),
        ensures
            final(self).wf(),
            pending_added(old(self)@, final(self)@, session_id@, indices@, now),
            final(self).prefetch_ahead == old(self).prefetch_ahead,
    {
        let ghost before = self@;
        assert(indices@.take(0).to_set() =~= Set::<u32>::empty());
        assert(self@.dom() =~= before.dom().union(indices@.take(0).to_set()));
        let mut i: usize = 0;
        while i < indices.len()
            invariant
                self.wf(),
                self.prefetch_ahead == old(self).prefetch_ahead,
                before == old(self)@,
                i <= indices@.len(),
                pending_added(before, self@, session_id@, indices@.take(i as int), now),
            decreases indices@.len() - i,
        {
            let idx: u32 = indices[i];
            let ghost cur = self@;
            if !self.tasks.contains_key(&idx) {
                let t = SegmentTask {
                    session_id: session_id.to_owned(),
                    task_id: String::new(),
                    segment_index: idx,
                    state: TaskState::Pending,
                    duration_ms: None,
                    error: None,
                    created_at: now,
                };
                self.tasks.insert(idx, t);
            }
            assert(indices@.take(i + 1) == indices@.take(i as int).push(idx));
            proof {
                indices@.take(i as int).lemma_push_to_set_commute(idx);
            }
            assert(self@.dom() =~= before.dom().union(indices@.take(i + 1).to_set()));
            i = i + 1;
        }
        assert(indices@.take(indices@.len() as int) == indices@);
    }

    /// Applies a push notification on behalf of the session `current_session_id`.
    pub fn update_task_state(&mut self, current_session_id: &str, event: &WsEvent, now: u64)
        requires
            old(self).wf(),
        ensures
            final(self).wf(),
            push_applied(old(self)@, final(self)@, current_session_id@, *event, now),
            final(self).prefetch_ahead == old(self).prefetch_ahead,
    {
        match event {
            WsEvent::TaskStateChanged { session_id, task_id, segment_index, state, duration_ms, error } => {
                let active: String = current_session_id.to_owned();
                if !session_id.eq(&active) {
                    return ;
                }
                let ghost before = self@;
                match self.tasks.remove(segment_index) {
                    Some(mut t) => {
                        if !t.session_id.eq(session_id) {
                            self.tasks.insert(*segment_index, t);
                            assert(self@ =~= before);
                            return ;
                        }
                        t.task_id = task_id.clone();
                        t.state = TaskState::from(state.as_str());
                        t.duration_ms = *duration_ms;
                        t.error = if t.state == TaskState::Failed {
                            copy_opt_text(error)
                        } else {
                            None
                        };
                        t.created_at = now;
                        self.tasks.insert(*segment_index, t);
                    },
                    None => {
                        let st = TaskState::from(state.as_str());
                        let t = SegmentTask {
                            session_id: session_id.clone(),
                            task_id: task_id.clone(),
                            segment_index: *segment_index,
                            state: st,
                            duration_ms: *duration_ms,
                            error: if st == TaskState::Failed {
                                copy_opt_text(error)
                            } else {
                                None
                            },
                            created_at: now,
                        };
                        self.tasks.insert(*segment_index, t);
                    },
                }
                assert(self@.dom() =~= before.dom().insert(*segment_index));
            },
            WsEvent::SessionClosed { .. } => {},
        }
    }

    /// Applies one acknowledged task of a submission: an entry present at its
    /// index takes the task id and the state (dropping its error unless it is
    /// Failed); a missing one is not created.
    pub fn apply_ack(&mut self, info: &TaskInfo)
        requires
            old(self).wf(),
        ensures
            final(self).wf(),
            final(self)@ == acked(old(self)@, *info),
            final(self).prefetch_ahead == old(self).prefetch_ahead,
    {
        let ghost before = self@;
        if let Some(mut t) = self.tasks.remove(&info.segment_index) {
            t.task_id = info.task_id.clone();
            t.state = TaskState::from(info.state.as_str());
            if t.state != TaskState::Failed {
                t.error = None;
            }
            self.tasks.insert(info.segment_index, t);
            assert(self@ =~= acked(before, *info));
        } else {
            assert(self@ =~= before);
        }
    }

    /// The keys of the table, each once.
    fn keys_snapshot(&self) -> (r: Vec<u32>)
        ensures
            r@.to_set() == self@.dom(),
            r@.no_duplicates(),
    {
        let ghost all = vstd::std_specs::hash::spec_keys_iter(&self.tasks).remaining().unref();
        assert(all.to_set() == self@.dom());
        assert(all.no_duplicates());
        let mut r: Vec<u32> = Vec::new();
        for k in it: self.tasks.keys()
            invariant
                it.seq().unref() == all,
                r@ == all.take(it.index() as int),
        {
            r.push(*k);
            assert(r@ == all.take(it.index() + 1));
        }
        assert(r@ == all);
        r
    }

    /// Removes the Pending entries older than `timeout_ms` at time `now`;
    /// entries in any other state stay, whatever their age.
    pub fn cleanup_stale_pending(&mut self, timeout_ms: u64, now: u64)
        requires
            old(self).wf(),
        ensures
            final(self).wf(),
            stale_purged(old(self)@, final(self)@, timeout_ms, now),
            final(self).prefetch_ahead == old(self).prefetch_ahead,
    {
        let ghost before = self@;
        let keys = self.keys_snapshot();
        let mut i: usize = 0;
        while i < keys.len()
            invariant
                self.wf(),
                self.prefetch_ahead == old(self).prefetch_ahead,
                before == old(self)@,
                keys@.to_set() == before.dom(),
                keys@.no_duplicates(),
                i <= keys@.len(),
                forall|k: u32| #[trigger] self@.contains_key(k) ==> before.contains_key(k) && self@[k] == before[k],
                forall|k: u32|
                    before.contains_key(k) && !keys@.take(i as int).contains(k) ==> #[trigger] self@.contains_key(k),
                forall|k: u32|
                    before.contains_key(k) && keys@.take(i as int).contains(k) ==> (#[trigger] self@.contains_key(k)
                        <==> !is_stale(before[k], timeout_ms, now)),
            decreases keys@.len() - i,
        {
            let k: u32 = keys[i];
            let ghost cur = self@;
            let ghost pre = keys@.take(i as int);
            let ghost post = keys@.take(i + 1);
            assert(post == pre.push(k));
            assert(post[i as int] == k);
            assert(keys@[i as int] == k);
            assert(keys@.contains(k));
            assert(keys@.to_set().contains(k));
            assert(before.contains_key(k));
            assert(!pre.contains(k)) by {
                if pre.contains(k) {
                    let j = choose|j: int| 0 <= j < i && pre[j] == k;
                    assert(keys@[j] == keys@[i as int]);
                }
            }
            assert(cur.contains_key(k));
            assert(cur[k] == before[k]);
            let stale: bool = match self.tasks.get(&k) {
                Some(t) => t.state == TaskState::Pending && now > t.created_at && now - t.created_at > timeout_ms,
                None => false,
            };
            assert(stale == is_stale(before[k], timeout_ms, now));
            if stale {
                self.tasks.remove(&k);
                assert(self@ == cur.remove(k));
            } else {
                assert(self@ == cur);
            }
            assert forall|x: u32| before.contains_key(x) && !post.contains(x) implies
                #[trigger] self@.contains_key(x) by {
                if x == k {
                    assert(post.contains(k));
                } else {
                    assert(!pre.contains(x)) by {
                        if pre.contains(x) {
                            let j = choose|j: int| 0 <= j < pre.len() && pre[j] == x;
                            assert(post[j] == x);
                        }
                    }
                }
            }
            assert forall|x: u32| before.contains_key(x) && post.contains(x) implies (#[trigger] self@.contains_key(x)
                <==> !is_stale(before[x], timeout_ms, now)) by {
                if x != k {
                    let j = choose|j: int| 0 <= j < post.len() && post[j] == x;
                    assert(pre[j] == x);
                }
            }
            i = i + 1;
        }
        assert(keys@.take(keys@.len() as int) == keys@);
        assert forall|k: u32| before.contains_key(k) implies keys@.contains(k) by {
            assert(keys@.to_set().contains(k));
        }
    }
}

/// The active playback context.
#[derive(Debug)]
pub struct CurrentSession {
    pub session_id: String,
    pub novel_id: uuid::Uuid,
    pub voice_id: uuid::Uuid,
    /// The segment index that playback stands at.
    pub current_index: u32,
}

/// The playback state machine's states.
#[derive(Debug, Clone, Copy, PartialEq, Eq, Structural)]
pub enum PlaybackState {
    Stopped,
    Playing,
    Paused,
    Loading,
}

} // verus!
