use rovel::api::{TaskInfo, WsEvent};
use rovel::state::{TaskManager, TaskState};

fn push(session: &str, index: u32, state: &str) -> WsEvent {
    WsEvent::TaskStateChanged {
        session_id: session.to_string(),
        task_id: format!("task-{}", index),
        segment_index: index,
        state: state.to_string(),
        duration_ms: Some(1200),
        error: None,
    }
}

#[test]
fn prefetch_from_empty_table_covers_cursor_and_ahead() {
    let tm = TaskManager::new(3);
    assert_eq!(tm.calculate_prefetch_range(0, 10), vec![0, 1, 2, 3]);
}

#[test]
fn prefetch_at_last_segment_stops_at_total() {
    let mut tm = TaskManager::new(3);
    assert_eq!(tm.calculate_prefetch_range(4, 5), vec![4]);
    tm.add_pending_tasks("s1", &[4], 0);
    assert_eq!(tm.calculate_prefetch_range(4, 5), Vec::<u32>::new());
}

#[test]
fn prefetch_with_no_segments_is_empty() {
    let tm = TaskManager::new(3);
    assert!(tm.calculate_prefetch_range(0, 0).is_empty());
    assert!(tm.calculate_prefetch_range(7, 0).is_empty());
}

#[test]
fn prefetch_past_the_end_is_empty() {
    let tm = TaskManager::new(3);
    assert!(tm.calculate_prefetch_range(12, 10).is_empty());
}

#[test]
fn prefetch_skips_present_entries() {
    let mut tm = TaskManager::new(3);
    tm.add_pending_tasks("s1", &[1, 3], 0);
    assert_eq!(tm.calculate_prefetch_range(0, 10), vec![0, 2]);
}

#[test]
fn prefetch_near_the_integer_limit_does_not_overflow() {
    let tm = TaskManager::new(3);
    assert_eq!(tm.calculate_prefetch_range(u32::MAX - 1, u32::MAX), vec![u32::MAX - 1]);
    let wide = TaskManager::new(u32::MAX);
    assert_eq!(wide.calculate_prefetch_range(u32::MAX - 2, u32::MAX), vec![u32::MAX - 2, u32::MAX - 1]);
}

#[test]
fn prefetch_never_leaves_the_segment_range() {
    for ahead in 0..5u32 {
        for total in 0..8u32 {
            for cursor in 0..10u32 {
                let mut tm = TaskManager::new(ahead);
                tm.add_pending_tasks("s", &[cursor + 1], 0);
                for i in tm.calculate_prefetch_range(cursor, total) {
                    assert!(i >= cursor && i < total);
                    assert!(i <= cursor + ahead);
                    assert!(i != cursor + 1);
                }
            }
        }
    }
}

#[test]
fn prefetch_twice_gives_the_same_indices() {
    let mut tm = TaskManager::new(3);
    tm.add_pending_tasks("s1", &[2], 0);
    let a = tm.calculate_prefetch_range(1, 10);
    let b = tm.calculate_prefetch_range(1, 10);
    assert_eq!(a, b);
    assert_eq!(a, vec![1, 3, 4]);
}

#[test]
fn prefetch_after_submission_is_empty() {
    let mut tm = TaskManager::new(3);
    let needed = tm.calculate_prefetch_range(0, 10);
    tm.add_pending_tasks("s1", &needed, 5);
    assert!(tm.calculate_prefetch_range(0, 10).is_empty());
}

#[test]
fn add_pending_twice_keeps_the_first_entries() {
    let mut tm = TaskManager::new(3);
    tm.add_pending_tasks("s1", &[0, 1, 2, 3], 100);
    assert_eq!(tm.tasks.len(), 4);
    tm.add_pending_tasks("s1", &[0, 1, 2, 3], 900);
    assert_eq!(tm.tasks.len(), 4);
    for i in 0..4u32 {
        let t = &tm.tasks[&i];
        assert_eq!(t.created_at, 100);
        assert_eq!(t.state, TaskState::Pending);
        assert_eq!(t.session_id, "s1");
        assert_eq!(t.task_id, "");
        assert_eq!(t.segment_index, i);
        assert!(t.error.is_none());
        assert!(t.duration_ms.is_none());
    }
}

#[test]
fn add_pending_with_repeated_indices_inserts_once() {
    let mut tm = TaskManager::new(3);
    tm.add_pending_tasks("s1", &[5, 5, 6], 1);
    assert_eq!(tm.tasks.len(), 2);
}

#[test]
fn task_state_reads_wire_names() {
    assert_eq!(TaskState::from("pending"), TaskState::Pending);
    assert_eq!(TaskState::from("inferring"), TaskState::Inferring);
    assert_eq!(TaskState::from("ready"), TaskState::Ready);
    assert_eq!(TaskState::from("failed"), TaskState::Failed);
    assert_eq!(TaskState::from("cancelled"), TaskState::Cancelled);
    assert_eq!(TaskState::from("READY"), TaskState::Pending);
    assert_eq!(TaskState::from(""), TaskState::Pending);
}

#[test]
fn push_of_another_session_changes_nothing() {
    let mut tm = TaskManager::new(3);
    tm.add_pending_tasks("s1", &[0, 1, 2, 3], 10);
    tm.update_task_state("s1", &push("old", 2, "ready"), 50);
    tm.update_task_state("s1", &push("old", 9, "ready"), 50);
    assert_eq!(tm.tasks.len(), 4);
    for i in 0..4u32 {
        let t = &tm.tasks[&i];
        assert_eq!(t.state, TaskState::Pending);
        assert_eq!(t.created_at, 10);
        assert_eq!(t.task_id, "");
    }
}

#[test]
fn push_ready_marks_only_its_segment() {
    let mut tm = TaskManager::new(3);
    tm.add_pending_tasks("s1", &[0, 1, 2, 3], 10);
    tm.update_task_state("s1", &push("s1", 2, "ready"), 50);
    assert!(tm.is_segment_ready(2));
    let t = &tm.tasks[&2];
    assert_eq!(t.task_id, "task-2");
    assert_eq!(t.duration_ms, Some(1200));
    assert_eq!(t.created_at, 50);
    for i in [0u32, 1, 3] {
        assert_eq!(tm.tasks[&i].state, TaskState::Pending);
        assert_eq!(tm.tasks[&i].created_at, 10);
    }
    assert!(!tm.is_segment_ready(0));
}

#[test]
fn push_for_a_missing_segment_inserts_it() {
    let mut tm = TaskManager::new(3);
    tm.update_task_state("s1", &push("s1", 7, "inferring"), 42);
    let t = &tm.tasks[&7];
    assert_eq!(t.state, TaskState::Inferring);
    assert_eq!(t.session_id, "s1");
    assert_eq!(t.created_at, 42);
}

#[test]
fn push_failed_records_the_error() {
    let mut tm = TaskManager::new(3);
    tm.add_pending_tasks("s1", &[1], 0);
    let ev = WsEvent::TaskStateChanged {
        session_id: "s1".to_string(),
        task_id: "t1".to_string(),
        segment_index: 1,
        state: "failed".to_string(),
        duration_ms: None,
        error: Some("model crashed".to_string()),
    };
    tm.update_task_state("s1", &ev, 3);
    let t = &tm.tasks[&1];
    assert_eq!(t.state, TaskState::Failed);
    assert_eq!(t.error.as_deref(), Some("model crashed"));
}

#[test]
fn push_for_an_entry_of_another_session_changes_nothing() {
    let mut tm = TaskManager::new(3);
    tm.add_pending_tasks("s0", &[1], 0);
    tm.update_task_state("s1", &push("s1", 1, "ready"), 3);
    assert_eq!(tm.tasks[&1].state, TaskState::Pending);
    assert_eq!(tm.tasks[&1].session_id, "s0");
}

#[test]
fn session_closed_event_leaves_the_table() {
    let mut tm = TaskManager::new(3);
    tm.add_pending_tasks("s1", &[1], 0);
    let ev = WsEvent::SessionClosed { session_id: "s1".to_string(), reason: "idle".to_string() };
    tm.update_task_state("s1", &ev, 3);
    assert_eq!(tm.tasks.len(), 1);
    assert_eq!(tm.tasks[&1].state, TaskState::Pending);
}

#[test]
fn ack_sets_task_id_and_state_of_present_entries() {
    let mut tm = TaskManager::new(3);
    tm.add_pending_tasks("s1", &[0], 10);
    tm.apply_ack(&TaskInfo { task_id: "abc".to_string(), segment_index: 0, state: "ready".to_string() });
    let t = &tm.tasks[&0];
    assert_eq!(t.task_id, "abc");
    assert_eq!(t.state, TaskState::Ready);
    assert_eq!(t.created_at, 10);
    tm.apply_ack(&TaskInfo { task_id: "zzz".to_string(), segment_index: 5, state: "ready".to_string() });
    assert!(!tm.tasks.contains_key(&5));
}

#[test]
fn purge_drops_only_old_pending_entries() {
    let mut tm = TaskManager::new(3);
    tm.add_pending_tasks("s1", &[0, 1, 2, 3, 4], 0);
    tm.update_task_state("s1", &push("s1", 1, "ready"), 0);
    tm.update_task_state("s1", &push("s1", 2, "inferring"), 0);
    tm.update_task_state("s1", &push("s1", 3, "failed"), 0);
    tm.update_task_state("s1", &push("s1", 4, "cancelled"), 0);
    tm.add_pending_tasks("s1", &[5], 20_000);
    tm.cleanup_stale_pending(30_000, 40_000);
    assert!(!tm.tasks.contains_key(&0));
    for i in 1..6u32 {
        assert!(tm.tasks.contains_key(&i));
    }
    tm.cleanup_stale_pending(30_000, 1_000_000);
    assert!(!tm.tasks.contains_key(&5));
    assert_eq!(tm.tasks.len(), 4);
}

#[test]
fn purge_keeps_an_entry_at_exactly_the_timeout() {
    let mut tm = TaskManager::new(3);
    tm.add_pending_tasks("s1", &[0], 1_000);
    tm.cleanup_stale_pending(30_000, 31_000);
    assert!(tm.tasks.contains_key(&0));
    tm.cleanup_stale_pending(30_000, 31_001);
    assert!(!tm.tasks.contains_key(&0));
}

#[test]
fn clear_drops_every_entry() {
    let mut tm = TaskManager::new(3);
    tm.add_pending_tasks("s1", &[0, 1], 0);
    tm.clear();
    assert!(tm.tasks.is_empty());
    assert_eq!(tm.prefetch_ahead, 3);
}

#[test]
fn push_error_is_kept_only_for_failed_tasks() {
    let mut tm = TaskManager::new(3);
    tm.add_pending_tasks("s1", &[1], 0);
    let ev = WsEvent::TaskStateChanged {
        session_id: "s1".to_string(),
        task_id: "t1".to_string(),
        segment_index: 1,
        state: "ready".to_string(),
        duration_ms: None,
        error: Some("ignored".to_string()),
    };
    tm.update_task_state("s1", &ev, 3);
    assert_eq!(tm.tasks[&1].state, TaskState::Ready);
    assert!(tm.tasks[&1].error.is_none());
    let missing = WsEvent::TaskStateChanged {
        session_id: "s1".to_string(),
        task_id: "t2".to_string(),
        segment_index: 2,
        state: "inferring".to_string(),
        duration_ms: None,
        error: Some("ignored".to_string()),
    };
    tm.update_task_state("s1", &missing, 3);
    assert_eq!(tm.tasks[&2].state, TaskState::Inferring);
    assert!(tm.tasks[&2].error.is_none());
}

#[test]
fn ack_out_of_failed_drops_the_error() {
    let mut tm = TaskManager::new(3);
    tm.add_pending_tasks("s1", &[1, 2], 0);
    for i in [1u32, 2] {
        let ev = WsEvent::TaskStateChanged {
            session_id: "s1".to_string(),
            task_id: format!("t{}", i),
            segment_index: i,
            state: "failed".to_string(),
            duration_ms: None,
            error: Some("boom".to_string()),
        };
        tm.update_task_state("s1", &ev, 3);
    }
    tm.apply_ack(&TaskInfo { task_id: "n1".to_string(), segment_index: 1, state: "pending".to_string() });
    assert_eq!(tm.tasks[&1].state, TaskState::Pending);
    assert!(tm.tasks[&1].error.is_none());
    tm.apply_ack(&TaskInfo { task_id: "n2".to_string(), segment_index: 2, state: "failed".to_string() });
    assert_eq!(tm.tasks[&2].state, TaskState::Failed);
    assert_eq!(tm.tasks[&2].error.as_deref(), Some("boom"));
}
