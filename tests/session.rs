use aura_worker::session::{
    stop_poll_step, stop_reason, ActiveSession, PollStep, SessionSlot, StopPlan, BUSY_ERROR,
};

fn active(id: &str) -> ActiveSession {
    ActiveSession {
        session_id: id.to_string(),
        manifest_path: format!("/sessions/{id}.json"),
        queued_item_ids: vec!["item-1".to_string(), "item-2".to_string()],
    }
}

#[test]
fn launch_while_active_is_refused_and_keeps_the_session() {
    let mut slot = SessionSlot::new();
    assert!(slot.register(active("first")).is_ok());
    assert_eq!(slot.register(active("second")), Err(BUSY_ERROR.to_string()));
    assert_eq!(slot.active_session_id(), Some("first".to_string()));
}

#[test]
fn stop_without_a_session_is_a_no_op() {
    let slot = SessionSlot::new();
    assert!(matches!(slot.begin_stop("anything"), StopPlan::NothingToStop));
    assert!(!slot.is_busy());
}

#[test]
fn stop_with_mismatched_id_names_both_and_keeps_running() {
    let mut slot = SessionSlot::new();
    slot.register(active("session-a")).unwrap();
    match slot.begin_stop("session-b") {
        StopPlan::Mismatch(message) => {
            assert_eq!(message, "Session mismatch: active=session-a, requested=session-b");
            assert!(message.contains("session-a") && message.contains("session-b"));
        }
        other => panic!("expected a mismatch, got {other:?}"),
    }
    slot.clear_if_matches("session-b");
    assert_eq!(slot.active_session_id(), Some("session-a".to_string()));
}

#[test]
fn stop_of_the_running_session_returns_its_items_and_frees_the_slot() {
    let mut slot = SessionSlot::new();
    slot.register(active("s1")).unwrap();
    match slot.begin_stop("s1") {
        StopPlan::Proceed { manifest_path, queued_item_ids } => {
            assert_eq!(manifest_path, "/sessions/s1.json");
            assert_eq!(queued_item_ids, vec!["item-1", "item-2"]);
        }
        other => panic!("expected to proceed, got {other:?}"),
    }
    slot.clear_if_matches("s1");
    assert!(!slot.is_busy());
    assert!(slot.register(active("s2")).is_ok());
}

#[test]
fn stop_polling_escalates_after_the_grace_period() {
    assert_eq!(stop_poll_step(true, 9_999, 5_000), PollStep::Exited);
    assert_eq!(stop_poll_step(false, 100, 5_000), PollStep::KeepWaiting);
    assert_eq!(stop_poll_step(false, 5_000, 5_000), PollStep::ForceKill);
    assert_eq!(stop_reason(true), "graceful");
    assert_eq!(stop_reason(false), "forced");
}
