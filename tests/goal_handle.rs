use rosrust_actionlib::{
    ActionCommand, GoalID, GoalState, GoalStatus, HandleError, ServerGoalHandle, Time,
};

fn handle(state: GoalState) -> ServerGoalHandle<String> {
    let id = GoalID::new("g1".to_string(), Time::new(1, 0));
    ServerGoalHandle::new(
        Some("payload".to_string()),
        GoalStatus::new(id, state, "initial".to_string()),
    )
}

fn uninitialized() -> ServerGoalHandle<String> {
    ServerGoalHandle::new(None, GoalStatus::default())
}

#[test]
fn end_to_end_accept_cancel_request_succeed() {
    let mut h = handle(GoalState::Pending);
    assert!(h.set_accepted("accepted").is_ok());
    assert_eq!(h.goal_status().state, GoalState::Active);
    assert_eq!(h.goal_status().text, "accepted");
    assert!(h.set_cancel_requested().is_ok());
    assert_eq!(h.goal_status().state, GoalState::Preempting);
    assert_eq!(h.goal_status().text, "accepted");
    let (status, result) = h.set_succeeded::<u32>(None, "done", Time::new(42, 7)).unwrap();
    assert_eq!(status.state, GoalState::Succeeded);
    assert_eq!(status.text, "done");
    assert_eq!(status.goal_id.id, "g1");
    assert_eq!(result, 0);
    assert_eq!(h.goal_status().state, GoalState::Succeeded);
    let t = h.handle_destruction_time();
    assert_eq!((t.sec, t.nsec), (42, 7));
}

#[test]
fn given_result_is_published() {
    let mut h = handle(GoalState::Active);
    let (status, result) = h.set_aborted(Some(vec![1u8, 2]), "failed", Time::new(3, 0)).unwrap();
    assert_eq!(status.state, GoalState::Aborted);
    assert_eq!(result, vec![1, 2]);
}

#[test]
fn cancel_from_each_source() {
    let mut h = handle(GoalState::Pending);
    let (s, _) = h.set_canceled::<u8>(None, "c", Time::new(1, 0)).unwrap();
    assert_eq!(s.state, GoalState::Recalled);
    let mut h = handle(GoalState::Active);
    let (s, _) = h.set_canceled::<u8>(None, "c", Time::new(1, 0)).unwrap();
    assert_eq!(s.state, GoalState::Preempted);
}

#[test]
fn reject_from_recalling() {
    let mut h = handle(GoalState::Recalling);
    let (s, r) = h.set_rejected(Some(5u16), "no", Time::new(1, 0)).unwrap();
    assert_eq!(s.state, GoalState::Rejected);
    assert_eq!(r, 5);
}

#[test]
fn accept_while_recalling_preempts() {
    let mut h = handle(GoalState::Recalling);
    assert!(h.set_accepted("late").is_ok());
    assert_eq!(h.goal_status().state, GoalState::Preempting);
}

#[test]
fn refused_transition_changes_nothing() {
    let mut h = handle(GoalState::Pending);
    let err = h.set_succeeded::<u8>(None, "too early", Time::new(9, 9)).unwrap_err();
    match &err {
        HandleError::Transition(issue) => {
            assert_eq!(issue.target, ActionCommand::Succeeded);
            assert_eq!(issue.status, GoalState::Pending);
        }
        other => panic!("unexpected error {:?}", other),
    }
    assert_eq!(
        err.message(),
        "To transition to a succeeded state, the goal must be in a Preempting or Active state, it is currently in state: Pending"
    );
    assert_eq!(h.goal_status().state, GoalState::Pending);
    assert_eq!(h.goal_status().text, "initial");
    let t = h.handle_destruction_time();
    assert_eq!((t.sec, t.nsec), (0, 0));
}

#[test]
fn terminal_handle_refuses_every_operation() {
    let terminal = vec![
        GoalState::Recalled,
        GoalState::Rejected,
        GoalState::Preempted,
        GoalState::Aborted,
        GoalState::Succeeded,
    ];
    for state in terminal {
        let mut h = handle(state);
        assert!(h.set_accepted("a").is_err());
        assert!(h.set_canceled::<u8>(None, "c", Time::new(1, 0)).is_err());
        assert!(h.set_rejected::<u8>(None, "r", Time::new(1, 0)).is_err());
        assert!(h.set_aborted::<u8>(None, "a", Time::new(1, 0)).is_err());
        assert!(h.set_succeeded::<u8>(None, "s", Time::new(1, 0)).is_err());
        assert!(h.set_cancel_requested().is_err());
        assert_eq!(h.goal_status().state, state);
        assert_eq!(h.goal_status().text, "initial");
    }
}

#[test]
fn uninitialized_handle_reports_defaults() {
    let mut h = uninitialized();
    assert!(h.goal().is_none());
    let id = h.goal_id();
    assert_eq!(id.id, "");
    assert_eq!((id.stamp.sec, id.stamp.nsec), (0, 0));
    let status = h.goal_status();
    assert_eq!(status.state, GoalState::Lost);
    assert_eq!(status.text, "");
    let err = h.set_accepted("a").unwrap_err();
    assert_eq!(
        err.message(),
        "Attempt to set_status on an uninitialized ServerGoalHandle"
    );
    assert!(h.set_canceled::<u8>(None, "c", Time::new(1, 0)).is_err());
    assert!(h.set_rejected::<u8>(None, "r", Time::new(1, 0)).is_err());
    assert!(h.set_aborted::<u8>(None, "a", Time::new(1, 0)).is_err());
    assert!(h.set_succeeded::<u8>(None, "s", Time::new(1, 0)).is_err());
    assert!(matches!(h.set_cancel_requested(), Err(HandleError::Uninitialized(_))));
    let err = h.publish_feedback(3u8).unwrap_err();
    assert_eq!(
        err.message(),
        "Attempt to publish feedback on an uninitialized ServerGoalHandle"
    );
}

#[test]
fn feedback_carries_current_status() {
    let mut h = handle(GoalState::Pending);
    h.set_accepted("working").unwrap();
    let (status, feedback) = h.publish_feedback(0.5f64).unwrap();
    assert_eq!(status.state, GoalState::Active);
    assert_eq!(status.text, "working");
    assert_eq!(feedback, 0.5);
}

#[test]
fn accessors_on_bound_goal() {
    let h = handle(GoalState::Active);
    assert_eq!(h.goal().map(|g| g.as_str()), Some("payload"));
    let id = h.goal_id();
    assert_eq!(id.id, "g1");
    assert_eq!((id.stamp.sec, id.stamp.nsec), (1, 0));
}

#[test]
fn time_orders_by_total_nanoseconds() {
    assert_eq!(Time::new(12, 123).nanos(), 12_000_000_123);
    assert!(Time::new(1, 0).is_later_than(Time::new(0, 999_999_999)));
    assert!(!Time::new(0, 1_000_000_000).is_later_than(Time::new(1, 0)));
    assert!(!Time::new(1, 0).is_later_than(Time::new(1, 0)));
    let max = Time::new(u32::MAX, u32::MAX);
    assert_eq!(max.nanos(), u32::MAX as u64 * 1_000_000_000 + u32::MAX as u64);
}

#[test]
fn same_goal_compares_ids() {
    let a = GoalID::new("x".to_string(), Time::new(1, 0));
    let b = GoalID::new("x".to_string(), Time::new(2, 0));
    let c = GoalID::new("y".to_string(), Time::new(1, 0));
    assert!(a.same_goal(&b));
    assert!(!a.same_goal(&c));
}
