use rosrust_actionlib::{ActionCommand, GoalState, PublishTarget, TransitionIssue};

fn all_states() -> Vec<GoalState> {
    vec![
    GoalState::Pending,
    GoalState::Active,
    GoalState::Recalling,
    GoalState::Preempting,
    GoalState::Recalled,
    GoalState::Rejected,
    GoalState::Preempted,
    GoalState::Aborted,
    GoalState::Succeeded,
    GoalState::Lost,
    ]
}

fn all_commands() -> Vec<ActionCommand> {
    vec![
    ActionCommand::Accepted,
    ActionCommand::Canceled,
    ActionCommand::Rejected,
    ActionCommand::Aborted,
    ActionCommand::Succeeded,
    ActionCommand::CancelRequested,
    ]
}

fn table() -> Vec<(ActionCommand, GoalState, GoalState)> {
    vec![
        (ActionCommand::Accepted, GoalState::Pending, GoalState::Active),
        (ActionCommand::Accepted, GoalState::Recalling, GoalState::Preempting),
        (ActionCommand::Canceled, GoalState::Pending, GoalState::Recalled),
        (ActionCommand::Canceled, GoalState::Recalling, GoalState::Recalled),
        (ActionCommand::Canceled, GoalState::Active, GoalState::Preempted),
        (ActionCommand::Canceled, GoalState::Preempting, GoalState::Preempted),
        (ActionCommand::Rejected, GoalState::Pending, GoalState::Rejected),
        (ActionCommand::Rejected, GoalState::Recalling, GoalState::Rejected),
        (ActionCommand::Aborted, GoalState::Active, GoalState::Aborted),
        (ActionCommand::Aborted, GoalState::Preempting, GoalState::Aborted),
        (ActionCommand::Succeeded, GoalState::Active, GoalState::Succeeded),
        (ActionCommand::Succeeded, GoalState::Preempting, GoalState::Succeeded),
        (ActionCommand::CancelRequested, GoalState::Pending, GoalState::Recalling),
        (ActionCommand::CancelRequested, GoalState::Active, GoalState::Preempting),
    ]
}

#[test]
fn listed_pairs_reach_the_listed_state() {
    for (command, from, to) in table() {
        let r = command.do_transition(from);
        assert_eq!(r.unwrap(), to, "{:?} from {:?}", command, from);
    }
}

#[test]
fn unlisted_pairs_fail_naming_the_accepted_states() {
    let listed = table();
    let mut failures = 0;
    for command in all_commands() {
        for state in all_states() {
            if listed.iter().any(|(c, s, _)| *c == command && *s == state) {
                continue;
            }
            let issue = command.do_transition(state).unwrap_err();
            failures += 1;
            assert_eq!(issue.target, command);
            assert_eq!(issue.status, state);
            assert_eq!(issue.accepted, command.accepted_states());
            assert!(!issue.accepted.contains(&state));
        }
    }
    assert_eq!(failures, 6 * 10 - 14);
}

#[test]
fn accepted_states_are_the_table_sources() {
    let listed = table();
    for command in all_commands() {
        let accepted = command.accepted_states();
        for state in all_states() {
            let in_table = listed.iter().any(|(c, s, _)| *c == command && *s == state);
            assert_eq!(accepted.contains(&state), in_table);
        }
    }
}

#[test]
fn terminal_states_refuse_every_command() {
    let terminal = [
        GoalState::Recalled,
        GoalState::Rejected,
        GoalState::Preempted,
        GoalState::Aborted,
        GoalState::Succeeded,
    ];
    for command in all_commands() {
        for state in terminal {
            assert!(command.do_transition(state).is_err());
        }
    }
}

#[test]
fn message_with_two_accepted_states() {
    let issue = ActionCommand::Aborted.do_transition(GoalState::Pending).unwrap_err();
    assert_eq!(
        issue.message(),
        "To transition to an aborted state, the goal must be in a Preempting or Active state, it is currently in state: Pending"
    );
}

#[test]
fn message_with_four_accepted_states() {
    let issue = ActionCommand::Canceled.do_transition(GoalState::Succeeded).unwrap_err();
    assert_eq!(
        issue.message(),
        "To transition to a canceled state, the goal must be in a Pending, Recalling, Active, or Preempting state, it is currently in state: Succeeded"
    );
}

#[test]
fn message_for_a_cancel_request() {
    let issue = ActionCommand::CancelRequested.do_transition(GoalState::Lost).unwrap_err();
    assert_eq!(
        issue.message(),
        "To transition to a requested cancel state, the goal must be in a Pending or Active state, it is currently in state: Lost"
    );
}

#[test]
fn message_with_one_and_no_accepted_states() {
    let one = TransitionIssue {
        target: ActionCommand::Accepted,
        accepted: vec![GoalState::Pending],
        status: GoalState::Active,
    };
    assert_eq!(
        one.message(),
        "To transition to an active state, the goal must be in a Pending state, it is currently in state: Active"
    );
    let none = TransitionIssue {
        target: ActionCommand::Succeeded,
        accepted: vec![],
        status: GoalState::Active,
    };
    assert_eq!(
        none.message(),
        "To transition to a succeeded state, the goal must be in a nonexistent state, it is currently in state: Active"
    );
}

#[test]
fn publish_targets() {
    assert_eq!(ActionCommand::Accepted.publish_target(), PublishTarget::Status);
    assert_eq!(ActionCommand::CancelRequested.publish_target(), PublishTarget::Status);
    assert_eq!(ActionCommand::Canceled.publish_target(), PublishTarget::Result);
    assert_eq!(ActionCommand::Rejected.publish_target(), PublishTarget::Result);
    assert_eq!(ActionCommand::Aborted.publish_target(), PublishTarget::Result);
    assert_eq!(ActionCommand::Succeeded.publish_target(), PublishTarget::Result);
}

#[test]
fn precise_descriptions() {
    assert_eq!(ActionCommand::Accepted.precise_description(), "Accepting goal");
    assert_eq!(
        ActionCommand::CancelRequested.precise_description(),
        "Transitioning to a cancel requested state on goal"
    );
    assert_eq!(
        ActionCommand::Succeeded.precise_description(),
        "Setting status to succeeded on goal"
    );
}
