use vstd::prelude::*;

verus! {

/// The lifecycle state of one goal.
#[derive(Clone, Copy, Debug, PartialEq, Eq, Structural)]
pub enum GoalState {
    Pending,
    Active,
    Recalling,
    Preempting,
    Recalled,
    Rejected,
    Preempted,
    Aborted,
    Succeeded,
    /// No goal is bound: the state reported for an uninitialized handle.
    Lost,
}

impl GoalState {
    /// A state that a goal never leaves.
    pub open spec fn is_terminal(self) -> bool {
        match self {
            GoalState::Recalled | GoalState::Rejected | GoalState::Preempted
            | GoalState::Aborted | GoalState::Succeeded => true,
            _ => false,
        }
    }

    /// How a state is written in messages.
    pub open spec fn name_spec(self) -> Seq<char> {
        match self {
            GoalState::Pending => "Pending"@,
            GoalState::Active => "Active"@,
            GoalState::Recalling => "Recalling"@,
            GoalState::Preempting => "Preempting"@,
            GoalState::Recalled => "Recalled"@,
            GoalState::Rejected => "Rejected"@,
            GoalState::Preempted => "Preempted"@,
            GoalState::Aborted => "Aborted"@,
            GoalState::Succeeded => "Succeeded"@,
            GoalState::Lost => "Lost"@,
        }
    }

    pub fn name(self) -> (r: &'static str)
        ensures
            r@ == self.name_spec(),
    {
        match self {
            GoalState::Pending => "Pending",
            GoalState::Active => "Active",
            GoalState::Recalling => "Recalling",
            GoalState::Preempting => "Preempting",
            GoalState::Recalled => "Recalled",
            GoalState::Rejected => "Rejected",
            GoalState::Preempted => "Preempted",
            GoalState::Aborted => "Aborted",
            GoalState::Succeeded => "Succeeded",
            GoalState::Lost => "Lost",
        }
    }
}

/// A request to move a goal to another state.
#[derive(Clone, Copy, Debug, PartialEq, Eq, Structural)]
pub enum ActionCommand {
    Accepted,
    Canceled,
    Rejected,
    Aborted,
    Succeeded,
    CancelRequested,
}

/// What has to be published once a command has been applied.
#[derive(Clone, Copy, Debug, PartialEq, Eq, Structural)]
pub enum PublishTarget {
    /// The status list of all goals.
    Status,
    /// The goal's final status together with its result.
    Result,
}

/// The transition table: the state a command leads to from a given state,
/// or `None` where the command is not allowed there.
pub open spec fn transition_spec(c: ActionCommand, s: GoalState) -> Option<GoalState> {
    match (c, s) {
        (ActionCommand::Accepted, GoalState::Pending) => Some(GoalState::Active),
        (ActionCommand::Accepted, GoalState::Recalling) => Some(GoalState::Preempting),
        (ActionCommand::Canceled, GoalState::Pending) => Some(GoalState::Recalled),
        (ActionCommand::Canceled, GoalState::Recalling) => Some(GoalState::Recalled),
        (ActionCommand::Canceled, GoalState::Active) => Some(GoalState::Preempted),
        (ActionCommand::Canceled, GoalState::Preempting) => Some(GoalState::Preempted),
        (ActionCommand::Rejected, GoalState::Pending) => Some(GoalState::Rejected),
        (ActionCommand::Rejected, GoalState::Recalling) => Some(GoalState::Rejected),
        (ActionCommand::Aborted, GoalState::Preempting) => Some(GoalState::Aborted),
        (ActionCommand::Aborted, GoalState::Active) => Some(GoalState::Aborted),
        (ActionCommand::Succeeded, GoalState::Preempting) => Some(GoalState::Succeeded),
        (ActionCommand::Succeeded, GoalState::Active) => Some(GoalState::Succeeded),
        (ActionCommand::CancelRequested, GoalState::Pending) => Some(GoalState::Recalling),
        (ActionCommand::CancelRequested, GoalState::Active) => Some(GoalState::Preempting),
        _ => None,
    }
}

impl ActionCommand {
    /// The source states from which the command is allowed, in the order in
    /// which messages list them.
    pub open spec fn accepted_spec(self) -> Seq<GoalState> {
        match self {
            ActionCommand::Accepted => seq![GoalState::Pending, GoalState::Recalling],
            ActionCommand::Canceled => seq![
                GoalState::Pending,
                GoalState::Recalling,
                GoalState::Active,
                GoalState::Preempting,
            ],
            ActionCommand::Rejected => seq![GoalState::Pending, GoalState::Recalling],
            ActionCommand::Aborted => seq![GoalState::Preempting, GoalState::Active],
            ActionCommand::Succeeded => seq![GoalState::Preempting, GoalState::Active],
            ActionCommand::CancelRequested => seq![GoalState::Pending, GoalState::Active],
        }
    }

    pub open spec fn publish_target_spec(self) -> PublishTarget {
        match self {
            ActionCommand::Accepted | ActionCommand::CancelRequested => PublishTarget::Status,
            _ => PublishTarget::Result,
        }
    }

    /// Only the status list is published after `Accepted` and
    /// `CancelRequested`; every other command ends the goal with a result.
    pub fn publish_target(self) -> (r: PublishTarget)
        ensures
            r == self.publish_target_spec(),
    {
        match self {
            ActionCommand::Accepted | ActionCommand::CancelRequested => PublishTarget::Status,
            ActionCommand::Canceled
            | ActionCommand::Rejected
            | ActionCommand::Aborted
            | ActionCommand::Succeeded => PublishTarget::Result,
        }
    }

    pub open spec fn precise_description_spec(self) -> Seq<char> {
        match self {
            ActionCommand::Accepted => "Accepting goal"@,
            ActionCommand::Canceled => "Setting status to canceled on goal"@,
            ActionCommand::Rejected => "Setting status to rejected on goal"@,
            ActionCommand::Aborted => "Setting status to aborted on goal"@,
            ActionCommand::Succeeded => "Setting status to succeeded on goal"@,
            ActionCommand::CancelRequested => "Transitioning to a cancel requested state on goal"@,
        }
    }

    /// A sentence naming the operation, for log lines.
    pub fn precise_description(self) -> (r: &'static str)
        ensures
            r@ == self.precise_description_spec(),
    {
        match self {
            ActionCommand::Accepted => "Accepting goal",
            ActionCommand::Canceled => "Setting status to canceled on goal",
            ActionCommand::Rejected => "Setting status to rejected on goal",
            ActionCommand::Aborted => "Setting status to aborted on goal",
            ActionCommand::Succeeded => "Setting status to succeeded on goal",
            ActionCommand::CancelRequested => "Transitioning to a cancel requested state on goal",
        }
    }

    pub fn accepted_states(self) -> (r: Vec<GoalState>)
        ensures
            r@ == self.accepted_spec(),
    {
        let r = match self {
            ActionCommand::Accepted => vec![GoalState::Pending, GoalState::Recalling],
            ActionCommand::Canceled => vec![
                GoalState::Pending,
                GoalState::Recalling,
                GoalState::Active,
                GoalState::Preempting,
            ],
            ActionCommand::Rejected => vec![GoalState::Pending, GoalState::Recalling],
            ActionCommand::Aborted => vec![GoalState::Preempting, GoalState::Active],
            ActionCommand::Succeeded => vec![GoalState::Preempting, GoalState::Active],
            ActionCommand::CancelRequested => vec![GoalState::Pending, GoalState::Active],
        };
        assert(r@ =~= self.accepted_spec());
        r
    }

    /// Applies the command to a goal in state `state`.
    pub fn do_transition(self, state: GoalState) -> (r: Result<GoalState, TransitionIssue>)
        ensures
            match r {
                Ok(next) => transition_spec(self, state) == Some(next),
                Err(issue) => {
                    &&& transition_spec(self, state) is None
                    &&& issue.target == self
                    &&& issue.status == state
                    &&& issue.accepted@ == self.accepted_spec()
                },
            },
    {
        match (self, state) {
            (ActionCommand::Accepted, GoalState::Pending) => Ok(GoalState::Active),
            (ActionCommand::Accepted, GoalState::Recalling) => Ok(GoalState::Preempting),

            (ActionCommand::Canceled, GoalState::Pending)
            | (ActionCommand::Canceled, GoalState::Recalling) => Ok(GoalState::Recalled),
            (ActionCommand::Canceled, GoalState::Active)
            | (ActionCommand::Canceled, GoalState::Preempting) => Ok(GoalState::Preempted),

            (ActionCommand::Rejected, GoalState::Pending)
            | (ActionCommand::Rejected, GoalState::Recalling) => Ok(GoalState::Rejected),

            (ActionCommand::Aborted, GoalState::Preempting)
            | (ActionCommand::Aborted, GoalState::Active) => Ok(GoalState::Aborted),

            (ActionCommand::Succeeded, GoalState::Preempting)
            | (ActionCommand::Succeeded, GoalState::Active) => Ok(GoalState::Succeeded),

            (ActionCommand::CancelRequested, GoalState::Pending) => Ok(GoalState::Recalling),
            (ActionCommand::CancelRequested, GoalState::Active) => Ok(GoalState::Preempting),

            (target, status) => Err(TransitionIssue {
                accepted: target.accepted_states(),
                target,
                status,
            }),
        }
    }
}

/// A command that is not allowed in the goal's current state.
#[derive(Debug)]
pub struct TransitionIssue {
    pub target: ActionCommand,
    pub accepted: Vec<GoalState>,
    pub status: GoalState,
}

/// How the state a command leads to is named in messages.
pub open spec fn target_phrase(c: ActionCommand) -> Seq<char> {
    match c {
        ActionCommand::Accepted => "an active"@,
        ActionCommand::Canceled => "a canceled"@,
        ActionCommand::Rejected => "a rejected"@,
        ActionCommand::Aborted => "an aborted"@,
        ActionCommand::Succeeded => "a succeeded"@,
        ActionCommand::CancelRequested => "a requested cancel"@,
    }
}

/// Each state of `a` followed by a comma and a space.
pub open spec fn leading_names(a: Seq<GoalState>) -> Seq<char>
    decreases a.len(),
{
    if a.len() == 0 {
        Seq::empty()
    } else {
        leading_names(a.drop_last()) + a.last().name_spec() + ", "@
    }
}

/// A list of states in words: "A", "A or B", "A, B, or C".
pub open spec fn state_list_text(a: Seq<GoalState>) -> Seq<char> {
    if a.len() == 0 {
        "nonexistent"@
    } else if a.len() == 1 {
        a[0].name_spec()
    } else if a.len() == 2 {
        a[0].name_spec() + " or "@ + a[1].name_spec()
    } else {
        leading_names(a.drop_last()) + "or "@ + a.last().name_spec()
    }
}

/// The message that explains a refused transition.
pub open spec fn issue_text(target: ActionCommand, accepted: Seq<GoalState>, status: GoalState) -> Seq<char> {
    "To transition to "@ + target_phrase(target) + " state, the goal must be in a "@
        + state_list_text(accepted) + " state, it is currently in state: "@ + status.name_spec()
}

fn phrase(c: ActionCommand) -> (r: &'static str)
    ensures
        r@ == target_phrase(c),
{
    match c {
        ActionCommand::Accepted => "an active",
        ActionCommand::Canceled => "a canceled",
        ActionCommand::Rejected => "a rejected",
        ActionCommand::Aborted => "an aborted",
        ActionCommand::Succeeded => "a succeeded",
        ActionCommand::CancelRequested => "a requested cancel",
    }
}

/// Appends `state_list_text(a)` to `s`.
fn append_state_list(s: &mut String, a: &Vec<GoalState>)
    ensures
        final(s)@ == old(s)@ + state_list_text(a@),
{
    let n = a.len();
    if n == 0 {
        s.append("nonexistent");
    } else if n == 1 {
        s.append(a[0].name());
    } else if n == 2 {
        s.append(a[0].name());
        s.append(" or ");
        s.append(a[1].name());
    } else {
        let ghost start = s@;
        let mut i: usize = 0;
        while i < n - 1
            invariant
                n == a@.len(),
                n > 2,
                i <= n - 1,
                s@ == start + leading_names(a@.subrange(0, i as int)),
            decreases n - 1 - i,
        {
            proof {
                let next = a@.subrange(0, i + 1);
                assert(next.drop_last() =~= a@.subrange(0, i as int));
            }
            s.append(a[i].name());
            s.append(", ");
            i = i + 1;
        }
        assert(a@.subrange(0, n - 1) =~= a@.drop_last());
        s.append("or ");
        s.append(a[n - 1].name());
    }
}

impl TransitionIssue {
    /// The message explaining why the transition was refused, e.g.
    /// "To transition to an aborted state, the goal must be in a Preempting
    /// or Active state, it is currently in state: Pending".
    pub fn message(&self) -> (r: String)
        ensures
            r@ == issue_text(self.target, self.accepted@, self.status),
    {
        let mut s = String::new();
        s.append("To transition to ");
        s.append(phrase(self.target));
        s.append(" state, the goal must be in a ");
        append_state_list(&mut s, &self.accepted);
        s.append(" state, it is currently in state: ");
        s.append(self.status.name());
        s
    }
}

/// A command is allowed in exactly the states that its accepted list names:
/// outside that list the transition fails, inside it the table gives the
/// resulting state.
pub proof fn lemma_accepted_states_match_table(c: ActionCommand, s: GoalState)
    ensures
        transition_spec(c, s) is Some <==> c.accepted_spec().contains(s),
{
    let a = c.accepted_spec();
    if a.contains(s) {
        let i = choose|i: int| 0 <= i < a.len() && a[i] == s;
        assert(transition_spec(c, a[i]) is Some);
    } else {
        assert(forall|i: int| 0 <= i < a.len() ==> a[i] != s);
        if transition_spec(c, s) is Some {
            match c {
                ActionCommand::Canceled => {
                    assert(a[0] == GoalState::Pending && a[1] == GoalState::Recalling);
                    assert(a[2] == GoalState::Active && a[3] == GoalState::Preempting);
                },
                _ => {
                    assert(a[0] != s && a[1] != s);
                },
            }
        }
    }
}

/// A goal in a terminal state refuses every command.
pub proof fn lemma_terminal_state_is_final(c: ActionCommand, s: GoalState)
    requires
        s.is_terminal(),
    ensures
        transition_spec(c, s) is None,
        !c.accepted_spec().contains(s),
{
    lemma_accepted_states_match_table(c, s);
}

/// Every successful transition lands in a state that the table names, and
/// every terminal state is reached only by a command that publishes a result.
pub proof fn lemma_terminal_targets_publish_result(c: ActionCommand, s: GoalState)
    requires
        transition_spec(c, s) is Some,
    ensures
        transition_spec(c, s).unwrap().is_terminal() <==> c.publish_target_spec() == PublishTarget::Result,
{
}

} // verus!
