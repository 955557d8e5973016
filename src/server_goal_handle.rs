use vstd::prelude::*;
use crate::goal_state::{transition_spec, ActionCommand, GoalState, PublishTarget, TransitionIssue};
use crate::status::{GoalID, GoalStatus, Time};

verus! {

/// Why an operation on a goal handle did nothing.
#[derive(Debug)]
pub enum HandleError {
    /// The handle has no goal bound; carries the name of the operation.
    Uninitialized(String),
    /// The command is not allowed in the goal's current state.
    Transition(TransitionIssue),
}

/// The characters of an optional text.
pub open spec fn text_view(text: Option<&str>) -> Option<Seq<char>> {
    match text {
        Some(t) => Some(t@),
        None => None,
    }
}

/// The message for an operation on a handle with no goal bound.
pub open spec fn uninitialized_text(operation: Seq<char>) -> Seq<char> {
    "Attempt to "@ + operation + " on an uninitialized ServerGoalHandle"@
}

impl HandleError {
    /// The message to log for this error.
    pub fn message(&self) -> (r: String)
        ensures
            match self {
                HandleError::Uninitialized(op) => r@ == uninitialized_text(op@),
                HandleError::Transition(issue) => r@ == crate::goal_state::issue_text(
                    issue.target,
                    issue.accepted@,
                    issue.status,
                ),
            },
    {
        match self {
            HandleError::Uninitialized(op) => {
                let mut s = String::new();
                s.append("Attempt to ");
                s.append(op.as_str());
                s.append(" on an uninitialized ServerGoalHandle");
                s
            },
            HandleError::Transition(issue) => issue.message(),
        }
    }
}

/// The status of one goal and the only way to change it.
///
/// Every state change goes through the transition table; a handle with no
/// goal bound refuses every change and reports default values. Publishing
/// is left to the caller: an operation that succeeds returns what has to be
/// published.
pub struct ServerGoalHandle<G> {
    goal: Option<G>,
    status: GoalStatus,
    handle_destruction_time: Time,
}

impl<G> ServerGoalHandle<G> {
    pub closed spec fn goal_spec(&self) -> Option<G> {
        self.goal
    }

    pub closed spec fn status_spec(&self) -> GoalStatus {
        self.status
    }

    /// When the goal reached a state that published its result.
    pub closed spec fn destruction_time_spec(&self) -> Time {
        self.handle_destruction_time
    }

    pub open spec fn is_initialized(&self) -> bool {
        self.goal_spec() is Some
    }

    pub open spec fn state_spec(&self) -> GoalState {
        self.status_spec().state
    }

    /// A handle for `goal` with the given status; `None` makes an
    /// uninitialized handle.
    pub fn new(goal: Option<G>, status: GoalStatus) -> (r: Self)
        ensures
            r.goal_spec() == goal,
            r.status_spec() == status,
            r.destruction_time_spec() == (Time { sec: 0, nsec: 0 }),
    {
        ServerGoalHandle { goal, status, handle_destruction_time: Time { sec: 0, nsec: 0 } }
    }

    fn check_goal_presence(&self, operation: &str) -> (r: Result<(), HandleError>)
        ensures
            match r {
                Ok(()) => self.is_initialized(),
                Err(HandleError::Uninitialized(op)) => !self.is_initialized() && op@ == operation@,
                Err(_) => false,
            },
    {
        match self.goal {
            Some(_) => Ok(()),
            None => Err(HandleError::Uninitialized(operation.to_owned())),
        }
    }

    /// What a command leaves of the handle: the state the table gives, the
    /// text where one is given, and the time the result was published where
    /// the command publishes one.
    pub open spec fn applied(
        &self,
        after: &Self,
        command: ActionCommand,
        text: Option<Seq<char>>,
        now: Time,
    ) -> bool {
        &&& after.goal_spec() == self.goal_spec()
        &&& after.status_spec().goal_id == self.status_spec().goal_id
        &&& Some(after.state_spec()) == transition_spec(command, self.state_spec())
        &&& after.status_spec().text@ == match text {
            Some(t) => t,
            None => self.status_spec().text@,
        }
        &&& after.destruction_time_spec() == if command.publish_target_spec() == PublishTarget::Result {
            now
        } else {
            self.destruction_time_spec()
        }
    }

    /// What a refused command reports: the handle has no goal, or the
    /// command is not allowed in the goal's state.
    pub open spec fn refusal(&self, command: ActionCommand, operation: Seq<char>, e: HandleError) -> bool {
        if !self.is_initialized() {
            e matches HandleError::Uninitialized(op) && op@ == operation
        } else {
            &&& transition_spec(command, self.state_spec()) is None
            &&& e matches HandleError::Transition(issue)
            &&& issue.target == command
            &&& issue.status == self.state_spec()
            &&& issue.accepted@ == command.accepted_spec()
        }
    }

    /// Whether a command can be applied to this handle.
    pub open spec fn can_apply(&self, command: ActionCommand) -> bool {
        self.is_initialized() && transition_spec(command, self.state_spec()) is Some
    }

    /// Applies `action` to the goal's status and returns the new status.
    fn set_general(&mut self, text: Option<&str>, action: ActionCommand, now: Time) -> (r: Result<
        GoalStatus,
        HandleError,
    >)
        ensures
            r is Ok <==> old(self).can_apply(action),
            match r {
                Ok(status) => {
                    &&& old(self).applied(final(self), action, text_view(text), now)
                    &&& status == final(self).status_spec()
                },
                Err(e) => {
                    &&& *final(self) == *old(self)
                    &&& old(self).refusal(action, "set_status"@, e)
                },
            },
    {
        proof {
            reveal_strlit("set_status");
        }
        self.check_goal_presence("set_status")?;
        let next = match action.do_transition(self.status.state) {
            Ok(next) => next,
            Err(issue) => {
                return Err(HandleError::Transition(issue));
            },
        };
        self.status.state = next;
        if let Some(text) = text {
            self.status.text = text.to_owned();
        }
        if let PublishTarget::Result = action.publish_target() {
            self.handle_destruction_time = now;
        }
        Ok(self.status.snapshot())
    }

    /// What a command that publishes a result returns: on success the new
    /// status and the result to publish with it, `result` itself or else the
    /// default result; on failure the reason, with the handle unchanged.
    pub open spec fn result_outcome<R: Default>(
        &self,
        after: &Self,
        action: ActionCommand,
        result: Option<R>,
        text: &str,
        now: Time,
        r: Result<(GoalStatus, R), HandleError>,
    ) -> bool {
        &&& r is Ok <==> self.can_apply(action)
        &&& match r {
            Ok((status, published)) => {
                &&& self.applied(after, action, Some(text@), now)
                &&& status == after.status_spec()
                &&& match result {
                    Some(given) => published == given,
                    None => call_ensures(R::default, (), published),
                }
            },
            Err(e) => {
                &&& *after == *self
                &&& self.refusal(action, "set_status"@, e)
            },
        }
    }

    /// What a command that only publishes the status list returns.
    pub open spec fn status_outcome(
        &self,
        after: &Self,
        action: ActionCommand,
        text: Option<Seq<char>>,
        r: Result<(), HandleError>,
    ) -> bool {
        &&& r is Ok <==> self.can_apply(action)
        &&& match r {
            Ok(()) => self.applied(after, action, text, self.destruction_time_spec()),
            Err(e) => {
                &&& *after == *self
                &&& self.refusal(action, "set_status"@, e)
            },
        }
    }

    fn set_with_result<R: Default>(
        &mut self,
        result: Option<R>,
        text: &str,
        action: ActionCommand,
        now: Time,
    ) -> (r: Result<(GoalStatus, R), HandleError>)
        requires
            action.publish_target_spec() == PublishTarget::Result,
        ensures
            old(self).result_outcome(final(self), action, result, text, now, r),
    {
        match self.set_general(Some(text), action, now) {
            Ok(status) => {
                let published = match result {
                    Some(given) => given,
                    None => R::default(),
                };
                Ok((status, published))
            },
            Err(e) => Err(e),
        }
    }

    fn set_status_only(&mut self, text: Option<&str>, action: ActionCommand) -> (r: Result<(), HandleError>)
        requires
            action.publish_target_spec() == PublishTarget::Status,
        ensures
            old(self).status_outcome(final(self), action, text_view(text), r),
    {
        let now = self.handle_destruction_time;
        match self.set_general(text, action, now) {
            Ok(_) => Ok(()),
            Err(e) => Err(e),
        }
    }

    /// Accepts the goal: `Pending` becomes `Active`, `Recalling` becomes
    /// `Preempting`. On success the status list is to be published.
    pub fn set_accepted(&mut self, text: &str) -> (r: Result<(), HandleError>)
        ensures
            old(self).status_outcome(final(self), ActionCommand::Accepted, Some(text@), r),
    {
        self.set_status_only(Some(text), ActionCommand::Accepted)
    }

    /// Cancels the goal: `Pending` and `Recalling` become `Recalled`,
    /// `Active` and `Preempting` become `Preempted`.
    pub fn set_canceled<R: Default>(&mut self, result: Option<R>, text: &str, now: Time) -> (r: Result<
        (GoalStatus, R),
        HandleError,
    >)
        ensures
            old(self).result_outcome(final(self), ActionCommand::Canceled, result, text, now, r),
    {
        self.set_with_result(result, text, ActionCommand::Canceled, now)
    }

    /// Rejects the goal: `Pending` and `Recalling` become `Rejected`.
    pub fn set_rejected<R: Default>(&mut self, result: Option<R>, text: &str, now: Time) -> (r: Result<
        (GoalStatus, R),
        HandleError,
    >)
        ensures
            old(self).result_outcome(final(self), ActionCommand::Rejected, result, text, now, r),
    {
        self.set_with_result(result, text, ActionCommand::Rejected, now)
    }

    /// Aborts the goal: `Active` and `Preempting` become `Aborted`.
    pub fn set_aborted<R: Default>(&mut self, result: Option<R>, text: &str, now: Time) -> (r: Result<
        (GoalStatus, R),
        HandleError,
    >)
        ensures
            old(self).result_outcome(final(self), ActionCommand::Aborted, result, text, now, r),
    {
        self.set_with_result(result, text, ActionCommand::Aborted, now)
    }

    /// Marks the goal succeeded: `Active` and `Preempting` become `Succeeded`.
    pub fn set_succeeded<R: Default>(&mut self, result: Option<R>, text: &str, now: Time) -> (r: Result<
        (GoalStatus, R),
        HandleError,
    >)
        ensures
            old(self).result_outcome(final(self), ActionCommand::Succeeded, result, text, now, r),
    {
        self.set_with_result(result, text, ActionCommand::Succeeded, now)
    }

    /// Records a cancel request: `Pending` becomes `Recalling`, `Active`
    /// becomes `Preempting`; the text is kept. Expected to fail on a goal
    /// that has already ended.
    pub fn set_cancel_requested(&mut self) -> (r: Result<(), HandleError>)
        ensures
            old(self).status_outcome(final(self), ActionCommand::CancelRequested, None, r),
    {
        self.set_status_only(None, ActionCommand::CancelRequested)
    }

    /// The goal's current status together with `feedback`, to be published
    /// as feedback; refused on an uninitialized handle.
    pub fn publish_feedback<F>(&self, feedback: F) -> (r: Result<(GoalStatus, F), HandleError>)
        ensures
            r is Ok <==> self.is_initialized(),
            match r {
                Ok((status, f)) => status == self.status_spec() && f == feedback,
                Err(e) => e matches HandleError::Uninitialized(op) && op@ == "publish feedback"@,
            },
    {
        proof {
            reveal_strlit("publish feedback");
        }
        self.check_goal_presence("publish feedback")?;
        Ok((self.status.snapshot(), feedback))
    }

    /// The goal, where one is bound.
    pub fn goal(&self) -> (r: Option<&G>)
        ensures
            r is Some <==> self.is_initialized(),
            r is Some ==> *r.unwrap() == self.goal_spec().unwrap(),
    {
        self.goal.as_ref()
    }

    /// The goal's id, or the default id on an uninitialized handle.
    pub fn goal_id(&self) -> (r: GoalID)
        ensures
            self.is_initialized() ==> r == self.status_spec().goal_id,
            !self.is_initialized() ==> r.is_default(),
    {
        if self.check_goal_presence("get a goal id").is_err() {
            return GoalID::default();
        }
        self.status.goal_id.snapshot()
    }

    /// The goal's status, or the default status on an uninitialized handle.
    pub fn goal_status(&self) -> (r: GoalStatus)
        ensures
            self.is_initialized() ==> r == self.status_spec(),
            !self.is_initialized() ==> r.is_default(),
    {
        if self.check_goal_presence("get a goal status").is_err() {
            return GoalStatus::default();
        }
        self.status.snapshot()
    }

    /// When the goal's result was published; time zero before that.
    pub fn handle_destruction_time(&self) -> (r: Time)
        ensures
            r == self.destruction_time_spec(),
    {
        self.handle_destruction_time
    }
}

/// Once a goal has reached a terminal state, every command on its handle is
/// refused, so no `set_*` call changes its state again.
pub proof fn lemma_terminal_handle_refuses<G>(h: ServerGoalHandle<G>, command: ActionCommand)
    requires
        h.state_spec().is_terminal(),
    ensures
        !h.can_apply(command),
{
    crate::goal_state::lemma_terminal_state_is_final(command, h.state_spec());
}

} // verus!
