//! Server side of the goal lifecycle of an action protocol: the goal state
//! machine, the per-goal status handle and the single-slot admission policy.
//!
//! Publishing, locking and the clock stay with the caller: operations hand
//! back what is to be published and take the current time as an argument.

pub mod goal_state;
pub mod server_goal_handle;
pub mod simple_action_server;
pub mod status;

pub use goal_state::{ActionCommand, GoalState, PublishTarget, TransitionIssue};
pub use server_goal_handle::{HandleError, ServerGoalHandle};
pub use simple_action_server::{Admission, Preemption, ServerState, SimpleActionServer, Slot};
pub use status::{GoalID, GoalStatus, Time};
