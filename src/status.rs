use vstd::prelude::*;
use crate::goal_state::GoalState;

verus! {

/// A point in time as seconds and nanoseconds; times are ordered by their
/// total number of nanoseconds.
#[derive(Clone, Copy, Debug)]
pub struct Time {
    pub sec: u32,
    pub nsec: u32,
}

pub const NANOS_PER_SEC: u64 = 1_000_000_000;

impl Time {
    pub open spec fn nanos_spec(self) -> int {
        self.sec * 1_000_000_000 + self.nsec
    }

    pub fn new(sec: u32, nsec: u32) -> (r: Time)
        ensures
            r.sec == sec,
            r.nsec == nsec,
    {
        Time { sec, nsec }
    }

    pub fn nanos(self) -> (r: u64)
        ensures
            r == self.nanos_spec(),
    {
        assert(self.sec * 1_000_000_000 <= 4_294_967_295 * 1_000_000_000) by (nonlinear_arith)
            requires
                self.sec <= 4_294_967_295,
        ;
        self.sec as u64 * NANOS_PER_SEC + self.nsec as u64
    }

    /// Whether `self` comes strictly after `other`.
    pub fn is_later_than(self, other: Time) -> (r: bool)
        ensures
            r == (self.nanos_spec() > other.nanos_spec()),
    {
        self.nanos() > other.nanos()
    }
}

impl Default for Time {
    fn default() -> (r: Time)
        ensures
            r.sec == 0,
            r.nsec == 0,
    {
        Time { sec: 0, nsec: 0 }
    }
}

/// The identity of a goal: its id and the time it was stamped with.
#[derive(Clone, Debug)]
pub struct GoalID {
    pub id: String,
    pub stamp: Time,
}

impl GoalID {
    /// The id of no goal: an empty id stamped at time zero.
    pub open spec fn is_default(self) -> bool {
        &&& self.id@.len() == 0
        &&& self.stamp.sec == 0
        &&& self.stamp.nsec == 0
    }

    pub fn new(id: String, stamp: Time) -> (r: GoalID)
        ensures
            r.id@ == id@,
            r.stamp == stamp,
    {
        GoalID { id, stamp }
    }

    /// A copy of the id.
    pub fn snapshot(&self) -> (r: GoalID)
        ensures
            r == *self,
    {
        GoalID { id: self.id.clone(), stamp: self.stamp }
    }

    /// Whether both ids name the same goal; goals are keyed by their id.
    pub fn same_goal(&self, other: &GoalID) -> (r: bool)
        ensures
            r == (self.id@ == other.id@),
    {
        self.id == other.id
    }
}

impl Default for GoalID {
    fn default() -> (r: GoalID)
        ensures
            r.is_default(),
    {
        GoalID { id: String::new(), stamp: Time { sec: 0, nsec: 0 } }
    }
}

/// The status of one goal: its identity, state and free text.
#[derive(Clone, Debug)]
pub struct GoalStatus {
    pub goal_id: GoalID,
    pub state: GoalState,
    pub text: String,
}

impl GoalStatus {
    /// The status of no goal: the default id, state `Lost`, no text.
    pub open spec fn is_default(self) -> bool {
        &&& self.goal_id.is_default()
        &&& self.state == GoalState::Lost
        &&& self.text@.len() == 0
    }

    pub fn new(goal_id: GoalID, state: GoalState, text: String) -> (r: GoalStatus)
        ensures
            r.goal_id == goal_id,
            r.state == state,
            r.text@ == text@,
    {
        GoalStatus { goal_id, state, text }
    }

    /// A copy of the status.
    pub fn snapshot(&self) -> (r: GoalStatus)
        ensures
            r == *self,
    {
        GoalStatus { goal_id: self.goal_id.snapshot(), state: self.state, text: self.text.clone() }
    }
}

impl Default for GoalStatus {
    fn default() -> (r: GoalStatus)
        ensures
            r.is_default(),
    {
        GoalStatus { goal_id: GoalID::default(), state: GoalState::Lost, text: String::new() }
    }
}

} // verus!
