use vstd::prelude::*;
use crate::status::{GoalID, Time};

verus! {

/// An admitted goal: its id and the handle through which it is worked on.
pub struct Slot<H> {
    pub goal_id: GoalID,
    pub handle: H,
}

/// The outcome of admitting a goal.
pub enum Admission<H> {
    /// A goal already current or queued is newer: the incoming goal is handed
    /// back, to be canceled without ever running.
    Outdated(Slot<H>),
    /// The incoming goal is now the next goal; the goal it displaced from
    /// that slot, if any, is handed back to be canceled.
    Queued(Option<Slot<H>>),
}

/// Which slot a preemption request reached.
#[derive(Clone, Copy, Debug, PartialEq, Eq, Structural)]
pub enum Preemption {
    /// The running goal: its preempt flag is set and the preempt callback is due.
    Current,
    /// The queued goal: its preempt flag is set, no callback is due.
    Next,
    /// Neither slot holds the goal: nothing changed.
    Unrelated,
}

/// The slots and flags of a server that runs one goal at a time.
pub struct ServerState<H, C> {
    pub current_goal: Option<Slot<H>>,
    pub next_goal: Option<Slot<H>>,
    pub preempt_request: bool,
    pub new_goal_preempt_request: bool,
    pub on_goal_cb: C,
    pub on_preempt_cb: C,
}

/// Whether the slot holds a goal stamped strictly later than `stamp`.
pub open spec fn slot_is_newer<H>(slot: Option<Slot<H>>, stamp: Time) -> bool {
    match slot {
        Some(s) => s.goal_id.stamp.nanos_spec() > stamp.nanos_spec(),
        None => false,
    }
}

/// Whether the slot holds the goal with id `id`.
pub open spec fn slot_holds<H>(slot: Option<Slot<H>>, id: Seq<char>) -> bool {
    match slot {
        Some(s) => s.goal_id.id@ == id,
        None => false,
    }
}

fn slot_is_later<H>(slot: &Option<Slot<H>>, stamp: Time) -> (r: bool)
    ensures
        r == slot_is_newer(*slot, stamp),
{
    match slot {
        Some(s) => s.goal_id.stamp.is_later_than(stamp),
        None => false,
    }
}

fn slot_matches<H>(slot: &Option<Slot<H>>, goal_id: &GoalID) -> (r: bool)
    ensures
        r == slot_holds(*slot, goal_id.id@),
{
    match slot {
        Some(s) => s.goal_id.same_goal(goal_id),
        None => false,
    }
}

impl<H, C> ServerState<H, C> {
    /// A goal stamped `stamp` is outdated when the current or the next goal
    /// is strictly newer; a tie is not outdated.
    pub open spec fn outdated_spec(&self, stamp: Time) -> bool {
        slot_is_newer(self.next_goal, stamp) || slot_is_newer(self.current_goal, stamp)
    }

    /// A fresh state: both slots empty, both flags clear.
    pub open spec fn new_spec(on_goal_cb: C, on_preempt_cb: C) -> Self {
        ServerState {
            current_goal: None,
            next_goal: None,
            preempt_request: false,
            new_goal_preempt_request: false,
            on_goal_cb,
            on_preempt_cb,
        }
    }

    /// Admission: an outdated goal is handed back with nothing changed; any
    /// other becomes the next goal with a clear flag, and the goal it
    /// displaced is handed back.
    pub open spec fn admitted(self, after: Self, goal: Slot<H>, r: Admission<H>) -> bool {
        &&& self.outdated_spec(goal.goal_id.stamp) <==> r is Outdated
        &&& match r {
            Admission::Outdated(back) => back == goal && after == self,
            Admission::Queued(displaced) => {
                &&& displaced == self.next_goal
                &&& after == (ServerState {
                    next_goal: Some(goal),
                    new_goal_preempt_request: false,
                    ..self
                })
            },
        }
    }

    /// Preemption: the current goal's flag is set where it is the goal, else
    /// the next goal's flag where that is the goal, else nothing changes.
    pub open spec fn preempted(self, after: Self, id: Seq<char>, r: Preemption) -> bool {
        if slot_holds(self.current_goal, id) {
            r == Preemption::Current && after == (ServerState { preempt_request: true, ..self })
        } else if slot_holds(self.next_goal, id) {
            r == Preemption::Next && after == (ServerState { new_goal_preempt_request: true, ..self })
        } else {
            r == Preemption::Unrelated && after == self
        }
    }

    /// Promotion: only when no goal runs and one is queued; the queued goal
    /// runs and its preempt flag moves with it.
    pub open spec fn promoted(self, after: Self, r: bool) -> bool {
        &&& r == (self.current_goal is None && self.next_goal is Some)
        &&& if r {
            after == (ServerState {
                current_goal: self.next_goal,
                next_goal: None,
                preempt_request: self.new_goal_preempt_request,
                new_goal_preempt_request: false,
                ..self
            })
        } else {
            after == self
        }
    }

    pub fn new(on_goal_cb: C, on_preempt_cb: C) -> (r: Self)
        ensures
            r == Self::new_spec(on_goal_cb, on_preempt_cb),
    {
        ServerState {
            current_goal: None,
            next_goal: None,
            preempt_request: false,
            new_goal_preempt_request: false,
            on_goal_cb,
            on_preempt_cb,
        }
    }

    pub fn is_outdated(&self, goal_id: &GoalID) -> (r: bool)
        ensures
            r == self.outdated_spec(goal_id.stamp),
    {
        let next_is_newer = slot_is_later(&self.next_goal, goal_id.stamp);
        let current_is_newer = slot_is_later(&self.current_goal, goal_id.stamp);
        next_is_newer || current_is_newer
    }

    /// Admits a goal. An outdated goal is handed back and nothing changes;
    /// any other becomes the next goal, with a clear preempt flag, and the
    /// goal it displaces is handed back.
    pub fn on_goal(&mut self, goal: Slot<H>) -> (r: Admission<H>)
        ensures
            old(self).admitted(*final(self), goal, r),
    {
        if self.is_outdated(&goal.goal_id) {
            return Admission::Outdated(goal);
        }
        let displaced = self.next_goal.take();
        self.next_goal = Some(goal);
        self.new_goal_preempt_request = false;
        Admission::Queued(displaced)
    }

    /// Routes a preemption request for the goal `goal_id` to the slot that
    /// holds it, the current slot first.
    pub fn on_preempt(&mut self, goal_id: &GoalID) -> (r: Preemption)
        ensures
            old(self).preempted(*final(self), goal_id.id@, r),
    {
        if slot_matches(&self.current_goal, goal_id) {
            self.preempt_request = true;
            Preemption::Current
        } else if slot_matches(&self.next_goal, goal_id) {
            self.new_goal_preempt_request = true;
            Preemption::Next
        } else {
            Preemption::Unrelated
        }
    }

    /// Moves the next goal into the current slot, carrying its preempt flag,
    /// when no goal is running and one is queued. Returns whether it did.
    pub fn promote(&mut self) -> (r: bool)
        ensures
            old(self).promoted(*final(self), r),
    {
        if self.current_goal.is_none() && self.next_goal.is_some() {
            self.current_goal = self.next_goal.take();
            self.preempt_request = self.new_goal_preempt_request;
            self.new_goal_preempt_request = false;
            true
        } else {
            false
        }
    }

    /// Ends the current goal, handing it back; the next goal stays queued.
    pub fn finish_current(&mut self) -> (r: Option<Slot<H>>)
        ensures
            r == old(self).current_goal,
            final(self).current_goal is None,
            final(self).next_goal == old(self).next_goal,
            final(self).preempt_request == old(self).preempt_request,
            final(self).new_goal_preempt_request == old(self).new_goal_preempt_request,
            final(self).on_goal_cb == old(self).on_goal_cb,
            final(self).on_preempt_cb == old(self).on_preempt_cb,
    {
        self.current_goal.take()
    }
}

/// A server that runs one goal at a time: the admission and preemption
/// policy over its two slots, and the callbacks registered for it.
pub struct SimpleActionServer<H, C> {
    state: ServerState<H, C>,
}

impl<H, C> SimpleActionServer<H, C> {
    pub closed spec fn state_spec(&self) -> ServerState<H, C> {
        self.state
    }

    pub fn new(on_goal_cb: C, on_preempt_cb: C) -> (r: Self)
        ensures
            r.state_spec() == ServerState::<H, C>::new_spec(on_goal_cb, on_preempt_cb),
    {
        SimpleActionServer { state: ServerState::new(on_goal_cb, on_preempt_cb) }
    }

    pub fn state(&self) -> (r: &ServerState<H, C>)
        ensures
            *r == self.state_spec(),
    {
        &self.state
    }

    pub fn register_on_goal_callback(&mut self, callback: C)
        ensures
            final(self).state_spec() == (ServerState { on_goal_cb: callback, ..old(self).state_spec() }),
    {
        self.state.on_goal_cb = callback;
    }

    pub fn register_on_preempt_callback(&mut self, callback: C)
        ensures
            final(self).state_spec() == (ServerState { on_preempt_cb: callback, ..old(self).state_spec() }),
    {
        self.state.on_preempt_cb = callback;
    }

    /// Admits a goal; see `ServerState::on_goal`.
    pub fn on_goal(&mut self, goal: Slot<H>) -> (r: Admission<H>)
        ensures
            old(self).state_spec().admitted(final(self).state_spec(), goal, r),
    {
        self.state.on_goal(goal)
    }

    /// Routes a preemption request; see `ServerState::on_preempt`.
    pub fn on_preempt(&mut self, goal_id: &GoalID) -> (r: Preemption)
        ensures
            old(self).state_spec().preempted(final(self).state_spec(), goal_id.id@, r),
    {
        self.state.on_preempt(goal_id)
    }

    /// Starts the next goal when none runs; see `ServerState::promote`.
    pub fn promote(&mut self) -> (r: bool)
        ensures
            old(self).state_spec().promoted(final(self).state_spec(), r),
    {
        self.state.promote()
    }

    /// Ends the current goal; see `ServerState::finish_current`.
    pub fn finish_current(&mut self) -> (r: Option<Slot<H>>)
        ensures
            r == old(self).state_spec().current_goal,
            final(self).state_spec() == (ServerState { current_goal: None, ..old(self).state_spec() }),
    {
        self.state.finish_current()
    }
}

/// A goal whose stamp equals that of the queued goal, with no newer goal
/// running, is not outdated: it replaces the queued one.
pub proof fn lemma_tie_is_not_outdated<H, C>(state: ServerState<H, C>, stamp: Time)
    requires
        state.next_goal is Some,
        state.next_goal.unwrap().goal_id.stamp.nanos_spec() == stamp.nanos_spec(),
        !slot_is_newer(state.current_goal, stamp),
    ensures
        !state.outdated_spec(stamp),
{
}

/// A goal newer than the queued one, with no newer goal running, takes the
/// queued goal's slot; the queued goal is handed back and, being in neither
/// slot, can no longer be promoted.
pub proof fn lemma_newer_goal_displaces_queued<H, C>(
    state: ServerState<H, C>,
    after: ServerState<H, C>,
    goal: Slot<H>,
    r: Admission<H>,
)
    requires
        state.admitted(after, goal, r),
        state.next_goal is Some,
        goal.goal_id.stamp.nanos_spec() > state.next_goal.unwrap().goal_id.stamp.nanos_spec(),
        !slot_is_newer(state.current_goal, goal.goal_id.stamp),
    ensures
        r == Admission::Queued(state.next_goal),
        after.next_goal == Some(goal),
        after.current_goal == state.current_goal,
{
}

} // verus!
