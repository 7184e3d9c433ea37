//! The Fleet polling controller: a pure `{active, visible}` state machine
//! that decides whether a poll tick is allowed and whether a resume fetch is
//! owed. It owns no timer; it emits a tick only while the Fleet route is
//! active and the document visible, fetches once on re-entering that
//! condition, and never replays missed ticks.

use vstd::prelude::*;

verus! {

/// The poll controller. `was_running` records whether the previous
/// evaluation was in the running condition, so a re-entry is told apart
/// from a steady tick.
#[derive(Clone, Copy, PartialEq, Eq, Debug, Structural)]
pub struct FleetPoll {
    active: bool,
    visible: bool,
    was_running: bool,
}

/// What the poll loop should do after an input change.
#[derive(Clone, Copy, PartialEq, Eq, Debug, Structural)]
pub enum PollAction {
    /// Not running: stop the loop.
    Stop,
    /// Just entered the running condition: fetch once now, then poll.
    FetchOnceThenPoll,
    /// Already running: keep polling, no extra fetch.
    Poll,
}

/// The action for a running condition and the previous one.
pub open spec fn poll_action_spec(running: bool, was_running: bool) -> PollAction {
    if !running {
        PollAction::Stop
    } else if was_running {
        PollAction::Poll
    } else {
        PollAction::FetchOnceThenPoll
    }
}

impl FleetPoll {
    /// The last inputs and whether they were the running condition.
    pub closed spec fn state(&self) -> (bool, bool, bool) {
        (self.active, self.visible, self.was_running)
    }

    /// Whether the machine is in the running condition.
    pub open spec fn running_spec(&self) -> bool {
        self.state().0 && self.state().1
    }

    /// Whether the previous evaluation was running.
    pub open spec fn was_running_spec(&self) -> bool {
        self.state().2
    }

    /// A fresh controller: nothing running, no resume owed yet.
    pub fn new() -> (r: Self)
        ensures
            r.state() == (false, false, false),
    {
        FleetPoll { active: false, visible: false, was_running: false }
    }

    /// Whether the machine is currently running (active and visible).
    pub fn is_running(&self) -> (r: bool)
        ensures
            r == self.running_spec(),
    {
        self.active && self.visible
    }

    /// Feed the current inputs and get the action: a fresh entry fetches
    /// once then polls, a steady state polls, anything else stops (and the
    /// resume latch resets).
    pub fn update(&mut self, active: bool, visible: bool) -> (r: PollAction)
        ensures
            final(self).state() == (active, visible, active && visible),
            r == poll_action_spec(active && visible, old(self).was_running_spec()),
    {
        self.active = active;
        self.visible = visible;
        let running = self.is_running();
        let action = if !running {
            PollAction::Stop
        } else if self.was_running {
            PollAction::Poll
        } else {
            PollAction::FetchOnceThenPoll
        };
        self.was_running = running;
        action
    }
}

impl Default for FleetPoll {
    fn default() -> (r: Self)
        ensures
            r.state() == (false, false, false),
    {
        FleetPoll::new()
    }
}

/// The controller never polls or fetches unless both inputs are true, and a
/// resume fetch is owed exactly on entering the running condition from a
/// stopped one.
pub proof fn lemma_poll_runs_only_when_active_and_visible(
    before: FleetPoll,
    active: bool,
    visible: bool,
)
    ensures
        poll_action_spec(active && visible, before.was_running_spec()) != PollAction::Stop
            <==> (active && visible),
        poll_action_spec(active && visible, before.was_running_spec())
            == PollAction::FetchOnceThenPoll <==> (active && visible && !before.was_running_spec()),
{
}

} // verus!
