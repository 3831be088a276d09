use vstd::prelude::*;

use crate::metrics::{bump_count, bumped};

verus! {

/// Lifecycle of an atomic multi-leg group.
#[derive(Debug, Clone, Copy, PartialEq, Eq, Structural)]
pub enum GroupState {
    New,
    Dispatched,
    Complete,
    MixedFailed,
    Flattening,
    Flattened,
}

pub open spec fn group_state_name(s: GroupState) -> Seq<char> {
    match s {
        GroupState::New => "New"@,
        GroupState::Dispatched => "Dispatched"@,
        GroupState::Complete => "Complete"@,
        GroupState::MixedFailed => "MixedFailed"@,
        GroupState::Flattening => "Flattening"@,
        GroupState::Flattened => "Flattened"@,
    }
}

impl GroupState {
    pub fn is_terminal(self) -> (r: bool)
        ensures
            r == (self == GroupState::Complete || self == GroupState::Flattened),
    {
        matches!(self, GroupState::Complete | GroupState::Flattened)
    }

    /// Opens are refused while a group is mixed-failed or being flattened.
    pub fn allows_open(self) -> (r: bool)
        ensures
            r == !(self == GroupState::MixedFailed || self == GroupState::Flattening),
    {
        !matches!(self, GroupState::MixedFailed | GroupState::Flattening)
    }

    pub fn as_str(self) -> (r: &'static str)
        ensures
            r@ == group_state_name(self),
    {
        match self {
            GroupState::New => "New",
            GroupState::Dispatched => "Dispatched",
            GroupState::Complete => "Complete",
            GroupState::MixedFailed => "MixedFailed",
            GroupState::Flattening => "Flattening",
            GroupState::Flattened => "Flattened",
        }
    }
}

#[derive(Debug, Clone, Copy, PartialEq, Eq, Structural)]
pub enum GroupFailure {
    Rejected,
    Canceled,
    Unfilled,
    PartialFill,
    FillMismatch,
}

impl GroupFailure {
    pub fn as_str(self) -> (r: &'static str)
        ensures
            r@ == (match self {
                GroupFailure::Rejected => "Rejected"@,
                GroupFailure::Canceled => "Canceled"@,
                GroupFailure::Unfilled => "Unfilled"@,
                GroupFailure::PartialFill => "PartialFill"@,
                GroupFailure::FillMismatch => "FillMismatch"@,
            }),
    {
        match self {
            GroupFailure::Rejected => "Rejected",
            GroupFailure::Canceled => "Canceled",
            GroupFailure::Unfilled => "Unfilled",
            GroupFailure::PartialFill => "PartialFill",
            GroupFailure::FillMismatch => "FillMismatch",
        }
    }
}

#[derive(Debug, Clone, Copy, PartialEq, Eq, Structural)]
pub enum LegState {
    Pending,
    Filled,
    Rejected,
    Canceled,
    Unfilled,
}

#[derive(Debug, Clone)]
pub struct GroupTransitionError {
    pub message: String,
}

impl GroupTransitionError {
    pub fn new(message: &str) -> (e: Self)
        ensures
            e.message@ == message@,
    {
        Self { message: String::from_str(message) }
    }
}

/// The transitions an atomic group may take.
pub open spec fn transition_allowed_spec(from: GroupState, to: GroupState) -> bool {
    ||| (from == GroupState::New && to == GroupState::Dispatched)
    ||| (from == GroupState::Dispatched && to == GroupState::Complete)
    ||| (from == GroupState::Dispatched && to == GroupState::MixedFailed)
    ||| (from == GroupState::MixedFailed && to == GroupState::Flattening)
    ||| (from == GroupState::Flattening && to == GroupState::Flattened)
}

fn transition_allowed(from: GroupState, to: GroupState) -> (r: bool)
    ensures
        r == transition_allowed_spec(from, to),
{
    matches!(
        (from, to),
        (GroupState::New, GroupState::Dispatched)
            | (GroupState::Dispatched, GroupState::Complete)
            | (GroupState::Dispatched, GroupState::MixedFailed)
            | (GroupState::MixedFailed, GroupState::Flattening)
            | (GroupState::Flattening, GroupState::Flattened)
    )
}

/// Message of a refused transition.
pub open spec fn illegal_transition_message(from: GroupState, to: GroupState) -> Seq<char> {
    "illegal group transition: "@ + group_state_name(from) + " -> "@ + group_state_name(to)
}

pub struct AtomicGroup {
    group_id: String,
    state: GroupState,
    first_failure: Option<GroupFailure>,
}

impl AtomicGroup {
    pub closed spec fn spec_group_id(&self) -> Seq<char> {
        self.group_id@
    }

    pub closed spec fn spec_state(&self) -> GroupState {
        self.state
    }

    pub closed spec fn spec_first_failure(&self) -> Option<GroupFailure> {
        self.first_failure
    }

    pub fn new(group_id: &str) -> (g: Self)
        ensures
            g.spec_group_id() == group_id@,
            g.spec_state() == GroupState::New,
            g.spec_first_failure() is None,
    {
        Self { group_id: String::from_str(group_id), state: GroupState::New, first_failure: None }
    }

    pub fn group_id(&self) -> (r: &str)
        ensures
            r@ == self.spec_group_id(),
    {
        self.group_id.as_str()
    }

    pub fn state(&self) -> (r: GroupState)
        ensures
            r == self.spec_state(),
    {
        self.state
    }

    pub fn first_failure(&self) -> (r: Option<GroupFailure>)
        ensures
            r == self.spec_first_failure(),
    {
        self.first_failure
    }

    /// Records the first failure only; later failures do not overwrite it.
    pub fn seed_first_failure(&mut self, failure: GroupFailure)
        ensures
            final(self).spec_first_failure() == (if old(self).spec_first_failure() is None {
                Some(failure)
            } else {
                old(self).spec_first_failure()
            }),
            final(self).spec_state() == old(self).spec_state(),
            final(self).spec_group_id() == old(self).spec_group_id(),
    {
        if self.first_failure.is_none() {
            self.first_failure = Some(failure);
        }
    }

    /// Moves to `next` when that is the current state or an allowed transition;
    /// otherwise leaves the group unchanged and reports the illegal transition.
    pub fn transition_to(&mut self, next: GroupState) -> (r: Result<(), GroupTransitionError>)
        ensures
            final(self).spec_group_id() == old(self).spec_group_id(),
            final(self).spec_first_failure() == old(self).spec_first_failure(),
            (old(self).spec_state() == next || transition_allowed_spec(old(self).spec_state(), next))
                ==> (r is Ok && final(self).spec_state() == next),
            !(old(self).spec_state() == next || transition_allowed_spec(old(self).spec_state(), next))
                ==> (r matches Err(e) && e.message@ == illegal_transition_message(old(self).spec_state(), next)
                && final(self).spec_state() == old(self).spec_state()),
    {
        if self.state == next {
            return Ok(());
        }
        if !transition_allowed(self.state, next) {
            let mut message = String::from_str("illegal group transition: ");
            message.append(self.state.as_str());
            message.append(" -> ");
            message.append(next.as_str());
            return Err(GroupTransitionError { message });
        }
        self.state = next;
        Ok(())
    }
}

/// `Complete` and `Flattened` are terminal: no transition out of them is allowed.
pub proof fn lemma_terminal_states_absorbing(from: GroupState, to: GroupState)
    requires
        from == GroupState::Complete || from == GroupState::Flattened,
    ensures
        !transition_allowed_spec(from, to),
{
}

/// Containment runs in order: `Flattened` is entered only from `Flattening`, `Flattening`
/// only from `MixedFailed`, `MixedFailed` only from `Dispatched`, and nothing returns to `New`.
pub proof fn lemma_containment_ordering(from: GroupState, to: GroupState)
    requires
        transition_allowed_spec(from, to),
    ensures
        to == GroupState::Flattened ==> from == GroupState::Flattening,
        to == GroupState::Flattening ==> from == GroupState::MixedFailed,
        to == GroupState::MixedFailed ==> from == GroupState::Dispatched,
        to != GroupState::New,
{
}

/// Per-state counters of entries into each group state.
pub struct AtomicGroupMetrics {
    new_total: u64,
    dispatched_total: u64,
    complete_total: u64,
    mixed_failed_total: u64,
    flattening_total: u64,
    flattened_total: u64,
}

impl AtomicGroupMetrics {
    pub closed spec fn count(&self, state: GroupState) -> u64 {
        match state {
            GroupState::New => self.new_total,
            GroupState::Dispatched => self.dispatched_total,
            GroupState::Complete => self.complete_total,
            GroupState::MixedFailed => self.mixed_failed_total,
            GroupState::Flattening => self.flattening_total,
            GroupState::Flattened => self.flattened_total,
        }
    }

    pub fn new() -> (m: Self)
        ensures
            forall|s: GroupState| m.count(s) == 0,
    {
        Self {
            new_total: 0,
            dispatched_total: 0,
            complete_total: 0,
            mixed_failed_total: 0,
            flattening_total: 0,
            flattened_total: 0,
        }
    }

    pub fn total(&self, state: GroupState) -> (r: u64)
        ensures
            r == self.count(state),
    {
        match state {
            GroupState::New => self.new_total,
            GroupState::Dispatched => self.dispatched_total,
            GroupState::Complete => self.complete_total,
            GroupState::MixedFailed => self.mixed_failed_total,
            GroupState::Flattening => self.flattening_total,
            GroupState::Flattened => self.flattened_total,
        }
    }

    pub fn bump(&mut self, state: GroupState)
        ensures
            final(self).count(state) == bumped(old(self).count(state)),
            forall|s: GroupState| s != state ==> final(self).count(s) == old(self).count(s),
    {
        match state {
            GroupState::New => self.new_total = bump_count(self.new_total),
            GroupState::Dispatched => self.dispatched_total = bump_count(self.dispatched_total),
            GroupState::Complete => self.complete_total = bump_count(self.complete_total),
            GroupState::MixedFailed => self.mixed_failed_total = bump_count(self.mixed_failed_total),
            GroupState::Flattening => self.flattening_total = bump_count(self.flattening_total),
            GroupState::Flattened => self.flattened_total = bump_count(self.flattened_total),
        }
    }
}

} // verus!
