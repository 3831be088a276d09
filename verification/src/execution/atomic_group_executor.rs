//! Drives atomic groups through their lifecycle from leg outcomes, and bounds the
//! rescue attempts of a mixed-failed group before containment.
//!
//! Whether a leg is partially filled, and whether the legs' fills disagree by more
//! than the tolerance, are float comparisons made where the fills are known; the
//! executor receives their outcome.

use vstd::prelude::*;

use crate::execution::group::{
    transition_allowed_spec, AtomicGroup, GroupFailure, GroupState, GroupTransitionError, LegState,
};
use crate::named_table::{
    age_at, find_index, find_named, keep_recent, lemma_find_absent, lemma_find_at,
    lemma_find_remove, lemma_find_update, lemma_push_new, lemma_recent, names_unique, recent,
    NamedEntry,
};

verus! {

/// Rescue attempts allowed before containment.
pub const MAX_RESCUE_ATTEMPTS: u8 = 2;

/// Rescue-attempt records older than this are forgotten (one hour, in ms).
pub const RESCUE_ATTEMPTS_TTL_MS: u64 = 3_600_000;

#[derive(Debug, Clone, Copy, PartialEq, Eq, Structural)]
pub enum RescueAction {
    Retry,
    Flatten,
    Noop,
}

/// What the executor reads of one leg.
#[derive(Debug, Clone, Copy, PartialEq, Eq, Structural)]
pub struct LegReading {
    pub state: LegState,
    /// Some but not all of the requested quantity is filled.
    pub is_partial: bool,
}

pub open spec fn leg_is_terminal(l: LegReading) -> bool {
    l.state != LegState::Pending
}

/// The failure one leg shows, if any: its terminal failure state first, then a partial fill.
pub open spec fn leg_failure(l: LegReading) -> Option<GroupFailure> {
    match l.state {
        LegState::Rejected => Some(GroupFailure::Rejected),
        LegState::Canceled => Some(GroupFailure::Canceled),
        LegState::Unfilled => Some(GroupFailure::Unfilled),
        _ => if l.is_partial {
            Some(GroupFailure::PartialFill)
        } else {
            None
        },
    }
}

/// The failure of the first failing leg, in leg order.
pub open spec fn first_leg_failure(legs: Seq<LegReading>) -> Option<GroupFailure>
    decreases legs.len(),
{
    if legs.len() == 0 {
        None
    } else {
        match leg_failure(legs[0]) {
            Some(f) => Some(f),
            None => first_leg_failure(legs.skip(1)),
        }
    }
}

/// The group's failure: a failing leg, else a fill mismatch between the legs.
pub open spec fn detect_failure_spec(legs: Seq<LegReading>, fill_mismatch: bool) -> Option<
    GroupFailure,
> {
    match first_leg_failure(legs) {
        Some(f) => Some(f),
        None => if fill_mismatch {
            Some(GroupFailure::FillMismatch)
        } else {
            None
        },
    }
}

pub open spec fn all_terminal(legs: Seq<LegReading>) -> bool {
    forall|i: int| 0 <= i < legs.len() ==> leg_is_terminal(#[trigger] legs[i])
}

fn detect_failure(legs: &[LegReading], fill_mismatch: bool) -> (r: Option<GroupFailure>)
    ensures
        r == detect_failure_spec(legs@, fill_mismatch),
{
    let n = legs.len();
    let mut i: usize = 0;
    assert(legs@.skip(0) =~= legs@);
    while i < n
        invariant
            n == legs@.len(),
            i <= n,
            first_leg_failure(legs@) == first_leg_failure(legs@.skip(i as int)),
        decreases n - i,
    {
        let leg = legs[i];
        assert(legs@.skip(i as int)[0] == leg);
        match leg.state {
            LegState::Rejected => {
                return Some(GroupFailure::Rejected);
            },
            LegState::Canceled => {
                return Some(GroupFailure::Canceled);
            },
            LegState::Unfilled => {
                return Some(GroupFailure::Unfilled);
            },
            LegState::Pending | LegState::Filled => {},
        }
        if leg.is_partial {
            return Some(GroupFailure::PartialFill);
        }
        assert(legs@.skip(i as int).skip(1) =~= legs@.skip(i + 1));
        i = i + 1;
    }
    assert(legs@.skip(n as int).len() == 0);
    if fill_mismatch {
        Some(GroupFailure::FillMismatch)
    } else {
        None
    }
}

fn all_legs_terminal(legs: &[LegReading]) -> (r: bool)
    ensures
        r == all_terminal(legs@),
{
    let mut i: usize = 0;
    while i < legs.len()
        invariant
            i <= legs@.len(),
            forall|j: int| 0 <= j < i ==> leg_is_terminal(#[trigger] legs@[j]),
        decreases legs@.len() - i,
    {
        if matches!(legs[i].state, LegState::Pending) {
            assert(!leg_is_terminal(legs@[i as int]));
            return false;
        }
        i = i + 1;
    }
    true
}

/// The executor's rescue-attempt counts, by group id.
pub struct AtomicGroupExecutor {
    rescue_attempts: Vec<NamedEntry<u8>>,
}

impl AtomicGroupExecutor {
    pub closed spec fn wf(&self) -> bool {
        names_unique(self.rescue_attempts@)
    }

    /// Recorded rescue attempts of a group with the time of the last one.
    pub closed spec fn attempts(&self, group_id: Seq<char>) -> Option<(u8, u64)> {
        find_named(self.rescue_attempts@, group_id)
    }

    pub fn new() -> (e: Self)
        ensures
            e.wf(),
            forall|g: Seq<char>| e.attempts(g) is None,
    {
        Self { rescue_attempts: Vec::new() }
    }

    /// The intent record is persisted: the group is dispatched.
    pub fn on_intent_persisted(&self, group: &mut AtomicGroup) -> (r: Result<(), GroupTransitionError>)
        ensures
            transition_allowed_spec(old(group).spec_state(), GroupState::Dispatched) || old(
                group,
            ).spec_state() == GroupState::Dispatched ==> r is Ok && final(group).spec_state()
                == GroupState::Dispatched,
            r is Err ==> final(group).spec_state() == old(group).spec_state(),
            final(group).spec_first_failure() == old(group).spec_first_failure(),
    {
        group.transition_to(GroupState::Dispatched)
    }

    fn clear_rescue_attempts(&mut self, group_id: &str)
        requires
            old(self).wf(),
        ensures
            final(self).wf(),
            final(self).attempts(group_id@) is None,
            forall|g: Seq<char>| g != group_id@ ==> #[trigger] final(self).attempts(g) == old(self).attempts(g),
    {
        match find_index(&self.rescue_attempts, group_id) {
            Some(i) => {
                let ghost old_entries = self.rescue_attempts@;
                proof {
                    assert forall|g: Seq<char>| g != group_id@ implies #[trigger] find_named(old_entries.remove(i as int), g)
                        == find_named(old_entries, g) by {
                        lemma_find_remove(old_entries, i as int, g);
                    }
                    lemma_find_remove(old_entries, i as int, group_id@);
                }
                self.rescue_attempts.remove(i);
            },
            None => {
                proof {
                    lemma_find_absent(self.rescue_attempts@, group_id@);
                }
            },
        }
    }

    /// Advances a dispatched group from its legs' outcomes. A failing leg (or, failing
    /// none, a fill mismatch) moves it to MixedFailed with that first failure; all legs
    /// terminal with none failing completes it. Groups in other states are left alone.
    pub fn evaluate(&mut self, group: &mut AtomicGroup, legs: &[LegReading], fill_mismatch: bool) -> (r:
        Result<(), GroupTransitionError>)
        requires
            old(self).wf(),
        ensures
            final(self).wf(),
            r is Ok,
            final(group).spec_group_id() == old(group).spec_group_id(),
            old(group).spec_state() != GroupState::Dispatched ==> *final(group) == *old(group)
                && forall|g: Seq<char>| #[trigger] final(self).attempts(g) == old(self).attempts(g),
            old(group).spec_state() == GroupState::Dispatched ==> match detect_failure_spec(
                legs@,
                fill_mismatch,
            ) {
                Some(f) => final(group).spec_state() == GroupState::MixedFailed
                    && final(group).spec_first_failure() == (match old(group).spec_first_failure() {
                    Some(g) => Some(g),
                    None => Some(f),
                }) && final(self).attempts(old(group).spec_group_id()) is None,
                None => if all_terminal(legs@) && legs@.len() > 0 {
                    final(group).spec_state() == GroupState::Complete
                        && final(group).spec_first_failure() == old(group).spec_first_failure()
                        && final(self).attempts(old(group).spec_group_id()) is None
                } else {
                    *final(group) == *old(group) && forall|g: Seq<char>|
                        #[trigger] final(self).attempts(g) == old(self).attempts(g)
                },
            },
            forall|g: Seq<char>|
                g != old(group).spec_group_id() ==> #[trigger] final(self).attempts(g) == old(
                    self,
                ).attempts(g),
    {
        if group.state() != GroupState::Dispatched {
            return Ok(());
        }
        match detect_failure(legs, fill_mismatch) {
            Some(failure) => {
                group.seed_first_failure(failure);
                let t = group.transition_to(GroupState::MixedFailed);
                assert(t is Ok);
                self.clear_rescue_attempts(group.group_id());
                return Ok(());
            },
            None => {},
        }
        if !all_legs_terminal(legs) {
            return Ok(());
        }
        if legs.len() > 0 {
            let t = group.transition_to(GroupState::Complete);
            assert(t is Ok);
            self.clear_rescue_attempts(group.group_id());
        }
        Ok(())
    }

    /// Containment starts: the group moves to Flattening.
    pub fn start_containment(&self, group: &mut AtomicGroup) -> (r: Result<(), GroupTransitionError>)
        ensures
            transition_allowed_spec(old(group).spec_state(), GroupState::Flattening) || old(
                group,
            ).spec_state() == GroupState::Flattening ==> r is Ok && final(group).spec_state()
                == GroupState::Flattening,
            r is Err ==> final(group).spec_state() == old(group).spec_state(),
            final(group).spec_group_id() == old(group).spec_group_id(),
            final(group).spec_first_failure() == old(group).spec_first_failure(),
    {
        group.transition_to(GroupState::Flattening)
    }

    /// The group is flat: it moves to Flattened and its rescue attempts are forgotten.
    pub fn mark_flattened(&mut self, group: &mut AtomicGroup) -> (r: Result<(), GroupTransitionError>)
        requires
            old(self).wf(),
        ensures
            final(self).wf(),
            transition_allowed_spec(old(group).spec_state(), GroupState::Flattened) || old(
                group,
            ).spec_state() == GroupState::Flattened ==> r is Ok && final(group).spec_state()
                == GroupState::Flattened && final(self).attempts(old(group).spec_group_id()) is None,
            r is Err ==> final(group).spec_state() == old(group).spec_state() && forall|g: Seq<char>|
                #[trigger] final(self).attempts(g) == old(self).attempts(g),
            forall|g: Seq<char>|
                g != old(group).spec_group_id() ==> #[trigger] final(self).attempts(g) == old(
                    self,
                ).attempts(g),
    {
        let t = group.transition_to(GroupState::Flattened);
        match t {
            Ok(()) => {
                self.clear_rescue_attempts(group.group_id());
                Ok(())
            },
            Err(e) => Err(e),
        }
    }

    /// Opens are allowed unless the group is failed or being contained.
    pub fn open_allowed(&self, group: &AtomicGroup) -> (r: bool)
        ensures
            r == !(group.spec_state() == GroupState::MixedFailed || group.spec_state()
                == GroupState::Flattening),
    {
        group.state().allows_open()
    }

    /// Recorded rescue attempts of the group (zero when none are recorded).
    pub fn rescue_attempts(&self, group: &AtomicGroup) -> (n: u8)
        requires
            self.wf(),
        ensures
            n == match self.attempts(group.spec_group_id()) {
                Some((c, _)) => c,
                None => 0,
            },
    {
        match find_index(&self.rescue_attempts, group.group_id()) {
            Some(i) => {
                proof {
                    lemma_find_at(self.rescue_attempts@, i as int, group.spec_group_id());
                }
                self.rescue_attempts[i].value
            },
            None => {
                proof {
                    lemma_find_absent(self.rescue_attempts@, group.spec_group_id());
                }
                0
            },
        }
    }

    /// Records a failed rescue of a mixed-failed group at `now_ms`: forgets attempt
    /// records older than the TTL, counts this attempt (up to the maximum), and starts
    /// containment once the maximum is reached. Groups in other states are left alone.
    pub fn record_rescue_failure(&mut self, group: &mut AtomicGroup, now_ms: u64) -> (r: Result<
        RescueAction,
        GroupTransitionError,
    >)
        requires
            old(self).wf(),
        ensures
            final(self).wf(),
            final(group).spec_group_id() == old(group).spec_group_id(),
            final(group).spec_first_failure() == old(group).spec_first_failure(),
            old(group).spec_state() != GroupState::MixedFailed ==> r == Ok::<
                RescueAction,
                GroupTransitionError,
            >(RescueAction::Noop) && *final(group) == *old(group) && forall|g: Seq<char>|
                #[trigger] final(self).attempts(g) == old(self).attempts(g),
            old(group).spec_state() == GroupState::MixedFailed ==> {
                let gid = old(group).spec_group_id();
                let prior = match old(self).attempts(gid) {
                    Some((c, t)) => if age_at(now_ms, t) <= RESCUE_ATTEMPTS_TTL_MS {
                        c
                    } else {
                        0
                    },
                    None => 0,
                };
                let attempt = if prior < MAX_RESCUE_ATTEMPTS {
                    (prior + 1) as u8
                } else {
                    prior
                };
                &&& final(self).attempts(gid) == Some((attempt, now_ms))
                &&& forall|g: Seq<char>|
                    g != gid ==> #[trigger] final(self).attempts(g) == (match old(self).attempts(g) {
                        Some((c, t)) => if age_at(now_ms, t) <= RESCUE_ATTEMPTS_TTL_MS {
                            Some((c, t))
                        } else {
                            None
                        },
                        None => None,
                    })
                &&& attempt >= MAX_RESCUE_ATTEMPTS ==> r == Ok::<
                    RescueAction,
                    GroupTransitionError,
                >(RescueAction::Flatten) && final(group).spec_state() == GroupState::Flattening
                &&& attempt < MAX_RESCUE_ATTEMPTS ==> r == Ok::<
                    RescueAction,
                    GroupTransitionError,
                >(RescueAction::Retry) && final(group).spec_state() == GroupState::MixedFailed
            },
    {
        if group.state() != GroupState::MixedFailed {
            return Ok(RescueAction::Noop);
        }
        let ghost old_entries = self.rescue_attempts@;
        let kept = keep_recent(&self.rescue_attempts, now_ms, RESCUE_ATTEMPTS_TTL_MS);
        proof {
            lemma_recent(old_entries, now_ms, RESCUE_ATTEMPTS_TTL_MS);
        }
        self.rescue_attempts = kept;
        let gid = group.group_id();
        let attempt = match find_index(&self.rescue_attempts, gid) {
            Some(i) => {
                proof {
                    lemma_find_at(self.rescue_attempts@, i as int, gid@);
                }
                let prior = self.rescue_attempts[i].value;
                let next: u8 = if prior < MAX_RESCUE_ATTEMPTS {
                    prior + 1
                } else {
                    prior
                };
                let entry = NamedEntry { name: String::from_str(gid), value: next, updated_at_ms: now_ms };
                let ghost cur = self.rescue_attempts@;
                proof {
                    assert forall|g: Seq<char>| #[trigger] find_named(cur.update(i as int, entry), g)
                        == (if g == gid@ {
                        Some((next, now_ms))
                    } else {
                        find_named(cur, g)
                    }) by {
                        lemma_find_update(cur, i as int, entry, g);
                    }
                    lemma_find_update(cur, i as int, entry, gid@);
                }
                self.rescue_attempts.set(i, entry);
                next
            },
            None => {
                proof {
                    lemma_find_absent(self.rescue_attempts@, gid@);
                }
                let entry = NamedEntry { name: String::from_str(gid), value: 1, updated_at_ms: now_ms };
                let ghost cur = self.rescue_attempts@;
                proof {
                    assert forall|g: Seq<char>| #[trigger] find_named(cur.push(entry), g) == (if g
                        == gid@ {
                        Some((1u8, now_ms))
                    } else {
                        find_named(cur, g)
                    }) by {
                        lemma_push_new(cur, entry, g);
                    }
                    lemma_push_new(cur, entry, gid@);
                }
                self.rescue_attempts.push(entry);
                1
            },
        };
        if attempt >= MAX_RESCUE_ATTEMPTS {
            let t = self.start_containment(group);
            assert(t is Ok);
            return Ok(RescueAction::Flatten);
        }
        Ok(RescueAction::Retry)
    }
}

impl Default for AtomicGroupExecutor {
    fn default() -> (e: Self)
        ensures
            e.wf(),
            forall|g: Seq<char>| e.attempts(g) is None,
    {
        Self::new()
    }
}

/// Rescue attempts are bounded: a group reaching the maximum is put into containment,
/// so a mixed-failed group is never retried more than `MAX_RESCUE_ATTEMPTS` times.
pub proof fn lemma_rescue_attempts_bounded(prior: u8)
    requires
        prior <= MAX_RESCUE_ATTEMPTS,
    ensures
        ({
            let attempt = if prior < MAX_RESCUE_ATTEMPTS {
                (prior + 1) as u8
            } else {
                prior
            };
            attempt <= MAX_RESCUE_ATTEMPTS && (prior + 1 >= MAX_RESCUE_ATTEMPTS ==> attempt
                >= MAX_RESCUE_ATTEMPTS)
        }),
{
}

} // verus!
