use crate::error::Error;
use vstd::prelude::*;

verus! {

/// Whether a session is live.
#[derive(Debug, Clone, Copy, PartialEq, Eq, Structural)]
pub enum SessionGuardState {
    Idle,
    Active,
}

/// A call made on a guard.
pub enum GuardOp {
    Acquire,
    Release,
}

/// The state in which `op` leaves a guard that was in `state`.
pub open spec fn guard_step(state: SessionGuardState, op: GuardOp) -> SessionGuardState {
    match op {
        GuardOp::Acquire => SessionGuardState::Active,
        GuardOp::Release => SessionGuardState::Idle,
    }
}

/// Whether `op`, made in `state`, hands out the guard.
pub open spec fn grants(state: SessionGuardState, op: GuardOp) -> bool {
    op is Acquire && state is Idle
}

/// The state of a new guard after the calls `ops`, made in that order.
pub open spec fn guard_after(ops: Seq<GuardOp>) -> SessionGuardState
    decreases ops.len(),
{
    if ops.len() == 0 {
        SessionGuardState::Idle
    } else {
        guard_step(guard_after(ops.drop_last()), ops.last())
    }
}

/// How many acquisitions of a new guard were granted in `ops` and not yet
/// given back: a granted `Acquire` adds one, a `Release` of an active guard
/// takes one away.
pub open spec fn outstanding(ops: Seq<GuardOp>) -> int
    decreases ops.len(),
{
    if ops.len() == 0 {
        0
    } else {
        let before = guard_after(ops.drop_last());
        let held = outstanding(ops.drop_last());
        if grants(before, ops.last()) {
            held + 1
        } else if ops.last() is Release && before is Active {
            held - 1
        } else {
            held
        }
    }
}

/// Admits one session at a time.
///
/// The methods that change the guard take it by `&mut`, so no two calls on one
/// guard overlap: of two callers that ask for an idle guard, the first is
/// admitted and the second refused. To share a guard between threads, keep it
/// behind a lock and call it with the lock held.
#[derive(Debug)]
pub struct SessionManager {
    state: SessionGuardState,
}

impl View for SessionManager {
    type V = SessionGuardState;

    closed spec fn view(&self) -> SessionGuardState {
        self.state
    }
}

impl SessionManager {
    /// A guard with no session live.
    pub fn new() -> (manager: SessionManager)
        ensures
            manager@ is Idle,
    {
        SessionManager { state: SessionGuardState::Idle }
    }

    /// Whether a session is live.
    pub fn is_active(&self) -> (active: bool)
        ensures
            active == (self@ is Active),
    {
        match self.state {
            SessionGuardState::Active => true,
            SessionGuardState::Idle => false,
        }
    }

    /// Takes the guard. An idle guard becomes active; an active one refuses
    /// and stays as it is.
    pub fn acquire_session(&mut self) -> (outcome: Result<(), Error>)
        ensures
            final(self)@ == guard_step(old(self)@, GuardOp::Acquire),
            grants(old(self)@, GuardOp::Acquire) ==> outcome is Ok,
            !grants(old(self)@, GuardOp::Acquire) ==> outcome == Err::<(), Error>(
                Error::SessionAlreadyExists,
            ) && *final(self) == *old(self),
    {
        match self.state {
            SessionGuardState::Idle => {
                self.state = SessionGuardState::Active;
                Ok(())
            },
            SessionGuardState::Active => Err(Error::SessionAlreadyExists),
        }
    }

    /// Gives the guard back. The guard is idle afterwards, whatever it was:
    /// releasing an idle guard changes nothing.
    pub fn release_session(&mut self)
        ensures
            final(self)@ == guard_step(old(self)@, GuardOp::Release),
            old(self)@ is Idle ==> *final(self) == *old(self),
    {
        self.state = SessionGuardState::Idle;
    }
}

impl Default for SessionManager {
    fn default() -> (manager: SessionManager)
        ensures
            manager@ is Idle,
    {
        SessionManager::new()
    }
}

/// At most one acquisition is outstanding after any calls on a new guard, and
/// one is outstanding exactly while the guard is active.
pub proof fn lemma_at_most_one_outstanding(ops: Seq<GuardOp>)
    ensures
        0 <= outstanding(ops) <= 1,
        outstanding(ops) == 1 <==> guard_after(ops) is Active,
    decreases ops.len(),
{
    if ops.len() > 0 {
        lemma_at_most_one_outstanding(ops.drop_last());
    }
}

/// An `Acquire` on a guard that is active after `ops` is refused and leaves
/// the guard and the outstanding acquisition as they were.
pub proof fn lemma_second_acquire_refused(ops: Seq<GuardOp>)
    requires
        guard_after(ops) is Active,
    ensures
        !grants(guard_after(ops), GuardOp::Acquire),
        guard_after(ops.push(GuardOp::Acquire)) == guard_after(ops),
        outstanding(ops.push(GuardOp::Acquire)) == outstanding(ops),
{
    assert(ops.push(GuardOp::Acquire).drop_last() == ops);
}

/// A `Release` on a guard that is idle after `ops` changes nothing, and so
/// does every `Release` that follows a `Release`.
pub proof fn lemma_release_idempotent(ops: Seq<GuardOp>)
    ensures
        guard_after(ops.push(GuardOp::Release)) is Idle,
        guard_after(ops) is Idle ==> guard_after(ops.push(GuardOp::Release)) == guard_after(ops)
            && outstanding(ops.push(GuardOp::Release)) == outstanding(ops),
        guard_after(ops.push(GuardOp::Release).push(GuardOp::Release)) == guard_after(
            ops.push(GuardOp::Release),
        ),
        outstanding(ops.push(GuardOp::Release).push(GuardOp::Release)) == outstanding(
            ops.push(GuardOp::Release),
        ),
{
    let once = ops.push(GuardOp::Release);
    assert(once.drop_last() == ops);
    assert(once.push(GuardOp::Release).drop_last() == once);
}

/// After a `Release` the next `Acquire` is granted.
pub proof fn lemma_release_then_acquire_granted(ops: Seq<GuardOp>)
    ensures
        grants(guard_after(ops.push(GuardOp::Release)), GuardOp::Acquire),
{
    assert(ops.push(GuardOp::Release).drop_last() == ops);
}

} // verus!
