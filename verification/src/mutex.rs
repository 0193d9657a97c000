use vstd::prelude::*;

verus! {

/// Error returned by [`Mutex::try_lock`] when the mutex is already locked.
#[derive(PartialEq, Eq, Clone, Copy, Debug, Structural)]
pub struct TryLockError;

/// The lock state of a mutex: whether it is locked, and whether a task
/// waits for it (has registered its waker).
#[derive(PartialEq, Eq, Clone, Copy, Debug, Structural)]
pub struct LockState {
    pub locked: bool,
    pub waiting: bool,
}

/// Mutex: holds a value that one holder at a time may use.
///
/// Locking hands the value out in a [`MutexGuard`]; unlocking takes it back.
/// A task that finds the mutex locked registers itself as waiting, and the
/// unlock that follows tells the caller to wake it.
///
/// Each mutex has an identity, fixed when it is created; a guard carries the
/// identity of the mutex that handed it out, and only that mutex takes it
/// back.
pub struct Mutex<T> {
    locked: bool,
    waiting: bool,
    inner: Option<T>,
    id: Ghost<int>,
}

/// Guard of a locked mutex: owning it means holding the lock, and gives
/// access to the contents. Handing it back to [`Mutex::unlock`] unlocks.
pub struct MutexGuard<T> {
    value: T,
    id: Ghost<int>,
}

/// Whether locking at once succeeds in state `s`, and the state afterwards.
pub open spec fn try_lock_outcome(s: LockState) -> (bool, LockState) {
    if s.locked {
        (false, s)
    } else {
        (true, LockState { locked: true, ..s })
    }
}

/// Whether a locking task gets the lock in state `s` (otherwise it waits),
/// and the state afterwards.
pub open spec fn poll_lock_outcome(s: LockState) -> (bool, LockState) {
    if s.locked {
        (false, LockState { waiting: true, ..s })
    } else {
        (true, LockState { locked: true, ..s })
    }
}

/// Whether unlocking in state `s` must wake a waiting task, and the state
/// afterwards.
pub open spec fn unlock_outcome(s: LockState) -> (bool, LockState) {
    (s.waiting, LockState { locked: false, waiting: false })
}

impl<T> Mutex<T> {
    #[verifier::type_invariant]
    spec fn inv(self) -> bool {
        self.locked <==> self.inner is None
    }

    /// The lock state.
    pub closed spec fn state(&self) -> LockState {
        LockState { locked: self.locked, waiting: self.waiting }
    }

    /// The identity of the mutex.
    pub closed spec fn id(&self) -> int {
        self.id@
    }

    /// The value held while unlocked; `None` while a guard has it.
    pub closed spec fn contents(&self) -> Option<T> {
        self.inner
    }

    /// Creates a new, unlocked mutex holding `value`. Its identity is left
    /// open: no guard of another mutex can be shown to belong to it.
    pub fn new(value: T) -> (r: Self)
        ensures
            r.state() == (LockState { locked: false, waiting: false }),
            r.contents() == Some(value),
    {
        Mutex { locked: false, waiting: false, inner: Some(value), id: Ghost(0) }
    }

    /// Whether the mutex is locked.
    pub fn is_locked(&self) -> (r: bool)
        ensures
            r == self.state().locked,
    {
        self.locked
    }

    /// Attempts to lock the mutex at once.
    ///
    /// If it is already locked, returns an error instead of waiting, and
    /// nothing changes.
    pub fn try_lock(&mut self) -> (r: Result<MutexGuard<T>, TryLockError>)
        ensures
            r is Ok == try_lock_outcome(old(self).state()).0,
            final(self).state() == try_lock_outcome(old(self).state()).1,
            final(self).id() == old(self).id(),
            match r {
                Ok(g) => {
                    &&& old(self).contents() == Some(g.spec_value())
                    &&& g.id() == old(self).id()
                    &&& final(self).contents() is None
                },
                Err(e) => final(self).contents() == old(self).contents(),
            },
    {
        proof {
            use_type_invariant(&*self);
        }
        if self.locked {
            return Err(TryLockError);
        }
        let mut taken = Mutex { locked: true, waiting: self.waiting, inner: None, id: Ghost(self.id@) };
        core::mem::swap(self, &mut taken);
        let Mutex { locked: _, waiting: _, inner, id } = taken;
        match inner {
            Some(value) => Ok(MutexGuard { value, id }),
            None => {
                assert(false);
                Err(TryLockError)
            },
        }
    }

    /// One attempt of a task that waits for the lock: takes the lock if it is
    /// free; otherwise registers the task as waiting and returns `None`, the
    /// task to try again once woken.
    pub fn poll_lock(&mut self) -> (r: Option<MutexGuard<T>>)
        ensures
            r is Some == poll_lock_outcome(old(self).state()).0,
            final(self).state() == poll_lock_outcome(old(self).state()).1,
            final(self).id() == old(self).id(),
            match r {
                Some(g) => {
                    &&& old(self).contents() == Some(g.spec_value())
                    &&& g.id() == old(self).id()
                    &&& final(self).contents() is None
                },
                None => final(self).contents() == old(self).contents(),
            },
    {
        proof {
            use_type_invariant(&*self);
        }
        if self.locked {
            self.waiting = true;
            return None;
        }
        match self.try_lock() {
            Ok(g) => Some(g),
            Err(_) => None,
        }
    }

    /// Unlocks the mutex, taking back the contents from `guard`, which this
    /// mutex handed out. Returns whether a waiting task must be woken.
    pub fn unlock(&mut self, guard: MutexGuard<T>) -> (wake: bool)
        requires
            old(self).state().locked,
            guard.id() == old(self).id(),
        ensures
            (wake, final(self).state()) == unlock_outcome(old(self).state()),
            final(self).id() == old(self).id(),
            final(self).contents() == Some(guard.spec_value()),
    {
        let MutexGuard { value, id } = guard;
        let wake = self.waiting;
        *self = Mutex { locked: false, waiting: false, inner: Some(value), id };
        wake
    }
}

impl<T> MutexGuard<T> {
    /// The identity of the mutex that handed the guard out.
    pub closed spec fn id(&self) -> int {
        self.id@
    }

    /// The contents held by the guard.
    pub closed spec fn spec_value(&self) -> T {
        self.value
    }

    /// The contents of the locked mutex.
    pub fn get(&self) -> (r: &T)
        ensures
            *r == self.spec_value(),
    {
        &self.value
    }

    /// The contents of the locked mutex, for change in place.
    pub fn get_mut(&mut self) -> (r: &mut T)
        ensures
            *r == old(self).spec_value(),
            final(self).spec_value() == *final(r),
            final(self).id() == old(self).id(),
    {
        &mut self.value
    }

    /// Replaces the contents of the locked mutex with `value`.
    pub fn set(&mut self, value: T)
        ensures
            final(self).spec_value() == value,
            final(self).id() == old(self).id(),
    {
        self.value = value;
    }
}

/// The lock excludes: once locking has succeeded, neither locking at once nor
/// a waiting task can take it until it is unlocked.
pub proof fn lemma_lock_is_exclusive(s: LockState)
    requires
        try_lock_outcome(s).0,
    ensures
        !try_lock_outcome(try_lock_outcome(s).1).0,
        !poll_lock_outcome(try_lock_outcome(s).1).0,
{
}

/// A task that found the mutex locked is woken by the unlock that follows,
/// and then gets the lock.
pub proof fn lemma_unlock_wakes_waiter(s: LockState)
    requires
        s.locked,
    ensures
        !poll_lock_outcome(s).0,
        unlock_outcome(poll_lock_outcome(s).1).0,
        poll_lock_outcome(unlock_outcome(poll_lock_outcome(s).1).1).0,
{
}

/// Unlocking with nobody waiting asks for no wake-up.
pub proof fn lemma_unlock_without_waiter(s: LockState)
    requires
        !s.waiting,
    ensures
        !unlock_outcome(s).0,
        !unlock_outcome(s).1.locked,
{
}

/// Locking at once never waits: a `try_lock` that fails leaves the lock
/// state as it was, one that succeeds only locks, and neither registers a
/// waiter. Only a waiting attempt that finds the mutex locked registers one,
/// and unlocking asks for a wake-up exactly when a waiter is registered.
pub proof fn lemma_only_waiting_attempts_register(s: LockState)
    ensures
        s.locked ==> try_lock_outcome(s) == (false, s),
        !s.locked ==> try_lock_outcome(s) == (true, LockState { locked: true, waiting: s.waiting }),
        try_lock_outcome(s).1.waiting == s.waiting,
        s.locked ==> poll_lock_outcome(s) == (false, LockState { locked: true, waiting: true }),
        !s.locked ==> poll_lock_outcome(s) == (true, LockState { locked: true, waiting: s.waiting }),
        unlock_outcome(s).0 == s.waiting,
        !unlock_outcome(s).1.locked && !unlock_outcome(s).1.waiting,
{
}

/// One operation on a mutex, as its holders and waiters see it.
#[derive(PartialEq, Eq, Clone, Copy, Debug, Structural)]
pub enum LockEvent {
    /// `try_lock`.
    TryLock,
    /// One `poll_lock` of a task waiting for the lock.
    Poll,
    /// `unlock` with a live guard of the mutex.
    Unlock,
}

/// The lock state and the number of live guards after `event`, from lock
/// state `s` with `guards` live guards.
pub open spec fn lock_step(s: LockState, guards: nat, event: LockEvent) -> (LockState, nat) {
    match event {
        LockEvent::TryLock => {
            let (ok, s2) = try_lock_outcome(s);
            (s2, if ok { guards + 1 } else { guards })
        },
        LockEvent::Poll => {
            let (ready, s2) = poll_lock_outcome(s);
            (s2, if ready { guards + 1 } else { guards })
        },
        LockEvent::Unlock => (unlock_outcome(s).1, (guards - 1) as nat),
    }
}

/// The lock state and the number of live guards after `events`, from a
/// mutex just created.
pub open spec fn lock_run(events: Seq<LockEvent>) -> (LockState, nat)
    decreases events.len(),
{
    if events.len() == 0 {
        (LockState { locked: false, waiting: false }, 0)
    } else {
        let (s, g) = lock_run(events.drop_last());
        lock_step(s, g, events.last())
    }
}

/// Whether every unlock in `events` hands back a live guard.
pub open spec fn unlocks_hold_a_guard(events: Seq<LockEvent>) -> bool {
    forall|k: int|
        0 <= k < events.len() && #[trigger] events[k] == LockEvent::Unlock
            ==> lock_run(events.subrange(0, k)).1 > 0
}

/// Over any interleaving of lock attempts, waits and unlocks of one mutex,
/// at most one guard of it is alive at any point, and the mutex is locked
/// exactly while that guard lives; so every unlock finds the mutex locked,
/// as `unlock` requires.
pub proof fn lemma_guards_are_exclusive(events: Seq<LockEvent>)
    requires
        unlocks_hold_a_guard(events),
    ensures
        lock_run(events).1 <= 1,
        lock_run(events).0.locked <==> lock_run(events).1 == 1,
        forall|k: int|
            0 <= k < events.len() && #[trigger] events[k] == LockEvent::Unlock
                ==> lock_run(events.subrange(0, k)).0.locked,
    decreases events.len(),
{
    if events.len() > 0 {
        let prefix = events.drop_last();
        assert forall|k: int|
            0 <= k < prefix.len() && #[trigger] prefix[k] == LockEvent::Unlock
                implies lock_run(prefix.subrange(0, k)).1 > 0 by {
            assert(prefix.subrange(0, k) =~= events.subrange(0, k));
            assert(events[k] == LockEvent::Unlock);
        }
        lemma_guards_are_exclusive(prefix);
        assert(events.subrange(0, events.len() - 1) =~= prefix);
        if events.last() == LockEvent::Unlock {
            assert(events[events.len() - 1] == LockEvent::Unlock);
        }
        assert forall|k: int|
            0 <= k < events.len() && #[trigger] events[k] == LockEvent::Unlock
                implies lock_run(events.subrange(0, k)).0.locked by {
            if k < prefix.len() {
                assert(prefix.subrange(0, k) =~= events.subrange(0, k));
                assert(prefix[k] == LockEvent::Unlock);
            } else {
                assert(events[events.len() - 1] == LockEvent::Unlock);
            }
        }
    }
}

/// A mutex that only ever sees `try_lock` and `unlock` never has a waiter,
/// so no unlock asks to wake a task.
pub proof fn lemma_try_lock_runs_never_wake(events: Seq<LockEvent>)
    requires
        forall|k: int| 0 <= k < events.len() ==> #[trigger] events[k] != LockEvent::Poll,
    ensures
        !lock_run(events).0.waiting,
    decreases events.len(),
{
    if events.len() > 0 {
        let prefix = events.drop_last();
        assert forall|k: int| 0 <= k < prefix.len() implies #[trigger] prefix[k] != LockEvent::Poll by {
            assert(prefix[k] == events[k]);
        }
        lemma_try_lock_runs_never_wake(prefix);
        assert(events[events.len() - 1] != LockEvent::Poll);
    }
}

} // verus!
