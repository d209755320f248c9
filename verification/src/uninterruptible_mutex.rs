//! A spin lock that keeps interrupts masked for as long as it is held.

use vstd::prelude::*;
use crate::cpu::InterruptFlag;

verus! {

/// `spin::relax::Spin`: the way of waiting in which a spin lock spins.
#[verifier::external_type_specification]
#[verifier::external_body]
pub struct ExSpin(spin::relax::Spin);

/// `spin::mutex::Mutex`: a value behind a spin lock. Nothing inside it is
/// seen here.
#[verifier::external_type_specification]
#[verifier::external_body]
#[verifier::reject_recursive_types(T)]
#[verifier::reject_recursive_types(R)]
pub struct ExMutex<T: ?Sized, R>(spin::mutex::Mutex<T, R>);

/// `spin::mutex::MutexGuard`: the lock of a `spin::mutex::Mutex`, held until
/// the guard is dropped.
#[verifier::external_type_specification]
#[verifier::external_body]
#[verifier::reject_recursive_types(T)]
pub struct ExMutexGuard<'a, T: 'a + ?Sized>(spin::mutex::MutexGuard<'a, T>);

/// Remembers whether interrupts were enabled when it was made, and masks them
/// until it is released.
#[derive(Debug)]
pub struct InterruptGuard {
    were_interrupts_enabled: bool,
}

impl InterruptGuard {
    /// Whether interrupts were enabled when the guard was made.
    pub closed spec fn were_interrupts_enabled(self) -> bool {
        self.were_interrupts_enabled
    }

    /// Records the flag and clears it.
    pub fn new(flag: &mut InterruptFlag) -> (guard: InterruptGuard)
        ensures
            guard.were_interrupts_enabled() == old(flag)@,
            !final(flag)@,
    {
        let were_interrupts_enabled: bool = flag.are_enabled();
        if were_interrupts_enabled {
            flag.disable();
        }
        InterruptGuard { were_interrupts_enabled }
    }

    /// Ends the guard: sets the flag again if it was set when the guard was
    /// made, and else leaves it as it is.
    pub fn release(self, flag: &mut InterruptFlag)
        ensures
            final(flag)@ == (self.were_interrupts_enabled() || old(flag)@),
    {
        if self.were_interrupts_enabled {
            flag.enable();
        }
    }
}

/// Calls `spin::mutex::Mutex::new`, which puts the value behind a lock that
/// nobody holds.
#[verifier::external_body]
fn mutex_new<T>(value: T) -> spin::mutex::Mutex<T, spin::relax::Spin> {
    spin::mutex::Mutex::new(value)
}

/// Calls `spin::mutex::Mutex::lock`, which spins until the lock is free and
/// then takes it. It does not come back while somebody else keeps the lock.
#[verifier::external_body]
fn mutex_lock<'a, T>(mutex: &'a spin::mutex::Mutex<T, spin::relax::Spin>) -> spin::mutex::MutexGuard<
    'a,
    T,
> {
    mutex.lock()
}

/// Calls `spin::mutex::Mutex::try_lock`, which takes the lock if it is free
/// and gives `None` if it is not.
#[verifier::external_body]
fn mutex_try_lock<'a, T>(mutex: &'a spin::mutex::Mutex<T, spin::relax::Spin>) -> Option<
    spin::mutex::MutexGuard<'a, T>,
> {
    mutex.try_lock()
}

/// Calls `spin::mutex::Mutex::is_locked`, which tells whether the lock was
/// held at the moment of the call.
#[verifier::external_body]
fn mutex_is_locked<T>(mutex: &spin::mutex::Mutex<T, spin::relax::Spin>) -> bool {
    mutex.is_locked()
}

/// Calls `spin::mutex::Mutex::get_mut`, which reaches the value without
/// locking: the exclusive borrow shows that nobody holds the lock.
#[verifier::external_body]
fn mutex_get_mut<T>(mutex: &mut spin::mutex::Mutex<T, spin::relax::Spin>) -> &mut T {
    mutex.get_mut()
}

/// Reaches the value through `Deref` of `spin::mutex::MutexGuard`.
#[verifier::external_body]
fn guard_deref<'a, 'b, T>(guard: &'b spin::mutex::MutexGuard<'a, T>) -> &'b T {
    &**guard
}

/// Reaches the value through `DerefMut` of `spin::mutex::MutexGuard`.
#[verifier::external_body]
fn guard_deref_mut<'a, 'b, T>(guard: &'b mut spin::mutex::MutexGuard<'a, T>) -> &'b mut T {
    &mut **guard
}

/// Drops a `spin::mutex::MutexGuard`, which gives the lock back.
#[verifier::external_body]
fn guard_drop<'a, T>(guard: spin::mutex::MutexGuard<'a, T>) {
    drop(guard)
}

/// A value behind a spin lock whose holder runs with interrupts masked.
#[verifier::reject_recursive_types(T)]
pub struct UninterruptibleMutex<T> {
    mutex: spin::mutex::Mutex<T, spin::relax::Spin>,
}

/// The right to use the value of an `UninterruptibleMutex`, from `lock` or
/// `try_lock` until `unlock`.
#[verifier::reject_recursive_types(T)]
pub struct UninterruptibleMutexGuard<'a, T> {
    lock: spin::mutex::MutexGuard<'a, T>,
    interrupt_guard: InterruptGuard,
}

impl<T> UninterruptibleMutex<T> {
    /// A mutex that holds `value` and is not locked.
    pub fn new(value: T) -> Self {
        UninterruptibleMutex { mutex: mutex_new(value) }
    }

    /// Masks interrupts, then spins until the lock is free and takes it. The
    /// guard remembers whether interrupts were enabled before.
    pub fn lock<'a>(&'a self, flag: &mut InterruptFlag) -> (guard: UninterruptibleMutexGuard<'a, T>)
        ensures
            guard.interrupt_guard().were_interrupts_enabled() == old(flag)@,
            !final(flag)@,
    {
        let interrupt_guard = InterruptGuard::new(flag);
        self.lock_with(interrupt_guard)
    }

    /// Spins until the lock is free and takes it, for a holder who has masked
    /// interrupts with `interrupt_guard` already.
    pub fn lock_with<'a>(&'a self, interrupt_guard: InterruptGuard) -> (guard:
        UninterruptibleMutexGuard<'a, T>)
        ensures
            guard.interrupt_guard() == interrupt_guard,
    {
        UninterruptibleMutexGuard { lock: mutex_lock(&self.mutex), interrupt_guard }
    }

    /// Whether the lock was held at the moment of the call.
    pub fn is_locked(&self) -> bool {
        mutex_is_locked(&self.mutex)
    }

    /// Masks interrupts and takes the lock if it is free. If it is not, the
    /// flag is put back as it was.
    pub fn try_lock<'a>(&'a self, flag: &mut InterruptFlag) -> (r: Option<
        UninterruptibleMutexGuard<'a, T>,
    >)
        ensures
            r.is_some() ==> r.unwrap().interrupt_guard().were_interrupts_enabled() == old(flag)@
                && !final(flag)@,
            r.is_none() ==> final(flag)@ == old(flag)@,
    {
        let interrupt_guard = InterruptGuard::new(flag);
        match self.try_lock_with(interrupt_guard) {
            Ok(guard) => Some(guard),
            Err(interrupt_guard) => {
                interrupt_guard.release(flag);
                None
            },
        }
    }

    /// Takes the lock if it is free, for a holder who has masked interrupts
    /// with `interrupt_guard` already. If it is not free, the interrupt guard
    /// comes back, to be released.
    pub fn try_lock_with<'a>(&'a self, interrupt_guard: InterruptGuard) -> (r: Result<
        UninterruptibleMutexGuard<'a, T>,
        InterruptGuard,
    >)
        ensures
            r matches Ok(guard) ==> guard.interrupt_guard() == interrupt_guard,
            r matches Err(returned) ==> returned == interrupt_guard,
    {
        UninterruptibleMutexGuard::holding(mutex_try_lock(&self.mutex), interrupt_guard)
    }

    /// The value, for one who holds the mutex exclusively: no locking is
    /// needed.
    pub fn get_mut(&mut self) -> &mut T {
        mutex_get_mut(&mut self.mutex)
    }
}

impl<'a, T> UninterruptibleMutexGuard<'a, T> {
    /// The interrupt guard that was made when the lock was asked for.
    pub closed spec fn interrupt_guard(self) -> InterruptGuard {
        self.interrupt_guard
    }

    /// The lock that is held.
    pub closed spec fn lock(self) -> spin::mutex::MutexGuard<'a, T> {
        self.lock
    }

    /// What an attempt to take the lock has come to, for a holder who has
    /// masked interrupts with `interrupt_guard`: the guard over the lock
    /// where the lock was obtained, and else the interrupt guard back, to be
    /// released.
    pub fn holding(lock: Option<spin::mutex::MutexGuard<'a, T>>, interrupt_guard: InterruptGuard) -> (r:
        Result<UninterruptibleMutexGuard<'a, T>, InterruptGuard>)
        ensures
            lock matches Some(held) ==> (r matches Ok(guard) && guard.lock() == held
                && guard.interrupt_guard() == interrupt_guard),
            lock.is_none() ==> (r matches Err(returned) && returned == interrupt_guard),
    {
        match lock {
            Some(lock) => Ok(UninterruptibleMutexGuard { lock, interrupt_guard }),
            None => Err(interrupt_guard),
        }
    }

    /// The protected value.
    pub fn deref(&self) -> &T {
        guard_deref(&self.lock)
    }

    /// The protected value, to change it. The guard goes on to remember what
    /// it remembered of the interrupt flag.
    pub fn deref_mut(&mut self) -> (value: &mut T)
        ensures
            final(self).interrupt_guard() == old(self).interrupt_guard(),
    {
        guard_deref_mut(&mut self.lock)
    }

    /// Gives the lock back and hands out the interrupt guard, which is still
    /// to be released.
    pub fn release_lock(self) -> (interrupt_guard: InterruptGuard)
        ensures
            interrupt_guard == self.interrupt_guard(),
    {
        let UninterruptibleMutexGuard { lock, interrupt_guard } = self;
        guard_drop(lock);
        interrupt_guard
    }

    /// Gives the lock back, then sets the interrupt flag again if it was set
    /// when the lock was asked for.
    pub fn unlock(self, flag: &mut InterruptFlag)
        ensures
            final(flag)@ == (self.interrupt_guard().were_interrupts_enabled() || old(flag)@),
    {
        let interrupt_guard = self.release_lock();
        interrupt_guard.release(flag);
    }
}

/// What a holder of interrupt guards does next.
pub enum GuardEvent {
    /// Makes a guard, as `InterruptGuard::new` does.
    Acquire,
    /// Releases the youngest guard that is still held, as
    /// `InterruptGuard::release` does.
    Release,
}

/// The interrupt flag together with the guards that are held.
pub struct Core {
    /// Whether interrupts are enabled.
    pub enabled: bool,
    /// What each guard that is held remembers, the oldest guard first.
    pub held: Seq<bool>,
}

impl Core {
    /// A core that holds no guard.
    pub open spec fn idle(enabled: bool) -> Core {
        Core { enabled, held: Seq::empty() }
    }

    /// The core after one event. To release where no guard is held changes
    /// nothing.
    pub open spec fn step(self, event: GuardEvent) -> Core {
        match event {
            GuardEvent::Acquire => Core { enabled: false, held: self.held.push(self.enabled) },
            GuardEvent::Release => if self.held.len() == 0 {
                self
            } else {
                Core { enabled: self.held.last() || self.enabled, held: self.held.drop_last() }
            },
        }
    }

    /// The core after the events, the first one first.
    pub open spec fn run(self, events: Seq<GuardEvent>) -> Core
        decreases events.len(),
    {
        if events.len() == 0 {
            self
        } else {
            self.run(events.drop_last()).step(events.last())
        }
    }

    /// What holds of a core that began idle with the flag `initial`: the
    /// oldest guard remembers `initial`, every younger one remembers that
    /// interrupts were masked, and the flag is clear while a guard is held
    /// and is `initial` otherwise.
    pub open spec fn nested(self, initial: bool) -> bool {
        &&& self.held.len() == 0 ==> self.enabled == initial
        &&& self.held.len() > 0 ==> !self.enabled && self.held[0] == initial
        &&& forall|i: int| 0 < i < self.held.len() ==> !self.held[i]
    }
}

/// However guards are made and released in turn, youngest first, on a core
/// that began without one: interrupts are masked at every moment at which a
/// guard is held, and once the last guard is released the flag is what it was
/// at the beginning.
pub proof fn lemma_masked_while_held(initial: bool, events: Seq<GuardEvent>)
    ensures
        Core::idle(initial).run(events).held.len() > 0 ==> !Core::idle(initial).run(events).enabled,
        Core::idle(initial).run(events).held.len() == 0 ==> Core::idle(initial).run(events).enabled
            == initial,
{
    lemma_run_nested(initial, events);
}

proof fn lemma_run_nested(initial: bool, events: Seq<GuardEvent>)
    ensures
        Core::idle(initial).run(events).nested(initial),
    decreases events.len(),
{
    if events.len() > 0 {
        lemma_run_nested(initial, events.drop_last());
    }
}

} // verus!
