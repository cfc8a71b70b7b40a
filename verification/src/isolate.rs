//! Pool settings and the generation counter of a worker.
//!
//! A worker's generation counts the jobs it has finished. It is shared with
//! observers in a box behind a mutex: an observer that latched a generation
//! before it submitted a job can tell from a later reading whether that job
//! is over, because the counter only ever moves by one, under the lock.

use std::sync::Arc;
use std::sync::Mutex;
use std::sync::MutexGuard;
use std::sync::PoisonError;
use vstd::prelude::*;

verus! {

/// Immutable settings shared by every worker of a pool.
#[derive(Debug, Clone)]
pub struct IsolateConfig {
    /// Hard heap cap of one engine instance, in bytes.
    pub max_memory_bytes: usize,
}

/// Number of jobs a worker has finished since it started.
#[derive(Copy, Clone, Debug, Eq, PartialEq, Structural)]
pub struct IsolateGeneration(pub u64);

impl IsolateGeneration {
    /// The generation of a worker that has finished no job.
    pub fn zero() -> (g: IsolateGeneration)
        ensures
            g.0 == 0,
    {
        IsolateGeneration(0)
    }

    /// The generation that follows `self`: exactly one more. There is none
    /// when the counter is exhausted.
    pub fn next(self) -> (r: Option<IsolateGeneration>)
        ensures
            self.0 < u64::MAX ==> r == Some(IsolateGeneration((self.0 + 1) as u64)),
            self.0 == u64::MAX ==> r is None,
    {
        if self.0 < u64::MAX {
            Some(IsolateGeneration(self.0 + 1))
        } else {
            None
        }
    }
}

/// Why a shared generation could not be read or advanced.
#[derive(Copy, Clone, Debug, PartialEq, Eq, Structural)]
pub enum GenerationError {
    /// A thread panicked while it held the lock.
    Poisoned,
    /// The counter has reached its largest value.
    Exhausted,
}

/// `std::sync::Mutex`, opaque to the verifier.
#[verifier::external_type_specification]
#[verifier::external_body]
#[verifier::reject_recursive_types(T)]
pub struct ExMutex<T: ?Sized>(Mutex<T>);

/// `std::sync::MutexGuard`, opaque to the verifier.
#[verifier::external_type_specification]
#[verifier::external_body]
#[verifier::reject_recursive_types(T)]
pub struct ExMutexGuard<'a, T: ?Sized + 'a>(MutexGuard<'a, T>);

/// `std::sync::PoisonError`, opaque to the verifier.
#[verifier::external_type_specification]
#[verifier::external_body]
#[verifier::reject_recursive_types(T)]
pub struct ExPoisonError<T>(PoisonError<T>);

/// The generation that a held guard protects. While the guard is held
/// nobody else can change it.
pub uninterp spec fn guarded(guard: MutexGuard<'_, IsolateGeneration>) -> IsolateGeneration;

/// `guard` is a guard of `m`: it was handed out by a lock of `m`, and what
/// it protects is what `m` protects.
pub uninterp spec fn guards(m: Mutex<IsolateGeneration>, guard: MutexGuard<'_, IsolateGeneration>) -> bool;

/// The generation that a mutex was made to protect. It says where the
/// counter began, not where it stands: what a mutex protects now is only
/// known to the holder of its guard.
pub uninterp spec fn made_with(m: Mutex<IsolateGeneration>) -> IsolateGeneration;

/// `Mutex::new`: a mutex, unlocked, that protects `g` to begin with.
#[verifier::external_body]
fn new_cell(g: IsolateGeneration) -> (m: Mutex<IsolateGeneration>)
    ensures
        made_with(m) == g,
{
    Mutex::new(g)
}

/// `Mutex::lock`: waits for the lock. The result is a guard of this mutex,
/// or the poison error if a thread panicked while it held the lock. Nothing
/// is claimed of the value found: other threads may have changed it. The
/// calling thread must not hold the lock already; see
/// [`IsolateGenerationBox`].
#[verifier::external_body]
fn lock_cell<'a>(m: &'a Mutex<IsolateGeneration>) -> (r: Result<
    MutexGuard<'a, IsolateGeneration>,
    PoisonError<MutexGuard<'a, IsolateGeneration>>,
>)
    ensures
        r matches Ok(guard) ==> guards(*m, guard),
{
    m.lock()
}

/// `Deref` of a guard: reads the protected generation.
#[verifier::external_body]
fn read_guard(guard: &MutexGuard<'_, IsolateGeneration>) -> (g: IsolateGeneration)
    ensures
        g == guarded(*guard),
{
    **guard
}

/// `DerefMut` of a guard: overwrites the protected generation.
#[verifier::external_body]
fn write_guard(guard: &mut MutexGuard<'_, IsolateGeneration>, g: IsolateGeneration)
    ensures
        guarded(*final(guard)) == g,
{
    **guard = g;
}

/// A generation counter shared between a worker and its observers. The
/// mutex is private: the lock is only ever taken by the methods of the box,
/// which give it up before they return, so no thread can ask for a lock it
/// already holds.
#[derive(Clone)]
pub struct IsolateGenerationBox(Arc<Mutex<IsolateGeneration>>);

/// What advancing makes of the generation found under the lock: its
/// successor, unless the counter is exhausted.
pub open spec fn advanced(found: IsolateGeneration) -> Result<IsolateGeneration, GenerationError> {
    if found.0 < u64::MAX {
        Ok(IsolateGeneration((found.0 + 1) as u64))
    } else {
        Err(GenerationError::Exhausted)
    }
}

impl IsolateGenerationBox {
    /// The mutex of the box, which protects its counter.
    pub closed spec fn cell(&self) -> Mutex<IsolateGeneration> {
        *self.0
    }

    /// The generation at which the counter of the box began.
    pub closed spec fn started_at(&self) -> IsolateGeneration {
        made_with(*self.0)
    }

    /// `found` stands under the lock of the box: some guard of its mutex
    /// protects it.
    pub open spec fn holds(&self, found: IsolateGeneration) -> bool {
        exists|guard: MutexGuard<'_, IsolateGeneration>| guards(self.cell(), guard) && guarded(guard) == found
    }

    /// A box for a worker that has finished no job: its counter begins at
    /// generation zero.
    pub fn new() -> (b: IsolateGenerationBox)
        ensures
            b.started_at() == IsolateGeneration(0),
    {
        IsolateGenerationBox(Arc::new(new_cell(IsolateGeneration::zero())))
    }

    /// Advances the generation behind a held lock by exactly one and
    /// returns the new generation. An exhausted counter is left as it is.
    pub fn advance_locked(guard: &mut MutexGuard<'_, IsolateGeneration>) -> (r: Result<
        IsolateGeneration,
        GenerationError,
    >)
        ensures
            guarded(*old(guard)).0 < u64::MAX ==> r == Ok::<IsolateGeneration, GenerationError>(
                IsolateGeneration((guarded(*old(guard)).0 + 1) as u64),
            ) && guarded(*final(guard)).0 == guarded(*old(guard)).0 + 1,
            guarded(*old(guard)).0 == u64::MAX ==> r == Err::<IsolateGeneration, GenerationError>(
                GenerationError::Exhausted,
            ) && guarded(*final(guard)) == guarded(*old(guard)),
    {
        match read_guard(guard).next() {
            Some(after) => {
                write_guard(guard, after);
                Ok(after)
            },
            None => Err(GenerationError::Exhausted),
        }
    }

    /// Advances the generation once the lock has been asked for; the lock
    /// stays with the caller. With the lock, the generation found is
    /// advanced by exactly one, its successor is written under the lock and
    /// returned, unless the counter is exhausted, which is left as it is; a
    /// poisoned lock is reported and nothing is advanced.
    pub fn advance_after(
        locked: &mut Result<MutexGuard<'_, IsolateGeneration>, PoisonError<MutexGuard<'_, IsolateGeneration>>>,
    ) -> (r: Result<IsolateGeneration, GenerationError>)
        ensures
            *old(locked) matches Ok(guard) ==> r == advanced(guarded(guard)) && (*final(locked) matches Ok(held)
                && guarded(held) == match r {
                Ok(after) => after,
                Err(_) => guarded(guard),
            }),
            *old(locked) is Err ==> r == Err::<IsolateGeneration, GenerationError>(GenerationError::Poisoned)
                && *final(locked) == *old(locked),
    {
        match locked {
            Ok(guard) => IsolateGenerationBox::advance_locked(guard),
            Err(_) => Err(GenerationError::Poisoned),
        }
    }

    /// Reads the generation once the lock has been asked for, and gives the
    /// lock up. With the lock, the generation found is returned; a poisoned
    /// lock is reported.
    pub fn read_after(
        locked: Result<MutexGuard<'_, IsolateGeneration>, PoisonError<MutexGuard<'_, IsolateGeneration>>>,
    ) -> (r: Result<IsolateGeneration, GenerationError>)
        ensures
            locked matches Ok(guard) ==> r == Ok::<IsolateGeneration, GenerationError>(guarded(guard)),
            locked is Err ==> r == Err::<IsolateGeneration, GenerationError>(GenerationError::Poisoned),
    {
        match locked {
            Ok(guard) => Ok(read_guard(&guard)),
            Err(_) => Err(GenerationError::Poisoned),
        }
    }

    /// Takes the lock of the box, advances the generation by exactly one
    /// and returns the new generation. Which value is found under the lock
    /// is decided by the threads that share the box; whatever it is, the
    /// generation returned is the successor of the one found under the lock
    /// of this box, and exhaustion is reported only of a counter that was
    /// found at its largest value.
    pub fn advance(&self) -> (r: Result<IsolateGeneration, GenerationError>)
        ensures
            r matches Ok(after) ==> after.0 >= 1 && self.holds(IsolateGeneration((after.0 - 1) as u64)),
            r == Err::<IsolateGeneration, GenerationError>(GenerationError::Exhausted) ==> self.holds(
                IsolateGeneration(u64::MAX),
            ),
    {
        let mut locked = lock_cell(&self.0);
        let ghost witness = locked;
        let r = IsolateGenerationBox::advance_after(&mut locked);
        proof {
            if witness is Ok {
                let guard = witness->Ok_0;
                assert(guards(self.cell(), guard));
                assert(r == advanced(guarded(guard)));
                if r is Ok {
                    assert(guarded(guard) == IsolateGeneration((r->Ok_0.0 - 1) as u64));
                } else {
                    assert(guarded(guard) == IsolateGeneration(u64::MAX));
                }
            }
        }
        r
    }

    /// Takes the lock of the box and reads the generation: the one that
    /// stands under the lock of this box. Only a poisoned lock fails.
    pub fn current(&self) -> (r: Result<IsolateGeneration, GenerationError>)
        ensures
            r matches Ok(found) ==> self.holds(found),
            r matches Err(e) ==> e == GenerationError::Poisoned,
    {
        let locked = lock_cell(&self.0);
        let ghost witness = locked;
        let r = IsolateGenerationBox::read_after(locked);
        proof {
            if witness is Ok {
                let guard = witness->Ok_0;
                assert(guards(self.cell(), guard));
            }
        }
        r
    }
}

} // verus!
