use isolate_core::isolate::GenerationError;
use isolate_core::isolate::IsolateConfig;
use isolate_core::isolate::IsolateGeneration;
use isolate_core::isolate::IsolateGenerationBox;
use std::sync::Mutex;

#[test]
fn generation_starts_at_zero() {
    assert_eq!(IsolateGeneration::zero(), IsolateGeneration(0));
}

#[test]
fn next_generation_is_one_more() {
    assert_eq!(IsolateGeneration(0).next(), Some(IsolateGeneration(1)));
    assert_eq!(IsolateGeneration(41).next(), Some(IsolateGeneration(42)));
    assert_eq!(
        IsolateGeneration(u64::MAX - 1).next(),
        Some(IsolateGeneration(u64::MAX))
    );
}

#[test]
fn exhausted_generation_has_no_successor() {
    assert_eq!(IsolateGeneration(u64::MAX).next(), None);
}

#[test]
fn fresh_box_reads_zero() {
    let shared = IsolateGenerationBox::new();
    assert_eq!(shared.current(), Ok(IsolateGeneration(0)));
}

#[test]
fn shared_generation_advances_by_one() {
    let shared = IsolateGenerationBox::new();
    assert_eq!(shared.advance(), Ok(IsolateGeneration(1)));
    assert_eq!(shared.advance(), Ok(IsolateGeneration(2)));
    assert_eq!(shared.current(), Ok(IsolateGeneration(2)));
}

#[test]
fn clones_of_a_box_share_one_counter() {
    let worker_side = IsolateGenerationBox::new();
    let observer_side = worker_side.clone();
    let latched = observer_side.current().unwrap();
    assert_eq!(worker_side.advance(), Ok(IsolateGeneration(1)));
    let seen = observer_side.current().unwrap();
    assert_ne!(latched, seen);
    assert_eq!(seen, IsolateGeneration(1));
}

#[test]
fn advance_under_a_held_lock_writes_the_successor() {
    let cell = Mutex::new(IsolateGeneration(7));
    {
        let mut guard = cell.lock().unwrap();
        assert_eq!(
            IsolateGenerationBox::advance_locked(&mut guard),
            Ok(IsolateGeneration(8))
        );
        assert_eq!(*guard, IsolateGeneration(8));
    }
    assert_eq!(*cell.lock().unwrap(), IsolateGeneration(8));
}

#[test]
fn advance_under_a_held_lock_leaves_an_exhausted_counter() {
    let cell = Mutex::new(IsolateGeneration(u64::MAX));
    let mut guard = cell.lock().unwrap();
    assert_eq!(
        IsolateGenerationBox::advance_locked(&mut guard),
        Err(GenerationError::Exhausted)
    );
    assert_eq!(*guard, IsolateGeneration(u64::MAX));
}

#[test]
fn config_keeps_the_heap_cap() {
    let config = IsolateConfig {
        max_memory_bytes: 16 * 1024 * 1024,
    };
    let copy = config.clone();
    assert_eq!(copy.max_memory_bytes, 16_777_216);
}

#[test]
fn advance_after_a_granted_lock_returns_the_successor() {
    let cell = Mutex::new(IsolateGeneration(4));
    assert_eq!(
        IsolateGenerationBox::advance_after(&mut cell.lock()),
        Ok(IsolateGeneration(5))
    );
    assert_eq!(*cell.lock().unwrap(), IsolateGeneration(5));
    assert_eq!(
        IsolateGenerationBox::advance_after(&mut cell.lock()),
        Ok(IsolateGeneration(6))
    );
}

#[test]
fn advance_after_a_granted_lock_reports_exhaustion() {
    let cell = Mutex::new(IsolateGeneration(u64::MAX));
    assert_eq!(
        IsolateGenerationBox::advance_after(&mut cell.lock()),
        Err(GenerationError::Exhausted)
    );
    assert_eq!(*cell.lock().unwrap(), IsolateGeneration(u64::MAX));
}

#[test]
fn read_after_a_granted_lock_returns_what_is_found() {
    let cell = Mutex::new(IsolateGeneration(9));
    assert_eq!(
        IsolateGenerationBox::read_after(cell.lock()),
        Ok(IsolateGeneration(9))
    );
    assert_eq!(*cell.lock().unwrap(), IsolateGeneration(9));
}

#[test]
fn advance_after_writes_under_the_lock_it_was_given() {
    let cell = Mutex::new(IsolateGeneration(1));
    let mut locked = cell.lock();
    assert_eq!(
        IsolateGenerationBox::advance_after(&mut locked),
        Ok(IsolateGeneration(2))
    );
    assert_eq!(**locked.as_ref().unwrap(), IsolateGeneration(2));
    assert_eq!(
        IsolateGenerationBox::advance_after(&mut locked),
        Ok(IsolateGeneration(3))
    );
    assert_eq!(**locked.as_ref().unwrap(), IsolateGeneration(3));
}
