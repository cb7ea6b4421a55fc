use async_timer::state::{AtomicWaker, TimerState};
use async_timer::timer::poll_state;
use async_timer::Poll;
use std::sync::atomic::{AtomicUsize, Ordering};
use std::sync::Arc;
use std::task::{Wake, Waker};
use tokio::runtime::Builder;

struct Count(AtomicUsize);

impl Wake for Count {
    fn wake(self: Arc<Self>) {
        self.0.fetch_add(1, Ordering::SeqCst);
    }
}

fn counter() -> (Arc<Count>, Waker) {
    let count = Arc::new(Count(AtomicUsize::new(0)));
    let waker = Waker::from(count.clone());
    (count, waker)
}

fn woken(count: &Arc<Count>) -> usize {
    count.0.load(Ordering::SeqCst)
}

#[test]
fn wake_fires_the_registered_waker() {
    let cell = AtomicWaker::new();
    let (count, waker) = counter();
    cell.register(waker);
    assert_eq!(woken(&count), 0);
    cell.wake();
    assert_eq!(woken(&count), 1);
}

#[test]
fn wake_without_a_waker_does_nothing() {
    let cell = AtomicWaker::new();
    cell.wake();
    let (count, waker) = counter();
    cell.register(waker);
    assert_eq!(woken(&count), 0);
}

#[test]
fn second_wake_in_a_row_wakes_nobody() {
    let cell = AtomicWaker::new();
    let (count, waker) = counter();
    cell.register(waker);
    cell.wake();
    cell.wake();
    assert_eq!(woken(&count), 1);
}

#[test]
fn later_register_supersedes_the_earlier() {
    let cell = AtomicWaker::new();
    let (first, first_waker) = counter();
    let (second, second_waker) = counter();
    cell.register(first_waker);
    cell.register(second_waker);
    cell.wake();
    assert_eq!(woken(&first), 0);
    assert_eq!(woken(&second), 1);
}

#[test]
fn register_ref_stores_a_clone() {
    let cell = AtomicWaker::new();
    let (count, waker) = counter();
    cell.register_ref(&waker);
    cell.register_ref(&waker);
    cell.wake();
    assert_eq!(woken(&count), 1);
    cell.wake();
    assert_eq!(woken(&count), 1);
    waker.wake();
    assert_eq!(woken(&count), 2);
}

#[test]
fn register_after_wake_is_woken_by_the_next_wake() {
    let cell = AtomicWaker::new();
    let (first, first_waker) = counter();
    cell.register(first_waker);
    cell.wake();
    let (second, second_waker) = counter();
    cell.register(second_waker);
    assert_eq!(woken(&second), 0);
    cell.wake();
    assert_eq!(woken(&first), 1);
    assert_eq!(woken(&second), 1);
}

#[test]
fn state_is_not_done_when_made() {
    let state = TimerState::new();
    assert!(!state.is_done());
}

#[test]
fn state_is_done_only_after_wake_or_cancel() {
    let state = TimerState::new();
    let (count, waker) = counter();
    state.register(waker);
    assert!(!state.is_done());
    state.reset();
    assert!(!state.is_done());
    state.wake();
    assert!(state.is_done());
    assert_eq!(woken(&count), 1);
    state.reset();
    assert!(!state.is_done());
    state.cancel();
    assert!(state.is_done());
    assert_eq!(woken(&count), 1);
}

#[test]
fn cancel_wakes_nobody() {
    let state = TimerState::new();
    let (count, waker) = counter();
    state.register(&waker);
    state.cancel();
    assert!(state.is_done());
    assert_eq!(woken(&count), 0);
    state.wake();
    assert_eq!(woken(&count), 0);
}

#[test]
fn repeated_callback_notifies_once() {
    let state = TimerState::new();
    let (count, waker) = counter();
    state.register(&waker);
    state.wake();
    state.register(&waker);
    state.wake();
    state.wake();
    assert_eq!(woken(&count), 1);
    state.reset();
    state.wake();
    assert_eq!(woken(&count), 2);
}

#[test]
fn poll_state_registers_then_reads_the_flag() {
    let state = TimerState::new();
    let (count, waker) = counter();
    assert!(matches!(poll_state(&state, &waker), Poll::Pending));
    state.wake();
    assert_eq!(woken(&count), 1);
    assert!(matches!(poll_state(&state, &waker), Poll::Ready(())));
}

#[test]
fn concurrent_wakes_reach_the_registered_waker() {
    let runtime = Builder::new_current_thread().build().unwrap();
    for _ in 0..200 {
        let cell = Arc::new(AtomicWaker::new());
        let (count, waker) = counter();
        let mut wakes = Vec::new();
        for _ in 0..4 {
            let shared = cell.clone();
            wakes.push(runtime.spawn_blocking(move || shared.wake()));
        }
        cell.register(waker);
        for wake in wakes {
            runtime.block_on(wake).unwrap();
        }
        assert!(woken(&count) <= 1);
        cell.wake();
        assert_eq!(woken(&count), 1);
        cell.wake();
        assert_eq!(woken(&count), 1);
    }
}

#[test]
fn pending_poll_is_woken_by_concurrent_callbacks() {
    let runtime = Builder::new_current_thread().build().unwrap();
    for _ in 0..200 {
        let state = Arc::new(TimerState::new());
        let (count, waker) = counter();
        let mut callbacks = Vec::new();
        for _ in 0..4 {
            let shared = state.clone();
            callbacks.push(runtime.spawn_blocking(move || shared.wake()));
        }
        let pending = matches!(poll_state(&state, &waker), Poll::Pending);
        for callback in callbacks {
            runtime.block_on(callback).unwrap();
        }
        assert!(state.is_done());
        if pending {
            assert_eq!(woken(&count), 1);
        } else {
            assert!(woken(&count) <= 1);
        }
    }
}
