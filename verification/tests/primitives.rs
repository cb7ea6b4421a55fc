use async_timer::time::Duration;
use async_timer::timer::{Command, Phase, PlatformTimer, Timer};
use async_timer::{interval, timed, Delay, Interval, Poll, Timed};
use std::sync::atomic::{AtomicUsize, Ordering};
use std::sync::Arc;
use std::task::{Wake, Waker};

struct Count(AtomicUsize);

impl Wake for Count {
    fn wake(self: Arc<Self>) {
        self.0.fetch_add(1, Ordering::SeqCst);
    }
}

fn counter() -> (Arc<Count>, Waker) {
    let count = Arc::new(Count(AtomicUsize::new(0)));
    let waker = Waker::from(count.clone());
    (count, waker)
}

fn woken(count: &Arc<Count>) -> usize {
    count.0.load(Ordering::SeqCst)
}

/// A timer that is expired or not as the test says.
struct Manual {
    time: Duration,
    phase: Phase,
    polls: usize,
}

impl Timer for Manual {
    fn phase(&self) -> Phase {
        self.phase
    }

    fn timeout(&self) -> Duration {
        self.time
    }

    fn new(timeout: Duration) -> Self {
        Manual { time: timeout, phase: Phase::Init, polls: 0 }
    }

    fn is_ticking(&self) -> bool {
        self.phase == Phase::Running
    }

    fn is_expired(&self) -> bool {
        self.phase == Phase::Expired
    }

    fn restart(&mut self, timeout: Duration) {
        self.time = timeout;
        if self.phase != Phase::Init {
            self.phase = Phase::Running;
        }
    }

    fn restart_ctx(&mut self, timeout: Duration, _waker: &Waker) {
        self.restart(timeout)
    }

    fn cancel(&mut self) {
        if self.phase != Phase::Init {
            self.phase = Phase::Expired;
        }
    }

    fn poll(&mut self, _waker: &Waker) -> Poll<()> {
        self.polls += 1;
        match self.phase {
            Phase::Expired => Poll::Ready(()),
            _ => {
                self.phase = Phase::Running;
                Poll::Pending
            },
        }
    }
}

#[test]
fn interval_arms_on_first_poll_and_rearms_on_expiry() {
    let (count, waker) = counter();
    let mut every = interval(Duration::from_secs(1));
    assert!(every.state().is_none());
    assert_eq!(every.take_command(), Command::Idle);

    assert!(matches!(every.poll(&waker), Poll::Pending));
    assert_eq!(every.take_command(), Command::Arm(Duration::from_secs(1)));
    let state = every.state().expect("an armed timer has a state");

    state.wake();
    assert_eq!(woken(&count), 1);
    assert!(matches!(every.poll(&waker), Poll::Ready(())));
    assert_eq!(every.take_command(), Command::Arm(Duration::from_secs(1)));
    assert!(!state.is_done());

    assert!(matches!(every.poll(&waker), Poll::Pending));
    assert_eq!(every.take_command(), Command::Idle);
    state.wake();
    assert_eq!(woken(&count), 2);
    assert!(matches!(every.wait().poll(&waker), Poll::Ready(())));
}

#[test]
fn interval_change_takes_effect_at_the_next_restart() {
    let (_count, waker) = counter();
    let mut every = Interval::platform_new(Duration::from_secs(1));
    assert!(matches!(every.poll(&waker), Poll::Pending));
    every.interval = Duration::from_secs(3);
    assert_eq!(every.take_command(), Command::Arm(Duration::from_secs(1)));
    every.state().unwrap().wake();
    assert!(matches!(every.poll(&waker), Poll::Ready(())));
    assert_eq!(every.take_command(), Command::Arm(Duration::from_secs(3)));
}

#[test]
fn interval_set_period_is_used_from_the_next_restart_on() {
    let (_count, waker) = counter();
    let mut every = Interval::platform_new(Duration::from_secs(1));
    assert_eq!(every.current_period(), Duration::from_secs(1));
    assert!(matches!(every.poll(&waker), Poll::Pending));
    every.set_period(Duration::from_secs(4));
    assert_eq!(every.current_period(), Duration::from_secs(4));
    assert_eq!(every.interval, Duration::from_secs(4));
    assert_eq!(every.take_command(), Command::Arm(Duration::from_secs(1)));
    every.restart();
    assert_eq!(every.take_command(), Command::Arm(Duration::from_secs(4)));
}

#[test]
fn interval_restart_before_the_first_poll_arms_nothing() {
    let mut every = Interval::platform_new(Duration::from_secs(1));
    every.restart();
    assert_eq!(every.take_command(), Command::Idle);
    every.cancel();
    assert_eq!(every.take_command(), Command::Idle);
    assert!(every.state().is_none());
}

#[test]
fn interval_cancel_disarms() {
    let (count, waker) = counter();
    let mut every = Interval::platform_new(Duration::from_secs(1));
    assert!(matches!(every.poll(&waker), Poll::Pending));
    every.take_command();
    every.cancel();
    assert_eq!(every.take_command(), Command::Disarm);
    assert!(every.state().unwrap().is_done());
    assert_eq!(woken(&count), 0);
}

#[test]
fn timed_work_wins_when_both_are_ready() {
    let (_count, waker) = counter();
    let mut race = Timed::<Manual>::new(Duration::from_secs(3));
    assert!(matches!(race.poll_with(Poll::<u8>::Pending, &waker), Poll::Pending));
    let mut late = Timed::<Manual>::new(Duration::from_secs(3));
    late.poll_with(Poll::<u8>::Pending, &waker);
    let done = late.poll(|| Poll::Ready(7u8), &waker);
    assert!(matches!(done, Poll::Ready(Ok(7))));
    assert!(late.is_active());
    assert!(race.is_active());
}

#[test]
fn timed_work_wins_over_an_expired_timer() {
    let (_count, waker) = counter();
    let mut race = timed(Duration::from_secs(3));
    assert!(matches!(race.poll_with(Poll::<u8>::Pending, &waker), Poll::Pending));
    assert_eq!(race.take_command(), Command::Arm(Duration::from_secs(3)));
    race.state().unwrap().wake();
    assert!(matches!(race.poll_with(Poll::Ready(9u8), &waker), Poll::Ready(Ok(9))));
    assert!(race.is_active());
    assert!(matches!(race.poll_with(Poll::Ready(1u8), &waker), Poll::Ready(Ok(1))));
}

#[test]
fn timed_does_not_ask_the_work_without_a_race() {
    let (_count, waker) = counter();
    let mut race = timed(Duration::from_secs(3));
    race.poll_with(Poll::<u8>::Pending, &waker);
    race.state().unwrap().wake();
    assert!(matches!(race.poll_with(Poll::<u8>::Pending, &waker), Poll::Ready(Err(_))));
    assert!(!race.is_active());
    let asked = AtomicUsize::new(0);
    let poll = race.poll(
        || {
            asked.fetch_add(1, Ordering::SeqCst);
            Poll::Ready(5u8)
        },
        &waker,
    );
    assert!(matches!(poll, Poll::Pending));
    assert_eq!(asked.load(Ordering::SeqCst), 0);
    assert!(matches!(race.poll_with(Poll::Ready(5u8), &waker), Poll::Pending));
    assert_eq!(race.take_command(), Command::Idle);
    assert!(race.state().is_none());
}

#[test]
fn timed_expires_and_restarts_through_expired() {
    let (count, waker) = counter();
    let mut race = Timed::platform_new(Duration::from_secs(3));
    assert!(matches!(race.poll_with(Poll::<()>::Pending, &waker), Poll::Pending));
    assert_eq!(race.take_command(), Command::Arm(Duration::from_secs(3)));
    let state = race.state().unwrap();
    state.wake();
    assert_eq!(woken(&count), 1);

    let mut expired = match race.poll_with(Poll::<()>::Pending, &waker) {
        Poll::Ready(Err(expired)) => expired,
        _ => panic!("the timer has expired and the work is pending"),
    };
    assert!(!race.is_active());
    assert_eq!(expired.message(), "Future expired in 3 seconds and 0 ms");

    let mut again = match expired.poll(&waker) {
        Poll::Ready(race) => race,
        Poll::Pending => panic!("an expired race restarts at once"),
    };
    assert_eq!(expired.message(), "Future is being re-tried.");
    assert!(matches!(expired.poll(&waker), Poll::Pending));
    assert!(again.is_active());
    assert!(!state.is_done());
    assert_eq!(again.take_command(), Command::Arm(Duration::from_secs(3)));
    assert!(matches!(again.poll_with(Poll::<()>::Pending, &waker), Poll::Pending));
    state.wake();
    assert_eq!(woken(&count), 2);
    assert!(matches!(again.poll_with(Poll::Ready(()), &waker), Poll::Ready(Ok(()))));
}

#[test]
fn expired_message_gives_the_timeout() {
    let (_count, waker) = counter();
    for (timeout, want) in [
        (Duration::from_millis(250), "Future expired in 250 ms"),
        (Duration::from_nanos(1), "Future expired in 0 ms"),
        (Duration::from_millis(999), "Future expired in 999 ms"),
        (Duration::from_secs(1), "Future expired in 1 seconds and 0 ms"),
        (Duration::from_millis(12_034), "Future expired in 12 seconds and 34 ms"),
        (
            Duration::new(u64::MAX, 999_999_999),
            "Future expired in 18446744073709551615 seconds and 999 ms",
        ),
    ] {
        let mut race = timed(timeout);
        race.poll_with(Poll::<()>::Pending, &waker);
        race.state().unwrap().wake();
        match race.poll_with(Poll::<()>::Pending, &waker) {
            Poll::Ready(Err(expired)) => assert_eq!(expired.message(), want),
            _ => panic!("the timer has expired and the work is pending"),
        }
    }
}

#[test]
fn delay_makes_its_timer_on_the_first_poll() {
    let (count, waker) = counter();
    let mut delay = Delay::platform_new(Duration::from_secs(2));
    assert!(delay.state().is_none());
    assert_eq!(delay.take_command(), Command::Idle);
    delay.restart(&waker);
    assert!(delay.state().is_none());

    assert!(matches!(delay.poll(&waker), Poll::Pending));
    assert_eq!(delay.take_command(), Command::Arm(Duration::from_secs(2)));
    let state = delay.state().unwrap();
    state.wake();
    assert_eq!(woken(&count), 1);
    assert!(matches!(delay.poll(&waker), Poll::Ready(())));
    assert!(matches!(delay.poll(&waker), Poll::Ready(())));
    assert_eq!(delay.take_command(), Command::Idle);

    delay.restart(&waker);
    assert_eq!(delay.take_command(), Command::Arm(Duration::from_secs(2)));
    assert!(!state.is_done());
    assert!(matches!(delay.poll(&waker), Poll::Pending));
}

#[test]
fn delay_polls_any_timer() {
    let (_count, waker) = counter();
    let mut delay = Delay::<Manual>::new(Duration::from_millis(10));
    assert!(matches!(delay.poll(&waker), Poll::Pending));
    assert!(matches!(delay.poll(&waker), Poll::Pending));
}

#[test]
fn platform_timer_state_is_the_one_the_timer_reads() {
    let (count, waker) = counter();
    let mut timer = PlatformTimer::new(Duration::from_secs(1));
    assert!(timer.state().is_none());
    assert!(matches!(timer.poll(&waker), Poll::Pending));
    let first = timer.state().unwrap();
    let second = timer.state().unwrap();
    assert!(Arc::ptr_eq(&first, &second));
    second.wake();
    assert!(first.is_done());
    assert!(timer.is_expired());
    assert_eq!(woken(&count), 1);
}
