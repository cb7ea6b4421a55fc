use async_timer::time::Duration;
use async_timer::timer::{new_timer, Command, Phase, PlatformTimer, Timer};
use async_timer::{Delay, Expired, Interval, Poll, Timed};
use std::future::Future;
use std::pin::Pin;
use std::sync::{Arc, Condvar, Mutex};
use std::task::{Context, Waker};
use std::time;
use tokio::runtime::{Builder, Handle, Runtime};

/// What stops an alarm that has not gone off yet.
struct Alarm {
    stopped: Mutex<bool>,
    changed: Condvar,
}

impl Alarm {
    fn stop(&self) {
        *self.stopped.lock().unwrap() = true;
        self.changed.notify_all();
    }

    /// Waits for `wait` and tells whether the alarm was left standing.
    fn sleep(&self, wait: time::Duration) -> bool {
        let stopped = self.stopped.lock().unwrap();
        let (stopped, _) = self.changed.wait_timeout_while(stopped, wait, |stopped| !*stopped).unwrap();
        !*stopped
    }
}

/// A platform for the callback timer: each arming waits on a thread of the
/// runtime and then reports the expiry to the timer's state.
struct ThreadTimer {
    core: PlatformTimer,
    alarm: Option<Arc<Alarm>>,
}

impl ThreadTimer {
    fn disarm(&mut self) {
        if let Some(alarm) = self.alarm.take() {
            alarm.stop();
        }
    }

    fn carry_out(&mut self) {
        match self.core.take_command() {
            Command::Idle => {},
            Command::Disarm => self.disarm(),
            Command::Arm(timeout) => {
                self.disarm();
                let alarm = Arc::new(Alarm { stopped: Mutex::new(false), changed: Condvar::new() });
                let state = self.core.state().expect("an armed timer has a state");
                let wait = time::Duration::new(timeout.as_secs(), timeout.subsec_nanos());
                let watched = alarm.clone();
                Handle::current().spawn_blocking(move || {
                    if watched.sleep(wait) {
                        state.wake();
                    }
                });
                self.alarm = Some(alarm);
            },
        }
    }
}

impl Drop for ThreadTimer {
    fn drop(&mut self) {
        self.disarm();
    }
}

impl Timer for ThreadTimer {
    fn phase(&self) -> Phase {
        self.core.current_phase()
    }

    fn timeout(&self) -> Duration {
        self.core.current_timeout()
    }

    fn new(timeout: Duration) -> Self {
        assert!(!timeout.is_zero());
        ThreadTimer { core: PlatformTimer::new(timeout), alarm: None }
    }

    fn is_ticking(&self) -> bool {
        self.core.is_ticking()
    }

    fn is_expired(&self) -> bool {
        self.core.is_expired()
    }

    fn restart(&mut self, timeout: Duration) {
        assert!(!timeout.is_zero());
        self.core.restart(timeout);
        self.carry_out();
    }

    fn restart_ctx(&mut self, timeout: Duration, waker: &Waker) {
        assert!(!timeout.is_zero());
        self.core.restart_ctx(timeout, waker);
        self.carry_out();
    }

    fn cancel(&mut self) {
        self.core.cancel();
        self.carry_out();
    }

    fn poll(&mut self, waker: &Waker) -> Poll<()> {
        let poll = self.core.poll(waker);
        self.carry_out();
        poll
    }
}

fn answer<T>(poll: Poll<T>) -> std::task::Poll<T> {
    match poll {
        Poll::Ready(value) => std::task::Poll::Ready(value),
        Poll::Pending => std::task::Poll::Pending,
    }
}

/// A timer as a future.
struct Expiry<T: Timer>(T);

impl<T: Timer + Unpin> Future for Expiry<T> {
    type Output = ();

    fn poll(self: Pin<&mut Self>, ctx: &mut Context<'_>) -> std::task::Poll<()> {
        answer(self.get_mut().0.poll(ctx.waker()))
    }
}

/// A delay as a future.
struct Sleep<T: Timer>(Delay<T>);

impl<T: Timer + Unpin> Future for Sleep<T> {
    type Output = ();

    fn poll(self: Pin<&mut Self>, ctx: &mut Context<'_>) -> std::task::Poll<()> {
        answer(self.get_mut().0.poll(ctx.waker()))
    }
}

/// The next expiry of an interval as a future.
struct Wait<'a, T: Timer>(&'a mut Interval<T>);

impl<'a, T: Timer + Unpin> Future for Wait<'a, T> {
    type Output = ();

    fn poll(self: Pin<&mut Self>, ctx: &mut Context<'_>) -> std::task::Poll<()> {
        answer(self.get_mut().0.poll(ctx.waker()))
    }
}

/// A limit on the work `F` as a future.
struct Race<'a, F, T: Timer> {
    timed: Timed<T>,
    work: Option<Pin<&'a mut F>>,
}

/// What a race yields on a timeout: polled, it starts the next round.
struct Retry<'a, F, T: Timer> {
    expired: Expired<T>,
    work: Option<Pin<&'a mut F>>,
}

impl<'a, F: Future, T: Timer + Unpin> Future for Race<'a, F, T> {
    type Output = Result<F::Output, Retry<'a, F, T>>;

    fn poll(self: Pin<&mut Self>, ctx: &mut Context<'_>) -> std::task::Poll<Self::Output> {
        let this = self.get_mut();
        let waker = ctx.waker().clone();
        let poll = match this.work.as_mut() {
            None => Poll::Pending,
            Some(work) => this.timed.poll(
                || match work.as_mut().poll(ctx) {
                    std::task::Poll::Ready(output) => Poll::Ready(output),
                    std::task::Poll::Pending => Poll::Pending,
                },
                &waker,
            ),
        };
        match poll {
            Poll::Pending => std::task::Poll::Pending,
            Poll::Ready(Ok(output)) => std::task::Poll::Ready(Ok(output)),
            Poll::Ready(Err(expired)) => {
                std::task::Poll::Ready(Err(Retry { expired, work: this.work.take() }))
            },
        }
    }
}

impl<'a, F: Future, T: Timer + Unpin> Future for Retry<'a, F, T> {
    type Output = Race<'a, F, T>;

    fn poll(self: Pin<&mut Self>, ctx: &mut Context<'_>) -> std::task::Poll<Self::Output> {
        let this = self.get_mut();
        match this.expired.poll(ctx.waker()) {
            Poll::Pending => std::task::Poll::Pending,
            Poll::Ready(timed) => std::task::Poll::Ready(Race { timed, work: this.work.take() }),
        }
    }
}

fn race<'a, F: Future>(work: Pin<&'a mut F>, timeout: Duration) -> Race<'a, F, ThreadTimer> {
    Race { timed: Timed::new(timeout), work: Some(work) }
}

fn runtime() -> Runtime {
    Builder::new_current_thread().build().unwrap()
}

fn millis_since(before: time::SystemTime) -> u128 {
    time::SystemTime::now().duration_since(before).unwrap().as_millis()
}

#[test]
fn test_delay() {
    let rt = runtime();
    let work = Sleep(Delay::<ThreadTimer>::new(Duration::from_secs(2)));

    let before = time::SystemTime::now();
    rt.block_on(work);
    let after = time::SystemTime::now();
    let diff = after.duration_since(before).unwrap();

    assert_eq!(diff.as_secs(), 2);
}

#[test]
fn test_interval() {
    let rt = runtime();
    rt.block_on(async {
        let mut interval = Interval::<ThreadTimer>::new(Duration::from_secs(1));

        let before = time::SystemTime::now();
        Wait(interval.wait()).await;
        let diff = millis_since(before);

        assert!(diff >= 750 && diff <= 1_250);

        let before = time::SystemTime::now();
        Wait(interval.wait()).await;
        let diff = millis_since(before);

        assert!(diff >= 750 && diff <= 1_250);
    });
}

#[test]
fn test_timed() {
    let rt = runtime();
    rt.block_on(async {
        let mut future = Expiry(ThreadTimer::new(Duration::from_secs(4)));
        let future = Pin::new(&mut future);
        let work = race(future, Duration::from_secs(3));

        let before = time::SystemTime::now();

        let expired = match work.await {
            Ok(()) => panic!("the work cannot be done before the timeout"),
            Err(expired) => expired,
        };
        let work = expired.await;

        assert!(work.await.is_ok());
        let diff = millis_since(before);

        assert!(diff >= 3_500 && diff <= 4_500);
    });
}

#[test]
fn test_async_timer() {
    let rt = runtime();
    rt.block_on(async {
        let work = ThreadTimer::new(Duration::from_secs(2));
        assert!(!work.is_ticking());
        assert!(!work.is_expired());

        let before = time::SystemTime::now();
        Expiry(work).await;
        let diff = millis_since(before);

        assert!(diff >= 1_500 && diff <= 2_500);
    });
}

#[test]
fn test_oneshot() {
    let rt = runtime();
    rt.block_on(async {
        let work = ThreadTimer::new(Duration::from_secs(2));
        assert!(!work.is_expired());

        let before = time::SystemTime::now();
        Expiry(work).await;
        let diff = millis_since(before);

        assert!(diff >= 1_500 && diff <= 2_500);
    });
}

#[test]
fn test_smol_oneshot() {
    let rt = runtime();
    rt.block_on(async {
        let work = ThreadTimer::new(Duration::from_millis(500));
        assert!(!work.is_expired());

        let before = time::SystemTime::now();
        Expiry(work).await;
        let diff = millis_since(before);

        assert!(diff >= 250 && diff <= 750);
    });
}

#[test]
fn expired_timer_stays_ready_and_restarts() {
    let rt = runtime();
    rt.block_on(async {
        let mut work = Expiry(ThreadTimer::new(Duration::from_millis(100)));
        Pin::new(&mut work).await;
        assert!(work.0.is_expired());
        assert!(!work.0.is_ticking());
        assert!(matches!(work.0.phase(), Phase::Expired));
        Pin::new(&mut work).await;

        let before = time::SystemTime::now();
        work.0.restart(Duration::from_millis(300));
        assert!(matches!(work.0.phase(), Phase::Running));
        Pin::new(&mut work).await;
        let diff = millis_since(before);
        assert!(diff >= 250 && diff <= 750);
    });
}

#[test]
fn cancelled_timer_does_not_call_back() {
    let rt = runtime();
    rt.block_on(async {
        let mut work = ThreadTimer::new(Duration::from_secs(500000));
        let before = time::SystemTime::now();
        assert!(matches!(work.poll(&Waker::noop()), Poll::Pending));
        assert!(work.is_ticking());
        work.cancel();
        assert!(work.is_expired());
        Expiry(work).await;
        assert!(millis_since(before) < 1_000);
    });
}

#[test]
fn default_timer_never_fires_by_itself() {
    let mut work = new_timer(Duration::from_millis(1));
    assert!(matches!(work.poll(&Waker::noop()), Poll::Pending));
    assert!(matches!(work.take_command(), Command::Arm(_)));
    let before = time::Instant::now();
    while before.elapsed() < time::Duration::from_millis(20) {
        assert!(work.is_ticking());
    }
}
