//! Timer primitives for cooperative tasks.
//!
//! The crate holds the platform-independent half of a timer: the lock-free
//! cell through which a native callback notifies the task that waits, the
//! state machine of a one-shot timer, and the periodic and deadline
//! primitives built on it. Arming a native timer is left to the platform
//! layer, which is told what to do through [`timer::Command`].
//!
//! - [`state`]: the waker cell and the timer's shared state.
//! - [`handshake`]: the decisions of the cell's protocol, its model, and what
//!   is proved of it.
//! - [`timer`]: the timer interfaces, the platform-independent timers, and
//!   the numbers that the native interfaces take for a timeout.
//! - [`oneshot`]: the one-shot interface in its plainest form.
//! - [`Interval`], [`Timed`], [`Delay`]: primitives over any timer.
//! - [`time`], [`poll`], [`text`], [`task`]: spans of time, the answer of a
//!   poll, numbers as text, and what is taken from the standard library.
pub mod delay;
pub mod handshake;
pub mod interval;
pub mod oneshot;
pub mod poll;
pub mod state;
pub mod task;
pub mod text;
pub mod time;
pub mod timed;
pub mod timer;

pub use delay::Delay;
pub use interval::Interval;
pub use poll::Poll;
pub use state::Callback;
pub use timed::Expired;
pub use timed::Timed;
pub use timer::new_sync_timer;
pub use timer::new_timer;
pub use timer::SyncTimer;
pub use timer::Timer;

use vstd::prelude::*;

verus! {

/// An interval on the default timer.
pub fn interval(period: time::Duration) -> (made: Interval<timer::Platform>)
    requires
        period@ > 0,
    ensures
        made.period() == period,
        made.timer().phase() == timer::Phase::Init,
        made.timer().timeout() == period,
{
    Interval::platform_new(period)
}

/// A limit of `timeout` on the default timer.
pub fn timed(timeout: time::Duration) -> (made: Timed<timer::Platform>)
    requires
        timeout@ > 0,
    ensures
        made.fresh(timeout),
{
    Timed::platform_new(timeout)
}

} // verus!
