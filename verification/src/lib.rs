//! Time primitives for code running inside a hardware-isolated execution
//! environment that has no trustworthy clock of its own.
//!
//! Every raw reading originates from the untrusted host and is treated as
//! adversarial input.  The library offers:
//!
//! - a monotonic clock ([`Instant`]) whose comparisons and differences never
//!   go backwards, repaired by a process-wide [`MonotonicityGuard`] when the
//!   platform's raw clock is not itself monotonic;
//! - a wall clock ([`SystemTime`]) anchored at a fixed epoch, explicitly
//!   allowed to move backwards, with fallible differencing;
//! - an explicit capability ([`UntrustedTimeAccess`]) that is the sole path
//!   to turning a host-supplied reading into a timestamp, so that code which
//!   never asks the host for time is statically recognizable.
//!
//! The actual host calls live outside this library; callers hand raw
//! readings in as plain [`RawReading`] values.  All other operations —
//! comparing timestamps, differencing them, adding a [`Duration`] — only
//! manipulate values the caller already possesses and are unconditionally
//! available.

pub mod capability;
pub mod duration;
pub mod guard;
pub mod instant;
pub mod reading;
pub mod system_time;

pub use capability::UntrustedTimeAccess;
pub use duration::Duration;
pub use duration::NANOS_PER_SEC;
pub use guard::MonotonicityGuard;
pub use instant::Instant;
pub use reading::RawReading;
pub use system_time::SystemTime;
pub use system_time::SystemTimeError;
