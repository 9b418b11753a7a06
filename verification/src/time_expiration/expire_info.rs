//! When a key expires, and the clock that tells.
use vstd::prelude::*;

use crate::messages::redis_messages;
use crate::native_types::ErrorStruct;

verus! {

/// Nanoseconds in a second.
pub const NANOS_PER_SEC: u64 = 1000000000u64;

/// The error that `SystemTime::elapsed` gives for a clock set before the
/// instant asked about.
#[verifier::external_type_specification]
#[verifier::external_body]
pub struct ExSystemTimeError(std::time::SystemTimeError);

/// `SystemTime::elapsed` of `UNIX_EPOCH`: the time since the Unix epoch by
/// the system clock, or an error when the clock is set before it. Nothing
/// is promised of the value: it depends on the clock.
#[verifier::external_body]
fn epoch_elapsed() -> Result<std::time::Duration, std::time::SystemTimeError> {
    std::time::SystemTime::UNIX_EPOCH.elapsed()
}

/// `Duration::as_nanos`: the whole nanoseconds of a duration. What it
/// returns is left unsaid: a `Duration` is opaque here, so there is nothing
/// of the argument to state it over; the only durations handed to it come
/// from the clock.
#[verifier::external_body]
fn duration_nanos(d: &std::time::Duration) -> u128 {
    d.as_nanos()
}

/// `n` as a `u64`, or `u64::MAX` when it does not fit.
pub fn clamp_to_u64(n: u128) -> (r: u64)
    ensures
        r == (if n > u64::MAX { u64::MAX as int } else { n as int }),
{
    if n > u64::MAX as u128 {
        u64::MAX
    } else {
        n as u64
    }
}

/// The current time, in nanoseconds since the Unix epoch, `u64::MAX` past
/// what a `u64` holds, 0 when the clock is set before the epoch. Nothing is
/// promised of the value: it depends on the clock.
pub(crate) fn now_nanos() -> u64 {
    match epoch_elapsed() {
        Ok(elapsed) => clamp_to_u64(duration_nanos(&elapsed)),
        Err(_) => 0,
    }
}

/// The expiration of a key: the instant, in nanoseconds since the Unix
/// epoch, from which on it no longer exists; `None` when it never expires.
#[derive(Debug, Clone, Copy)]
pub struct ExpireInfo {
    pub deadline: Option<u64>,
}

/// Whole seconds left until `deadline`, at the time `now`.
pub open spec fn seconds_left(deadline: u64, now: u64) -> nat {
    if deadline > now {
        ((deadline - now) / (NANOS_PER_SEC as int)) as nat
    } else {
        0
    }
}

/// The key has expired at the time `now`.
pub open spec fn expired(deadline: Option<u64>, now: u64) -> bool {
    match deadline {
        Some(d) => now >= d,
        None => false,
    }
}

/// The seconds left before the key expires, if it expires.
pub open spec fn ttl_spec(deadline: Option<u64>, now: u64) -> Option<u64> {
    match deadline {
        Some(d) => Some(seconds_left(d, now) as u64),
        None => None,
    }
}

/// The deadline of a timeout of `timeout` seconds from `now`, if it fits.
pub open spec fn deadline_after(timeout: u64, now: u64) -> Option<u64> {
    if now + timeout * NANOS_PER_SEC <= u64::MAX {
        Some((now + timeout * NANOS_PER_SEC) as u64)
    } else {
        None
    }
}

/// The deadline at `timestamp` seconds since the Unix epoch, if it fits.
pub open spec fn deadline_at(timestamp: u64) -> Option<u64> {
    if timestamp * NANOS_PER_SEC <= u64::MAX {
        Some((timestamp * NANOS_PER_SEC) as u64)
    } else {
        None
    }
}

impl ExpireInfo {
    /// An expiration that never comes.
    pub fn new() -> (e: Self)
        ensures
            e.deadline is None,
    {
        ExpireInfo { deadline: None }
    }

    /// Whether the key has expired at the time `now`.
    pub fn is_expired(&self, now: u64) -> (b: bool)
        ensures
            b == expired(self.deadline, now),
    {
        match self.deadline {
            Some(d) => now >= d,
            None => false,
        }
    }

    /// The seconds left before the key expires at the time `now`, if it
    /// expires.
    pub fn ttl(&self, now: u64) -> (r: Option<u64>)
        ensures
            r == ttl_spec(self.deadline, now),
    {
        match self.deadline {
            Some(d) => if d > now {
                Some((d - now) / NANOS_PER_SEC)
            } else {
                Some(0)
            },
            None => None,
        }
    }

    /// Makes the key expire `timeout` seconds after `now`.
    pub fn set_timeout(&mut self, timeout: u64, now: u64) -> (r: Result<(), ErrorStruct>)
        ensures
            match deadline_after(timeout, now) {
                Some(d) => r is Ok && final(self).deadline == Some(d),
                None => *final(self) == *old(self) && (r matches Err(e) && e.prefix@ == "TTL"@
                    && e.message@ == "an error occurred with the epoch expiration"@),
            },
    {
        match timeout.checked_mul(NANOS_PER_SEC) {
            Some(span) => match now.checked_add(span) {
                Some(d) => {
                    self.deadline = Some(d);
                    Ok(())
                },
                None => Err(ErrorStruct::from(redis_messages::ttl_epoch_error())),
            },
            None => Err(ErrorStruct::from(redis_messages::ttl_epoch_error())),
        }
    }

    /// Makes the key expire at `timestamp` seconds since the Unix epoch.
    pub fn set_timeout_unix_timestamp(&mut self, timestamp: u64) -> (r: Result<(), ErrorStruct>)
        ensures
            match deadline_at(timestamp) {
                Some(d) => r is Ok && final(self).deadline == Some(d),
                None => *final(self) == *old(self) && (r matches Err(e) && e.prefix@ == "TTL"@
                    && e.message@ == "an error occurred with the epoch expiration"@),
            },
    {
        match timestamp.checked_mul(NANOS_PER_SEC) {
            Some(d) => {
                self.deadline = Some(d);
                Ok(())
            },
            None => Err(ErrorStruct::from(redis_messages::ttl_epoch_error())),
        }
    }

    /// Makes the key never expire; returns the seconds that were left at
    /// the time `now`, if it was to expire.
    pub fn persist(&mut self, now: u64) -> (r: Option<u64>)
        ensures
            r == ttl_spec(old(self).deadline, now),
            final(self).deadline is None,
    {
        let r = self.ttl(now);
        self.deadline = None;
        r
    }
}

} // verus!
