//! Helpers for applications that poll the driver: what a reception poll means, and a running clock
use crate::error::Error;
use vstd::prelude::*;

verus! {

/// Why a polled reception has no packet to hand out yet
#[derive(Debug, Clone, Copy, PartialEq, Eq, Structural)]
pub enum RadioRecieveError {
    /// The modem gave up waiting; reception must be started again
    RxTimeout,
    /// The reception is still running
    StillRecieving,
}

/// The meaning of a reception poll for an application: a packet of some length, one of the two outcomes
/// that call for polling or restarting, or an error the application cannot recover from
pub open spec fn spec_receive_outcome(polled: Result<Option<usize>, Error>) -> Result<
    Result<usize, RadioRecieveError>,
    Error,
> {
    match polled {
        Ok(Some(len)) => Ok(Ok(len)),
        Ok(None) => Ok(Err(RadioRecieveError::StillRecieving)),
        Err(Error::RxTimeout) => Ok(Err(RadioRecieveError::RxTimeout)),
        Err(e) => Err(e),
    }
}

/// Classifies the result of [`crate::rfm95::Rfm95Driver::complete_rx`]
pub fn receive_outcome(polled: Result<Option<usize>, Error>) -> (r: Result<Result<usize, RadioRecieveError>, Error>)
    ensures
        r == spec_receive_outcome(polled),
{
    match polled {
        Ok(Some(len)) => Ok(Ok(len)),
        Ok(None) => Ok(Err(RadioRecieveError::StillRecieving)),
        Err(Error::RxTimeout) => Ok(Err(RadioRecieveError::RxTimeout)),
        Err(e) => Err(e),
    }
}

/// The largest number of seconds a [`Time`] can count to: 255:59:59
pub open spec fn time_limit() -> int {
    (255 * 3600 + 59 * 60 + 59) as int
}

/// A running clock of hours, minutes and seconds
#[derive(Debug, Clone, Copy, PartialEq, Eq, Structural)]
pub struct Time {
    seconds: u8,
    minutes: u8,
    hours: u8,
}

impl Time {
    /// Seconds and minutes stay below 60
    pub closed spec fn wf(self) -> bool {
        self.seconds < 60 && self.minutes < 60
    }

    /// The time in seconds
    pub closed spec fn total_seconds(self) -> int {
        self.hours * 3600 + self.minutes * 60 + self.seconds
    }

    /// Midnight
    pub fn new() -> (r: Time)
        ensures
            r.wf(),
            r.total_seconds() == 0,
    {
        Time { seconds: 0, minutes: 0, hours: 0 }
    }

    /// The seconds past the minute
    pub fn seconds(&self) -> (r: u8)
        requires
            self.wf(),
        ensures
            r == self.total_seconds() % 60,
    {
        self.seconds
    }

    /// The minutes past the hour
    pub fn minutes(&self) -> (r: u8)
        requires
            self.wf(),
        ensures
            r == (self.total_seconds() / 60) % 60,
    {
        self.minutes
    }

    /// The whole hours
    pub fn hours(&self) -> (r: u8)
        requires
            self.wf(),
        ensures
            r == self.total_seconds() / 3600,
    {
        self.hours
    }

    /// Add one second to the time
    pub fn increment(&mut self)
        requires
            old(self).wf(),
            old(self).total_seconds() < time_limit(),
        ensures
            final(self).wf(),
            final(self).total_seconds() == old(self).total_seconds() + 1,
    {
        if self.seconds < 59 {
            self.seconds = self.seconds + 1;
            return;
        }

        self.seconds = 0;
        if self.minutes < 59 {
            self.minutes = self.minutes + 1;
            return;
        }

        self.minutes = 0;
        self.hours = self.hours + 1;
    }
}

impl Default for Time {
    fn default() -> (r: Time)
        ensures
            r.wf(),
            r.total_seconds() == 0,
    {
        Time::new()
    }
}

} // verus!
