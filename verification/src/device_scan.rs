//! Bookkeeping for scans of the serial devices.
//!
//! The scan itself runs elsewhere. The scanner decides when one may start,
//! takes its result when it arrives, and tells when the next one is due.
//! Moments and spans are nanoseconds on a clock that never runs backwards.

use vstd::prelude::*;
use vstd::string::StringExecFns;
use crate::serial::SerialDevice;
use crate::text::{decimal, i32_to_decimal, opt_view};

verus! {

/// What a scan found.
#[derive(Clone, Debug)]
pub struct ScanResult {
    /// The devices, in the order in which the system named them.
    pub devices: Vec<SerialDevice>,
    /// When the scan ended.
    pub completed_at: u64,
    /// How long the scan took.
    pub duration: u64,
    /// Why the scan failed, if it did.
    pub error: Option<String>,
}

/// The time from `since` to `now`; nothing where `now` is the earlier one.
pub open spec fn elapsed(now: u64, since: u64) -> int {
    if now >= since {
        now - since
    } else {
        0
    }
}

/// The error of an enumeration that failed with the code `code`.
pub open spec fn enumeration_error(code: int) -> Seq<char> {
    "enumeration failed ("@ + decimal(code) + ")"@
}

impl ScanResult {
    /// The result of a scan that began at `started` and ended at
    /// `completed` with `outcome`: the devices that were enumerated, or
    /// none and the error where the enumeration failed with a code.
    pub fn from_enumeration(
        outcome: Result<Vec<SerialDevice>, i32>,
        started: u64,
        completed: u64,
    ) -> (result: ScanResult)
        ensures
            result.completed_at == completed,
            result.duration == elapsed(completed, started),
            match outcome {
                Ok(devices) => result.devices == devices && result.error is None,
                Err(code) => result.devices@.len() == 0 && opt_view(result.error) == Some(
                    enumeration_error(code as int),
                ),
            },
    {
        let duration = if completed >= started {
            completed - started
        } else {
            0
        };
        match outcome {
            Ok(devices) => ScanResult { devices, completed_at: completed, duration, error: None },
            Err(code) => {
                let mut message = String::from_str("enumeration failed (");
                let number = i32_to_decimal(code);
                message.append(number.as_str());
                message.append(")");
                ScanResult {
                    devices: Vec::new(),
                    completed_at: completed,
                    duration,
                    error: Some(message),
                }
            },
        }
    }
}

/// The state of the scanner.
#[derive(Debug)]
pub struct DeviceScanner {
    /// A scan was started and its result has not arrived.
    pub pending: bool,
    /// The result of the latest scan that ended.
    pub last_result: Option<ScanResult>,
    /// When the latest scan was started.
    pub last_started: Option<u64>,
    /// A scan is under way.
    pub scanning: bool,
}

impl DeviceScanner {
    /// A scanner that has not scanned yet.
    pub fn new() -> (scanner: DeviceScanner)
        ensures
            !scanner.pending,
            scanner.last_result is None,
            scanner.last_started is None,
            !scanner.scanning,
    {
        DeviceScanner { pending: false, last_result: None, last_started: None, scanning: false }
    }

    /// The result of the latest scan that ended.
    pub fn last_result(&self) -> (result: Option<&ScanResult>)
        ensures
            match result {
                Some(found) => self.last_result == Some(*found),
                None => self.last_result is None,
            },
    {
        self.last_result.as_ref()
    }

    /// Asks for a scan at the moment `now`. Where one is under way nothing
    /// changes and the answer is no. Otherwise the scanner notes the scan
    /// as started at `now` and under way, and the answer is yes: the caller
    /// is to run the scan and hand its result to [`DeviceScanner::poll`].
    pub fn refresh(&mut self, now: u64) -> (start: bool)
        ensures
            start == !old(self).scanning,
            if old(self).scanning {
                *final(self) == *old(self)
            } else {
                *final(self) == (DeviceScanner {
                    pending: true,
                    last_started: Some(now),
                    scanning: true,
                    last_result: old(self).last_result,
                })
            },
    {
        if self.scanning {
            return false;
        }
        self.scanning = true;
        self.last_started = Some(now);
        self.pending = true;
        true
    }

    /// Takes the result of the scan under way, if it has `arrived`, and
    /// gives the latest result there is. A result that arrives while no
    /// scan is awaited is dropped.
    pub fn poll(&mut self, arrived: Option<ScanResult>) -> (result: Option<&ScanResult>)
        ensures
            if old(self).pending && arrived is Some {
                *final(self) == (DeviceScanner {
                    pending: false,
                    scanning: false,
                    last_result: arrived,
                    last_started: old(self).last_started,
                })
            } else {
                *final(self) == *old(self)
            },
            match result {
                Some(found) => final(self).last_result == Some(*found),
                None => final(self).last_result is None,
            },
    {
        if self.pending {
            match arrived {
                Some(result) => {
                    self.last_result = Some(result);
                    self.pending = false;
                    self.scanning = false;
                },
                None => {},
            }
        }
        self.last_result()
    }

    /// Whether the next scan is due at `now`, when one is to run every
    /// `interval`: never while one is under way; else once `interval` has
    /// passed since the latest scan ended, or, where none has ended, since
    /// the latest one was started; and at once where none was ever started.
    pub open spec fn due(&self, now: u64, interval: u64) -> bool {
        if self.scanning {
            false
        } else {
            match (self.last_result, self.last_started) {
                (Some(result), _) => elapsed(now, result.completed_at) >= interval,
                (None, Some(started)) => elapsed(now, started) >= interval,
                (None, None) => true,
            }
        }
    }

    /// Whether the next scan is due at `now`, when one is to run every
    /// `interval`.
    pub fn auto_refresh_due(&self, now: u64, interval: u64) -> (due: bool)
        ensures
            due == self.due(now, interval),
    {
        if self.scanning {
            return false;
        }
        match &self.last_result {
            Some(result) => since(now, result.completed_at) >= interval,
            None => match self.last_started {
                Some(started) => since(now, started) >= interval,
                None => true,
            },
        }
    }
}

/// The time from `since` to `now`; nothing where `now` is the earlier one.
pub fn since(now: u64, then: u64) -> (span: u64)
    ensures
        span == elapsed(now, then),
{
    if now >= then {
        now - then
    } else {
        0
    }
}

} // verus!
