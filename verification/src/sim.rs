use vstd::prelude::*;

use crate::errors::CommandReturn;
use crate::errors::ErrorCode;
use crate::reading::reading_to_word;
use crate::reading::word_of_reading;

verus! {

/// The resource number reserved for this sensor class. A wire-level
/// identifier: any client and any driver must agree on it exactly.
pub const DRIVER_NUM: u32 = 0x60001;

/// Command selector: probe whether the driver is present.
pub const EXISTS: u32 = 0;

/// Command selector: start a humidity measurement.
pub const READ_HUM: u32 = 1;

/// The simulated humidity driver: an in-memory model of the hardware driver's
/// command handling and busy/ready state. It accepts at most one measurement
/// at a time, and lets a test harness script completions: `set_value` finishes
/// the outstanding measurement, `set_value_sync` arms the next one to finish
/// the moment it is accepted.
#[derive(Clone, Copy, Debug, PartialEq, Eq, Structural)]
pub struct Humidity {
    /// True from the moment a read command is accepted until the measurement
    /// result is delivered.
    pub busy: bool,
    /// A reading armed by the harness for the next accepted read command.
    pub armed: Option<i32>,
    /// A completed measurement, encoded as an upcall word, waiting for the
    /// kernel to collect and deliver it.
    pub scheduled: Option<u32>,
}

/// The driver after the harness delivers `v`: while busy, the outstanding
/// measurement completes — the encoded reading is scheduled as an upcall and
/// the driver returns to ready. While ready the call is ignored: with no
/// outstanding measurement there is nothing to complete, and this driver
/// chooses to drop such a harness call rather than fabricate a measurement.
pub open spec fn spec_set_value(d: Humidity, v: i32) -> Humidity {
    if d.busy {
        Humidity { busy: false, armed: d.armed, scheduled: Some(word_of_reading(v)) }
    } else {
        d
    }
}

/// The driver after the harness arms `v`: the next accepted read command
/// completes immediately with `v`.
pub open spec fn spec_set_value_sync(d: Humidity, v: i32) -> Humidity {
    Humidity { busy: d.busy, armed: Some(v), scheduled: d.scheduled }
}

/// One command handled by the driver: presence probes always succeed and
/// change nothing; a read request is refused with `Busy` while one is
/// outstanding, and otherwise accepted — completing immediately when a
/// reading was armed; any other selector is refused as unsupported.
pub open spec fn spec_command(d: Humidity, command_id: u32) -> (Humidity, CommandReturn) {
    if command_id == EXISTS {
        (d, CommandReturn::Success)
    } else if command_id == READ_HUM {
        if d.busy {
            (d, CommandReturn::Failure(ErrorCode::Busy))
        } else {
            match d.armed {
                None => (
                    Humidity { busy: true, armed: None, scheduled: d.scheduled },
                    CommandReturn::Success,
                ),
                Some(v) => (
                    spec_set_value(
                        Humidity { busy: true, armed: None, scheduled: d.scheduled },
                        v,
                    ),
                    CommandReturn::Success,
                ),
            }
        }
    } else {
        (d, CommandReturn::Failure(ErrorCode::NotSupported))
    }
}

impl Humidity {
    /// A fresh driver: ready, nothing armed, nothing scheduled.
    pub fn new() -> (d: Humidity)
        ensures
            d == (Humidity { busy: false, armed: None, scheduled: None }),
    {
        Humidity { busy: false, armed: None, scheduled: None }
    }

    /// True while a measurement is outstanding.
    pub fn is_busy(&self) -> (r: bool)
        ensures
            r == self.busy,
    {
        self.busy
    }

    /// Harness: complete the outstanding measurement with `v`. Ignored while
    /// ready (see `spec_set_value`).
    pub fn set_value(&mut self, v: i32)
        ensures
            *final(self) == spec_set_value(*old(self), v),
    {
        if self.busy {
            self.scheduled = Some(reading_to_word(v));
            self.busy = false;
        }
    }

    /// Harness: arm the driver so that the next accepted read command
    /// completes immediately with `v`.
    pub fn set_value_sync(&mut self, v: i32)
        ensures
            *final(self) == spec_set_value_sync(*old(self), v),
    {
        self.armed = Some(v);
    }

    /// Handles one command call. The two argument words are part of the wire
    /// convention; this driver ignores them.
    pub fn command(&mut self, command_id: u32, _argument0: u32, _argument1: u32) -> (r: CommandReturn)
        ensures
            (*final(self), r) == spec_command(*old(self), command_id),
    {
        if command_id == EXISTS {
            CommandReturn::Success
        } else if command_id == READ_HUM {
            if self.busy {
                CommandReturn::Failure(ErrorCode::Busy)
            } else {
                self.busy = true;
                let armed = self.armed;
                self.armed = None;
                match armed {
                    Some(v) => {
                        self.set_value(v);
                    },
                    None => {},
                }
                CommandReturn::Success
            }
        } else {
            CommandReturn::Failure(ErrorCode::NotSupported)
        }
    }

    /// The kernel collects the scheduled upcall word, leaving the outbox
    /// empty.
    pub fn take_scheduled(&mut self) -> (r: Option<u32>)
        ensures
            r == old(self).scheduled,
            *final(self) == (Humidity { busy: old(self).busy, armed: old(self).armed, scheduled: None }),
    {
        let w = self.scheduled;
        self.scheduled = None;
        w
    }
}

} // verus!
