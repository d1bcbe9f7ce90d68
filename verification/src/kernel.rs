use vstd::prelude::*;

use crate::errors::CommandReturn;
use crate::errors::ErrorCode;
use crate::listener::spec_deliver;
use crate::listener::HumidityListener;
use crate::sim;
use crate::sim::DRIVER_NUM;

verus! {

/// What the non-blocking cooperative yield reports: whether some pending
/// upcall was delivered before it returned.
#[derive(Clone, Copy, Debug, PartialEq, Eq, Structural)]
pub enum YieldNoWaitReturn {
    /// A pending upcall was delivered.
    Upcall,
    /// Nothing was deliverable.
    NoUpcall,
}

/// The deterministic transport model: a numbered command dispatch, the single
/// listener slot for this sensor's (resource, channel 0) pair, and the
/// single-slot queue of upcalls scheduled but not yet delivered. Everything is
/// single-threaded and cooperative: state changes only through these calls.
pub struct Kernel {
    /// The driver registered under the sensor's resource number, if any.
    pub driver: Option<sim::Humidity>,
    /// The listener bound to (DRIVER_NUM, channel 0), if any.
    pub listener: Option<HumidityListener>,
    /// The upcall word scheduled for delivery and not yet delivered.
    pub pending: Option<u32>,
}

/// Moves a word the driver scheduled into the kernel's pending slot. With no
/// listener registered the word is dropped silently: a completed measurement
/// nobody listens for is not observable.
pub open spec fn spec_pump(k: Kernel) -> Kernel {
    match k.driver {
        Some(d) => match d.scheduled {
            Some(w) => Kernel {
                driver: Some(sim::Humidity { busy: d.busy, armed: d.armed, scheduled: None }),
                listener: k.listener,
                pending: if k.listener is Some {
                    Some(w)
                } else {
                    k.pending
                },
            },
            None => k,
        },
        None => k,
    }
}

/// One command dispatched through the kernel: with the sensor's resource
/// number and a driver attached, the driver handles it and any upcall it
/// scheduled is collected; otherwise the call fails with `NoDevice` and
/// nothing changes.
pub open spec fn spec_command(k: Kernel, driver_num: u32, command_id: u32) -> (Kernel, CommandReturn) {
    if driver_num == DRIVER_NUM && k.driver is Some {
        let (d, r) = sim::spec_command(k.driver->0, command_id);
        (spec_pump(Kernel { driver: Some(d), listener: k.listener, pending: k.pending }), r)
    } else {
        (k, CommandReturn::Failure(ErrorCode::NoDevice))
    }
}

/// Binding a listener: accepted exactly for this sensor's (resource,
/// channel 0) pair with a driver attached. The new binding replaces any
/// previous one, and an upcall still pending for the previous binding is
/// discarded with it, so no listener ever receives a delivery scheduled for
/// another.
pub open spec fn spec_subscribe(
    k: Kernel,
    driver_num: u32,
    channel: u32,
    l: HumidityListener,
) -> (Kernel, Result<(), ErrorCode>) {
    if driver_num == DRIVER_NUM && channel == 0 && k.driver is Some {
        (Kernel { driver: k.driver, listener: Some(l), pending: None }, Ok(()))
    } else {
        (k, Err(ErrorCode::NoDevice))
    }
}

/// Clearing the listener slot: idempotent, and any upcall still pending for
/// the cleared binding is discarded with it.
pub open spec fn spec_unsubscribe(k: Kernel, driver_num: u32, channel: u32) -> Kernel {
    if driver_num == DRIVER_NUM && channel == 0 {
        Kernel { driver: k.driver, listener: None, pending: None }
    } else {
        k
    }
}

/// One delivery attempt: with an upcall pending and a listener bound, the
/// upcall is delivered to the listener; otherwise nothing happens.
pub open spec fn spec_yield(k: Kernel) -> (Kernel, YieldNoWaitReturn) {
    if k.pending is Some && k.listener is Some {
        (
            Kernel {
                driver: k.driver,
                listener: Some(spec_deliver(k.listener->0, k.pending->0)),
                pending: None,
            },
            YieldNoWaitReturn::Upcall,
        )
    } else {
        (k, YieldNoWaitReturn::NoUpcall)
    }
}

/// The harness completing a measurement with `v`, through the kernel: the
/// driver schedules the encoded reading (while busy; ignored while ready) and
/// the kernel collects it.
pub open spec fn spec_set_value(k: Kernel, v: i32) -> Kernel {
    match k.driver {
        Some(d) => spec_pump(
            Kernel { driver: Some(sim::spec_set_value(d, v)), listener: k.listener, pending: k.pending },
        ),
        None => k,
    }
}

/// The harness arming `v` for the next accepted measurement, through the
/// kernel; ignored with no driver attached.
pub open spec fn spec_set_value_sync(k: Kernel, v: i32) -> Kernel {
    match k.driver {
        Some(d) => Kernel {
            driver: Some(sim::spec_set_value_sync(d, v)),
            listener: k.listener,
            pending: k.pending,
        },
        None => k,
    }
}

/// No completed measurement is sitting uncollected in the driver's outbox —
/// the state in which every kernel operation leaves an attached driver, since
/// each one collects what the driver scheduled before returning.
pub open spec fn quiescent(k: Kernel) -> bool {
    match k.driver {
        Some(d) => d.scheduled is None,
        None => true,
    }
}

/// The reading held by the bound listener, if a listener is bound and a
/// delivery has reached it.
pub open spec fn spec_listener_reading(k: Kernel) -> Option<i32> {
    match k.listener {
        Some(l) => l.reading,
        None => None,
    }
}

impl Kernel {
    /// A fresh kernel: no driver attached, no listener bound, nothing pending.
    pub fn new() -> (k: Kernel)
        ensures
            k == (Kernel { driver: None, listener: None, pending: None }),
    {
        Kernel { driver: None, listener: None, pending: None }
    }

    /// Attaches `driver` as the driver registered under the sensor's resource
    /// number, replacing any previous one.
    pub fn add_driver(&mut self, driver: sim::Humidity)
        ensures
            *final(self) == (Kernel {
                driver: Some(driver),
                listener: old(self).listener,
                pending: old(self).pending,
            }),
    {
        self.driver = Some(driver);
    }

    /// Collects an upcall word the driver scheduled, dropping it silently when
    /// no listener is bound.
    fn pump(&mut self)
        ensures
            *final(self) == spec_pump(*old(self)),
    {
        match self.driver {
            Some(d) => {
                match d.scheduled {
                    Some(word) => {
                        self.driver = Some(
                            sim::Humidity { busy: d.busy, armed: d.armed, scheduled: None },
                        );
                        if self.listener.is_some() {
                            self.pending = Some(word);
                        }
                    },
                    None => {},
                }
            },
            None => {},
        }
    }

    /// Dispatches one command to the driver registered under `driver_num`.
    /// The two argument words are passed through to the driver.
    pub fn command(
        &mut self,
        driver_num: u32,
        command_id: u32,
        argument0: u32,
        argument1: u32,
    ) -> (r: CommandReturn)
        ensures
            (*final(self), r) == spec_command(*old(self), driver_num, command_id),
    {
        if driver_num != DRIVER_NUM {
            return CommandReturn::Failure(ErrorCode::NoDevice);
        }
        match self.driver {
            Some(d0) => {
                let mut d = d0;
                let r = d.command(command_id, argument0, argument1);
                self.driver = Some(d);
                self.pump();
                r
            },
            None => CommandReturn::Failure(ErrorCode::NoDevice),
        }
    }

    /// Binds `listener` to (`driver_num`, `channel`); see `spec_subscribe`.
    pub fn subscribe(&mut self, driver_num: u32, channel: u32, listener: HumidityListener) -> (r:
        Result<(), ErrorCode>)
        ensures
            (*final(self), r) == spec_subscribe(*old(self), driver_num, channel, listener),
    {
        if driver_num == DRIVER_NUM && channel == 0 && self.driver.is_some() {
            self.listener = Some(listener);
            self.pending = None;
            Ok(())
        } else {
            Err(ErrorCode::NoDevice)
        }
    }

    /// Clears the binding for (`driver_num`, `channel`); idempotent.
    pub fn unsubscribe(&mut self, driver_num: u32, channel: u32)
        ensures
            *final(self) == spec_unsubscribe(*old(self), driver_num, channel),
    {
        if driver_num == DRIVER_NUM && channel == 0 {
            self.listener = None;
            self.pending = None;
        }
    }

    /// The non-blocking cooperative yield: delivers the pending upcall to the
    /// bound listener if both exist, and reports whether it did.
    pub fn yield_no_wait(&mut self) -> (r: YieldNoWaitReturn)
        ensures
            (*final(self), r) == spec_yield(*old(self)),
    {
        match (self.pending, self.listener) {
            (Some(word), Some(l0)) => {
                let mut l = l0;
                l.upcall(word, 0, 0);
                self.listener = Some(l);
                self.pending = None;
                YieldNoWaitReturn::Upcall
            },
            _ => YieldNoWaitReturn::NoUpcall,
        }
    }

    /// The blocking cooperative yield, as a deterministic model can offer it:
    /// it delivers the pending upcall if one is deliverable and reports
    /// `true`; it reports `false` where the real scheduler would suspend
    /// forever because nothing is pending, so that a caller can stop waiting
    /// instead of hanging.
    pub fn yield_wait(&mut self) -> (delivered: bool)
        ensures
            *final(self) == spec_yield(*old(self)).0,
            delivered == (spec_yield(*old(self)).1 is Upcall),
    {
        let r = self.yield_no_wait();
        match r {
            YieldNoWaitReturn::Upcall => true,
            YieldNoWaitReturn::NoUpcall => false,
        }
    }

    /// Harness: complete the outstanding measurement with `v`; see
    /// `spec_set_value`.
    pub fn set_value(&mut self, v: i32)
        ensures
            *final(self) == spec_set_value(*old(self), v),
    {
        match self.driver {
            Some(d0) => {
                let mut d = d0;
                d.set_value(v);
                self.driver = Some(d);
                self.pump();
            },
            None => {},
        }
    }

    /// Harness: arm `v` for the next accepted measurement; see
    /// `spec_set_value_sync`.
    pub fn set_value_sync(&mut self, v: i32)
        ensures
            *final(self) == spec_set_value_sync(*old(self), v),
    {
        match self.driver {
            Some(d0) => {
                let mut d = d0;
                d.set_value_sync(v);
                self.driver = Some(d);
            },
            None => {},
        }
    }

    /// True while the attached driver holds an outstanding measurement.
    pub fn is_busy(&self) -> (r: bool)
        ensures
            r == (self.driver matches Some(d) && d.busy),
    {
        match self.driver {
            Some(d) => d.busy,
            None => false,
        }
    }

    /// The reading the bound listener holds, if any delivery has reached it.
    pub fn listener_reading(&self) -> (r: Option<i32>)
        ensures
            r == spec_listener_reading(*self),
    {
        match self.listener {
            Some(l) => l.reading,
            None => None,
        }
    }

    /// How many deliveries have reached the bound listener; zero with no
    /// listener bound.
    pub fn listener_count(&self) -> (r: u64)
        ensures
            r == (match self.listener {
                Some(l) => l.count,
                None => 0u64,
            }),
    {
        match self.listener {
            Some(l) => l.count,
            None => 0,
        }
    }
}

} // verus!
