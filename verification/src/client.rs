use vstd::prelude::*;

use crate::errors::result_of_command;
use crate::errors::ErrorCode;
use crate::kernel::quiescent;
use crate::kernel::spec_command;
use crate::kernel::spec_listener_reading;
use crate::kernel::spec_subscribe;
use crate::kernel::spec_unsubscribe;
use crate::kernel::spec_yield;
use crate::kernel::Kernel;
use crate::listener::HumidityListener;
use crate::sim::DRIVER_NUM;
use crate::sim::EXISTS;
use crate::sim::READ_HUM;

verus! {

/// The driver client. It holds no state of its own: it exists as a namespace
/// for the operations, each of which acts through the transport it is handed.
pub struct Humidity;

/// Probing for the driver: the presence command through the kernel, collapsed
/// to a plain result.
pub open spec fn spec_exists(k: Kernel) -> (Kernel, Result<(), ErrorCode>) {
    let (k1, r) = spec_command(k, DRIVER_NUM, EXISTS);
    (k1, result_of_command(r))
}

/// Initiating a measurement: the read command through the kernel, collapsed
/// to a plain result.
pub open spec fn spec_read(k: Kernel) -> (Kernel, Result<(), ErrorCode>) {
    let (k1, r) = spec_command(k, DRIVER_NUM, READ_HUM);
    (k1, result_of_command(r))
}

/// What a synchronous measurement returns, read off the driver state alone:
/// `NoDevice` with no driver attached, `Busy` while one measurement is
/// outstanding, the armed reading when the harness scripted an immediate
/// completion, and — defensively — `Busy` when a measurement was accepted but
/// nothing could ever deliver its result.
pub open spec fn spec_sync_result(k: Kernel) -> Result<i32, ErrorCode> {
    match k.driver {
        None => Err(ErrorCode::NoDevice),
        Some(d) => if d.busy {
            Err(ErrorCode::Busy)
        } else {
            match d.armed {
                Some(v) => Ok(v),
                None => Err(ErrorCode::Busy),
            }
        },
    }
}

/// The synchronous measurement, step by step: bind a fresh transient listener
/// (propagating the transport's refusal when no driver is attached), initiate
/// a measurement (propagating `Busy` or `NoDevice` without waiting), wait for
/// one delivery, unbind the transient listener, and hand out the delivered
/// reading — or `Busy` where waiting could never have observed one.
pub open spec fn spec_measure_sync(k: Kernel) -> (Kernel, Result<i32, ErrorCode>) {
    let fresh = HumidityListener { reading: None, count: 0 };
    let (k1, sub) = spec_subscribe(k, DRIVER_NUM, 0, fresh);
    match sub {
        Err(e) => (k1, Err(e)),
        Ok(_) => {
            let (k2, started) = spec_read(k1);
            match started {
                Err(e) => (spec_unsubscribe(k2, DRIVER_NUM, 0), Err(e)),
                Ok(_) => {
                    let k3 = spec_yield(k2).0;
                    match spec_listener_reading(k3) {
                        Some(v) => (spec_unsubscribe(k3, DRIVER_NUM, 0), Ok(v)),
                        None => (spec_unsubscribe(k3, DRIVER_NUM, 0), Err(ErrorCode::Busy)),
                    }
                },
            }
        },
    }
}

impl Humidity {
    /// Probes whether the driver is present: succeeds exactly when a driver is
    /// registered under this sensor's resource number, and fails with
    /// `NoDevice` otherwise. Presence does not say the hardware works, only
    /// that the binding exists.
    pub fn driver_exists(kernel: &mut Kernel) -> (r: Result<(), ErrorCode>)
        ensures
            (*final(kernel), r) == spec_exists(*old(kernel)),
            r == Ok::<(), ErrorCode>(()) <==> old(kernel).driver is Some,
            old(kernel).driver is None ==> r == Err::<(), ErrorCode>(ErrorCode::NoDevice)
                && *final(kernel) == *old(kernel),
    {
        kernel.command(DRIVER_NUM, EXISTS, 0, 0).to_result()
    }

    /// Initiates a humidity measurement, for synchronous and asynchronous
    /// readings alike. Accepted exactly when a driver is attached and idle,
    /// leaving it busy (or ready again at once, when the harness armed an
    /// immediate completion); refused with `Busy` while a measurement is
    /// outstanding, and with `NoDevice` when no driver is attached — in both
    /// refusals leaving the driver's busy and armed state untouched.
    pub fn humidity_read(kernel: &mut Kernel) -> (r: Result<(), ErrorCode>)
        ensures
            (*final(kernel), r) == spec_read(*old(kernel)),
            r == Ok::<(), ErrorCode>(()) <==> (old(kernel).driver matches Some(d) && !d.busy),
            r == Err::<(), ErrorCode>(ErrorCode::Busy) <==> (old(kernel).driver matches Some(d)
                && d.busy),
            r == Err::<(), ErrorCode>(ErrorCode::NoDevice) <==> old(kernel).driver is None,
            old(kernel).driver is None ==> *final(kernel) == *old(kernel),
            (old(kernel).driver matches Some(d) && !d.busy && d.armed is None) ==> (final(kernel).driver matches Some(d2) && d2.busy),
            (old(kernel).driver matches Some(d) && !d.busy && d.armed is Some) ==> (final(kernel).driver matches Some(d2) && !d2.busy),
    {
        kernel.command(DRIVER_NUM, READ_HUM, 0, 0).to_result()
    }

    /// Binds `listener` to the single upcall slot for this driver, replacing
    /// any previous binding (a delivery still pending for the replaced binding
    /// is discarded with it). Refused with `NoDevice` when no driver is
    /// attached.
    pub fn register_listener(kernel: &mut Kernel, listener: HumidityListener) -> (r: Result<
        (),
        ErrorCode,
    >)
        ensures
            (*final(kernel), r) == spec_subscribe(*old(kernel), DRIVER_NUM, 0, listener),
            r is Ok <==> old(kernel).driver is Some,
            old(kernel).driver is Some ==> *final(kernel) == (Kernel {
                driver: old(kernel).driver,
                listener: Some(listener),
                pending: None,
            }),
            old(kernel).driver is None ==> *final(kernel) == *old(kernel) && r == Err::<
                (),
                ErrorCode,
            >(ErrorCode::NoDevice),
    {
        kernel.subscribe(DRIVER_NUM, 0, listener)
    }

    /// Clears the listener slot. Idempotent: unregistering with nothing
    /// registered is a no-op, and there is no error path.
    pub fn unregister_listener(kernel: &mut Kernel)
        ensures
            *final(kernel) == spec_unsubscribe(*old(kernel), DRIVER_NUM, 0),
            final(kernel).listener is None,
            final(kernel).pending is None,
            final(kernel).driver == old(kernel).driver,
    {
        kernel.unsubscribe(DRIVER_NUM, 0)
    }

    /// Performs a synchronous measurement: registers a transient listener,
    /// initiates a measurement, and drives the cooperative yield until the
    /// transient listener holds a reading, which is returned in hundredths of
    /// a percent. A refused transient registration or a refused initiation is
    /// propagated without waiting; waiting that could never observe a reading
    /// ends defensively with `Busy` rather than hanging. The transient
    /// listener replaces any previously registered one and is unregistered
    /// before returning.
    pub fn humidity_read_sync(kernel: &mut Kernel) -> (r: Result<i32, ErrorCode>)
        ensures
            (*final(kernel), r) == spec_measure_sync(*old(kernel)),
            quiescent(*old(kernel)) ==> r == spec_sync_result(*old(kernel)),
    {
        let sub = Self::register_listener(kernel, HumidityListener::new());
        match sub {
            Err(e) => {
                return Err(e);
            },
            Ok(()) => {},
        }
        let started = Self::humidity_read(kernel);
        match started {
            Err(e) => {
                Self::unregister_listener(kernel);
                return Err(e);
            },
            Ok(()) => {},
        }
        let ghost k2 = *kernel;
        loop
            invariant
                *kernel == k2 || *kernel == spec_yield(k2).0,
                spec_listener_reading(k2) is None,
            ensures
                *kernel == spec_yield(k2).0,
            decreases (if spec_listener_reading(*kernel) is None {
                1int
            } else {
                0int
            }) + (if kernel.pending is Some {
                1int
            } else {
                0int
            }),
        {
            let holder = kernel.listener_reading();
            if holder.is_some() {
                break;
            }
            let delivered = kernel.yield_wait();
            if !delivered {
                break;
            }
        }
        let out = kernel.listener_reading();
        Self::unregister_listener(kernel);
        proof {
            match old(kernel).driver {
                Some(d) => match d.armed {
                    Some(v) => crate::reading::lemma_reading_round_trip(v),
                    None => {},
                },
                None => {},
            }
        }
        match out {
            Some(v) => Ok(v),
            None => Err(ErrorCode::Busy),
        }
    }
}

} // verus!
