use vstd::prelude::*;

use crate::client::spec_exists;
use crate::client::spec_measure_sync;
use crate::client::spec_read;
use crate::errors::ErrorCode;
use crate::kernel::quiescent;
use crate::kernel::spec_command;
use crate::kernel::spec_set_value;
use crate::kernel::spec_set_value_sync;
use crate::kernel::spec_subscribe;
use crate::kernel::spec_unsubscribe;
use crate::kernel::spec_yield;
use crate::kernel::Kernel;
use crate::kernel::YieldNoWaitReturn;
use crate::listener::HumidityListener;
use crate::reading::lemma_reading_round_trip;
use crate::sim::DRIVER_NUM;

verus! {

/// The transport keeps the driver's outbox collected: every kernel operation
/// run on a quiescent state — one with no uncollected completion sitting in
/// the driver's outbox — leaves a quiescent state behind. A fresh kernel and a
/// freshly attached driver are quiescent, so every state the operations can
/// reach is.
pub proof fn lemma_operations_preserve_quiescence(
    k: Kernel,
    driver_num: u32,
    channel: u32,
    command_id: u32,
    l: HumidityListener,
    v: i32,
)
    requires
        quiescent(k),
    ensures
        quiescent(spec_command(k, driver_num, command_id).0),
        quiescent(spec_subscribe(k, driver_num, channel, l).0),
        quiescent(spec_unsubscribe(k, driver_num, channel)),
        quiescent(spec_yield(k).0),
        quiescent(spec_set_value(k, v)),
        quiescent(spec_set_value_sync(k, v)),
        quiescent(spec_measure_sync(k).0),
{
}

/// Presence tracks attachment: probing a kernel with no driver attached fails
/// with `NoDevice` and changes nothing; probing one with a driver attached
/// succeeds.
pub proof fn lemma_exists_tracks_attachment(k: Kernel)
    ensures
        k.driver is None ==> spec_exists(k) == (k, Err::<(), ErrorCode>(ErrorCode::NoDevice)),
        k.driver is Some ==> spec_exists(k).1 == Ok::<(), ErrorCode>(()),
{
}

/// One measurement in flight at a time: once a measurement has been accepted
/// and is still outstanding (no immediate completion was scripted), a second
/// request is refused with `Busy` and changes nothing, and a synchronous
/// measurement in that window is refused with `Busy` as well, leaving the
/// driver untouched.
pub proof fn lemma_second_read_busy(k: Kernel)
    requires
        spec_read(k).1 == Ok::<(), ErrorCode>(()),
        k.driver matches Some(d) && d.armed is None,
    ensures
        ({
            let k1 = spec_read(k).0;
            &&& spec_read(k1) == (k1, Err::<(), ErrorCode>(ErrorCode::Busy))
            &&& spec_measure_sync(k1).1 == Err::<i32, ErrorCode>(ErrorCode::Busy)
            &&& spec_measure_sync(k1).0.driver == k1.driver
        }),
{
}

/// Single delivery: with a listener registered and a measurement outstanding,
/// a harness completion delivers exactly one callback invocation, carrying
/// exactly the harness value; a completion attempt without a new measurement
/// delivers nothing further. Unregistering first prevents the delivery
/// entirely — the completed reading is dropped silently and no error arises.
pub proof fn lemma_listener_delivery(k: Kernel, v: i32, v2: i32)
    requires
        k.driver matches Some(d) && d.busy,
        k.listener matches Some(l) && l.count < u64::MAX,
    ensures
        ({
            let k1 = spec_set_value(k, v);
            let k2 = spec_yield(k1).0;
            &&& spec_yield(k1).1 is Upcall
            &&& k2.listener matches Some(l2) && l2.reading == Some(v) && l2.count == k.listener->0.count
                + 1
            &&& spec_set_value(k2, v2) == k2
            &&& spec_yield(k2).1 is NoUpcall
        }),
        ({
            let ku = spec_set_value(spec_unsubscribe(k, DRIVER_NUM, 0), v);
            &&& ku.listener is None
            &&& ku.pending is None
            &&& spec_yield(ku) == (ku, YieldNoWaitReturn::NoUpcall)
            &&& ku.driver matches Some(d2) && !d2.busy && d2.scheduled is None
        }),
{
    lemma_reading_round_trip(v);
}

/// Synchronous round trip: with a driver attached, idle, and armed with `v`,
/// the synchronous measurement returns exactly `v` — sign included, since the
/// unsigned transport word decodes back to the signed reading it encodes —
/// and leaves the driver idle and unarmed, with no listener bound.
pub proof fn lemma_measure_sync_round_trip(k: Kernel, v: i32)
    requires
        k.driver matches Some(d) && !d.busy && d.armed == Some(v),
    ensures
        spec_measure_sync(k).1 == Ok::<i32, ErrorCode>(v),
        spec_measure_sync(k).0.driver matches Some(d2) && !d2.busy && d2.armed is None
            && d2.scheduled is None,
        spec_measure_sync(k).0.listener is None,
        spec_measure_sync(k).0.pending is None,
{
    lemma_reading_round_trip(v);
}

} // verus!
