use humidity::client::Humidity;
use humidity::errors::ErrorCode;
use humidity::kernel::Kernel;
use humidity::kernel::YieldNoWaitReturn;
use humidity::listener::HumidityListener;
use humidity::reading::reading_to_word;
use humidity::reading::word_to_reading;
use humidity::sim;
use humidity::sim::DRIVER_NUM;
use humidity::sim::READ_HUM;

// An unknown command selector is refused as unsupported, standalone and
// through the kernel alike.
#[test]
fn unknown_selector() {
    let mut hum = sim::Humidity::new();
    assert_eq!(hum.command(2, 0, 0).get_failure(), Some(ErrorCode::NotSupported));

    let mut kernel = Kernel::new();
    kernel.add_driver(sim::Humidity::new());
    assert_eq!(kernel.command(DRIVER_NUM, 7, 0, 0).get_failure(), Some(ErrorCode::NotSupported));
}

// Dispatch to a resource number nobody registered fails with NoDevice, with a
// driver attached under the sensor's own number or not.
#[test]
fn wrong_resource_number() {
    let mut kernel = Kernel::new();
    assert_eq!(kernel.command(DRIVER_NUM, READ_HUM, 0, 0).get_failure(), Some(ErrorCode::NoDevice));

    kernel.add_driver(sim::Humidity::new());
    assert_eq!(kernel.command(0x60000, READ_HUM, 0, 0).get_failure(), Some(ErrorCode::NoDevice));
    assert_eq!(kernel.subscribe(0x60000, 0, HumidityListener::new()), Err(ErrorCode::NoDevice));
    assert_eq!(kernel.subscribe(DRIVER_NUM, 1, HumidityListener::new()), Err(ErrorCode::NoDevice));
}

// A synchronous measurement with no driver attached propagates the refused
// transient registration.
#[test]
fn read_sync_no_driver() {
    let mut kernel = Kernel::new();
    assert_eq!(Humidity::humidity_read_sync(&mut kernel), Err(ErrorCode::NoDevice));
}

// A synchronous measurement that nothing completes ends defensively with Busy
// instead of hanging, and the accepted measurement stays outstanding.
#[test]
fn read_sync_unarmed_is_busy() {
    let mut kernel = Kernel::new();
    kernel.add_driver(sim::Humidity::new());
    assert_eq!(Humidity::humidity_read_sync(&mut kernel), Err(ErrorCode::Busy));
    assert!(kernel.is_busy());
}

// Completing a measurement with a listener registered invokes the callback
// exactly once; a harness delivery without a new measurement adds nothing.
#[test]
fn exactly_one_callback() {
    let mut kernel = Kernel::new();
    kernel.add_driver(sim::Humidity::new());

    assert_eq!(Humidity::register_listener(&mut kernel, HumidityListener::new()), Ok(()));
    assert_eq!(Humidity::humidity_read(&mut kernel), Ok(()));
    kernel.set_value(100);
    assert_eq!(kernel.yield_no_wait(), YieldNoWaitReturn::Upcall);
    assert_eq!(kernel.listener_reading(), Some(100));
    assert_eq!(kernel.listener_count(), 1);

    kernel.set_value(100);
    assert_eq!(kernel.yield_no_wait(), YieldNoWaitReturn::NoUpcall);
    assert_eq!(kernel.listener_count(), 1);
}

// Unregistering before completion prevents delivery: no callback fires and no
// error surfaces; the completion is consumed silently.
#[test]
fn unregister_then_complete() {
    let mut kernel = Kernel::new();
    kernel.add_driver(sim::Humidity::new());

    assert_eq!(Humidity::register_listener(&mut kernel, HumidityListener::new()), Ok(()));
    assert_eq!(Humidity::humidity_read(&mut kernel), Ok(()));
    Humidity::unregister_listener(&mut kernel);
    kernel.set_value(100);
    assert_eq!(kernel.yield_no_wait(), YieldNoWaitReturn::NoUpcall);
    assert_eq!(kernel.listener_reading(), None);
    assert!(!kernel.is_busy());
    assert_eq!(Humidity::driver_exists(&mut kernel), Ok(()));
}

// Registering a new listener replaces the old binding and discards a delivery
// still pending for it.
#[test]
fn register_replaces_binding() {
    let mut kernel = Kernel::new();
    kernel.add_driver(sim::Humidity::new());

    assert_eq!(Humidity::register_listener(&mut kernel, HumidityListener::new()), Ok(()));
    assert_eq!(Humidity::humidity_read(&mut kernel), Ok(()));
    kernel.set_value(42);

    assert_eq!(Humidity::register_listener(&mut kernel, HumidityListener::new()), Ok(()));
    assert_eq!(kernel.yield_no_wait(), YieldNoWaitReturn::NoUpcall);
    assert_eq!(kernel.listener_reading(), None);
}

// Unregistering with nothing registered is a no-op, any number of times.
#[test]
fn unregister_idempotent() {
    let mut kernel = Kernel::new();
    kernel.add_driver(sim::Humidity::new());

    Humidity::unregister_listener(&mut kernel);
    Humidity::unregister_listener(&mut kernel);
    assert_eq!(Humidity::driver_exists(&mut kernel), Ok(()));
}

// The presence probe succeeds from any driver state, busy included.
#[test]
fn exists_while_busy() {
    let mut kernel = Kernel::new();
    kernel.add_driver(sim::Humidity::new());

    assert_eq!(Humidity::humidity_read(&mut kernel), Ok(()));
    assert_eq!(Humidity::driver_exists(&mut kernel), Ok(()));
    assert!(kernel.is_busy());
}

// The word encoding is the two's-complement image of the reading, and decoding
// inverts it exactly at both ends of the range.
#[test]
fn word_encoding_round_trip() {
    assert_eq!(reading_to_word(0), 0);
    assert_eq!(reading_to_word(4567), 4567);
    assert_eq!(reading_to_word(-1), u32::MAX);
    assert_eq!(reading_to_word(-1000), 0xffff_fc18);
    assert_eq!(word_to_reading(0xffff_fc18), -1000);
    assert_eq!(word_to_reading(u32::MAX), -1);
    assert_eq!(word_to_reading(0x8000_0000), i32::MIN);
    assert_eq!(reading_to_word(i32::MIN), 0x8000_0000);
    assert_eq!(word_to_reading(reading_to_word(i32::MAX)), i32::MAX);
    assert_eq!(word_to_reading(reading_to_word(-4567)), -4567);
}

// The synchronous round trip at the extremes of the signed range.
#[test]
fn read_sync_extremes() {
    let mut kernel = Kernel::new();
    kernel.add_driver(sim::Humidity::new());

    kernel.set_value_sync(i32::MIN);
    assert_eq!(Humidity::humidity_read_sync(&mut kernel), Ok(i32::MIN));

    kernel.set_value_sync(i32::MAX);
    assert_eq!(Humidity::humidity_read_sync(&mut kernel), Ok(i32::MAX));
}

// A reserved upcall argument is discarded: only the first word reaches the
// listener as the reading.
#[test]
fn upcall_discards_reserved_words() {
    let mut listener = HumidityListener::new();
    listener.upcall(100, 7, 9);
    assert_eq!(listener.reading, Some(100));
    assert_eq!(listener.count, 1);
}
