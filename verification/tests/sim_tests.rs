use humidity::errors::ErrorCode;
use humidity::kernel::Kernel;
use humidity::kernel::YieldNoWaitReturn;
use humidity::listener::HumidityListener;
use humidity::sim::Humidity;
use humidity::sim::DRIVER_NUM;
use humidity::sim::EXISTS;
use humidity::sim::READ_HUM;

// The command handling of the simulated driver, standalone.
#[test]
fn command() {
    let mut hum = Humidity::new();

    assert!(hum.command(EXISTS, 1, 2).is_success());

    assert!(hum.command(READ_HUM, 0, 0).is_success());

    assert_eq!(hum.command(READ_HUM, 0, 0).get_failure(), Some(ErrorCode::Busy));

    hum.set_value(100);
    assert!(hum.command(READ_HUM, 0, 1).is_success());
    hum.set_value(100);

    hum.set_value_sync(100);
    assert!(hum.command(READ_HUM, 0, 1).is_success());
    assert!(hum.command(READ_HUM, 0, 1).is_success());
}

// The simulated driver attached to the kernel model, driven through command
// dispatch, subscription and yield.
#[test]
fn kernel_integration() {
    let mut kernel = Kernel::new();
    kernel.add_driver(Humidity::new());

    assert!(kernel.command(DRIVER_NUM, EXISTS, 1, 2).is_success());
    assert!(kernel.command(DRIVER_NUM, READ_HUM, 0, 0).is_success());
    assert_eq!(
        kernel.command(DRIVER_NUM, READ_HUM, 0, 0).get_failure(),
        Some(ErrorCode::Busy)
    );
    kernel.set_value(100);
    assert!(kernel.command(DRIVER_NUM, READ_HUM, 0, 1).is_success());

    assert_eq!(kernel.subscribe(DRIVER_NUM, 0, HumidityListener::new()), Ok(()));

    kernel.set_value(100);
    assert_eq!(kernel.yield_no_wait(), YieldNoWaitReturn::Upcall);
    assert_eq!(kernel.listener_reading(), Some(100));

    kernel.set_value(200);
    assert_eq!(kernel.yield_no_wait(), YieldNoWaitReturn::NoUpcall);

    assert!(kernel.command(DRIVER_NUM, READ_HUM, 0, 1).is_success());
    kernel.set_value(200);
    assert_eq!(kernel.yield_no_wait(), YieldNoWaitReturn::Upcall);

    kernel.set_value_sync(200);
    assert!(kernel.command(DRIVER_NUM, READ_HUM, 0, 1).is_success());
    assert_eq!(kernel.yield_no_wait(), YieldNoWaitReturn::Upcall);
}
