use humidity::client::Humidity;
use humidity::errors::ErrorCode;
use humidity::kernel::Kernel;
use humidity::kernel::YieldNoWaitReturn;
use humidity::listener::HumidityListener;
use humidity::sim;

#[test]
fn no_driver() {
    let mut kernel = Kernel::new();
    assert_eq!(Humidity::driver_exists(&mut kernel), Err(ErrorCode::NoDevice));
}

#[test]
fn driver_check() {
    let mut kernel = Kernel::new();
    kernel.add_driver(sim::Humidity::new());

    assert_eq!(Humidity::driver_exists(&mut kernel), Ok(()));
}

#[test]
fn humidity_read() {
    let mut kernel = Kernel::new();
    kernel.add_driver(sim::Humidity::new());

    assert_eq!(Humidity::humidity_read(&mut kernel), Ok(()));
    assert!(kernel.is_busy());

    assert_eq!(Humidity::humidity_read(&mut kernel), Err(ErrorCode::Busy));
    assert_eq!(Humidity::humidity_read_sync(&mut kernel), Err(ErrorCode::Busy));
}

#[test]
fn register_unregister_listener() {
    let mut kernel = Kernel::new();
    kernel.add_driver(sim::Humidity::new());

    assert_eq!(Humidity::humidity_read(&mut kernel), Ok(()));
    kernel.set_value(100);
    assert_eq!(kernel.yield_no_wait(), YieldNoWaitReturn::NoUpcall);

    assert_eq!(Humidity::register_listener(&mut kernel, HumidityListener::new()), Ok(()));
    assert_eq!(Humidity::humidity_read(&mut kernel), Ok(()));
    kernel.set_value(100);
    assert_eq!(kernel.yield_no_wait(), YieldNoWaitReturn::Upcall);
    assert_eq!(kernel.listener_reading(), Some(100));

    Humidity::unregister_listener(&mut kernel);
    assert_eq!(Humidity::humidity_read(&mut kernel), Ok(()));
    kernel.set_value(100);
    assert_eq!(kernel.yield_no_wait(), YieldNoWaitReturn::NoUpcall);
}

#[test]
fn humidity_read_sync() {
    let mut kernel = Kernel::new();
    kernel.add_driver(sim::Humidity::new());

    kernel.set_value_sync(1000);
    assert_eq!(Humidity::humidity_read_sync(&mut kernel), Ok(1000));
}

#[test]
fn negative_value() {
    let mut kernel = Kernel::new();
    kernel.add_driver(sim::Humidity::new());

    kernel.set_value_sync(-1000);
    assert_eq!(Humidity::humidity_read_sync(&mut kernel), Ok(-1000));
}
