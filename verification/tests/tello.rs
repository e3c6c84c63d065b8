use bruna_os::hal::network::NetworkInterface;
use bruna_os::hal::platforms::ryze_tello::{DummyNetwork, TelloHal};
use bruna_os::hal::radio::RadioDevice;
use bruna_os::hal::serial::SerialDevice;
use bruna_os::hal::timers::Timer;
use bruna_os::hal::GpioPin;
use bruna_os::hal::HalError;
use bruna_os::hal::PlatformHal;

#[test]
fn test_tello_hal_creation() {
    let tello_hal = TelloHal::new();
    assert_eq!(tello_hal.platform_name(), "Ryze Tello");
}

#[test]
fn test_tello_hal_platform_name() {
    let tello_hal = TelloHal::new();
    assert_eq!(tello_hal.platform_name(), "Ryze Tello");
}

#[test]
fn test_tello_hal_dummy_serial() {
    let serial_result = <TelloHal as PlatformHal>::Serial::open("dummy_port", 9600);
    match serial_result {
        Err(HalError::UnsupportedOperation) => assert!(true),
        _ => assert!(false, "Expected UnsupportedOperation error for serial open"),
    }
}

#[test]
fn test_tello_hal_dummy_gpio() {
    let gpio_result = <TelloHal as PlatformHal>::Gpio::new(1);
    match gpio_result {
        Err(HalError::UnsupportedOperation) => assert!(true),
        _ => assert!(false, "Expected UnsupportedOperation error for gpio new"),
    }
}

#[test]
fn test_tello_hal_dummy_timer() {
    let timer_result = <TelloHal as PlatformHal>::Timer::new(0);
    match timer_result {
        Err(HalError::UnsupportedOperation) => assert!(true),
        _ => assert!(false, "Expected UnsupportedOperation error for timer new"),
    }
}

#[test]
fn test_tello_hal_dummy_network() {
    let network_result = <TelloHal as PlatformHal>::Network::new("eth0");
    match network_result {
        Err(HalError::UnsupportedOperation) => assert!(true),
        _ => assert!(false, "Expected UnsupportedOperation error for network new"),
    }
}

#[test]
fn test_tello_hal_dummy_radio() {
    let radio_result = <TelloHal as PlatformHal>::Radio::new();
    match radio_result {
        Err(HalError::UnsupportedOperation) => assert!(true),
        _ => assert!(false, "Expected UnsupportedOperation error for radio new"),
    }
}

#[test]
fn test_tello_dummy_network_id() {
    let network = DummyNetwork;
    assert_eq!(network.get_id().0, "dummy_hw_id");
    assert!(matches!(network.get_ip_address(), Err(HalError::UnsupportedOperation)));
}

#[test]
fn it_works() {
    let result = 2 + 2;
    assert_eq!(result, 4);
}
