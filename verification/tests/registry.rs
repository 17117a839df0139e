use meterfeeder::driver::Driver;
use meterfeeder::generator::MeterFeederError;

/// Opens a registry where the platform allows a USB context; where it does
/// not, checks that the failure is exactly a transport error and yields
/// nothing. No entropy hardware is attached on this machine either way.
fn open_driver() -> Option<Driver> {
    match Driver::new() {
        Ok(driver) => Some(driver),
        Err(e) => {
            assert!(matches!(e, MeterFeederError::UsbError(_)));
            None
        }
    }
}

#[test]
fn new_reports_only_transport_errors() {
    if let Err(e) = Driver::new() {
        assert!(matches!(e, MeterFeederError::UsbError(_)));
    }
}

#[test]
fn new_registry_is_empty() {
    if let Some(driver) = open_driver() {
        assert_eq!(driver.get_number_generators(), 0);
        assert!(driver.get_serial_list().is_empty());
        assert!(driver.get_generators_list().is_empty());
    }
}

#[test]
fn initialize_without_qualifying_devices_is_device_not_found() {
    if let Some(mut driver) = open_driver() {
        match driver.initialize() {
            Err(MeterFeederError::DeviceNotFound) => {
                assert_eq!(driver.get_number_generators(), 0);
            }
            Err(MeterFeederError::UsbError(_)) => {
                // The bus could not be enumerated at all; the table is
                // untouched.
                assert_eq!(driver.get_number_generators(), 0);
            }
            Err(e) => panic!("unexpected error kind: {:?}", e),
            Ok(()) => panic!("no qualifying device should be present here"),
        }
    }
}

#[test]
fn get_bytes_unknown_serial_is_device_not_found() {
    if let Some(driver) = open_driver() {
        let r = driver.get_bytes("QWR4A003", 16);
        assert!(matches!(r, Err(MeterFeederError::DeviceNotFound)));
    }
}

#[test]
fn get_byte_unknown_serial_is_device_not_found() {
    if let Some(driver) = open_driver() {
        assert!(matches!(
            driver.get_byte("QWR4A003"),
            Err(MeterFeederError::DeviceNotFound)
        ));
    }
}

#[test]
fn get_int32_unknown_serial_is_device_not_found() {
    if let Some(driver) = open_driver() {
        assert!(matches!(
            driver.get_int32("QWR4A003"),
            Err(MeterFeederError::DeviceNotFound)
        ));
    }
}

#[test]
fn get_u64_unknown_serial_is_device_not_found() {
    if let Some(driver) = open_driver() {
        assert!(matches!(
            driver.get_u64("QWR4A003"),
            Err(MeterFeederError::DeviceNotFound)
        ));
    }
}

#[test]
fn clear_absent_serial_is_a_no_op() {
    if let Some(driver) = open_driver() {
        assert!(driver.clear("QWR4A003").is_ok());
        assert_eq!(driver.get_number_generators(), 0);
    }
}

#[test]
fn shutdown_empty_registry_is_safe() {
    if let Some(mut driver) = open_driver() {
        driver.shutdown();
        assert_eq!(driver.get_number_generators(), 0);
    }
}

#[test]
fn usb_error_converts_to_usb_kind() {
    let e = MeterFeederError::from(rusb::Error::Timeout);
    assert!(matches!(e, MeterFeederError::UsbError(rusb::Error::Timeout)));
}

#[test]
fn io_error_converts_to_io_kind() {
    let e = MeterFeederError::from(std::io::Error::from(std::io::ErrorKind::TimedOut));
    assert!(matches!(e, MeterFeederError::IoError(_)));
}
