use device_gateway::device::{
    get_sn_from_string, Device, DevicePool, ReadWriteErrorCode, DEFAULT_HEARTBEAT_PERIOD,
};

#[test]
fn test_device() {
    assert_eq!(1, 1);
}

#[test]
fn test_device_set_get_sn() {
    let mut device: Device = Device::new("sn123".to_string(), 0);
    assert_eq!(device.get_sn(), "sn123");
    device.set_sn("sn456".to_string());
    assert_eq!(device.get_sn(), "sn456");
}

#[test]
fn test_is_alive() {
    let mut device: Device = Device::new("sn123".to_string(), 0);
    assert_eq!(device.is_alive(), true);
    device.deactivate();
    assert_eq!(device.is_alive(), false);
}

#[test]
fn a_device_is_alive_until_its_period_has_passed() {
    let start: u64 = 1_000_000_000;
    let mut device = Device::new("D81234545".to_string(), start);
    device.set_heartbeat_period(3_000_000);
    assert_eq!(true, device.is_alive_update(start + 2_000_000));
    assert_eq!(true, device.is_alive_update(start + 2_999_999));
    assert_eq!(false, device.is_alive_update(start + 3_000_000));
    assert_eq!(false, device.is_alive_const());
    assert_eq!(false, device.is_alive_update(start + 4_000_000));
    device.update_last_heartbeat_time(start + 4_000_000);
    assert_eq!(true, device.is_alive_update(start + 4_000_001));
}

#[test]
fn a_clock_that_goes_back_decides_nothing() {
    let mut device = Device::new("D1".to_string(), 500);
    device.set_heartbeat_period(10);
    assert_eq!(true, device.is_alive_update(100));
    device.deactivate();
    assert_eq!(false, device.is_alive_update(100));
    assert_eq!(device.online_time(100), None);
    assert_eq!(device.online_time(500), Some(0));
    assert_eq!(device.online_time(2_000_500), Some(2_000_000));
}

#[test]
fn a_period_of_zero_is_dead_at_once() {
    let mut device = Device::new("D1".to_string(), 7);
    device.set_heartbeat_period(0);
    assert_eq!(false, device.is_alive_update(7));
    assert_eq!(false, device.is_alive_update(8));
}

#[test]
fn a_new_device_has_the_default_period() {
    let device = Device::new_with_sn_borntime("sn123".to_string(), 42);
    assert_eq!(device.heartbeat_period, DEFAULT_HEARTBEAT_PERIOD);
    assert_eq!(device.heartbeat_period, 20_000_000);
    assert_eq!(device.get_born_time(), 42);
    assert_eq!(device.last_heartbeat_time, 42);
    assert_eq!(device.get_alive_time(50), 8);
    assert!(device.is_alive());
}

#[test]
fn a_heartbeat_is_late_after_the_period() {
    let mut device = Device::new("sn123".to_string(), 0);
    assert_eq!(device.is_heartbeat_timeout(0), false);
    device.set_heartbeat_period(3_000_000);
    assert_eq!(device.is_heartbeat_timeout(3_000_000), false);
    assert_eq!(device.is_heartbeat_timeout(4_000_000), true);
    device.update_heartbeat_timestamp(4_000_000);
    assert_eq!(device.is_heartbeat_timeout(4_000_000), false);
    device.deactivate();
    device.activate(9_000_000);
    assert!(device.is_alive());
    assert_eq!(device.last_heartbeat_time, 9_000_000);
    device.set_born_time(5);
    assert_eq!(device.get_born_time(), 5);
}

#[test]
fn the_online_message_names_the_device() {
    let device = Device::new("12/132435".to_string(), 0);
    assert_eq!(device.push_online_msg(), "{ \"type\": \"online\", \"sn\": \"12/132435\" }");
    assert_eq!(get_sn_from_string("abc".to_string()), "abc");
    assert_ne!(ReadWriteErrorCode::TIMEOUT, ReadWriteErrorCode::NULLDATA);
}

#[test]
fn a_pool_holds_one_device_for_each_serial_number() {
    let mut pool = DevicePool::new();
    assert_eq!(pool.get_devices_num(), 0);
    assert_eq!(pool.get_alive_devices_num(), 0);
    assert!(!pool.is_in_pool(&"sn/1".to_string()));
    assert!(!pool.is_alive(&"sn/1".to_string()));
    assert!(pool.get_device_ref(&"sn/1".to_string()).is_none());
    for i in 0..30 {
        let sn = format!("sn/{}", i);
        pool.put_device(sn.clone(), Device::new(sn, i));
    }
    assert_eq!(pool.get_devices_num(), 30);
    assert_eq!(pool.get_alive_devices_num(), 30);
    let mut gone = Device::new("sn/7".to_string(), 99);
    gone.deactivate();
    pool.put_device("sn/7".to_string(), gone);
    assert_eq!(pool.get_devices_num(), 30);
    assert_eq!(pool.get_alive_devices_num(), 29);
    assert!(pool.is_in_pool(&"sn/7".to_string()));
    assert!(!pool.is_alive(&"sn/7".to_string()));
    assert!(pool.is_alive(&"sn/8".to_string()));
    assert_eq!(pool.get_device_ref(&"sn/7".to_string()).unwrap().get_born_time(), 99);
    assert_eq!(pool.get_device_ref(&"sn/8".to_string()).unwrap().get_born_time(), 8);
    assert!(pool.get_device_ref(&"sn/30".to_string()).is_none());
}

#[test]
fn test_is_alive_update() {
    let start: u64 = 1_700_000_000_000_000;
    let mut device = Device::new("D81234545".to_string(), start);
    device.set_heartbeat_period(3_000_000);
    assert_eq!(true, device.is_alive_update(start + 2_000_000));
    assert_eq!(false, device.is_alive_update(start + 4_000_000));
}

#[test]
fn test_online_time() {
    let start: u64 = 1_700_000_000_000_000;
    let device = Device::new("D81234545".to_string(), start);
    let later = start + 2_000_000;
    assert_eq!(
        true,
        device.online_time(later).unwrap() < 2_050_000 && device.online_time(later).unwrap() > 1_950_000
    );
}

#[test]
fn test_device_get_alive_time() {
    let start: u64 = 1_700_000_000_000_000;
    let device: Device = Device::new("sn123".to_string(), start);
    assert_eq!(device.get_alive_time(start) < 1, true);
    assert_eq!(device.get_alive_time(start + 4_000_000) >= 4_000_000, true);
    assert_eq!(device.get_alive_time(start + 4_000_000) <= 5_000_000, true);
}

#[test]
fn test_is_heartbeat_timeout() {
    let start: u64 = 1_700_000_000_000_000;
    let mut device: Device = Device::new("sn123".to_string(), start);
    assert_eq!(device.is_heartbeat_timeout(start), false);
    assert_eq!(device.is_alive(), true);
    device.set_heartbeat_period(3_000_000);
    assert_eq!(device.is_heartbeat_timeout(start + 4_000_000), true);
    device.update_heartbeat_timestamp(start + 4_000_000);
    assert_eq!(device.is_heartbeat_timeout(start + 4_000_000), false);
}
