//! The registry, the screens' rendering rules, and the scheduler.

use info_display::screen_factory::{ScreenError, ScreenFactory};
use info_display::screen_manager::ScreenManager;
use info_display::screens::{
    format_disk_usage, format_memory_info, format_uptime, GPIOScreen, HardwareScreen,
    NetworkScreen, OverviewScreen, ScreenKind, Snapshot, StorageScreen, SystemScreen,
    TemperatureScreen,
};

fn snapshot() -> Snapshot {
    Snapshot {
        hostname: "pi".to_string(),
        domain: "lan".to_string(),
        ip_address: "192.168.1.9".to_string(),
        mac_address: "AA:BB:CC:DD:EE:FF".to_string(),
        cpu_temp: "42'C".to_string(),
        gpu_temp: "41.5'C".to_string(),
        cpu_freq: "1500 MHz".to_string(),
        throttle_status: "None".to_string(),
        uptime_seconds: 93_784,
        boot_partition: "/dev/mmcblk0p1".to_string(),
        pi_model: "Raspberry Pi 4 Model B".to_string(),
        serial_number: "1234567890AB".to_string(),
        firmware_version: "Sep 2 2023".to_string(),
        memory_used_bytes: 1024 * 1024 * 1024,
        memory_total_bytes: 2 * 1024 * 1024 * 1024,
        disk_used_bytes: 5 * 1024 * 1024 * 1024,
        disk_total_bytes: 10 * 1024 * 1024 * 1024,
        i2c_devices: "0x3c, 0x70".to_string(),
        gpio_states: "2: H, 3: L".to_string(),
        spi_devices: "spidev0.0".to_string(),
        wire_sensors: "None".to_string(),
    }
}

#[test]
fn test_create_valid_screen() {
    let screen = ScreenFactory::create_screen("network");
    assert!(screen.is_ok());
    assert_eq!(screen.unwrap().name(), "network");
}

#[test]
fn test_create_invalid_screen() {
    let screen = ScreenFactory::create_screen("invalid");
    assert!(screen.is_err());
}

#[test]
fn test_create_multiple_screens() {
    let screens = ScreenFactory::create_screens(&vec!["network", "system"]);
    assert!(screens.is_ok());
    let screens = screens.unwrap();
    assert_eq!(screens.len(), 2);
    assert_eq!(screens[0].name(), "network");
    assert_eq!(screens[1].name(), "system");
}

#[test]
fn test_create_screens_all_or_nothing() {
    let r = ScreenFactory::create_screens(&vec!["network", "invalid", "system"]);
    match r {
        Err(ScreenError::UnknownScreen(name)) => assert_eq!(name, "invalid"),
        _ => panic!("one unknown identifier must reject the whole list"),
    }
}

#[test]
fn test_validate_screen_types() {
    assert!(ScreenFactory::validate_screen_type("network"));
    assert!(ScreenFactory::validate_screen_type("overview"));
    assert!(!ScreenFactory::validate_screen_type("invalid"));
}

#[test]
fn test_get_available_screens() {
    let screens = ScreenFactory::get_available_screens();
    assert!(screens.contains(&"network"));
    assert!(screens.contains(&"overview"));
    assert_eq!(screens.len(), 7);
}

#[test]
fn test_get_screen_descriptions() {
    let descriptions = ScreenFactory::get_screen_descriptions();
    assert_eq!(descriptions.len(), 7);
    assert_eq!(
        descriptions[0],
        ("network", "Display hostname, domain, IP address, and MAC address")
    );
}

#[test]
fn test_network_screen_render() {
    let lines = NetworkScreen.render(&snapshot()).unwrap();
    assert_eq!(lines, vec!["pi.lan", "192.168.1.9", "AA:BB:CC:DD:EE:FF"]);
    assert_eq!(NetworkScreen.title(&snapshot()).unwrap(), "network");
}

#[test]
fn test_system_screen_render() {
    let lines = SystemScreen.render(&snapshot()).unwrap();
    assert_eq!(lines, vec!["CPU: 42'C", "Uptime: 1d2h3m", "Boot: mmcblk0p1"]);
}

#[test]
fn test_storage_screen_render() {
    let lines = StorageScreen.render(&snapshot()).unwrap();
    assert_eq!(lines, vec!["Memory: 1024/2048MB", "Disk: 5/10GB"]);
}

#[test]
fn test_overview_screen_render() {
    let lines = OverviewScreen.render(&snapshot()).unwrap();
    assert_eq!(
        lines,
        vec!["192.168.1.9", "42'C", "1024/2048MB", "5/10GB", "Up: 1d2h3m"]
    );
    assert_eq!(OverviewScreen.title(&snapshot()).unwrap(), "pi");
}

#[test]
fn test_hardware_screen_render() {
    let lines = HardwareScreen.render(&snapshot()).unwrap();
    assert_eq!(
        lines,
        vec!["Model: 4 Model B", "Serial: ...567890AB", "FW: 2023"]
    );
}

#[test]
fn test_hardware_screen_short_serial_kept_whole() {
    let mut snap = snapshot();
    snap.serial_number = "AB12".to_string();
    snap.pi_model = "BananaBoard".to_string();
    snap.firmware_version = "v1.9".to_string();
    let lines = HardwareScreen.render(&snap).unwrap();
    assert_eq!(lines, vec!["Model: BananaBoard", "Serial: AB12", "FW: v1.9"]);
}

#[test]
fn test_temperature_screen_render() {
    let lines = TemperatureScreen.render(&snapshot()).unwrap();
    assert_eq!(
        lines,
        vec!["CPU: 42'C (1500 MHz)", "GPU: 41.5'C", "Throttle: None"]
    );
}

#[test]
fn test_temperature_screen_elides_throttle() {
    let mut snap = snapshot();
    snap.throttle_status = "Under-voltage, ARM freq capped".to_string();
    let lines = TemperatureScreen.render(&snap).unwrap();
    assert_eq!(lines[2], "Throttle: Under-voltage, AR...");
}

#[test]
fn test_gpio_screen_render() {
    let lines = GPIOScreen.render(&snapshot()).unwrap();
    assert_eq!(
        lines,
        vec!["I2C: 0x3c, 0x70", "GPIO: 2: H, 3: L", "SPI: spidev0.0", "1-Wire: None"]
    );
}

#[test]
fn test_gpio_screen_elides_long_lists() {
    let mut snap = snapshot();
    snap.i2c_devices = "0x3c, 0x48, 0x70, 0x76".to_string();
    let lines = GPIOScreen.render(&snap).unwrap();
    assert_eq!(lines[0], "I2C: 0x3c, 0x48, ...");
}

#[test]
fn test_format_uptime_shapes() {
    assert_eq!(format_uptime(0), "0m");
    assert_eq!(format_uptime(59), "0m");
    assert_eq!(format_uptime(3_600), "1h0m");
    assert_eq!(format_uptime(86_400), "1d0h0m");
    assert_eq!(format_uptime(90_061), "1d1h1m");
}

#[test]
fn test_format_memory_and_disk() {
    assert_eq!(format_memory_info(0, 0), "0/0MB");
    assert_eq!(format_memory_info(3 * 1024 * 1024, 8 * 1024 * 1024), "3/8MB");
    assert_eq!(format_disk_usage(0, 0), "N/A");
    assert_eq!(format_disk_usage(1024 * 1024 * 1024, 2 * 1024 * 1024 * 1024), "1/2GB");
}

#[test]
fn test_scheduler_rotation_boundary() {
    let mut manager = ScreenManager::new(vec!["network", "system"], 10, 0).unwrap();
    assert!(!manager.should_switch_screen(9));
    assert!(manager.should_switch_screen(10));
    manager.next_screen(10);
    assert_eq!(manager.current_screen(), Some(ScreenKind::System));
    assert!(!manager.should_switch_screen(19));
    assert!(manager.should_switch_screen(20));
}

#[test]
fn test_scheduler_full_cycle() {
    let mut manager = ScreenManager::new(vec!["network", "system", "gpio"], 1, 0).unwrap();
    assert_eq!(manager.current_screen(), Some(ScreenKind::Network));
    manager.next_screen(1);
    manager.next_screen(2);
    manager.next_screen(3);
    assert_eq!(manager.current_screen(), Some(ScreenKind::Network));
}

#[test]
fn test_scheduler_single_screen_never_switches() {
    let mut manager = ScreenManager::new(vec!["overview"], 10, 0).unwrap();
    assert!(!manager.should_switch_screen(1_000_000));
    manager.next_screen(1_000_000);
    assert_eq!(manager.current_screen(), Some(ScreenKind::Overview));
}

#[test]
fn test_scheduler_empty_list_falls_back() {
    let manager = ScreenManager::new(Vec::new(), 10, 0).unwrap();
    assert_eq!(manager.screen_count(), 1);
    assert_eq!(manager.current_screen(), Some(ScreenKind::Overview));
}

#[test]
fn test_scheduler_unknown_name_falls_back() {
    let manager = ScreenManager::new(vec!["network", "invalid"], 10, 0).unwrap();
    assert_eq!(manager.screen_count(), 1);
    assert_eq!(manager.current_screen(), Some(ScreenKind::Overview));
}

#[test]
fn test_render_current_screen() {
    let manager = ScreenManager::new(vec!["system"], 10, 0).unwrap();
    let (title, content) = manager.render_current_screen(&snapshot());
    assert_eq!(title, "system");
    assert_eq!(content, vec!["CPU: 42'C", "Uptime: 1d2h3m", "Boot: mmcblk0p1"]);
}

#[test]
fn test_render_overview_titled_with_hostname() {
    let manager = ScreenManager::new(vec!["overview"], 10, 0).unwrap();
    let (title, _content) = manager.render_current_screen(&snapshot());
    assert_eq!(title, "pi");
}
