//! The multiplexer transactions, the frame planner, one loop tick, and
//! the text utilities they rest on.

use info_display::display::{DisplayManager, CONTENT_START_Y, LINE_PITCH};
use info_display::render_loop::run_tick;
use info_display::screen_manager::ScreenManager;
use info_display::screens::Snapshot;
use info_display::tca9548a::{BusWrite, MuxError, Tca9548a, TCA9548A_ADDRESS};
use info_display::text::{
    find_sub, last_segment, parse_u64, parse_u8, parse_u8_hex, split_on_char, str_eq,
    strip_prefix_all, trim, truncate_keep_last, truncate_with_ellipsis, u64_to_string,
};

fn snapshot() -> Snapshot {
    Snapshot {
        hostname: "pi".to_string(),
        domain: "lan".to_string(),
        ip_address: "10.0.0.2".to_string(),
        mac_address: "AA:BB:CC:DD:EE:FF".to_string(),
        cpu_temp: "40'C".to_string(),
        gpu_temp: "39'C".to_string(),
        cpu_freq: "1500 MHz".to_string(),
        throttle_status: "None".to_string(),
        uptime_seconds: 60,
        boot_partition: "/dev/sda1".to_string(),
        pi_model: "Raspberry Pi 5".to_string(),
        serial_number: "0011223344".to_string(),
        firmware_version: "2024".to_string(),
        memory_used_bytes: 0,
        memory_total_bytes: 0,
        disk_used_bytes: 0,
        disk_total_bytes: 0,
        i2c_devices: "None".to_string(),
        gpio_states: "None exported".to_string(),
        spi_devices: "None".to_string(),
        wire_sensors: "None".to_string(),
    }
}

#[test]
fn test_select_channel_writes_one_byte() {
    for channel in 0u8..=7 {
        let mut mux = Tca9548a::new();
        assert!(mux.select_channel(channel).is_ok());
        assert_eq!(
            mux.issued_writes(),
            &vec![BusWrite { address: TCA9548A_ADDRESS, byte: 1 << channel }]
        );
        assert_eq!(mux.get_current_channel(), Some(channel));
    }
}

#[test]
fn test_select_channel_eight_rejected_without_write() {
    let mut mux = Tca9548a::new();
    assert_eq!(mux.select_channel(8), Err(MuxError::InvalidChannel(8)));
    assert!(mux.issued_writes().is_empty());
    assert_eq!(mux.get_current_channel(), None);
}

#[test]
fn test_disable_all_channels() {
    let mut mux = Tca9548a::with_address(0x71);
    mux.select_channel(2).unwrap();
    mux.disable_all_channels();
    assert_eq!(
        mux.issued_writes(),
        &vec![
            BusWrite { address: 0x71, byte: 0b100 },
            BusWrite { address: 0x71, byte: 0x00 },
        ]
    );
    assert_eq!(mux.get_current_channel(), None);
}

#[test]
fn test_take_issued_writes_drains_log() {
    let mut mux = Tca9548a::new();
    mux.select_channel(1).unwrap();
    let writes = mux.take_issued_writes();
    assert_eq!(writes, vec![BusWrite { address: TCA9548A_ADDRESS, byte: 2 }]);
    assert!(mux.issued_writes().is_empty());
    assert_eq!(mux.get_current_channel(), Some(1));
}

#[test]
fn test_display_new_with_multiplexer() {
    let mut display = DisplayManager::new(true, 2, 0x71).unwrap();
    let writes = display.take_pending_bus_writes();
    assert_eq!(writes, vec![BusWrite { address: 0x71, byte: 0b100 }]);
    assert!(display.take_pending_bus_writes().is_empty());
}

#[test]
fn test_display_new_rejects_bad_channel() {
    assert!(matches!(
        DisplayManager::new(true, 8, 0x70),
        Err(MuxError::InvalidChannel(8))
    ));
}

#[test]
fn test_display_new_direct_issues_nothing() {
    let mut display = DisplayManager::new(false, 0, 0x70).unwrap();
    assert!(display.take_pending_bus_writes().is_empty());
}

#[test]
fn test_clear_display_routing() {
    assert_eq!(
        DisplayManager::clear_display(true, 3, 0x70),
        Ok(Some(BusWrite { address: 0x70, byte: 0b1000 }))
    );
    assert_eq!(DisplayManager::clear_display(false, 0, 0x70), Ok(None));
    assert_eq!(
        DisplayManager::clear_display(true, 9, 0x70),
        Err(MuxError::InvalidChannel(9))
    );
}

#[test]
fn test_render_content_keeps_lines_that_fit() {
    let mut display = DisplayManager::new(false, 0, 0x70).unwrap();
    let content: Vec<String> = (0..6).map(|i| format!("line {}", i)).collect();
    display.render_content("title", &content);
    let frame = display.current_frame();
    assert_eq!(frame.title, "title");
    assert_eq!(frame.lines.len(), 4);
    for (i, line) in frame.lines.iter().enumerate() {
        assert_eq!(line.text, format!("line {}", i));
        assert_eq!(line.y, CONTENT_START_Y + LINE_PITCH * i as i32);
    }
    assert!(frame.lines.iter().all(|l| l.y < 64));
}

#[test]
fn test_render_content_overwrites_previous_frame() {
    let mut display = DisplayManager::new(false, 0, 0x70).unwrap();
    display.render_content("first", &vec!["a".to_string(), "b".to_string()]);
    display.render_content("second", &vec!["c".to_string()]);
    let frame = display.current_frame();
    assert_eq!(frame.title, "second");
    assert_eq!(frame.lines.len(), 1);
    assert_eq!(frame.lines[0].text, "c");
}

#[test]
fn test_run_tick_renders_and_rotates() {
    let mut manager = ScreenManager::new(vec!["network", "system"], 10, 0).unwrap();
    let mut display = DisplayManager::new(false, 0, 0x70).unwrap();
    let snap = snapshot();

    run_tick(&mut manager, &mut display, &snap, 0);
    assert_eq!(display.current_frame().title, "network");
    assert_eq!(display.current_frame().lines[0].text, "pi.lan");

    run_tick(&mut manager, &mut display, &snap, 9);
    assert_eq!(display.current_frame().title, "network");

    run_tick(&mut manager, &mut display, &snap, 10);
    assert_eq!(display.current_frame().title, "system");
}

#[test]
fn test_truncate_keep_last_eight() {
    assert_eq!(truncate_keep_last("1234567890AB", 8), "...567890AB");
    assert_eq!(truncate_keep_last("12345678", 8), "12345678");
    assert_eq!(truncate_keep_last("", 8), "");
}

#[test]
fn test_truncate_with_ellipsis() {
    assert_eq!(truncate_with_ellipsis("abcdefghij", 20), "abcdefghij");
    assert_eq!(truncate_with_ellipsis("abcdefghijklmnopqrstu", 20), "abcdefghijklmnopq...");
}

#[test]
fn test_parse_numbers() {
    assert_eq!(parse_u64("10"), Some(10));
    assert_eq!(parse_u64("0"), Some(0));
    assert_eq!(parse_u64(""), None);
    assert_eq!(parse_u64("12a"), None);
    assert_eq!(parse_u64("18446744073709551615"), Some(u64::MAX));
    assert_eq!(parse_u64("18446744073709551616"), None);
    assert_eq!(parse_u8("255"), Some(255));
    assert_eq!(parse_u8("256"), None);
    assert_eq!(parse_u8_hex("71"), Some(0x71));
    assert_eq!(parse_u8_hex("fF"), Some(0xFF));
    assert_eq!(parse_u8_hex("100"), None);
    assert_eq!(parse_u8_hex("zz"), None);
}

#[test]
fn test_u64_to_string() {
    assert_eq!(u64_to_string(0), "0");
    assert_eq!(u64_to_string(1234), "1234");
    assert_eq!(u64_to_string(u64::MAX), "18446744073709551615");
}

#[test]
fn test_text_helpers() {
    assert!(str_eq("abc", "abc"));
    assert!(!str_eq("abc", "abd"));
    assert_eq!(strip_prefix_all("0x0x41", "0x"), "41");
    assert_eq!(last_segment("/dev/mmcblk0p1", '/'), "mmcblk0p1");
    assert_eq!(last_segment("plain", '/'), "plain");
    assert_eq!(find_sub("Sep 2 2023", "202"), Some(6));
    assert_eq!(find_sub("abc", "zz"), None);
    assert_eq!(trim("  padded \t"), "padded");
    assert_eq!(
        split_on_char("a,,b", ','),
        vec!["a".to_string(), "".to_string(), "b".to_string()]
    );
}
