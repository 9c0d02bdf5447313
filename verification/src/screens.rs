//! The content screens. Each screen turns a read-only telemetry
//! snapshot into a title and an ordered list of text lines, applying the
//! fixed character-budget truncation rules of the display. Collectors
//! fill the snapshot outside the library; a field they cannot read
//! arrives as a sentinel (`N/A`, `Unknown`), never as an error.

use vstd::prelude::*;
use vstd::string::*;
use crate::text::{
    dec_seq_of, elide_seq, find_first, find_sub, keep_last_seq, last_segment, last_segment_spec,
    lemma_find_first_bounds, starts_with_str, truncate_keep_last, truncate_with_ellipsis,
    u64_to_string,
};

verus! {

/// A point-in-time read of host telemetry, as plain values. String
/// fields arrive already formatted by their producers; counters arrive
/// as raw numbers and are formatted here.
#[derive(Clone)]
pub struct Snapshot {
    pub hostname: String,
    pub domain: String,
    pub ip_address: String,
    pub mac_address: String,
    pub cpu_temp: String,
    pub gpu_temp: String,
    pub cpu_freq: String,
    pub throttle_status: String,
    pub uptime_seconds: u64,
    pub boot_partition: String,
    pub pi_model: String,
    pub serial_number: String,
    pub firmware_version: String,
    pub memory_used_bytes: u64,
    pub memory_total_bytes: u64,
    pub disk_used_bytes: u64,
    pub disk_total_bytes: u64,
    pub i2c_devices: String,
    pub gpio_states: String,
    pub spi_devices: String,
    pub wire_sensors: String,
}

/// Failure of a title or content producer; the scheduler recovers from
/// it by substituting placeholder text.
#[derive(Clone, Debug)]
pub struct RenderError {
    pub message: String,
}

/// The memory line body: used and total, in whole mebibytes.
pub open spec fn memory_info_seq(used_bytes: int, total_bytes: int) -> Seq<char> {
    dec_seq_of(used_bytes / 1048576) + "/"@ + dec_seq_of(total_bytes / 1048576) + "MB"@
}

/// The disk line body: used and total in whole gibibytes, or `N/A` when
/// no disk was seen.
pub open spec fn disk_usage_seq(used_bytes: int, total_bytes: int) -> Seq<char> {
    if total_bytes > 0 {
        dec_seq_of(used_bytes / 1073741824) + "/"@ + dec_seq_of(total_bytes / 1073741824) + "GB"@
    } else {
        "N/A"@
    }
}

/// The uptime body: whole days, hours and minutes, dropping the leading
/// zero fields.
pub open spec fn uptime_seq(secs: int) -> Seq<char> {
    let days = secs / 86400;
    let hours = (secs % 86400) / 3600;
    let minutes = (secs % 3600) / 60;
    if days > 0 {
        dec_seq_of(days) + "d"@ + dec_seq_of(hours) + "h"@ + dec_seq_of(minutes) + "m"@
    } else if hours > 0 {
        dec_seq_of(hours) + "h"@ + dec_seq_of(minutes) + "m"@
    } else {
        dec_seq_of(minutes) + "m"@
    }
}

/// The model name without its fixed vendor prefix.
pub open spec fn short_model_seq(model: Seq<char>) -> Seq<char> {
    if ("Raspberry Pi "@).is_prefix_of(model) {
        model.subrange("Raspberry Pi "@.len() as int, model.len() as int)
    } else {
        model
    }
}

/// The serial number under the keep-last-8-characters rule.
pub open spec fn short_serial_seq(serial: Seq<char>) -> Seq<char> {
    keep_last_seq(serial, 8)
}

/// The firmware field cut down to the four characters of the first year
/// starting with `202`, when one occurs.
pub open spec fn short_firmware_seq(fw: Seq<char>) -> Seq<char> {
    match find_first(fw, "202"@, 0) {
        Some(i) => if i + 4 <= fw.len() {
            fw.subrange(i, i + 4)
        } else {
            fw.subrange(i, fw.len() as int)
        },
        None => fw,
    }
}

/// Formats used and total memory, in whole mebibytes.
pub fn format_memory_info(used_bytes: u64, total_bytes: u64) -> (r: String)
    ensures
        r@ == memory_info_seq(used_bytes as int, total_bytes as int),
{
    let mut r = u64_to_string(used_bytes / 1048576);
    r.append("/");
    let total = u64_to_string(total_bytes / 1048576);
    r.append(total.as_str());
    r.append("MB");
    r
}

/// Formats used and total disk space in whole gibibytes, or `N/A` when
/// no disk was seen.
pub fn format_disk_usage(used_bytes: u64, total_bytes: u64) -> (r: String)
    ensures
        r@ == disk_usage_seq(used_bytes as int, total_bytes as int),
{
    if total_bytes > 0 {
        let mut r = u64_to_string(used_bytes / 1073741824);
        r.append("/");
        let total = u64_to_string(total_bytes / 1073741824);
        r.append(total.as_str());
        r.append("GB");
        r
    } else {
        String::from_str("N/A")
    }
}

/// Formats an uptime in seconds as whole days, hours and minutes,
/// dropping the leading zero fields.
pub fn format_uptime(secs: u64) -> (r: String)
    ensures
        r@ == uptime_seq(secs as int),
{
    let days = secs / 86400;
    let hours = (secs % 86400) / 3600;
    let minutes = (secs % 3600) / 60;
    if days > 0 {
        let mut r = u64_to_string(days);
        r.append("d");
        let h = u64_to_string(hours);
        r.append(h.as_str());
        r.append("h");
        let m = u64_to_string(minutes);
        r.append(m.as_str());
        r.append("m");
        r
    } else if hours > 0 {
        let mut r = u64_to_string(hours);
        r.append("h");
        let m = u64_to_string(minutes);
        r.append(m.as_str());
        r.append("m");
        r
    } else {
        let mut r = u64_to_string(minutes);
        r.append("m");
        r
    }
}

/// The closed set of screens the registry can resolve.
#[derive(Clone, Copy, PartialEq, Eq, Structural, Debug)]
pub enum ScreenKind {
    Network,
    System,
    Storage,
    Hardware,
    Temperature,
    Gpio,
    Overview,
}

/// The identifier of a screen.
pub open spec fn screen_name_spec(kind: ScreenKind) -> Seq<char> {
    match kind {
        ScreenKind::Network => "network"@,
        ScreenKind::System => "system"@,
        ScreenKind::Storage => "storage"@,
        ScreenKind::Hardware => "hardware"@,
        ScreenKind::Temperature => "temperature"@,
        ScreenKind::Gpio => "gpio"@,
        ScreenKind::Overview => "overview"@,
    }
}

/// The title a screen shows: its identifier, except for the overview
/// screen, which uses the hostname.
pub open spec fn screen_title_spec(kind: ScreenKind, snap: Snapshot) -> Seq<char> {
    match kind {
        ScreenKind::Overview => snap.hostname@,
        _ => screen_name_spec(kind),
    }
}

/// The content lines a screen shows for a snapshot.
pub open spec fn screen_lines_spec(kind: ScreenKind, snap: Snapshot) -> Seq<Seq<char>> {
    match kind {
        ScreenKind::Network => seq![
            snap.hostname@ + "."@ + snap.domain@,
            snap.ip_address@,
            snap.mac_address@,
        ],
        ScreenKind::System => seq![
            "CPU: "@ + snap.cpu_temp@,
            "Uptime: "@ + uptime_seq(snap.uptime_seconds as int),
            "Boot: "@ + last_segment_spec(snap.boot_partition@, '/'),
        ],
        ScreenKind::Storage => seq![
            "Memory: "@ + memory_info_seq(
                snap.memory_used_bytes as int,
                snap.memory_total_bytes as int,
            ),
            "Disk: "@ + disk_usage_seq(snap.disk_used_bytes as int, snap.disk_total_bytes as int),
        ],
        ScreenKind::Hardware => seq![
            "Model: "@ + short_model_seq(snap.pi_model@),
            "Serial: "@ + short_serial_seq(snap.serial_number@),
            "FW: "@ + short_firmware_seq(snap.firmware_version@),
        ],
        ScreenKind::Temperature => seq![
            "CPU: "@ + snap.cpu_temp@ + " ("@ + snap.cpu_freq@ + ")"@,
            "GPU: "@ + snap.gpu_temp@,
            "Throttle: "@ + elide_seq(snap.throttle_status@, 20),
        ],
        ScreenKind::Gpio => seq![
            "I2C: "@ + elide_seq(snap.i2c_devices@, 15),
            "GPIO: "@ + elide_seq(snap.gpio_states@, 20),
            "SPI: "@ + snap.spi_devices@,
            "1-Wire: "@ + snap.wire_sensors@,
        ],
        ScreenKind::Overview => seq![
            snap.ip_address@,
            snap.cpu_temp@,
            memory_info_seq(snap.memory_used_bytes as int, snap.memory_total_bytes as int),
            disk_usage_seq(snap.disk_used_bytes as int, snap.disk_total_bytes as int),
            "Up: "@ + uptime_seq(snap.uptime_seconds as int),
        ],
    }
}

/// Hostname, domain, address and hardware address of the machine.
#[derive(Clone, Copy, Debug)]
pub struct NetworkScreen;

/// Processor temperature, uptime and boot device.
#[derive(Clone, Copy, Debug)]
pub struct SystemScreen;

/// Memory and disk usage.
#[derive(Clone, Copy, Debug)]
pub struct StorageScreen;

/// The combined one-screen overview, titled with the hostname.
#[derive(Clone, Copy, Debug)]
pub struct OverviewScreen;

/// Board model, serial number and firmware year.
#[derive(Clone, Copy, Debug)]
pub struct HardwareScreen;

/// Processor and graphics temperatures, clock and throttling state.
#[derive(Clone, Copy, Debug)]
pub struct TemperatureScreen;

/// Attached peripheral buses and pin states.
#[derive(Clone, Copy, Debug)]
pub struct GPIOScreen;

impl NetworkScreen {
    pub fn name(&self) -> (r: &'static str)
        ensures
            r@ == screen_name_spec(ScreenKind::Network),
    {
        "network"
    }

    pub fn title(&self, _snap: &Snapshot) -> (r: Result<String, RenderError>)
        ensures
            r matches Ok(t) && t@ == screen_name_spec(ScreenKind::Network),
    {
        Ok(String::from_str("network"))
    }

    pub fn render(&self, snap: &Snapshot) -> (r: Result<Vec<String>, RenderError>)
        ensures
            r matches Ok(lines) && lines.deep_view() == screen_lines_spec(
                ScreenKind::Network,
                *snap,
            ),
    {
        let mut lines: Vec<String> = Vec::new();
        let mut host = snap.hostname.clone();
        host.append(".");
        host.append(snap.domain.as_str());
        lines.push(host);
        lines.push(snap.ip_address.clone());
        lines.push(snap.mac_address.clone());
        proof {
            assert(lines.deep_view() =~~= screen_lines_spec(ScreenKind::Network, *snap));
        }
        Ok(lines)
    }
}

impl SystemScreen {
    pub fn name(&self) -> (r: &'static str)
        ensures
            r@ == screen_name_spec(ScreenKind::System),
    {
        "system"
    }

    pub fn title(&self, _snap: &Snapshot) -> (r: Result<String, RenderError>)
        ensures
            r matches Ok(t) && t@ == screen_name_spec(ScreenKind::System),
    {
        Ok(String::from_str("system"))
    }

    pub fn render(&self, snap: &Snapshot) -> (r: Result<Vec<String>, RenderError>)
        ensures
            r matches Ok(lines) && lines.deep_view() == screen_lines_spec(
                ScreenKind::System,
                *snap,
            ),
    {
        let mut lines: Vec<String> = Vec::new();
        let mut cpu = String::from_str("CPU: ");
        cpu.append(snap.cpu_temp.as_str());
        lines.push(cpu);
        let mut up = String::from_str("Uptime: ");
        let body = format_uptime(snap.uptime_seconds);
        up.append(body.as_str());
        lines.push(up);
        let mut boot = String::from_str("Boot: ");
        let device = last_segment(snap.boot_partition.as_str(), '/');
        boot.append(device);
        lines.push(boot);
        proof {
            assert(lines.deep_view() =~~= screen_lines_spec(ScreenKind::System, *snap));
        }
        Ok(lines)
    }
}

impl StorageScreen {
    pub fn name(&self) -> (r: &'static str)
        ensures
            r@ == screen_name_spec(ScreenKind::Storage),
    {
        "storage"
    }

    pub fn title(&self, _snap: &Snapshot) -> (r: Result<String, RenderError>)
        ensures
            r matches Ok(t) && t@ == screen_name_spec(ScreenKind::Storage),
    {
        Ok(String::from_str("storage"))
    }

    pub fn render(&self, snap: &Snapshot) -> (r: Result<Vec<String>, RenderError>)
        ensures
            r matches Ok(lines) && lines.deep_view() == screen_lines_spec(
                ScreenKind::Storage,
                *snap,
            ),
    {
        let mut lines: Vec<String> = Vec::new();
        let mut mem = String::from_str("Memory: ");
        let mem_body = format_memory_info(snap.memory_used_bytes, snap.memory_total_bytes);
        mem.append(mem_body.as_str());
        lines.push(mem);
        let mut disk = String::from_str("Disk: ");
        let disk_body = format_disk_usage(snap.disk_used_bytes, snap.disk_total_bytes);
        disk.append(disk_body.as_str());
        lines.push(disk);
        proof {
            assert(lines.deep_view() =~~= screen_lines_spec(ScreenKind::Storage, *snap));
        }
        Ok(lines)
    }
}

impl OverviewScreen {
    pub fn name(&self) -> (r: &'static str)
        ensures
            r@ == screen_name_spec(ScreenKind::Overview),
    {
        "overview"
    }

    /// The overview is titled with the hostname, not its identifier.
    pub fn title(&self, snap: &Snapshot) -> (r: Result<String, RenderError>)
        ensures
            r matches Ok(t) && t@ == snap.hostname@,
    {
        Ok(snap.hostname.clone())
    }

    pub fn render(&self, snap: &Snapshot) -> (r: Result<Vec<String>, RenderError>)
        ensures
            r matches Ok(lines) && lines.deep_view() == screen_lines_spec(
                ScreenKind::Overview,
                *snap,
            ),
    {
        let mut lines: Vec<String> = Vec::new();
        lines.push(snap.ip_address.clone());
        lines.push(snap.cpu_temp.clone());
        lines.push(format_memory_info(snap.memory_used_bytes, snap.memory_total_bytes));
        lines.push(format_disk_usage(snap.disk_used_bytes, snap.disk_total_bytes));
        let mut up = String::from_str("Up: ");
        let body = format_uptime(snap.uptime_seconds);
        up.append(body.as_str());
        lines.push(up);
        proof {
            assert(lines.deep_view() =~~= screen_lines_spec(ScreenKind::Overview, *snap));
        }
        Ok(lines)
    }
}

impl HardwareScreen {
    pub fn name(&self) -> (r: &'static str)
        ensures
            r@ == screen_name_spec(ScreenKind::Hardware),
    {
        "hardware"
    }

    pub fn title(&self, _snap: &Snapshot) -> (r: Result<String, RenderError>)
        ensures
            r matches Ok(t) && t@ == screen_name_spec(ScreenKind::Hardware),
    {
        Ok(String::from_str("hardware"))
    }

    pub fn render(&self, snap: &Snapshot) -> (r: Result<Vec<String>, RenderError>)
        ensures
            r matches Ok(lines) && lines.deep_view() == screen_lines_spec(
                ScreenKind::Hardware,
                *snap,
            ),
    {
        let mut lines: Vec<String> = Vec::new();

        let mut model = String::from_str("Model: ");
        let pi_model = snap.pi_model.as_str();
        let n = pi_model.unicode_len();
        let prefix_len = "Raspberry Pi ".unicode_len();
        if starts_with_str(pi_model, "Raspberry Pi ") {
            model.append(pi_model.substring_char(prefix_len, n));
        } else {
            model.append(pi_model);
        }
        lines.push(model);

        let mut serial = String::from_str("Serial: ");
        let short_serial = truncate_keep_last(snap.serial_number.as_str(), 8);
        serial.append(short_serial.as_str());
        lines.push(serial);

        let mut fw = String::from_str("FW: ");
        let fw_str = snap.firmware_version.as_str();
        let fw_len = fw_str.unicode_len();
        match find_sub(fw_str, "202") {
            Some(at) => {
                proof {
                    lemma_find_first_bounds(fw_str@, "202"@, 0);
                }
                let end = if fw_len - at >= 4 {
                    at + 4
                } else {
                    fw_len
                };
                fw.append(fw_str.substring_char(at, end));
            },
            None => {
                fw.append(fw_str);
            },
        }
        lines.push(fw);

        proof {
            assert(lines.deep_view() =~~= screen_lines_spec(ScreenKind::Hardware, *snap));
        }
        Ok(lines)
    }
}

impl TemperatureScreen {
    pub fn name(&self) -> (r: &'static str)
        ensures
            r@ == screen_name_spec(ScreenKind::Temperature),
    {
        "temperature"
    }

    pub fn title(&self, _snap: &Snapshot) -> (r: Result<String, RenderError>)
        ensures
            r matches Ok(t) && t@ == screen_name_spec(ScreenKind::Temperature),
    {
        Ok(String::from_str("temperature"))
    }

    pub fn render(&self, snap: &Snapshot) -> (r: Result<Vec<String>, RenderError>)
        ensures
            r matches Ok(lines) && lines.deep_view() == screen_lines_spec(
                ScreenKind::Temperature,
                *snap,
            ),
    {
        let mut lines: Vec<String> = Vec::new();
        let mut cpu = String::from_str("CPU: ");
        cpu.append(snap.cpu_temp.as_str());
        cpu.append(" (");
        cpu.append(snap.cpu_freq.as_str());
        cpu.append(")");
        lines.push(cpu);
        let mut gpu = String::from_str("GPU: ");
        gpu.append(snap.gpu_temp.as_str());
        lines.push(gpu);
        let mut throttle = String::from_str("Throttle: ");
        let short = truncate_with_ellipsis(snap.throttle_status.as_str(), 20);
        throttle.append(short.as_str());
        lines.push(throttle);
        proof {
            assert(lines.deep_view() =~~= screen_lines_spec(ScreenKind::Temperature, *snap));
        }
        Ok(lines)
    }
}

impl GPIOScreen {
    pub fn name(&self) -> (r: &'static str)
        ensures
            r@ == screen_name_spec(ScreenKind::Gpio),
    {
        "gpio"
    }

    pub fn title(&self, _snap: &Snapshot) -> (r: Result<String, RenderError>)
        ensures
            r matches Ok(t) && t@ == screen_name_spec(ScreenKind::Gpio),
    {
        Ok(String::from_str("gpio"))
    }

    pub fn render(&self, snap: &Snapshot) -> (r: Result<Vec<String>, RenderError>)
        ensures
            r matches Ok(lines) && lines.deep_view() == screen_lines_spec(ScreenKind::Gpio, *snap),
    {
        let mut lines: Vec<String> = Vec::new();
        let mut i2c = String::from_str("I2C: ");
        let short_i2c = truncate_with_ellipsis(snap.i2c_devices.as_str(), 15);
        i2c.append(short_i2c.as_str());
        lines.push(i2c);
        let mut gpio = String::from_str("GPIO: ");
        let short_gpio = truncate_with_ellipsis(snap.gpio_states.as_str(), 20);
        gpio.append(short_gpio.as_str());
        lines.push(gpio);
        let mut spi = String::from_str("SPI: ");
        spi.append(snap.spi_devices.as_str());
        lines.push(spi);
        let mut wire = String::from_str("1-Wire: ");
        wire.append(snap.wire_sensors.as_str());
        lines.push(wire);
        proof {
            assert(lines.deep_view() =~~= screen_lines_spec(ScreenKind::Gpio, *snap));
        }
        Ok(lines)
    }
}

impl ScreenKind {
    /// The identifier the registry resolves this screen under.
    pub fn name(&self) -> (r: &'static str)
        ensures
            r@ == screen_name_spec(*self),
    {
        match self {
            ScreenKind::Network => NetworkScreen.name(),
            ScreenKind::System => SystemScreen.name(),
            ScreenKind::Storage => StorageScreen.name(),
            ScreenKind::Hardware => HardwareScreen.name(),
            ScreenKind::Temperature => TemperatureScreen.name(),
            ScreenKind::Gpio => GPIOScreen.name(),
            ScreenKind::Overview => OverviewScreen.name(),
        }
    }

    /// The title producer of this screen. It never fails here; the
    /// scheduler nevertheless guards every title call, substituting the
    /// identifier, so a failing producer can never take a title down.
    pub fn title(&self, snap: &Snapshot) -> (r: Result<String, RenderError>)
        ensures
            r matches Ok(t) && t@ == screen_title_spec(*self, *snap),
    {
        match self {
            ScreenKind::Network => NetworkScreen.title(snap),
            ScreenKind::System => SystemScreen.title(snap),
            ScreenKind::Storage => StorageScreen.title(snap),
            ScreenKind::Hardware => HardwareScreen.title(snap),
            ScreenKind::Temperature => TemperatureScreen.title(snap),
            ScreenKind::Gpio => GPIOScreen.title(snap),
            ScreenKind::Overview => OverviewScreen.title(snap),
        }
    }

    /// The content producer of this screen.
    pub fn render(&self, snap: &Snapshot) -> (r: Result<Vec<String>, RenderError>)
        ensures
            r matches Ok(lines) && lines.deep_view() == screen_lines_spec(*self, *snap),
    {
        match self {
            ScreenKind::Network => NetworkScreen.render(snap),
            ScreenKind::System => SystemScreen.render(snap),
            ScreenKind::Storage => StorageScreen.render(snap),
            ScreenKind::Hardware => HardwareScreen.render(snap),
            ScreenKind::Temperature => TemperatureScreen.render(snap),
            ScreenKind::Gpio => GPIOScreen.render(snap),
            ScreenKind::Overview => OverviewScreen.render(snap),
        }
    }
}

} // verus!
