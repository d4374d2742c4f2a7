//! System telemetry reporter: verified record assembly, hosts-file parsing,
//! process ordering, option handling and the key/value rendering model.
pub mod battery;
pub mod cli;
pub mod format;
pub mod hosts;
pub mod platform;
pub mod process;
pub mod records;
pub mod report;
pub mod system;

pub use battery::{BatteryData, BatteryInfo, BatteryOutcome, BatteryReading, BatteryState};
pub use cli::{CliArgs, CliError, CliFlags, RunMode, Selection};
pub use format::{format_bytes, format_duration};
pub use hosts::{parse_hosts, HostEntry, HostsInfo};
pub use platform::{Target, TargetArch, TargetOs};
pub use process::{sort_processes, ProcessEntry, ProcessInfo};
pub use records::{
    DiskRecord, DisksInfo, NetworkInfo, NetworkInterface, TemperatureComponent, TemperatureInfo,
};
pub use report::{render_sections, OutputFormat, Row, Section, Snapshot};
pub use system::{CpuInfo, CpuSample, MemoryInfo, MemorySample, OsInfo, OsSample, SystemInfo};
