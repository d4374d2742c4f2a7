use weni::cli::DEFAULT_INTERVAL;
use weni::report::{format_celsius, format_percent};
use weni::{
    format_bytes, format_duration, parse_hosts, render_sections, sort_processes, BatteryInfo,
    BatteryOutcome, BatteryReading, BatteryState, CliArgs, CliError, CliFlags, CpuSample,
    DiskRecord, HostsInfo, MemoryInfo, MemorySample, OsSample, OutputFormat, ProcessEntry,
    ProcessInfo, RunMode, Snapshot, SystemInfo, Target, TargetArch, TargetOs,
};

fn flags() -> CliFlags {
    CliFlags {
        help: false,
        cpu: false,
        memory: false,
        system: false,
        battery: false,
        disk: false,
        network: false,
        temp: false,
        process: false,
        hosts: false,
        json: false,
        watch: false,
        interval: None,
        top: None,
        sort_cpu: false,
        show_comments: false,
        unknown: vec![],
    }
}

fn proc(pid: u32, cpu: u32, mem: u64) -> ProcessEntry {
    ProcessEntry {
        pid,
        name: format!("p{}", pid),
        cpu_usage: cpu,
        memory_usage: mem,
        disk_read: 0,
        disk_write: 0,
    }
}

fn linux() -> Target {
    Target::from_names("linux", "x86_64")
}

#[test]
fn bytes_below_one_kilobyte() {
    assert_eq!(format_bytes(0), "0 B");
    assert_eq!(format_bytes(1023), "1023 B");
}

#[test]
fn bytes_on_each_scale() {
    assert_eq!(format_bytes(1024), "1.00 KB");
    assert_eq!(format_bytes(1024 * 1024 * 3), "3.00 MB");
    assert_eq!(format_bytes(1536), "1.50 KB");
    assert_eq!(format_bytes(1024 * 1024 * 1024 * 5 / 2), "2.50 GB");
    assert_eq!(format_bytes(u64::MAX), "17179869184.00 GB");
}

#[test]
fn bytes_round_like_float_formatting() {
    // 1.125 KB is a tie and goes to the even neighbour, as "{:.2}" does.
    assert_eq!(format_bytes(1152), format!("{:.2} KB", 1152f64 / 1024f64));
    assert_eq!(format_bytes(1152), "1.12 KB");
    assert_eq!(format_bytes(1050), format!("{:.2} KB", 1050f64 / 1024f64));
    assert_eq!(format_bytes(123_456_789), format!("{:.2} MB", 123_456_789f64 / 1048576f64));
}

#[test]
fn durations_in_hours_and_minutes() {
    assert_eq!(format_duration(0), "0h0m");
    assert_eq!(format_duration(3725), "1h2m");
    assert_eq!(format_duration(59), "0h0m");
    assert_eq!(format_duration(36000 + 59 * 60 + 59), "10h59m");
}

#[test]
fn percent_and_celsius_text() {
    assert_eq!(format_percent(1234), "12.34%");
    assert_eq!(format_percent(5), "0.05%");
    assert_eq!(format_celsius(-45), "-4.5°C");
    assert_eq!(format_celsius(421), "42.1°C");
}

#[test]
fn hosts_with_comment_filtering() {
    let e = parse_hosts("# comment\n1.1.1.1 a b  # trailing\n\n", true);
    assert_eq!(e.len(), 1);
    assert_eq!(e[0].ip, "1.1.1.1");
    assert_eq!(e[0].hostnames, vec!["a".to_string(), "b".to_string()]);
}

#[test]
fn hosts_without_comment_filtering() {
    let e = parse_hosts("# comment\n1.1.1.1 a b  # trailing\n\n", false);
    // The comment line has two tokens and is kept as an entry; the trailing
    // comment stays on the address line.
    assert_eq!(e.len(), 2);
    assert_eq!(e[0].ip, "#");
    assert_eq!(e[0].hostnames, vec!["comment".to_string()]);
    assert_eq!(e[1].ip, "1.1.1.1");
    let names: Vec<&str> = e[1].hostnames.iter().map(|s| s.as_str()).collect();
    assert_eq!(names, vec!["a", "b", "#", "trailing"]);
}

#[test]
fn hosts_skip_malformed_and_handle_crlf() {
    let e = parse_hosts("127.0.0.1\r\n\t::1   localhost\tip6-localhost\r\nbad\n#x y\n", true);
    assert_eq!(e.len(), 1);
    assert_eq!(e[0].ip, "::1");
    assert_eq!(e[0].hostnames, vec!["localhost".to_string(), "ip6-localhost".to_string()]);
    assert_eq!(parse_hosts("", true).len(), 0);
}

#[test]
fn hosts_read_failure_is_reported() {
    let h = HostsInfo::collect(Err("permission denied".to_string()), true);
    assert!(h.entries.is_empty());
    assert_eq!(
        h.error.unwrap(),
        "Cannot read hosts file: permission denied (administrator rights may be required)"
    );
    let ok = HostsInfo::collect(Ok("10.0.0.1 box".to_string()), true);
    assert!(ok.error.is_none());
    assert_eq!(ok.entries.len(), 1);
}

#[test]
fn processes_by_memory_then_cut() {
    let all = vec![proc(1, 10, 300), proc(2, 90, 100), proc(3, 50, 200), proc(4, 0, 400)];
    let info = ProcessInfo::collect(all, Some(2), false);
    assert_eq!(info.total_count, 4);
    let pids: Vec<u32> = info.processes.iter().map(|p| p.pid).collect();
    assert_eq!(pids, vec![4, 1]);
}

#[test]
fn processes_by_cpu() {
    let all = vec![proc(1, 10, 300), proc(2, 90, 100), proc(3, 50, 200)];
    let info = ProcessInfo::collect(all, None, true);
    assert_eq!(info.total_count, 3);
    let pids: Vec<u32> = info.processes.iter().map(|p| p.pid).collect();
    assert_eq!(pids, vec![2, 3, 1]);
    for w in info.processes.windows(2) {
        assert!(w[0].cpu_usage >= w[1].cpu_usage);
    }
}

#[test]
fn process_limit_beyond_count() {
    let info = ProcessInfo::collect(vec![proc(1, 1, 1), proc(2, 2, 2)], Some(10), true);
    assert_eq!(info.processes.len(), 2);
    assert_eq!(info.total_count, 2);
    let none = ProcessInfo::collect(vec![proc(1, 1, 1)], Some(0), true);
    assert_eq!(none.processes.len(), 0);
    assert_eq!(none.total_count, 1);
}

#[test]
fn sort_keeps_order_of_equal_keys() {
    let v = sort_processes(vec![proc(1, 5, 7), proc(2, 5, 9), proc(3, 5, 7)], true);
    let pids: Vec<u32> = v.iter().map(|p| p.pid).collect();
    assert_eq!(pids, vec![1, 2, 3]);
}

#[test]
fn memory_balances() {
    let m = MemoryInfo::from_sample(MemorySample { total: 16_000, available: 4_000 });
    assert_eq!(m.used(), 12_000);
    assert_eq!(m.used() + m.available(), m.total());
    assert_eq!(m.usage_percent(), 7500);
    let third = MemoryInfo::from_sample(MemorySample { total: 3, available: 2 });
    assert_eq!(third.usage_percent(), 3333);
    let empty = MemoryInfo::from_sample(MemorySample { total: 0, available: 0 });
    assert_eq!(empty.usage_percent(), 0);
}

#[test]
fn system_parts_follow_samples() {
    let t = linux();
    let s = SystemInfo::new(
        None,
        Some(MemorySample { total: 8, available: 3 }),
        Some(OsSample { name: Some("Linux".to_string()), kernel_version: None, os_version: None, hostname: None }),
        &t,
    );
    assert!(s.cpu.is_none());
    let m = s.memory.unwrap();
    assert_eq!(m.used() + m.available(), m.total());
    let os = s.os.unwrap();
    assert_eq!(os.name, "Linux");
    assert_eq!(os.kernel_version, "Unknown");
    assert_eq!(os.architecture, "64-bit");
}

#[test]
fn cpu_record_labels() {
    let t = Target::from_names("linux", "aarch64");
    let s = SystemInfo::new(
        Some(CpuSample { brand: None, physical_cores: Some(8), usage: 1250, frequency: None }),
        None,
        None,
        &t,
    );
    let c = s.cpu.unwrap();
    assert_eq!(c.name, "Unknown");
    assert_eq!(c.cores, 8);
    assert_eq!(c.frequency, 0);
    assert_eq!(c.architecture, "64-bit (ARM64)");
    let other = Target::from_names("linux", "riscv64");
    assert_eq!(other.arch, TargetArch::Other);
    assert_eq!(other.os, TargetOs::Linux);
}

#[test]
fn battery_unsupported_platform() {
    let t = Target::from_names("windows", "x86");
    let r = BatteryInfo::unsupported_on(&t).unwrap();
    assert!(r.data.is_none());
    assert_eq!(r.error.unwrap(), "Battery information is not supported on 32-bit Windows");
    assert!(BatteryInfo::unsupported_on(&linux()).is_none());
}

#[test]
fn battery_failures_named() {
    let r = BatteryInfo::collect(BatteryOutcome::Listed(vec![]));
    assert!(r.data.is_none());
    assert_eq!(r.error.unwrap(), "No battery found (this may be a desktop system)");
    let r = BatteryInfo::collect(BatteryOutcome::ManagerFailed("x".to_string()));
    assert_eq!(r.error.unwrap(), "Failed to initialize battery manager: x");
    let r = BatteryInfo::collect(BatteryOutcome::AccessFailed("y".to_string()));
    assert_eq!(r.error.unwrap(), "Failed to access batteries: y");
    let r = BatteryInfo::collect(BatteryOutcome::EnumerationFailed("z".to_string()));
    assert_eq!(r.error.unwrap(), "Failed to enumerate batteries: z");
}

fn reading(state: BatteryState, percentage: u32) -> BatteryReading {
    BatteryReading {
        state,
        percentage,
        time_to_full: None,
        time_to_empty: Some(7500),
        health: 9000,
        technology: "LithiumIon".to_string(),
        temperature: Some(305),
    }
}

#[test]
fn battery_first_of_list_reported() {
    let r = BatteryInfo::collect(BatteryOutcome::Listed(vec![
        reading(BatteryState::Discharging, 8150),
        reading(BatteryState::Full, 10000),
    ]));
    assert!(r.error.is_none());
    let d = r.data.unwrap();
    assert_eq!(d.state, "Discharging");
    assert_eq!(d.percentage, 8150);
    assert_eq!(d.time_to_empty.unwrap(), "2h5m");
    assert!(d.time_to_full.is_none());
    assert_eq!(d.temperature, Some(305));
}

#[test]
fn readers_of_a_live_handle() {
    let sys = sysinfo::System::new_with_specifics(
        sysinfo::RefreshKind::new()
            .with_memory(sysinfo::MemoryRefreshKind::everything())
            .with_cpu(sysinfo::CpuRefreshKind::everything()),
    );
    if let Some(m) = MemorySample::read(&sys) {
        assert!(m.available <= m.total);
        let info = MemoryInfo::from_sample(m);
        assert_eq!(info.used() + info.available(), info.total());
    }
}

#[test]
fn cpu_readings_from_list() {
    let c = CpuSample::from_cpus(
        vec![("Brand A".to_string(), 3200), ("Brand B".to_string(), 1000)],
        Some(4),
        4321,
    );
    assert_eq!(c.brand.as_deref(), Some("Brand A"));
    assert_eq!(c.frequency, Some(3200));
    assert_eq!(c.physical_cores, Some(4));
    assert_eq!(c.usage, 4321);
    let none = CpuSample::from_cpus(vec![], None, 0);
    assert!(none.brand.is_none() && none.frequency.is_none());
    let info = SystemInfo::new(Some(none), None, None, &linux()).cpu.unwrap();
    assert_eq!(info.name, "Unknown");
    assert_eq!(info.frequency, 0);
    assert_eq!(info.cores, 0);
}

#[test]
fn memory_readings_checked() {
    let m = MemorySample::checked(100, 40).unwrap();
    assert_eq!((m.total, m.available), (100, 40));
    assert!(MemorySample::checked(100, 101).is_none());
}

#[test]
fn empty_temperature_report_has_section() {
    let t = linux();
    let sys = SystemInfo::new(None, None, None, &t);
    let mut f = flags();
    f.temp = true;
    let sel = CliArgs::parse(f).ok().unwrap().selection();
    let temps = weni::TemperatureInfo { components: vec![] };
    let snap = Snapshot::assemble(&sel, sys, None, None, None, Some(temps), None, None);
    let secs = render_sections(&snap);
    assert_eq!(secs.len(), 1);
    assert_eq!(secs[0].title, "Temperature Information");
    assert!(secs[0].tables.is_empty());
}

#[test]
fn resolve_refuses_json_with_watch() {
    let mut f = flags();
    f.json = true;
    f.watch = true;
    match CliArgs::resolve(f) {
        Err(e) => assert!(matches!(e, CliError::JsonWithWatch)),
        Ok(_) => panic!("json with watch accepted"),
    }
    let mut g = flags();
    g.json = true;
    assert!(matches!(CliArgs::resolve(g), Ok((_, RunMode::Once(OutputFormat::Json)))));
}

#[test]
fn json_with_watch_refused() {
    let mut f = flags();
    f.json = true;
    f.watch = true;
    let a = CliArgs::parse(f).ok().unwrap();
    let e = a.run_mode().err().unwrap();
    assert!(matches!(e, CliError::JsonWithWatch));
    assert_eq!(e.message(), "Watch mode is not compatible with JSON output");
}

#[test]
fn no_switch_selects_everything() {
    let a = CliArgs::parse(flags()).ok().unwrap();
    assert!(a.show_all);
    assert_eq!(a.interval, DEFAULT_INTERVAL);
    assert!(a.hosts_filter_comments);
    let s = a.selection();
    assert!(s.cpu && s.memory && s.system && s.battery && s.disk && s.network && s.temp);
    assert!(s.process && s.hosts);
    assert!(matches!(a.run_mode(), Ok(RunMode::Once(OutputFormat::Text))));
}

#[test]
fn chosen_switches_only() {
    let mut f = flags();
    f.cpu = true;
    f.json = true;
    f.interval = Some(5);
    f.show_comments = true;
    let a = CliArgs::parse(f).ok().unwrap();
    assert!(!a.show_all);
    assert_eq!(a.interval, 5);
    assert!(!a.hosts_filter_comments);
    let s = a.selection();
    assert!(s.cpu && !s.memory && !s.hosts);
    assert!(matches!(a.run_mode(), Ok(RunMode::Once(OutputFormat::Json))));
}

#[test]
fn unknown_arguments_refused() {
    let mut f = flags();
    f.unknown = vec!["--bogus".to_string(), "x".to_string()];
    match CliArgs::parse(f) {
        Err(e) => assert_eq!(e.message(), "Unknown arguments: --bogus x"),
        Ok(_) => panic!("accepted unknown arguments"),
    }
}

#[test]
fn help_wins() {
    let mut f = flags();
    f.help = true;
    f.unknown = vec!["--bogus".to_string()];
    f.watch = true;
    let a = CliArgs::parse(f).ok().unwrap();
    assert!(a.help && !a.watch);
    assert!(matches!(a.run_mode(), Ok(RunMode::Help)));
}

#[test]
fn watch_mode_interval() {
    let mut f = flags();
    f.watch = true;
    f.interval = Some(7);
    let a = CliArgs::parse(f).ok().unwrap();
    assert!(matches!(a.run_mode(), Ok(RunMode::Watch(7))));
}

#[test]
fn sections_of_a_snapshot() {
    let t = linux();
    let sys = SystemInfo::new(None, Some(MemorySample { total: 2048, available: 1024 }), None, &t);
    let mut f = flags();
    f.memory = true;
    f.disk = true;
    let sel = CliArgs::parse(f).ok().unwrap().selection();
    let disks = weni::DisksInfo {
        disks: vec![DiskRecord::new("/".to_string(), "sda1".to_string(), "ext4".to_string(), 4096, 1024, false)],
    };
    let snap = Snapshot::assemble(&sel, sys, None, Some(disks), None, None, None, None);
    let secs = render_sections(&snap);
    assert_eq!(secs.len(), 2);
    assert_eq!(secs[0].title, "Memory Information");
    let rows: Vec<(String, String)> =
        secs[0].tables[0].iter().map(|r| (r.label.clone(), r.value.clone())).collect();
    assert_eq!(rows[0], ("Total".to_string(), "2.00 KB".to_string()));
    assert_eq!(rows[1], ("Used".to_string(), "1.00 KB".to_string()));
    assert_eq!(rows[3], ("Usage".to_string(), "50.00%".to_string()));
    assert_eq!(secs[1].title, "Disk Information");
    assert_eq!(secs[1].tables[0][6].value, "75.00%");
    assert_eq!(secs[1].tables[0][7].value, "No");
}

#[test]
fn hosts_section_shows_error() {
    let t = linux();
    let sys = SystemInfo::new(None, None, None, &t);
    let mut f = flags();
    f.hosts = true;
    let sel = CliArgs::parse(f).ok().unwrap().selection();
    let hosts = HostsInfo::collect(Err("missing".to_string()), true);
    let snap = Snapshot::assemble(&sel, sys, None, None, None, None, None, Some(hosts));
    let secs = render_sections(&snap);
    assert_eq!(secs.len(), 1);
    assert_eq!(secs[0].tables[0][0].label, "Error");
}

#[test]
fn disk_usage_derived() {
    let d = DiskRecord::new("/".to_string(), "a".to_string(), "ext4".to_string(), 1000, 250, true);
    assert_eq!(d.used_space, 750);
    assert_eq!(d.usage_percent, 7500);
    let odd = DiskRecord::new("/".to_string(), "b".to_string(), "nfs".to_string(), 10, 20, false);
    assert_eq!(odd.used_space, 0);
    assert_eq!(odd.usage_percent, 0);
}

#[test]
fn hosts_path_by_platform() {
    assert_eq!(linux().hosts_path(), "/etc/hosts");
    assert_eq!(Target::from_names("windows", "x86_64").hosts_path(), r"C:\Windows\System32\drivers\etc\hosts");
}
