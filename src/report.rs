//! The snapshot of one sampling pass and the key/value model it is rendered from.
use vstd::prelude::*;

use crate::battery::{opt_text, BatteryInfo};
use crate::cli::Selection;
use crate::format::{
    bytes_text, decimal, digit_char, format_bytes, hundredths_text, join_spaced, joined, push_char,
    push_decimal, push_hundredths, strings_view,
};
use crate::hosts::{HostEntry, HostsInfo};
use crate::process::{ProcessEntry, ProcessInfo};
use crate::records::{
    DiskRecord, DisksInfo, NetworkInfo, NetworkInterface, TemperatureComponent, TemperatureInfo,
};
use crate::system::{CpuInfo, MemoryInfo, OsInfo, SystemInfo};

verus! {

/// Output mode of a run.
#[derive(Clone, Copy, PartialEq, Eq, Structural, Debug)]
pub enum OutputFormat {
    Text,
    Json,
}


/// One line of a key/value table.
pub struct Row {
    pub label: String,
    pub value: String,
}

impl View for Row {
    type V = (Seq<char>, Seq<char>);

    open spec fn view(&self) -> (Seq<char>, Seq<char>) {
        (self.label@, self.value@)
    }
}

/// The views of a table's rows.
pub open spec fn rows_view(v: Seq<Row>) -> Seq<(Seq<char>, Seq<char>)> {
    v.map_values(|r: Row| r@)
}

/// A fixed-point hundredths count as a percentage: "12.34%".
pub open spec fn percent_text(h: nat) -> Seq<char> {
    hundredths_text(h) + seq!['%']
}

/// Tenths of a degree Celsius with one decimal: "-4.5°C".
pub open spec fn celsius_text(t: int) -> Seq<char> {
    let a = if t < 0 { -t } else { t };
    (if t < 0 { seq!['-'] } else { Seq::empty() }) + decimal((a / 10) as nat) + seq![
        '.',
        digit_char((a % 10) as nat),
        '\u{b0}',
        'C',
    ]
}

/// Appends a row.
fn push_row(rows: &mut Vec<Row>, label: &str, value: String)
    ensures
        rows_view(final(rows)@) == rows_view(old(rows)@).push((label@, value@)),
{
    let ghost before = rows@;
    rows.push(Row { label: label.to_owned(), value });
    assert(rows_view(rows@) =~= rows_view(before).push((label@, value@)));
}

fn decimal_string(n: u64) -> (r: String)
    ensures
        r@ == decimal(n as nat),
{
    let mut s = String::new();
    push_decimal(&mut s, n as u128);
    assert(s@ =~= decimal(n as nat));
    s
}

/// Formats hundredths of a percent with two decimals: `1234` is "12.34%".
pub fn format_percent(h: u64) -> (r: String)
    ensures
        r@ == percent_text(h as nat),
{
    let mut s = String::new();
    push_hundredths(&mut s, h as u128);
    push_char(&mut s, '%');
    assert(s@ =~= percent_text(h as nat));
    s
}

/// Formats tenths of a degree Celsius with one decimal: `-45` is "-4.5°C".
pub fn format_celsius(t: i32) -> (r: String)
    ensures
        r@ == celsius_text(t as int),
{
    let mut s = String::new();
    let a: u128 = if t < 0 {
        push_char(&mut s, '-');
        (-(t as i64)) as u128
    } else {
        t as u128
    };
    push_decimal(&mut s, a / 10);
    push_char(&mut s, '.');
    let d = a % 10;
    let c = match d {
        0 => '0',
        1 => '1',
        2 => '2',
        3 => '3',
        4 => '4',
        5 => '5',
        6 => '6',
        7 => '7',
        8 => '8',
        _ => '9',
    };
    push_char(&mut s, c);
    push_char(&mut s, '\u{b0}');
    push_char(&mut s, 'C');
    assert(s@ =~= celsius_text(t as int));
    s
}


/// "Yes" or "No".
pub open spec fn yes_no_text(b: bool) -> Seq<char> {
    if b {
        "Yes"@
    } else {
        "No"@
    }
}

/// The table of the OS record.
pub open spec fn os_rows(o: OsInfo) -> Seq<(Seq<char>, Seq<char>)> {
    seq![
        ("OS"@, o.name@),
        ("Version"@, o.os_version@),
        ("Kernel"@, o.kernel_version@),
        ("Hostname"@, o.hostname@),
        ("Architecture"@, o.architecture@),
    ]
}

/// The table of the CPU record.
pub open spec fn cpu_rows(c: CpuInfo) -> Seq<(Seq<char>, Seq<char>)> {
    seq![
        ("Model"@, c.name@),
        ("Cores"@, decimal(c.cores as nat)),
        ("Usage"@, percent_text(c.usage as nat)),
        ("Frequency"@, decimal(c.frequency as nat) + " MHz"@),
        ("Architecture"@, c.architecture@),
    ]
}

/// The table of the memory record.
pub open spec fn memory_rows(m: MemoryInfo) -> Seq<(Seq<char>, Seq<char>)> {
    seq![
        ("Total"@, bytes_text(m.total_spec() as nat)),
        ("Used"@, bytes_text(m.used_spec() as nat)),
        ("Available"@, bytes_text(m.available_spec() as nat)),
        ("Usage"@, percent_text(m.usage_spec() as nat)),
    ]
}

/// An optional row: present when the value is.
pub open spec fn opt_row(label: Seq<char>, v: Option<Seq<char>>) -> Seq<(Seq<char>, Seq<char>)> {
    match v {
        Some(t) => seq![(label, t)],
        None => Seq::empty(),
    }
}

/// An optional temperature, written in degrees.
pub open spec fn opt_celsius(t: Option<i32>) -> Option<Seq<char>> {
    match t {
        Some(v) => Some(celsius_text(v as int)),
        None => None,
    }
}

/// The table of the battery report: its readings, or its error.
pub open spec fn battery_rows(b: BatteryInfo) -> Seq<(Seq<char>, Seq<char>)> {
    match b.data {
        Some(d) => seq![("State"@, d.state@), ("Charge"@, percent_text(d.percentage as nat))]
            + opt_row("Time to Full"@, opt_text(d.time_to_full)) + opt_row(
            "Time to Empty"@,
            opt_text(d.time_to_empty),
        ) + seq![
            ("Health"@, percent_text(d.health as nat)),
            ("Technology"@, d.technology@),
        ] + opt_row("Temperature"@, opt_celsius(d.temperature)),
        None => seq![("Error"@, opt_text(b.error).unwrap_or(Seq::empty()))],
    }
}

/// The table of one disk.
pub open spec fn disk_rows(d: DiskRecord) -> Seq<(Seq<char>, Seq<char>)> {
    seq![
        ("Mount Point"@, d.mount_point@),
        ("Name"@, d.name@),
        ("File System"@, d.file_system@),
        ("Total"@, bytes_text(d.total_space as nat)),
        ("Used"@, bytes_text(d.used_space as nat)),
        ("Available"@, bytes_text(d.available_space as nat)),
        ("Usage"@, percent_text(d.usage_percent as nat)),
        ("Removable"@, yes_no_text(d.is_removable)),
    ]
}

/// The table of one network interface.
pub open spec fn network_rows(n: NetworkInterface) -> Seq<(Seq<char>, Seq<char>)> {
    seq![
        ("Interface"@, n.name@),
        ("Received"@, bytes_text(n.received as nat)),
        ("Transmitted"@, bytes_text(n.transmitted as nat)),
        ("Packets RX"@, decimal(n.packets_received as nat)),
        ("Packets TX"@, decimal(n.packets_transmitted as nat)),
        ("Errors RX"@, decimal(n.errors_received as nat)),
        ("Errors TX"@, decimal(n.errors_transmitted as nat)),
    ]
}

/// The table of one temperature sensor.
pub open spec fn temperature_rows(t: TemperatureComponent) -> Seq<(Seq<char>, Seq<char>)> {
    seq![("Component"@, t.label@), ("Temperature"@, celsius_text(t.temperature as int))]
        + opt_row("Max"@, opt_celsius(t.max)) + opt_row("Critical"@, opt_celsius(t.critical))
}

/// The table of one process.
pub open spec fn process_rows(p: ProcessEntry) -> Seq<(Seq<char>, Seq<char>)> {
    seq![
        ("PID"@, decimal(p.pid as nat)),
        ("Name"@, p.name@),
        ("CPU"@, percent_text(p.cpu_usage as nat)),
        ("Memory"@, bytes_text(p.memory_usage as nat)),
        ("Disk Read"@, bytes_text(p.disk_read as nat)),
        ("Disk Written"@, bytes_text(p.disk_write as nat)),
    ]
}

/// The table that counts the processes.
pub open spec fn process_count_rows(p: ProcessInfo) -> Seq<(Seq<char>, Seq<char>)> {
    seq![
        ("Processes"@, decimal(p.total_count as nat)),
        ("Shown"@, decimal(p.processes@.len())),
    ]
}

/// The table of one hosts entry.
pub open spec fn host_rows(e: HostEntry) -> Seq<(Seq<char>, Seq<char>)> {
    seq![("IP"@, e.ip@), ("Hostnames"@, joined(strings_view(e.hostnames@)))]
}

fn os_table(o: &OsInfo) -> (r: Vec<Row>)
    ensures
        rows_view(r@) == os_rows(*o),
{
    let mut rows: Vec<Row> = Vec::new();
    push_row(&mut rows, "OS", o.name.clone());
    push_row(&mut rows, "Version", o.os_version.clone());
    push_row(&mut rows, "Kernel", o.kernel_version.clone());
    push_row(&mut rows, "Hostname", o.hostname.clone());
    push_row(&mut rows, "Architecture", o.architecture.clone());
    assert(rows_view(rows@) =~= os_rows(*o));
    rows
}

fn cpu_table(c: &CpuInfo) -> (r: Vec<Row>)
    ensures
        rows_view(r@) == cpu_rows(*c),
{
    let mut rows: Vec<Row> = Vec::new();
    push_row(&mut rows, "Model", c.name.clone());
    push_row(&mut rows, "Cores", decimal_string(c.cores as u64));
    push_row(&mut rows, "Usage", format_percent(c.usage as u64));
    push_row(&mut rows, "Frequency", decimal_string(c.frequency).concat(" MHz"));
    push_row(&mut rows, "Architecture", c.architecture.clone());
    assert(rows_view(rows@) =~= cpu_rows(*c));
    rows
}

fn memory_table(m: &MemoryInfo) -> (r: Vec<Row>)
    ensures
        rows_view(r@) == memory_rows(*m),
{
    let mut rows: Vec<Row> = Vec::new();
    push_row(&mut rows, "Total", format_bytes(m.total()));
    push_row(&mut rows, "Used", format_bytes(m.used()));
    push_row(&mut rows, "Available", format_bytes(m.available()));
    push_row(&mut rows, "Usage", format_percent(m.usage_percent()));
    assert(rows_view(rows@) =~= memory_rows(*m));
    rows
}

fn battery_table(b: &BatteryInfo) -> (r: Vec<Row>)
    ensures
        rows_view(r@) == battery_rows(*b),
{
    let mut rows: Vec<Row> = Vec::new();
    match &b.data {
        Some(d) => {
            push_row(&mut rows, "State", d.state.clone());
            push_row(&mut rows, "Charge", format_percent(d.percentage as u64));
            let ghost head = rows_view(rows@);
            match &d.time_to_full {
                Some(t) => push_row(&mut rows, "Time to Full", t.clone()),
                None => {},
            }
            assert(rows_view(rows@) =~= head + opt_row("Time to Full"@, opt_text(d.time_to_full)));
            let ghost head = rows_view(rows@);
            match &d.time_to_empty {
                Some(t) => push_row(&mut rows, "Time to Empty", t.clone()),
                None => {},
            }
            assert(rows_view(rows@) =~= head + opt_row("Time to Empty"@, opt_text(d.time_to_empty)));
            push_row(&mut rows, "Health", format_percent(d.health as u64));
            push_row(&mut rows, "Technology", d.technology.clone());
            let ghost head = rows_view(rows@);
            match d.temperature {
                Some(t) => push_row(&mut rows, "Temperature", format_celsius(t)),
                None => {},
            }
            assert(rows_view(rows@) =~= head + opt_row("Temperature"@, opt_celsius(d.temperature)));
        },
        None => {
            let e = match &b.error {
                Some(e) => e.clone(),
                None => String::new(),
            };
            push_row(&mut rows, "Error", e);
        },
    }
    assert(rows_view(rows@) =~= battery_rows(*b));
    rows
}

fn disk_table(d: &DiskRecord) -> (r: Vec<Row>)
    ensures
        rows_view(r@) == disk_rows(*d),
{
    let mut rows: Vec<Row> = Vec::new();
    push_row(&mut rows, "Mount Point", d.mount_point.clone());
    push_row(&mut rows, "Name", d.name.clone());
    push_row(&mut rows, "File System", d.file_system.clone());
    push_row(&mut rows, "Total", format_bytes(d.total_space));
    push_row(&mut rows, "Used", format_bytes(d.used_space));
    push_row(&mut rows, "Available", format_bytes(d.available_space));
    push_row(&mut rows, "Usage", format_percent(d.usage_percent));
    let yes_no = if d.is_removable {
        String::from_str("Yes")
    } else {
        String::from_str("No")
    };
    push_row(&mut rows, "Removable", yes_no);
    assert(rows_view(rows@) =~= disk_rows(*d));
    rows
}

fn network_table(n: &NetworkInterface) -> (r: Vec<Row>)
    ensures
        rows_view(r@) == network_rows(*n),
{
    let mut rows: Vec<Row> = Vec::new();
    push_row(&mut rows, "Interface", n.name.clone());
    push_row(&mut rows, "Received", format_bytes(n.received));
    push_row(&mut rows, "Transmitted", format_bytes(n.transmitted));
    push_row(&mut rows, "Packets RX", decimal_string(n.packets_received));
    push_row(&mut rows, "Packets TX", decimal_string(n.packets_transmitted));
    push_row(&mut rows, "Errors RX", decimal_string(n.errors_received));
    push_row(&mut rows, "Errors TX", decimal_string(n.errors_transmitted));
    assert(rows_view(rows@) =~= network_rows(*n));
    rows
}

fn temperature_table(t: &TemperatureComponent) -> (r: Vec<Row>)
    ensures
        rows_view(r@) == temperature_rows(*t),
{
    let mut rows: Vec<Row> = Vec::new();
    push_row(&mut rows, "Component", t.label.clone());
    push_row(&mut rows, "Temperature", format_celsius(t.temperature));
    let ghost head = rows_view(rows@);
    match t.max {
        Some(v) => push_row(&mut rows, "Max", format_celsius(v)),
        None => {},
    }
    assert(rows_view(rows@) =~= head + opt_row("Max"@, opt_celsius(t.max)));
    let ghost head = rows_view(rows@);
    match t.critical {
        Some(v) => push_row(&mut rows, "Critical", format_celsius(v)),
        None => {},
    }
    assert(rows_view(rows@) =~= head + opt_row("Critical"@, opt_celsius(t.critical)));
    assert(rows_view(rows@) =~= temperature_rows(*t));
    rows
}

fn process_table(p: &ProcessEntry) -> (r: Vec<Row>)
    ensures
        rows_view(r@) == process_rows(*p),
{
    let mut rows: Vec<Row> = Vec::new();
    push_row(&mut rows, "PID", decimal_string(p.pid as u64));
    push_row(&mut rows, "Name", p.name.clone());
    push_row(&mut rows, "CPU", format_percent(p.cpu_usage as u64));
    push_row(&mut rows, "Memory", format_bytes(p.memory_usage));
    push_row(&mut rows, "Disk Read", format_bytes(p.disk_read));
    push_row(&mut rows, "Disk Written", format_bytes(p.disk_write));
    assert(rows_view(rows@) =~= process_rows(*p));
    rows
}

fn process_count_table(p: &ProcessInfo) -> (r: Vec<Row>)
    ensures
        rows_view(r@) == process_count_rows(*p),
{
    let mut rows: Vec<Row> = Vec::new();
    push_row(&mut rows, "Processes", decimal_string(p.total_count as u64));
    push_row(&mut rows, "Shown", decimal_string(p.processes.len() as u64));
    assert(rows_view(rows@) =~= process_count_rows(*p));
    rows
}

fn host_table(e: &HostEntry) -> (r: Vec<Row>)
    ensures
        rows_view(r@) == host_rows(*e),
{
    let mut rows: Vec<Row> = Vec::new();
    push_row(&mut rows, "IP", e.ip.clone());
    push_row(&mut rows, "Hostnames", join_spaced(&e.hostnames));
    assert(rows_view(rows@) =~= host_rows(*e));
    rows
}


/// One sampling pass: each part is present exactly when it was requested.
pub struct Snapshot {
    pub system: SystemInfo,
    pub battery: Option<BatteryInfo>,
    pub disks: Option<DisksInfo>,
    pub network: Option<NetworkInfo>,
    pub temperature: Option<TemperatureInfo>,
    pub processes: Option<ProcessInfo>,
    pub hosts: Option<HostsInfo>,
}

/// The parts of a snapshot are those of the selection and no others; the
/// memory record alone may be missing though selected, where the counters
/// read were inconsistent.
pub open spec fn follows_selection(s: Snapshot, sel: Selection) -> bool {
    &&& (s.system.cpu is Some <==> sel.cpu)
    &&& (s.system.memory is Some ==> sel.memory)
    &&& (s.system.os is Some <==> sel.system)
    &&& (s.battery is Some <==> sel.battery)
    &&& (s.disks is Some <==> sel.disk)
    &&& (s.network is Some <==> sel.network)
    &&& (s.temperature is Some <==> sel.temp)
    &&& (s.processes is Some <==> sel.process)
    &&& (s.hosts is Some <==> sel.hosts)
}

impl Snapshot {
    /// Bundles the collected parts. The CPU and OS records must be present
    /// exactly for the selected subsystems, the memory record only for a
    /// selected one; any other part whose subsystem was not selected is left out.
    pub fn assemble(
        sel: &Selection,
        system: SystemInfo,
        battery: Option<BatteryInfo>,
        disks: Option<DisksInfo>,
        network: Option<NetworkInfo>,
        temperature: Option<TemperatureInfo>,
        processes: Option<ProcessInfo>,
        hosts: Option<HostsInfo>,
    ) -> (r: Snapshot)
        requires
            system.cpu is Some <==> sel.cpu,
            system.memory is Some <==> sel.memory,
            system.os is Some <==> sel.system,
            sel.battery ==> battery is Some,
            sel.disk ==> disks is Some,
            sel.network ==> network is Some,
            sel.temp ==> temperature is Some,
            sel.process ==> processes is Some,
            sel.hosts ==> hosts is Some,
        ensures
            follows_selection(r, *sel),
            r.system == system,
            sel.battery ==> r.battery == battery,
            sel.disk ==> r.disks == disks,
            sel.network ==> r.network == network,
            sel.temp ==> r.temperature == temperature,
            sel.process ==> r.processes == processes,
            sel.hosts ==> r.hosts == hosts,
    {
        Snapshot {
            system,
            battery: if sel.battery { battery } else { None },
            disks: if sel.disk { disks } else { None },
            network: if sel.network { network } else { None },
            temperature: if sel.temp { temperature } else { None },
            processes: if sel.process { processes } else { None },
            hosts: if sel.hosts { hosts } else { None },
        }
    }
}

/// A titled group of key/value tables.
pub struct Section {
    pub title: String,
    pub tables: Vec<Vec<Row>>,
}

/// The contents of key/value tables.
pub type TablesView = Seq<Seq<(Seq<char>, Seq<char>)>>;

/// The views of a list of tables.
pub open spec fn tables_view(v: Seq<Vec<Row>>) -> TablesView {
    v.map_values(|t: Vec<Row>| rows_view(t@))
}

/// The views of a list of sections: title and tables.
pub open spec fn sections_view(v: Seq<Section>) -> Seq<(Seq<char>, TablesView)> {
    v.map_values(|s: Section| (s.title@, tables_view(s.tables@)))
}

/// A section when its part is present.
pub open spec fn opt_section(title: Seq<char>, tables: Option<TablesView>) -> Seq<
    (Seq<char>, TablesView),
> {
    match tables {
        Some(t) => seq![(title, t)],
        None => Seq::empty(),
    }
}

/// The tables of the hosts report: the error, or one table per entry.
pub open spec fn hosts_tables(h: HostsInfo) -> TablesView {
    match h.error {
        Some(e) => seq![seq![("Error"@, e@)]],
        None => h.entries@.map_values(|e: HostEntry| host_rows(e)),
    }
}

/// The sections of a snapshot, in order: system, CPU, memory, battery, disks,
/// network, temperature, processes, hosts. A part
/// that was not requested has no section.
pub open spec fn snapshot_sections(s: Snapshot) -> Seq<(Seq<char>, TablesView)> {
    os_section(s) + cpu_section(s) + memory_section(s) + battery_section(s) + disk_section(s)
        + network_section(s) + temperature_section(s) + process_section(s) + hosts_section(s)
}

/// The OS section of a snapshot, if any.
pub open spec fn os_section(s: Snapshot) -> Seq<(Seq<char>, TablesView)> {
    opt_section(
        "System Information"@,
        match s.system.os {
            Some(o) => Some(seq![os_rows(o)]),
            None => None,
        },
    )
}

/// The CPU section of a snapshot, if any.
pub open spec fn cpu_section(s: Snapshot) -> Seq<(Seq<char>, TablesView)> {
    opt_section(
        "CPU Information"@,
        match s.system.cpu {
            Some(c) => Some(seq![cpu_rows(c)]),
            None => None,
        },
    )
}

/// The memory section of a snapshot, if any.
pub open spec fn memory_section(s: Snapshot) -> Seq<(Seq<char>, TablesView)> {
    opt_section(
        "Memory Information"@,
        match s.system.memory {
            Some(m) => Some(seq![memory_rows(m)]),
            None => None,
        },
    )
}

/// The battery section of a snapshot, if any.
pub open spec fn battery_section(s: Snapshot) -> Seq<(Seq<char>, TablesView)> {
    opt_section(
        "Battery Information"@,
        match s.battery {
            Some(b) => Some(seq![battery_rows(b)]),
            None => None,
        },
    )
}

/// The disk section of a snapshot, if any.
pub open spec fn disk_section(s: Snapshot) -> Seq<(Seq<char>, TablesView)> {
    opt_section(
        "Disk Information"@,
        match s.disks {
            Some(d) => Some(d.disks@.map_values(|x: DiskRecord| disk_rows(x))),
            None => None,
        },
    )
}

/// The network section of a snapshot, if any.
pub open spec fn network_section(s: Snapshot) -> Seq<(Seq<char>, TablesView)> {
    opt_section(
        "Network Information"@,
        match s.network {
            Some(n) => Some(n.interfaces@.map_values(|x: NetworkInterface| network_rows(x))),
            None => None,
        },
    )
}

/// The temperature section of a snapshot, if any: one table per sensor.
pub open spec fn temperature_section(s: Snapshot) -> Seq<(Seq<char>, TablesView)> {
    opt_section(
        "Temperature Information"@,
        match s.temperature {
            Some(t) => Some(t.components@.map_values(|x: TemperatureComponent| temperature_rows(x))),
            None => None,
        },
    )
}

/// The process section of a snapshot, if any: the counts, then one table per process.
pub open spec fn process_section(s: Snapshot) -> Seq<(Seq<char>, TablesView)> {
    opt_section(
        "Process Information"@,
        match s.processes {
            Some(p) => Some(
                seq![process_count_rows(p)] + p.processes@.map_values(
                    |x: ProcessEntry| process_rows(x),
                ),
            ),
            None => None,
        },
    )
}

/// The hosts section of a snapshot, if any.
pub open spec fn hosts_section(s: Snapshot) -> Seq<(Seq<char>, TablesView)> {
    opt_section(
        "Hosts File"@,
        match s.hosts {
            Some(h) => Some(hosts_tables(h)),
            None => None,
        },
    )
}

fn disk_tables(v: &Vec<DiskRecord>) -> (r: Vec<Vec<Row>>)
    ensures
        tables_view(r@) == v@.map_values(|x: DiskRecord| disk_rows(x)),
{
    let mut out: Vec<Vec<Row>> = Vec::new();
    for i in 0..v.len()
        invariant
            tables_view(out@) == v@.take(i as int).map_values(|x: DiskRecord| disk_rows(x)),
    {
        let ghost before = out@;
        out.push(disk_table(&v[i]));
        assert(v@.take(i + 1) =~= v@.take(i as int).push(v@[i as int]));
        assert(tables_view(out@) =~= tables_view(before).push(disk_rows(v@[i as int])));
        assert(tables_view(out@) =~= v@.take(i + 1).map_values(|x: DiskRecord| disk_rows(x)));
    }
    assert(v@.take(v.len() as int) =~= v@);
    out
}

fn network_tables(v: &Vec<NetworkInterface>) -> (r: Vec<Vec<Row>>)
    ensures
        tables_view(r@) == v@.map_values(|x: NetworkInterface| network_rows(x)),
{
    let mut out: Vec<Vec<Row>> = Vec::new();
    for i in 0..v.len()
        invariant
            tables_view(out@) == v@.take(i as int).map_values(
                |x: NetworkInterface| network_rows(x),
            ),
    {
        let ghost before = out@;
        out.push(network_table(&v[i]));
        assert(v@.take(i + 1) =~= v@.take(i as int).push(v@[i as int]));
        assert(tables_view(out@) =~= tables_view(before).push(network_rows(v@[i as int])));
        assert(tables_view(out@) =~= v@.take(i + 1).map_values(
            |x: NetworkInterface| network_rows(x),
        ));
    }
    assert(v@.take(v.len() as int) =~= v@);
    out
}

fn temperature_tables(v: &Vec<TemperatureComponent>) -> (r: Vec<Vec<Row>>)
    ensures
        tables_view(r@) == v@.map_values(|x: TemperatureComponent| temperature_rows(x)),
{
    let mut out: Vec<Vec<Row>> = Vec::new();
    for i in 0..v.len()
        invariant
            tables_view(out@) == v@.take(i as int).map_values(
                |x: TemperatureComponent| temperature_rows(x),
            ),
    {
        let ghost before = out@;
        out.push(temperature_table(&v[i]));
        assert(v@.take(i + 1) =~= v@.take(i as int).push(v@[i as int]));
        assert(tables_view(out@) =~= tables_view(before).push(temperature_rows(v@[i as int])));
        assert(tables_view(out@) =~= v@.take(i + 1).map_values(
            |x: TemperatureComponent| temperature_rows(x),
        ));
    }
    assert(v@.take(v.len() as int) =~= v@);
    out
}

fn process_tables(p: &ProcessInfo) -> (r: Vec<Vec<Row>>)
    ensures
        tables_view(r@) == seq![process_count_rows(*p)] + p.processes@.map_values(
            |x: ProcessEntry| process_rows(x),
        ),
{
    let v = &p.processes;
    let mut out: Vec<Vec<Row>> = Vec::new();
    out.push(process_count_table(p));
    for i in 0..v.len()
        invariant
            v == &p.processes,
            tables_view(out@) == seq![process_count_rows(*p)] + v@.take(i as int).map_values(
                |x: ProcessEntry| process_rows(x),
            ),
    {
        let ghost before = out@;
        out.push(process_table(&v[i]));
        assert(v@.take(i + 1) =~= v@.take(i as int).push(v@[i as int]));
        assert(tables_view(out@) =~= tables_view(before).push(process_rows(v@[i as int])));
        assert(tables_view(out@) =~= seq![process_count_rows(*p)] + v@.take(i + 1).map_values(
            |x: ProcessEntry| process_rows(x),
        ));
    }
    assert(v@.take(v.len() as int) =~= v@);
    out
}

fn hosts_table_list(h: &HostsInfo) -> (r: Vec<Vec<Row>>)
    ensures
        tables_view(r@) == hosts_tables(*h),
{
    let mut out: Vec<Vec<Row>> = Vec::new();
    match &h.error {
        Some(e) => {
            let mut rows: Vec<Row> = Vec::new();
            assert(rows_view(rows@) =~= Seq::empty());
            push_row(&mut rows, "Error", e.clone());
            assert(rows_view(rows@) =~= seq![("Error"@, e@)]);
            out.push(rows);
            assert(tables_view(out@) =~= hosts_tables(*h));
        },
        None => {
            let v = &h.entries;
            for i in 0..v.len()
                invariant
                    v == &h.entries,
                    tables_view(out@) == v@.take(i as int).map_values(|x: HostEntry| host_rows(x)),
            {
                let ghost before = out@;
                out.push(host_table(&v[i]));
                assert(v@.take(i + 1) =~= v@.take(i as int).push(v@[i as int]));
                assert(tables_view(out@) =~= tables_view(before).push(host_rows(v@[i as int])));
                assert(tables_view(out@) =~= v@.take(i + 1).map_values(
                    |x: HostEntry| host_rows(x),
                ));
            }
            assert(v@.take(v.len() as int) =~= v@);
        },
    }
    out
}

fn push_section(out: &mut Vec<Section>, title: &str, tables: Vec<Vec<Row>>)
    ensures
        sections_view(final(out)@) == sections_view(old(out)@).push((title@, tables_view(tables@))),
{
    let ghost before = out@;
    let ghost t = tables_view(tables@);
    out.push(Section { title: title.to_owned(), tables });
    assert(sections_view(out@) =~= sections_view(before).push((title@, t)));
}

fn single(rows: Vec<Row>) -> (r: Vec<Vec<Row>>)
    ensures
        tables_view(r@) == seq![rows_view(rows@)],
{
    let mut out: Vec<Vec<Row>> = Vec::new();
    out.push(rows);
    assert(tables_view(out@) =~= seq![rows_view(rows@)]);
    out
}

fn push_system_sections(out: &mut Vec<Section>, s: &Snapshot)
    ensures
        sections_view(final(out)@) == sections_view(old(out)@) + os_section(*s) + cpu_section(*s)
            + memory_section(*s),
{
    let ghost h0 = sections_view(out@);
    if let Some(o) = &s.system.os {
        push_section(out, "System Information", single(os_table(o)));
    }
    assert(sections_view(out@) =~= h0 + os_section(*s));
    let ghost h1 = sections_view(out@);
    if let Some(c) = &s.system.cpu {
        push_section(out, "CPU Information", single(cpu_table(c)));
    }
    assert(sections_view(out@) =~= h1 + cpu_section(*s));
    let ghost h2 = sections_view(out@);
    if let Some(m) = &s.system.memory {
        push_section(out, "Memory Information", single(memory_table(m)));
    }
    assert(sections_view(out@) =~= h2 + memory_section(*s));
}

fn push_device_sections(out: &mut Vec<Section>, s: &Snapshot)
    ensures
        sections_view(final(out)@) == sections_view(old(out)@) + battery_section(*s)
            + disk_section(*s) + network_section(*s) + temperature_section(*s),
{
    let ghost h0 = sections_view(out@);
    if let Some(b) = &s.battery {
        push_section(out, "Battery Information", single(battery_table(b)));
    }
    assert(sections_view(out@) =~= h0 + battery_section(*s));
    let ghost h1 = sections_view(out@);
    if let Some(d) = &s.disks {
        push_section(out, "Disk Information", disk_tables(&d.disks));
    }
    assert(sections_view(out@) =~= h1 + disk_section(*s));
    let ghost h2 = sections_view(out@);
    if let Some(n) = &s.network {
        push_section(out, "Network Information", network_tables(&n.interfaces));
    }
    assert(sections_view(out@) =~= h2 + network_section(*s));
    let ghost h3 = sections_view(out@);
    if let Some(t) = &s.temperature {
        push_section(out, "Temperature Information", temperature_tables(&t.components));
    }
    assert(sections_view(out@) =~= h3 + temperature_section(*s));
}

fn push_listing_sections(out: &mut Vec<Section>, s: &Snapshot)
    ensures
        sections_view(final(out)@) == sections_view(old(out)@) + process_section(*s)
            + hosts_section(*s),
{
    let ghost h0 = sections_view(out@);
    if let Some(p) = &s.processes {
        push_section(out, "Process Information", process_tables(p));
    }
    assert(sections_view(out@) =~= h0 + process_section(*s));
    let ghost h1 = sections_view(out@);
    if let Some(h) = &s.hosts {
        push_section(out, "Hosts File", hosts_table_list(h));
    }
    assert(sections_view(out@) =~= h1 + hosts_section(*s));
}

/// The titled key/value tables that table mode draws for a snapshot.
pub fn render_sections(s: &Snapshot) -> (r: Vec<Section>)
    ensures
        sections_view(r@) == snapshot_sections(*s),
{
    let mut out: Vec<Section> = Vec::new();
    assert(sections_view(out@) =~= Seq::empty());
    push_system_sections(&mut out, s);
    push_device_sections(&mut out, s);
    push_listing_sections(&mut out, s);
    assert(sections_view(out@) =~= snapshot_sections(*s));
    out
}

} // verus!
