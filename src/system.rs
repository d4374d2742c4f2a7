//! CPU, memory and operating-system records, built from one sampling pass.
use vstd::prelude::*;

use crate::format::round_half_even;
use crate::platform::{Target, TargetArch};
use sysinfo::System;

verus! {

/// Processor record; `usage` is in hundredths of a percent, `frequency` in MHz.
pub struct CpuInfo {
    pub name: String,
    pub cores: usize,
    pub usage: u32,
    pub frequency: u64,
    pub architecture: String,
}

/// Memory record in bytes; the usage is in hundredths of a percent. Used and
/// available memory always add up to the total.
pub struct MemoryInfo {
    total: u64,
    used: u64,
    available: u64,
    usage_percent: u64,
}

/// Operating-system identity; a field that could not be read is "Unknown".
pub struct OsInfo {
    pub name: String,
    pub kernel_version: String,
    pub os_version: String,
    pub hostname: String,
    pub architecture: String,
}

/// The requested parts of the CPU, memory and OS report.
pub struct SystemInfo {
    pub cpu: Option<CpuInfo>,
    pub memory: Option<MemoryInfo>,
    pub os: Option<OsInfo>,
}

/// Processor readings, taken after the settle delay; `usage` in hundredths of a percent.
pub struct CpuSample {
    pub brand: Option<String>,
    pub physical_cores: Option<usize>,
    pub usage: u32,
    pub frequency: Option<u64>,
}

/// Memory readings in bytes.
pub struct MemorySample {
    pub total: u64,
    pub available: u64,
}

/// Operating-system readings; `None` where the query failed.
pub struct OsSample {
    pub name: Option<String>,
    pub kernel_version: Option<String>,
    pub os_version: Option<String>,
    pub hostname: Option<String>,
}

/// The system-information handle of sysinfo, read after its refreshes.
#[verifier::external_type_specification]
#[verifier::external_body]
pub struct ExSystem(System);

/// Relies on sysinfo's `System::total_memory`: the RAM size in bytes.
pub assume_specification[ System::total_memory ](s: &System) -> u64;

/// Relies on sysinfo's `System::available_memory`: the RAM available for use, in bytes.
pub assume_specification[ System::available_memory ](s: &System) -> u64;

impl CpuSample {
    /// The processor readings: the first listed CPU's brand and frequency
    /// (none for an empty list), the physical core count, and the usage
    /// measured over the settle delay. `cpus` holds each CPU's brand and
    /// frequency in MHz, in the order they are listed.
    pub fn from_cpus(cpus: Vec<(String, u64)>, cores: Option<usize>, usage: u32) -> (r: CpuSample)
        ensures
            r.physical_cores == cores,
            r.usage == usage,
            cpus@.len() == 0 ==> r.brand is None && r.frequency is None,
            cpus@.len() > 0 ==> (r.brand matches Some(b) && b@ == cpus@[0].0@ && r.frequency
                == Some(cpus@[0].1)),
    {
        let mut cpus = cpus;
        if cpus.len() == 0 {
            CpuSample { brand: None, physical_cores: cores, usage, frequency: None }
        } else {
            let (brand, frequency) = cpus.swap_remove(0);
            CpuSample { brand: Some(brand), physical_cores: cores, usage, frequency: Some(frequency) }
        }
    }
}

impl MemorySample {
    /// The readings of total and available memory; `None` where they are
    /// inconsistent (more available than in total).
    pub fn checked(total: u64, available: u64) -> (r: Option<MemorySample>)
        ensures
            r is Some <==> available <= total,
            r matches Some(m) ==> m.total == total && m.available == available,
    {
        if available <= total {
            Some(MemorySample { total, available })
        } else {
            None
        }
    }

    /// The memory readings of a refreshed handle; `None` where the counters
    /// are inconsistent (more available than in total).
    pub fn read(sys: &System) -> (r: Option<MemorySample>)
        ensures
            r matches Some(m) ==> m.available <= m.total,
    {
        let total = sys.total_memory();
        let available = sys.available_memory();
        MemorySample::checked(total, available)
    }
}

/// The placeholder for a value that could not be read.
pub open spec fn unknown_text() -> Seq<char> {
    "Unknown"@
}

/// A reading, or the placeholder where it is missing.
pub open spec fn or_unknown(v: Option<String>) -> Seq<char> {
    match v {
        Some(s) => s@,
        None => unknown_text(),
    }
}

/// Share of `part` in `whole` in hundredths of a percent, rounded to the
/// nearest, ties to even; zero for an empty whole.
pub open spec fn percent_hundredths(part: nat, whole: nat) -> nat {
    if whole == 0 {
        0
    } else {
        round_half_even(part * 10000, whole)
    }
}

/// Architecture label of the CPU record.
pub open spec fn cpu_arch_text(t: Target) -> Seq<char> {
    match t.arch {
        TargetArch::X86 => "32-bit (x86)"@,
        TargetArch::X86_64 => "64-bit (x86_64)"@,
        TargetArch::Aarch64 => "64-bit (ARM64)"@,
        TargetArch::Arm => "32-bit (ARM)"@,
        TargetArch::Other => t.arch_name@,
    }
}

/// Architecture label of the OS record.
pub open spec fn os_arch_text(t: Target) -> Seq<char> {
    match t.arch {
        TargetArch::X86 => "32-bit"@,
        TargetArch::X86_64 => "64-bit"@,
        TargetArch::Aarch64 => "64-bit (ARM)"@,
        TargetArch::Arm => "32-bit (ARM)"@,
        TargetArch::Other => t.arch_name@,
    }
}

/// The processor record that the readings give.
pub open spec fn cpu_record(c: CpuInfo, s: CpuSample, t: Target) -> bool {
    &&& c.name@ == or_unknown(s.brand)
    &&& c.cores == match s.physical_cores {
        Some(n) => n,
        None => 0,
    }
    &&& c.usage == s.usage
    &&& c.frequency == match s.frequency {
        Some(f) => f,
        None => 0,
    }
    &&& c.architecture@ == cpu_arch_text(t)
}

/// The memory record that the readings give.
pub open spec fn memory_record(m: MemoryInfo, s: MemorySample) -> bool {
    &&& m.total_spec() == s.total
    &&& m.available_spec() == s.available
    &&& m.used_spec() + m.available_spec() == m.total_spec()
    &&& m.usage_spec() == percent_hundredths(m.used_spec() as nat, m.total_spec() as nat)
}

/// The OS record that the readings give.
pub open spec fn os_record(o: OsInfo, s: OsSample, t: Target) -> bool {
    &&& o.name@ == or_unknown(s.name)
    &&& o.kernel_version@ == or_unknown(s.kernel_version)
    &&& o.os_version@ == or_unknown(s.os_version)
    &&& o.hostname@ == or_unknown(s.hostname)
    &&& o.architecture@ == os_arch_text(t)
}

/// Share of `part` in `whole` in hundredths of a percent.
pub fn percent_of(part: u64, whole: u64) -> (r: u64)
    requires
        part <= whole,
    ensures
        r == percent_hundredths(part as nat, whole as nat),
        r <= 10000,
{
    if whole == 0 {
        return 0;
    }
    let num = part as u128 * 10000;
    let den = whole as u128;
    let q = num / den;
    let rem = num % den;
    assert(q <= 10000 && (q == 10000 ==> rem == 0)) by (nonlinear_arith)
        requires
            num == part * 10000,
            part <= whole,
            den == whole,
            den > 0,
            q == num / den,
            rem == num % den,
    ;
    if rem > den - rem || (rem == den - rem && q % 2 == 1) {
        (q + 1) as u64
    } else {
        q as u64
    }
}

fn text_or_unknown(v: Option<String>) -> (r: String)
    ensures
        r@ == or_unknown(v),
{
    match v {
        Some(s) => s,
        None => String::from_str("Unknown"),
    }
}

impl CpuInfo {
    /// Processor record: the first CPU's brand and frequency ("Unknown" and 0
    /// when no CPU was listed), zero cores when the count is unknown.
    pub fn from_sample(sample: CpuSample, target: &Target) -> (r: CpuInfo)
        ensures
            cpu_record(r, sample, *target),
    {
        let architecture = match target.arch {
            TargetArch::X86 => String::from_str("32-bit (x86)"),
            TargetArch::X86_64 => String::from_str("64-bit (x86_64)"),
            TargetArch::Aarch64 => String::from_str("64-bit (ARM64)"),
            TargetArch::Arm => String::from_str("32-bit (ARM)"),
            TargetArch::Other => target.arch_name.as_str().to_owned(),
        };
        CpuInfo {
            name: text_or_unknown(sample.brand),
            cores: match sample.physical_cores {
                Some(n) => n,
                None => 0,
            },
            usage: sample.usage,
            frequency: match sample.frequency {
                Some(f) => f,
                None => 0,
            },
            architecture,
        }
    }
}

impl MemoryInfo {
    /// Used and available memory make up the total.
    #[verifier::type_invariant]
    spec fn balanced(self) -> bool {
        self.used + self.available == self.total
    }

    /// Total memory.
    pub closed spec fn total_spec(self) -> u64 {
        self.total
    }

    /// Memory in use.
    pub closed spec fn used_spec(self) -> u64 {
        self.used
    }

    /// Memory available for new allocations.
    pub closed spec fn available_spec(self) -> u64 {
        self.available
    }

    /// Share of the total in use, in hundredths of a percent.
    pub closed spec fn usage_spec(self) -> u64 {
        self.usage_percent
    }

    /// Total memory in bytes.
    pub fn total(&self) -> (r: u64)
        ensures
            r == self.total_spec(),
            self.used_spec() + self.available_spec() == self.total_spec(),
    {
        proof {
            use_type_invariant(self);
        }
        self.total
    }

    /// Memory in use, in bytes.
    pub fn used(&self) -> (r: u64)
        ensures
            r == self.used_spec(),
            self.used_spec() + self.available_spec() == self.total_spec(),
    {
        proof {
            use_type_invariant(self);
        }
        self.used
    }

    /// Available memory in bytes.
    pub fn available(&self) -> (r: u64)
        ensures
            r == self.available_spec(),
            self.used_spec() + self.available_spec() == self.total_spec(),
    {
        proof {
            use_type_invariant(self);
        }
        self.available
    }

    /// Share of the total in use, in hundredths of a percent.
    pub fn usage_percent(&self) -> (r: u64)
        ensures
            r == self.usage_spec(),
            self.used_spec() + self.available_spec() == self.total_spec(),
    {
        proof {
            use_type_invariant(self);
        }
        self.usage_percent
    }

    /// Memory record: `used` is derived as `total - available`.
    pub fn from_sample(sample: MemorySample) -> (r: MemoryInfo)
        requires
            sample.available <= sample.total,
        ensures
            memory_record(r, sample),
    {
        let used = sample.total - sample.available;
        MemoryInfo {
            total: sample.total,
            used,
            available: sample.available,
            usage_percent: percent_of(used, sample.total),
        }
    }
}

impl OsInfo {
    /// OS record: each field falls back to "Unknown" on its own.
    pub fn from_sample(sample: OsSample, target: &Target) -> (r: OsInfo)
        ensures
            os_record(r, sample, *target),
    {
        let architecture = match target.arch {
            TargetArch::X86 => String::from_str("32-bit"),
            TargetArch::X86_64 => String::from_str("64-bit"),
            TargetArch::Aarch64 => String::from_str("64-bit (ARM)"),
            TargetArch::Arm => String::from_str("32-bit (ARM)"),
            TargetArch::Other => target.arch_name.as_str().to_owned(),
        };
        OsInfo {
            name: text_or_unknown(sample.name),
            kernel_version: text_or_unknown(sample.kernel_version),
            os_version: text_or_unknown(sample.os_version),
            hostname: text_or_unknown(sample.hostname),
            architecture,
        }
    }
}

impl SystemInfo {
    /// Assembles the requested records: a part is present exactly when its
    /// readings were taken, and memory always balances.
    pub fn new(
        cpu: Option<CpuSample>,
        memory: Option<MemorySample>,
        os: Option<OsSample>,
        target: &Target,
    ) -> (r: SystemInfo)
        requires
            memory matches Some(m) ==> m.available <= m.total,
        ensures
            r.cpu is Some <==> cpu is Some,
            r.memory is Some <==> memory is Some,
            r.os is Some <==> os is Some,
            r.memory matches Some(m) ==> m.used_spec() + m.available_spec() == m.total_spec(),
            r.memory matches Some(m) ==> (memory matches Some(s) && memory_record(m, s)),
            r.cpu matches Some(c) ==> (cpu matches Some(s) && cpu_record(c, s, *target)),
            r.os matches Some(o) ==> (os matches Some(s) && os_record(o, s, *target)),
    {
        let cpu = match cpu {
            Some(s) => Some(CpuInfo::from_sample(s, target)),
            None => None,
        };
        let memory = match memory {
            Some(s) => Some(MemoryInfo::from_sample(s)),
            None => None,
        };
        let os = match os {
            Some(s) => Some(OsInfo::from_sample(s, target)),
            None => None,
        };
        SystemInfo { cpu, memory, os }
    }
}

} // verus!
