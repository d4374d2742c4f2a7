//! The platform the reporter runs on, resolved once at startup.
use vstd::prelude::*;

verus! {

/// Operating-system family.
#[derive(Clone, Copy, PartialEq, Eq, Structural, Debug)]
pub enum TargetOs {
    Windows,
    Linux,
    MacOs,
    Other,
}

/// Processor architecture.
#[derive(Clone, Copy, PartialEq, Eq, Structural, Debug)]
pub enum TargetArch {
    X86,
    X86_64,
    Aarch64,
    Arm,
    Other,
}

/// The platform: operating system, architecture, and the architecture's name
/// as the toolchain spells it.
pub struct Target {
    pub os: TargetOs,
    pub arch: TargetArch,
    pub arch_name: String,
}

/// The characters of a string, in order.
pub fn chars_of(s: &str) -> (r: Vec<char>)
    ensures
        r@ == s@,
{
    let mut v: Vec<char> = Vec::new();
    for c in it: s.chars()
        invariant
            v@ == it.seq().take(it.index() as int),
    {
        proof {
            assert(v@.push(c) =~= it.seq().take(it.index() + 1));
        }
        v.push(c);
    }
    v
}

/// Whether two strings hold the same characters.
pub fn same_text(a: &str, b: &str) -> (r: bool)
    ensures
        r == (a@ == b@),
{
    let x = chars_of(a);
    let y = chars_of(b);
    if x.len() != y.len() {
        return false;
    }
    let mut i: usize = 0;
    while i < x.len()
        invariant
            x@ == a@,
            y@ == b@,
            x.len() == y.len(),
            i <= x.len(),
            forall|k: int| 0 <= k < i ==> x@[k] == y@[k],
        decreases x.len() - i,
    {
        if x[i] != y[i] {
            return false;
        }
        i = i + 1;
    }
    assert(x@ =~= y@);
    true
}

/// The architecture that a toolchain architecture name stands for.
pub open spec fn arch_of(name: Seq<char>) -> TargetArch {
    if name == "x86"@ {
        TargetArch::X86
    } else if name == "x86_64"@ {
        TargetArch::X86_64
    } else if name == "aarch64"@ {
        TargetArch::Aarch64
    } else if name == "arm"@ {
        TargetArch::Arm
    } else {
        TargetArch::Other
    }
}

/// The operating-system family that a toolchain OS name stands for.
pub open spec fn os_of(name: Seq<char>) -> TargetOs {
    if name == "windows"@ {
        TargetOs::Windows
    } else if name == "linux"@ {
        TargetOs::Linux
    } else if name == "macos"@ {
        TargetOs::MacOs
    } else {
        TargetOs::Other
    }
}

/// Whether battery state can be queried: everywhere but on 32-bit x86 Windows.
pub open spec fn supports_battery(t: Target) -> bool {
    !(t.os == TargetOs::Windows && t.arch == TargetArch::X86)
}

impl Target {
    /// Resolves the platform from the toolchain's OS and architecture names
    /// (`"linux"`, `"x86_64"`, ...).
    pub fn from_names(os: &str, arch: &str) -> (r: Target)
        ensures
            r.os == os_of(os@),
            r.arch == arch_of(arch@),
            r.arch_name@ == arch@,
    {
        let os_kind = if same_text(os, "windows") {
            TargetOs::Windows
        } else if same_text(os, "linux") {
            TargetOs::Linux
        } else if same_text(os, "macos") {
            TargetOs::MacOs
        } else {
            TargetOs::Other
        };
        let arch_kind = if same_text(arch, "x86") {
            TargetArch::X86
        } else if same_text(arch, "x86_64") {
            TargetArch::X86_64
        } else if same_text(arch, "aarch64") {
            TargetArch::Aarch64
        } else if same_text(arch, "arm") {
            TargetArch::Arm
        } else {
            TargetArch::Other
        };
        Target { os: os_kind, arch: arch_kind, arch_name: arch.to_owned() }
    }

    /// Path of the system hosts file.
    pub fn hosts_path(&self) -> (r: &'static str)
        ensures
            self.os == TargetOs::Windows ==> r@ == "C:\\Windows\\System32\\drivers\\etc\\hosts"@,
            self.os != TargetOs::Windows ==> r@ == "/etc/hosts"@,
    {
        if self.os == TargetOs::Windows {
            "C:\\Windows\\System32\\drivers\\etc\\hosts"
        } else {
            "/etc/hosts"
        }
    }

    /// Whether battery state can be queried here.
    pub fn battery_supported(&self) -> (r: bool)
        ensures
            r == supports_battery(*self),
    {
        !(self.os == TargetOs::Windows && self.arch == TargetArch::X86)
    }
}

} // verus!
