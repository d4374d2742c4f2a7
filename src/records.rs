//! Records of the disk, network and temperature collectors.
use vstd::prelude::*;

use crate::system::{percent_hundredths, percent_of};

verus! {

/// One mounted disk; sizes in bytes, `usage_percent` in hundredths of a percent.
pub struct DiskRecord {
    pub mount_point: String,
    pub name: String,
    pub file_system: String,
    pub total_space: u64,
    pub used_space: u64,
    pub available_space: u64,
    pub usage_percent: u64,
    pub is_removable: bool,
}

impl DiskRecord {
    /// A disk record; the used space is derived as `total - available`, and
    /// is zero when a file system reports more available than total space.
    pub fn new(
        mount_point: String,
        name: String,
        file_system: String,
        total_space: u64,
        available_space: u64,
        is_removable: bool,
    ) -> (r: DiskRecord)
        ensures
            r.mount_point@ == mount_point@,
            r.name@ == name@,
            r.file_system@ == file_system@,
            r.total_space == total_space,
            r.available_space == available_space,
            available_space <= total_space ==> r.used_space + r.available_space == r.total_space,
            available_space > total_space ==> r.used_space == 0,
            r.usage_percent == percent_hundredths(r.used_space as nat, total_space as nat),
            r.is_removable == is_removable,
    {
        let used_space = if available_space <= total_space {
            total_space - available_space
        } else {
            0
        };
        DiskRecord {
            mount_point,
            name,
            file_system,
            total_space,
            used_space,
            available_space,
            usage_percent: percent_of(used_space, total_space),
            is_removable,
        }
    }
}

/// The disks that were found.
pub struct DisksInfo {
    pub disks: Vec<DiskRecord>,
}

/// Cumulative counters of one network interface.
pub struct NetworkInterface {
    pub name: String,
    pub received: u64,
    pub transmitted: u64,
    pub packets_received: u64,
    pub packets_transmitted: u64,
    pub errors_received: u64,
    pub errors_transmitted: u64,
}

/// The network interfaces that were found.
pub struct NetworkInfo {
    pub interfaces: Vec<NetworkInterface>,
}

/// One temperature sensor; readings in tenths of a degree Celsius.
pub struct TemperatureComponent {
    pub label: String,
    pub temperature: i32,
    pub max: Option<i32>,
    pub critical: Option<i32>,
}

/// The temperature sensors that were found.
pub struct TemperatureInfo {
    pub components: Vec<TemperatureComponent>,
}

} // verus!
