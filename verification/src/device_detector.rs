//! What the engine knows about a storage device. Probing the hardware is the
//! caller's business; the engine only consumes these plain values, and falls
//! back to a static speed table where no live measurement exists.

use vstd::prelude::*;

verus! {

/// The kinds of device the optimizer distinguishes.
#[derive(Debug, Clone, Copy, PartialEq, Eq, Structural)]
pub enum DeviceType {
    Unknown,
    NVMeSSD,
    SataSSD,
    HDD,
    USB3,
    USB2,
    USB1,
    SDCard,
    RAMDisk,
    Optical,
}

/// The expected throughput of a device kind, in kilobits per second, or
/// `None` where no estimate exists.
pub open spec fn expected_speed_kbps(t: DeviceType) -> Option<u64> {
    match t {
        DeviceType::NVMeSSD => Some(3_500_000u64),
        DeviceType::SataSSD => Some(550_000u64),
        DeviceType::HDD => Some(120_000u64),
        DeviceType::USB3 => Some(400_000u64),
        DeviceType::USB2 => Some(40_000u64),
        DeviceType::USB1 => Some(1_500u64),
        DeviceType::SDCard => Some(90_000u64),
        DeviceType::RAMDisk => Some(6_000_000u64),
        DeviceType::Optical => Some(22_000u64),
        DeviceType::Unknown => None,
    }
}

/// One device, as far as the engine cares. Speeds are in kilobits per second.
pub struct DeviceInfo {
    pub path: String,
    pub device_type: DeviceType,
    pub mount_point: Option<String>,
    pub filesystem: Option<String>,
    pub block_size: u64,
    pub total_space: u64,
    pub available_space: u64,
    pub is_removable: bool,
    pub is_read_only: bool,
    pub estimated_speed_kbps: Option<u64>,
}

/// Keeps the devices seen so far and answers speed estimates from the static
/// table.
pub struct DeviceMonitor {
    pub known_devices: Vec<DeviceInfo>,
}

impl DeviceMonitor {
    pub fn new() -> (r: Self)
        ensures
            r.known_devices@.len() == 0,
    {
        Self { known_devices: Vec::new() }
    }

    /// The static estimate for a device kind.
    pub fn estimate_speed(&self, device_type: &DeviceType) -> (r: Option<u64>)
        ensures
            r == expected_speed_kbps(*device_type),
    {
        match device_type {
            DeviceType::NVMeSSD => Some(3_500_000),
            DeviceType::SataSSD => Some(550_000),
            DeviceType::HDD => Some(120_000),
            DeviceType::USB3 => Some(400_000),
            DeviceType::USB2 => Some(40_000),
            DeviceType::USB1 => Some(1_500),
            DeviceType::SDCard => Some(90_000),
            DeviceType::RAMDisk => Some(6_000_000),
            DeviceType::Optical => Some(22_000),
            DeviceType::Unknown => None,
        }
    }
}

} // verus!
