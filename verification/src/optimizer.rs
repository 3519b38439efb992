//! The device-aware copy strategist: a matrix of known device pairs, and a
//! generic formula driven by the slower device's speed.

use vstd::prelude::*;
use crate::copy_engine::CopyOptions;
use crate::device_detector::{DeviceInfo, DeviceType};
use crate::hardware::cpu_count;

verus! {

/// The parameters chosen for one device pair. The throttle is in megabits
/// per second.
#[derive(Debug, Clone, Copy, PartialEq, Eq, Structural)]
pub struct CopyStrategy {
    pub buffer_size: usize,
    pub max_threads: usize,
    pub use_direct_io: bool,
    pub read_ahead: usize,
    pub throttle_mbps: Option<u64>,
}

impl CopyStrategy {
    /// The stock strategy for a machine with `cpus` usable CPUs.
    pub fn default_with_parallelism(cpus: usize) -> (r: Self)
        requires
            cpus <= usize::MAX / 2,
        ensures
            r == default_strategy_spec(cpus as int),
    {
        Self {
            buffer_size: 65536,
            max_threads: cpus * 2,
            use_direct_io: false,
            read_ahead: 4,
            throttle_mbps: None,
        }
    }
}

impl Default for CopyStrategy {
    fn default() -> (r: Self)
        ensures
            r.buffer_size == 65536,
            2 <= r.max_threads,
            r.max_threads % 2 == 0,
            !r.use_direct_io,
            r.read_ahead == 4,
            r.throttle_mbps is None,
    {
        let cpus = cpu_count();
        CopyStrategy::default_with_parallelism(cpus)
    }
}

/// The fall-through strategy: 64 KiB buffer, two threads per CPU, no direct
/// I/O, no throttle.
pub open spec fn default_strategy_spec(cpus: int) -> CopyStrategy {
    CopyStrategy {
        buffer_size: 65536,
        max_threads: (cpus * 2) as usize,
        use_direct_io: false,
        read_ahead: 4,
        throttle_mbps: None,
    }
}

/// The matrix of known high-value pairs. A slow destination gets few threads
/// and a large buffer; a slow link out of a fast source gets a throughput
/// cap; reading a spinning disk gets direct I/O and deep read-ahead. Every
/// other pair falls through to the default strategy.
pub open spec fn optimal_strategy_spec(cpus: int, source: DeviceType, dest: DeviceType) -> CopyStrategy {
    if source is USB3 && dest is NVMeSSD {
        CopyStrategy {
            buffer_size: 262144,
            max_threads: 2,
            use_direct_io: false,
            read_ahead: 4,
            throttle_mbps: None,
        }
    } else if source is NVMeSSD && dest is USB3 {
        CopyStrategy {
            buffer_size: 131072,
            max_threads: 4,
            use_direct_io: false,
            read_ahead: 2,
            throttle_mbps: Some(400u64),
        }
    } else if source is HDD && dest is SataSSD {
        CopyStrategy {
            buffer_size: 65536,
            max_threads: 4,
            use_direct_io: true,
            read_ahead: 8,
            throttle_mbps: None,
        }
    } else {
        default_strategy_spec(cpus)
    }
}

/// The slower of the two devices' estimated speeds, in kilobits per second,
/// or `None` where either device has no estimate.
pub open spec fn slowest_speed_kbps(s: Option<u64>, d: Option<u64>) -> Option<u64> {
    match (s, d) {
        (Some(a), Some(b)) => Some(
            if a <= b {
                a
            } else {
                b
            },
        ),
        _ => None,
    }
}

/// The buffer tier for a link speed: the slower the link, the smaller the
/// buffer, from 16 KiB up to 128 KiB.
pub open spec fn buffer_for_speed(kbps: u64) -> usize {
    if kbps < 50_000 {
        16384
    } else if kbps < 200_000 {
        32768
    } else if kbps < 1_000_000 {
        65536
    } else {
        131072
    }
}

/// The generic formula over `base`: the buffer follows the slower device's
/// speed, and stays at the default where either device has no estimate; an
/// all-NVMe pair gets four threads per CPU, any pair with USB2 is capped at
/// two threads and the smallest buffer, and any pair with a spinning disk at
/// half the CPUs but no fewer than two threads.
pub open spec fn optimized_options_spec(
    cpus: int,
    source_type: DeviceType,
    dest_type: DeviceType,
    source_speed: Option<u64>,
    dest_speed: Option<u64>,
    base: CopyOptions,
) -> CopyOptions {
    let buffered = CopyOptions {
        buffer_size: match slowest_speed_kbps(source_speed, dest_speed) {
            Some(kbps) => buffer_for_speed(kbps),
            None => base.buffer_size,
        },
        ..base
    };
    if source_type is NVMeSSD && dest_type is NVMeSSD {
        CopyOptions { max_threads: (cpus * 4) as usize, ..buffered }
    } else if source_type is USB2 || dest_type is USB2 {
        CopyOptions { max_threads: 2, buffer_size: 16384, ..buffered }
    } else if source_type is HDD || dest_type is HDD {
        CopyOptions {
            max_threads: if cpus / 2 >= 2 {
                (cpus / 2) as usize
            } else {
                2
            },
            ..buffered
        }
    } else {
        buffered
    }
}

/// Chooses copy parameters for a device pair. Holds the machine's usable
/// parallelism, clamped so its small multiples cannot overflow.
pub struct CopyOptimizer {
    pub parallelism: usize,
}

impl CopyOptimizer {
    pub fn new() -> (r: Self)
        ensures
            1 <= r.parallelism <= usize::MAX / 4,
    {
        Self { parallelism: cpu_count() }
    }

    /// The same optimizer with the parallelism given instead of probed.
    pub fn with_parallelism(cpus: usize) -> (r: Self)
        requires
            1 <= cpus <= usize::MAX / 4,
        ensures
            r.parallelism == cpus,
    {
        Self { parallelism: cpus }
    }

    /// The matrix lookup.
    pub fn get_optimal_strategy(&self, source: &DeviceInfo, dest: &DeviceInfo) -> (r: CopyStrategy)
        requires
            self.parallelism <= usize::MAX / 4,
        ensures
            r == optimal_strategy_spec(
                self.parallelism as int,
                source.device_type,
                dest.device_type,
            ),
    {
        match (source.device_type, dest.device_type) {
            (DeviceType::USB3, DeviceType::NVMeSSD) => CopyStrategy {
                buffer_size: 262144,
                max_threads: 2,
                use_direct_io: false,
                read_ahead: 4,
                throttle_mbps: None,
            },
            (DeviceType::NVMeSSD, DeviceType::USB3) => CopyStrategy {
                buffer_size: 131072,
                max_threads: 4,
                use_direct_io: false,
                read_ahead: 2,
                throttle_mbps: Some(400),
            },
            (DeviceType::HDD, DeviceType::SataSSD) => CopyStrategy {
                buffer_size: 65536,
                max_threads: 4,
                use_direct_io: true,
                read_ahead: 8,
                throttle_mbps: None,
            },
            _ => CopyStrategy::default_with_parallelism(self.parallelism),
        }
    }

    /// The generic formula.
    pub fn optimize_parameters(
        &self,
        source: &DeviceInfo,
        dest: &DeviceInfo,
        base_options: &CopyOptions,
    ) -> (r: CopyOptions)
        requires
            self.parallelism <= usize::MAX / 4,
        ensures
            r == optimized_options_spec(
                self.parallelism as int,
                source.device_type,
                dest.device_type,
                source.estimated_speed_kbps,
                dest.estimated_speed_kbps,
                *base_options,
            ),
    {
        let mut optimized = base_options.clone();

        match (source.estimated_speed_kbps, dest.estimated_speed_kbps) {
            (Some(a), Some(b)) => {
                let slowest: u64 = if a <= b {
                    a
                } else {
                    b
                };
                optimized.buffer_size = if slowest < 50_000 {
                    16384
                } else if slowest < 200_000 {
                    32768
                } else if slowest < 1_000_000 {
                    65536
                } else {
                    131072
                };
            }
            _ => {}
        }

        match (source.device_type, dest.device_type) {
            (DeviceType::NVMeSSD, DeviceType::NVMeSSD) => {
                optimized.max_threads = self.parallelism * 4;
            }
            (_, DeviceType::USB2) | (DeviceType::USB2, _) => {
                optimized.max_threads = 2;
                optimized.buffer_size = 16384;
            }
            (DeviceType::HDD, _) | (_, DeviceType::HDD) => {
                let half = self.parallelism / 2;
                optimized.max_threads = if half >= 2 {
                    half
                } else {
                    2
                };
            }
            _ => {}
        }

        optimized
    }
}

/// A fast source feeding a slow NVMe-bound link gets fewer threads than an
/// all-NVMe pair: the formula leaves a `USB3 → NVMe` pair at the base thread
/// count, two per CPU, and raises an NVMe pair to four per CPU.
pub proof fn lemma_usb3_nvme_fewer_threads_formula(
    cpus: int,
    source_speed: Option<u64>,
    dest_speed: Option<u64>,
    base: CopyOptions,
)
    requires
        1 <= cpus <= usize::MAX / 4,
        base.max_threads == cpus * 2,
    ensures
        optimized_options_spec(
            cpus,
            DeviceType::USB3,
            DeviceType::NVMeSSD,
            source_speed,
            dest_speed,
            base,
        ).max_threads < optimized_options_spec(
            cpus,
            DeviceType::NVMeSSD,
            DeviceType::NVMeSSD,
            source_speed,
            dest_speed,
            base,
        ).max_threads,
{
}

/// The same holds of the matrix on any machine with at least two CPUs: the
/// `USB3 → NVMe` entry pins two threads, the NVMe pair falls through to two
/// per CPU.
pub proof fn lemma_usb3_nvme_fewer_threads_matrix(cpus: int)
    requires
        2 <= cpus <= usize::MAX / 4,
    ensures
        optimal_strategy_spec(cpus, DeviceType::USB3, DeviceType::NVMeSSD).max_threads
            < optimal_strategy_spec(cpus, DeviceType::NVMeSSD, DeviceType::NVMeSSD).max_threads,
{
}

/// Any pair that includes USB2 is capped at two threads and gets the
/// smallest buffer tier, whatever the speeds say.
pub proof fn lemma_usb2_capped(
    cpus: int,
    source_type: DeviceType,
    dest_type: DeviceType,
    source_speed: Option<u64>,
    dest_speed: Option<u64>,
    base: CopyOptions,
)
    requires
        source_type is USB2 || dest_type is USB2,
    ensures
        optimized_options_spec(cpus, source_type, dest_type, source_speed, dest_speed, base)
            .max_threads <= 2,
        optimized_options_spec(cpus, source_type, dest_type, source_speed, dest_speed, base)
            .buffer_size == 16384,
        forall|kbps: u64| #[trigger] buffer_for_speed(kbps) >= 16384,
{
}

} // verus!
