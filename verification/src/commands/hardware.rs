//! The command that reports the hardware.

use vstd::prelude::*;

use crate::hardware_detection::HardwareCapabilities;

verus! {

/// The hardware as it is reported.
#[derive(Debug, Clone, Copy)]
pub struct HardwareInfo {
    pub has_gpu: bool,
    pub cpu_cores: usize,
    pub recommended_threads: usize,
}

/// The report of the detected hardware.
pub fn get_hardware_info(caps: HardwareCapabilities) -> (r: HardwareInfo)
    ensures
        r.has_gpu == caps.has_gpu,
        r.cpu_cores == caps.cpu_cores,
        r.recommended_threads == caps.recommended_threads,
{
    HardwareInfo {
        has_gpu: caps.has_gpu,
        cpu_cores: caps.cpu_cores,
        recommended_threads: caps.recommended_threads,
    }
}

} // verus!
