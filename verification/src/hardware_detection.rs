//! What the machine can do, and how many threads a transcription should use.

use vstd::prelude::*;

use crate::text::{same_text, trim};

verus! {

/// What was found out about the machine.
#[derive(Debug, Clone, Copy, PartialEq, Eq, Structural)]
pub struct HardwareCapabilities {
    pub has_gpu: bool,
    pub cpu_cores: usize,
    pub recommended_threads: usize,
}

/// What a look for a graphics processor found.
#[derive(Debug)]
pub enum GpuProbe {
    /// Whether `nvidia-smi` ran with success.
    Windows { nvidia_smi_succeeded: bool },
    /// Whether the NVIDIA driver is loaded, and the vendor of the first card.
    Linux { nvidia_driver: bool, card_vendor: Option<String> },
    MacOs,
}

/// The vendor of AMD cards.
pub const AMD_VENDOR: &'static str = "0x1002";

/// There is a graphics processor. Every current Mac has one.
pub open spec fn finds_gpu(probe: GpuProbe) -> bool {
    match probe {
        GpuProbe::Windows { nvidia_smi_succeeded } => nvidia_smi_succeeded,
        GpuProbe::Linux { nvidia_driver, card_vendor } => nvidia_driver || (card_vendor matches Some(
            vendor,
        ) && crate::text::trimmed(vendor@) == "0x1002"@),
        GpuProbe::MacOs => true,
    }
}

/// Whether a look for a graphics processor found one.
pub fn detect_gpu(probe: &GpuProbe) -> (r: bool)
    ensures
        r == finds_gpu(*probe),
        *probe is MacOs ==> r,
        *probe matches GpuProbe::Windows { nvidia_smi_succeeded } ==> r == nvidia_smi_succeeded,
        *probe matches GpuProbe::Linux { nvidia_driver, card_vendor } ==> (r <==> nvidia_driver || (
        card_vendor is Some && crate::text::trimmed(card_vendor->0@) == "0x1002"@)),
{
    match probe {
        GpuProbe::Windows { nvidia_smi_succeeded } => *nvidia_smi_succeeded,
        GpuProbe::Linux { nvidia_driver, card_vendor } => {
            if *nvidia_driver {
                return true;
            }
            match card_vendor {
                Some(vendor) => same_text(trim(vendor.as_str()), AMD_VENDOR),
                None => false,
            }
        },
        GpuProbe::MacOs => true,
    }
}

/// The number of processor cores: what the system reports, else 4.
pub fn cores_or_default(reported: Option<usize>) -> (r: usize)
    ensures
        r == match reported {
            Some(n) => n,
            None => 4,
        },
{
    match reported {
        Some(n) => n,
        None => 4,
    }
}

/// The number of threads for a transcription: with a graphics processor half of
/// the cores, otherwise three quarters of them but at most 8; never under 2.
pub open spec fn recommended(cpu_cores: int, has_gpu: bool) -> int {
    let threads = if has_gpu {
        cpu_cores / 2
    } else if cpu_cores * 3 / 4 > 8 {
        8
    } else {
        cpu_cores * 3 / 4
    };
    if threads < 2 {
        2
    } else {
        threads
    }
}

/// The number of threads for a transcription.
pub fn calculate_recommended_threads(cpu_cores: usize, has_gpu: bool) -> (r: usize)
    ensures
        r == recommended(cpu_cores as int, has_gpu),
        has_gpu && cpu_cores >= 4 ==> 2 * r <= cpu_cores < 2 * r + 2,
        has_gpu && cpu_cores < 4 ==> r == 2,
        !has_gpu && cpu_cores >= 11 ==> r == 8,
        !has_gpu && 3 <= cpu_cores < 11 ==> 4 * r <= 3 * cpu_cores < 4 * r + 4,
        !has_gpu && cpu_cores < 3 ==> r == 2,
{
    let threads: usize = if has_gpu {
        cpu_cores / 2
    } else if cpu_cores >= 12 {
        // Three quarters of 12 cores and more are over 8.
        8
    } else {
        cpu_cores * 3 / 4
    };
    if threads < 2 {
        2
    } else {
        threads
    }
}

/// The recommendation leaves no machine without two threads, and takes no more
/// than the machine has where it has at least two cores.
pub proof fn recommendations_are_sane(cpu_cores: int, has_gpu: bool)
    requires
        cpu_cores >= 0,
    ensures
        recommended(cpu_cores, has_gpu) >= 2,
        cpu_cores >= 2 ==> recommended(cpu_cores, has_gpu) <= cpu_cores,
        !has_gpu ==> recommended(cpu_cores, has_gpu) <= 8,
{
}

/// The capabilities of a machine.
pub open spec fn capabilities(probe: GpuProbe, reported_cores: Option<usize>) -> HardwareCapabilities {
    let cores = match reported_cores {
        Some(n) => n,
        None => 4,
    };
    HardwareCapabilities {
        has_gpu: finds_gpu(probe),
        cpu_cores: cores,
        recommended_threads: recommended(cores as int, finds_gpu(probe)) as usize,
    }
}

/// The capabilities of a machine, given what was found out about it.
pub fn detect_hardware(probe: &GpuProbe, reported_cores: Option<usize>) -> (r: HardwareCapabilities)
    ensures
        r == capabilities(*probe, reported_cores),
        r.has_gpu == finds_gpu(*probe),
        reported_cores is None ==> r.cpu_cores == 4,
        reported_cores matches Some(n) ==> r.cpu_cores == n,
        r.recommended_threads == recommended(r.cpu_cores as int, r.has_gpu),
{
    let has_gpu: bool = detect_gpu(probe);
    let cpu_cores: usize = cores_or_default(reported_cores);
    let recommended_threads: usize = calculate_recommended_threads(cpu_cores, has_gpu);
    HardwareCapabilities { has_gpu, cpu_cores, recommended_threads }
}

/// The capabilities, once they were detected.
#[derive(Debug)]
pub struct HardwareCache {
    pub detected: Option<HardwareCapabilities>,
}

impl HardwareCache {
    /// Nothing was detected yet.
    pub fn new() -> (r: Self)
        ensures
            r.detected is None,
    {
        HardwareCache { detected: None }
    }

    /// The capabilities: those detected first. `detect` need not be callable
    /// once there are any, so it runs at most once for all calls.
    pub fn get_hardware_capabilities<F: FnOnce() -> HardwareCapabilities>(&mut self, detect: F) -> (r:
        HardwareCapabilities)
        requires
            old(self).detected is None ==> detect.requires(()),
        ensures
            match old(self).detected {
                Some(first) => r == first,
                None => detect.ensures((), r),
            },
            final(self).detected == Some(r),
    {
        match self.detected {
            Some(first) => first,
            None => {
                let caps: HardwareCapabilities = detect();
                self.detected = Some(caps);
                caps
            },
        }
    }
}

/// What a call answers, where a detection would find `found`.
pub open spec fn cached(
    detected: Option<HardwareCapabilities>,
    found: HardwareCapabilities,
) -> HardwareCapabilities {
    match detected {
        Some(first) => first,
        None => found,
    }
}

/// What is detected after calls in which a detection would find `found` each.
pub open spec fn detected_after(
    detected: Option<HardwareCapabilities>,
    found: Seq<HardwareCapabilities>,
) -> Option<HardwareCapabilities>
    decreases found.len(),
{
    if found.len() == 0 {
        detected
    } else {
        Some(cached(detected_after(detected, found.drop_last()), found.last()))
    }
}

/// Every call answers what the first one found, whatever a later detection would
/// find.
pub proof fn the_first_detection_answers_every_call(found: Seq<HardwareCapabilities>, i: int)
    requires
        0 <= i < found.len(),
    ensures
        cached(detected_after(None, found.take(i)), found[i]) == found[0],
        i > 0 ==> detected_after(None, found.take(i)) == Some(found[0]),
    decreases i,
{
    if i > 0 {
        the_first_detection_answers_every_call(found, i - 1);
        assert(found.take(i).drop_last() == found.take(i - 1));
        assert(found.take(i).last() == found[i - 1]);
    } else {
        assert(found.take(0) == Seq::<HardwareCapabilities>::empty());
    }
}

/// With a graphics processor the recommendation is half of the cores, rounded
/// down; without one it is three quarters of them, rounded down, until it
/// reaches 8. It is never under 2.
pub proof fn what_share_of_the_cores_is_recommended(cpu_cores: int, has_gpu: bool)
    requires
        cpu_cores >= 0,
    ensures
        ({
            let n = recommended(cpu_cores, has_gpu);
            &&& has_gpu && cpu_cores >= 4 ==> 2 * n <= cpu_cores < 2 * n + 2
            &&& has_gpu && cpu_cores < 4 ==> n == 2
            &&& !has_gpu && cpu_cores >= 11 ==> n == 8
            &&& !has_gpu && 3 <= cpu_cores < 11 ==> 4 * n <= 3 * cpu_cores < 4 * n + 4
            &&& !has_gpu && cpu_cores < 3 ==> n == 2
        }),
{
}

/// More cores never lower the recommendation.
pub proof fn more_cores_never_lower_the_recommendation(a: int, b: int, has_gpu: bool)
    requires
        0 <= a <= b,
    ensures
        recommended(a, has_gpu) <= recommended(b, has_gpu),
{
}

/// A graphics processor is found on every Mac, on Windows where `nvidia-smi`
/// ran, and on Linux where the NVIDIA driver is loaded or the card is AMD's.
pub proof fn where_a_graphics_processor_is_found(
    ran: bool,
    driver: bool,
    vendor: Option<String>,
)
    ensures
        finds_gpu(GpuProbe::MacOs),
        finds_gpu(GpuProbe::Windows { nvidia_smi_succeeded: ran }) <==> ran,
        finds_gpu(GpuProbe::Linux { nvidia_driver: driver, card_vendor: vendor }) <==> driver || (
        vendor is Some && crate::text::trimmed(vendor->0@) == "0x1002"@),
{
}

} // verus!
