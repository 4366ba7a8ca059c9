//! The GPU table that the GPU daemon publishes in shared memory and the monitor
//! reads: its records, and what writing and reading it does.

use vstd::prelude::*;
use vstd::slice::slice_subrange;

verus! {

pub const MAX_DEVICE_NAME: usize = 128;

/// Number of GPUs the table has room for.
pub const MAX_GPU_COUNT: usize = 8;

/// The refresh interval, in milliseconds, that a freshly created table holds.
pub const DEFAULT_REFRESH_INTERVAL_MS: u32 = 200;

/// The static fields that a GPU may report; the position of a variant is its bit
/// in `GPUInfoStaticInfo::valid`.
#[derive(Debug, Copy, Clone)]
pub enum GPUInfoStaticInfoValid {
    DeviceNameValid,
    MaxPcieGenValid,
    MaxPcieLinkWidthValid,
    TemperatureShutdownThresholdValid,
    TemperatureSlowdownThresholdValid,
    StaticInfoCount,
}

pub const GPU_INFO_STATIC_INFO_COUNT: usize = 5;

pub const GPU_INFO_STATIC_VALID_BYTES: usize = (GPU_INFO_STATIC_INFO_COUNT + 7) / 8;

#[derive(Debug, Copy, Clone)]
pub struct GPUInfoStaticInfo {
    pub device_name: [i8; MAX_DEVICE_NAME],
    pub max_pcie_gen: u32,
    pub max_pcie_link_width: u32,
    pub temperature_shutdown_threshold: u32,
    pub temperature_slowdown_threshold: u32,
    pub integrated_graphics: u8,
    pub valid: [u8; GPU_INFO_STATIC_VALID_BYTES],
}

/// The dynamic fields that a GPU may report; the position of a variant is its bit
/// in `GPUInfoDynamicInfo::valid`.
#[derive(Debug, Copy, Clone)]
pub enum GPUInfoDynamicInfoValid {
    GpuClockSpeedValid,
    GpuClockSpeedMaxValid,
    MemClockSpeedValid,
    MemClockSpeedMaxValid,
    GpuUtilRateValid,
    MemUtilRateValid,
    EncoderRateValid,
    DecoderRateValid,
    TotalMemoryValid,
    FreeMemoryValid,
    UsedMemoryValid,
    PcieLinkGenValid,
    PcieLinkWidthValid,
    PcieRxValid,
    PcieTxValid,
    FanSpeedValid,
    GpuTempValid,
    PowerDrawValid,
    PowerDrawMaxValid,
    DynamicInfoCount,
}

pub const GPU_INFO_DYNAMIC_INFO_COUNT: usize = 19;

pub const GPU_INFO_DYNAMIC_VALID_BYTES: usize = (GPU_INFO_DYNAMIC_INFO_COUNT + 7) / 8;

#[derive(Debug, Copy, Clone)]
pub struct GPUInfoDynamicInfo {
    /// Device clock speed in MHz
    pub gpu_clock_speed: u32,
    /// Maximum clock speed in MHz
    pub gpu_clock_speed_max: u32,
    /// Memory clock speed in MHz
    pub mem_clock_speed: u32,
    /// Maximum clock speed in MHz
    pub mem_clock_speed_max: u32,
    /// GPU utilization rate in %
    pub gpu_util_rate: u32,
    /// MEM utilization rate in %
    pub mem_util_rate: u32,
    /// Encoder utilization rate in %
    pub encoder_rate: u32,
    /// Decoder utilization rate in %
    pub decoder_rate: u32,
    /// Total memory (bytes)
    pub total_memory: u64,
    /// Unallocated memory (bytes)
    pub free_memory: u64,
    /// Allocated memory (bytes)
    pub used_memory: u64,
    /// PCIe link generation used
    pub pcie_link_gen: u32,
    /// PCIe line width used
    pub pcie_link_width: u32,
    /// PCIe throughput in KB/s
    pub pcie_rx: u32,
    /// PCIe throughput in KB/s
    pub pcie_tx: u32,
    /// Fan speed percentage
    pub fan_speed: u32,
    /// GPU temperature in degrees Celsius
    pub gpu_temp: u32,
    /// Power usage in milliwatts
    pub power_draw: u32,
    /// Max power usage in milliwatts
    pub power_draw_max: u32,
    /// True if encode and decode is shared (Intel)
    pub encode_decode_shared: u8,
    pub valid: [u8; GPU_INFO_DYNAMIC_VALID_BYTES],
}

#[derive(Debug, Copy, Clone)]
pub struct GPUInfo {
    pub static_info: GPUInfoStaticInfo,
    pub dynamic_info: GPUInfoDynamicInfo,
}

/// The table's contents; the lock that guards it lives beside it in the shared
/// region.
pub struct SharedMemoryData {
    pub gpu_count: usize,
    pub gpu_info: [GPUInfo; MAX_GPU_COUNT],
    pub refresh_interval_ms: u32,
    pub stop_daemon: bool,
}

/// The entries `old` after the first entries are replaced by `devices`.
pub open spec fn overwrite_prefix(old: Seq<GPUInfo>, devices: Seq<GPUInfo>) -> Seq<GPUInfo> {
    Seq::new(old.len(), |i: int| if i < devices.len() { devices[i] } else { old[i] })
}

impl SharedMemoryData {
    /// The GPUs that a reader sees: the first `gpu_count` entries.
    pub open spec fn visible_gpus_spec(self) -> Seq<GPUInfo> {
        self.gpu_info@.subrange(0, self.gpu_count as int)
    }

    /// Sets up a table that the caller has just created: no GPUs, and the default
    /// refresh interval.
    pub fn initialize(&mut self)
        ensures
            final(self).gpu_count == 0,
            final(self).refresh_interval_ms == DEFAULT_REFRESH_INTERVAL_MS,
            final(self).gpu_info@ == old(self).gpu_info@,
            final(self).stop_daemon == old(self).stop_daemon,
    {
        self.gpu_count = 0;
        self.refresh_interval_ms = DEFAULT_REFRESH_INTERVAL_MS;
    }

    /// The GPUs that a reader sees.
    pub fn visible_gpus(&self) -> (r: &[GPUInfo])
        requires
            self.gpu_count <= MAX_GPU_COUNT,
        ensures
            r@ == self.visible_gpus_spec(),
    {
        slice_subrange(self.gpu_info.as_slice(), 0, self.gpu_count)
    }

    /// Publishes the GPUs that the daemon found: each device is stored at its
    /// position in the list, and, where there is at least one, the count is set
    /// to `gpu_count`.
    pub fn publish_gpus(&mut self, gpu_count: u32, devices: &[GPUInfo])
        requires
            devices@.len() <= MAX_GPU_COUNT,
        ensures
            devices@.len() > 0 ==> final(self).gpu_count == gpu_count as usize,
            devices@.len() == 0 ==> final(self).gpu_count == old(self).gpu_count,
            final(self).gpu_info@ == overwrite_prefix(old(self).gpu_info@, devices@),
            final(self).refresh_interval_ms == old(self).refresh_interval_ms,
            final(self).stop_daemon == old(self).stop_daemon,
    {
        let mut i: usize = 0;
        while i < devices.len()
            invariant
                i <= devices@.len() <= MAX_GPU_COUNT,
                i > 0 ==> self.gpu_count == gpu_count as usize,
                i == 0 ==> self.gpu_count == old(self).gpu_count,
                self.gpu_info@ == overwrite_prefix(old(self).gpu_info@, devices@.take(i as int)),
                self.refresh_interval_ms == old(self).refresh_interval_ms,
                self.stop_daemon == old(self).stop_daemon,
            decreases devices@.len() - i,
        {
            self.gpu_count = gpu_count as usize;
            self.gpu_info[i] = devices[i];
            proof {
                assert(self.gpu_info@ =~= overwrite_prefix(
                    old(self).gpu_info@,
                    devices@.take(i + 1),
                ));
            }
            i = i + 1;
        }
        proof {
            assert(devices@.take(i as int) =~= devices@);
        }
    }
}

/// What became of the attempt to create the shared region.
pub enum CreateOutcome {
    Created,
    LinkExists,
    Failed,
}

/// What to do next to obtain the shared region.
pub enum OpenStep {
    UseCreated,
    RemoveLinkAndRecreate,
    OpenExisting,
    GiveUp,
}

/// The next step after trying to create the region: a region that another process
/// already links to is opened, or, where `force_new` asks for it, its link is
/// removed and the region created again; any other failure ends the attempt.
pub fn next_open_step(outcome: CreateOutcome, force_new: bool) -> (r: OpenStep)
    ensures
        outcome is Created ==> r is UseCreated,
        outcome is LinkExists && force_new ==> r is RemoveLinkAndRecreate,
        outcome is LinkExists && !force_new ==> r is OpenExisting,
        outcome is Failed ==> r is GiveUp,
{
    match outcome {
        CreateOutcome::Created => OpenStep::UseCreated,
        CreateOutcome::LinkExists => if force_new {
            OpenStep::RemoveLinkAndRecreate
        } else {
            OpenStep::OpenExisting
        },
        CreateOutcome::Failed => OpenStep::GiveUp,
    }
}

/// Law: once the daemon has published a non-empty list of GPUs with a matching
/// count, a reader sees exactly that list, and the entries past it are untouched.
pub proof fn lemma_read_sees_published(
    before: SharedMemoryData,
    after: SharedMemoryData,
    gpu_count: u32,
    devices: Seq<GPUInfo>,
)
    requires
        0 < devices.len() <= MAX_GPU_COUNT,
        gpu_count as int == devices.len(),
        after.gpu_count == gpu_count as usize,
        after.gpu_info@ == overwrite_prefix(before.gpu_info@, devices),
    ensures
        after.visible_gpus_spec() == devices,
        forall|i: int|
            devices.len() <= i < MAX_GPU_COUNT ==> after.gpu_info@[i] == before.gpu_info@[i],
{
    assert(after.visible_gpus_spec() =~= devices);
}

} // verus!
