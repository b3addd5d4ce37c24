//! The NVML driver session as a `GpuDriver`. Each query is one call into
//! `nvml-wrapper`, whose results depend on the hardware: nothing is promised
//! of them, and the probe is proved for every answer.

use crate::merge::{ProcessMemory, ProcessUtilization};
use crate::nvidia::{GpuDriver, MemoryReading};
use nvml_wrapper::enum_wrappers::device::TemperatureSensor;
use nvml_wrapper::enums::device::UsedGpuMemory;
use nvml_wrapper::{Device, Nvml};
use vstd::prelude::*;

verus! {

#[verifier::external_type_specification]
#[verifier::external_body]
pub struct ExNvml(Nvml);

#[verifier::external_type_specification]
#[verifier::external_body]
pub struct ExDevice<'nvml>(Device<'nvml>);

/// A driver session that an `Nvml` handle backs.
pub struct NvmlDriver<'nvml> {
    pub nvml: &'nvml Nvml,
}

impl<'nvml> GpuDriver for NvmlDriver<'nvml> {
    type Device = Device<'nvml>;

    fn device_count(&self) -> Option<u32> {
        nvml_device_count(self.nvml)
    }

    fn device_by_index(&self, index: u32) -> Option<Device<'nvml>> {
        nvml_device_by_index(self.nvml, index)
    }

    fn name(&self, device: &Device<'nvml>) -> Option<String> {
        nvml_name(device)
    }

    fn memory_info(&self, device: &Device<'nvml>) -> Option<MemoryReading> {
        nvml_memory_info(device)
    }

    fn gpu_temperature(&self, device: &Device<'nvml>) -> Option<u32> {
        nvml_gpu_temperature(device)
    }

    fn process_utilization(&self, device: &Device<'nvml>) -> Option<Vec<ProcessUtilization>> {
        nvml_process_utilization(device)
    }

    fn compute_processes(&self, device: &Device<'nvml>) -> Option<Vec<ProcessMemory>> {
        nvml_compute_processes(device)
    }

    fn graphics_processes(&self, device: &Device<'nvml>) -> Option<Vec<ProcessMemory>> {
        nvml_graphics_processes(device)
    }

    fn legacy_graphics_processes(&self, device: &Device<'nvml>) -> Option<Vec<ProcessMemory>> {
        nvml_legacy_graphics_processes(device)
    }

    fn power_usage(&self, device: &Device<'nvml>) -> Option<u32> {
        nvml_power_usage(device)
    }

    fn power_management_limit(&self, device: &Device<'nvml>) -> Option<u32> {
        nvml_power_management_limit(device)
    }
}

/// Relies on `Nvml::device_count`: the number of devices.
#[verifier::external_body]
fn nvml_device_count<'a>(nvml: &'a Nvml) -> Option<u32> {
    nvml.device_count().ok()
}

/// Relies on `Nvml::device_by_index`: a handle to the device at `index`.
#[verifier::external_body]
fn nvml_device_by_index<'a>(nvml: &'a Nvml, index: u32) -> Option<Device<'a>> {
    nvml.device_by_index(index).ok()
}

/// Relies on `Device::name`: the product name.
#[verifier::external_body]
fn nvml_name<'a>(device: &Device<'a>) -> Option<String> {
    device.name().ok()
}

/// Relies on `Device::memory_info`: total and used memory in bytes.
#[verifier::external_body]
fn nvml_memory_info<'a>(device: &Device<'a>) -> Option<MemoryReading> {
    device.memory_info().ok().map(|m| MemoryReading { total: m.total, used: m.used })
}

/// Relies on `Device::temperature` for the die sensor, in degrees Celsius.
#[verifier::external_body]
fn nvml_gpu_temperature<'a>(device: &Device<'a>) -> Option<u32> {
    device.temperature(TemperatureSensor::Gpu).ok()
}

/// Relies on `Device::process_utilization_stats` over every sample the
/// driver still holds: per-process engine utilization.
#[verifier::external_body]
fn nvml_process_utilization<'a>(device: &Device<'a>) -> Option<Vec<ProcessUtilization>> {
    device.process_utilization_stats(None).ok().map(
        |samples| samples.into_iter().map(|s| ProcessUtilization {
            pid: s.pid,
            sm_util: s.sm_util,
            enc_util: s.enc_util,
            dec_util: s.dec_util,
        }).collect(),
    )
}

/// Relies on `Device::running_compute_processes`: compute processes and
/// their memory.
#[verifier::external_body]
fn nvml_compute_processes<'a>(device: &Device<'a>) -> Option<Vec<ProcessMemory>> {
    device.running_compute_processes().ok().map(
        |procs| procs.into_iter().map(|p| ProcessMemory {
            pid: p.pid,
            used_bytes: match p.used_gpu_memory {
                UsedGpuMemory::Used(bytes) => Some(bytes),
                UsedGpuMemory::Unavailable => None,
            },
        }).collect(),
    )
}

/// Relies on `Device::running_graphics_processes_v2`: graphics processes
/// and their memory.
#[verifier::external_body]
fn nvml_graphics_processes<'a>(device: &Device<'a>) -> Option<Vec<ProcessMemory>> {
    device.running_graphics_processes_v2().ok().map(
        |procs| procs.into_iter().map(|p| ProcessMemory {
            pid: p.pid,
            used_bytes: match p.used_gpu_memory {
                UsedGpuMemory::Used(bytes) => Some(bytes),
                UsedGpuMemory::Unavailable => None,
            },
        }).collect(),
    )
}

/// Relies on `Device::running_graphics_processes`: graphics processes and
/// their memory, through the legacy interface.
#[verifier::external_body]
fn nvml_legacy_graphics_processes<'a>(device: &Device<'a>) -> Option<Vec<ProcessMemory>> {
    device.running_graphics_processes().ok().map(
        |procs| procs.into_iter().map(|p| ProcessMemory {
            pid: p.pid,
            used_bytes: match p.used_gpu_memory {
                UsedGpuMemory::Used(bytes) => Some(bytes),
                UsedGpuMemory::Unavailable => None,
            },
        }).collect(),
    )
}

/// Relies on `Device::power_usage`: the draw in milliwatts.
#[verifier::external_body]
fn nvml_power_usage<'a>(device: &Device<'a>) -> Option<u32> {
    device.power_usage().ok()
}

/// Relies on `Device::power_management_limit`: the limit in milliwatts.
#[verifier::external_body]
fn nvml_power_management_limit<'a>(device: &Device<'a>) -> Option<u32> {
    device.power_management_limit().ok()
}

} // verus!
