//! The NVIDIA probe: reads memory, temperature, per-process usage and power
//! of every device the driver reports, querying only the verticals that the
//! caller asks for.

use crate::harvest::{Filter, MemData, TempSensorData, UsedWidgets, filter_keeps};
use crate::merge::{
    UsageEntries, ProcessMemory, ProcessUsageMap, ProcessUtilization, merge_process_usage, merged_usage,
};
pub use crate::metric::{GpuData, GpuMetric};
use vstd::prelude::*;

verus! {

/// Memory of one device, in bytes.
#[derive(Clone, Copy, Debug, PartialEq, Eq, Structural)]
pub struct MemoryReading {
    pub total: u64,
    pub used: u64,
}

/// The queries the probe makes of a GPU driver session. Every query may
/// fail (`None`); the probe degrades per item and never assumes success.
pub trait GpuDriver {
    /// A handle to one device, valid while the session lives.
    type Device;

    /// The number of devices the driver reports.
    fn device_count(&self) -> Option<u32>;

    /// The handle of the device at `index`.
    fn device_by_index(&self, index: u32) -> Option<Self::Device>;

    /// The device's product name.
    fn name(&self, device: &Self::Device) -> Option<String>;

    /// The device's installed and used memory.
    fn memory_info(&self, device: &Self::Device) -> Option<MemoryReading>;

    /// The die temperature, in degrees Celsius.
    fn gpu_temperature(&self, device: &Self::Device) -> Option<u32>;

    /// Per-process engine utilization samples.
    fn process_utilization(&self, device: &Self::Device) -> Option<Vec<ProcessUtilization>>;

    /// Memory of the compute processes running on the device.
    fn compute_processes(&self, device: &Self::Device) -> Option<Vec<ProcessMemory>>;

    /// Memory of the graphics processes, current interface.
    fn graphics_processes(&self, device: &Self::Device) -> Option<Vec<ProcessMemory>>;

    /// Memory of the graphics processes, legacy interface.
    fn legacy_graphics_processes(&self, device: &Self::Device) -> Option<Vec<ProcessMemory>>;

    /// Instantaneous power draw, in milliwatts.
    fn power_usage(&self, device: &Self::Device) -> Option<u32>;

    /// The board's power limit, in milliwatts.
    fn power_management_limit(&self, device: &Self::Device) -> Option<u32>;
}

/// Everything harvested from the NVIDIA driver in one cycle. Each vertical is
/// `None` when it was not asked for or nothing was produced for it.
pub struct GpusData {
    /// Memory per device: name and memory.
    pub memory: Option<Vec<(String, MemData)>>,
    /// Temperature per device.
    pub temperature: Option<Vec<TempSensorData>>,
    /// Installed memory summed over the devices queried for processes, and the
    /// per-process usage of each device that has any.
    pub procs: Option<(u64, Vec<ProcessUsageMap>)>,
    /// Power per device.
    pub gpu_data: Option<Vec<GpuData>>,
}

/// `None` for an empty list, the list itself otherwise.
pub open spec fn present<T>(v: Vec<T>) -> Option<Vec<T>> {
    if v@.len() == 0 {
        None
    } else {
        Some(v)
    }
}

/// What holds of every cycle's result, whatever the driver answered: a
/// vertical is present only when asked for, and never empty; memory entries
/// have nonzero installed memory; temperatures are of devices the filter
/// keeps; process maps are never empty and each is the merge of its device's
/// usage sources; device metrics are power readings.
pub open spec fn well_formed_for(d: GpusData, filter: Option<Filter>, widgets: UsedWidgets) -> bool {
    &&& match d.memory {
        Some(v) => widgets.use_mem && v@.len() > 0 && forall|i: int|
            0 <= i < v@.len() ==> #[trigger] v@[i].1.total_bytes > 0,
        None => true,
    }
    &&& match d.temperature {
        Some(v) => widgets.use_temp && v@.len() > 0 && forall|i: int|
            0 <= i < v@.len() ==> filter_keeps(filter, #[trigger] v@[i].name@),
        None => true,
    }
    &&& match d.procs {
        Some((_, v)) => widgets.use_proc && v@.len() > 0 && forall|i: int|
            0 <= i < v@.len() ==> #[trigger] v@[i]@ != UsageEntries::empty() && is_merge(v@[i]@),
        None => true,
    }
    &&& match d.gpu_data {
        Some(v) => widgets.use_gpu && v@.len() > 0 && forall|i: int|
            0 <= i < v@.len() ==> #[trigger] v@[i].metric is Power,
        None => true,
    }
}

/// `None` for an empty list, the list itself otherwise.
pub fn non_empty<T>(v: Vec<T>) -> (r: Option<Vec<T>>)
    ensures
        r == present(v),
{
    if v.len() == 0 {
        None
    } else {
        Some(v)
    }
}

/// The memory entry of a device: present only when it has installed memory.
pub fn memory_entry(name: String, mem: MemoryReading) -> (r: Option<(String, MemData)>)
    ensures
        mem.total == 0 ==> r is None,
        mem.total > 0 ==> r == Some((name, MemData { total_bytes: mem.total, used_bytes: mem.used })),
{
    if mem.total == 0 {
        None
    } else {
        Some((name, MemData { total_bytes: mem.total, used_bytes: mem.used }))
    }
}

/// The power entry of a device: its draw and, when known, its limit.
pub fn power_entry(name: String, draw_mw: u32, limit_mw: Option<u32>) -> (r: GpuData)
    ensures
        r.name == name,
        r.metric == (GpuMetric::Power { draw_mw, limit_mw }),
{
    GpuData { name, metric: GpuMetric::Power { draw_mw, limit_mw } }
}

/// Whether the caller asks for any vertical of the NVIDIA probe.
pub open spec fn wants_any(widgets: UsedWidgets) -> bool {
    widgets.use_mem || widgets.use_temp || widgets.use_proc || widgets.use_gpu
}

/// Every vertical absent.
pub open spec fn all_absent(d: GpusData) -> bool {
    d.memory is None && d.temperature is None && d.procs is None && d.gpu_data is None
}

/// Harvests the devices of a driver session. Verticals that `widgets` does not
/// ask for are never queried; when it asks for none, nothing is queried at
/// all and the result is `None`. `None` too when the device count cannot be
/// read.
pub fn get_nvidia_vecs<D: GpuDriver>(driver: &D, filter: &Option<Filter>, widgets: &UsedWidgets) -> (r:
    Option<GpusData>)
    ensures
        !wants_any(*widgets) ==> r is None,
        r matches Some(d) ==> well_formed_for(d, *filter, *widgets),
        r matches Some(d) ==> exists|rs: Seq<DeviceReadings>|
            all_fit(rs, *filter, *widgets) && #[trigger] gpus_data_of(d, rs),
{
    if !(widgets.use_mem || widgets.use_temp || widgets.use_proc || widgets.use_gpu) {
        return None;
    }
    let num_gpu = match driver.device_count() {
        Some(n) => n,
        None => return None,
    };
    Some(harvest_devices(driver, num_gpu, filter, widgets))
}

/// What one device answered this cycle. A field is `None` when its query
/// was not made or failed; `temperature` is `Some` exactly when the sensor
/// was queried, and holds `None` when that read failed.
pub struct DeviceReadings {
    pub name: Option<String>,
    pub memory: Option<MemoryReading>,
    pub temperature: Option<Option<u32>>,
    /// The merged process usage and the installed memory, when processes
    /// were asked for.
    pub procs: Option<(ProcessUsageMap, Option<MemoryReading>)>,
    /// Power draw and power limit.
    pub power: Option<(u32, Option<u32>)>,
}

/// The memory entry a device adds: one when it has a name and nonzero
/// installed memory.
pub open spec fn memory_added(r: DeviceReadings) -> Seq<(String, MemData)> {
    match (r.name, r.memory) {
        (Some(name), Some(mem)) => if mem.total > 0 {
            seq![(name, MemData { total_bytes: mem.total, used_bytes: mem.used })]
        } else {
            Seq::empty()
        },
        _ => Seq::empty(),
    }
}

/// The temperature entry a device adds: one whenever its sensor was queried,
/// with `None` for a failed read.
pub open spec fn temperature_added(r: DeviceReadings) -> Seq<TempSensorData> {
    match (r.name, r.temperature) {
        (Some(name), Some(temperature)) => seq![TempSensorData { name, temperature }],
        _ => Seq::empty(),
    }
}

/// The process map a device adds: its merged usage, unless that is empty.
pub open spec fn procs_added(r: DeviceReadings) -> Seq<ProcessUsageMap> {
    match r.procs {
        Some((procs, _)) => if procs@ == UsageEntries::empty() {
            Seq::empty()
        } else {
            seq![procs]
        },
        None => Seq::empty(),
    }
}

/// The installed memory a device adds to the running total (saturating).
pub open spec fn total_after(total: u64, r: DeviceReadings) -> u64 {
    match r.procs {
        Some((_, Some(mem))) => if total as int + mem.total as int > u64::MAX as int {
            u64::MAX
        } else {
            (total + mem.total) as u64
        },
        _ => total,
    }
}

/// The power entry a device adds: one when it has a name and a draw.
pub open spec fn power_added(r: DeviceReadings) -> Seq<GpuData> {
    match (r.name, r.power) {
        (Some(name), Some((draw_mw, limit_mw))) => seq![
            GpuData { name, metric: GpuMetric::Power { draw_mw, limit_mw } },
        ],
        _ => Seq::empty(),
    }
}

/// The verticals being filled during a cycle.
pub struct Verticals {
    pub memory: Vec<(String, MemData)>,
    pub temperature: Vec<TempSensorData>,
    pub procs: Vec<ProcessUsageMap>,
    pub total_mem: u64,
    pub gpu_data: Vec<GpuData>,
}

/// Reads one device, making only the queries that `widgets` asks for. The
/// sensor of a named device is read when temperature is asked for and the
/// filter keeps the name, and the entry is kept even when that read fails.
pub fn read_device<D: GpuDriver>(
    driver: &D,
    device: &D::Device,
    filter: &Option<Filter>,
    widgets: &UsedWidgets,
) -> (r: DeviceReadings)
    ensures
        reading_fits(r, *filter, *widgets),
{
    let name = driver.name(device);
    let mut memory: Option<MemoryReading> = None;
    let mut temperature: Option<Option<u32>> = None;
    if let Some(n) = &name {
        if widgets.use_mem {
            memory = driver.memory_info(device);
        }
        if widgets.use_temp && Filter::optional_should_keep(filter, n) {
            temperature = Some(driver.gpu_temperature(device));
        }
    }
    let procs = if widgets.use_proc {
        let utilization = driver.process_utilization(device);
        let compute = driver.compute_processes(device);
        let graphics = driver.graphics_processes(device);
        let legacy_graphics = driver.legacy_graphics_processes(device);
        let merged = merge_process_usage(&utilization, &compute, &graphics, &legacy_graphics);
        assert(merged_usage(utilization, compute, graphics, legacy_graphics) == merged@);
        Some((merged, driver.memory_info(device)))
    } else {
        None
    };
    let mut power: Option<(u32, Option<u32>)> = None;
    if widgets.use_gpu && name.is_some() {
        if let Some(draw_mw) = driver.power_usage(device) {
            power = Some((draw_mw, driver.power_management_limit(device)));
        }
    }
    DeviceReadings { name, memory, temperature, procs, power }
}

/// Adds one device's readings to the verticals: each vertical gains exactly
/// the entry the readings call for, independently of the others.
pub fn record_device(readings: DeviceReadings, acc: &mut Verticals)
    ensures
        final(acc).memory@ == old(acc).memory@ + memory_added(readings),
        final(acc).temperature@ == old(acc).temperature@ + temperature_added(readings),
        final(acc).procs@ == old(acc).procs@ + procs_added(readings),
        final(acc).total_mem == total_after(old(acc).total_mem, readings),
        final(acc).gpu_data@ == old(acc).gpu_data@ + power_added(readings),
{
    let ghost r = readings;
    let DeviceReadings { name, memory, temperature, procs, power } = readings;
    if let Some(n) = &name {
        if let Some(mem) = memory {
            if let Some(entry) = memory_entry(n.clone(), mem) {
                acc.memory.push(entry);
            }
        }
        if let Some(t) = temperature {
            acc.temperature.push(TempSensorData { name: n.clone(), temperature: t });
        }
    }
    assert(acc.memory@ == old(acc).memory@ + memory_added(r));
    assert(acc.temperature@ == old(acc).temperature@ + temperature_added(r));
    if let Some((merged, mem)) = procs {
        if !merged.is_empty() {
            acc.procs.push(merged);
        }
        if let Some(mem) = mem {
            acc.total_mem = acc.total_mem.saturating_add(mem.total);
        }
    }
    assert(acc.procs@ == old(acc).procs@ + procs_added(r));
    if let Some(n) = name {
        if let Some((draw_mw, limit_mw)) = power {
            acc.gpu_data.push(power_entry(n, draw_mw, limit_mw));
        }
    }
    assert(acc.gpu_data@ == old(acc).gpu_data@ + power_added(r));
}

/// What `read_device` promises of one device's readings: only what was asked
/// for is read, and the sensor of a kept, named device is always queried.
pub open spec fn reading_fits(r: DeviceReadings, filter: Option<Filter>, widgets: UsedWidgets) -> bool {
    &&& r.memory is Some ==> widgets.use_mem && r.name is Some
    &&& r.temperature is Some <==> widgets.use_temp && (r.name matches Some(name) && filter_keeps(
        filter,
        name@,
    ))
    &&& r.procs is Some <==> widgets.use_proc
    &&& r.procs matches Some((m, _)) ==> is_merge(m@)
    &&& r.power is Some ==> widgets.use_gpu && r.name is Some
}

/// Whether a usage map is the merge of some four answers of the usage
/// sources.
pub open spec fn is_merge(m: Map<u32, (u64, u32)>) -> bool {
    exists|
        u: Option<Vec<ProcessUtilization>>,
        c: Option<Vec<ProcessMemory>>,
        g: Option<Vec<ProcessMemory>>,
        l: Option<Vec<ProcessMemory>>,
    | #[trigger] merged_usage(u, c, g, l) == m
}

/// Every reading of a cycle fits the request.
pub open spec fn all_fit(rs: Seq<DeviceReadings>, filter: Option<Filter>, widgets: UsedWidgets) -> bool {
    forall|i: int| 0 <= i < rs.len() ==> reading_fits(#[trigger] rs[i], filter, widgets)
}

/// The memory entries of a cycle's readings, in device order.
pub open spec fn memory_all(rs: Seq<DeviceReadings>) -> Seq<(String, MemData)>
    decreases rs.len(),
{
    if rs.len() == 0 {
        Seq::empty()
    } else {
        memory_all(rs.drop_last()) + memory_added(rs.last())
    }
}

/// The temperature entries of a cycle's readings, in device order.
pub open spec fn temperature_all(rs: Seq<DeviceReadings>) -> Seq<TempSensorData>
    decreases rs.len(),
{
    if rs.len() == 0 {
        Seq::empty()
    } else {
        temperature_all(rs.drop_last()) + temperature_added(rs.last())
    }
}

/// The non-empty process maps of a cycle's readings, in device order.
pub open spec fn procs_all(rs: Seq<DeviceReadings>) -> Seq<ProcessUsageMap>
    decreases rs.len(),
{
    if rs.len() == 0 {
        Seq::empty()
    } else {
        procs_all(rs.drop_last()) + procs_added(rs.last())
    }
}

/// The installed memory summed (saturating) over the devices read for
/// processes.
pub open spec fn total_all(rs: Seq<DeviceReadings>) -> u64
    decreases rs.len(),
{
    if rs.len() == 0 {
        0
    } else {
        total_after(total_all(rs.drop_last()), rs.last())
    }
}

/// The power entries of a cycle's readings, in device order.
pub open spec fn power_all(rs: Seq<DeviceReadings>) -> Seq<GpuData>
    decreases rs.len(),
{
    if rs.len() == 0 {
        Seq::empty()
    } else {
        power_all(rs.drop_last()) + power_added(rs.last())
    }
}

/// A vertical holds exactly the entries `s`: absent when there are none.
pub open spec fn vertical_is<T>(v: Option<Vec<T>>, s: Seq<T>) -> bool {
    match v {
        Some(v) => s.len() > 0 && v@ == s,
        None => s.len() == 0,
    }
}

/// The result of a cycle is exactly what its readings call for.
pub open spec fn gpus_data_of(d: GpusData, rs: Seq<DeviceReadings>) -> bool {
    &&& vertical_is(d.memory, memory_all(rs))
    &&& vertical_is(d.temperature, temperature_all(rs))
    &&& match d.procs {
        Some((total, maps)) => procs_all(rs).len() > 0 && maps@ == procs_all(rs) && total == total_all(rs),
        None => procs_all(rs).len() == 0,
    }
    &&& vertical_is(d.gpu_data, power_all(rs))
}

/// A device whose sensor read fails but whose memory read succeeds keeps its
/// memory entry in the cycle's result, and its temperature entry is there,
/// marked unknown.
pub proof fn lemma_failed_temperature_keeps_memory(rs: Seq<DeviceReadings>, i: int)
    requires
        0 <= i < rs.len(),
        rs[i].name is Some,
        rs[i].memory matches Some(mem) && mem.total > 0,
        rs[i].temperature == Some(None::<u32>),
    ensures
        memory_all(rs).contains(
            (
                rs[i].name.unwrap(),
                MemData { total_bytes: rs[i].memory.unwrap().total, used_bytes: rs[i].memory.unwrap().used },
            ),
        ),
        temperature_all(rs).contains(TempSensorData { name: rs[i].name.unwrap(), temperature: None }),
    decreases rs.len(),
{
    let entry = (
        rs[i].name.unwrap(),
        MemData { total_bytes: rs[i].memory.unwrap().total, used_bytes: rs[i].memory.unwrap().used },
    );
    let temp = TempSensorData { name: rs[i].name.unwrap(), temperature: None };
    let t = rs.drop_last();
    if i == rs.len() - 1 {
        assert(memory_all(rs)[memory_all(t).len() as int] == entry);
        assert(temperature_all(rs)[temperature_all(t).len() as int] == temp);
    } else {
        assert(t[i] == rs[i]);
        lemma_failed_temperature_keeps_memory(t, i);
        let j = choose|j: int| 0 <= j < memory_all(t).len() && memory_all(t)[j] == entry;
        assert(memory_all(rs)[j] == entry);
        let k = choose|k: int| 0 <= k < temperature_all(t).len() && temperature_all(t)[k] == temp;
        assert(temperature_all(rs)[k] == temp);
    }
}

/// Readings that fit the request give verticals of the promised shapes.
pub proof fn lemma_fitting_readings_shapes(rs: Seq<DeviceReadings>, filter: Option<Filter>, widgets: UsedWidgets)
    requires
        all_fit(rs, filter, widgets),
    ensures
        memory_all(rs).len() > 0 ==> widgets.use_mem,
        forall|j: int| 0 <= j < memory_all(rs).len() ==> #[trigger] memory_all(rs)[j].1.total_bytes > 0,
        temperature_all(rs).len() > 0 ==> widgets.use_temp,
        forall|j: int|
            0 <= j < temperature_all(rs).len() ==> filter_keeps(filter, #[trigger] temperature_all(rs)[j].name@),
        procs_all(rs).len() > 0 ==> widgets.use_proc,
        forall|j: int| 0 <= j < procs_all(rs).len() ==> #[trigger] procs_all(rs)[j]@ != UsageEntries::empty(),
        forall|j: int| 0 <= j < procs_all(rs).len() ==> is_merge(#[trigger] procs_all(rs)[j]@),
        power_all(rs).len() > 0 ==> widgets.use_gpu,
        forall|j: int| 0 <= j < power_all(rs).len() ==> #[trigger] power_all(rs)[j].metric is Power,
    decreases rs.len(),
{
    if rs.len() > 0 {
        let t = rs.drop_last();
        assert forall|i: int| 0 <= i < t.len() implies reading_fits(#[trigger] t[i], filter, widgets) by {
            assert(t[i] == rs[i]);
        }
        lemma_fitting_readings_shapes(t, filter, widgets);
        let last = rs.last();
        assert(reading_fits(rs[rs.len() - 1], filter, widgets));
        assert forall|j: int| 0 <= j < memory_all(rs).len() implies #[trigger] memory_all(rs)[j].1.total_bytes > 0 by {
            if j >= memory_all(t).len() {
                assert(memory_all(rs)[j] == memory_added(last)[j - memory_all(t).len()]);
            }
        }
        assert forall|j: int| 0 <= j < temperature_all(rs).len() implies filter_keeps(filter, #[trigger] temperature_all(rs)[j].name@) by {
            if j >= temperature_all(t).len() {
                assert(temperature_all(rs)[j] == temperature_added(last)[j - temperature_all(t).len()]);
            }
        }
        assert forall|j: int| 0 <= j < procs_all(rs).len() implies #[trigger] procs_all(rs)[j]@ != UsageEntries::empty() by {
            if j >= procs_all(t).len() {
                assert(procs_all(rs)[j] == procs_added(last)[j - procs_all(t).len()]);
            }
        }
        assert forall|j: int| 0 <= j < procs_all(rs).len() implies is_merge(#[trigger] procs_all(rs)[j]@) by {
            if j >= procs_all(t).len() {
                assert(procs_all(rs)[j] == procs_added(last)[j - procs_all(t).len()]);
            } else {
                assert(procs_all(rs)[j] == procs_all(t)[j]);
            }
        }
        assert forall|j: int| 0 <= j < power_all(rs).len() implies #[trigger] power_all(rs)[j].metric is Power by {
            if j >= power_all(t).len() {
                assert(power_all(rs)[j] == power_added(last)[j - power_all(t).len()]);
            }
        }
    }
}

/// Packs a cycle's readings, in device order, into the result: each vertical
/// holds exactly the entries the readings call for and is absent when there
/// are none.
pub fn assemble_gpus_data(readings: Vec<DeviceReadings>) -> (r: GpusData)
    ensures
        gpus_data_of(r, readings@),
{
    let ghost all = readings@;
    let mut rest = readings;
    let mut acc = Verticals {
        memory: Vec::new(),
        temperature: Vec::new(),
        procs: Vec::new(),
        total_mem: 0,
        gpu_data: Vec::new(),
    };
    assert(all.subrange(0, 0) =~= Seq::<DeviceReadings>::empty());
    assert(rest@ =~= all.subrange(0, all.len() as int));
    while rest.len() > 0
        invariant
            rest@.len() <= all.len(),
            rest@ == all.subrange(all.len() - rest@.len(), all.len() as int),
            acc.memory@ == memory_all(all.subrange(0, all.len() - rest@.len())),
            acc.temperature@ == temperature_all(all.subrange(0, all.len() - rest@.len())),
            acc.procs@ == procs_all(all.subrange(0, all.len() - rest@.len())),
            acc.total_mem == total_all(all.subrange(0, all.len() - rest@.len())),
            acc.gpu_data@ == power_all(all.subrange(0, all.len() - rest@.len())),
        decreases rest.len(),
    {
        let ghost k = all.len() - rest@.len();
        let reading = rest.remove(0);
        assert(reading == all[k]);
        record_device(reading, &mut acc);
        assert(all.subrange(0, k + 1).drop_last() =~= all.subrange(0, k));
        assert(all.subrange(0, k + 1).last() == all[k]);
        assert(rest@ =~= all.subrange(k + 1, all.len() as int));
    }
    assert(all.subrange(0, all.len() as int) =~= all);
    let Verticals { memory, temperature, procs, total_mem, gpu_data } = acc;
    let procs = if procs.len() == 0 {
        None
    } else {
        Some((total_mem, procs))
    };
    GpusData {
        memory: non_empty(memory),
        temperature: non_empty(temperature),
        procs,
        gpu_data: non_empty(gpu_data),
    }
}

/// Reads the first `num_gpu` devices of a driver session, in order; a device
/// whose handle cannot be had is skipped.
pub fn read_devices<D: GpuDriver>(
    driver: &D,
    num_gpu: u32,
    filter: &Option<Filter>,
    widgets: &UsedWidgets,
) -> (r: Vec<DeviceReadings>)
    ensures
        r@.len() <= num_gpu,
        all_fit(r@, *filter, *widgets),
{
    let mut readings: Vec<DeviceReadings> = Vec::new();
    let mut i: u32 = 0;
    while i < num_gpu
        invariant
            i <= num_gpu,
            readings@.len() <= i,
            all_fit(readings@, *filter, *widgets),
        decreases num_gpu - i,
    {
        if let Some(device) = driver.device_by_index(i) {
            readings.push(read_device(driver, &device, filter, widgets));
        }
        i = i + 1;
    }
    readings
}

/// Harvests the first `num_gpu` devices of a driver session: the result is
/// exactly what the devices' readings call for. A failed query skips or marks
/// that one item, and the other items and devices go on.
pub fn harvest_devices<D: GpuDriver>(
    driver: &D,
    num_gpu: u32,
    filter: &Option<Filter>,
    widgets: &UsedWidgets,
) -> (r: GpusData)
    ensures
        exists|rs: Seq<DeviceReadings>|
            rs.len() <= num_gpu && all_fit(rs, *filter, *widgets) && #[trigger] gpus_data_of(r, rs),
        well_formed_for(r, *filter, *widgets),
        num_gpu == 0 ==> all_absent(r),
{
    let readings = read_devices(driver, num_gpu, filter, widgets);
    let ghost rs = readings@;
    let r = assemble_gpus_data(readings);
    proof {
        lemma_fitting_readings_shapes(rs, *filter, *widgets);
        assert(gpus_data_of(r, rs));
    }
    r
}

} // verus!
