//! The macOS probe: reads the utilization of every hardware-accelerator
//! service that the registry enumerates.
//!
//! The registry's service statistics have carried utilization under several
//! key spellings across OS versions; they are tried in a fixed order and the
//! first one that holds a number wins.

use crate::harvest::UsedWidgets;
use crate::metric::{clamp_percentage, clamped, is_normalized};
pub use crate::metric::{GpuData, GpuMetric};
use vstd::prelude::*;

verus! {

/// The queries the probe makes of the hardware registry. Every query may
/// fail (`None`); a native handle that an implementation hands out is
/// released when it is dropped.
pub trait AcceleratorRegistry {
    /// A matched service.
    type Service;
    /// The property set of a service.
    type Properties;
    /// The performance-statistics dictionary within a property set.
    type Statistics;

    /// The services of the hardware-accelerator class, in enumeration order;
    /// `None` when the match criterion cannot be built or the enumeration
    /// cannot start.
    fn matching_services(&self) -> Option<Vec<Self::Service>>;

    /// The service's display name.
    fn service_name(&self, service: &Self::Service) -> Option<String>;

    /// The service's full property set.
    fn service_properties(&self, service: &Self::Service) -> Option<Self::Properties>;

    /// The performance-statistics dictionary of a property set.
    fn performance_statistics(&self, properties: &Self::Properties) -> Option<Self::Statistics>;

    /// The number stored under `key`, in hundredths of a percent; `None` when
    /// the key is missing or does not hold a number.
    fn statistic(&self, statistics: &Self::Statistics, key: &str) -> Option<i64>;
}

/// GPU data collected from Apple systems.
pub struct AppleGpusData {
    /// Utilization per device.
    pub gpu_data: Option<Vec<GpuData>>,
}

/// The number of known spellings of the utilization key.
pub const UTILIZATION_KEY_COUNT: usize = 5;

/// The known spellings of the utilization key, most recent first.
pub open spec fn utilization_key_spelling(index: int) -> Seq<char> {
    if index == 0 {
        "Device Utilization %"@
    } else if index == 1 {
        "GPU Activity(%)"@
    } else if index == 2 {
        "GPU Core Utilization"@
    } else if index == 3 {
        "gpuCoreUtilization"@
    } else {
        "GPU Utilization"@
    }
}

/// The known spellings of the utilization key, most recent first.
pub fn utilization_key(index: usize) -> (r: &'static str)
    requires
        index < UTILIZATION_KEY_COUNT,
    ensures
        r@ == utilization_key_spelling(index as int),
{
    proof {
        reveal_strlit("Device Utilization %");
        reveal_strlit("GPU Activity(%)");
        reveal_strlit("GPU Core Utilization");
        reveal_strlit("gpuCoreUtilization");
        reveal_strlit("GPU Utilization");
    }
    if index == 0 {
        "Device Utilization %"
    } else if index == 1 {
        "GPU Activity(%)"
    } else if index == 2 {
        "GPU Core Utilization"
    } else if index == 3 {
        "gpuCoreUtilization"
    } else {
        "GPU Utilization"
    }
}

/// The utilization a device is recorded with: its reading clamped to
/// `0..=FULL_SCALE`, or zero when it has none.
pub open spec fn recorded_utilization(raw: Option<i64>) -> u32 {
    match raw {
        Some(v) => clamped(v as int) as u32,
        None => 0,
    }
}

/// The reading of a device: its name and its recorded utilization.
pub fn device_reading(name: String, raw: Option<i64>) -> (r: GpuData)
    ensures
        r.name == name,
        r.metric == GpuMetric::Utilization(recorded_utilization(raw)),
        is_normalized(r.metric),
{
    let pct: u32 = match raw {
        Some(v) => clamp_percentage(v),
        None => 0,
    };
    GpuData { name, metric: GpuMetric::Utilization(pct) }
}

/// One step of the search for the utilization key.
#[derive(Clone, Copy, Debug, PartialEq, Eq, Structural)]
pub enum KeyStep {
    /// The key held a number: the search ends with it.
    Found(i64),
    /// The key held none: the search goes on with the key at this index.
    Next(usize),
    /// The last key held none: the search ends without a reading.
    Exhausted,
}

/// Decides the search after the key at `index` was looked up: a number found
/// ends it; otherwise the next key is tried while keys remain.
pub fn key_step(index: usize, found: Option<i64>) -> (r: KeyStep)
    requires
        index < UTILIZATION_KEY_COUNT,
    ensures
        found matches Some(v) ==> r == KeyStep::Found(v),
        found is None && index + 1 < UTILIZATION_KEY_COUNT ==> r == KeyStep::Next((index + 1) as usize),
        found is None && index + 1 >= UTILIZATION_KEY_COUNT ==> r == KeyStep::Exhausted,
{
    match found {
        Some(v) => KeyStep::Found(v),
        None => if index + 1 < UTILIZATION_KEY_COUNT {
            KeyStep::Next(index + 1)
        } else {
            KeyStep::Exhausted
        },
    }
}

/// The outcome of a search whose lookups, one per key in order, came back as
/// `lookups`: the keys were tried in order until the first one that held a
/// number, whose number is the result; `None` only when every key was tried
/// and none held a number.
pub open spec fn search_outcome(lookups: Seq<Option<i64>>, r: Option<i64>) -> bool {
    &&& 1 <= lookups.len() <= UTILIZATION_KEY_COUNT
    &&& forall|j: int| 0 <= j < lookups.len() - 1 ==> (#[trigger] lookups[j]) is None
    &&& r == lookups.last()
    &&& r is None ==> lookups.len() == UTILIZATION_KEY_COUNT
}

/// Looks the utilization keys up in order, following `key_step`: the first
/// key that holds a number wins and the keys after it are not consulted.
pub fn utilization_from_statistics<R: AcceleratorRegistry>(
    registry: &R,
    statistics: &R::Statistics,
) -> (r: Option<i64>)
    ensures
        exists|lookups: Seq<Option<i64>>| #[trigger] search_outcome(lookups, r),
{
    let ghost mut lookups: Seq<Option<i64>> = Seq::empty();
    let mut i: usize = 0;
    loop
        invariant
            i < UTILIZATION_KEY_COUNT,
            lookups.len() == i,
            forall|j: int| 0 <= j < lookups.len() ==> (#[trigger] lookups[j]) is None,
        decreases UTILIZATION_KEY_COUNT - i,
    {
        let found = registry.statistic(statistics, utilization_key(i));
        proof {
            lookups = lookups.push(found);
        }
        match key_step(i, found) {
            KeyStep::Found(v) => {
                assert(search_outcome(lookups, Some(v)));
                return Some(v);
            },
            KeyStep::Next(next) => {
                i = next;
            },
            KeyStep::Exhausted => {
                assert(search_outcome(lookups, None));
                return None;
            },
        }
    }
}

/// The reading of one service; `None` when its name or its property set
/// cannot be read. A service without performance statistics or without a
/// known utilization key reads zero.
pub fn extract_gpu_data_from_service<R: AcceleratorRegistry>(
    registry: &R,
    service: &R::Service,
) -> (r: Option<GpuData>)
    ensures
        r matches Some(d) ==> d.metric is Utilization && is_normalized(d.metric),
{
    let name = registry.service_name(service)?;
    let properties = registry.service_properties(service)?;
    let raw = match registry.performance_statistics(&properties) {
        Some(statistics) => utilization_from_statistics(registry, &statistics),
        None => None,
    };
    Some(device_reading(name, raw))
}

/// Whether every entry is a normalized utilization reading.
pub open spec fn all_utilization(v: Seq<GpuData>) -> bool {
    forall|i: int| 0 <= i < v.len() ==> #[trigger] v[i].metric is Utilization && is_normalized(v[i].metric)
}

/// Whether every reading among the outcomes is a normalized utilization.
pub open spec fn outcomes_normalized(o: Seq<Option<GpuData>>) -> bool {
    forall|i: int| 0 <= i < o.len() ==> (#[trigger] o[i] matches Some(d) ==> d.metric is Utilization
        && is_normalized(d.metric))
}

/// The readings among the outcomes, in order.
pub open spec fn somes(o: Seq<Option<GpuData>>) -> Seq<GpuData>
    decreases o.len(),
{
    if o.len() == 0 {
        Seq::empty()
    } else {
        somes(o.drop_last()) + match o.last() {
            Some(d) => seq![d],
            None => Seq::empty(),
        }
    }
}

/// The readings among the outcomes are no more than the outcomes, and are
/// normalized utilizations when every reading among the outcomes is.
pub proof fn lemma_somes(o: Seq<Option<GpuData>>)
    ensures
        somes(o).len() <= o.len(),
        outcomes_normalized(o) ==> all_utilization(somes(o)),
    decreases o.len(),
{
    if o.len() > 0 {
        let t = o.drop_last();
        assert forall|i: int| 0 <= i < t.len() implies (#[trigger] t[i] == o[i]) by {}
        lemma_somes(t);
        if outcomes_normalized(o) {
            assert(outcomes_normalized(t)) by {
                assert forall|i: int| 0 <= i < t.len() implies (#[trigger] t[i] matches Some(d) ==> d.metric is Utilization
                    && is_normalized(d.metric)) by {
                    assert(t[i] == o[i]);
                }
            }
            assert(o[o.len() - 1] == o.last());
            assert forall|i: int| 0 <= i < somes(o).len() implies #[trigger] somes(o)[i].metric is Utilization
                && is_normalized(somes(o)[i].metric) by {
                if i >= somes(t).len() {
                    assert(somes(o)[i] == o.last().unwrap());
                }
            }
        }
    }
}

/// Keeps the readings among the services' outcomes, in order, dropping the
/// services that could not be read.
pub fn keep_read(outcomes: Vec<Option<GpuData>>) -> (r: Vec<GpuData>)
    ensures
        r@ == somes(outcomes@),
{
    let ghost all = outcomes@;
    let mut rest = outcomes;
    let mut kept: Vec<GpuData> = Vec::new();
    assert(all.subrange(0, 0) =~= Seq::<Option<GpuData>>::empty());
    assert(rest@ =~= all.subrange(0, all.len() as int));
    while rest.len() > 0
        invariant
            rest@.len() <= all.len(),
            rest@ == all.subrange(all.len() - rest@.len(), all.len() as int),
            kept@ == somes(all.subrange(0, all.len() - rest@.len())),
        decreases rest.len(),
    {
        let ghost k = all.len() - rest@.len();
        let outcome = rest.remove(0);
        assert(outcome == all[k]);
        assert(all.subrange(0, k + 1).drop_last() =~= all.subrange(0, k));
        assert(all.subrange(0, k + 1).last() == all[k]);
        if let Some(d) = outcome {
            kept.push(d);
        }
        assert(kept@ =~= somes(all.subrange(0, k + 1)));
        assert(rest@ =~= all.subrange(k + 1, all.len() as int));
    }
    assert(all.subrange(0, all.len() as int) =~= all);
    kept
}

/// Reads the given services in order, each released as soon as it is read,
/// and keeps the readings of those that could be read.
pub fn readings_of_services<R: AcceleratorRegistry>(registry: &R, services: Vec<R::Service>) -> (r: Vec<
    GpuData,
>)
    ensures
        exists|outcomes: Seq<Option<GpuData>>|
            outcomes.len() == services@.len() && outcomes_normalized(outcomes) && r@ == #[trigger] somes(
                outcomes,
            ),
        all_utilization(r@),
        r@.len() <= services@.len(),
{
    let ghost n = services@.len();
    let mut rest = services;
    let mut outcomes: Vec<Option<GpuData>> = Vec::new();
    while rest.len() > 0
        invariant
            outcomes@.len() + rest@.len() == n,
            outcomes_normalized(outcomes@),
        decreases rest.len(),
    {
        let service = rest.remove(0);
        let outcome = extract_gpu_data_from_service(registry, &service);
        outcomes.push(outcome);
    }
    let ghost o = outcomes@;
    proof {
        lemma_somes(o);
    }
    keep_read(outcomes)
}

/// The readings of every matched service, in enumeration order; a service
/// that cannot be read is skipped. `None` when enumeration fails.
pub fn collect_gpu_data<R: AcceleratorRegistry>(registry: &R) -> (r: Option<Vec<GpuData>>)
    ensures
        r matches Some(v) ==> all_utilization(v@) && exists|outcomes: Seq<Option<GpuData>>|
            outcomes_normalized(outcomes) && v@ == #[trigger] somes(outcomes),
{
    let services = registry.matching_services()?;
    Some(readings_of_services(registry, services))
}

/// The probe's result for the readings collected: `None` exactly when there
/// are none, and otherwise those readings.
pub fn apple_result(readings: Vec<GpuData>) -> (r: Option<AppleGpusData>)
    ensures
        readings@.len() == 0 <==> r is None,
        r matches Some(d) ==> d.gpu_data == Some(readings),
{
    if readings.len() == 0 {
        None
    } else {
        Some(AppleGpusData { gpu_data: Some(readings) })
    }
}

/// Harvests the accelerators of the registry. Nothing is queried unless
/// `widgets` asks for device metrics; the result is `None` then, and when
/// enumeration failed or no device could be read; otherwise it holds the
/// readings of the devices that could be read, in order.
pub fn get_apple_gpu_vecs<R: AcceleratorRegistry>(registry: &R, widgets: &UsedWidgets) -> (r: Option<
    AppleGpusData,
>)
    ensures
        !widgets.use_gpu ==> r is None,
        r matches Some(d) ==> d.gpu_data matches Some(v) && v@.len() > 0 && all_utilization(v@) && exists|
            outcomes: Seq<Option<GpuData>>,
        | outcomes_normalized(outcomes) && v@ == #[trigger] somes(outcomes),
{
    if !widgets.use_gpu {
        return None;
    }
    match collect_gpu_data(registry) {
        Some(readings) => apple_result(readings),
        None => None,
    }
}

} // verus!
