use std::cell::Cell;

use gpu_harvest::apple::{
    apple_result, collect_gpu_data, device_reading, get_apple_gpu_vecs, keep_read, key_step, readings_of_services,
    utilization_from_statistics, utilization_key, AcceleratorRegistry, KeyStep, UTILIZATION_KEY_COUNT,
};
use gpu_harvest::harvest::UsedWidgets;
use gpu_harvest::metric::{GpuData, GpuMetric};

#[derive(Clone)]
struct FakeService {
    name: Option<String>,
    properties: bool,
    statistics: Option<Vec<(String, Option<i64>)>>,
}

struct FakeRegistry {
    services: Option<Vec<FakeService>>,
    calls: Cell<u32>,
    lookups: Cell<u32>,
}

impl FakeRegistry {
    fn new(services: Option<Vec<FakeService>>) -> FakeRegistry {
        FakeRegistry { services, calls: Cell::new(0), lookups: Cell::new(0) }
    }
}

impl AcceleratorRegistry for FakeRegistry {
    type Service = FakeService;
    type Properties = FakeService;
    type Statistics = Vec<(String, Option<i64>)>;

    fn matching_services(&self) -> Option<Vec<FakeService>> {
        self.calls.set(self.calls.get() + 1);
        self.services.clone()
    }

    fn service_name(&self, s: &FakeService) -> Option<String> {
        self.calls.set(self.calls.get() + 1);
        s.name.clone()
    }

    fn service_properties(&self, s: &FakeService) -> Option<FakeService> {
        self.calls.set(self.calls.get() + 1);
        if s.properties { Some(s.clone()) } else { None }
    }

    fn performance_statistics(&self, p: &FakeService) -> Option<Vec<(String, Option<i64>)>> {
        self.calls.set(self.calls.get() + 1);
        p.statistics.clone()
    }

    fn statistic(&self, stats: &Vec<(String, Option<i64>)>, key: &str) -> Option<i64> {
        self.calls.set(self.calls.get() + 1);
        self.lookups.set(self.lookups.get() + 1);
        stats.iter().find(|(k, _)| k == key).and_then(|(_, v)| *v)
    }
}

fn service(name: &str, stats: Vec<(&str, Option<i64>)>) -> FakeService {
    FakeService {
        name: Some(name.to_string()),
        properties: true,
        statistics: Some(stats.into_iter().map(|(k, v)| (k.to_string(), v)).collect()),
    }
}

fn gpu_flag() -> UsedWidgets {
    UsedWidgets { use_gpu: true, ..UsedWidgets::default() }
}

#[test]
fn test_collect_gpu_data_does_not_crash() {
    let registry = FakeRegistry::new(None);
    let _ = collect_gpu_data(&registry);
}

#[test]
fn flag_unset_queries_nothing() {
    let registry = FakeRegistry::new(Some(vec![service("Apple M1", vec![("GPU Activity(%)", Some(2000))])]));
    assert!(get_apple_gpu_vecs(&registry, &UsedWidgets::default()).is_none());
    assert_eq!(registry.calls.get(), 0);
}

#[test]
fn no_services_give_none() {
    let registry = FakeRegistry::new(Some(vec![]));
    assert!(get_apple_gpu_vecs(&registry, &gpu_flag()).is_none());
    assert!(apple_result(vec![]).is_none());
    assert!(readings_of_services(&registry, vec![]).is_empty());
    let failed = FakeRegistry::new(None);
    assert!(get_apple_gpu_vecs(&failed, &gpu_flag()).is_none());
}

#[test]
fn first_known_key_wins() {
    let registry = FakeRegistry::new(Some(vec![service(
        "Apple M2",
        vec![("GPU Utilization", Some(9000)), ("GPU Activity(%)", Some(2500)), ("Device Utilization %", None)],
    )]));
    let v = get_apple_gpu_vecs(&registry, &gpu_flag()).unwrap().gpu_data.unwrap();
    assert_eq!(v.len(), 1);
    assert_eq!(v[0].name, "Apple M2");
    assert_eq!(v[0].metric, GpuMetric::Utilization(2500));
    // the first two spellings were tried, the later ones never
    assert_eq!(registry.lookups.get(), 2);
}

#[test]
fn readings_are_clamped() {
    let registry = FakeRegistry::new(Some(vec![
        service("high", vec![("Device Utilization %", Some(13750))]),
        service("low", vec![("gpuCoreUtilization", Some(-400))]),
    ]));
    let v = collect_gpu_data(&registry).unwrap();
    assert_eq!(v[0].metric, GpuMetric::Utilization(10000));
    assert_eq!(v[1].metric, GpuMetric::Utilization(0));
}

#[test]
fn missing_statistics_read_zero_and_unreadable_services_are_skipped() {
    let mut no_stats = service("no stats", vec![]);
    no_stats.statistics = None;
    let unknown_keys = service("unknown", vec![("Other", Some(5000))]);
    let mut nameless = service("x", vec![]);
    nameless.name = None;
    let mut no_props = service("y", vec![]);
    no_props.properties = false;
    let registry = FakeRegistry::new(Some(vec![no_stats, nameless, unknown_keys, no_props]));
    let v = collect_gpu_data(&registry).unwrap();
    assert_eq!(v.len(), 2);
    assert_eq!(v[0].name, "no stats");
    assert_eq!(v[0].metric, GpuMetric::Utilization(0));
    assert_eq!(v[1].name, "unknown");
    assert_eq!(v[1].metric, GpuMetric::Utilization(0));
}

#[test]
fn key_spellings_in_order() {
    let keys: Vec<&str> = (0..UTILIZATION_KEY_COUNT).map(utilization_key).collect();
    assert_eq!(
        keys,
        vec!["Device Utilization %", "GPU Activity(%)", "GPU Core Utilization", "gpuCoreUtilization", "GPU Utilization"]
    );
}

#[test]
fn device_reading_defaults_to_zero() {
    assert_eq!(device_reading("a".to_string(), None).metric, GpuMetric::Utilization(0));
    assert_eq!(device_reading("a".to_string(), Some(4321)).metric, GpuMetric::Utilization(4321));
}

#[test]
fn key_search_steps() {
    assert_eq!(key_step(0, Some(50)), KeyStep::Found(50));
    assert_eq!(key_step(0, None), KeyStep::Next(1));
    assert_eq!(key_step(3, None), KeyStep::Next(4));
    assert_eq!(key_step(4, None), KeyStep::Exhausted);
    assert_eq!(key_step(4, Some(-1)), KeyStep::Found(-1));
}

#[test]
fn first_key_in_list_wins_over_second() {
    let registry = FakeRegistry::new(None);
    let stats = vec![("Device Utilization %".to_string(), Some(5000)), ("GPU Activity(%)".to_string(), Some(7000))];
    assert_eq!(utilization_from_statistics(&registry, &stats), Some(5000));
    assert_eq!(registry.lookups.get(), 1);
}

#[test]
fn no_matching_key_gives_none_after_trying_all() {
    let registry = FakeRegistry::new(None);
    let stats = vec![("Other".to_string(), Some(5000)), ("GPU Utilization".to_string(), None)];
    assert_eq!(utilization_from_statistics(&registry, &stats), None);
    assert_eq!(registry.lookups.get(), 5);
}

#[test]
fn keep_read_keeps_readings_in_order() {
    let a = GpuData { name: "a".to_string(), metric: GpuMetric::Utilization(1) };
    let b = GpuData { name: "b".to_string(), metric: GpuMetric::Utilization(2) };
    let kept = keep_read(vec![None, Some(a), None, Some(b)]);
    assert_eq!(kept.len(), 2);
    assert_eq!(kept[0].name, "a");
    assert_eq!(kept[1].name, "b");
    assert!(keep_read(vec![None, None]).is_empty());
}

#[test]
fn result_holds_readings_when_any() {
    let a = GpuData { name: "a".to_string(), metric: GpuMetric::Utilization(1) };
    let d = apple_result(vec![a]).unwrap();
    let v = d.gpu_data.unwrap();
    assert_eq!(v.len(), 1);
    assert_eq!(v[0].name, "a");
}
