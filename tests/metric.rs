use gpu_harvest::metric::{clamp_percentage, GpuData, GpuMetric, FULL_SCALE};

#[test]
fn power_with_zero_limit_reads_zero() {
    let m = GpuMetric::Power { draw_mw: 150_000, limit_mw: Some(0) };
    assert_eq!(m.as_percentage(), 0);
}

#[test]
fn power_without_limit_reads_zero() {
    let m = GpuMetric::Power { draw_mw: 150_000, limit_mw: None };
    assert_eq!(m.as_percentage(), 0);
}

#[test]
fn power_with_limit_is_draw_over_limit() {
    let m = GpuMetric::Power { draw_mw: 150_000, limit_mw: Some(300_000) };
    assert_eq!(m.as_percentage(), 5000);
    let m = GpuMetric::Power { draw_mw: 1, limit_mw: Some(3) };
    assert_eq!(m.as_percentage(), 3333);
    let m = GpuMetric::Power { draw_mw: u32::MAX, limit_mw: Some(1) };
    assert_eq!(m.as_percentage(), u32::MAX as u64 * 10000);
}

#[test]
fn utilization_reads_back_unchanged() {
    for p in [0u32, 1, 4250, 9999, FULL_SCALE] {
        assert_eq!(GpuMetric::Utilization(p).as_percentage(), p as u64);
    }
}

#[test]
fn raw_readings_are_clamped() {
    assert_eq!(clamp_percentage(13750), FULL_SCALE);
    assert_eq!(clamp_percentage(-400), 0);
    assert_eq!(clamp_percentage(4200), 4200);
    assert_eq!(clamp_percentage(i64::MIN), 0);
    assert_eq!(clamp_percentage(i64::MAX), FULL_SCALE);
    assert_eq!(GpuMetric::utilization_from_raw(13750), GpuMetric::Utilization(FULL_SCALE));
    assert_eq!(GpuMetric::utilization_from_raw(-400), GpuMetric::Utilization(0));
}

#[test]
fn power_and_default() {
    assert!(GpuMetric::Power { draw_mw: 1, limit_mw: None }.is_power());
    assert!(!GpuMetric::Utilization(5).is_power());
    assert_eq!(GpuMetric::default(), GpuMetric::Utilization(0));
    let d = GpuData::default();
    assert_eq!(d.name, "");
    assert_eq!(d.metric, GpuMetric::Utilization(0));
}

