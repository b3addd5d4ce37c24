use gpu_harvest::metric::{GpuData, GpuMetric};
use gpu_harvest::widgets::{decimal_string, divide_round_even, metric_cell_text, GpuWidgetColumn, GpuWidgetState, GpuWidgetTableData};

fn entry(index: usize, metric: GpuMetric) -> GpuWidgetTableData {
    GpuWidgetTableData::Entry { index, name: "GPU".to_string(), metric }
}

#[test]
fn column_headers() {
    assert_eq!(GpuWidgetColumn::Gpu.text(), "GPU");
    assert_eq!(GpuWidgetColumn::Metric.text(), "Metric");
}

#[test]
fn all_row_cells() {
    let all = GpuWidgetTableData::All;
    assert_eq!(all.to_cell_text(&GpuWidgetColumn::Gpu, 8), Some("All".to_string()));
    assert_eq!(all.to_cell_text(&GpuWidgetColumn::Metric, 8), None);
}

#[test]
fn device_column_truncates_below_breakpoint() {
    let e = entry(3, GpuMetric::Utilization(0));
    assert_eq!(e.to_cell_text(&GpuWidgetColumn::Gpu, 4), Some("3".to_string()));
    assert_eq!(e.to_cell_text(&GpuWidgetColumn::Gpu, 5), Some("GPU3".to_string()));
    assert_eq!(entry(12, GpuMetric::Utilization(0)).to_cell_text(&GpuWidgetColumn::Gpu, 9), Some("GPU12".to_string()));
    assert_eq!(e.to_cell_text(&GpuWidgetColumn::Gpu, 0), None);
}

#[test]
fn metric_cells() {
    let power = entry(0, GpuMetric::Power { draw_mw: 120_400, limit_mw: Some(250_000) });
    assert_eq!(power.to_cell_text(&GpuWidgetColumn::Metric, 8), Some("120/250W".to_string()));
    assert_eq!(metric_cell_text(&GpuMetric::Power { draw_mw: 1500, limit_mw: None }), "2W");
    assert_eq!(metric_cell_text(&GpuMetric::Power { draw_mw: 2500, limit_mw: None }), "2W");
    assert_eq!(metric_cell_text(&GpuMetric::Power { draw_mw: 2501, limit_mw: None }), "3W");
    assert_eq!(metric_cell_text(&GpuMetric::Utilization(1234)), "12.3%");
    assert_eq!(metric_cell_text(&GpuMetric::Utilization(1236)), "12.4%");
    assert_eq!(metric_cell_text(&GpuMetric::Utilization(10000)), "100.0%");
    assert_eq!(metric_cell_text(&GpuMetric::Utilization(5)), "0.0%");
}

#[test]
fn rounding_ties_to_even() {
    assert_eq!(divide_round_even(25, 10), 2);
    assert_eq!(divide_round_even(35, 10), 4);
    assert_eq!(divide_round_even(34, 10), 3);
    assert_eq!(divide_round_even(u64::MAX, 1), u64::MAX);
    assert_eq!(divide_round_even(u64::MAX, 2), u64::MAX / 2 + 1);
}

#[test]
fn column_widths_are_fixed() {
    assert_eq!(GpuWidgetTableData::column_widths(), vec![1, 8]);
}

#[test]
fn legend_starts_with_all_row() {
    let mut state = GpuWidgetState::new(1, 60_000, None);
    assert_eq!(state.table_gap, 1);
    assert_eq!(state.columns, vec![(GpuWidgetColumn::Gpu, 40), (GpuWidgetColumn::Metric, 60)]);
    assert!(state.table.is_empty() && !state.is_legend_hidden);
    state.force_data_update();
    assert!(state.force_update_data);
    let data = vec![
        GpuData { name: "A".to_string(), metric: GpuMetric::Utilization(10) },
        GpuData { name: "B".to_string(), metric: GpuMetric::Power { draw_mw: 1, limit_mw: None } },
    ];
    state.set_legend_data(&data);
    assert!(!state.force_update_data);
    assert_eq!(state.current_display_time, 60_000);
    assert_eq!(state.table.len(), 3);
    assert!(matches!(state.table[0], GpuWidgetTableData::All));
    match &state.table[2] {
        GpuWidgetTableData::Entry { index, name, metric } => {
            assert_eq!(*index, 1);
            assert_eq!(name, "B");
            assert_eq!(*metric, GpuMetric::Power { draw_mw: 1, limit_mw: None });
        }
        GpuWidgetTableData::All => panic!("expected a device row"),
    }
    let row = GpuWidgetTableData::from_gpu_data(4, &data[0]);
    assert!(matches!(row, GpuWidgetTableData::Entry { index: 4, .. }));
}

#[test]
fn row_styles_cycle_through_palette() {
    assert_eq!(GpuWidgetTableData::All.style_row_index(4), None);
    assert_eq!(entry(1, GpuMetric::Utilization(0)).style_row_index(4), Some(1));
    assert_eq!(entry(9, GpuMetric::Utilization(0)).style_row_index(4), Some(1));
}

#[test]
fn decimal_digits_of_integers() {
    assert_eq!(decimal_string(0), "0");
    assert_eq!(decimal_string(7), "7");
    assert_eq!(decimal_string(10), "10");
    assert_eq!(decimal_string(1234567890), "1234567890");
    assert_eq!(decimal_string(u64::MAX), u64::MAX.to_string());
}
