//! The GPU widget's legend: its columns, its rows (an "All" row, then one row
//! per device) and the text of each cell.

use crate::metric::{GpuData, GpuMetric};
use std::time::Instant;
use vstd::prelude::*;
use vstd::string::StringExecFns;

verus! {

#[verifier::external_type_specification]
#[verifier::external_body]
pub struct ExInstant(Instant);

/// Below this width the device column shows the bare index.
pub const GPU_TRUNCATE_BREAKPOINT: u16 = 5;

/// Column types for the GPU legend table.
#[derive(Clone, Copy, Debug, PartialEq, Eq, Structural)]
pub enum GpuWidgetColumn {
    Gpu,
    /// Shows either power (W) or utilization (%) depending on the data.
    Metric,
}

impl GpuWidgetColumn {
    /// The column's header.
    pub fn text(&self) -> (r: &'static str)
        ensures
            *self is Gpu ==> r@ == "GPU"@,
            *self is Metric ==> r@ == "Metric"@,
    {
        proof {
            reveal_strlit("GPU");
            reveal_strlit("Metric");
        }
        match self {
            GpuWidgetColumn::Gpu => "GPU",
            GpuWidgetColumn::Metric => "Metric",
        }
    }
}

/// A row of the GPU legend table.
#[derive(Clone, Debug)]
pub enum GpuWidgetTableData {
    All,
    Entry { index: usize, name: String, metric: GpuMetric },
}

/// The decimal digits of `n`, most significant first.
pub open spec fn decimal_digits(n: nat) -> Seq<char>
    decreases n,
{
    if n < 10 {
        seq![digit_char(n)]
    } else {
        decimal_digits(n / 10) + seq![digit_char(n % 10)]
    }
}

/// The character of a decimal digit.
pub open spec fn digit_char(d: nat) -> char {
    if d == 0 { '0' } else if d == 1 { '1' } else if d == 2 { '2' } else if d == 3 { '3' }
    else if d == 4 { '4' } else if d == 5 { '5' } else if d == 6 { '6' } else if d == 7 { '7' }
    else if d == 8 { '8' } else { '9' }
}

/// `n / d` rounded to the nearest integer, ties to the even one.
pub open spec fn div_round_even(n: nat, d: nat) -> nat
    recommends
        d > 0,
{
    let q = n / d;
    let twice_rem = 2 * (n % d);
    if twice_rem > d {
        q + 1
    } else if twice_rem < d {
        q
    } else if q % 2 == 0 {
        q
    } else {
        q + 1
    }
}

/// The text of a power reading: whole watts of draw, then of the limit when
/// there is one, then `W`.
pub open spec fn power_text(draw_mw: u32, limit_mw: Option<u32>) -> Seq<char> {
    let draw = decimal_digits(div_round_even(draw_mw as nat, 1000));
    match limit_mw {
        Some(limit) => draw + "/"@ + decimal_digits(div_round_even(limit as nat, 1000)) + "W"@,
        None => draw + "W"@,
    }
}

/// The text of a utilization reading in hundredths of a percent: the
/// percentage to one decimal, then `%`.
pub open spec fn utilization_text(pct: u32) -> Seq<char> {
    let tenths = div_round_even(pct as nat, 10);
    decimal_digits(tenths / 10) + "."@ + decimal_digits(tenths % 10) + "%"@
}

/// The text of a metric.
pub open spec fn metric_text(m: GpuMetric) -> Seq<char> {
    match m {
        GpuMetric::Power { draw_mw, limit_mw } => power_text(draw_mw, limit_mw),
        GpuMetric::Utilization(pct) => utilization_text(pct),
    }
}

/// The text of a cell, or `None` for an empty cell.
pub open spec fn cell_text(row: GpuWidgetTableData, column: GpuWidgetColumn, width: u16) -> Option<
    Seq<char>,
> {
    match row {
        GpuWidgetTableData::All => match column {
            GpuWidgetColumn::Gpu => Some("All"@),
            GpuWidgetColumn::Metric => None,
        },
        GpuWidgetTableData::Entry { index, name, metric } => if width == 0 {
            None
        } else {
            match column {
                GpuWidgetColumn::Gpu => if width < GPU_TRUNCATE_BREAKPOINT {
                    Some(decimal_digits(index as nat))
                } else {
                    Some("GPU"@ + decimal_digits(index as nat))
                },
                GpuWidgetColumn::Metric => Some(metric_text(metric)),
            }
        },
    }
}

/// The one-character text of a decimal digit.
fn digit_str(d: u64) -> (r: &'static str)
    requires
        d < 10,
    ensures
        r@ == seq![digit_char(d as nat)],
{
    proof {
        reveal_strlit("0");
        reveal_strlit("1");
        reveal_strlit("2");
        reveal_strlit("3");
        reveal_strlit("4");
        reveal_strlit("5");
        reveal_strlit("6");
        reveal_strlit("7");
        reveal_strlit("8");
        reveal_strlit("9");
    }
    if d == 0 {
        "0"
    } else if d == 1 {
        "1"
    } else if d == 2 {
        "2"
    } else if d == 3 {
        "3"
    } else if d == 4 {
        "4"
    } else if d == 5 {
        "5"
    } else if d == 6 {
        "6"
    } else if d == 7 {
        "7"
    } else if d == 8 {
        "8"
    } else {
        "9"
    }
}

/// The decimal digits of `n`, most significant first.
pub fn decimal_string(n: u64) -> (r: String)
    ensures
        r@ == decimal_digits(n as nat),
    decreases n,
{
    if n < 10 {
        String::from_str(digit_str(n))
    } else {
        let mut text = decimal_string(n / 10);
        text.append(digit_str(n % 10));
        text
    }
}

/// `n / d` rounded to the nearest integer, ties to the even one.
pub fn divide_round_even(n: u64, d: u64) -> (r: u64)
    requires
        d > 0,
    ensures
        r as nat == div_round_even(n as nat, d as nat),
{
    let q = n / d;
    let rem = n % d;
    assert(q <= n) by (nonlinear_arith)
        requires
            q == n / d,
            d > 0,
    ;
    assert(q < u64::MAX || rem == 0) by (nonlinear_arith)
        requires
            q == n / d,
            rem == n % d,
            d > 0,
            n <= u64::MAX,
    ;
    if rem > d - rem {
        q + 1
    } else if rem < d - rem {
        q
    } else if q % 2 == 0 {
        q
    } else {
        q + 1
    }
}

/// The text of a metric: watts for power, a percentage for utilization.
pub fn metric_cell_text(metric: &GpuMetric) -> (r: String)
    ensures
        r@ == metric_text(*metric),
{
    proof {
        reveal_strlit("/");
        reveal_strlit("W");
        reveal_strlit(".");
        reveal_strlit("%");
    }
    match metric {
        GpuMetric::Power { draw_mw, limit_mw } => {
            let mut text = decimal_string(divide_round_even(*draw_mw as u64, 1000));
            if let Some(limit) = limit_mw {
                text.append("/");
                let limit_text = decimal_string(divide_round_even(*limit as u64, 1000));
                text.append(limit_text.as_str());
            }
            text.append("W");
            text
        },
        GpuMetric::Utilization(pct) => {
            let tenths = divide_round_even(*pct as u64, 10);
            let mut text = decimal_string(tenths / 10);
            text.append(".");
            let fraction = decimal_string(tenths % 10);
            text.append(fraction.as_str());
            text.append("%");
            text
        },
    }
}

impl GpuWidgetTableData {
    /// Creates the row of the device at `index`.
    pub fn from_gpu_data(index: usize, data: &GpuData) -> (r: GpuWidgetTableData)
        ensures
            r == (GpuWidgetTableData::Entry { index, name: data.name, metric: data.metric }),
    {
        GpuWidgetTableData::Entry { index, name: data.name.clone(), metric: data.metric }
    }

    /// The text of this row's cell in `column` at `calculated_width`; `None`
    /// for an empty cell.
    pub fn to_cell_text(&self, column: &GpuWidgetColumn, calculated_width: u16) -> (r: Option<String>)
        ensures
            r matches Some(s) ==> cell_text(*self, *column, calculated_width) == Some(s@),
            r is None ==> cell_text(*self, *column, calculated_width) is None,
    {
        proof {
            reveal_strlit("All");
            reveal_strlit("GPU");
        }
        match self {
            GpuWidgetTableData::All => match column {
                GpuWidgetColumn::Gpu => Some(String::from_str("All")),
                GpuWidgetColumn::Metric => None,
            },
            GpuWidgetTableData::Entry { index, name: _, metric } => {
                if calculated_width == 0 {
                    None
                } else {
                    match column {
                        GpuWidgetColumn::Gpu => {
                            let index_str = decimal_string(*index as u64);
                            if calculated_width < GPU_TRUNCATE_BREAKPOINT {
                                Some(index_str)
                            } else {
                                let mut text = String::from_str("GPU");
                                text.append(index_str.as_str());
                                Some(text)
                            }
                        },
                        GpuWidgetColumn::Metric => Some(metric_cell_text(metric)),
                    }
                }
            },
        }
    }

    /// The palette entry of this row's style: `None` for the "All" row, which
    /// has a style of its own, and the device index modulo the palette's
    /// length for a device row.
    pub fn style_row_index(&self, palette_len: usize) -> (r: Option<usize>)
        requires
            palette_len > 0,
        ensures
            *self is All ==> r is None,
            *self matches GpuWidgetTableData::Entry { index, .. } ==> r == Some((index % palette_len) as usize),
    {
        match self {
            GpuWidgetTableData::All => None,
            GpuWidgetTableData::Entry { index, .. } => Some(*index % palette_len),
        }
    }

    /// The default widths of the device and metric columns.
    pub fn column_widths() -> (r: Vec<u16>)
        ensures
            r@ == seq![1u16, 8u16],
    {
        vec![1, 8]
    }
}

/// State for the GPU widget.
pub struct GpuWidgetState {
    /// Current display time range in milliseconds.
    pub current_display_time: u64,
    /// Whether the legend is hidden.
    pub is_legend_hidden: bool,
    /// Timer for autohiding the time label.
    pub autohide_timer: Option<Instant>,
    /// The legend's columns, each with its share of the legend's width in
    /// percent.
    pub columns: Vec<(GpuWidgetColumn, u16)>,
    /// The gap between the legend's header and its rows.
    pub table_gap: u16,
    /// The legend's rows.
    pub table: Vec<GpuWidgetTableData>,
    /// Whether to force a data update.
    pub force_update_data: bool,
}

/// The legend's rows for `data`: "All", then one row per device in order.
pub open spec fn legend_rows(data: Seq<GpuData>) -> Seq<GpuWidgetTableData> {
    seq![GpuWidgetTableData::All] + Seq::new(
        data.len(),
        |i: int| GpuWidgetTableData::Entry { index: i as usize, name: data[i].name, metric: data[i].metric },
    )
}

impl GpuWidgetState {
    /// Creates a GPU widget state with a visible, empty legend whose device
    /// column takes 40% of its width and whose metric column takes 60%.
    pub fn new(table_gap: u16, current_display_time: u64, autohide_timer: Option<Instant>) -> (r:
        GpuWidgetState)
        ensures
            r.columns@ == seq![(GpuWidgetColumn::Gpu, 40u16), (GpuWidgetColumn::Metric, 60u16)],
            r.table_gap == table_gap,
            r.current_display_time == current_display_time,
            r.autohide_timer == autohide_timer,
            !r.is_legend_hidden,
            r.table@.len() == 0,
            !r.force_update_data,
    {
        GpuWidgetState {
            columns: vec![(GpuWidgetColumn::Gpu, 40), (GpuWidgetColumn::Metric, 60)],
            table_gap,
            current_display_time,
            is_legend_hidden: false,
            autohide_timer,
            table: Vec::new(),
            force_update_data: false,
        }
    }

    /// Forces an update of the data stored.
    pub fn force_data_update(&mut self)
        ensures
            final(self).force_update_data,
            final(self).current_display_time == old(self).current_display_time,
            final(self).is_legend_hidden == old(self).is_legend_hidden,
            final(self).autohide_timer == old(self).autohide_timer,
            final(self).table == old(self).table,
            final(self).columns == old(self).columns,
            final(self).table_gap == old(self).table_gap,
    {
        self.force_update_data = true;
    }

    /// Sets the legend's rows from the devices' data and clears the forced
    /// update.
    pub fn set_legend_data(&mut self, data: &Vec<GpuData>)
        ensures
            final(self).table@ == legend_rows(data@),
            !final(self).force_update_data,
            final(self).columns == old(self).columns,
            final(self).table_gap == old(self).table_gap,
            final(self).current_display_time == old(self).current_display_time,
            final(self).is_legend_hidden == old(self).is_legend_hidden,
            final(self).autohide_timer == old(self).autohide_timer,
    {
        let mut rows: Vec<GpuWidgetTableData> = Vec::new();
        rows.push(GpuWidgetTableData::All);
        let mut i: usize = 0;
        while i < data.len()
            invariant
                i <= data@.len(),
                rows@ =~= legend_rows(data@.subrange(0, i as int)),
            decreases data.len() - i,
        {
            rows.push(GpuWidgetTableData::from_gpu_data(i, &data[i]));
            i = i + 1;
        }
        assert(data@.subrange(0, data@.len() as int) == data@);
        self.table = rows;
        self.force_update_data = false;
    }
}

} // verus!
