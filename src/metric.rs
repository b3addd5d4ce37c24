//! The normalized metric shared by every probe.
//!
//! Percentages are fixed-point: one unit is a hundredth of a percent, so a
//! fully busy device reads `FULL_SCALE`.

use vstd::prelude::*;

verus! {

/// A whole (100%) in hundredths of a percent.
pub const FULL_SCALE: u32 = 10000;

/// A device's reading: either its power draw or its utilization.
#[derive(Clone, Copy, Debug, PartialEq, Eq, Structural)]
pub enum GpuMetric {
    /// Power draw in milliwatts with the board's power limit, when it has one.
    Power { draw_mw: u32, limit_mw: Option<u32> },
    /// Utilization in hundredths of a percent, within `0..=FULL_SCALE`.
    Utilization(u32),
}

/// The percentage a metric stands for, in hundredths of a percent.
pub open spec fn percentage_of(m: GpuMetric) -> nat {
    match m {
        GpuMetric::Power { draw_mw, limit_mw } => match limit_mw {
            Some(limit) => if limit > 0 {
                (draw_mw as nat * FULL_SCALE as nat / limit as nat) as nat
            } else {
                0
            },
            None => 0,
        },
        GpuMetric::Utilization(pct) => pct as nat,
    }
}

/// A utilization reading lies within `0..=FULL_SCALE`; power carries raw
/// milliwatts and is always well formed.
pub open spec fn is_normalized(m: GpuMetric) -> bool {
    match m {
        GpuMetric::Utilization(pct) => pct <= FULL_SCALE,
        GpuMetric::Power { .. } => true,
    }
}

/// A raw reading in hundredths of a percent, clamped to `0..=FULL_SCALE`.
pub open spec fn clamped(raw: int) -> int {
    if raw < 0 {
        0
    } else if raw > FULL_SCALE as int {
        FULL_SCALE as int
    } else {
        raw
    }
}

impl GpuMetric {
    /// Returns the metric as a percentage in hundredths of a percent.
    ///
    /// Power is `draw / limit * 100%` (rounded down) when the limit is known
    /// and nonzero, and zero otherwise.
    pub fn as_percentage(&self) -> (r: u64)
        ensures
            r as nat == percentage_of(*self),
    {
        match self {
            GpuMetric::Power { draw_mw, limit_mw } => match limit_mw {
                Some(limit) => {
                    if *limit > 0 {
                        let draw: u64 = *draw_mw as u64;
                        assert(draw * 10000 <= 0xffff_ffffu64 * 10000) by (nonlinear_arith)
                            requires
                                draw <= 0xffff_ffffu64,
                        ;
                        draw * (FULL_SCALE as u64) / (*limit as u64)
                    } else {
                        0
                    }
                },
                None => 0,
            },
            GpuMetric::Utilization(pct) => *pct as u64,
        }
    }

    /// Returns true if this metric represents power data.
    pub fn is_power(&self) -> (r: bool)
        ensures
            r == (*self is Power),
    {
        matches!(self, GpuMetric::Power { .. })
    }

    /// Builds a utilization metric from a raw reading in hundredths of a
    /// percent, clamping it to `0..=FULL_SCALE` first.
    pub fn utilization_from_raw(raw: i64) -> (r: GpuMetric)
        ensures
            r == GpuMetric::Utilization(clamped(raw as int) as u32),
            is_normalized(r),
    {
        GpuMetric::Utilization(clamp_percentage(raw))
    }
}

impl Default for GpuMetric {
    fn default() -> (r: GpuMetric)
        ensures
            r == GpuMetric::Utilization(0),
    {
        GpuMetric::Utilization(0)
    }
}

/// Clamps a raw reading in hundredths of a percent to `0..=FULL_SCALE`.
pub fn clamp_percentage(raw: i64) -> (r: u32)
    ensures
        r as int == clamped(raw as int),
        r <= FULL_SCALE,
{
    if raw < 0 {
        0
    } else if raw > FULL_SCALE as i64 {
        FULL_SCALE
    } else {
        raw as u32
    }
}

/// GPU data with either power draw or utilization.
#[derive(Clone, Debug)]
pub struct GpuData {
    /// GPU name.
    pub name: String,
    /// The GPU metric (power or utilization).
    pub metric: GpuMetric,
}

impl Default for GpuData {
    fn default() -> (r: GpuData)
        ensures
            r.name@ == Seq::<char>::empty(),
            r.metric == GpuMetric::Utilization(0),
    {
        GpuData { name: String::new(), metric: GpuMetric::Utilization(0) }
    }
}

/// A power reading without a known, nonzero limit has no percentage: it
/// reads zero rather than dividing by zero.
pub proof fn lemma_power_without_limit_is_zero(draw_mw: u32, limit_mw: Option<u32>)
    requires
        limit_mw is None || limit_mw == Some(0u32),
    ensures
        percentage_of(GpuMetric::Power { draw_mw, limit_mw }) == 0,
{
}

/// A normalized utilization reads back as exactly the percentage it holds.
pub proof fn lemma_utilization_round_trip(pct: u32)
    requires
        pct <= FULL_SCALE,
    ensures
        percentage_of(GpuMetric::Utilization(pct)) == pct as nat,
        is_normalized(GpuMetric::Utilization(pct)),
{
}

/// Readings outside `0..=FULL_SCALE` are stored at the nearer boundary, and
/// readings inside are stored unchanged.
pub proof fn lemma_clamp_to_boundary(raw: int)
    ensures
        raw < 0 ==> clamped(raw) == 0,
        raw > FULL_SCALE as int ==> clamped(raw) == FULL_SCALE as int,
        0 <= raw <= FULL_SCALE as int ==> clamped(raw) == raw,
{
}

} // verus!
