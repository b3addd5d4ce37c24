//! The caller's demand flags and name filter, and the per-device records that
//! the probes produce for the memory and temperature verticals.

use vstd::prelude::*;

verus! {

/// Which verticals the caller needs this cycle.
#[derive(Clone, Copy, Debug, PartialEq, Eq, Structural, Default)]
pub struct UsedWidgets {
    /// Memory per device.
    pub use_mem: bool,
    /// Temperature per device.
    pub use_temp: bool,
    /// Per-process usage.
    pub use_proc: bool,
    /// Power or utilization per device.
    pub use_gpu: bool,
}

/// A name filter: keeps the names on its list, or, when the list is ignored,
/// the names that are not on it. An entry matches a name equal to it.
#[derive(Clone, Debug)]
pub struct Filter {
    pub is_list_ignored: bool,
    pub list: Vec<String>,
}

/// Whether some entry of `list` is the name.
pub open spec fn listed(list: Seq<String>, name: Seq<char>) -> bool {
    exists|i: int| 0 <= i < list.len() && (#[trigger] list[i])@ == name
}

/// Whether the optional filter keeps the name; no filter keeps every name.
pub open spec fn filter_keeps(filter: Option<Filter>, name: Seq<char>) -> bool {
    match filter {
        Some(f) => listed(f.list@, name) != f.is_list_ignored,
        None => true,
    }
}

impl Filter {
    /// Whether some entry of the list matches the name.
    pub fn has_match(&self, name: &String) -> (r: bool)
        ensures
            r == listed(self.list@, name@),
    {
        let mut i: usize = 0;
        while i < self.list.len()
            invariant
                i <= self.list@.len(),
                forall|j: int| 0 <= j < i ==> (#[trigger] self.list@[j])@ != name@,
            decreases self.list.len() - i,
        {
            if self.list[i] == *name {
                return true;
            }
            i = i + 1;
        }
        false
    }

    /// Whether the filter keeps the name.
    pub fn should_keep(&self, name: &String) -> (r: bool)
        ensures
            r == filter_keeps(Some(*self), name@),
    {
        if self.has_match(name) {
            !self.is_list_ignored
        } else {
            self.is_list_ignored
        }
    }

    /// Whether an optional filter keeps the name; no filter keeps every name.
    pub fn optional_should_keep(filter: &Option<Filter>, name: &String) -> (r: bool)
        ensures
            r == filter_keeps(*filter, name@),
    {
        match filter {
            Some(f) => f.should_keep(name),
            None => true,
        }
    }
}

/// Memory of one device, in bytes; `total_bytes` is never zero.
#[derive(Clone, Copy, Debug, PartialEq, Eq, Structural)]
pub struct MemData {
    pub total_bytes: u64,
    pub used_bytes: u64,
}

/// Temperature of one device, in degrees Celsius; `None` when the sensor
/// could not be read.
#[derive(Clone, Debug)]
pub struct TempSensorData {
    pub name: String,
    pub temperature: Option<u32>,
}

} // verus!
