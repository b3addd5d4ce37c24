//! Reconciles the driver's overlapping per-process usage sources into one
//! record per process id.
//!
//! The sources are applied in a fixed order: engine utilization first, then
//! compute processes, graphics processes (current interface), and graphics
//! processes (legacy interface). Each memory source overwrites the memory of
//! a process it reports, so the last source that reports a process decides
//! its memory; only the utilization source ever sets utilization.

use vstd::prelude::*;

verus! {

/// Per-process memory in bytes and busy percentage, keyed by process id, in
/// a `hashbrown` map.
#[verifier::external_body]
pub struct ProcessUsageMap {
    map: hashbrown::HashMap<u32, (u64, u32)>,
}

/// Usage records keyed by process id.
pub type UsageEntries = Map<u32, (u64, u32)>;

/// What a usage map holds.
pub uninterp spec fn usage_entries(m: ProcessUsageMap) -> Map<u32, (u64, u32)>;

impl View for ProcessUsageMap {
    type V = Map<u32, (u64, u32)>;

    open spec fn view(&self) -> Map<u32, (u64, u32)> {
        usage_entries(*self)
    }
}

/// Relies on `hashbrown::HashMap::new`: an empty map.
#[verifier::external_body]
fn usage_map_new() -> (r: ProcessUsageMap)
    ensures
        usage_entries(r) == UsageEntries::empty(),
{
    ProcessUsageMap { map: hashbrown::HashMap::new() }
}

/// Relies on `hashbrown::HashMap::insert`: the key now maps to the value,
/// replacing any earlier one.
#[verifier::external_body]
fn usage_map_insert(m: &mut ProcessUsageMap, pid: u32, usage: (u64, u32))
    ensures
        usage_entries(*final(m)) == usage_entries(*old(m)).insert(pid, usage),
{
    m.map.insert(pid, usage);
}

/// Relies on `hashbrown::HashMap::get`: the value of the key, if any.
#[verifier::external_body]
fn usage_map_get(m: &ProcessUsageMap, pid: u32) -> (r: Option<(u64, u32)>)
    ensures
        r == (if usage_entries(*m).contains_key(pid) {
            Some(usage_entries(*m)[pid])
        } else {
            None
        }),
{
    m.map.get(&pid).copied()
}

/// Relies on `hashbrown::HashMap::len`: the number of keys.
#[verifier::external_body]
fn usage_map_len(m: &ProcessUsageMap) -> (r: usize)
    ensures
        r == usage_entries(*m).dom().len(),
        r == 0 <==> usage_entries(*m) == UsageEntries::empty(),
{
    m.map.len()
}

impl ProcessUsageMap {
    /// An empty map.
    pub fn new() -> (r: ProcessUsageMap)
        ensures
            r@ == UsageEntries::empty(),
    {
        usage_map_new()
    }

    /// Records the usage of a process, replacing any earlier record.
    pub fn insert(&mut self, pid: u32, usage: (u64, u32))
        ensures
            final(self)@ == old(self)@.insert(pid, usage),
    {
        usage_map_insert(self, pid, usage)
    }

    /// The usage recorded for a process, if any.
    pub fn get(&self, pid: u32) -> (r: Option<(u64, u32)>)
        ensures
            r == (if self@.contains_key(pid) {
                Some(self@[pid])
            } else {
                None
            }),
    {
        usage_map_get(self, pid)
    }

    /// The number of processes recorded.
    pub fn len(&self) -> (r: usize)
        ensures
            r == self@.dom().len(),
    {
        usage_map_len(self)
    }

    /// Whether no process is recorded.
    pub fn is_empty(&self) -> (r: bool)
        ensures
            r == (self@ == UsageEntries::empty()),
    {
        usage_map_len(self) == 0
    }
}

/// One sample of the engine-utilization source.
#[derive(Clone, Copy, Debug, PartialEq, Eq, Structural)]
pub struct ProcessUtilization {
    pub pid: u32,
    /// Shader (3D / compute) engine busy percentage.
    pub sm_util: u32,
    /// Encoder busy percentage.
    pub enc_util: u32,
    /// Decoder busy percentage.
    pub dec_util: u32,
}

/// One entry of a memory source (compute or graphics processes).
#[derive(Clone, Copy, Debug, PartialEq, Eq, Structural)]
pub struct ProcessMemory {
    pub pid: u32,
    /// Bytes in use, or `None` where the driver reports them unavailable.
    pub used_bytes: Option<u64>,
}

/// The busy percentage of a sample: its three engines summed, saturating at
/// `u32::MAX`.
pub open spec fn busy_of(s: ProcessUtilization) -> u32 {
    let total = s.sm_util as int + s.enc_util as int + s.dec_util as int;
    if total > u32::MAX as int {
        u32::MAX
    } else {
        total as u32
    }
}

/// The memory of an entry; an unavailable reading counts as zero.
pub open spec fn memory_of(p: ProcessMemory) -> u64 {
    match p.used_bytes {
        Some(bytes) => bytes,
        None => 0,
    }
}

/// The map after the utilization samples are applied in order to `m`.
pub open spec fn seed_utilization(m: Map<u32, (u64, u32)>, s: Seq<ProcessUtilization>) -> Map<
    u32,
    (u64, u32),
>
    decreases s.len(),
{
    if s.len() == 0 {
        m
    } else {
        seed_utilization(m, s.drop_last()).insert(s.last().pid, (0, busy_of(s.last())))
    }
}

/// The map after one memory entry is applied: the memory is overwritten and
/// the utilization kept (zero for a new process).
pub open spec fn with_memory(m: Map<u32, (u64, u32)>, p: ProcessMemory) -> Map<u32, (u64, u32)> {
    let util = if m.contains_key(p.pid) {
        m[p.pid].1
    } else {
        0
    };
    m.insert(p.pid, (memory_of(p), util))
}

/// The map after the entries of a memory source are applied in order to `m`.
pub open spec fn apply_memory(m: Map<u32, (u64, u32)>, s: Seq<ProcessMemory>) -> Map<
    u32,
    (u64, u32),
>
    decreases s.len(),
{
    if s.len() == 0 {
        m
    } else {
        with_memory(apply_memory(m, s.drop_last()), s.last())
    }
}

/// The entries of a source, none where the source failed.
pub open spec fn entries_of<T>(source: Option<Vec<T>>) -> Seq<T> {
    match source {
        Some(v) => v@,
        None => Seq::empty(),
    }
}

/// The merged usage of the four sources, applied in order.
pub open spec fn merged_usage(
    utilization: Option<Vec<ProcessUtilization>>,
    compute: Option<Vec<ProcessMemory>>,
    graphics: Option<Vec<ProcessMemory>>,
    legacy_graphics: Option<Vec<ProcessMemory>>,
) -> Map<u32, (u64, u32)> {
    apply_memory(
        apply_memory(
            apply_memory(seed_utilization(Map::empty(), entries_of(utilization)), entries_of(compute)),
            entries_of(graphics),
        ),
        entries_of(legacy_graphics),
    )
}

/// The busy percentage of a sample, saturating at `u32::MAX`.
pub fn busy_percentage(s: &ProcessUtilization) -> (r: u32)
    ensures
        r == busy_of(*s),
{
    s.sm_util.saturating_add(s.enc_util).saturating_add(s.dec_util)
}

/// Applies the utilization samples in order: each sets its process to zero
/// memory and its busy percentage.
fn seed_from_utilization(procs: &mut ProcessUsageMap, samples: &Vec<ProcessUtilization>)
    ensures
        final(procs)@ == seed_utilization(old(procs)@, samples@),
{
    let ghost start = procs@;
    let mut i: usize = 0;
    while i < samples.len()
        invariant
            i <= samples.len(),
            procs@ == seed_utilization(start, samples@.subrange(0, i as int)),
        decreases samples.len() - i,
    {
        let s = samples[i];
        procs.insert(s.pid, (0, busy_percentage(&s)));
        assert(samples@.subrange(0, i as int + 1).drop_last() == samples@.subrange(0, i as int));
        i = i + 1;
    }
    assert(samples@.subrange(0, samples.len() as int) == samples@);
}

/// Applies the entries of one memory source in order.
fn apply_memory_source(procs: &mut ProcessUsageMap, entries: &Vec<ProcessMemory>)
    ensures
        final(procs)@ == apply_memory(old(procs)@, entries@),
{
    let ghost start = procs@;
    let mut i: usize = 0;
    while i < entries.len()
        invariant
            i <= entries.len(),
            procs@ == apply_memory(start, entries@.subrange(0, i as int)),
        decreases entries.len() - i,
    {
        let p = entries[i];
        let bytes: u64 = match p.used_bytes {
            Some(b) => b,
            None => 0,
        };
        let util: u32 = match procs.get(p.pid) {
            Some(prev) => prev.1,
            None => 0,
        };
        procs.insert(p.pid, (bytes, util));
        assert(entries@.subrange(0, i as int + 1).drop_last() == entries@.subrange(0, i as int));
        i = i + 1;
    }
    assert(entries@.subrange(0, entries.len() as int) == entries@);
}

/// Merges the four usage sources of one device into one record per process
/// id. A source that failed (`None`) contributes nothing.
pub fn merge_process_usage(
    utilization: &Option<Vec<ProcessUtilization>>,
    compute: &Option<Vec<ProcessMemory>>,
    graphics: &Option<Vec<ProcessMemory>>,
    legacy_graphics: &Option<Vec<ProcessMemory>>,
) -> (r: ProcessUsageMap)
    ensures
        r@ == merged_usage(*utilization, *compute, *graphics, *legacy_graphics),
{
    let mut procs = ProcessUsageMap::new();
    if let Some(samples) = utilization {
        seed_from_utilization(&mut procs, samples);
    }
    if let Some(entries) = compute {
        apply_memory_source(&mut procs, entries);
    }
    if let Some(entries) = graphics {
        apply_memory_source(&mut procs, entries);
    }
    if let Some(entries) = legacy_graphics {
        apply_memory_source(&mut procs, entries);
    }
    procs
}

/// A memory source never changes the utilization of a process already
/// recorded.
pub proof fn lemma_memory_keeps_utilization(m: Map<u32, (u64, u32)>, s: Seq<ProcessMemory>, pid: u32)
    requires
        m.contains_key(pid),
    ensures
        apply_memory(m, s).contains_key(pid),
        apply_memory(m, s)[pid].1 == m[pid].1,
    decreases s.len(),
{
    if s.len() > 0 {
        lemma_memory_keeps_utilization(m, s.drop_last(), pid);
    }
}

/// A process that a memory source reports is recorded, with the memory of
/// the source's last entry for it.
pub proof fn lemma_memory_last_entry_wins(m: Map<u32, (u64, u32)>, s: Seq<ProcessMemory>, i: int)
    requires
        0 <= i < s.len(),
        forall|j: int| i < j < s.len() ==> (#[trigger] s[j]).pid != s[i].pid,
    ensures
        apply_memory(m, s).contains_key(s[i].pid),
        apply_memory(m, s)[s[i].pid].0 == memory_of(s[i]),
    decreases s.len(),
{
    if i < s.len() - 1 {
        let t = s.drop_last();
        assert forall|j: int| i < j < t.len() implies (#[trigger] t[j]).pid != t[i].pid by {
            assert(t[j] == s[j]);
        }
        lemma_memory_last_entry_wins(m, t, i);
        assert(s.last() == s[s.len() - 1]);
    }
}

/// A memory source leaves the memory of the processes it does not report
/// unchanged, and adds no other process.
pub proof fn lemma_memory_unreported(m: Map<u32, (u64, u32)>, s: Seq<ProcessMemory>, pid: u32)
    requires
        forall|j: int| 0 <= j < s.len() ==> (#[trigger] s[j]).pid != pid,
    ensures
        apply_memory(m, s).contains_key(pid) == m.contains_key(pid),
        m.contains_key(pid) ==> apply_memory(m, s)[pid] == m[pid],
    decreases s.len(),
{
    if s.len() > 0 {
        let t = s.drop_last();
        assert forall|j: int| 0 <= j < t.len() implies (#[trigger] t[j]).pid != pid by {
            assert(t[j] == s[j]);
        }
        lemma_memory_unreported(m, t, pid);
        assert(s.last() == s[s.len() - 1]);
    }
}

/// Only the utilization source sets utilization: a merged process that the
/// utilization source reported keeps the percentage it seeded, and any other
/// merged process has zero.
pub proof fn lemma_utilization_only_from_first_source(
    utilization: Option<Vec<ProcessUtilization>>,
    compute: Option<Vec<ProcessMemory>>,
    graphics: Option<Vec<ProcessMemory>>,
    legacy_graphics: Option<Vec<ProcessMemory>>,
    pid: u32,
)
    requires
        merged_usage(utilization, compute, graphics, legacy_graphics).contains_key(pid),
    ensures
        ({
            let seeded = seed_utilization(Map::empty(), entries_of(utilization));
            merged_usage(utilization, compute, graphics, legacy_graphics)[pid].1 == if seeded.contains_key(pid) {
                seeded[pid].1
            } else {
                0
            }
        }),
{
    let m0 = seed_utilization(Map::empty(), entries_of(utilization));
    let m1 = apply_memory(m0, entries_of(compute));
    let m2 = apply_memory(m1, entries_of(graphics));
    lemma_memory_utilization_or_zero(m0, entries_of(compute), pid);
    lemma_memory_utilization_or_zero(m1, entries_of(graphics), pid);
    lemma_memory_utilization_or_zero(m2, entries_of(legacy_graphics), pid);
}

/// After a memory source, a recorded process has the utilization it had
/// before, or zero when it is new.
proof fn lemma_memory_utilization_or_zero(m: Map<u32, (u64, u32)>, s: Seq<ProcessMemory>, pid: u32)
    ensures
        apply_memory(m, s).contains_key(pid) ==> apply_memory(m, s)[pid].1 == if m.contains_key(pid) {
            m[pid].1
        } else {
            0
        },
        m.contains_key(pid) ==> apply_memory(m, s).contains_key(pid),
    decreases s.len(),
{
    if s.len() > 0 {
        lemma_memory_utilization_or_zero(m, s.drop_last(), pid);
    }
}

/// The last source that reports a process decides its memory: when the
/// legacy graphics source reports it, its last entry there wins over every
/// earlier source.
pub proof fn lemma_legacy_graphics_memory_wins(
    utilization: Option<Vec<ProcessUtilization>>,
    compute: Option<Vec<ProcessMemory>>,
    graphics: Option<Vec<ProcessMemory>>,
    legacy_graphics: Option<Vec<ProcessMemory>>,
    i: int,
)
    requires
        0 <= i < entries_of(legacy_graphics).len(),
        forall|j: int|
            i < j < entries_of(legacy_graphics).len() ==> (#[trigger] entries_of(legacy_graphics)[j]).pid
                != entries_of(legacy_graphics)[i].pid,
    ensures
        merged_usage(utilization, compute, graphics, legacy_graphics).contains_key(
            entries_of(legacy_graphics)[i].pid,
        ),
        merged_usage(utilization, compute, graphics, legacy_graphics)[entries_of(
            legacy_graphics,
        )[i].pid].0 == memory_of(entries_of(legacy_graphics)[i]),
{
    let m2 = apply_memory(
        apply_memory(seed_utilization(Map::empty(), entries_of(utilization)), entries_of(compute)),
        entries_of(graphics),
    );
    lemma_memory_last_entry_wins(m2, entries_of(legacy_graphics), i);
}

/// A process that the utilization source samples is recorded with the busy
/// percentage of its last sample and no memory.
pub proof fn lemma_seed_last_sample_wins(m: Map<u32, (u64, u32)>, s: Seq<ProcessUtilization>, i: int)
    requires
        0 <= i < s.len(),
        forall|j: int| i < j < s.len() ==> (#[trigger] s[j]).pid != s[i].pid,
    ensures
        seed_utilization(m, s).contains_key(s[i].pid),
        seed_utilization(m, s)[s[i].pid] == (0u64, busy_of(s[i])),
    decreases s.len(),
{
    if i < s.len() - 1 {
        let t = s.drop_last();
        assert forall|j: int| i < j < t.len() implies (#[trigger] t[j]).pid != t[i].pid by {
            assert(t[j] == s[j]);
        }
        lemma_seed_last_sample_wins(m, t, i);
        assert(s.last() == s[s.len() - 1]);
    }
}

/// Fields compose across sources: a process sampled by the utilization
/// source and reported by the compute source, and by neither graphics
/// source, is recorded with the compute source's memory and the sampled
/// busy percentage.
pub proof fn lemma_fields_compose(
    utilization: Option<Vec<ProcessUtilization>>,
    compute: Option<Vec<ProcessMemory>>,
    graphics: Option<Vec<ProcessMemory>>,
    legacy_graphics: Option<Vec<ProcessMemory>>,
    k: int,
    i: int,
)
    requires
        0 <= k < entries_of(utilization).len(),
        forall|j: int|
            k < j < entries_of(utilization).len() ==> (#[trigger] entries_of(utilization)[j]).pid
                != entries_of(utilization)[k].pid,
        0 <= i < entries_of(compute).len(),
        entries_of(compute)[i].pid == entries_of(utilization)[k].pid,
        forall|j: int|
            i < j < entries_of(compute).len() ==> (#[trigger] entries_of(compute)[j]).pid
                != entries_of(compute)[i].pid,
        forall|j: int|
            0 <= j < entries_of(graphics).len() ==> (#[trigger] entries_of(graphics)[j]).pid
                != entries_of(compute)[i].pid,
        forall|j: int|
            0 <= j < entries_of(legacy_graphics).len() ==> (#[trigger] entries_of(legacy_graphics)[j]).pid
                != entries_of(compute)[i].pid,
    ensures
        merged_usage(utilization, compute, graphics, legacy_graphics).contains_key(
            entries_of(compute)[i].pid,
        ),
        merged_usage(utilization, compute, graphics, legacy_graphics)[entries_of(compute)[i].pid] == (
        memory_of(entries_of(compute)[i]), busy_of(entries_of(utilization)[k])),
{
    let pid = entries_of(compute)[i].pid;
    let m0 = seed_utilization(Map::empty(), entries_of(utilization));
    let m1 = apply_memory(m0, entries_of(compute));
    let m2 = apply_memory(m1, entries_of(graphics));
    lemma_seed_last_sample_wins(Map::empty(), entries_of(utilization), k);
    lemma_memory_keeps_utilization(m0, entries_of(compute), pid);
    lemma_memory_last_entry_wins(m0, entries_of(compute), i);
    lemma_memory_unreported(m1, entries_of(graphics), pid);
    lemma_memory_unreported(m2, entries_of(legacy_graphics), pid);
}

} // verus!
