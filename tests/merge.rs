use gpu_harvest::merge::{busy_percentage, merge_process_usage, ProcessMemory, ProcessUtilization};

fn util(pid: u32, sm: u32, enc: u32, dec: u32) -> ProcessUtilization {
    ProcessUtilization { pid, sm_util: sm, enc_util: enc, dec_util: dec }
}

fn mem(pid: u32, used: Option<u64>) -> ProcessMemory {
    ProcessMemory { pid, used_bytes: used }
}

#[test]
fn fields_compose_across_sources() {
    let r = merge_process_usage(&Some(vec![util(7, 30, 0, 0)]), &Some(vec![mem(7, Some(1024))]), &None, &None);
    assert_eq!(r.len(), 1);
    assert_eq!(r.get(7), Some((1024, 30)));
}

#[test]
fn legacy_graphics_memory_is_applied_last() {
    let r = merge_process_usage(&None, &None, &Some(vec![mem(7, Some(500))]), &Some(vec![mem(7, Some(800))]));
    assert_eq!(r.get(7), Some((800, 0)));
}

#[test]
fn engines_are_summed_and_saturate() {
    assert_eq!(busy_percentage(&util(1, 10, 20, 5)), 35);
    assert_eq!(busy_percentage(&util(1, u32::MAX, 1, 1)), u32::MAX);
    let r = merge_process_usage(&Some(vec![util(3, 10, 20, 5)]), &None, &None, &None);
    assert_eq!(r.get(3), Some((0, 35)));
}

#[test]
fn unavailable_memory_counts_as_zero() {
    let r = merge_process_usage(&Some(vec![util(4, 50, 0, 0)]), &Some(vec![mem(4, None)]), &None, &None);
    assert_eq!(r.get(4), Some((0, 50)));
}

#[test]
fn memory_sources_overwrite_and_keep_utilization() {
    let r = merge_process_usage(
        &Some(vec![util(1, 40, 0, 0), util(2, 5, 5, 0)]),
        &Some(vec![mem(1, Some(100)), mem(9, Some(900))]),
        &Some(vec![mem(1, Some(200))]),
        &Some(vec![mem(2, Some(300))]),
    );
    assert_eq!(r.len(), 3);
    assert_eq!(r.get(1), Some((200, 40)));
    assert_eq!(r.get(2), Some((300, 10)));
    assert_eq!(r.get(9), Some((900, 0)));
}

#[test]
fn later_utilization_sample_of_a_process_wins() {
    let r = merge_process_usage(&Some(vec![util(1, 40, 0, 0), util(1, 7, 0, 0)]), &None, &None, &None);
    assert_eq!(r.get(1), Some((0, 7)));
}

#[test]
fn no_sources_give_an_empty_map() {
    let r = merge_process_usage(&None, &Some(vec![]), &None, &None);
    assert!(r.is_empty());
}
