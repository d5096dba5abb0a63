use proccorder::linux::{
    collect, first_child, first_child_among, first_child_from, first_child_in, time_base,
};

#[test]
fn first_child_is_first_listed_with_that_parent() {
    let rows = vec![(10, 1), (11, 10), (12, 10), (13, 11)];
    assert_eq!(first_child_among(&rows, 10), Some(11));
    assert_eq!(first_child_among(&rows, 11), Some(13));
    assert_eq!(first_child_among(&rows, 13), None);
    assert_eq!(first_child_among(&vec![], 1), None);
}

#[test]
fn missing_process_gives_empty_snapshot() {
    let m = collect(i32::MAX, &time_base());
    assert!(m.time_nanos.is_none());
    assert!(m.cpu_nanos_total.is_none());
    assert!(m.thread_cpu_nanos_total.is_none());
}

#[test]
fn missing_process_has_no_child() {
    assert_eq!(first_child(i32::MAX), Ok(None));
}

#[test]
fn init_process_is_sampled() {
    let base = time_base();
    assert!(base.ticks_per_second > 0);
    let m = collect(1, &base);
    assert!(m.cpu_nanos_total.is_some());
    assert!(m.virtual_memory_bytes.is_some());
    let threads = m.num_threads.unwrap();
    assert!(threads >= 1);
}

#[test]
fn first_child_in_skips_unreadable_entries() {
    let listing = vec![None, Some((20, 1)), None, Some((21, 20)), Some((22, 20))];
    assert_eq!(first_child_in(&listing, 20), Some(21));
    assert_eq!(first_child_in(&listing, 1), Some(20));
    assert_eq!(first_child_in(&listing, 21), None);
    assert_eq!(first_child_in(&vec![None, None], 1), None);
}

#[test]
fn init_process_has_a_listed_child_or_none() {
    let r = first_child(1);
    assert!(r.is_ok());
}

#[test]
fn unreadable_listing_is_the_only_error() {
    assert_eq!(first_child_from(None, 1), Err(()));
    assert_eq!(first_child_from(Some(vec![]), 1), Ok(None));
    assert_eq!(first_child_from(Some(vec![None, Some((5, 1)), Some((6, 1))]), 1), Ok(Some(5)));
    assert_eq!(first_child_from(Some(vec![Some((5, 2))]), 1), Ok(None));
}
