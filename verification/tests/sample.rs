use portable_dlmalloc::raw::{MallInfo, M_GRANULARITY, M_MMAP_THRESHOLD, M_TRIM_THRESHOLD};
use portable_dlmalloc::sample::{test_realloc, AlignedHigher};

#[test]
fn realloc_sample_contents() {
    let (v1, v2) = test_realloc();
    assert_eq!(v1.len(), 3);
    assert!(v1.iter().all(|r| *r == AlignedHigher { a: 0, b: 0, c: 0 }));
    assert!(v1.capacity() >= 3);
    assert_eq!(v2.len(), 2345);
    assert!(v2.iter().all(|x| *x == 123));
}

#[test]
fn mallopt_parameters() {
    assert_eq!(M_TRIM_THRESHOLD, -1);
    assert_eq!(M_GRANULARITY, -2);
    assert_eq!(M_MMAP_THRESHOLD, -3);
}

#[test]
fn empty_statistics() {
    let m = MallInfo::default();
    assert_eq!(m.arena + m.ordblks + m.uordblks + m.fordblks + m.keepcost, 0);
    assert_eq!(m, MallInfo { arena: 0, ordblks: 0, smblks: 0, hblks: 0, hblkhd: 0, usmblks: 0, fsmblks: 0, uordblks: 0, fordblks: 0, keepcost: 0 });
}
