use mission_center::mem_info::MemInfo;
use mission_center::readings::Readings;

const SAMPLE: &str = "MemTotal:       16106136 kB
MemFree:         1270712 kB
MemAvailable:    9315944 kB
Buffers:          384592 kB
Cached:          7737716 kB
SwapCached:            0 kB
Active(anon):    5418268 kB
HugePages_Total:       3
HugePages_Free:        2
Hugepagesize:       2048 kB
DirectMap1G:     2097152 kB
";

#[test]
fn parses_known_keys_in_bytes() {
    assert!(MemInfo::refresh_fits(SAMPLE));
    let m = MemInfo::new(SAMPLE);
    assert_eq!(m.mem_total, 16106136 * 1024);
    assert_eq!(m.mem_free, 1270712 * 1024);
    assert_eq!(m.mem_available, 9315944 * 1024);
    assert_eq!(m.buffers, 384592 * 1024);
    assert_eq!(m.cached, 7737716 * 1024);
    assert_eq!(m.swap_cached, 0);
    assert_eq!(m.active_anon, 5418268 * 1024);
    assert_eq!(m.hugepagesize, 2048 * 1024);
    assert_eq!(m.direct_map1g, 2097152 * 1024);
    assert_eq!(m.active, 0);
}

#[test]
fn huge_page_counts_are_not_scaled() {
    let m = MemInfo::new(SAMPLE);
    assert_eq!(m.huge_pages_total, 3);
    assert_eq!(m.huge_pages_free, 2);
    assert_eq!(m.huge_pages_rsvd, 0);
}

#[test]
fn later_line_overrides_and_unknown_keys_are_ignored() {
    let m = MemInfo::new("MemFree: 1 kB\nSomething: 7 kB\nMemFree: 5 kB\n");
    assert_eq!(m.mem_free, 5 * 1024);
    assert_eq!(m, MemInfo::new("MemFree: 5 kB"));
}

#[test]
fn unreadable_numbers_read_as_zero() {
    let mut m = MemInfo::new("MemTotal: 4 kB\nMemFree: 9 kB");
    m.refresh("MemTotal: x kB\nMemFree:\nBuffers: +3 kB\nCached: -3 kB\nDirty: 12a");
    assert_eq!(m.mem_total, 0);
    assert_eq!(m.mem_free, 0);
    assert_eq!(m.buffers, 3 * 1024);
    assert_eq!(m.cached, 0);
    assert_eq!(m.dirty, 0);
}

#[test]
fn refresh_keeps_entries_that_no_line_sets() {
    let mut m = MemInfo::new("MemTotal: 4 kB\nSwapTotal: 9 kB");
    m.refresh("MemTotal: 8 kB");
    assert_eq!(m.mem_total, 8 * 1024);
    assert_eq!(m.swap_total, 9 * 1024);
}

#[test]
fn whitespace_and_line_endings() {
    let m = MemInfo::new("  \r\n\tMemTotal:\t\t 10 kB\r\n\nMemFree:\u{a0}6\n   \n");
    assert_eq!(m.mem_total, 10 * 1024);
    assert_eq!(m.mem_free, 6 * 1024);
}

#[test]
fn refreshing_twice_equals_refreshing_once() {
    let mut once = MemInfo::new("Cached: 3");
    once.refresh(SAMPLE);
    let mut twice = MemInfo::new("Cached: 3");
    twice.refresh(SAMPLE);
    twice.refresh(SAMPLE);
    assert_eq!(once, twice);
}

#[test]
fn oversized_numbers_do_not_fit() {
    let big = format!("Zswap: {}", usize::MAX / 1024 + 1);
    assert!(!MemInfo::refresh_fits(&big));
    let edge = format!("Zswap: {}", usize::MAX / 1024);
    assert!(MemInfo::refresh_fits(&edge));
    let overflowing = format!("Zswap: {}0", usize::MAX);
    assert!(MemInfo::refresh_fits(&overflowing));
    assert_eq!(MemInfo::new(&overflowing), MemInfo::default());
}

#[test]
fn empty_report_gives_zeroes() {
    assert_eq!(MemInfo::new(""), MemInfo::default());
    assert_eq!(MemInfo::default().mem_total, 0);
}

#[test]
fn readings_start_empty() {
    let r = Readings::new();
    assert_eq!(r.mem_info, MemInfo::default());
}
