use sysdash::geometry::Rect;
use sysdash::processes::{create_processes_chunk, select_processes};
use sysdash::snapshot::{
    CpuCore, DiskInfo, HostInfo, MemoryStats, MetricsSnapshot, ProcessInfo, SwapStats,
};

fn proc(pid: u32, name: &str, memory_bytes: u64) -> ProcessInfo {
    ProcessInfo {
        pid,
        name: name.to_string(),
        memory_bytes,
        cpu_micro: 0,
        run_time_seconds: 0,
        ids: Some((1000, 1000)),
    }
}

#[test]
fn filter_and_sort_by_memory() {
    let procs = vec![
        proc(1, "forty", 40_000_000),
        proc(2, "sixty", 60_000_000),
        proc(3, "twohundred", 200_000_000),
        proc(4, "fifty", 50_000_000),
    ];
    let out = select_processes(&procs);
    // The floor is strict: 40 MB and exactly 50 MB are excluded; the rest
    // sort descending by memory.
    assert_eq!(out.len(), 2);
    assert_eq!(out[0].pid, 3);
    assert_eq!(out[0].memory_bytes, 200_000_000);
    assert_eq!(out[1].pid, 2);
    assert_eq!(out[1].memory_bytes, 60_000_000);
}

#[test]
fn sort_is_stable_on_ties() {
    let procs = vec![
        proc(10, "first", 80_000_000),
        proc(11, "second", 80_000_000),
        proc(12, "third", 90_000_000),
        proc(13, "fourth", 80_000_000),
    ];
    let out = select_processes(&procs);
    assert_eq!(out.len(), 4);
    assert_eq!(out[0].pid, 12);
    // Equal memory keeps snapshot order.
    assert_eq!(out[1].pid, 10);
    assert_eq!(out[2].pid, 11);
    assert_eq!(out[3].pid, 13);
}

#[test]
fn empty_input_empty_output() {
    let out = select_processes(&Vec::new());
    assert!(out.is_empty());
}

fn snapshot_with(processes: Vec<ProcessInfo>) -> MetricsSnapshot {
    MetricsSnapshot {
        global_cpu_micro: 0,
        cores: vec![CpuCore { label: "0".to_string(), usage_micro: 0 }],
        memory: MemoryStats {
            total_bytes: 1,
            used_bytes: 0,
            available_bytes: 1,
            free_bytes: 1,
        },
        swap: SwapStats { total_bytes: 0, used_bytes: 0, free_bytes: 0 },
        disks: Vec::<DiskInfo>::new(),
        host: HostInfo {
            hostname: "h".to_string(),
            os_name: "o".to_string(),
            os_version: "v".to_string(),
            cpu_arch: "a".to_string(),
            uptime_seconds: 0,
        },
        processes,
    }
}

#[test]
fn rows_below_the_region_are_dropped() {
    // A chunk 8 cells high loses 2 to the vertical margins, leaving a
    // 4-cell table region: a header row, a spacer row, and 2 process rows.
    let snap = snapshot_with(vec![
        proc(1, "one", 300_000_000),
        proc(2, "two", 200_000_000),
        proc(3, "three", 100_000_000),
    ]);
    let mut out = Vec::new();
    create_processes_chunk(&snap, Rect { x: 0, y: 0, width: 40, height: 8 }, &mut out);
    // One title run, six header runs, six runs per surviving row.
    assert_eq!(out.len(), 1 + 6 + 2 * 6);
    assert!(out.iter().any(|r| r.text == "one"));
    assert!(out.iter().any(|r| r.text == "two"));
    assert!(!out.iter().any(|r| r.text == "three"));
}

#[test]
fn missing_id_pair_renders_dashes() {
    let mut p = proc(7, "anon", 80_000_000);
    p.ids = None;
    let snap = snapshot_with(vec![p]);
    let mut out = Vec::new();
    create_processes_chunk(&snap, Rect { x: 0, y: 0, width: 40, height: 20 }, &mut out);
    assert!(out.iter().any(|r| r.text == "-/-"));
}
