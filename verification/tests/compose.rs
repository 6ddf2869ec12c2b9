use sysdash::compose::compose;
use sysdash::geometry::Rect;
use sysdash::graphs::create_graph_chunk;
use sysdash::runs::StyledRun;
use sysdash::snapshot::{
    percent_micro, CpuCore, DiskInfo, HostInfo, MemoryStats, MetricsSnapshot, ProcessInfo,
    SwapStats,
};
use sysdash::stats::create_stats_chunk;

fn cpu_core(label: &str, usage_micro: u64) -> CpuCore {
    CpuCore { label: label.to_string(), usage_micro }
}

fn four_idle_cores_snapshot() -> MetricsSnapshot {
    MetricsSnapshot {
        global_cpu_micro: 0,
        cores: vec![cpu_core("0", 0), cpu_core("1", 0), cpu_core("2", 0), cpu_core("3", 0)],
        memory: MemoryStats {
            total_bytes: 8_000_000_000,
            used_bytes: 0,
            available_bytes: 8_000_000_000,
            free_bytes: 8_000_000_000,
        },
        swap: SwapStats { total_bytes: 0, used_bytes: 0, free_bytes: 0 },
        disks: vec![DiskInfo {
            name: "sda1".to_string(),
            mount_point: "/".to_string(),
            filesystem: "ext4".to_string(),
            kind: "SSD".to_string(),
            total_bytes: 500_000_000_000,
            available_bytes: 250_000_000_000,
        }],
        host: HostInfo {
            hostname: "box".to_string(),
            os_name: "Linux".to_string(),
            os_version: "6.1".to_string(),
            cpu_arch: "x86_64".to_string(),
            uptime_seconds: 12345,
        },
        processes: vec![ProcessInfo {
            pid: 42,
            name: "daemon".to_string(),
            memory_bytes: 120_000_000,
            cpu_micro: 1_500_000,
            run_time_seconds: 99,
            ids: Some((0, 0)),
        }],
    }
}

fn viewport() -> Rect {
    Rect { x: 0, y: 0, width: 80, height: 24 }
}

fn find_text<'a>(runs: &'a [StyledRun], text: &str) -> Option<&'a StyledRun> {
    runs.iter().find(|r| r.text == text)
}

#[test]
fn compose_is_deterministic() {
    let snap = four_idle_cores_snapshot();
    let first = compose(&snap, viewport());
    let second = compose(&snap, viewport());
    assert_eq!(first, second);
}

#[test]
fn zero_total_swap_renders_zero_percent() {
    // Swap with used = 0 and total = 0 must not divide by zero and reads
    // as zero percent.
    let snap = four_idle_cores_snapshot();
    let runs = compose(&snap, viewport());
    assert!(find_text(&runs, "swp: 0.00%").is_some());
}

#[test]
fn idle_snapshot_panel_texts() {
    let snap = four_idle_cores_snapshot();
    let runs = compose(&snap, viewport());
    assert!(find_text(&runs, "Global CPU Usage: 0.00%").is_some());
    assert!(find_text(&runs, "CPU 0: 0.00%").is_some());
    assert!(find_text(&runs, "CPU 3: 0.00%").is_some());
    assert!(find_text(&runs, "Memory: 0.00%").is_some());
    // Memory values: totals in GB, free memory in MB.
    assert!(find_text(&runs, "8.00 GB").is_some());
    assert!(find_text(&runs, "8000.00 MB").is_some());
    // Disk block: a title and a 50% usage reading.
    assert!(find_text(&runs, "Disk 0").is_some());
    assert!(find_text(&runs, "50.00%").is_some());
    // Host rows.
    assert!(find_text(&runs, "box").is_some());
    assert!(find_text(&runs, "12345").is_some());
    // Process table: header cells and the one surviving process row.
    assert!(find_text(&runs, "EUID/EGID").is_some());
    assert!(find_text(&runs, "daemon").is_some());
    assert!(find_text(&runs, "120.00").is_some());
    assert!(find_text(&runs, "1.50%").is_some());
    assert!(find_text(&runs, "0/0").is_some());
}

#[test]
fn zero_cores_and_zero_disks_do_not_crash() {
    let mut snap = four_idle_cores_snapshot();
    snap.cores = Vec::new();
    snap.disks = Vec::new();
    snap.processes = Vec::new();
    let runs = compose(&snap, viewport());
    assert!(find_text(&runs, "Stats").is_some());
    assert!(find_text(&runs, "Disk 0").is_none());
}

#[test]
fn stats_chunk_returns_five_regions() {
    let snap = four_idle_cores_snapshot();
    let mut out = Vec::new();
    let sub = create_stats_chunk(&snap, viewport(), &mut out);
    assert_eq!(sub.len(), 5);
    assert!(!out.is_empty());
}

#[test]
fn percent_recomputation() {
    // Percentages are recomputed from the raw counters.
    assert_eq!(percent_micro(0, 8_000_000_000), 0);
    assert_eq!(percent_micro(4_000_000_000, 8_000_000_000), 50_000_000);
    assert_eq!(percent_micro(1, 3), 33_333_333);
    // A zero total reads as zero percent instead of dividing by zero.
    assert_eq!(percent_micro(5, 0), 0);
    // Used above total is tolerated and reads above 100%.
    assert_eq!(percent_micro(3, 2), 150_000_000);
    // An extreme ratio saturates instead of overflowing.
    assert_eq!(percent_micro(u64::MAX, 1), u64::MAX);
}

#[test]
fn graph_chunk_returns_two_halves() {
    let mut out = Vec::new();
    let sub = create_graph_chunk(Rect { x: 41, y: 1, width: 50, height: 22 }, &mut out);
    assert_eq!(sub.len(), 2);
    assert_eq!(out.len(), 1);
    assert_eq!(out[0].text, "Stats");
}
