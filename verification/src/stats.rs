//! Panel renderers for the metrics column: CPU, memory, swap, disks, and
//! host metadata, plus the stats-column composer that stacks them.
//!
//! Each renderer takes its slice of the snapshot and an assigned rectangle,
//! sub-partitions that rectangle, formats values, classifies severities, and
//! appends styled runs to the frame under construction. No renderer reads
//! another renderer's region.

use vstd::prelude::*;
use crate::format::{
    dec_digits, spec_percent_text, spec_bar_text, spec_gb_text, spec_mb_text, percent_string,
    bar_string, gb_string, mb_string, decimal_string,
};
use crate::geometry::{
    Constraint, Direction, Margin, Rect, partition, spec_partition,
};
use crate::runs::{Alignment, RunView, StyledRun, push_run, runs_view};
use crate::severity::{SeverityTier, spec_classify, classify};
use crate::snapshot::{
    CpuCore, DiskInfo, HostInfo, MemoryStats, MetricsSnapshot, SwapStats, spec_percent_micro,
    percent_micro, spec_disk_used, disk_used,
};

verus! {

/// A list of `n` one-cell fixed rows.
pub open spec fn spec_fixed_rows(n: int) -> Seq<Constraint> {
    Seq::new(n as nat, |i: int| Constraint::Fixed(1))
}

/// Build `n` one-cell fixed row constraints.
pub fn fixed_rows(n: usize) -> (v: Vec<Constraint>)
    ensures
        v@ == spec_fixed_rows(n as int),
{
    let mut v: Vec<Constraint> = Vec::new();
    let mut i: usize = 0;
    while i < n
        invariant
            i <= n,
            v@.len() == i,
            forall|j: int| 0 <= j < i ==> v@[j] == Constraint::Fixed(1),
        decreases n - i,
    {
        v.push(Constraint::Fixed(1));
        i += 1;
    }
    proof {
        assert(v@ =~= spec_fixed_rows(n as int));
    }
    v
}

/// Two constraints as a vector.
pub fn constraint_pair(a: Constraint, b: Constraint) -> (v: Vec<Constraint>)
    ensures
        v@ == seq![a, b],
{
    let mut v: Vec<Constraint> = Vec::new();
    v.push(a);
    v.push(b);
    proof {
        assert(v@ =~= seq![a, b]);
    }
    v
}

/// An unstyled label at its own region and a right-aligned unstyled value
/// at another: one table-like row.
pub open spec fn spec_label_value(
    label: Seq<char>,
    value: Seq<char>,
    label_rect: Rect,
    value_rect: Rect,
) -> Seq<RunView> {
    seq![
        RunView { text: label, region: label_rect, tier: None, alignment: Alignment::Left },
        RunView { text: value, region: value_rect, tier: None, alignment: Alignment::Right },
    ]
}

/// Emit a label run and a right-aligned value run.
pub fn render_label_value(
    out: &mut Vec<StyledRun>,
    label: &str,
    value: String,
    label_rect: Rect,
    value_rect: Rect,
)
    ensures
        runs_view(final(out)@) == runs_view(old(out)@) + spec_label_value(
            label@,
            value@,
            label_rect,
            value_rect,
        ),
{
    let value_view = Ghost(value@);
    push_run(out, label.to_owned(), label_rect, None, Alignment::Left);
    push_run(out, value, value_rect, None, Alignment::Right);
    proof {
        assert(runs_view(out@) =~= runs_view(old(out)@) + spec_label_value(
            label@,
            value_view@,
            label_rect,
            value_rect,
        ));
    }
}

/// A prefixed percentage line, colored by the reading's severity tier.
pub open spec fn spec_percent_line(prefix: Seq<char>, micro: u64, region: Rect) -> RunView {
    RunView {
        text: prefix + spec_percent_text(micro),
        region,
        tier: Some(spec_classify(micro)),
        alignment: Alignment::Left,
    }
}

/// Emit a `prefix: XX.XX%` line colored by severity.
pub fn render_percent_line(out: &mut Vec<StyledRun>, prefix: &str, micro: u64, region: Rect)
    ensures
        runs_view(final(out)@) == runs_view(old(out)@).push(
            spec_percent_line(prefix@, micro, region),
        ),
{
    let mut text = prefix.to_owned();
    let pct = percent_string(micro);
    text.append(pct.as_str());
    let tier = classify(micro);
    push_run(out, text, region, Some(tier), Alignment::Left);
}

/// A right-aligned percentage bar, colored by the reading's severity tier.
pub open spec fn spec_bar_run(micro: u64, region: Rect) -> RunView {
    RunView {
        text: spec_bar_text(micro),
        region,
        tier: Some(spec_classify(micro)),
        alignment: Alignment::Right,
    }
}

/// Emit a right-aligned severity-colored percentage bar.
pub fn render_bar(out: &mut Vec<StyledRun>, micro: u64, region: Rect)
    ensures
        runs_view(final(out)@) == runs_view(old(out)@).push(spec_bar_run(micro, region)),
{
    let bar = bar_string(micro);
    let tier = classify(micro);
    push_run(out, bar, region, Some(tier), Alignment::Right);
}

/// The two runs of one CPU core row: `CPU <label>: XX.XX%` and its bar.
pub open spec fn spec_cpu_core_runs(core: CpuCore, pct_rect: Rect, bar_rect: Rect) -> Seq<RunView> {
    seq![
        spec_percent_line("CPU "@ + core.label@ + ": "@, core.usage_micro, pct_rect),
        spec_bar_run(core.usage_micro, bar_rect),
    ]
}

/// Render one core's row: its percentage line and its bar.
pub fn render_individual_cpu(out: &mut Vec<StyledRun>, core: &CpuCore, pct_rect: Rect, bar_rect: Rect)
    ensures
        runs_view(final(out)@) == runs_view(old(out)@) + spec_cpu_core_runs(*core, pct_rect, bar_rect),
{
    let mut prefix = String::from_str("CPU ");
    prefix.append(core.label.as_str());
    prefix.append(": ");
    render_percent_line(out, prefix.as_str(), core.usage_micro, pct_rect);
    render_bar(out, core.usage_micro, bar_rect);
    proof {
        assert(runs_view(out@) =~= runs_view(old(out)@) + spec_cpu_core_runs(*core, pct_rect, bar_rect));
    }
}

/// The rows of the first `i` CPU cores, concatenated in order.
pub open spec fn spec_cpu_rows(
    cores: Seq<CpuCore>,
    pct_rects: Seq<Rect>,
    bar_rects: Seq<Rect>,
    i: int,
) -> Seq<RunView>
    decreases i,
{
    if i <= 0 {
        Seq::empty()
    } else {
        spec_cpu_rows(cores, pct_rects, bar_rects, i - 1) + spec_cpu_core_runs(
            cores[i - 1],
            pct_rects[i - 1],
            bar_rects[i - 1],
        )
    }
}

/// The CPU panel: a global usage line, then one row per core (percentage
/// column left, bar column right) in core order.
pub open spec fn spec_cpu_panel(global_micro: u64, cores: Seq<CpuCore>, chunk: Rect) -> Seq<RunView> {
    let inner = spec_partition(
        chunk,
        Direction::Vertical,
        Margin { horizontal: 1, vertical: 1 },
        seq![Constraint::Fixed(2), Constraint::Fixed(10)],
    );
    let halves = spec_partition(
        inner[1],
        Direction::Horizontal,
        Margin { horizontal: 0, vertical: 0 },
        seq![Constraint::Percent(50), Constraint::Percent(50)],
    );
    let row_cs = spec_fixed_rows(cores.len() as int);
    let pct_rects = spec_partition(halves[0], Direction::Vertical, Margin { horizontal: 0, vertical: 0 }, row_cs);
    let bar_rects = spec_partition(halves[1], Direction::Vertical, Margin { horizontal: 0, vertical: 0 }, row_cs);
    seq![spec_percent_line("Global CPU Usage: "@, global_micro, inner[0])] + spec_cpu_rows(
        cores,
        pct_rects,
        bar_rects,
        cores.len() as int,
    )
}

/// Render the CPU panel; see `spec_cpu_panel`.
pub fn render_cpu_stats(out: &mut Vec<StyledRun>, global_micro: u64, cores: &Vec<CpuCore>, chunk: Rect)
    ensures
        runs_view(final(out)@) == runs_view(old(out)@) + spec_cpu_panel(global_micro, cores@, chunk),
{
    let cs = constraint_pair(Constraint::Fixed(2), Constraint::Fixed(10));
    let inner = partition(chunk, Direction::Vertical, Margin::uniform(1), &cs);
    let halves_cs = constraint_pair(Constraint::Percent(50), Constraint::Percent(50));
    let halves = partition(inner[1], Direction::Horizontal, Margin::uniform(0), &halves_cs);
    let row_cs = fixed_rows(cores.len());
    let pct_rects = partition(halves[0], Direction::Vertical, Margin::uniform(0), &row_cs);
    let bar_rects = partition(halves[1], Direction::Vertical, Margin::uniform(0), &row_cs);

    render_percent_line(out, "Global CPU Usage: ", global_micro, inner[0]);
    let ghost base = runs_view(old(out)@) + seq![
        spec_percent_line("Global CPU Usage: "@, global_micro, inner@[0]),
    ];
    proof {
        assert(runs_view(out@) =~= base + spec_cpu_rows(cores@, pct_rects@, bar_rects@, 0));
    }
    let n = cores.len();
    let mut i: usize = 0;
    while i < n
        invariant
            i <= n,
            n == cores@.len(),
            pct_rects@.len() == n,
            bar_rects@.len() == n,
            runs_view(out@) == base + spec_cpu_rows(cores@, pct_rects@, bar_rects@, i as int),
        decreases n - i,
    {
        render_individual_cpu(out, &cores[i], pct_rects[i], bar_rects[i]);
        proof {
            assert(runs_view(out@) =~= base + spec_cpu_rows(
                cores@,
                pct_rects@,
                bar_rects@,
                i + 1,
            ));
        }
        i += 1;
    }
    proof {
        assert(runs_view(out@) =~= runs_view(old(out)@) + spec_cpu_panel(
            global_micro,
            cores@,
            chunk,
        ));
    }
}

/// The memory panel: a percentage line and bar, then total, available,
/// used (gigabytes) and free (megabytes) rows.
pub open spec fn spec_memory_panel(mem: MemoryStats, chunk: Rect) -> Seq<RunView> {
    let halves = spec_partition(
        chunk,
        Direction::Horizontal,
        Margin { horizontal: 0, vertical: 0 },
        seq![Constraint::Percent(50), Constraint::Percent(50)],
    );
    let labels = spec_partition(halves[0], Direction::Vertical, Margin { horizontal: 1, vertical: 1 }, spec_fixed_rows(6));
    let values = spec_partition(halves[1], Direction::Vertical, Margin { horizontal: 1, vertical: 1 }, spec_fixed_rows(6));
    let pct = spec_percent_micro(mem.used_bytes, mem.total_bytes);
    seq![spec_percent_line("Memory: "@, pct, labels[0]), spec_bar_run(pct, values[0])]
        + spec_label_value("Total Memory: "@, spec_gb_text(mem.total_bytes), labels[2], values[2])
        + spec_label_value("Avail Memory: "@, spec_gb_text(mem.available_bytes), labels[3], values[3])
        + spec_label_value("Used Memory: "@, spec_gb_text(mem.used_bytes), labels[4], values[4])
        + spec_label_value("Free Memory: "@, spec_mb_text(mem.free_bytes), labels[5], values[5])
}

/// Render the memory panel; see `spec_memory_panel`.
pub fn render_mem_stats(out: &mut Vec<StyledRun>, mem: MemoryStats, chunk: Rect)
    ensures
        runs_view(final(out)@) == runs_view(old(out)@) + spec_memory_panel(mem, chunk),
{
    let halves_cs = constraint_pair(Constraint::Percent(50), Constraint::Percent(50));
    let halves = partition(chunk, Direction::Horizontal, Margin::uniform(0), &halves_cs);
    let rows = fixed_rows(6);
    let labels = partition(halves[0], Direction::Vertical, Margin::uniform(1), &rows);
    let values = partition(halves[1], Direction::Vertical, Margin::uniform(1), &rows);

    let pct = percent_micro(mem.used_bytes, mem.total_bytes);
    render_percent_line(out, "Memory: ", pct, labels[0]);
    render_bar(out, pct, values[0]);
    render_label_value(out, "Total Memory: ", gb_string(mem.total_bytes), labels[2], values[2]);
    render_label_value(out, "Avail Memory: ", gb_string(mem.available_bytes), labels[3], values[3]);
    render_label_value(out, "Used Memory: ", gb_string(mem.used_bytes), labels[4], values[4]);
    render_label_value(out, "Free Memory: ", mb_string(mem.free_bytes), labels[5], values[5]);
    proof {
        assert(runs_view(out@) =~= runs_view(old(out)@) + spec_memory_panel(mem, chunk));
    }
}

/// The swap panel: a percentage line and bar, then total, used and free
/// rows in gigabytes. A zero-total swap reads as zero percent.
pub open spec fn spec_swap_panel(swap: SwapStats, chunk: Rect) -> Seq<RunView> {
    let halves = spec_partition(
        chunk,
        Direction::Horizontal,
        Margin { horizontal: 0, vertical: 0 },
        seq![Constraint::Percent(50), Constraint::Percent(50)],
    );
    let labels = spec_partition(halves[0], Direction::Vertical, Margin { horizontal: 1, vertical: 1 }, spec_fixed_rows(5));
    let values = spec_partition(halves[1], Direction::Vertical, Margin { horizontal: 1, vertical: 1 }, spec_fixed_rows(5));
    let pct = spec_percent_micro(swap.used_bytes, swap.total_bytes);
    seq![spec_percent_line("swp: "@, pct, labels[0]), spec_bar_run(pct, values[0])]
        + spec_label_value("Total swp: "@, spec_gb_text(swap.total_bytes), labels[2], values[2])
        + spec_label_value("Used swp: "@, spec_gb_text(swap.used_bytes), labels[3], values[3])
        + spec_label_value("Free swp: "@, spec_gb_text(swap.free_bytes), labels[4], values[4])
}

/// Render the swap panel; see `spec_swap_panel`.
pub fn render_swp_stats(out: &mut Vec<StyledRun>, swap: SwapStats, chunk: Rect)
    ensures
        runs_view(final(out)@) == runs_view(old(out)@) + spec_swap_panel(swap, chunk),
{
    let halves_cs = constraint_pair(Constraint::Percent(50), Constraint::Percent(50));
    let halves = partition(chunk, Direction::Horizontal, Margin::uniform(0), &halves_cs);
    let rows = fixed_rows(5);
    let labels = partition(halves[0], Direction::Vertical, Margin::uniform(1), &rows);
    let values = partition(halves[1], Direction::Vertical, Margin::uniform(1), &rows);

    let pct = percent_micro(swap.used_bytes, swap.total_bytes);
    render_percent_line(out, "swp: ", pct, labels[0]);
    render_bar(out, pct, values[0]);
    render_label_value(out, "Total swp: ", gb_string(swap.total_bytes), labels[2], values[2]);
    render_label_value(out, "Used swp: ", gb_string(swap.used_bytes), labels[3], values[3]);
    render_label_value(out, "Free swp: ", gb_string(swap.free_bytes), labels[4], values[4]);
    proof {
        assert(runs_view(out@) =~= runs_view(old(out)@) + spec_swap_panel(swap, chunk));
    }
}

/// One disk's titled sub-block: mount point, name, severity-colored usage
/// percentage, filesystem and kind rows.
pub open spec fn spec_disk_block(disk: DiskInfo, index: int, block: Rect) -> Seq<RunView> {
    let cols = spec_partition(
        block,
        Direction::Horizontal,
        Margin { horizontal: 1, vertical: 0 },
        seq![Constraint::Percent(50), Constraint::Percent(50)],
    );
    let labels = spec_partition(cols[0], Direction::Vertical, Margin { horizontal: 1, vertical: 1 }, spec_fixed_rows(5));
    let values = spec_partition(cols[1], Direction::Vertical, Margin { horizontal: 1, vertical: 1 }, spec_fixed_rows(5));
    let pct = spec_percent_micro(spec_disk_used(disk.total_bytes, disk.available_bytes), disk.total_bytes);
    seq![RunView { text: "Disk "@ + dec_digits(index as nat), region: block, tier: None, alignment: Alignment::Left }]
        + spec_label_value("Mount Point:"@, disk.mount_point@, labels[0], values[0])
        + spec_label_value("Name: "@, disk.name@, labels[1], values[1])
        + seq![
            RunView { text: "Usage: "@, region: labels[2], tier: None, alignment: Alignment::Left },
            RunView {
                text: spec_percent_text(pct),
                region: values[2],
                tier: Some(spec_classify(pct)),
                alignment: Alignment::Right,
            },
        ]
        + spec_label_value("Filesystem: "@, disk.filesystem@, labels[3], values[3])
        + spec_label_value("Kind: "@, disk.kind@, labels[4], values[4])
}

/// The blocks of the first `i` disks, concatenated in order.
pub open spec fn spec_disk_blocks(disks: Seq<DiskInfo>, blocks: Seq<Rect>, i: int) -> Seq<RunView>
    decreases i,
{
    if i <= 0 {
        Seq::empty()
    } else {
        spec_disk_blocks(disks, blocks, i - 1) + spec_disk_block(disks[i - 1], i - 1, blocks[i - 1])
    }
}

/// The disk panel: one titled sub-block per disk, stacked vertically in
/// equal percentage shares. With no disks the panel is empty.
pub open spec fn spec_disk_panel(disks: Seq<DiskInfo>, chunk: Rect) -> Seq<RunView> {
    if disks.len() == 0 {
        Seq::empty()
    } else {
        let share = (100int / disks.len() as int) as u16;
        let cs = Seq::new(disks.len(), |i: int| Constraint::Percent(share));
        let blocks = spec_partition(chunk, Direction::Vertical, Margin { horizontal: 1, vertical: 1 }, cs);
        spec_disk_blocks(disks, blocks, disks.len() as int)
    }
}

/// Render one disk block; see `spec_disk_block`.
fn render_disk_block(out: &mut Vec<StyledRun>, disk: &DiskInfo, index: usize, block: Rect)
    ensures
        runs_view(final(out)@) == runs_view(old(out)@) + spec_disk_block(*disk, index as int, block),
{
    let cols_cs = constraint_pair(Constraint::Percent(50), Constraint::Percent(50));
    let cols = partition(block, Direction::Horizontal, Margin { horizontal: 1, vertical: 0 }, &cols_cs);
    let rows = fixed_rows(5);
    let labels = partition(cols[0], Direction::Vertical, Margin::uniform(1), &rows);
    let values = partition(cols[1], Direction::Vertical, Margin::uniform(1), &rows);

    let mut title = String::from_str("Disk ");
    let num = decimal_string(index as u64);
    title.append(num.as_str());
    push_run(out, title, block, None, Alignment::Left);

    render_label_value(out, "Mount Point:", disk.mount_point.clone(), labels[0], values[0]);
    render_label_value(out, "Name: ", disk.name.clone(), labels[1], values[1]);

    let pct = percent_micro(disk_used(disk.total_bytes, disk.available_bytes), disk.total_bytes);
    push_run(out, String::from_str("Usage: "), labels[2], None, Alignment::Left);
    let tier = classify(pct);
    push_run(out, percent_string(pct), values[2], Some(tier), Alignment::Right);

    render_label_value(out, "Filesystem: ", disk.filesystem.clone(), labels[3], values[3]);
    render_label_value(out, "Kind: ", disk.kind.clone(), labels[4], values[4]);
    proof {
        reveal_strlit("Usage: ");
        assert(runs_view(out@) =~= runs_view(old(out)@) + spec_disk_block(*disk, index as int, block));
    }
}

/// Render the disk panel; see `spec_disk_panel`.
pub fn render_disk_stats(out: &mut Vec<StyledRun>, disks: &Vec<DiskInfo>, chunk: Rect)
    ensures
        runs_view(final(out)@) == runs_view(old(out)@) + spec_disk_panel(disks@, chunk),
{
    let n = disks.len();
    if n == 0 {
        proof {
            assert(runs_view(out@) =~= runs_view(old(out)@) + spec_disk_panel(disks@, chunk));
        }
        return ;
    }
    let share: u16 = (100 / n) as u16;
    let mut cs: Vec<Constraint> = Vec::new();
    let mut i: usize = 0;
    while i < n
        invariant
            i <= n,
            cs@.len() == i,
            forall|j: int| 0 <= j < i ==> cs@[j] == Constraint::Percent(share),
        decreases n - i,
    {
        cs.push(Constraint::Percent(share));
        i += 1;
    }
    proof {
        assert(cs@ =~= Seq::new(disks@.len(), |i: int| Constraint::Percent(share)));
    }
    let blocks = partition(chunk, Direction::Vertical, Margin::uniform(1), &cs);
    let mut i: usize = 0;
    while i < n
        invariant
            i <= n,
            n == disks@.len(),
            blocks@.len() == n,
            blocks@ == spec_partition(
                chunk,
                Direction::Vertical,
                Margin { horizontal: 1, vertical: 1 },
                Seq::new(disks@.len(), |i: int| Constraint::Percent((100int / disks@.len() as int) as u16)),
            ),
            runs_view(out@) == runs_view(old(out)@) + spec_disk_blocks(disks@, blocks@, i as int),
        decreases n - i,
    {
        render_disk_block(out, &disks[i], i, blocks[i]);
        proof {
            assert(runs_view(out@) =~= runs_view(old(out)@) + spec_disk_blocks(
                disks@,
                blocks@,
                i + 1,
            ));
        }
        i += 1;
    }
    proof {
        assert(runs_view(out@) =~= runs_view(old(out)@) + spec_disk_panel(disks@, chunk));
    }
}

/// The host metadata panel: a titled frame with hostname, OS version,
/// uptime, CPU architecture and OS name rows.
pub open spec fn spec_host_panel(host: HostInfo, chunk: Rect) -> Seq<RunView> {
    let pad = spec_partition(
        chunk,
        Direction::Horizontal,
        Margin { horizontal: 1, vertical: 0 },
        seq![Constraint::Minimum(1)],
    );
    let frame = pad[0];
    let cols = spec_partition(
        frame,
        Direction::Horizontal,
        Margin { horizontal: 1, vertical: 1 },
        seq![Constraint::Percent(33), Constraint::Percent(67)],
    );
    let labels = spec_partition(cols[0], Direction::Vertical, Margin { horizontal: 1, vertical: 1 }, spec_fixed_rows(5));
    let values = spec_partition(cols[1], Direction::Vertical, Margin { horizontal: 1, vertical: 1 }, spec_fixed_rows(5));
    seq![RunView { text: "System"@, region: frame, tier: None, alignment: Alignment::Left }]
        + spec_label_value("Hostname: "@, host.hostname@, labels[0], values[0])
        + spec_label_value("Version: "@, host.os_version@, labels[1], values[1])
        + spec_label_value("Up-time: "@, dec_digits(host.uptime_seconds as nat), labels[2], values[2])
        + spec_label_value("CPU Arch: "@, host.cpu_arch@, labels[3], values[3])
        + spec_label_value("OS: "@, host.os_name@, labels[4], values[4])
}

/// Render the host metadata panel; see `spec_host_panel`.
pub fn render_system_stats(out: &mut Vec<StyledRun>, host: &HostInfo, chunk: Rect)
    ensures
        runs_view(final(out)@) == runs_view(old(out)@) + spec_host_panel(*host, chunk),
{
    let mut pad_cs: Vec<Constraint> = Vec::new();
    pad_cs.push(Constraint::Minimum(1));
    proof {
        assert(pad_cs@ =~= seq![Constraint::Minimum(1)]);
    }
    let pad = partition(chunk, Direction::Horizontal, Margin { horizontal: 1, vertical: 0 }, &pad_cs);
    let frame = pad[0];
    let cols_cs = constraint_pair(Constraint::Percent(33), Constraint::Percent(67));
    let cols = partition(frame, Direction::Horizontal, Margin::uniform(1), &cols_cs);
    let rows = fixed_rows(5);
    let labels = partition(cols[0], Direction::Vertical, Margin::uniform(1), &rows);
    let values = partition(cols[1], Direction::Vertical, Margin::uniform(1), &rows);

    push_run(out, String::from_str("System"), frame, None, Alignment::Left);
    render_label_value(out, "Hostname: ", host.hostname.clone(), labels[0], values[0]);
    render_label_value(out, "Version: ", host.os_version.clone(), labels[1], values[1]);
    render_label_value(out, "Up-time: ", decimal_string(host.uptime_seconds), labels[2], values[2]);
    render_label_value(out, "CPU Arch: ", host.cpu_arch.clone(), labels[3], values[3]);
    render_label_value(out, "OS: ", host.os_name.clone(), labels[4], values[4]);
    proof {
        assert(runs_view(out@) =~= runs_view(old(out)@) + spec_host_panel(*host, chunk));
    }
}

/// Percentage share of the stats column the CPU panel claims: a base of 7
/// plus 2 per core, saturating at the constraint range.
pub open spec fn spec_cpu_share(core_count: int) -> u16 {
    if 7 + 2 * core_count > 0xffff {
        0xffff
    } else {
        (7 + 2 * core_count) as u16
    }
}

/// The five stacked panel regions of the stats column: CPU (growing with
/// the core count), memory, swap, disks, and host metadata.
pub open spec fn spec_stats_chunk_rects(core_count: int, chunk: Rect) -> Seq<Rect> {
    spec_partition(
        chunk,
        Direction::Vertical,
        Margin { horizontal: 1, vertical: 1 },
        seq![
            Constraint::Percent(spec_cpu_share(core_count)),
            Constraint::Percent(16),
            Constraint::Percent(14),
            Constraint::Percent(31),
            Constraint::Percent(20),
        ],
    )
}

/// The whole stats column: a `Stats` title over the five panels.
pub open spec fn spec_stats_panel(snap: MetricsSnapshot, chunk: Rect) -> Seq<RunView> {
    let sub = spec_stats_chunk_rects(snap.cores@.len() as int, chunk);
    seq![RunView { text: "Stats"@, region: chunk, tier: None, alignment: Alignment::Left }]
        + spec_cpu_panel(snap.global_cpu_micro, snap.cores@, sub[0])
        + spec_memory_panel(snap.memory, sub[1])
        + spec_swap_panel(snap.swap, sub[2])
        + spec_disk_panel(snap.disks@, sub[3])
        + spec_host_panel(snap.host, sub[4])
}

/// Render the stats column into `chunk` and return its five panel regions.
#[verifier::rlimit(60)]
pub fn create_stats_chunk(snap: &MetricsSnapshot, chunk: Rect, out: &mut Vec<StyledRun>) -> (sub: Vec<Rect>)
    ensures
        runs_view(final(out)@) == runs_view(old(out)@) + spec_stats_panel(*snap, chunk),
        sub@ == spec_stats_chunk_rects(snap.cores@.len() as int, chunk),
{
    let n = snap.cores.len();
    let share: u16 = if n >= 32765 {
        0xffff
    } else {
        (7 + 2 * n) as u16
    };
    proof {
        assert(share == spec_cpu_share(snap.cores@.len() as int));
    }
    let mut cs: Vec<Constraint> = Vec::new();
    cs.push(Constraint::Percent(share));
    cs.push(Constraint::Percent(16));
    cs.push(Constraint::Percent(14));
    cs.push(Constraint::Percent(31));
    cs.push(Constraint::Percent(20));
    proof {
        assert(cs@ =~= seq![
            Constraint::Percent(spec_cpu_share(snap.cores@.len() as int)),
            Constraint::Percent(16),
            Constraint::Percent(14),
            Constraint::Percent(31),
            Constraint::Percent(20),
        ]);
    }
    let sub = partition(chunk, Direction::Vertical, Margin::uniform(1), &cs);

    push_run(out, String::from_str("Stats"), chunk, None, Alignment::Left);
    render_cpu_stats(out, snap.global_cpu_micro, &snap.cores, sub[0]);
    render_mem_stats(out, snap.memory, sub[1]);
    render_swp_stats(out, snap.swap, sub[2]);
    render_disk_stats(out, &snap.disks, sub[3]);
    render_system_stats(out, &snap.host, sub[4]);
    proof {
        assert(runs_view(out@) =~= runs_view(old(out)@) + spec_stats_panel(*snap, chunk));
    }
    sub
}

} // verus!
