//! The process table: filter, stable descending sort by memory, and the
//! tabular rendering with fixed column-width percentages.

use vstd::prelude::*;
use crate::format::{
    dec_digits, spec_truncate_chars, spec_mb_number_text, spec_percent_text, decimal_string,
    truncate_chars, mb_number_string, percent_string,
};
use crate::geometry::{Constraint, Direction, Margin, Rect, partition, spec_partition, sat16};
use crate::runs::{Alignment, RunView, StyledRun, push_run, runs_view};
use crate::snapshot::{MetricsSnapshot, ProcessInfo, ProcessView, process_views};

verus! {

/// Processes at or below this many bytes of memory are not shown.
pub const MEMORY_FLOOR_BYTES: u64 = 50_000_000;

/// Characters kept of a process name; the rest is cut with no ellipsis.
pub const NAME_LIMIT_CHARS: usize = 21;

/// The processes whose memory use is strictly above the floor, in
/// snapshot order.
pub open spec fn spec_keep_over_floor(s: Seq<ProcessView>) -> Seq<ProcessView>
    decreases s.len(),
{
    if s.len() == 0 {
        Seq::empty()
    } else {
        spec_keep_over_floor(s.drop_last()) + if s.last().memory_bytes > MEMORY_FLOOR_BYTES {
            seq![s.last()]
        } else {
            Seq::empty()
        }
    }
}

/// Insert `p` into `s` after every element with at least as much memory:
/// the insertion step of a stable descending sort.
pub open spec fn spec_insert_desc(s: Seq<ProcessView>, p: ProcessView) -> Seq<ProcessView>
    decreases s.len(),
{
    if s.len() == 0 {
        seq![p]
    } else if s[0].memory_bytes >= p.memory_bytes {
        seq![s[0]] + spec_insert_desc(s.subrange(1, s.len() as int), p)
    } else {
        seq![p] + s
    }
}

/// Stable descending sort by memory: elements with equal memory keep
/// their original relative order.
pub open spec fn spec_sort_desc(s: Seq<ProcessView>) -> Seq<ProcessView>
    decreases s.len(),
{
    if s.len() == 0 {
        Seq::empty()
    } else {
        spec_insert_desc(spec_sort_desc(s.drop_last()), s.last())
    }
}

/// The table's selection: filter above the memory floor, then sort by
/// memory descending, stably.
pub open spec fn spec_select(s: Seq<ProcessView>) -> Seq<ProcessView> {
    spec_sort_desc(spec_keep_over_floor(s))
}

/// Inserting at the first index whose element has less memory is exactly
/// the stable insertion step.
proof fn lemma_insert_at(s: Seq<ProcessView>, p: ProcessView, j: int)
    requires
        0 <= j <= s.len(),
        forall|k: int| 0 <= k < j ==> s[k].memory_bytes >= p.memory_bytes,
        j < s.len() ==> s[j].memory_bytes < p.memory_bytes,
    ensures
        spec_insert_desc(s, p) == s.subrange(0, j) + seq![p] + s.subrange(j, s.len() as int),
    decreases s.len(),
{
    if s.len() == 0 {
        assert(spec_insert_desc(s, p) =~= s.subrange(0, j) + seq![p] + s.subrange(j, s.len() as int));
    } else if s[0].memory_bytes >= p.memory_bytes {
        lemma_insert_at(s.subrange(1, s.len() as int), p, j - 1);
        assert(spec_insert_desc(s, p) =~= s.subrange(0, j) + seq![p] + s.subrange(j, s.len() as int));
    } else {
        assert(spec_insert_desc(s, p) =~= s.subrange(0, j) + seq![p] + s.subrange(j, s.len() as int));
    }
}

/// Whether memory is non-increasing along the sequence.
pub open spec fn spec_sorted_desc(s: Seq<ProcessView>) -> bool {
    forall|i: int, j: int| 0 <= i < j < s.len() ==> s[i].memory_bytes >= s[j].memory_bytes
}

/// Every kept process is strictly above the memory floor.
proof fn lemma_keep_above_floor(s: Seq<ProcessView>)
    ensures
        forall|k: int| 0 <= k < spec_keep_over_floor(s).len()
            ==> spec_keep_over_floor(s)[k].memory_bytes > MEMORY_FLOOR_BYTES,
    decreases s.len(),
{
    if s.len() > 0 {
        lemma_keep_above_floor(s.drop_last());
    }
}

/// The stable insertion step keeps the order sorted, adds exactly the new
/// element to the contents, and invents no element.
proof fn lemma_insert_desc_properties(s: Seq<ProcessView>, p: ProcessView)
    requires
        spec_sorted_desc(s),
    ensures
        spec_sorted_desc(spec_insert_desc(s, p)),
        spec_insert_desc(s, p).to_multiset() == s.to_multiset().insert(p),
        forall|k: int| 0 <= k < spec_insert_desc(s, p).len() ==> (spec_insert_desc(s, p)[k] == p
            || s.contains(spec_insert_desc(s, p)[k])),
    decreases s.len(),
{
    broadcast use vstd::multiset::group_multiset_axioms;
    broadcast use vstd::seq_lib::group_to_multiset_ensures;

    let r = spec_insert_desc(s, p);
    if s.len() == 0 {
        assert(r =~= s.push(p));
        vstd::seq_lib::to_multiset_build(s, p);
        assert(r.to_multiset() =~= s.to_multiset().insert(p));
    } else if s[0].memory_bytes >= p.memory_bytes {
        let tail = s.subrange(1, s.len() as int);
        assert(spec_sorted_desc(tail));
        lemma_insert_desc_properties(tail, p);
        let rec = spec_insert_desc(tail, p);
        assert(r == seq![s[0]] + rec);
        assert forall|k: int| 0 <= k < r.len() implies (r[k] == p || s.contains(r[k])) by {
            if k == 0 {
                assert(s.contains(s[0]));
            } else {
                assert(r[k] == rec[k - 1]);
                if rec[k - 1] != p {
                    let w = choose|w: int| 0 <= w < tail.len() && tail[w] == rec[k - 1];
                    assert(s[w + 1] == rec[k - 1]);
                    assert(s.contains(rec[k - 1]));
                }
            }
        }
        assert forall|i: int, j: int| 0 <= i < j < r.len() implies r[i].memory_bytes
            >= r[j].memory_bytes by {
            if i == 0 {
                if r[j] != p {
                    let w = choose|w: int| 0 <= w < tail.len() && tail[w] == r[j];
                    assert(s[0].memory_bytes >= s[w + 1].memory_bytes);
                }
            }
        }
        assert(s =~= seq![s[0]] + tail);
        vstd::seq_lib::lemma_multiset_commutative(seq![s[0]], tail);
        assert(s.to_multiset() == seq![s[0]].to_multiset().add(tail.to_multiset()));
        vstd::seq_lib::lemma_multiset_commutative(seq![s[0]], rec);
        assert(r.to_multiset() == seq![s[0]].to_multiset().add(rec.to_multiset()));
        assert(rec.to_multiset() == tail.to_multiset().insert(p));
        assert(r.to_multiset() =~= s.to_multiset().insert(p));
    } else {
        assert(r == seq![p] + s);
        vstd::seq_lib::lemma_multiset_commutative(seq![p], s);
        assert(r.to_multiset() == seq![p].to_multiset().add(s.to_multiset()));
        assert(seq![p] =~= Seq::<ProcessView>::empty().push(p));
        vstd::seq_lib::to_multiset_build(Seq::<ProcessView>::empty(), p);
        assert(seq![p].to_multiset() == Seq::<ProcessView>::empty().to_multiset().insert(p));
        assert(r.to_multiset() =~= s.to_multiset().insert(p));
        assert forall|k: int| 0 <= k < r.len() implies (r[k] == p || s.contains(r[k])) by {
            if k > 0 {
                assert(r[k] == s[k - 1]);
            }
        }
    }
}

/// The stable sort leaves the contents unchanged, orders them by memory
/// descending, and invents no element.
proof fn lemma_sort_desc_properties(s: Seq<ProcessView>)
    ensures
        spec_sorted_desc(spec_sort_desc(s)),
        spec_sort_desc(s).to_multiset() == s.to_multiset(),
        forall|k: int| 0 <= k < spec_sort_desc(s).len() ==> s.contains(spec_sort_desc(s)[k]),
    decreases s.len(),
{
    let r = spec_sort_desc(s);
    if s.len() == 0 {
        assert(r =~= s);
    } else {
        let dl = s.drop_last();
        lemma_sort_desc_properties(dl);
        lemma_insert_desc_properties(spec_sort_desc(dl), s.last());
        assert(s =~= dl.push(s.last()));
        vstd::seq_lib::to_multiset_build(dl, s.last());
        assert(s.to_multiset() == dl.to_multiset().insert(s.last()));
        assert(r.to_multiset() == spec_sort_desc(dl).to_multiset().insert(s.last()));
        assert(r.to_multiset() =~= s.to_multiset());
        assert forall|k: int| 0 <= k < r.len() implies s.contains(r[k]) by {
            if r[k] == s.last() {
                assert(s[s.len() - 1] == s.last());
            } else {
                assert(spec_sort_desc(dl).contains(r[k]));
                let w = choose|w: int|
                    0 <= w < spec_sort_desc(dl).len() && spec_sort_desc(dl)[w] == r[k];
                let v = choose|v: int| 0 <= v < dl.len() && dl[v] == r[k];
                assert(s[v] == r[k]);
            }
        }
    }
}

/// The selection law: the selected processes are sorted by memory
/// descending, they are exactly (as a multiset) the snapshot's processes
/// strictly above the memory floor, and every selected process is above
/// that floor.
pub proof fn lemma_select_properties(s: Seq<ProcessView>)
    ensures
        spec_sorted_desc(spec_select(s)),
        spec_select(s).to_multiset() == spec_keep_over_floor(s).to_multiset(),
        forall|k: int| 0 <= k < spec_select(s).len() ==> spec_select(s)[k].memory_bytes
            > MEMORY_FLOOR_BYTES,
{
    let kept = spec_keep_over_floor(s);
    lemma_keep_above_floor(s);
    lemma_sort_desc_properties(kept);
    assert forall|k: int| 0 <= k < spec_select(s).len() implies spec_select(s)[k].memory_bytes
        > MEMORY_FLOOR_BYTES by {
        assert(kept.contains(spec_select(s)[k]));
        let w = choose|w: int| 0 <= w < kept.len() && kept[w] == spec_select(s)[k];
        assert(kept[w].memory_bytes > MEMORY_FLOOR_BYTES);
    }
}

/// Filter the snapshot's processes to those strictly above the memory
/// floor and sort them by memory descending; the sort is stable, so ties
/// keep snapshot order.
pub fn select_processes(procs: &Vec<ProcessInfo>) -> (out: Vec<ProcessInfo>)
    ensures
        process_views(out@) == spec_select(process_views(procs@)),
{
    broadcast use vstd::prelude::Seq::lemma_push_map_commute;

    let n = procs.len();
    let mut out: Vec<ProcessInfo> = Vec::new();
    let mut i: usize = 0;
    while i < n
        invariant
            i <= n,
            n == procs@.len(),
            process_views(out@) == spec_sort_desc(
                spec_keep_over_floor(process_views(procs@.subrange(0, i as int))),
            ),
        decreases n - i,
    {
        let ghost pre = process_views(procs@.subrange(0, i as int));
        let ghost post = process_views(procs@.subrange(0, i + 1));
        proof {
            assert(procs@.subrange(0, i + 1).drop_last() =~= procs@.subrange(0, i as int));
            assert(procs@.subrange(0, i + 1) =~= procs@.subrange(0, i as int).push(
                procs@[i as int],
            ));
            assert(post =~= pre.push(procs@[i as int]@));
            assert(post.drop_last() =~= pre);
            assert(spec_keep_over_floor(post) == spec_keep_over_floor(pre)
                + if procs@[i as int]@.memory_bytes > MEMORY_FLOOR_BYTES {
                seq![procs@[i as int]@]
            } else {
                Seq::<ProcessView>::empty()
            });
        }
        let p = &procs[i];
        if p.memory_bytes > MEMORY_FLOOR_BYTES {
            proof {
                assert(spec_keep_over_floor(post).drop_last() =~= spec_keep_over_floor(pre));
                assert(spec_keep_over_floor(post).last() == procs@[i as int]@);
            }
            let mut j: usize = 0;
            while j < out.len() && out[j].memory_bytes >= p.memory_bytes
                invariant
                    j <= out@.len(),
                    forall|k: int| 0 <= k < j ==> process_views(out@)[k].memory_bytes
                        >= p.memory_bytes,
                decreases out@.len() - j,
            {
                j += 1;
            }
            let ghost old_views = process_views(out@);
            out.insert(j, p.clone());
            proof {
                lemma_insert_at(old_views, p@, j as int);
                assert(process_views(out@) =~= old_views.subrange(0, j as int) + seq![p@]
                    + old_views.subrange(j as int, old_views.len() as int));
                assert(process_views(out@) =~= spec_insert_desc(old_views, p@));
            }
        } else {
            proof {
                assert(spec_keep_over_floor(post) =~= spec_keep_over_floor(pre));
            }
        }
        i += 1;
    }
    proof {
        assert(procs@.subrange(0, n as int) =~= procs@);
    }
    out
}

/// The six column header texts.
pub open spec fn spec_header_cells() -> Seq<Seq<char>> {
    seq!["PID"@, "Name"@, "Mem (MB)"@, "CPU"@, "Uptime (s)"@, "EUID/EGID"@]
}

/// The cell rectangle of column `col` in table row `row` (from the table
/// region's top), one cell high.
pub open spec fn spec_cell_rect(col: Rect, region: Rect, row: int) -> Rect {
    Rect { x: col.x, y: sat16(region.y + row), width: col.width, height: 1 }
}

/// The header row: one unstyled left-aligned run per column.
pub open spec fn spec_header_runs(cols: Seq<Rect>, region: Rect) -> Seq<RunView> {
    Seq::new(
        6,
        |j: int| RunView {
            text: spec_header_cells()[j],
            region: spec_cell_rect(cols[j], region, 0),
            tier: None,
            alignment: Alignment::Left,
        },
    )
}

/// The effective user/group id pair as `uid/gid`, or `-/-` where the OS
/// reports none.
pub open spec fn spec_ids_text(ids: Option<(u32, u32)>) -> Seq<char> {
    match ids {
        Some(pair) => dec_digits(pair.0 as nat) + "/"@ + dec_digits(pair.1 as nat),
        None => "-/-"@,
    }
}

/// The six cell texts of one process row: pid, truncated name, memory in
/// megabytes with two decimals, CPU percentage, uptime in whole seconds,
/// and the id pair.
pub open spec fn spec_process_cells(p: ProcessView) -> Seq<Seq<char>> {
    seq![
        dec_digits(p.pid as nat),
        spec_truncate_chars(p.name, NAME_LIMIT_CHARS as int),
        spec_mb_number_text(p.memory_bytes),
        spec_percent_text(p.cpu_micro),
        dec_digits(p.run_time_seconds as nat),
        spec_ids_text(p.ids),
    ]
}

/// One process row: a run per column, two rows below the header (one
/// spacer row between them), left aligned and unstyled.
pub open spec fn spec_process_row(p: ProcessView, cols: Seq<Rect>, region: Rect, row: int) -> Seq<RunView> {
    Seq::new(
        6,
        |j: int| RunView {
            text: spec_process_cells(p)[j],
            region: spec_cell_rect(cols[j], region, 2 + row),
            tier: None,
            alignment: Alignment::Left,
        },
    )
}

/// The rows of the first `i` selected processes; rows that would fall
/// below the table region are dropped.
pub open spec fn spec_process_rows(ps: Seq<ProcessView>, cols: Seq<Rect>, region: Rect, i: int) -> Seq<RunView>
    decreases i,
{
    if i <= 0 {
        Seq::empty()
    } else {
        spec_process_rows(ps, cols, region, i - 1) + if 2 + (i - 1) < region.height {
            spec_process_row(ps[i - 1], cols, region, i - 1)
        } else {
            Seq::empty()
        }
    }
}

/// The column width shares of the table, in percent.
pub open spec fn spec_column_shares() -> Seq<Constraint> {
    seq![
        Constraint::Percent(10),
        Constraint::Percent(32),
        Constraint::Percent(13),
        Constraint::Percent(10),
        Constraint::Percent(15),
        Constraint::Percent(18),
    ]
}

/// The whole process panel: a `Processes` title over the table region,
/// a header row, a spacer row, and one row per selected process.
pub open spec fn spec_processes_panel(procs: Seq<ProcessView>, chunk: Rect) -> Seq<RunView> {
    let inner = spec_partition(
        chunk,
        Direction::Vertical,
        Margin { horizontal: 3, vertical: 2 },
        seq![Constraint::Minimum(1)],
    );
    let region = inner[0];
    let cols = spec_partition(
        region,
        Direction::Horizontal,
        Margin { horizontal: 0, vertical: 0 },
        spec_column_shares(),
    );
    let selected = spec_select(procs);
    seq![RunView { text: "Processes"@, region: chunk, tier: None, alignment: Alignment::Left }]
        + spec_header_runs(cols, region) + spec_process_rows(
        selected,
        cols,
        region,
        selected.len() as int,
    )
}

/// Emit one process row's six cell runs.
fn render_process_row(out: &mut Vec<StyledRun>, p: &ProcessInfo, cols: &Vec<Rect>, region: Rect, row: u16)
    requires
        cols@.len() == 6,
        2 + row < region.height,
    ensures
        runs_view(final(out)@) == runs_view(old(out)@) + spec_process_row(p@, cols@, region, row as int),
{
    let y: u16 = crate::geometry::sat_add(region.y, 2 + row);
    proof {
        assert(y == sat16(region.y + (2 + row as int)));
    }
    push_run(
        out,
        decimal_string(p.pid as u64),
        Rect { x: cols[0].x, y, width: cols[0].width, height: 1 },
        None,
        Alignment::Left,
    );
    push_run(
        out,
        truncate_chars(p.name.as_str(), NAME_LIMIT_CHARS),
        Rect { x: cols[1].x, y, width: cols[1].width, height: 1 },
        None,
        Alignment::Left,
    );
    push_run(
        out,
        mb_number_string(p.memory_bytes),
        Rect { x: cols[2].x, y, width: cols[2].width, height: 1 },
        None,
        Alignment::Left,
    );
    push_run(
        out,
        percent_string(p.cpu_micro),
        Rect { x: cols[3].x, y, width: cols[3].width, height: 1 },
        None,
        Alignment::Left,
    );
    push_run(
        out,
        decimal_string(p.run_time_seconds),
        Rect { x: cols[4].x, y, width: cols[4].width, height: 1 },
        None,
        Alignment::Left,
    );
    let ids_text = match p.ids {
        Some(pair) => {
            let mut t = decimal_string(pair.0 as u64);
            t.append("/");
            let gid = decimal_string(pair.1 as u64);
            t.append(gid.as_str());
            t
        },
        None => String::from_str("-/-"),
    };
    proof {
        assert(ids_text@ == spec_ids_text(p.ids));
    }
    push_run(
        out,
        ids_text,
        Rect { x: cols[5].x, y, width: cols[5].width, height: 1 },
        None,
        Alignment::Left,
    );
    proof {
        assert(runs_view(out@) =~= runs_view(old(out)@) + spec_process_row(
            p@,
            cols@,
            region,
            row as int,
        ));
    }
}

/// Render the process panel into `chunk`; see `spec_processes_panel`.
pub fn create_processes_chunk(snap: &MetricsSnapshot, chunk: Rect, out: &mut Vec<StyledRun>)
    ensures
        runs_view(final(out)@) == runs_view(old(out)@) + spec_processes_panel(
            process_views(snap.processes@),
            chunk,
        ),
{
    let mut inner_cs: Vec<Constraint> = Vec::new();
    inner_cs.push(Constraint::Minimum(1));
    proof {
        assert(inner_cs@ =~= seq![Constraint::Minimum(1)]);
    }
    let inner = partition(chunk, Direction::Vertical, Margin { horizontal: 3, vertical: 2 }, &inner_cs);
    let region = inner[0];

    let mut col_cs: Vec<Constraint> = Vec::new();
    col_cs.push(Constraint::Percent(10));
    col_cs.push(Constraint::Percent(32));
    col_cs.push(Constraint::Percent(13));
    col_cs.push(Constraint::Percent(10));
    col_cs.push(Constraint::Percent(15));
    col_cs.push(Constraint::Percent(18));
    proof {
        assert(col_cs@ =~= spec_column_shares());
    }
    let cols = partition(region, Direction::Horizontal, Margin::uniform(0), &col_cs);

    push_run(out, String::from_str("Processes"), chunk, None, Alignment::Left);

    push_run(
        out,
        String::from_str("PID"),
        Rect { x: cols[0].x, y: region.y, width: cols[0].width, height: 1 },
        None,
        Alignment::Left,
    );
    push_run(
        out,
        String::from_str("Name"),
        Rect { x: cols[1].x, y: region.y, width: cols[1].width, height: 1 },
        None,
        Alignment::Left,
    );
    push_run(
        out,
        String::from_str("Mem (MB)"),
        Rect { x: cols[2].x, y: region.y, width: cols[2].width, height: 1 },
        None,
        Alignment::Left,
    );
    push_run(
        out,
        String::from_str("CPU"),
        Rect { x: cols[3].x, y: region.y, width: cols[3].width, height: 1 },
        None,
        Alignment::Left,
    );
    push_run(
        out,
        String::from_str("Uptime (s)"),
        Rect { x: cols[4].x, y: region.y, width: cols[4].width, height: 1 },
        None,
        Alignment::Left,
    );
    push_run(
        out,
        String::from_str("EUID/EGID"),
        Rect { x: cols[5].x, y: region.y, width: cols[5].width, height: 1 },
        None,
        Alignment::Left,
    );
    let ghost base = runs_view(old(out)@) + seq![
        RunView { text: "Processes"@, region: chunk, tier: None, alignment: Alignment::Left },
    ] + spec_header_runs(cols@, region);
    proof {
        assert(runs_view(out@) =~= base);
    }

    let selected = select_processes(&snap.processes);
    let ghost sel_views = spec_select(process_views(snap.processes@));
    let n = selected.len();
    let mut i: usize = 0;
    while i < n
        invariant
            i <= n,
            n == selected@.len(),
            cols@.len() == 6,
            process_views(selected@) == sel_views,
            runs_view(out@) == base + spec_process_rows(sel_views, cols@, region, i as int),
        decreases n - i,
    {
        if region.height > 2 && (i as u64) < (region.height as u64) - 2 {
            let row: u16 = i as u16;
            render_process_row(out, &selected[i], &cols, region, row);
            proof {
                assert(selected@[i as int]@ == sel_views[i as int]);
                assert(runs_view(out@) =~= base + spec_process_rows(
                    sel_views,
                    cols@,
                    region,
                    i + 1,
                ));
            }
        } else {
            proof {
                assert(spec_process_rows(sel_views, cols@, region, i + 1)
                    =~= spec_process_rows(sel_views, cols@, region, i as int));
            }
        }
        i += 1;
    }
    proof {
        assert(runs_view(out@) =~= runs_view(old(out)@) + spec_processes_panel(
            process_views(snap.processes@),
            chunk,
        ));
    }
}

} // verus!
