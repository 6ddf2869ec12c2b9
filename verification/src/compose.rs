//! The frame composer: from a snapshot and a viewport to one deterministic
//! ordered sequence of styled runs.

use vstd::prelude::*;
use crate::geometry::{Constraint, Direction, Margin, Rect, partition, spec_partition};
use crate::processes::{create_processes_chunk, spec_processes_panel};
use crate::runs::{RunView, StyledRun, runs_view};
use crate::snapshot::{MetricsSnapshot, process_views};
use crate::stats::{create_stats_chunk, spec_stats_panel};

verus! {

/// Width of the metrics column, in cells.
pub const METRICS_COLUMN_CELLS: u16 = 40;

/// Width of the secondary column, in cells.
pub const SECONDARY_COLUMN_CELLS: u16 = 50;

/// The frame of a snapshot in a viewport: the viewport is split into the
/// fixed-width metrics column and the fixed-width secondary column inside a
/// one-cell margin; the stats panels render into the first, the process
/// table into the second.
pub open spec fn spec_compose(snap: MetricsSnapshot, viewport: Rect) -> Seq<RunView> {
    let cols = spec_partition(
        viewport,
        Direction::Horizontal,
        Margin { horizontal: 1, vertical: 1 },
        seq![
            Constraint::Fixed(METRICS_COLUMN_CELLS),
            Constraint::Fixed(SECONDARY_COLUMN_CELLS),
        ],
    );
    spec_stats_panel(snap, cols[0]) + spec_processes_panel(process_views(snap.processes@), cols[1])
}

/// Compose one frame. The result is exactly `spec_compose` of the snapshot
/// and viewport: it depends on nothing else, so identical inputs always
/// yield an identical frame.
pub fn compose(snap: &MetricsSnapshot, viewport: Rect) -> (out: Vec<StyledRun>)
    ensures
        runs_view(out@) == spec_compose(*snap, viewport),
{
    let mut cs: Vec<Constraint> = Vec::new();
    cs.push(Constraint::Fixed(METRICS_COLUMN_CELLS));
    cs.push(Constraint::Fixed(SECONDARY_COLUMN_CELLS));
    proof {
        assert(cs@ =~= seq![
            Constraint::Fixed(METRICS_COLUMN_CELLS),
            Constraint::Fixed(SECONDARY_COLUMN_CELLS),
        ]);
    }
    let cols = partition(viewport, Direction::Horizontal, Margin::uniform(1), &cs);
    let mut out: Vec<StyledRun> = Vec::new();
    proof {
        assert(runs_view(out@) =~= Seq::<RunView>::empty());
    }
    create_stats_chunk(snap, cols[0], &mut out);
    create_processes_chunk(snap, cols[1], &mut out);
    proof {
        assert(runs_view(out@) =~= spec_compose(*snap, viewport));
    }
    out
}

} // verus!
