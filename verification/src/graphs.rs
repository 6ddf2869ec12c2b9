//! The placeholder graph column: a titled block split into two halves,
//! reserved for future visualizations.

use vstd::prelude::*;
use crate::geometry::{Constraint, Direction, Margin, Rect, partition, spec_partition};
use crate::runs::{Alignment, RunView, StyledRun, push_run, runs_view};

verus! {

/// The placeholder's only run: its title block.
pub open spec fn spec_graph_panel(chunk: Rect) -> Seq<RunView> {
    seq![RunView { text: "Stats"@, region: chunk, tier: None, alignment: Alignment::Left }]
}

/// The two stacked half-regions of the graph column.
pub open spec fn spec_graph_rects(chunk: Rect) -> Seq<Rect> {
    spec_partition(
        chunk,
        Direction::Vertical,
        Margin { horizontal: 1, vertical: 1 },
        seq![Constraint::Percent(50), Constraint::Percent(50)],
    )
}

/// Render the placeholder graph block and return its two half-regions.
pub fn create_graph_chunk(chunk: Rect, out: &mut Vec<StyledRun>) -> (sub: Vec<Rect>)
    ensures
        runs_view(final(out)@) == runs_view(old(out)@) + spec_graph_panel(chunk),
        sub@ == spec_graph_rects(chunk),
{
    let mut cs: Vec<Constraint> = Vec::new();
    cs.push(Constraint::Percent(50));
    cs.push(Constraint::Percent(50));
    proof {
        assert(cs@ =~= seq![Constraint::Percent(50), Constraint::Percent(50)]);
    }
    let sub = partition(chunk, Direction::Vertical, Margin::uniform(1), &cs);
    push_run(out, String::from_str("Stats"), chunk, None, Alignment::Left);
    proof {
        assert(runs_view(out@) =~= runs_view(old(out)@) + spec_graph_panel(chunk));
    }
    sub
}

} // verus!
