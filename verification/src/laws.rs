//! Library-wide laws: proofs that relate several functions' contracts.

use vstd::prelude::*;
use vstd::arithmetic::div_mod::{lemma_div_denominator, lemma_div_multiples_vanish};
use crate::compose::spec_compose;
use crate::geometry::{
    Constraint, Direction, Margin, Rect, sat16, spec_child_len, spec_child_start, spec_interior,
    spec_last_flexible, spec_leftover, spec_partition, spec_resolve,
};
use crate::runs::RunView;
use crate::snapshot::MetricsSnapshot;

verus! {

/// Splitting a rectangle vertically with no margin into two 50% shares
/// tiles its height: both children span the parent's full width at its
/// horizontal position, the first child starts at the parent's top, the
/// second starts exactly where the first ends, and the heights sum to the
/// parent's height, or one cell more when the height is odd.
pub proof fn lemma_vertical_halves_tile(parent: Rect)
    requires
        parent.y + parent.height <= u16::MAX,
    ensures
        ({
            let out = spec_partition(
                parent,
                Direction::Vertical,
                Margin { horizontal: 0, vertical: 0 },
                seq![Constraint::Percent(50), Constraint::Percent(50)],
            );
            &&& out.len() == 2
            &&& out[0].x == parent.x && out[0].width == parent.width
            &&& out[1].x == parent.x && out[1].width == parent.width
            &&& out[0].y == parent.y
            &&& out[1].y == parent.y + out[0].height
            &&& parent.height <= out[0].height + out[1].height
            &&& out[0].height + out[1].height <= parent.height + 1
        }),
{
    let cs = seq![Constraint::Percent(50), Constraint::Percent(50)];
    let margin = Margin { horizontal: 0, vertical: 0 };
    let interior = spec_interior(parent, margin);
    assert(interior == parent);
    let h = parent.height;

    assert(cs.drop_last() =~= seq![Constraint::Percent(50)]);
    assert(seq![Constraint::Percent(50)].drop_last() =~= Seq::<Constraint>::empty());
    assert(spec_last_flexible(Seq::<Constraint>::empty()) == -1);
    assert(spec_last_flexible(seq![Constraint::Percent(50)]) == -1);
    assert(spec_last_flexible(cs) == -1);
    assert(spec_leftover(cs, h) == 0);

    if h == 0 {
        assert(spec_child_len(cs, h, 0) == 0);
        assert(spec_child_len(cs, h, 1) == 0);
        assert(spec_child_start(cs, h, 0) == 0);
        assert(spec_child_start(cs, h, 1) == 0);
    } else {
        lemma_div_multiples_vanish(h + 1, 50);
        lemma_div_denominator(50 * (h + 1), 50, 2);
        assert(50 * h + 50 == 50 * (h + 1));
        assert((50 * h + 50) / 100 == (h + 1) / 2);
        assert(spec_resolve(Constraint::Percent(50), h) == sat16((h + 1) / 2));
        assert((h + 1) / 2 <= 0xffff);
        assert(spec_child_len(cs, h, 0) == (h + 1) / 2);
        assert(spec_child_len(cs, h, 1) == (h + 1) / 2);
        assert(spec_child_start(cs, h, 0) == 0);
        assert(spec_child_start(cs, h, 1) == (h + 1) / 2);
        assert(parent.y + (h + 1) / 2 <= u16::MAX);
    }
}

/// Composing twice with an identical snapshot and viewport yields an
/// identical ordered run sequence: the frame depends only on those inputs,
/// with no hidden mutable state.
pub proof fn lemma_compose_deterministic(
    snap: MetricsSnapshot,
    viewport: Rect,
    first: Seq<RunView>,
    second: Seq<RunView>,
)
    requires
        first == spec_compose(snap, viewport),
        second == spec_compose(snap, viewport),
    ensures
        first == second,
{
}

} // verus!
