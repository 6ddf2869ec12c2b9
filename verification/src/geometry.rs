//! Rectangles and the region partitioner.
//!
//! `partition` splits a parent rectangle into an ordered list of child
//! rectangles, one per sizing constraint, after subtracting outer margins.
//! Along the split axis each constraint resolves to a cell length: `Fixed`
//! uses its literal value, `Percent(p)` uses `p/100` of the interior length
//! rounded to the nearest cell, and `Minimum` uses at least its value, the
//! last `Minimum` absorbing any unallocated remainder. Children are laid out
//! contiguously from the interior origin; the off-axis extent of every child
//! equals the interior's. Percent values need not sum to 100: a deficit is
//! left as unused trailing space and a surplus overflows past the parent.
//! A zero-length interior degenerates every child to zero length along the
//! split axis. All coordinate arithmetic saturates at the `u16` range.

use vstd::prelude::*;

verus! {

/// A rectangle in character-cell coordinates.
#[derive(Clone, Copy, Debug, PartialEq, Eq, Structural)]
pub struct Rect {
    pub x: u16,
    pub y: u16,
    pub width: u16,
    pub height: u16,
}

/// Axis along which a rectangle is split.
#[derive(Clone, Copy, Debug, PartialEq, Eq, Structural)]
pub enum Direction {
    Horizontal,
    Vertical,
}

/// Outer margins subtracted from each side of a parent before partitioning.
#[derive(Clone, Copy, Debug, PartialEq, Eq, Structural)]
pub struct Margin {
    pub horizontal: u16,
    pub vertical: u16,
}

impl Margin {
    /// Equal margin on all four sides.
    pub fn uniform(cells: u16) -> (m: Margin)
        ensures
            m.horizontal == cells,
            m.vertical == cells,
    {
        Margin { horizontal: cells, vertical: cells }
    }
}

/// A sizing rule for one child region.
#[derive(Clone, Copy, Debug, PartialEq, Eq, Structural)]
pub enum Constraint {
    /// Exactly this many cells.
    Fixed(u16),
    /// This share of the interior length, in percent, rounded to the
    /// nearest cell.
    Percent(u16),
    /// At least this many cells; the last such constraint grows to fill
    /// any remainder.
    Minimum(u16),
}

/// Clamp an integer into the `u16` range.
pub open spec fn sat16(v: int) -> u16 {
    if v < 0 {
        0
    } else if v > 0xffff {
        0xffff
    } else {
        v as u16
    }
}

/// The interior rectangle of `parent` after subtracting `margin` on every
/// side, saturating at the coordinate range.
pub open spec fn spec_interior(parent: Rect, margin: Margin) -> Rect {
    Rect {
        x: sat16(parent.x + margin.horizontal),
        y: sat16(parent.y + margin.vertical),
        width: sat16(parent.width - 2 * margin.horizontal),
        height: sat16(parent.height - 2 * margin.vertical),
    }
}

/// Length of `r` along the split axis.
pub open spec fn axis_len(r: Rect, direction: Direction) -> u16 {
    match direction {
        Direction::Horizontal => r.width,
        Direction::Vertical => r.height,
    }
}

/// Position of `r` along the split axis.
pub open spec fn axis_pos(r: Rect, direction: Direction) -> u16 {
    match direction {
        Direction::Horizontal => r.x,
        Direction::Vertical => r.y,
    }
}

/// Cell length a single constraint resolves to, before remainder
/// distribution, saturating at the `u16` range.
pub open spec fn spec_resolve(c: Constraint, axis: u16) -> u16 {
    match c {
        Constraint::Fixed(n) => n,
        Constraint::Percent(p) => sat16((p * axis + 50) / 100),
        Constraint::Minimum(m) => m,
    }
}

/// Sum of the resolved lengths of all constraints.
pub open spec fn spec_resolved_sum(cs: Seq<Constraint>, axis: u16) -> int
    decreases cs.len(),
{
    if cs.len() == 0 {
        0
    } else {
        spec_resolved_sum(cs.drop_last(), axis) + spec_resolve(cs.last(), axis)
    }
}

/// Index of the last `Minimum` constraint, or -1 if there is none.
pub open spec fn spec_last_flexible(cs: Seq<Constraint>) -> int
    decreases cs.len(),
{
    if cs.len() == 0 {
        -1
    } else if cs.last() is Minimum {
        cs.len() - 1
    } else {
        spec_last_flexible(cs.drop_last())
    }
}

/// Unallocated space the last `Minimum` constraint absorbs: positive only
/// when the resolved lengths leave a remainder and a `Minimum` exists.
pub open spec fn spec_leftover(cs: Seq<Constraint>, axis: u16) -> int {
    let rem = axis - spec_resolved_sum(cs, axis);
    if rem > 0 && spec_last_flexible(cs) >= 0 {
        rem
    } else {
        0
    }
}

/// Final cell length of child `i` along the split axis.
pub open spec fn spec_child_len(cs: Seq<Constraint>, axis: u16, i: int) -> int {
    if axis == 0 {
        0
    } else {
        spec_resolve(cs[i], axis) + if i == spec_last_flexible(cs) {
            spec_leftover(cs, axis)
        } else {
            0
        }
    }
}

/// Offset of child `i` from the interior origin along the split axis.
pub open spec fn spec_child_start(cs: Seq<Constraint>, axis: u16, i: int) -> int
    decreases i,
{
    if i <= 0 {
        0
    } else {
        spec_child_start(cs, axis, i - 1) + spec_child_len(cs, axis, i - 1)
    }
}

/// The rectangle of child `i` of a partition of `interior`.
pub open spec fn spec_child_rect(interior: Rect, direction: Direction, cs: Seq<Constraint>, i: int) -> Rect {
    let axis = axis_len(interior, direction);
    let pos = sat16(axis_pos(interior, direction) + spec_child_start(cs, axis, i));
    let len = sat16(spec_child_len(cs, axis, i));
    match direction {
        Direction::Horizontal => Rect { x: pos, y: interior.y, width: len, height: interior.height },
        Direction::Vertical => Rect { x: interior.x, y: pos, width: interior.width, height: len },
    }
}

/// The full partition of `parent`: one child per constraint, in order.
pub open spec fn spec_partition(parent: Rect, direction: Direction, margin: Margin, cs: Seq<Constraint>) -> Seq<Rect> {
    let interior = spec_interior(parent, margin);
    Seq::new(cs.len(), |i: int| spec_child_rect(interior, direction, cs, i))
}

/// Saturating addition in the coordinate range.
pub fn sat_add(a: u16, b: u16) -> (r: u16)
    ensures
        r == sat16(a + b),
{
    if a > 0xffff - b {
        0xffff
    } else {
        a + b
    }
}

/// `len` minus a margin on both sides, clamped at zero.
fn shrink_twice(len: u16, margin: u16) -> (r: u16)
    ensures
        r == sat16(len - 2 * margin),
{
    let twice: u32 = 2 * (margin as u32);
    if (len as u32) > twice {
        len - (twice as u16)
    } else {
        0
    }
}

/// Interior rectangle after margins; see `spec_interior`.
pub fn interior_rect(parent: Rect, margin: Margin) -> (r: Rect)
    ensures
        r == spec_interior(parent, margin),
{
    Rect {
        x: sat_add(parent.x, margin.horizontal),
        y: sat_add(parent.y, margin.vertical),
        width: shrink_twice(parent.width, margin.horizontal),
        height: shrink_twice(parent.height, margin.vertical),
    }
}

/// Resolved length of one constraint; see `spec_resolve`.
fn resolve(c: Constraint, axis: u16) -> (r: u16)
    ensures
        r == spec_resolve(c, axis),
{
    match c {
        Constraint::Fixed(n) => n,
        Constraint::Percent(p) => {
            proof {
                assert((p as int) * (axis as int) <= 0xffff * 0xffff) by (nonlinear_arith)
                    requires
                        p <= 0xffff,
                        axis <= 0xffff,
                ;
            }
            let v: u32 = ((p as u32) * (axis as u32) + 50) / 100;
            if v > 0xffff {
                0xffff
            } else {
                v as u16
            }
        },
        Constraint::Minimum(m) => m,
    }
}

/// Split `parent` into one child rectangle per constraint, in constraint
/// order; the result is exactly `spec_partition`.
pub fn partition(parent: Rect, direction: Direction, margin: Margin, constraints: &Vec<Constraint>) -> (out: Vec<Rect>)
    ensures
        out@ == spec_partition(parent, direction, margin, constraints@),
        out@.len() == constraints@.len(),
{
    let interior = interior_rect(parent, margin);
    let axis: u16 = match direction {
        Direction::Horizontal => interior.width,
        Direction::Vertical => interior.height,
    };
    let origin: u16 = match direction {
        Direction::Horizontal => interior.x,
        Direction::Vertical => interior.y,
    };
    let n = constraints.len();

    // Resolve every constraint and accumulate their sum, saturating the
    // accumulator just past the axis range so the remainder test stays exact.
    let mut resolved: Vec<u16> = Vec::new();
    let mut sum: u32 = 0;
    let mut i: usize = 0;
    while i < n
        invariant
            i <= n,
            n == constraints@.len(),
            resolved@.len() == i,
            forall|j: int| 0 <= j < i ==> resolved@[j] == spec_resolve(constraints@[j], axis),
            sum == if spec_resolved_sum(constraints@.subrange(0, i as int), axis) > 0x10000 {
                0x10000int
            } else {
                spec_resolved_sum(constraints@.subrange(0, i as int), axis)
            },
        decreases n - i,
    {
        let r = resolve(constraints[i], axis);
        resolved.push(r);
        proof {
            let pre = constraints@.subrange(0, i as int);
            let post = constraints@.subrange(0, i + 1);
            assert(post.drop_last() =~= pre);
            assert(post.last() == constraints@[i as int]);
            lemma_resolved_sum_nonneg(pre, axis);
        }
        sum = if sum + (r as u32) > 0x10000 {
            0x10000
        } else {
            sum + (r as u32)
        };
        i += 1;
    }
    proof {
        assert(constraints@.subrange(0, n as int) =~= constraints@);
    }

    // Locate the last Minimum constraint, if any.
    let mut last_flex: usize = n;  // n means "none"
    let mut i: usize = 0;
    while i < n
        invariant
            i <= n,
            n == constraints@.len(),
            last_flex == n || last_flex < i,
            if last_flex == n {
                spec_last_flexible(constraints@.subrange(0, i as int)) == -1
            } else {
                spec_last_flexible(constraints@.subrange(0, i as int)) == last_flex
            },
        decreases n - i,
    {
        proof {
            let pre = constraints@.subrange(0, i as int);
            let post = constraints@.subrange(0, i + 1);
            assert(post.drop_last() =~= pre);
            assert(post.last() == constraints@[i as int]);
        }
        if matches!(constraints[i], Constraint::Minimum(_)) {
            last_flex = i;
        }
        i += 1;
    }
    proof {
        assert(constraints@.subrange(0, n as int) =~= constraints@);
    }

    // Remainder for the last Minimum constraint.
    let leftover: u16 = if (axis as u32) > sum && last_flex < n {
        axis - (sum as u16)
    } else {
        0
    };
    proof {
        assert(leftover == spec_leftover(constraints@, axis));
    }

    // Lay the children out contiguously from the interior origin.
    let mut out: Vec<Rect> = Vec::new();
    let mut pos: u16 = origin;
    let mut i: usize = 0;
    while i < n
        invariant
            i <= n,
            n == constraints@.len(),
            resolved@.len() == n,
            forall|j: int| 0 <= j < n ==> resolved@[j] == spec_resolve(constraints@[j], axis),
            last_flex == n || last_flex < n,
            if last_flex == n {
                spec_last_flexible(constraints@) == -1
            } else {
                spec_last_flexible(constraints@) == last_flex
            },
            leftover == spec_leftover(constraints@, axis),
            axis == axis_len(interior, direction),
            origin == axis_pos(interior, direction),
            out@.len() == i,
            forall|j: int| 0 <= j < i ==> out@[j] == spec_child_rect(interior, direction, constraints@, j),
            pos == sat16(origin + spec_child_start(constraints@, axis, i as int)),
        decreases n - i,
    {
        let is_flex = last_flex < n && i == last_flex;
        let len32: u32 = if axis == 0 {
            0
        } else {
            (resolved[i] as u32) + if is_flex {
                leftover as u32
            } else {
                0
            }
        };
        let len16: u16 = if len32 > 0xffff {
            0xffff
        } else {
            len32 as u16
        };
        proof {
            assert(len32 == spec_child_len(constraints@, axis, i as int));
            assert(len16 == sat16(spec_child_len(constraints@, axis, i as int)));
        }
        let child = match direction {
            Direction::Horizontal => Rect { x: pos, y: interior.y, width: len16, height: interior.height },
            Direction::Vertical => Rect { x: interior.x, y: pos, width: interior.width, height: len16 },
        };
        out.push(child);
        proof {
            lemma_child_len_nonneg(constraints@, axis, i as int);
            lemma_child_start_nonneg(constraints@, axis, i as int);
            assert(spec_child_start(constraints@, axis, i + 1) == spec_child_start(
                constraints@,
                axis,
                i as int,
            ) + spec_child_len(constraints@, axis, i as int));
        }
        pos = sat_add(pos, len16);
        i += 1;
    }
    proof {
        assert(out@ =~= spec_partition(parent, direction, margin, constraints@));
    }
    out
}

/// The resolved sum of any constraint list is non-negative.
proof fn lemma_resolved_sum_nonneg(cs: Seq<Constraint>, axis: u16)
    ensures
        spec_resolved_sum(cs, axis) >= 0,
    decreases cs.len(),
{
    if cs.len() > 0 {
        lemma_resolved_sum_nonneg(cs.drop_last(), axis);
    }
}

/// Every child length is non-negative.
proof fn lemma_child_len_nonneg(cs: Seq<Constraint>, axis: u16, i: int)
    ensures
        spec_child_len(cs, axis, i) >= 0,
{
}

/// Every child offset is non-negative.
proof fn lemma_child_start_nonneg(cs: Seq<Constraint>, axis: u16, i: int)
    ensures
        spec_child_start(cs, axis, i) >= 0,
    decreases i,
{
    if i > 0 {
        lemma_child_start_nonneg(cs, axis, i - 1);
        lemma_child_len_nonneg(cs, axis, i - 1);
    }
}

} // verus!
