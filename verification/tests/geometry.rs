use sysdash::geometry::{interior_rect, partition, Constraint, Direction, Margin, Rect};

fn rect(x: u16, y: u16, width: u16, height: u16) -> Rect {
    Rect { x, y, width, height }
}

#[test]
fn vertical_halves_tile_even_height() {
    let parent = rect(0, 0, 80, 24);
    let out = partition(
        parent,
        Direction::Vertical,
        Margin { horizontal: 0, vertical: 0 },
        &vec![Constraint::Percent(50), Constraint::Percent(50)],
    );
    assert_eq!(out.len(), 2);
    assert_eq!(out[0], rect(0, 0, 80, 12));
    assert_eq!(out[1], rect(0, 12, 80, 12));
    assert_eq!(out[0].height + out[1].height, parent.height);
}

#[test]
fn vertical_halves_tile_odd_height() {
    let parent = rect(3, 5, 40, 25);
    let out = partition(
        parent,
        Direction::Vertical,
        Margin { horizontal: 0, vertical: 0 },
        &vec![Constraint::Percent(50), Constraint::Percent(50)],
    );
    assert_eq!(out.len(), 2);
    // Each share rounds 12.5 up to 13; the sum may exceed the parent by one.
    assert_eq!(out[0], rect(3, 5, 40, 13));
    assert_eq!(out[1], rect(3, 18, 40, 13));
    assert_eq!(out[0].height + out[1].height, parent.height + 1);
    // No overlap: the second child starts where the first ends.
    assert_eq!(out[1].y, out[0].y + out[0].height);
}

#[test]
fn fixed_lengths_in_order() {
    let parent = rect(0, 0, 30, 20);
    let out = partition(
        parent,
        Direction::Horizontal,
        Margin { horizontal: 0, vertical: 0 },
        &vec![Constraint::Fixed(10), Constraint::Fixed(5), Constraint::Fixed(7)],
    );
    assert_eq!(out[0], rect(0, 0, 10, 20));
    assert_eq!(out[1], rect(10, 0, 5, 20));
    assert_eq!(out[2], rect(15, 0, 7, 20));
}

#[test]
fn last_minimum_absorbs_remainder() {
    let parent = rect(0, 0, 100, 10);
    let out = partition(
        parent,
        Direction::Horizontal,
        Margin { horizontal: 0, vertical: 0 },
        &vec![Constraint::Fixed(20), Constraint::Minimum(5), Constraint::Minimum(5)],
    );
    // 100 - 20 - 5 - 5 = 70 cells of remainder go to the last Minimum.
    assert_eq!(out[0].width, 20);
    assert_eq!(out[1].width, 5);
    assert_eq!(out[2].width, 75);
    assert_eq!(out[2].x, 25);
}

#[test]
fn percent_rounds_to_nearest_cell() {
    let parent = rect(0, 0, 10, 10);
    let out = partition(
        parent,
        Direction::Horizontal,
        Margin { horizontal: 0, vertical: 0 },
        &vec![Constraint::Percent(33), Constraint::Percent(67)],
    );
    // 3.3 rounds to 3, 6.7 rounds to 7.
    assert_eq!(out[0].width, 3);
    assert_eq!(out[1].width, 7);
}

#[test]
fn margins_shrink_interior() {
    let parent = rect(0, 0, 20, 10);
    let interior = interior_rect(parent, Margin { horizontal: 1, vertical: 2 });
    assert_eq!(interior, rect(1, 2, 18, 6));
}

#[test]
fn oversized_margins_degenerate_to_zero() {
    let parent = rect(0, 0, 4, 4);
    let out = partition(
        parent,
        Direction::Vertical,
        Margin { horizontal: 1, vertical: 3 },
        &vec![Constraint::Fixed(2), Constraint::Percent(50)],
    );
    // The vertical margins consume the whole height: every child is
    // zero-length along the split axis.
    assert_eq!(out[0].height, 0);
    assert_eq!(out[1].height, 0);
}

#[test]
fn empty_constraints_empty_result() {
    let parent = rect(0, 0, 10, 10);
    let out = partition(
        parent,
        Direction::Vertical,
        Margin { horizontal: 0, vertical: 0 },
        &Vec::new(),
    );
    assert!(out.is_empty());
}

#[test]
fn percent_surplus_overflows_parent() {
    let parent = rect(0, 0, 10, 10);
    let out = partition(
        parent,
        Direction::Horizontal,
        Margin { horizontal: 0, vertical: 0 },
        &vec![Constraint::Percent(80), Constraint::Percent(80)],
    );
    // No normalization: 8 + 8 cells out of 10.
    assert_eq!(out[0].width, 8);
    assert_eq!(out[1].width, 8);
    assert_eq!(out[1].x, 8);
}
