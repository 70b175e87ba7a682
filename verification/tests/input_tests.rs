use tic_tac_toe::map_pointer_to_cell;

#[test]
fn pointer_in_first_cell() {
    let r = map_pointer_to_cell(150, 150, 100, 100, 300, 300);
    assert_eq!(r, Some((0, 0)));
}

#[test]
fn pointer_in_center_cell() {
    let r = map_pointer_to_cell(250, 250, 100, 100, 300, 300);
    assert_eq!(r, Some((1, 1)));
}

#[test]
fn pointer_outside_is_no_target() {
    let r = map_pointer_to_cell(50, 50, 100, 100, 300, 300);
    assert_eq!(r, None);
}

#[test]
fn pointer_on_far_corner_is_clamped() {
    let r = map_pointer_to_cell(400, 400, 100, 100, 300, 300);
    assert_eq!(r, Some((2, 2)));
}

#[test]
fn pointer_on_near_corner_is_first_cell() {
    let r = map_pointer_to_cell(100, 100, 100, 100, 300, 300);
    assert_eq!(r, Some((0, 0)));
}

#[test]
fn pointer_past_far_edge_is_no_target() {
    let r = map_pointer_to_cell(401, 250, 100, 100, 300, 300);
    assert_eq!(r, None);
}

#[test]
fn mixed_column_and_row() {
    let r = map_pointer_to_cell(390, 120, 100, 100, 300, 300);
    assert_eq!(r, Some((2, 0)));
}
