use opinion::grid::handle_grid_click;

#[test]
fn click_toggles_the_cell_under_the_pointer() {
    let mut grid = vec![false; 12];
    handle_grid_click(&mut grid, 4, 3, 20, (45, 25), true);
    let mut expected = vec![false; 12];
    expected[6] = true;
    assert_eq!(grid, expected);
    handle_grid_click(&mut grid, 4, 3, 20, (59, 39), true);
    assert_eq!(grid, vec![false; 12]);
}

#[test]
fn cell_borders_belong_to_the_next_cell() {
    let mut grid = vec![false; 4];
    handle_grid_click(&mut grid, 2, 2, 20, (19, 19), true);
    assert_eq!(grid, vec![true, false, false, false]);
    handle_grid_click(&mut grid, 2, 2, 20, (20, 19), true);
    assert_eq!(grid, vec![true, true, false, false]);
    handle_grid_click(&mut grid, 2, 2, 20, (19, 20), true);
    assert_eq!(grid, vec![true, true, true, false]);
}

#[test]
fn clicks_outside_the_grid_do_nothing() {
    let mut grid = vec![true; 6];
    handle_grid_click(&mut grid, 3, 2, 20, (60, 0), true);
    handle_grid_click(&mut grid, 3, 2, 20, (0, 40), true);
    handle_grid_click(&mut grid, 3, 2, 20, (i32::MAX, i32::MAX), true);
    handle_grid_click(&mut grid, 0, 0, 20, (0, 0), true);
    assert_eq!(grid, vec![true; 6]);
}

#[test]
fn without_a_press_nothing_is_toggled() {
    let mut grid = vec![false; 6];
    handle_grid_click(&mut grid, 3, 2, 20, (10, 10), false);
    assert_eq!(grid, vec![false; 6]);
}

#[test]
fn positions_before_the_origin_count_as_the_first_cell() {
    let mut grid = vec![false; 6];
    handle_grid_click(&mut grid, 3, 2, 20, (-5, -300), true);
    assert_eq!(grid, vec![true, false, false, false, false, false]);
    handle_grid_click(&mut grid, 3, 2, 20, (i32::MIN, 25), true);
    assert_eq!(grid, vec![true, false, false, true, false, false]);
}
