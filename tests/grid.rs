use aquatyping::grid::{CharGrid, CharPosition};

fn grid(rows: Vec<Vec<char>>) -> CharGrid {
    CharGrid::from_rows(rows).unwrap()
}

fn rows_of(g: &CharGrid) -> Vec<String> {
    g.rows().iter().map(|r| r.iter().collect()).collect()
}

#[test]
fn new_grid_is_blank() {
    let g = CharGrid::new(3, 2);
    assert_eq!(rows_of(&g), vec!["   ", "   "]);
    assert_eq!(g.width(), 3);
    assert_eq!(g.height(), 2);
}

#[test]
fn ragged_rows_are_refused() {
    assert!(CharGrid::from_rows(vec![vec!['a', 'b'], vec!['c']]).is_none());
    let empty = CharGrid::from_rows(Vec::new()).unwrap();
    assert_eq!(empty.height(), 0);
    assert_eq!(empty.width(), 0);
}

#[test]
fn overwrite_rect_keeps_transparent_cells_and_clips() {
    let mut g = grid(vec![vec!['.'; 4]; 3]);
    let src = grid(vec![vec!['a', ' '], vec![' ', 'b']]);
    g.overwrite_rect(&src, CharPosition { x: 3, y: 2 }, Some(' '));
    assert_eq!(rows_of(&g), vec!["....", "....", "...a"]);
    g.overwrite_rect(&src, CharPosition { x: -1, y: -1 }, None);
    assert_eq!(rows_of(&g), vec!["b...", "....", "...a"]);
}

#[test]
fn overwrite_rect_center_centres_the_source() {
    let mut g = grid(vec![vec!['.'; 5]; 5]);
    let src = grid(vec![vec!['x'; 3]; 3]);
    g.overwrite_rect_center(&src, CharPosition { x: 0, y: 0 }, Some(' '));
    assert_eq!(rows_of(&g), vec![".....", ".xxx.", ".xxx.", ".xxx.", "....."]);
    let mut g = grid(vec![vec!['.'; 5]; 5]);
    g.overwrite_rect_center(&src, CharPosition { x: 2, y: -1 }, Some(' '));
    assert_eq!(rows_of(&g), vec!["...xx", "...xx", "...xx", ".....", "....."]);
}

#[test]
fn overwrite_rect_center_far_outside_changes_nothing() {
    let src = grid(vec![vec!['x'; 3]; 2]);
    for (x, y) in [(i32::MAX, 0), (i32::MIN, 0), (0, i32::MAX), (0, i32::MIN), (i32::MIN, i32::MIN), (100, -100)] {
        let mut g = grid(vec![vec!['.'; 4]; 3]);
        g.overwrite_rect_center(&src, CharPosition { x, y }, Some(' '));
        assert_eq!(rows_of(&g), vec!["....", "....", "...."]);
    }
}

#[test]
fn overwrite_rect_center_with_a_larger_source_is_clipped() {
    let mut g = grid(vec![vec!['.'; 2]; 2]);
    let src = grid(vec![vec!['a', 'b', 'c', 'd', 'e', 'f'], vec!['g', 'h', 'i', 'j', 'k', 'l'], vec!['m', 'n', 'o', 'p', 'q', 'r']]);
    g.overwrite_rect_center(&src, CharPosition { x: 0, y: 0 }, None);
    assert_eq!(rows_of(&g), vec!["cd", "ij"]);
}

#[test]
fn copy_and_masks() {
    let mut g = CharGrid::new(3, 3);
    let src = grid(vec![vec!['a', 'b', 'c'], vec!['d', 'e', 'f'], vec!['g', 'h', 'i']]);
    g.copy_from(&src);
    assert_eq!(rows_of(&g), vec!["abc", "def", "ghi"]);
    g.mask_rows('-', 1, 2);
    assert_eq!(rows_of(&g), vec!["abc", "---", "ghi"]);
    g.mask_columns('|', 2, 9);
    assert_eq!(rows_of(&g), vec!["ab|", "--|", "gh|"]);
    g.overwrite_char_all('#');
    assert_eq!(rows_of(&g), vec!["###", "###", "###"]);
    assert_eq!(g.get(1, 2), '#');
}
