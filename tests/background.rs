use aquatyping::background::{generate_background, BackgroundType};
use aquatyping::grid::CharGrid;
use std::collections::HashSet;

#[test]
fn randombackground_works() {
    let mut bg = generate_background(BackgroundType::RANDOM);
    let mut stage = CharGrid::new(20, 10);
    stage.overwrite_char_all('@');
    let mut chars = HashSet::new();
    chars.insert(' ');
    chars.insert('`');
    chars.insert('.');

    bg.update(&mut stage);
    for y in 0..stage.height() {
        for x in 0..stage.width() {
            assert!(chars.get(&stage.rows()[y][x]).is_some());
        }
    }
}

#[test]
fn nonebackground_works() {
    let mut bg = generate_background(BackgroundType::NONE);
    let mut stage = CharGrid::new(20, 10);
    stage.overwrite_char_all('@');
    bg.update(&mut stage);
    for y in 0..stage.height() {
        for x in 0..stage.width() {
            assert_eq!(stage.rows()[y][x], ' ');
        }
    }
}

#[test]
fn random_background_keeps_the_size() {
    let mut bg = generate_background(BackgroundType::RANDOM);
    let mut stage = CharGrid::new(7, 3);
    bg.update(&mut stage);
    assert_eq!(stage.width(), 7);
    assert_eq!(stage.height(), 3);
    assert!(stage.rows().iter().all(|r| r.len() == 7));
}
