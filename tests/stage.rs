use aquatyping::asciiart::{AsciiArt, AsciiArtContext, AsciiArtState};
use aquatyping::behavior::NoBehavior;
use aquatyping::character::{Character, CharacterConfig};
use aquatyping::effector::{EffectorType, FadeDirection};
use aquatyping::grid::CharGrid;
use aquatyping::stage::{Stage, StageConfig};

fn letters(width: usize, height: usize) -> CharGrid {
    let alphabet: Vec<char> = "ABCDEFGHIJKLMNOPQRSTUVWXYZabcdefghijklmnopqrstuvwxyz".chars().collect();
    let rows = (0..height)
        .map(|y| (0..width).map(|x| alphabet[(y * width + x) % alphabet.len()]).collect())
        .collect();
    CharGrid::from_rows(rows).unwrap()
}

fn config(w: usize, h: usize) -> StageConfig {
    StageConfig { stage_wxh: (w, h), aa_width: w / 2, framerate: 10 }
}

#[test]
fn region_heights_sum_to_stage_height() {
    for h in [0usize, 1, 2, 3, 5, 6, 7, 11, 120, 150, 181] {
        let stage: Stage<NoBehavior> = Stage::new(config(8, h));
        let pict = h * 4 / 6;
        let telop = (h - pict) / 2;
        assert_eq!(stage.telop_offset(), pict);
        assert_eq!(stage.telop_height(), telop);
        assert_eq!(stage.subtelop_offset(), pict + telop);
        assert_eq!(stage.telop_offset() + stage.telop_height() + stage.subtelop_height(), h);
    }
    let stage: Stage<NoBehavior> = Stage::new(config(8, 150));
    assert_eq!((stage.telop_offset(), stage.telop_height(), stage.subtelop_height()), (100, 25, 25));
    let stage: Stage<NoBehavior> = Stage::new(config(8, 7));
    assert_eq!((stage.telop_offset(), stage.telop_height(), stage.subtelop_height()), (4, 1, 2));
}

#[test]
fn sprite_moves_on_exactly_when_its_entrance_completes() {
    let context = AsciiArtContext { stage_wxh: (20, 20), aa_width: 4, framerate: 10 };
    let mut aa = AsciiArt::from_image(
        letters(4, 10),
        &context,
        EffectorType::FADEIN(FadeDirection::DOWN),
        EffectorType::FADEOUT(FadeDirection::DOWN),
        NoBehavior::new(),
    );
    for _ in 0..10 {
        assert_eq!(aa.update(), AsciiArtState::APPEAR);
    }
    assert_eq!(aa.update(), AsciiArtState::MOVE);
    assert_eq!(aa.get_data().rows(), letters(4, 10).rows());
    assert_eq!(aa.update(), AsciiArtState::MOVE);
    assert_eq!(aa.get_position(), (0, 0));
}

#[test]
fn sprite_without_effects_moves_on_after_one_frame() {
    let context = AsciiArtContext { stage_wxh: (20, 20), aa_width: 4, framerate: 10 };
    let mut aa = AsciiArt::from_image(letters(3, 2), &context, EffectorType::NO, EffectorType::NO, NoBehavior::new());
    assert_eq!(aa.get_state(), AsciiArtState::APPEAR);
    assert_eq!(aa.update(), AsciiArtState::MOVE);
    aa.disapper();
    assert_eq!(aa.get_state(), AsciiArtState::DISAPPER);
    assert_eq!(aa.update(), AsciiArtState::DISAPPERED);
    aa.disapper();
    assert_eq!(aa.get_state(), AsciiArtState::DISAPPERED);
}

fn sprite_cells_shown(stage_rows: &Vec<Vec<char>>, sprite: &CharGrid, x0: usize, y0: usize) -> bool {
    (0..sprite.height()).all(|y| (0..sprite.width()).all(|x| {
        let c = sprite.get(x, y);
        c == ' ' || stage_rows[y0 + y][x0 + x] == c
    }))
}

#[test]
fn appear_fades_in_disappear_fades_out() {
    // framerate 10 and one-second fades: ten frames each way.
    let mut stage: Stage<NoBehavior> = Stage::new(config(20, 30));
    let image = letters(4, 10);
    stage.appear(Some(letters(4, 10)), NoBehavior::new());
    for _ in 0..10 {
        stage.update_pict();
    }
    assert_eq!(stage.sprite().unwrap().get_state(), AsciiArtState::APPEAR);
    assert_ne!(stage.sprite().unwrap().get_data().rows(), image.rows());
    let pict = stage.update_pict();
    // picture area: 20 rows; the 4 x 10 sprite is centred at column 8, row 5.
    assert!(sprite_cells_shown(pict.rows(), &image, 8, 5));
    assert_eq!(stage.sprite().unwrap().get_state(), AsciiArtState::MOVE);
    assert_eq!(stage.sprite().unwrap().get_data().rows(), image.rows());

    stage.disappear();
    for _ in 0..10 {
        stage.update_pict();
    }
    assert_eq!(stage.sprite().unwrap().get_state(), AsciiArtState::DISAPPER);
    stage.update_pict();
    assert_eq!(stage.sprite().unwrap().get_state(), AsciiArtState::DISAPPERED);
    let last: Vec<Vec<char>> = stage.sprite().unwrap().get_data().rows().clone();
    assert!(last.iter().all(|r| r.iter().all(|c| *c == ' ')));
    stage.update_pict();
    assert_eq!(stage.sprite().unwrap().get_state(), AsciiArtState::DISAPPERED);
    assert_eq!(stage.sprite().unwrap().get_data().rows(), &last);
}

#[test]
fn title_shows_the_picture_at_once_on_a_blank_stage() {
    let mut stage: Stage<NoBehavior> = Stage::new(config(10, 12));
    stage.title(Some(CharGrid::from_rows(vec![vec!['#', ' ', '#']]).unwrap()));
    let pict = stage.update_pict();
    let rows: Vec<String> = pict.rows().iter().map(|r| r.iter().collect()).collect();
    assert_eq!(rows.len(), 8);
    assert_eq!(rows[4], "    # #   ");
    for (i, r) in rows.iter().enumerate() {
        if i != 4 {
            assert_eq!(r, "          ");
        }
    }
    stage.title(None);
    assert!(stage.sprite().is_none());
}

#[test]
fn captions_are_cleared_then_drawn_or_left_blank() {
    let mut stage: Stage<NoBehavior> = Stage::new(config(6, 12));
    let text = CharGrid::from_rows(vec![vec!['a', 'b'], vec!['c', 'd']]).unwrap();
    let area = stage.update_telop(Some(text));
    let rows: Vec<String> = area.rows().iter().map(|r| r.iter().collect()).collect();
    assert_eq!(rows, vec!["ab    ", "cd    "]);
    let area = stage.update_telop(None);
    assert!(area.rows().iter().all(|r| r.iter().all(|c| *c == ' ')));
    let wide = CharGrid::from_rows(vec![vec!['z'; 9]; 5]).unwrap();
    let area = stage.update_subtelop(Some(wide));
    let rows: Vec<String> = area.rows().iter().map(|r| r.iter().collect()).collect();
    assert_eq!(rows, vec!["zzzzzz", "zzzzzz"]);
}

#[test]
fn typed_character_shows_for_its_lifetime_then_goes() {
    // framerate 10 and half a second: five frames.
    let mut stage: Stage<NoBehavior> = Stage::new(config(6, 12));
    assert!(!stage.has_typed_char());
    let config = stage.character_config();
    assert_eq!((config.min_size, config.max_size, config.duration_ms), (8 / 3, 8, 500));
    for _ in 0..20 {
        assert!(['@', '*', '+', '-'].contains(&config.pick_char()));
    }
    // A glyph as large as the picture area has only one place to go.
    let mut rows = vec![vec![' '; 6]; 8];
    rows[0][0] = '*';
    rows[1][1] = '*';
    stage.update_character(CharGrid::from_rows(rows).unwrap());
    assert!(stage.has_typed_char());
    for _ in 0..5 {
        let pict = stage.update_pict();
        assert_eq!(pict.rows()[0][0], '*');
        assert_eq!(pict.rows()[1][1], '*');
        assert_eq!(pict.rows()[0][1], ' ');
    }
    let pict = stage.update_pict();
    assert_eq!(pict.rows()[0][0], ' ');
    assert!(!stage.has_typed_char());
}

#[test]
fn clear_pict_paints_the_background_only() {
    let mut stage: Stage<NoBehavior> = Stage::new(config(6, 12));
    stage.title(Some(CharGrid::from_rows(vec![vec!['#'; 6]; 8]).unwrap()));
    let pict = stage.clear_pict();
    assert!(pict.rows().iter().all(|r| r.iter().all(|c| *c == ' ')));
}

fn rasterize_image(path: &str, width: usize) -> Option<CharGrid> {
    image2ascii::image2ascii(path, width as u32, None, None).ok().and_then(|c| CharGrid::from_rows(c.buffer))
}

fn rasterize_text(text: &str, height: usize, pos: usize) -> Option<CharGrid> {
    image2ascii::string2ascii(text, height as f32, '@', Some((pos, '-')), None).ok().and_then(|c| CharGrid::from_rows(c.buffer))
}

fn debug_print(grid: &CharGrid) {
    for row in grid.rows() {
        println!("{}", row.iter().collect::<String>());
    }
}

#[test]
fn stage_new_works() {
    let config = StageConfig {
        stage_wxh: (600, 150),
        aa_width: 250,
        framerate: 10,
    };
    let mut stage: Stage<NoBehavior> = Stage::new(config);
    let width = stage.sprite_context().aa_width;
    stage.appear(rasterize_image("/Users/shizuku/drawings/001_megamouse_shark.png", width), NoBehavior::new());

    let telop = rasterize_text("MEGAMOUSE SHARK", stage.telop_height(), 0);
    debug_print(stage.update_telop(telop));

    debug_print(stage.update_pict());
    let telop = rasterize_text("MEGAMOUSE SHARK", stage.telop_height(), 1);
    debug_print(stage.update_telop(telop));

    for _ in 0..10 {
        debug_print(stage.update_pict());
        let telop = rasterize_text("MEGAMOUSE SHARK", stage.telop_height(), 2);
        debug_print(stage.update_telop(telop));
    }
}

#[test]
fn title_picture_stays_on_its_anchor() {
    let mut stage: Stage<NoBehavior> = Stage::new(config(10, 12));
    stage.title(Some(CharGrid::from_rows(vec![vec!['#', '#']]).unwrap()));
    for _ in 0..5 {
        let pict = stage.update_pict();
        assert_eq!(pict.rows()[4].iter().collect::<String>(), "    ##    ");
        assert_eq!(stage.sprite().unwrap().get_position(), (0, 0));
    }
    assert_eq!(stage.sprite().unwrap().get_state(), AsciiArtState::MOVE);
}

#[test]
fn changed_captions_are_reported_once() {
    let mut stage: Stage<NoBehavior> = Stage::new(config(6, 12));
    assert_eq!(stage.take_changed_captions(), (false, false));
    stage.update_subtelop(None);
    assert_eq!(stage.take_changed_captions(), (false, true));
    stage.update_telop(CharGrid::from_rows(vec![vec!['x']]));
    assert_eq!(stage.telop_area().rows()[0][0], 'x');
    assert_eq!(stage.take_changed_captions(), (true, false));
    stage.update_pict();
    assert_eq!(stage.take_changed_captions(), (false, false));
}

#[test]
fn disappear_leaves_a_gone_sprite_as_it_is() {
    let mut stage: Stage<NoBehavior> = Stage::new(config(10, 12));
    stage.disappear();
    assert!(stage.sprite().is_none());
    stage.title(Some(CharGrid::from_rows(vec![vec!['#']]).unwrap()));
    stage.disappear();
    assert_eq!(stage.sprite().unwrap().get_state(), AsciiArtState::DISAPPER);
    stage.update_pict();
    assert_eq!(stage.sprite().unwrap().get_state(), AsciiArtState::DISAPPERED);
    stage.disappear();
    assert_eq!(stage.sprite().unwrap().get_state(), AsciiArtState::DISAPPERED);
}

#[test]
fn typed_character_is_placed_inside_the_area() {
    for _ in 0..50 {
        let config = CharacterConfig { area_wxh: (10, 6), min_size: 2, max_size: 6, chars: vec!['@'], duration_ms: 500, framerate: 10 };
        let c = Character::new(CharGrid::new(3, 4), config);
        let p = c.get_position();
        assert!(0 <= p.x && p.x <= 7);
        assert!(0 <= p.y && p.y <= 2);
    }
    let config = CharacterConfig { area_wxh: (2, 2), min_size: 1, max_size: 2, chars: vec!['@'], duration_ms: 500, framerate: 10 };
    let c = Character::new(CharGrid::new(3, 4), config);
    assert_eq!((c.get_position().x, c.get_position().y), (0, 0));
}
