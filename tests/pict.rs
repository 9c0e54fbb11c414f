use aquatyping::pict::{generate_index_series, Pict, PictManager};

fn pict(id: &str, en: &str) -> Pict {
    Pict { id: id.to_string(), ja: String::new(), romaji: String::new(), en: en.to_string(), tags: Vec::new() }
}

fn manager() -> PictManager {
    PictManager::from_info(
        "/pictures",
        vec![pict("001.png", "shark"), pict("002.png", "loach"), pict("003.png", "flathead")],
        vec![pict("T01.png", "title"), pict("T02.png", "other"), pict("T01.png", "again")],
    )
}

#[test]
fn index_series_cycles_through_the_catalog() {
    assert_eq!(generate_index_series(3, 7), vec![0, 1, 2, 0, 1, 2, 0]);
    assert_eq!(generate_index_series(1, 3), vec![0, 0, 0]);
    assert_eq!(generate_index_series(4, 0), vec![0]);
    assert_eq!(manager().index_series(5), vec![1, 0, 2, 1, 0]);
}

#[test]
fn pictures_are_looked_up_by_index_and_titles_by_id() {
    let m = manager();
    assert_eq!(m.get_pict_len(), 3);
    assert_eq!(m.get_pict(1).unwrap().en, "loach");
    assert!(m.get_pict(3).is_none());
    assert_eq!(m.get_title_by_id("T01.png").unwrap().en, "title");
    assert_eq!(m.get_title_by_id("T02.png").unwrap().en, "other");
    assert!(m.get_title_by_id("T03.png").is_none());
}

#[test]
fn picture_paths_are_under_the_directory() {
    let m = manager();
    assert_eq!(m.get_pict_path(m.get_pict(0).unwrap()), "/pictures/001.png");
    let m = PictManager::from_info("/pictures/", vec![pict("a.png", "a")], Vec::new());
    assert_eq!(m.get_pict_path(m.get_pict(0).unwrap()), "/pictures/a.png");
    let m = PictManager::from_info("", vec![pict("a.png", "a"), pict("/abs/b.png", "b")], Vec::new());
    assert_eq!(m.get_pict_path(m.get_pict(0).unwrap()), "a.png");
    assert_eq!(m.get_pict_path(m.get_pict(1).unwrap()), "/abs/b.png");
}
