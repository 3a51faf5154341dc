use song_catalog::assets::load_all;
use song_catalog::catalog::{all_works, Song, WORK_COUNT};
use song_catalog::session::MusicManager;

fn session() -> MusicManager<u32> {
    let results = (0..WORK_COUNT as u32).map(Ok).collect();
    let loader = load_all(results).expect("every asset loaded");
    MusicManager::new(loader)
}

#[test]
fn new_session_selects_a_catalog_work() {
    let m = session();
    assert!(all_works().contains(&m.current()));
}

#[test]
fn select_index_sets_current() {
    let mut m = session();
    m.select_index(Song::Halleluja.index()).unwrap();
    assert_eq!(m.current(), Song::Halleluja);
    assert_eq!(*m.current_sound(), Song::Halleluja.index() as u32);
    m.select_index(0).unwrap();
    assert_eq!(m.current(), Song::OVirdissimaVirga);
    assert_eq!(*m.current_sound(), 0);
}

#[test]
fn select_index_rejects_out_of_range() {
    let mut m = session();
    m.select_index(2).unwrap();
    let err = m.select_index(WORK_COUNT).unwrap_err();
    assert_eq!(err.index, WORK_COUNT);
    assert_eq!(m.current(), Song::TheKingOfDenmarksGalliard);
}

#[test]
fn current_sound_follows_selection() {
    let mut m = session();
    for w in all_works() {
        m.select_index(w.index()).unwrap();
        assert_eq!(m.current(), w);
        assert_eq!(*m.current_sound(), w.index() as u32);
    }
}

#[test]
fn select_random_stays_in_catalog_and_covers_it() {
    macroquad::rand::srand(12345);
    let mut m = session();
    let mut counts = [0usize; WORK_COUNT];
    for _ in 0..1000 {
        m.select_random();
        let i = m.current().index();
        assert!(i < WORK_COUNT);
        counts[i] += 1;
    }
    // roughly uniform: each work's share of 1000 draws is near 1000 / 9
    for c in counts {
        assert!(c > 40, "a work was drawn too rarely: {c}");
        assert!(c < 300, "a work was drawn too often: {c}");
    }
}
