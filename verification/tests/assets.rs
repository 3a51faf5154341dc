use song_catalog::assets::{load_all, MusicLoader};
use song_catalog::catalog::{all_works, Song, WORK_COUNT};

fn all_loaded() -> Vec<Result<u32, String>> {
    (0..WORK_COUNT as u32).map(Ok).collect()
}

#[test]
fn load_all_succeeds_and_get_is_total() {
    let loader = load_all(all_loaded()).expect("every asset loaded");
    for w in all_works() {
        assert_eq!(*loader.get(w), w.index() as u32);
    }
}

#[test]
fn load_all_reports_missing_galliard() {
    let mut results = all_loaded();
    results[Song::TheKingOfDenmarksGalliard.index()] = Err("file not found".to_string());
    let err = match load_all(results) {
        Ok(_) => panic!("one missing asset must fail the whole load"),
        Err(e) => e,
    };
    assert_eq!(err.asset_key, "the_king_of_denmarks_galliard.mp3");
    assert_eq!(err.cause, "file not found");
}

#[test]
fn load_all_reports_first_failure_in_order() {
    let mut results = all_loaded();
    results[Song::SymfoniNr5.index()] = Err("decode error".to_string());
    results[Song::Lamentation1.index()] = Err("file not found".to_string());
    let err = match load_all(results) {
        Ok(_) => panic!("missing assets must fail the whole load"),
        Err(e) => e,
    };
    assert_eq!(err.asset_key, "lamentation_1.mp3");
    assert_eq!(err.cause, "file not found");
}

#[test]
fn loader_rejects_wrong_count() {
    let short: Vec<u32> = (0..WORK_COUNT as u32 - 1).collect();
    assert!(MusicLoader::new(short).is_err());
    let long: Vec<u32> = (0..WORK_COUNT as u32 + 1).collect();
    assert!(MusicLoader::new(long).is_err());
    let exact: Vec<u32> = (0..WORK_COUNT as u32).collect();
    assert!(MusicLoader::new(exact).is_ok());
}
