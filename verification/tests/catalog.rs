use song_catalog::catalog::{all_works, work_from_index, Song, WORK_COUNT};

#[test]
fn work_from_index_covers_catalog() {
    for i in 0..WORK_COUNT {
        let w = work_from_index(i).expect("index inside the catalog must resolve");
        assert!(!w.names().is_empty());
        assert_eq!(w.index(), i);
    }
}

#[test]
fn work_from_index_rejects_out_of_range() {
    let e = work_from_index(WORK_COUNT).unwrap_err();
    assert_eq!(e.index, WORK_COUNT);
    let e = work_from_index(1000).unwrap_err();
    assert_eq!(e.index, 1000);
    let e = work_from_index(usize::MAX).unwrap_err();
    assert_eq!(e.index, usize::MAX);
}

#[test]
fn all_works_is_stable_and_complete() {
    let works = all_works();
    assert_eq!(works.len(), WORK_COUNT);
    for (i, w) in works.iter().enumerate() {
        assert_eq!(w.index(), i);
        assert_eq!(work_from_index(i).unwrap(), *w);
    }
}

#[test]
fn asset_keys_are_unique() {
    let works = all_works();
    for a in &works {
        for b in &works {
            if a != b {
                assert_ne!(a.file_name(), b.file_name());
            }
        }
    }
}

#[test]
fn every_work_has_names_composer_period() {
    for w in all_works() {
        assert!(!w.names().is_empty());
        assert!(!w.artist().is_empty());
        assert!(!w.period().is_empty());
        assert!(w.file_name().ends_with(".mp3"));
    }
}

#[test]
fn halleluja_metadata() {
    let w = Song::Halleluja;
    assert_eq!(w.names(), vec!["Halleluja-koret fra Messias"]);
    assert_eq!(w.artist(), "Georg Friedrich Handel");
    assert_eq!(w.period(), "Barokken");
    assert_eq!(w.file_name(), "halleluja.mp3");
}

#[test]
fn galliard_metadata() {
    let w = Song::TheKingOfDenmarksGalliard;
    assert_eq!(
        w.names(),
        vec![
            "The king of denmarks galliard",
            "The king of denmark's galliard"
        ]
    );
    assert_eq!(w.artist(), "John Dowland");
    assert_eq!(w.period(), "Renessansen");
    assert_eq!(w.file_name(), "the_king_of_denmarks_galliard.mp3");
}

#[test]
fn first_and_last_works() {
    let first = work_from_index(0).unwrap();
    assert_eq!(first, Song::OVirdissimaVirga);
    assert_eq!(first.artist(), "Hildegard von Bingen");
    assert_eq!(first.period(), "Middelalderen");
    let last = work_from_index(WORK_COUNT - 1).unwrap();
    assert_eq!(last, Song::Epitaffio);
    assert_eq!(last.artist(), "Arne Nordheim");
    assert_eq!(last.period(), "Moderne musikk");
    assert_eq!(last.names()[0], "Epitaffio");
}

#[test]
fn works_are_ordered_by_catalog_position() {
    let works = all_works();
    for i in 1..works.len() {
        assert!(works[i - 1] < works[i]);
    }
}
