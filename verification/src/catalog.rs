//! The fixed catalog of musical works.
//!
//! A [`Song`] is one entry of a closed enumeration; every attribute
//! (accepted names, composer, period, asset key) is a pure function of
//! the identifier. The enumeration order is the one given by
//! [`index_of`], and [`all_works`] lists the works in that order.

use vstd::prelude::*;

verus! {

/// Number of works in the catalog.
pub const WORK_COUNT: usize = 9;

/// One entry of the closed catalog of musical works. The derived
/// order follows the declaration, which is the enumeration order
/// given by [`index_of`].
#[derive(Debug, Clone, Copy, PartialEq, Eq, PartialOrd, Ord, Hash, Structural)]
pub enum Song {
    OVirdissimaVirga,
    Lamentation1,
    TheKingOfDenmarksGalliard,
    Halleluja,
    Floytekvartett,
    SymfoniNr5,
    GjendinesBadnlat,
    PierotLunaire,
    Epitaffio,
}

/// Position of a work in the catalog's stable enumeration order.
pub open spec fn index_of(s: Song) -> int {
    match s {
        Song::OVirdissimaVirga => 0,
        Song::Lamentation1 => 1,
        Song::TheKingOfDenmarksGalliard => 2,
        Song::Halleluja => 3,
        Song::Floytekvartett => 4,
        Song::SymfoniNr5 => 5,
        Song::GjendinesBadnlat => 6,
        Song::PierotLunaire => 7,
        Song::Epitaffio => 8,
    }
}

/// The work standing at position `i` of the enumeration order.
pub open spec fn song_of_index(i: int) -> Song {
    if i == 0 {
        Song::OVirdissimaVirga
    } else if i == 1 {
        Song::Lamentation1
    } else if i == 2 {
        Song::TheKingOfDenmarksGalliard
    } else if i == 3 {
        Song::Halleluja
    } else if i == 4 {
        Song::Floytekvartett
    } else if i == 5 {
        Song::SymfoniNr5
    } else if i == 6 {
        Song::GjendinesBadnlat
    } else if i == 7 {
        Song::PierotLunaire
    } else {
        Song::Epitaffio
    }
}

/// `index_of` and `song_of_index` are inverse to each other over the
/// enumeration, so the catalog is total over exactly `WORK_COUNT`
/// distinct identifiers.
pub proof fn lemma_index_roundtrip()
    ensures
        forall|s: Song| song_of_index(index_of(s)) == s,
        forall|s: Song| 0 <= #[trigger] index_of(s) < WORK_COUNT as int,
        forall|i: int| 0 <= i < WORK_COUNT as int ==> index_of(song_of_index(i)) == i,
{
}

/// Error returned by [`work_from_index`] for an index outside the
/// catalog's range.
#[derive(Debug, Clone, Copy, PartialEq, Eq, Structural)]
pub struct CatalogRangeError {
    /// The rejected index.
    pub index: usize,
}

impl Song {
    /// Position of this work in the enumeration order, as an index
    /// usable on [`all_works`].
    pub fn index(&self) -> (r: usize)
        ensures
            r as int == index_of(*self),
            r < WORK_COUNT,
    {
        match self {
            Song::OVirdissimaVirga => 0,
            Song::Lamentation1 => 1,
            Song::TheKingOfDenmarksGalliard => 2,
            Song::Halleluja => 3,
            Song::Floytekvartett => 4,
            Song::SymfoniNr5 => 5,
            Song::GjendinesBadnlat => 6,
            Song::PierotLunaire => 7,
            Song::Epitaffio => 8,
        }
    }
}

impl Song {
    /// The accepted display names and aliases of this work; the first
    /// entry is the canonical name.
    pub open spec fn names_spec(self) -> Seq<Seq<char>> {
        match self {
            Song::OVirdissimaVirga => seq!["O viridissima virga"@],
            Song::Lamentation1 => seq!["Lamentation 1"@],
            Song::TheKingOfDenmarksGalliard => seq![
                "The king of denmarks galliard"@,
                "The king of denmark's galliard"@,
            ],
            Song::Halleluja => seq!["Halleluja-koret fra Messias"@],
            Song::Floytekvartett => seq!["Fløytekvartett i A-dur"@, "Fløytekvartett"@],
            Song::SymfoniNr5 => seq![
                "Symfoni nr 5"@,
                "Symfoni nr 5 \"skjebnesymfonien\""@,
                "\"skjebnesymfonien\""@,
            ],
            Song::GjendinesBadnlat => seq!["Gjendines bådnlåt"@],
            Song::PierotLunaire => seq!["Pierot lunaire"@, "Den månesyke Pierot"@],
            Song::Epitaffio => seq!["Epitaffio"@, "Epitaffio for orkester og lydbånd"@],
        }
    }

    /// The key resolving this work's audio asset under the asset root.
    pub open spec fn asset_key_spec(self) -> Seq<char> {
        match self {
            Song::OVirdissimaVirga => "o_virdissima_virga.mp3"@,
            Song::Lamentation1 => "lamentation_1.mp3"@,
            Song::TheKingOfDenmarksGalliard => "the_king_of_denmarks_galliard.mp3"@,
            Song::Halleluja => "halleluja.mp3"@,
            Song::Floytekvartett => "fløytekvartett_i_a_dur.mp3"@,
            Song::SymfoniNr5 => "symfoni_nr_5.mp3"@,
            Song::GjendinesBadnlat => "gjendines_bådnlåt.mp3"@,
            Song::PierotLunaire => "pierot_lunaire.mp3"@,
            Song::Epitaffio => "epitaffio.mp3"@,
        }
    }

    /// The composer of this work.
    pub open spec fn artist_spec(self) -> Seq<char> {
        match self {
            Song::OVirdissimaVirga => "Hildegard von Bingen"@,
            Song::Lamentation1 => "Giovanni da Palestrina"@,
            Song::TheKingOfDenmarksGalliard => "John Dowland"@,
            Song::Halleluja => "Georg Friedrich Handel"@,
            Song::Floytekvartett => "Wolfgang Amadeus Mozart"@,
            Song::SymfoniNr5 => "Ludwig van Beethoven"@,
            Song::GjendinesBadnlat => "Edvard Grieg"@,
            Song::PierotLunaire => "Arnold Schonberg"@,
            Song::Epitaffio => "Arne Nordheim"@,
        }
    }

    /// The historical era label of this work.
    pub open spec fn period_spec(self) -> Seq<char> {
        match self {
            Song::OVirdissimaVirga => "Middelalderen"@,
            Song::Lamentation1 => "Renessansen"@,
            Song::TheKingOfDenmarksGalliard => "Renessansen"@,
            Song::Halleluja => "Barokken"@,
            Song::Floytekvartett => "Wienerklassisismen"@,
            Song::SymfoniNr5 => "Wienerklassisismen"@,
            Song::GjendinesBadnlat => "Romantikken"@,
            Song::PierotLunaire => "Moderne musikk"@,
            Song::Epitaffio => "Moderne musikk"@,
        }
    }

    /// All accepted names of this work, canonical name first;
    /// non-empty and order-preserving.
    pub fn names(&self) -> (r: Vec<String>)
        ensures
            r@.len() == self.names_spec().len(),
            forall|i: int| 0 <= i < r@.len() ==> (#[trigger] r@[i])@ == self.names_spec()[i],
            r@.len() > 0,
    {
        let mut v: Vec<String> = Vec::new();
        match self {
            Song::OVirdissimaVirga => {
                v.push(String::from_str("O viridissima virga"));
            },
            Song::Lamentation1 => {
                v.push(String::from_str("Lamentation 1"));
            },
            Song::TheKingOfDenmarksGalliard => {
                v.push(String::from_str("The king of denmarks galliard"));
                v.push(String::from_str("The king of denmark's galliard"));
            },
            Song::Halleluja => {
                v.push(String::from_str("Halleluja-koret fra Messias"));
            },
            Song::Floytekvartett => {
                v.push(String::from_str("Fløytekvartett i A-dur"));
                v.push(String::from_str("Fløytekvartett"));
            },
            Song::SymfoniNr5 => {
                v.push(String::from_str("Symfoni nr 5"));
                v.push(String::from_str("Symfoni nr 5 \"skjebnesymfonien\""));
                v.push(String::from_str("\"skjebnesymfonien\""));
            },
            Song::GjendinesBadnlat => {
                v.push(String::from_str("Gjendines bådnlåt"));
            },
            Song::PierotLunaire => {
                v.push(String::from_str("Pierot lunaire"));
                v.push(String::from_str("Den månesyke Pierot"));
            },
            Song::Epitaffio => {
                v.push(String::from_str("Epitaffio"));
                v.push(String::from_str("Epitaffio for orkester og lydbånd"));
            },
        }
        v
    }

    /// The file name of this work's audio asset.
    pub fn file_name(&self) -> (r: String)
        ensures
            r@ == self.asset_key_spec(),
    {
        match self {
            Song::OVirdissimaVirga => String::from_str("o_virdissima_virga.mp3"),
            Song::Lamentation1 => String::from_str("lamentation_1.mp3"),
            Song::TheKingOfDenmarksGalliard => String::from_str(
                "the_king_of_denmarks_galliard.mp3",
            ),
            Song::Halleluja => String::from_str("halleluja.mp3"),
            Song::Floytekvartett => String::from_str("fløytekvartett_i_a_dur.mp3"),
            Song::SymfoniNr5 => String::from_str("symfoni_nr_5.mp3"),
            Song::GjendinesBadnlat => String::from_str("gjendines_bådnlåt.mp3"),
            Song::PierotLunaire => String::from_str("pierot_lunaire.mp3"),
            Song::Epitaffio => String::from_str("epitaffio.mp3"),
        }
    }

    /// The composer of this work.
    pub fn artist(&self) -> (r: String)
        ensures
            r@ == self.artist_spec(),
    {
        match self {
            Song::OVirdissimaVirga => String::from_str("Hildegard von Bingen"),
            Song::Lamentation1 => String::from_str("Giovanni da Palestrina"),
            Song::TheKingOfDenmarksGalliard => String::from_str("John Dowland"),
            Song::Halleluja => String::from_str("Georg Friedrich Handel"),
            Song::Floytekvartett => String::from_str("Wolfgang Amadeus Mozart"),
            Song::SymfoniNr5 => String::from_str("Ludwig van Beethoven"),
            Song::GjendinesBadnlat => String::from_str("Edvard Grieg"),
            Song::PierotLunaire => String::from_str("Arnold Schonberg"),
            Song::Epitaffio => String::from_str("Arne Nordheim"),
        }
    }

    /// The historical era label of this work.
    pub fn period(&self) -> (r: String)
        ensures
            r@ == self.period_spec(),
    {
        match self {
            Song::OVirdissimaVirga => String::from_str("Middelalderen"),
            Song::Lamentation1 => String::from_str("Renessansen"),
            Song::TheKingOfDenmarksGalliard => String::from_str("Renessansen"),
            Song::Halleluja => String::from_str("Barokken"),
            Song::Floytekvartett => String::from_str("Wienerklassisismen"),
            Song::SymfoniNr5 => String::from_str("Wienerklassisismen"),
            Song::GjendinesBadnlat => String::from_str("Romantikken"),
            Song::PierotLunaire => String::from_str("Moderne musikk"),
            Song::Epitaffio => String::from_str("Moderne musikk"),
        }
    }
}

/// Every work has at least one accepted name.
pub proof fn lemma_names_nonempty()
    ensures
        forall|s: Song| #[trigger] s.names_spec().len() > 0,
{
}

/// Which work an asset key belongs to, read off the key alone: the
/// keys' lengths differ except for one pair, which differs in its
/// first character.
spec fn key_tag(q: Seq<char>) -> int {
    if q.len() == 22 {
        0
    } else if q.len() == 17 {
        1
    } else if q.len() == 33 {
        2
    } else if q.len() == 13 {
        if q[0] == 'h' {
            3
        } else {
            8
        }
    } else if q.len() == 26 {
        4
    } else if q.len() == 16 {
        5
    } else if q.len() == 21 {
        6
    } else {
        7
    }
}

/// No two distinct works share an asset key: `asset_key_spec` is
/// injective over the whole enumeration, so the asset table can be
/// keyed by work without collisions.
pub proof fn lemma_asset_keys_injective()
    ensures
        forall|a: Song, b: Song|
            a != b ==> #[trigger] a.asset_key_spec() != #[trigger] b.asset_key_spec(),
{
    reveal_strlit("o_virdissima_virga.mp3");
    reveal_strlit("lamentation_1.mp3");
    reveal_strlit("the_king_of_denmarks_galliard.mp3");
    reveal_strlit("halleluja.mp3");
    reveal_strlit("fløytekvartett_i_a_dur.mp3");
    reveal_strlit("symfoni_nr_5.mp3");
    reveal_strlit("gjendines_bådnlåt.mp3");
    reveal_strlit("pierot_lunaire.mp3");
    reveal_strlit("epitaffio.mp3");
    assert forall|s: Song| key_tag(#[trigger] s.asset_key_spec()) == index_of(s) by {
        lemma_index_roundtrip();
    }
    lemma_index_roundtrip();
    assert forall|a: Song, b: Song|
        a != b implies #[trigger] a.asset_key_spec() != #[trigger] b.asset_key_spec() by {
        assert(key_tag(a.asset_key_spec()) == index_of(a));
        assert(key_tag(b.asset_key_spec()) == index_of(b));
        assert(song_of_index(index_of(a)) == a);
        assert(song_of_index(index_of(b)) == b);
    }
}

/// Work at position `i` of the enumeration order; the only partial
/// operation of the catalog. Any index outside `[0, WORK_COUNT)` is
/// rejected with a [`CatalogRangeError`], never wrapped or clamped.
pub fn work_from_index(i: usize) -> (r: Result<Song, CatalogRangeError>)
    ensures
        i < WORK_COUNT ==> r == Ok::<Song, CatalogRangeError>(song_of_index(i as int)),
        i >= WORK_COUNT ==> r == Err::<Song, CatalogRangeError>(CatalogRangeError { index: i }),
{
    match i {
        0 => Ok(Song::OVirdissimaVirga),
        1 => Ok(Song::Lamentation1),
        2 => Ok(Song::TheKingOfDenmarksGalliard),
        3 => Ok(Song::Halleluja),
        4 => Ok(Song::Floytekvartett),
        5 => Ok(Song::SymfoniNr5),
        6 => Ok(Song::GjendinesBadnlat),
        7 => Ok(Song::PierotLunaire),
        8 => Ok(Song::Epitaffio),
        _ => Err(CatalogRangeError { index: i }),
    }
}

/// Relies on macroquad::rand::gen_range (quad_rand): for integer
/// types it returns `low + trunc((high - low) * r)` with `r` drawn in
/// `[0, 1)` from the global generator, so the result lies in
/// `[low, high)`. The value depends on the generator's hidden state,
/// so nothing more than the range is stated.
#[verifier::external_body]
fn random_index() -> (r: usize)
    ensures
        r < WORK_COUNT,
{
    macroquad::rand::gen_range(0usize, WORK_COUNT)
}

impl Song {
    /// A work drawn uniformly at random from the whole enumeration,
    /// using the process-wide seedable generator. Whatever is drawn
    /// belongs to the catalog; nothing more can be said of a random
    /// result.
    pub fn random() -> (r: Song)
        ensures
            all_works_spec().contains(r),
    {
        proof {
            lemma_all_works_complete();
        }
        let i = random_index();
        match work_from_index(i) {
            Ok(s) => s,
            Err(_) => {
                // the drawn index is always in range
                proof {
                    assert(false);
                }
                Song::OVirdissimaVirga
            },
        }
    }
}

/// The works in the catalog's stable enumeration order.
pub open spec fn all_works_spec() -> Seq<Song> {
    seq![
        Song::OVirdissimaVirga,
        Song::Lamentation1,
        Song::TheKingOfDenmarksGalliard,
        Song::Halleluja,
        Song::Floytekvartett,
        Song::SymfoniNr5,
        Song::GjendinesBadnlat,
        Song::PierotLunaire,
        Song::Epitaffio,
    ]
}

/// Every work occurs in [`all_works_spec`], exactly at its
/// `index_of` position, so the enumeration is complete and free of
/// duplicates.
pub proof fn lemma_all_works_complete()
    ensures
        all_works_spec().len() == WORK_COUNT as int,
        forall|i: int| 0 <= i < WORK_COUNT as int ==> all_works_spec()[i] == song_of_index(i),
        forall|s: Song| all_works_spec().contains(s),
{
    assert forall|s: Song| all_works_spec().contains(s) by {
        assert(all_works_spec()[index_of(s)] == s);
    }
}

/// The fixed enumeration of works, in the stable order that drives
/// asset preloading.
pub fn all_works() -> (r: Vec<Song>)
    ensures
        r@ == all_works_spec(),
{
    let mut v: Vec<Song> = Vec::new();
    v.push(Song::OVirdissimaVirga);
    v.push(Song::Lamentation1);
    v.push(Song::TheKingOfDenmarksGalliard);
    v.push(Song::Halleluja);
    v.push(Song::Floytekvartett);
    v.push(Song::SymfoniNr5);
    v.push(Song::GjendinesBadnlat);
    v.push(Song::PierotLunaire);
    v.push(Song::Epitaffio);
    proof {
        assert(v@ =~= all_works_spec());
    }
    v
}

} // verus!
