//! The asset table: one decoded audio handle per catalog entry.
//!
//! The table is built once, before any playback session exists, and
//! all-or-nothing: if any single asset failed to load, no table is
//! produced. The handle type is opaque to the table — the program
//! instantiates it with its audio backend's decoded-sound type, tests
//! with plain values.

use crate::catalog::{index_of, song_of_index, Song, WORK_COUNT};
use vstd::prelude::*;

verus! {

/// Error raised when building the asset table: a single asset could
/// not be located or decoded. Carries which asset key failed and the
/// underlying cause; fatal to startup, no partial table is exposed.
#[derive(Debug)]
pub struct AssetLoadError {
    /// The asset key whose resource was missing or undecodable.
    pub asset_key: String,
    /// The underlying loader or decoder message.
    pub cause: String,
}

/// Error raised when an asset table would not cover the catalog:
/// the two were built from different views of the enumeration.
/// Always fatal, never silently defaulted.
#[derive(Debug, Clone, Copy, PartialEq, Eq, Structural)]
pub struct InternalConsistencyError;

/// The asset table, mapping every work of the catalog to one loaded
/// handle of type `S`. A constructed table always covers the whole
/// enumeration, which is what makes [`MusicLoader::get`] total.
pub struct MusicLoader<S> {
    sounds: Vec<S>,
}

impl<S> MusicLoader<S> {
    /// The table covers the whole catalog: one handle per work, in
    /// enumeration order.
    pub closed spec fn wf(self) -> bool {
        self.sounds@.len() == WORK_COUNT as int
    }

    /// The handle backing `s`.
    pub closed spec fn sound_for(self, s: Song) -> S {
        self.sounds@[index_of(s)]
    }

    /// Builds the table from one handle per work, given in the
    /// catalog's enumeration order. A sequence of any other length
    /// cannot cover the enumeration and is rejected.
    pub fn new(sounds: Vec<S>) -> (r: Result<MusicLoader<S>, InternalConsistencyError>)
        ensures
            r.is_ok() == (sounds@.len() == WORK_COUNT as int),
            r matches Ok(l) ==> l.wf() && (forall|i: int|
                0 <= i < WORK_COUNT as int ==> #[trigger] l.sound_for(song_of_index(i))
                    == sounds@[i]),
    {
        if sounds.len() != WORK_COUNT {
            return Err(InternalConsistencyError);
        }
        let l = MusicLoader { sounds };
        proof {
            crate::catalog::lemma_index_roundtrip();
        }
        Ok(l)
    }

    /// The loaded handle for `w`; total over the enumeration once the
    /// table is built, so a lookup can never miss.
    pub fn get(&self, w: Song) -> (r: &S)
        requires
            self.wf(),
        ensures
            *r == self.sound_for(w),
    {
        let i = w.index();
        &self.sounds[i]
    }
}

/// Builds the asset table from the outcome of loading each work's
/// asset, given in the catalog's enumeration order. All-or-nothing:
/// the table is produced exactly when every load succeeded; otherwise
/// the error names the asset key of the first failure, in enumeration
/// order, and carries that failure's cause.
#[verifier::loop_isolation(false)]
pub fn load_all<S>(results: Vec<Result<S, String>>) -> (r: Result<
    MusicLoader<S>,
    AssetLoadError,
>)
    requires
        results@.len() == WORK_COUNT as int,
    ensures
        r.is_ok() == (forall|i: int| 0 <= i < WORK_COUNT as int ==> results@[i] is Ok),
        r matches Ok(l) ==> l.wf() && (forall|i: int|
            0 <= i < WORK_COUNT as int ==> (results@[i] matches Ok(s)
                && #[trigger] l.sound_for(song_of_index(i)) == s)),
        r matches Err(e) ==> exists|i: int|
            0 <= i < WORK_COUNT as int && ((#[trigger] results@[i]) matches Err(c)
                && (forall|j: int| 0 <= j < i ==> results@[j] is Ok)
                && e.asset_key@ == song_of_index(i).asset_key_spec() && e.cause@ == c@),
{
    let ghost all = results@;
    let mut rest = results;
    let mut sounds: Vec<S> = Vec::new();
    let mut i: usize = 0;
    while i < WORK_COUNT
        invariant
            i <= WORK_COUNT,
            all.len() == WORK_COUNT as int,
            rest@ == all.subrange(i as int, WORK_COUNT as int),
            sounds@.len() == i as int,
            forall|j: int| 0 <= j < i as int ==> ((#[trigger] all[j]) matches Ok(s)
                && sounds@[j] == s),
        decreases WORK_COUNT - i,
    {
        match rest.remove(0) {
            Ok(s) => {
                sounds.push(s);
            },
            Err(cause) => {
                let w = match crate::catalog::work_from_index(i) {
                    Ok(w) => w,
                    Err(_) => {
                        // the loop index stays inside the enumeration
                        proof {
                            assert(false);
                        }
                        Song::OVirdissimaVirga
                    },
                };
                let e = AssetLoadError { asset_key: w.file_name(), cause };
                proof {
                    assert(all[i as int] matches Err(c) && e.cause@ == c@
                        && e.asset_key@ == song_of_index(i as int).asset_key_spec());
                }
                return Err(e);
            },
        }
        i = i + 1;
    }
    match MusicLoader::new(sounds) {
        Ok(l) => Ok(l),
        Err(_) => {
            // the loop collected exactly one handle per work
            proof {
                assert(false);
            }
            Err(AssetLoadError { asset_key: String::new(), cause: String::new() })
        },
    }
}

} // verus!
