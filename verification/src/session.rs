//! The playback session: the currently selected work, random
//! selection, and the lookup feeding the play/stop triggers.
//!
//! A session is created only after the asset table is fully built, so
//! the handle of the current work can always be resolved — the lookup
//! backing the triggers can never miss.

use crate::assets::MusicLoader;
use crate::catalog::{song_of_index, CatalogRangeError, Song, WORK_COUNT};
use vstd::prelude::*;

verus! {

/// The playback session. Holds the asset table and the currently
/// selected work; the current work changes only through selection,
/// never through the play/stop triggers.
pub struct MusicManager<S> {
    current_song: Song,
    loader: MusicLoader<S>,
}

impl<S> MusicManager<S> {
    /// The session's asset table covers the whole catalog.
    pub open spec fn wf(self) -> bool {
        self.loader_spec().wf()
    }

    /// The currently selected work.
    pub closed spec fn current_spec(self) -> Song {
        self.current_song
    }

    /// The session's asset table.
    pub closed spec fn loader_spec(self) -> MusicLoader<S> {
        self.loader
    }

    /// Creates a session over a fully built asset table, with a
    /// random work selected as current.
    pub fn new(loader: MusicLoader<S>) -> (r: MusicManager<S>)
        requires
            loader.wf(),
        ensures
            r.wf(),
            r.loader_spec() == loader,
    {
        MusicManager { current_song: Song::random(), loader }
    }

    /// The currently selected work.
    pub fn current(&self) -> (r: Song)
        ensures
            r == self.current_spec(),
    {
        self.current_song
    }

    /// Selects the work at position `i` of the enumeration order as
    /// current. Rejects an index outside the catalog's range and
    /// leaves the session unchanged; never starts or stops audio, and
    /// never touches the asset table.
    pub fn select_index(&mut self, i: usize) -> (r: Result<(), CatalogRangeError>)
        ensures
            i < WORK_COUNT ==> r is Ok && final(self).current_spec() == song_of_index(i as int),
            i >= WORK_COUNT ==> r == Err::<(), CatalogRangeError>(
                CatalogRangeError { index: i },
            ) && *final(self) == *old(self),
            final(self).loader_spec() == old(self).loader_spec(),
    {
        match crate::catalog::work_from_index(i) {
            Ok(w) => {
                self.current_song = w;
                Ok(())
            },
            Err(e) => Err(e),
        }
    }

    /// Selects a work uniformly at random from the whole enumeration
    /// as current, independent of the present selection; never starts
    /// or stops audio, and never touches the asset table. The new
    /// selection always belongs to the catalog.
    pub fn select_random(&mut self)
        ensures
            final(self).loader_spec() == old(self).loader_spec(),
            crate::catalog::all_works_spec().contains(final(self).current_spec()),
    {
        self.current_song = Song::random();
    }

    /// The loaded handle backing the currently selected work; total
    /// because the table covers the catalog, so the session can
    /// always hand its backend a sound to trigger.
    pub fn current_sound(&self) -> (r: &S)
        requires
            self.wf(),
        ensures
            *r == self.loader_spec().sound_for(self.current_spec()),
    {
        self.loader.get(self.current_song)
    }
}

} // verus!
