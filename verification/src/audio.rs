//! Play and stop triggers for a session backed by macroquad's audio.
//!
//! Playback is fire-and-forget: a trigger starts the current work's
//! sound once from the start and returns at once; nothing awaits or
//! tracks completion. Triggering while the work is already sounding
//! starts an additional independent instance — the prior one is not
//! stopped or deduplicated. Both triggers hand the underlying audio
//! subsystem a handle the session resolved through its table, so the
//! lookup itself can never miss; they must run inside a macroquad
//! application, whose window loop owns the audio context. Audible
//! output further needs macroquad built with its `audio` cargo
//! feature: without it macroquad substitutes a silent backend behind
//! the same functions, and a trigger logs a warning instead of
//! sounding.

use crate::session::MusicManager;
use vstd::prelude::*;

verus! {

/// macroquad's decoded audio handle; opaque to this crate.
#[verifier::external_type_specification]
#[verifier::external_body]
pub struct ExSound(macroquad::audio::Sound);

/// Relies on macroquad::audio::play_sound_once: plays the decoded
/// sound once from the start, unlooped, at full volume, and returns
/// without waiting; needs the running application's audio context,
/// and macroquad's `audio` feature for the trigger to be audible.
#[verifier::external_body]
fn play_once(sound: &macroquad::audio::Sound) {
    macroquad::audio::play_sound_once(sound)
}

/// Relies on macroquad::audio::stop_sound: stops the instances of
/// this decoded sound that are sounding, and is a no-op when none is;
/// needs the running application's audio context, and macroquad's
/// `audio` feature to have any effect.
#[verifier::external_body]
fn stop(sound: &macroquad::audio::Sound) {
    macroquad::audio::stop_sound(sound)
}

impl MusicManager<macroquad::audio::Sound> {
    /// Triggers playback of the current work's asset exactly once
    /// from the start. Does not change the selection.
    pub fn play_song(&self)
        requires
            self.wf(),
    {
        play_once(self.current_sound())
    }

    /// Silences the current work's asset if it is sounding; a no-op,
    /// not an error, when nothing is sounding for it. Does not change
    /// the selection.
    pub fn stop_song(&self)
        requires
            self.wf(),
    {
        stop(self.current_sound())
    }
}

} // verus!
