//! Song catalog and playback session for a small classical-music trainer.
//!
//! The crate has three parts, layered in dependency order:
//!
//! - [`catalog`]: a closed enumeration of musical works with their
//!   metadata (accepted names, composer, period, audio asset key) and
//!   pure lookup functions over it.
//! - [`assets`]: the asset table holding one decoded audio handle per
//!   catalog entry, built all-or-nothing before any session exists.
//! - [`session`]: the playback session tracking the currently selected
//!   work, with random selection and play/stop triggers.

pub mod assets;
pub mod audio;
pub mod catalog;
pub mod session;
