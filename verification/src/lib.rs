//! A personal library of audio tracks taken from video-hosting URLs.
//!
//! The library keeps a catalog of tracks and, for each track, two asset files: the
//! audio and a thumbnail. It can list the catalog, sum up a video, download a
//! video as a new track, edit a track and delete one.
//!
//! It does none of the work on the network or on the disk itself. Each operation
//! is a [`pipeline::Pipeline`]: a state that asks one [`protocol::Request`] at a
//! time and goes on when it is told the [`protocol::Reply`]. The program around
//! the library resolves URLs, fetches and deletes files, and reads and writes the
//! catalog document; the library decides what is asked next, what the catalog
//! becomes, and how the operation ends.
//!
//! What an operation does step by step is the contract of
//! [`pipeline::Pipeline::advance`]. What a whole operation achieves is stated in
//! [`laws`], over the model of a data directory in [`disk`].
//!
//! Operations are not guarded against each other. Each reads the catalog, changes
//! it and writes it back whole, so of two that run at the same time the later
//! write wins and the change of the other is lost. A program that runs operations
//! side by side has to put them in a queue of its own.

pub mod assets;
pub mod catalog;
pub mod delete;
pub mod disk;
pub mod download;
pub mod edit;
pub mod error;
pub mod laws;
pub mod load;
pub mod pipeline;
pub mod protocol;
pub mod seconds;
pub mod track;
pub mod video;
