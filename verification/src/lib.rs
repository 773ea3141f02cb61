//! The core of a crowd-sourced jukebox.
//!
//! A client plays a shared queue of tracks. Guests submit track ids through
//! a web form; a relay server hands each submission to the client it is
//! meant for, over a socket that stays open; the client fetches metadata and
//! audio in two stages and queues the track.
//!
//! On the client: [`state`] is the store that every worker reads and writes,
//! [`connection`] decides for the worker that owns the socket, [`downloader`]
//! for the two stages of the download pipeline, [`player`] for the player,
//! [`ui`] for the keys of the window, and [`control`] for the main loop. On
//! the server: [`connections`] is the registry of live sessions, [`socket`]
//! decides for the task that owns a client's socket, and [`server`] answers
//! the submission form. [`protocol`] holds the frames both ends exchange,
//! [`util`] the addresses and names they agree on, [`text`] a few operations
//! on strings.
//!
//! Nothing here reads a socket, a file or a clock: a worker reports what it
//! found as an event, and gets back what to do next.

pub mod connection;
pub mod connections;
pub mod control;
pub mod downloader;
pub mod player;
pub mod protocol;
pub mod server;
pub mod socket;
pub mod state;
pub mod text;
pub mod ui;
pub mod util;
