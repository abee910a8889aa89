//! A bridge between a 3D-printer daemon's push API and a chat bot: one
//! decision loop reconciles the daemon's status pushes into a single
//! snapshot, tracks the daemon's lifecycle, and turns alerts into
//! notifications.
pub mod config;
pub mod discord;
pub mod moonraker;
pub mod text;
