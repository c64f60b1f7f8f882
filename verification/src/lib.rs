//! Local control of the Warp terminal: the protocol's action catalog and
//! errors, the permission checks, the handlers' decisions for Warp Drive,
//! files and projects, the `warpctrl` command line, and smaller pieces of
//! the app that those rely on (restored conversations and the decisions of
//! their sqlite store, editor line numbers, captured frames).

pub mod cli;
pub mod cloud_object;
pub mod commands;
pub mod drive;
pub mod file_project;
pub mod frame_capture;
pub mod input_context;
pub mod line_numbers;
pub mod permissions;
pub mod persistence;
pub mod protocol;
pub mod renderer;
pub mod restored_conversations;
pub mod text;
pub mod windows;
