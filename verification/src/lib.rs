//! Layout and launch orchestration for running several copies of one game
//! side by side on a single screen.
//!
//! The crate computes the grid that divides the screen between the players,
//! assigns every instance its resolution and cell, composes the shell command
//! that starts all instances inside their sandboxes, and decides how freshly
//! created windows are arranged into rows. Everything here is pure: the caller
//! performs the file-system probes, spawns the processes and talks to the
//! window manager.
//!
//! - [`resolution`], [`grid`]: sizes in pixels and the grid calculator.
//! - [`config`], [`input`], [`game`]: what a session is given.
//! - [`instance`]: the instances and the registry that holds them.
//! - [`names`], [`layout`]: naming the instances and laying them out.
//! - [`launch`], [`session`]: the launch command and the plan of a launch.
//! - [`sway`]: arranging windows under Sway and finding its socket.
//! - [`text`]: the text utilities underneath.

pub mod resolution;
pub mod grid;
pub mod text;
pub mod config;
pub mod input;
pub mod game;
pub mod instance;
pub mod layout;
pub mod names;
pub mod sway;
pub mod session;
pub mod launch;
