//! A launcher for a game that keeps several isolated game directories
//! ("instances"): it finds or asks for the game's launcher, creates and lists
//! instances, points the launcher's profile file at the chosen instance, and
//! moves between its screens as the user acts. Everything that touches the
//! file system, processes or the window stays outside this library, which
//! takes what was found as plain values and says what to do next.
pub mod config;
pub mod error;
pub mod instance;
pub mod json;
pub mod launchers;
pub mod naming;
pub mod paths;
pub mod pointer;
pub mod profile;
pub mod screens;
