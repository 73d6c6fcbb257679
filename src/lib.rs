//! Wallpaper updater core: the single-instance lock protocol, the
//! fetch/download/apply tick and the supervisor's start/restart decisions.
//! Every decision here is a verified function from plain values to plain
//! values; the surrounding program performs the I/O they ask for.
pub mod pidfile;
pub mod lock;
pub mod paths;
pub mod source;
pub mod tick;
pub mod supervisor;
pub mod daemon;
