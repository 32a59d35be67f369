//! Firedancer lifecycle management: update, build, configure, start, stop, restart, report on, and
//! watch a validator that runs as a systemd service.
//!
//! Everything that is decided or computed stands here; everything that is read, written, run, or
//! waited for is a [`session::Request`]. A procedure is a function of the replies to its requests:
//! its contract says, for every sequence of replies, which requests it makes and how it ends.
//! [`replay`] shows that such a procedure can be run one reply at a time, [`conduct`] states what
//! holds of the procedures whatever the replies say, and [`deeds`] what a command has done once it
//! has ended.

pub mod cli;
pub mod conduct;
pub mod configure;
pub mod deeds;
pub mod dispatch;
pub mod lock;
pub mod logging;
pub mod monitor;
pub mod paths;
pub mod privilege;
pub mod process;
pub mod progress;
pub mod replay;
pub mod repository;
pub mod restart;
pub mod service;
pub mod session;
pub mod status;
pub mod text;
pub mod update_full;
