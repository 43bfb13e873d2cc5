//! Named-server file transfer: a table of server aliases, resolution of
//! `alias:path` locations, and the exact command lines handed to `scp`,
//! `rsync`, `ssh` and `cp`.
pub mod config;
pub mod location;
pub mod onboard;
pub mod text;
pub mod transfer;
