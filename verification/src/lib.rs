//! Release publishing for mod projects: a credential vault whose tokens can be
//! encrypted at rest with a passphrase, and the rules by which a release is
//! sent to each configured distributor in turn.
//!
//! The crate performs no file, network or terminal I/O. A front end reads and
//! writes the files, asks the questions and talks to the distributors; every
//! decision in between is taken here.

pub mod configuration;
pub mod constants;
pub mod error;
pub mod file;
pub mod keys;
pub mod modrinth;
pub mod publish;
pub mod util;
pub mod vault;
