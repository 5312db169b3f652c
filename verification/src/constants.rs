//! Names that the crate and its front end agree on.

use vstd::prelude::*;

verus! {

/// The file, in the working directory, that describes the project.
pub const CONFIGURATION: &'static str = "axolotl.toml";

/// The character of an artifact pattern that stands for the version.
pub const VERSION_REPLACE: char = '#';

} // verus!
