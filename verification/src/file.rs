//! Files that were seen to exist.

use crate::error::DeepslateError;
use vstd::prelude::*;
use vstd::string::*;

verus! {

/// The path of a file that was found when it was looked for. There is no
/// way to one but [`ToRead::new`].
#[derive(Debug, Clone, PartialEq, Eq)]
pub struct ToRead(String);

impl View for ToRead {
    type V = Seq<char>;

    /// The path.
    closed spec fn view(&self) -> Seq<char> {
        self.0@
    }
}

/// What is reported of a file that is missing.
pub open spec fn missing(path: Seq<char>) -> Seq<char> {
    "Could not find the file "@ + path
}

impl ToRead {
    /// Admits `path` as a file to read. `found` says whether a file is there:
    /// with it the path is kept, without it the file is reported missing by
    /// name.
    pub fn new(path: String, found: bool) -> (r: Result<ToRead, DeepslateError>)
        ensures
            match r {
                Ok(file) => found && file@ == path@,
                Err(e) => !found && (e matches DeepslateError::Error(message) && message@
                    == missing(path@)),
            },
    {
        if found {
            Ok(ToRead(path))
        } else {
            Err(
                DeepslateError::Error(
                    String::from_str("Could not find the file ").concat(path.as_str()),
                ),
            )
        }
    }

    /// The path that was admitted.
    pub fn path(&self) -> (path: &String)
        ensures
            path@ == self@,
    {
        &self.0
    }
}

} // verus!
