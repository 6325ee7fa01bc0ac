//! What the server hands to every connection: where files go, where images
//! go, and whether to log in detail. It is never changed after it is made.

use vstd::prelude::*;
use vstd::string::*;

verus! {

/// The settings that the handlers read.
#[derive(Debug)]
pub struct Config {
    pub file_dir: String,
    pub image_dir: String,
    pub debug: String,
}

impl Config {
    /// Whether detailed logging is on: the flag is exactly `true`.
    pub fn debug_enabled(&self) -> (on: bool)
        ensures
            on == (self.debug@ == "true"@),
    {
        crate::text::text_eq(self.debug.as_str(), "true")
    }
}

impl Clone for Config {
    fn clone(&self) -> (copy: Self)
        ensures
            copy.file_dir@ == self.file_dir@,
            copy.image_dir@ == self.image_dir@,
            copy.debug@ == self.debug@,
    {
        Config {
            file_dir: self.file_dir.clone(),
            image_dir: self.image_dir.clone(),
            debug: self.debug.clone(),
        }
    }
}

} // verus!
