//! The persisted settings; the front-end reads and writes them as JSON and
//! falls back to the defaults when that fails.
use crate::theme::Theme;
use vstd::prelude::*;

verus! {

#[derive(Debug, Clone, Copy, PartialEq, Eq, Structural)]
pub struct Settings {
    pub theme: Theme,
}

impl Default for Settings {
    fn default() -> (r: Self)
        ensures
            r.theme == Theme::Default,
    {
        Settings { theme: Theme::Default }
    }
}

} // verus!
