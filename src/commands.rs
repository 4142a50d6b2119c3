//! The decisions of the command-line subcommands; the front-end prints and
//! runs the package manager around them.
use crate::text::{after_last, base_names, string_views};
use vstd::prelude::*;

verus! {

/// `install [packages...] [-y]`.
pub struct InstallCommand;

/// `remove [packages...] [-y]`.
pub struct RemoveCommand;

/// `search <query>`.
pub struct SearchCommand;

/// `list [-i]`.
pub struct ListCommand;

/// How `list` presents the installed packages.
#[derive(Debug, Clone, Copy, PartialEq, Eq, Structural)]
pub enum ListMode {
    /// Nothing is installed: say so.
    NothingInstalled,
    /// Browse them in the interactive selector.
    Browse,
    /// Print them, one per line.
    Print,
}

impl InstallCommand {
    /// The packages are chosen in the selector when asked for, or when none
    /// were named.
    pub fn needs_selection(packages: &Vec<String>, interactive: bool) -> (r: bool)
        ensures
            r == (interactive || packages@.len() == 0),
    {
        interactive || packages.len() == 0
    }

    /// What to install for the `repository/name` pairs chosen in the selector:
    /// the names.
    pub fn targets(selected: &Vec<String>) -> (r: Vec<String>)
        ensures
            string_views(r@) == string_views(selected@).map_values(
                |p: Seq<char>| after_last(p, '/'),
            ),
    {
        base_names(selected)
    }
}

impl RemoveCommand {
    /// As for `install`.
    pub fn needs_selection(packages: &Vec<String>, interactive: bool) -> (r: bool)
        ensures
            r == (interactive || packages@.len() == 0),
    {
        interactive || packages.len() == 0
    }
}

impl SearchCommand {
    /// The report line above the results: how many packages were found.
    pub fn found_line(count: usize) -> (r: String)
        ensures
            r@ == crate::text::decimal(count as nat) + " packages found:"@,
    {
        let r = crate::text::with_count("", count, " packages found:");
        proof {
            reveal_strlit("");
            assert(r@ =~= crate::text::decimal(count as nat) + " packages found:"@);
        }
        r
    }
}

impl ListCommand {
    pub fn mode(installed_count: usize, interactive: bool) -> (r: ListMode)
        ensures
            r == (if installed_count == 0 {
                ListMode::NothingInstalled
            } else if interactive {
                ListMode::Browse
            } else {
                ListMode::Print
            }),
    {
        if installed_count == 0 {
            ListMode::NothingInstalled
        } else if interactive {
            ListMode::Browse
        } else {
            ListMode::Print
        }
    }
}

} // verus!
