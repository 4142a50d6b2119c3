//! The stand-alone package selector: which list it shows, with which prompt,
//! selection mode and preview command. The terminal front-end runs it.
use crate::app::{keys_unique, App};
use crate::types::ActionType;
use vstd::prelude::*;

verus! {

/// A selector to run: the items, the prompt above them, whether several
/// may be marked, the preview command (`{}` stands for the item) and what a
/// confirmation does.
pub struct SelectorConfig {
    pub items: Vec<String>,
    pub prompt: String,
    pub multi: bool,
    pub preview_cmd: Option<String>,
    pub action_type: ActionType,
}

impl SelectorConfig {
    /// The view state that the selector starts from.
    pub fn into_app(self) -> (r: App)
        ensures
            r.wf(),
            r.consistent(),
            r.items == self.items,
            r.multi == self.multi,
            r.preview_cmd == self.preview_cmd,
            r.action_type == self.action_type,
            r.search_query@.len() == 0,
            r.selected_indices@.len() == 0,
            keys_unique(r.preview_cache@),
    {
        App::new(self.items, self.multi, self.preview_cmd, self.action_type)
    }
}

pub struct Selector;

pub open spec fn remove_prompt() -> Seq<char> {
    "Select packages to remove (TAB: multi-select, ENTER: confirm): "@
}

pub open spec fn install_prompt() -> Seq<char> {
    "Select packages to install (TAB: multi-select, ENTER: confirm): "@
}

pub open spec fn browse_prompt() -> Seq<char> {
    "Browse installed packages (ESC to exit): "@
}

pub open spec fn installed_preview() -> Seq<char> {
    "echo {} | xargs yay -Qi"@
}

pub open spec fn available_preview() -> Seq<char> {
    "echo {} | xargs yay -Si"@
}

impl Selector {
    /// Installed packages to mark for removal, previewed with `yay -Qi`.
    pub fn select_installed(packages: Vec<String>) -> (r: SelectorConfig)
        ensures
            r.items == packages,
            r.prompt@ == remove_prompt(),
            r.multi,
            r.preview_cmd is Some && r.preview_cmd->0@ == installed_preview(),
            r.action_type == ActionType::Remove,
    {
        SelectorConfig {
            items: packages,
            prompt: String::from_str(
                "Select packages to remove (TAB: multi-select, ENTER: confirm): ",
            ),
            multi: true,
            preview_cmd: Some(String::from_str("echo {} | xargs yay -Qi")),
            action_type: ActionType::Remove,
        }
    }

    /// Available packages (`repository/name`) to mark for installation,
    /// previewed with `yay -Si`.
    pub fn select_available(packages: Vec<String>) -> (r: SelectorConfig)
        ensures
            r.items == packages,
            r.prompt@ == install_prompt(),
            r.multi,
            r.preview_cmd is Some && r.preview_cmd->0@ == available_preview(),
            r.action_type == ActionType::Install,
    {
        SelectorConfig {
            items: packages,
            prompt: String::from_str(
                "Select packages to install (TAB: multi-select, ENTER: confirm): ",
            ),
            multi: true,
            preview_cmd: Some(String::from_str("echo {} | xargs yay -Si")),
            action_type: ActionType::Install,
        }
    }

    /// Installed packages to look through, one at a time, previewed with
    /// `yay -Qi`.
    pub fn browse_installed(packages: Vec<String>) -> (r: SelectorConfig)
        ensures
            r.items == packages,
            r.prompt@ == browse_prompt(),
            !r.multi,
            r.preview_cmd is Some && r.preview_cmd->0@ == installed_preview(),
            r.action_type == ActionType::Install,
    {
        SelectorConfig {
            items: packages,
            prompt: String::from_str("Browse installed packages (ESC to exit): "),
            multi: false,
            preview_cmd: Some(String::from_str("echo {} | xargs yay -Qi")),
            action_type: ActionType::Install,
        }
    }

    /// What browsing ends with: the first item chosen, if any.
    pub fn first_choice(chosen: &Vec<String>) -> (r: Option<String>)
        ensures
            chosen@.len() == 0 ==> r is None,
            chosen@.len() > 0 ==> r is Some && r->0@ == chosen@[0]@,
    {
        if chosen.len() > 0 {
            Some(chosen[0].clone())
        } else {
            None
        }
    }
}

} // verus!
