//! The main menu: a tab bar over a home view and three package views
//! (install, remove, browse). Loading package lists and running the package
//! manager is left to the caller; this decides what each key does, which
//! list each tab shows and what is reported after an operation.
use crate::app::{fresh, keys_unique, modal_open, modal_step, view_key_step, App};
use crate::home_state::{HomeState, SystemStats};
use crate::package::PackageManager;
use crate::text::{decimal, with_count};
use crate::types::{
    help_key, home_action, home_key_action, with_mods, ActionType, AlertType, Key, KeyMods,
    ViewAction, ViewType,
};
use vstd::prelude::*;

verus! {

/// The view under the tab bar.
pub enum ViewState {
    Home(HomeState),
    Install(App),
    Remove(App),
    List(App),
}

/// The package view's state, where the view is one.
pub open spec fn view_app(v: ViewState) -> Option<App> {
    match v {
        ViewState::Home(_) => None,
        ViewState::Install(a) => Some(a),
        ViewState::Remove(a) => Some(a),
        ViewState::List(a) => Some(a),
    }
}

/// `v` and `w` are views of the same kind.
pub open spec fn same_kind(v: ViewState, w: ViewState) -> bool {
    match (v, w) {
        (ViewState::Home(_), ViewState::Home(_)) => true,
        (ViewState::Install(_), ViewState::Install(_)) => true,
        (ViewState::Remove(_), ViewState::Remove(_)) => true,
        (ViewState::List(_), ViewState::List(_)) => true,
        _ => false,
    }
}

/// What a tab shows, and so what has to be loaded to show it.
#[derive(Debug, Clone, Copy, PartialEq, Eq, Structural)]
pub enum ListSource {
    /// Package counts, for the home view.
    HomeStats,
    /// The packages of the sync repositories, as `repository/name`.
    Available,
    /// The installed packages, from the cache when it holds them.
    Installed,
}

pub open spec fn source_of(kind: ViewType) -> ListSource {
    match kind {
        ViewType::Home => ListSource::HomeStats,
        ViewType::Install => ListSource::Available,
        ViewType::Remove => ListSource::Installed,
        ViewType::List => ListSource::Installed,
    }
}

/// An install or removal that the user confirmed, for the caller to run.
pub struct PendingOperation {
    pub action: ActionType,
    pub packages: Vec<String>,
}

pub struct MainMenu {
    pub current_view: ViewState,
    pub selected_tab: usize,
    pub package_manager: PackageManager,
    /// The installed packages as last loaded, kept until an operation or a
    /// reload may have changed them.
    pub cached_installed: Option<Vec<String>>,
}

/// The help after `?` in a package view: shown if hidden, hidden (and
/// scrolled back) if shown.
pub open spec fn help_toggled(a: App) -> App {
    App {
        help_visible: !a.help_visible,
        help_scroll: if a.help_visible {
            0
        } else {
            a.help_scroll
        },
        ..a
    }
}

/// A key in the main menu. In a package view an open overlay takes every
/// key; otherwise `?` shows the help, Ctrl+U asks for a system upgrade, and
/// the view takes the other keys.
pub open spec fn menu_key_step(a: MainMenu, k: Key, b: MainMenu, r: ViewAction) -> bool {
    &&& b.selected_tab == a.selected_tab
    &&& b.package_manager == a.package_manager
    &&& b.cached_installed == a.cached_installed
    &&& same_kind(a.current_view, b.current_view)
    &&& match view_app(a.current_view) {
        None => b.current_view == a.current_view && r == (if help_key(k) || with_mods(
            k,
            'u',
            KeyMods::Control,
        ) {
            ViewAction::Nothing
        } else {
            home_action(k)
        }),
        Some(x) => {
            let y = view_app(b.current_view)->0;
            if modal_open(x) {
                modal_step(x, k, y) && r == ViewAction::Nothing
            } else if help_key(k) {
                y == help_toggled(x) && r == ViewAction::Nothing
            } else if with_mods(k, 'u', KeyMods::Control) {
                y == x && r == ViewAction::RunSystemUpdate
            } else {
                view_key_step(x, k, y, r)
            }
        },
    }
}

/// The package view of `kind` over `packages`.
pub open spec fn package_view(kind: ViewType, v: ViewState) -> bool {
    match (kind, v) {
        (ViewType::Install, ViewState::Install(a)) => a.multi && a.action_type
            == ActionType::Install && a.preview_cmd is Some && a.preview_cmd->0@
            == "echo {} | xargs yay -Si"@,
        (ViewType::Remove, ViewState::Remove(a)) => a.multi && a.action_type == ActionType::Remove
            && a.preview_cmd is Some && a.preview_cmd->0@ == "echo {} | xargs yay -Qi"@,
        (ViewType::List, ViewState::List(a)) => !a.multi && a.action_type == ActionType::Install
            && a.preview_cmd is Some && a.preview_cmd->0@ == "echo {} | xargs yay -Qi"@,
        _ => false,
    }
}

/// What a refresh of tab `tab` reloads.
pub open spec fn refresh_of(tab: usize) -> Option<ViewType> {
    if tab == 0 {
        Some(ViewType::Home)
    } else if tab == 1 {
        Some(ViewType::Install)
    } else if tab == 2 {
        Some(ViewType::Remove)
    } else if tab == 3 {
        Some(ViewType::List)
    } else {
        None
    }
}

impl MainMenu {
    /// Package views keep one preview per item in their caches.
    pub open spec fn wf(&self) -> bool {
        match view_app(self.current_view) {
            Some(a) => keys_unique(a.preview_cache@),
            None => true,
        }
    }

    /// The menu on its home tab, with nothing loaded yet.
    pub fn new(package_manager: PackageManager) -> (r: Self)
        ensures
            r.wf(),
            r.current_view is Home,
            r.selected_tab == 0,
            r.package_manager == package_manager,
            r.cached_installed is None,
    {
        MainMenu {
            current_view: ViewState::Home(HomeState::new()),
            selected_tab: 0,
            package_manager,
            cached_installed: None,
        }
    }

    /// Handles a key (see `menu_key_step`).
    pub fn handle_key(&mut self, key: Key) -> (r: ViewAction)
        requires
            old(self).wf(),
        ensures
            final(self).wf(),
            menu_key_step(*old(self), key, *final(self), r),
    {
        match &mut self.current_view {
            ViewState::Home(_) => {
                if key.is_typed('?') || key.is_with('u', KeyMods::Control) {
                    ViewAction::Nothing
                } else {
                    home_key_action(key)
                }
            },
            ViewState::Install(app) => package_key(app, key),
            ViewState::Remove(app) => package_key(app, key),
            ViewState::List(app) => package_key(app, key),
        }
    }

    /// What tab `kind` needs loaded.
    pub fn list_source(kind: ViewType) -> (r: ListSource)
        ensures
            r == source_of(kind),
    {
        match kind {
            ViewType::Home => ListSource::HomeStats,
            ViewType::Install => ListSource::Available,
            ViewType::Remove => ListSource::Installed,
            ViewType::List => ListSource::Installed,
        }
    }

    /// The installed packages, where they are cached.
    pub fn installed_from_cache(&self) -> (r: Option<Vec<String>>)
        ensures
            match self.cached_installed {
                Some(c) => r is Some && crate::text::string_views(r->0@)
                    == crate::text::string_views(c@),
                None => r is None,
            },
    {
        match &self.cached_installed {
            Some(c) => Some(crate::app::clone_strings(c)),
            None => None,
        }
    }

    /// Shows the home tab with `stats`.
    pub fn show_home(&mut self, stats: Option<SystemStats>)
        ensures
            final(self).wf(),
            final(self).selected_tab == 0,
            final(self).current_view is Home,
            final(self).current_view->Home_0.stats == stats,
            final(self).current_view->Home_0.scroll_position == 0,
            final(self).package_manager == old(self).package_manager,
            final(self).cached_installed == old(self).cached_installed,
    {
        let mut home = HomeState::new();
        match stats {
            Some(s) => home.set_stats(s),
            None => {},
        }
        self.selected_tab = 0;
        self.current_view = ViewState::Home(home);
    }

    /// Shows the package tab `kind` over `packages`: `repository/name` pairs
    /// to install from, or installed names to remove or browse.
    pub fn show_packages(&mut self, kind: ViewType, packages: Vec<String>)
        requires
            kind != ViewType::Home,
        ensures
            final(self).wf(),
            final(self).selected_tab == kind.spec_index(),
            package_view(kind, final(self).current_view),
            fresh(
                view_app(final(self).current_view)->0,
                packages,
                view_app(final(self).current_view)->0.multi,
                view_app(final(self).current_view)->0.preview_cmd,
                view_app(final(self).current_view)->0.action_type,
            ),
            final(self).package_manager == old(self).package_manager,
            final(self).cached_installed == old(self).cached_installed,
    {
        self.selected_tab = kind.index();
        self.current_view = match kind {
            ViewType::Install => ViewState::Install(
                App::new(
                    packages,
                    true,
                    Some(String::from_str("echo {} | xargs yay -Si")),
                    ActionType::Install,
                ),
            ),
            ViewType::Remove => ViewState::Remove(
                App::new(
                    packages,
                    true,
                    Some(String::from_str("echo {} | xargs yay -Qi")),
                    ActionType::Remove,
                ),
            ),
            _ => ViewState::List(
                App::new(
                    packages,
                    false,
                    Some(String::from_str("echo {} | xargs yay -Qi")),
                    ActionType::Install,
                ),
            ),
        };
    }

    /// Puts freshly loaded statistics on the home view, if it is shown.
    pub fn set_home_stats(&mut self, stats: SystemStats)
        ensures
            final(self).wf() == old(self).wf(),
            old(self).current_view is Home ==> final(self).current_view is Home
                && final(self).current_view->Home_0.stats == Some(stats)
                && final(self).current_view->Home_0.scroll_position == old(
                self,
            ).current_view->Home_0.scroll_position,
            !(old(self).current_view is Home) ==> final(self).current_view == old(self).current_view,
            final(self).selected_tab == old(self).selected_tab,
            final(self).package_manager == old(self).package_manager,
            final(self).cached_installed == old(self).cached_installed,
    {
        match &mut self.current_view {
            ViewState::Home(h) => h.set_stats(stats),
            _ => {},
        }
    }

    /// Keeps the installed packages as loaded.
    pub fn remember_installed(&mut self, packages: &Vec<String>)
        ensures
            final(self).cached_installed is Some,
            crate::text::string_views(final(self).cached_installed->0@)
                == crate::text::string_views(packages@),
            final(self).current_view == old(self).current_view,
            final(self).selected_tab == old(self).selected_tab,
            final(self).package_manager == old(self).package_manager,
    {
        self.cached_installed = Some(crate::app::clone_strings(packages));
    }

    /// What to reload for the tab shown; the installed packages are loaded
    /// afresh for the remove and browse tabs.
    pub fn refresh_plan(&mut self) -> (r: Option<ViewType>)
        ensures
            r == refresh_of(old(self).selected_tab),
            (r == Some(ViewType::Remove) || r == Some(ViewType::List))
                ==> final(self).cached_installed is None,
            !(r == Some(ViewType::Remove) || r == Some(ViewType::List))
                ==> final(self).cached_installed == old(self).cached_installed,
            final(self).current_view == old(self).current_view,
            final(self).selected_tab == old(self).selected_tab,
            final(self).package_manager == old(self).package_manager,
    {
        let r = ViewType::from_index(self.selected_tab);
        match r {
            Some(ViewType::Remove) | Some(ViewType::List) => {
                self.cached_installed = None;
            },
            _ => {},
        }
        r
    }

    /// After an install or removal has run: the installed packages may have
    /// changed, so their cache is dropped; returns what to reload for the tab
    /// shown.
    pub fn after_operation(&mut self) -> (r: Option<ViewType>)
        ensures
            r == refresh_of(old(self).selected_tab),
            final(self).cached_installed is None,
            final(self).current_view == old(self).current_view,
            final(self).selected_tab == old(self).selected_tab,
            final(self).package_manager == old(self).package_manager,
    {
        self.cached_installed = None;
        self.refresh_plan()
    }

    /// Hands over an operation that the user has just confirmed, and resets
    /// the dialog.
    pub fn take_confirmed_operation(&mut self) -> (r: Option<PendingOperation>)
        requires
            old(self).wf(),
        ensures
            final(self).wf(),
            same_kind(old(self).current_view, final(self).current_view),
            final(self).selected_tab == old(self).selected_tab,
            final(self).package_manager == old(self).package_manager,
            final(self).cached_installed == old(self).cached_installed,
            match view_app(old(self).current_view) {
                Some(a) => if a.confirm_dialog.confirmed {
                    &&& r is Some
                    &&& r->0.action == a.action_type
                    &&& crate::text::string_views(r->0.packages@) == crate::text::string_views(
                        a.confirm_dialog.packages@,
                    )
                    &&& view_app(final(self).current_view)->0 == (App {
                        confirm_dialog: view_app(final(self).current_view)->0.confirm_dialog,
                        ..a
                    })
                    &&& !view_app(final(self).current_view)->0.confirm_dialog.confirmed
                    &&& !view_app(final(self).current_view)->0.confirm_dialog.active
                } else {
                    r is None && final(self).current_view == old(self).current_view
                },
                None => r is None && final(self).current_view == old(self).current_view,
            },
    {
        match &mut self.current_view {
            ViewState::Home(_) => None,
            ViewState::Install(app) => confirmed_operation(app),
            ViewState::Remove(app) => confirmed_operation(app),
            ViewState::List(app) => confirmed_operation(app),
        }
    }

    /// Shows an alert on the package view, if one is shown.
    pub fn show_alert(&mut self, alert_type: AlertType, message: String)
        requires
            old(self).wf(),
        ensures
            final(self).wf(),
            same_kind(old(self).current_view, final(self).current_view),
            view_app(old(self).current_view) is None ==> final(self).current_view == old(
                self,
            ).current_view,
            view_app(old(self).current_view) is Some ==> {
                let a = view_app(old(self).current_view)->0;
                let b = view_app(final(self).current_view)->0;
                &&& b == App { alert: b.alert, ..a }
                &&& b.alert.active
                &&& b.alert.alert_type == alert_type
                &&& b.alert.message == message
            },
            final(self).selected_tab == old(self).selected_tab,
            final(self).package_manager == old(self).package_manager,
            final(self).cached_installed == old(self).cached_installed,
    {
        match &mut self.current_view {
            ViewState::Home(_) => {},
            ViewState::Install(app) => app.alert.show(alert_type, message),
            ViewState::Remove(app) => app.alert.show(alert_type, message),
            ViewState::List(app) => app.alert.show(alert_type, message),
        }
    }
}

fn package_key(app: &mut App, key: Key) -> (r: ViewAction)
    requires
        keys_unique(old(app).preview_cache@),
    ensures
        keys_unique(final(app).preview_cache@),
        if modal_open(*old(app)) {
            modal_step(*old(app), key, *final(app)) && r == ViewAction::Nothing
        } else if help_key(key) {
            *final(app) == help_toggled(*old(app)) && r == ViewAction::Nothing
        } else if with_mods(key, 'u', KeyMods::Control) {
            *final(app) == *old(app) && r == ViewAction::RunSystemUpdate
        } else {
            view_key_step(*old(app), key, *final(app), r)
        },
{
    if app.handle_modal_key(key) {
        ViewAction::Nothing
    } else if key.is_typed('?') {
        app.help_visible = !app.help_visible;
        if !app.help_visible {
            app.help_scroll = 0;
        }
        ViewAction::Nothing
    } else if key.is_with('u', KeyMods::Control) {
        ViewAction::RunSystemUpdate
    } else {
        app.handle_view_key(key)
    }
}

fn confirmed_operation(app: &mut App) -> (r: Option<PendingOperation>)
    ensures
        final(app).preview_cache == old(app).preview_cache,
        if old(app).confirm_dialog.confirmed {
            &&& r is Some
            &&& r->0.action == old(app).action_type
            &&& crate::text::string_views(r->0.packages@) == crate::text::string_views(
                old(app).confirm_dialog.packages@,
            )
            &&& *final(app) == (App { confirm_dialog: final(app).confirm_dialog, ..*old(app) })
            &&& !final(app).confirm_dialog.confirmed
            &&& !final(app).confirm_dialog.active
        } else {
            r is None && *final(app) == *old(app)
        },
{
    if app.confirm_dialog.is_confirmed() {
        let packages = crate::app::clone_strings(&app.confirm_dialog.packages);
        let action = app.action_type;
        app.confirm_dialog.cancel();
        Some(PendingOperation { action, packages })
    } else {
        None
    }
}

/// How a package operation ended: `Ok(true)` succeeded, `Ok(false)` failed,
/// `Err(e)` could not run.
pub open spec fn operation_report(action: ActionType, count: nat, outcome: Result<bool, Seq<char>>) -> (
    AlertType,
    Seq<char>,
) {
    match outcome {
        Ok(true) => (
            AlertType::Success,
            match action {
                ActionType::Install => "\u{2713} Successfully installed "@,
                ActionType::Remove => "\u{2713} Successfully removed "@,
            } + decimal(count) + " package(s)"@,
        ),
        Ok(false) => (
            AlertType::Error,
            match action {
                ActionType::Install => "\u{2717} Installation failed"@,
                ActionType::Remove => "\u{2717} Removal failed"@,
            },
        ),
        Err(e) => (AlertType::Error, "\u{2717} Error: "@ + e),
    }
}

/// How a system upgrade ended, as for `operation_report`.
pub open spec fn update_report(outcome: Result<bool, Seq<char>>) -> (AlertType, Seq<char>) {
    match outcome {
        Ok(true) => (AlertType::Success, "\u{2713} System updated successfully"@),
        Ok(false) => (AlertType::Error, "\u{2717} System update failed"@),
        Err(e) => (AlertType::Error, "\u{2717} Error: "@ + e),
    }
}

pub open spec fn result_view(r: Result<bool, String>) -> Result<bool, Seq<char>> {
    match r {
        Ok(b) => Ok(b),
        Err(e) => Err(e@),
    }
}

fn error_message(e: &String) -> (r: String)
    ensures
        r@ == "\u{2717} Error: "@ + e@,
{
    let mut m = String::from_str("\u{2717} Error: ");
    m.append(e.as_str());
    m
}

/// The alert after `count` packages were installed or removed.
pub fn operation_alert(action: ActionType, count: usize, outcome: &Result<bool, String>) -> (r: (
    AlertType,
    String,
))
    ensures
        (r.0, r.1@) == operation_report(action, count as nat, result_view(*outcome)),
{
    match outcome {
        Ok(true) => {
            let m = match action {
                ActionType::Install => with_count(
                    "\u{2713} Successfully installed ",
                    count,
                    " package(s)",
                ),
                ActionType::Remove => with_count(
                    "\u{2713} Successfully removed ",
                    count,
                    " package(s)",
                ),
            };
            (AlertType::Success, m)
        },
        Ok(false) => {
            let m = match action {
                ActionType::Install => String::from_str("\u{2717} Installation failed"),
                ActionType::Remove => String::from_str("\u{2717} Removal failed"),
            };
            (AlertType::Error, m)
        },
        Err(e) => (AlertType::Error, error_message(e)),
    }
}

/// The alert after a system upgrade.
pub fn update_alert(outcome: &Result<bool, String>) -> (r: (AlertType, String))
    ensures
        (r.0, r.1@) == update_report(result_view(*outcome)),
{
    match outcome {
        Ok(true) => (AlertType::Success, String::from_str("\u{2713} System updated successfully")),
        Ok(false) => (AlertType::Error, String::from_str("\u{2717} System update failed")),
        Err(e) => (AlertType::Error, error_message(e)),
    }
}

} // verus!
