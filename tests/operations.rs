use pmgr::commands::{InstallCommand, ListCommand, ListMode, RemoveCommand, SearchCommand};
use pmgr::menu::{operation_alert, update_alert, ListSource, MainMenu, ViewState};
use pmgr::package::{available_outcome, installed_outcome, search_outcome, PackageError, PackageManager};
use pmgr::home_state::{stats_from_counts, HomeState};
use pmgr::spinner::{LoadingState, Spinner};
use pmgr::theme::Theme;
use pmgr::settings::Settings;
use pmgr::types::{
    home_key_action, ActionType, AlertType, ConfirmDialog, Key, KeyCode, KeyMods, UpdateMessage,
    ViewAction, ViewType,
};
use pmgr::update_window::SystemUpdateWindow;

fn strings(v: &[&str]) -> Vec<String> {
    v.iter().map(|s| s.to_string()).collect()
}

#[test]
fn update_command_and_window() {
    let mut w = SystemUpdateWindow::new();
    let cmd = w.start_update();
    assert_eq!(cmd.program, "pkexec");
    assert_eq!(cmd.args, strings(&["pacman", "-Syu", "--noconfirm"]));
    assert_eq!(cmd.success_message, "\u{2713} System update completed successfully!");
    assert!(w.active);
    assert_eq!(w.output, strings(&["Starting system update..."]));
    assert_eq!(w.title, "System Update");
    assert_eq!(w.operation_type.as_deref(), Some("system_update"));
}

#[test]
fn install_and_remove_commands_use_bare_names() {
    let mut w = SystemUpdateWindow::new();
    let cmd = w.start_install_official(&strings(&["core/linux", "vim"]));
    assert_eq!(cmd.args, strings(&["pacman", "-S", "--noconfirm", "linux", "vim"]));
    assert_eq!(w.operation_type.as_deref(), Some("install_official_2"));
    assert_eq!(w.output, strings(&["Installing 2 official package(s)..."]));
    let cmd = w.start_install(&strings(&["aur/yay-bin"]));
    assert_eq!(cmd.program, "yay");
    assert_eq!(cmd.args.last().map(|s| s.as_str()), Some("yay-bin"));
    assert_eq!(cmd.args.len(), 12);
    assert_eq!(w.title, "Installing Packages");
    let cmd = w.start_remove(&strings(&["extra/vim"]));
    assert_eq!(cmd.args, strings(&["pacman", "-Rns", "--noconfirm", "vim"]));
    assert_eq!(w.operation_type.as_deref(), Some("remove_1"));
    assert_eq!(w.output, strings(&["Removing 1 package(s)..."]));
}

#[test]
fn messages_fill_the_log_and_completion_decides_auto_close() {
    let mut w = SystemUpdateWindow::new();
    let _ = w.start_update();
    w.check_updates(&vec![UpdateMessage::Output("line 1".to_string())]);
    assert!(!w.completed);
    assert!(!w.should_auto_close());
    w.check_updates(&vec![UpdateMessage::Output("line 2".to_string()), UpdateMessage::Completed(true)]);
    assert_eq!(w.output.len(), 3);
    assert!(w.completed && !w.has_error);
    assert!(w.should_auto_close());
    w.close(false);
    assert!(w.was_successful && w.just_closed && !w.active && w.output.is_empty());
    w.clear_just_closed_flag();
    assert!(!w.just_closed && !w.was_successful && w.operation_type.is_none());
}

#[test]
fn failed_operation_stays_open() {
    let mut w = SystemUpdateWindow::new();
    let _ = w.start_remove(&strings(&["vim"]));
    w.check_updates(&vec![UpdateMessage::Completed(false)]);
    assert!(w.has_error);
    assert!(!w.should_auto_close());
}

#[test]
fn app_tick_auto_closes_after_success() {
    let mut a = pmgr::app::App::new(strings(&["a"]), true, None, ActionType::Install);
    let _ = a.update_window.start_update();
    let t = a.tick(vec![], &vec![UpdateMessage::Completed(true)]);
    assert!(t.auto_closed && t.redraw);
    assert!(!a.update_window.active);
    let t = a.tick(vec![], &vec![]);
    assert!(!t.auto_closed && !t.redraw);
}

#[test]
fn confirm_dialog_lifecycle() {
    let mut d = ConfirmDialog::new();
    d.show(ActionType::Remove, strings(&["vim"]));
    assert!(d.active && !d.is_confirmed());
    d.scroll_up();
    assert_eq!(d.scroll, 0);
    d.scroll_down();
    d.confirm();
    assert!(d.is_confirmed() && !d.active && d.scroll == 0);
    d.cancel();
    assert!(!d.is_confirmed());
    d.scroll = u16::MAX;
    d.scroll_down();
    assert_eq!(d.scroll, u16::MAX);
}

#[test]
fn alerts_report_operations() {
    let (t, m) = operation_alert(ActionType::Install, 3, &Ok(true));
    assert_eq!(t, AlertType::Success);
    assert_eq!(m, "\u{2713} Successfully installed 3 package(s)");
    let (t, m) = operation_alert(ActionType::Remove, 1, &Ok(false));
    assert_eq!(t, AlertType::Error);
    assert_eq!(m, "\u{2717} Removal failed");
    let (_, m) = operation_alert(ActionType::Remove, 1, &Err("boom".to_string()));
    assert_eq!(m, "\u{2717} Error: boom");
    assert_eq!(update_alert(&Ok(true)).1, "\u{2713} System updated successfully");
    assert_eq!(update_alert(&Ok(false)).0, AlertType::Error);
}

#[test]
fn menu_switches_and_confirms() {
    let mut m = MainMenu::new(PackageManager::new(false));
    assert_eq!(m.selected_tab, 0);
    assert_eq!(m.handle_key(Key { code: KeyCode::Char('2'), mods: KeyMods::Plain }),
        ViewAction::SwitchView(ViewType::Install));
    m.show_packages(ViewType::Remove, strings(&["vim", "git"]));
    assert_eq!(m.selected_tab, 2);
    assert_eq!(m.handle_key(Key { code: KeyCode::Tab, mods: KeyMods::Plain }), ViewAction::Nothing);
    m.handle_key(Key { code: KeyCode::Enter, mods: KeyMods::Plain });
    assert!(m.take_confirmed_operation().is_none());
    m.handle_key(Key { code: KeyCode::Char('y'), mods: KeyMods::Plain });
    let op = m.take_confirmed_operation().expect("confirmed");
    assert_eq!(op.action, ActionType::Remove);
    assert_eq!(op.packages, strings(&["vim"]));
    assert!(m.take_confirmed_operation().is_none());
    assert_eq!(m.handle_key(Key { code: KeyCode::Char('u'), mods: KeyMods::Control }),
        ViewAction::RunSystemUpdate);
    m.handle_key(Key { code: KeyCode::Char('?'), mods: KeyMods::Plain });
    match &m.current_view {
        ViewState::Remove(a) => assert!(a.help_visible),
        _ => panic!("remove view expected"),
    }
    m.show_alert(AlertType::Success, "done".to_string());
    match &m.current_view {
        ViewState::Remove(a) => assert!(a.alert.active && a.alert.message == "done"),
        _ => panic!("remove view expected"),
    }
}

#[test]
fn menu_refresh_plan_and_cache() {
    let mut m = MainMenu::new(PackageManager::new(false));
    m.remember_installed(&strings(&["vim"]));
    assert_eq!(m.refresh_plan(), Some(ViewType::Home));
    assert!(m.cached_installed.is_some());
    m.show_packages(ViewType::List, strings(&["vim"]));
    assert_eq!(m.refresh_plan(), Some(ViewType::List));
    assert!(m.cached_installed.is_none());
    m.show_home(Some(stats_from_counts(10, 20)));
    m.set_home_stats(stats_from_counts(11, 21));
    match &m.current_view {
        ViewState::Home(h) => assert_eq!(h.stats.unwrap().installed_count, 11),
        _ => panic!("home view expected"),
    }
}

#[test]
fn home_keys() {
    let k = |code, mods| Key { code, mods };
    assert_eq!(home_key_action(k(KeyCode::Esc, KeyMods::Plain)), ViewAction::Exit);
    assert_eq!(home_key_action(k(KeyCode::Char('4'), KeyMods::Plain)), ViewAction::SwitchView(ViewType::List));
    assert_eq!(home_key_action(k(KeyCode::Char('r'), KeyMods::Control)), ViewAction::RefreshHomeStats);
    assert_eq!(home_key_action(k(KeyCode::Char('r'), KeyMods::Plain)), ViewAction::Nothing);
    let mut h = HomeState::new();
    h.scroll_up();
    assert_eq!(h.scroll_position, 0);
    h.scroll_down();
    assert_eq!(h.scroll_position, 1);
    assert_eq!(ViewType::from_index(2), Some(ViewType::Remove));
    assert_eq!(ViewType::List.index(), 3);
}

#[test]
fn spinner_advances_after_its_interval() {
    let mut s = Spinner::line(1000);
    assert_eq!(s.current(), "-");
    s.tick(1050);
    assert_eq!(s.current(), "-");
    s.tick(1100);
    assert_eq!(s.current(), "\\");
    s.tick(1200);
    s.tick(1300);
    s.tick(1400);
    assert_eq!(s.current(), "-");
    s.tick(1500);
    s.reset(1500);
    assert_eq!(s.current(), "-");
    assert_eq!(Spinner::new(0).current(), "\u{280B}");
    assert_eq!(Spinner::simple_dots(0).current(), "   ");
    assert_eq!(Spinner::boxed(0).current(), "\u{25F0}");
    assert_eq!(Spinner::dots(0).current(), "\u{28FE}");
}

#[test]
fn loading_state_animates_only_while_active() {
    let mut l = LoadingState::new(0);
    l.tick(500);
    assert_eq!(l.spinner.current(), "\u{280B}");
    l.start("Loading".to_string(), 500);
    assert!(l.is_active());
    l.tick(600);
    assert_eq!(l.spinner.current(), "\u{2819}");
    l.stop();
    assert!(!l.is_active() && l.message.is_empty());
}

#[test]
fn themes_and_settings() {
    assert_eq!(Theme::all().len(), 5);
    assert_eq!(Theme::White.name(), "White (Light)");
    assert_eq!(Theme::default(), Theme::Default);
    assert_eq!(Settings::default().theme, Theme::Default);
    assert!(pmgr::help::get_help_text().contains("Keyboard Shortcuts"));
}

#[test]
fn window_shows_the_last_lines_that_fit() {
    let mut w = SystemUpdateWindow::new();
    let _ = w.start_update();
    w.check_updates(&vec![
        UpdateMessage::Output("\x1b[1mone\x1b[0m".to_string()),
        UpdateMessage::Output("a rather long line".to_string()),
    ]);
    assert_eq!(w.visible_output(10, 2), vec!["one".to_string(), "a rathe...".to_string()]);
    assert_eq!(w.visible_output(80, 10).len(), 3);
}

#[test]
fn command_decisions() {
    assert!(InstallCommand::needs_selection(&vec![], false));
    assert!(!InstallCommand::needs_selection(&strings(&["vim"]), false));
    assert!(RemoveCommand::needs_selection(&strings(&["vim"]), true));
    assert_eq!(InstallCommand::targets(&strings(&["extra/vim", "git"])), strings(&["vim", "git"]));
    assert_eq!(SearchCommand::found_line(7), "7 packages found:");
    assert_eq!(ListCommand::mode(0, true), ListMode::NothingInstalled);
    assert_eq!(ListCommand::mode(3, true), ListMode::Browse);
    assert_eq!(ListCommand::mode(3, false), ListMode::Print);
}

#[test]
fn tabs_know_what_to_load() {
    assert_eq!(MainMenu::list_source(ViewType::Home), ListSource::HomeStats);
    assert_eq!(MainMenu::list_source(ViewType::Install), ListSource::Available);
    assert_eq!(MainMenu::list_source(ViewType::Remove), ListSource::Installed);
    assert_eq!(MainMenu::list_source(ViewType::List), ListSource::Installed);
    let mut m = MainMenu::new(PackageManager::new(true));
    assert_eq!(m.installed_from_cache(), None);
    m.remember_installed(&strings(&["vim", "git"]));
    assert_eq!(m.installed_from_cache(), Some(strings(&["vim", "git"])));
}

#[test]
fn overlays_take_help_and_update_keys_in_the_menu() {
    let mut m = MainMenu::new(PackageManager::new(false));
    m.show_packages(ViewType::Install, strings(&["core/vim"]));
    if let ViewState::Install(a) = &mut m.current_view {
        let _ = a.update_window.start_update();
    }
    assert_eq!(m.handle_key(Key { code: KeyCode::Char('?'), mods: KeyMods::Plain }), ViewAction::Nothing);
    assert_eq!(m.handle_key(Key { code: KeyCode::Char('u'), mods: KeyMods::Control }), ViewAction::Nothing);
    match &m.current_view {
        ViewState::Install(a) => assert!(!a.help_visible && a.update_window.active),
        _ => panic!("install view expected"),
    }
}

#[test]
fn switching_tabs_gives_a_fresh_view() {
    let mut m = MainMenu::new(PackageManager::new(false));
    m.show_packages(ViewType::List, strings(&["vim", "git"]));
    m.handle_key(Key { code: KeyCode::Char('g'), mods: KeyMods::Plain });
    m.show_packages(ViewType::List, strings(&["vim", "git"]));
    match &m.current_view {
        ViewState::List(a) => {
            assert_eq!(a.search_query, "");
            assert_eq!(a.filtered_items.len(), 2);
            assert_eq!(a.selected, Some(0));
            assert!(a.preview_cache.is_empty() && a.in_flight.is_empty());
            assert_eq!(a.preview_content, "Loading preview...");
        }
        _ => panic!("list view expected"),
    }
}

#[test]
fn operations_drop_the_installed_cache() {
    let mut m = MainMenu::new(PackageManager::new(false));
    m.show_packages(ViewType::Remove, strings(&["vim"]));
    m.remember_installed(&strings(&["vim"]));
    assert_eq!(m.after_operation(), Some(ViewType::Remove));
    assert!(m.cached_installed.is_none());
}

#[test]
fn failing_queries_are_errors() {
    assert_eq!(search_outcome(false, "extra/vim 9.1\n    Vim\n").unwrap_err(), PackageError::CommandFailed);
    assert_eq!(search_outcome(true, "extra/vim 9.1\n    Vim\n").unwrap().len(), 1);
    assert!(available_outcome(false, "core a 1\n").is_err());
    assert_eq!(installed_outcome(true, "a\nb\n").unwrap(), strings(&["a", "b"]));
    assert_eq!(PackageError::CommandFailed.message(), "Package manager command failed");
}
