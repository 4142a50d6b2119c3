use pmgr::app::{App, SelectorStep};
use pmgr::selector::Selector;
use pmgr::types::{ActionType, Key, KeyCode, KeyMods, PreviewLayout, ViewAction, ViewType};

fn strings(v: &[&str]) -> Vec<String> {
    v.iter().map(|s| s.to_string()).collect()
}

fn key(code: KeyCode) -> Key {
    Key { code, mods: KeyMods::Plain }
}

fn ch(c: char) -> Key {
    key(KeyCode::Char(c))
}

fn app(items: &[&str], multi: bool) -> App {
    App::new(strings(items), multi, Some("show {}".to_string()), ActionType::Install)
}

#[test]
fn new_view_shows_all_items_and_asks_for_first_preview() {
    let mut a = app(&["a", "b", "c"], true);
    assert_eq!(a.selected, Some(0));
    assert_eq!(a.filtered_items.len(), 3);
    assert_eq!(a.preview_content, "Loading preview...");
    let job = a.take_preview_job().expect("a fetch is queued");
    assert_eq!(job.item, "a");
    assert_eq!(job.command, "show a");
    assert!(a.take_preview_job().is_none());
}

#[test]
fn empty_view_has_no_cursor_and_no_fetch() {
    let mut a = app(&[], true);
    assert_eq!(a.selected, None);
    assert!(a.take_preview_job().is_none());
    a.next();
    a.previous();
    assert_eq!(a.selected, None);
}

#[test]
fn without_preview_command_nothing_is_fetched() {
    let mut a = App::new(strings(&["a"]), false, None, ActionType::Install);
    assert!(a.take_preview_job().is_none());
    assert_eq!(a.preview_content, "");
}

#[test]
fn cursor_wraps_both_ways() {
    let mut a = app(&["a", "b", "c"], true);
    a.previous();
    assert_eq!(a.selected, Some(2));
    a.next();
    assert_eq!(a.selected, Some(0));
    a.next();
    assert_eq!(a.selected, Some(1));
}

#[test]
fn cached_preview_is_shown_without_new_fetch() {
    let mut a = app(&["a", "b"], true);
    let _ = a.take_preview_job();
    a.check_preview_updates(vec![("a".to_string(), "info a".to_string())]);
    assert_eq!(a.preview_content, "info a");
    a.next();
    let job = a.take_preview_job().expect("b is not cached");
    assert_eq!(job.item, "b");
    a.previous();
    assert!(a.take_preview_job().is_none());
    assert_eq!(a.preview_content, "info a");
    assert_eq!(a.current_preview_item, Some("a".to_string()));
}

#[test]
fn item_being_loaded_is_not_fetched_twice() {
    let mut a = app(&["a", "b"], true);
    assert!(a.take_preview_job().is_some());
    a.request_preview();
    assert!(a.take_preview_job().is_none());
}

#[test]
fn stale_preview_is_cached_but_not_shown() {
    let mut a = app(&["a", "b"], true);
    let _ = a.take_preview_job();
    a.next();
    let _ = a.take_preview_job();
    a.check_preview_updates(vec![("a".to_string(), "info a".to_string())]);
    assert_eq!(a.preview_content, "Loading preview...");
    a.previous();
    assert_eq!(a.preview_content, "info a");
    assert!(a.take_preview_job().is_none());
}

#[test]
fn newer_preview_replaces_cached_one() {
    let mut a = app(&["a"], true);
    a.receive_preview("a".to_string(), "one".to_string());
    a.receive_preview("a".to_string(), "two".to_string());
    assert_eq!(a.preview_cache.len(), 1);
    assert_eq!(a.preview_content, "two");
}

#[test]
fn toggle_marks_and_moves_down() {
    let mut a = app(&["a", "b", "c"], true);
    a.toggle_select();
    assert_eq!(a.selected_indices, vec![0]);
    assert_eq!(a.selected, Some(1));
    a.previous();
    a.toggle_select();
    assert!(a.selected_indices.is_empty());
    a.toggle_select();
    a.toggle_select();
    assert_eq!(a.get_selected_items(), strings(&["b", "c"]));
}

#[test]
fn single_select_chooses_the_cursor_row() {
    let mut a = app(&["a", "b"], false);
    a.toggle_select();
    assert!(a.selected_indices.is_empty());
    a.next();
    assert_eq!(a.get_selected_items(), strings(&["b"]));
}

#[test]
fn marks_are_row_numbers_and_survive_refiltering() {
    let mut a = app(&["core/vim", "extra/emacs"], true);
    a.next();
    a.toggle_select();
    assert_eq!(a.get_selected_items(), strings(&["extra/emacs"]));
    a.handle_list_key(ch('v'));
    assert_eq!(a.search_query, "v");
    assert_eq!(a.filtered_items.len(), 1);
    assert_eq!(a.selected_indices, vec![1]);
    assert!(a.get_selected_items().is_empty());
}

#[test]
fn typing_and_erasing_refilter() {
    let mut a = app(&["core/vim", "extra/emacs"], true);
    a.handle_list_key(ch('z'));
    assert!(a.filtered_items.is_empty());
    assert_eq!(a.selected, None);
    a.handle_list_key(key(KeyCode::Backspace));
    assert_eq!(a.search_query, "");
    assert_eq!(a.filtered_items.len(), 2);
    assert_eq!(a.selected, Some(0));
    a.handle_list_key(key(KeyCode::Backspace));
    assert_eq!(a.search_query, "");
}

#[test]
fn layout_keys() {
    let mut a = app(&["a"], true);
    a.handle_list_key(Key { code: KeyCode::Char('o'), mods: KeyMods::Alt });
    assert_eq!(a.layout, PreviewLayout::Horizontal);
    a.handle_list_key(Key { code: KeyCode::Char('v'), mods: KeyMods::Alt });
    assert_eq!(a.layout, PreviewLayout::Vertical);
}

#[test]
fn overlays_take_keys_in_priority_order() {
    let mut a = app(&["a", "b"], true);
    a.help_visible = true;
    a.alert.show(pmgr::types::AlertType::Info, "hi".to_string());
    assert!(a.handle_modal_key(key(KeyCode::Down)));
    assert_eq!(a.help_scroll, 1);
    assert_eq!(a.selected, Some(0));
    assert!(a.handle_modal_key(key(KeyCode::Esc)));
    assert!(!a.help_visible);
    assert_eq!(a.help_scroll, 0);
    assert!(a.alert.active);
    assert!(a.handle_modal_key(ch('q')));
    assert!(!a.alert.active);
    assert_eq!(a.alert.message, "");
    assert!(!a.handle_modal_key(ch('q')));
}

#[test]
fn running_operation_ignores_keys_until_it_ends() {
    let mut a = app(&["a"], true);
    let _ = a.update_window.start_update();
    let alt_x = Key { code: KeyCode::Char('x'), mods: KeyMods::Alt };
    assert!(a.handle_modal_key(alt_x));
    assert!(a.update_window.active);
    a.update_window.check_updates(&vec![pmgr::types::UpdateMessage::Completed(false)]);
    assert!(a.handle_modal_key(alt_x));
    assert!(!a.update_window.active);
    assert!(a.update_window.cancelled_by_user);
    assert!(!a.update_window.was_successful);
}

#[test]
fn enter_opens_confirmation_and_yes_finishes_selector() {
    let mut a = app(&["a", "b"], true);
    assert!(matches!(a.handle_selector_key(key(KeyCode::Enter)), SelectorStep::Continue));
    assert!(!a.confirm_dialog.active);
    a.handle_selector_key(key(KeyCode::Tab));
    a.handle_selector_key(key(KeyCode::Enter));
    assert!(a.confirm_dialog.active);
    assert_eq!(a.confirm_dialog.packages, strings(&["a"]));
    a.handle_selector_key(key(KeyCode::Down));
    assert_eq!(a.confirm_dialog.scroll, 1);
    match a.handle_selector_key(ch('y')) {
        SelectorStep::Finish(items) => assert_eq!(items, strings(&["a"])),
        _ => panic!("confirmation should finish"),
    }
    assert!(a.confirm_dialog.confirmed);
}

#[test]
fn selector_escape_update_and_help() {
    let mut a = app(&["a"], true);
    assert!(matches!(
        a.handle_selector_key(Key { code: KeyCode::Char('u'), mods: KeyMods::Control }),
        SelectorStep::StartSystemUpdate
    ));
    a.handle_selector_key(Key { code: KeyCode::Char('?'), mods: KeyMods::Shift });
    assert!(a.help_visible);
    assert!(matches!(a.handle_selector_key(key(KeyCode::Esc)), SelectorStep::Continue));
    assert!(!a.help_visible);
    match a.handle_selector_key(key(KeyCode::Esc)) {
        SelectorStep::Finish(items) => assert!(items.is_empty()),
        _ => panic!("escape should finish"),
    }
}

#[test]
fn view_keys_switch_tabs_and_clear_query() {
    let mut a = app(&["core/vim", "extra/emacs"], true);
    assert_eq!(a.handle_view_key(ch('3')), ViewAction::SwitchView(ViewType::Remove));
    assert_eq!(
        a.handle_view_key(Key { code: KeyCode::Char('r'), mods: KeyMods::Control }),
        ViewAction::RefreshView
    );
    assert_eq!(a.handle_view_key(ch('e')), ViewAction::Nothing);
    assert_eq!(a.search_query, "e");
    assert_eq!(a.handle_view_key(key(KeyCode::Esc)), ViewAction::Nothing);
    assert_eq!(a.search_query, "");
    assert_eq!(a.filtered_items.len(), 2);
    assert_eq!(a.handle_view_key(key(KeyCode::Esc)), ViewAction::SwitchView(ViewType::Home));
}

#[test]
fn selector_configurations() {
    let r = Selector::select_installed(strings(&["vim"]));
    assert!(r.multi);
    assert_eq!(r.action_type, ActionType::Remove);
    assert_eq!(r.preview_cmd.as_deref(), Some("echo {} | xargs yay -Qi"));
    assert_eq!(r.prompt, "Select packages to remove (TAB: multi-select, ENTER: confirm): ");
    let i = Selector::select_available(strings(&["extra/vim"]));
    assert_eq!(i.action_type, ActionType::Install);
    assert_eq!(i.preview_cmd.as_deref(), Some("echo {} | xargs yay -Si"));
    let b = Selector::browse_installed(strings(&["vim"]));
    assert!(!b.multi);
    assert_eq!(b.prompt, "Browse installed packages (ESC to exit): ");
    let mut app = b.into_app();
    assert_eq!(app.take_preview_job().unwrap().command, "echo vim | xargs yay -Qi");
    assert_eq!(Selector::first_choice(&strings(&["x", "y"])), Some("x".to_string()));
    assert_eq!(Selector::first_choice(&vec![]), None);
}

#[test]
fn item_in_flight_is_not_fetched_again_after_moving_away_and_back() {
    let mut a = app(&["a", "b"], true);
    assert_eq!(a.take_preview_job().unwrap().item, "a");
    assert_eq!(a.in_flight, strings(&["a"]));
    a.next();
    assert_eq!(a.take_preview_job().unwrap().item, "b");
    a.previous();
    assert!(a.take_preview_job().is_none());
    assert_eq!(a.preview_content, "Loading preview...");
    assert_eq!(a.current_preview_item, Some("a".to_string()));
    a.check_preview_updates(vec![("a".to_string(), "info a".to_string())]);
    assert_eq!(a.preview_content, "info a");
    assert_eq!(a.in_flight, strings(&["b"]));
}

#[test]
fn unstarted_fetch_is_replaced_by_the_newer_one() {
    let mut a = app(&["a", "b"], true);
    a.next();
    let job = a.take_preview_job().unwrap();
    assert_eq!(job.item, "b");
    assert_eq!(a.in_flight, strings(&["b"]));
    a.previous();
    assert_eq!(a.take_preview_job().unwrap().item, "a");
}
