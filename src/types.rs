//! Small state types of the interactive views: the preview layout, the
//! confirmation dialog, alerts and the messages of a running operation.
use vstd::prelude::*;

verus! {

/// Where the preview pane stands beside the list.
#[derive(Debug, Clone, Copy, PartialEq, Eq, Structural)]
pub enum PreviewLayout {
    /// Preview on the right.
    Vertical,
    /// Preview below.
    Horizontal,
}

impl PreviewLayout {
    pub fn toggle_to_horizontal(&mut self)
        ensures
            *final(self) == PreviewLayout::Horizontal,
    {
        *self = PreviewLayout::Horizontal;
    }

    pub fn toggle_to_vertical(&mut self)
        ensures
            *final(self) == PreviewLayout::Vertical,
    {
        *self = PreviewLayout::Vertical;
    }
}

/// What a running operation reports: a line of its output, or its end with
/// whether it succeeded.
#[derive(Debug)]
pub enum UpdateMessage {
    Output(String),
    Completed(bool),
}

/// What a confirmed selection does to the chosen packages.
#[derive(Debug, Clone, Copy, PartialEq, Eq, Structural)]
pub enum ActionType {
    Install,
    Remove,
}

/// The dialog that asks before packages are installed or removed.
#[derive(Debug, Clone)]
pub struct ConfirmDialog {
    pub active: bool,
    pub action_type: ActionType,
    pub packages: Vec<String>,
    pub confirmed: bool,
    pub scroll: u16,
}

impl ConfirmDialog {
    pub fn new() -> (r: Self)
        ensures
            !r.active,
            r.action_type == ActionType::Install,
            r.packages@.len() == 0,
            !r.confirmed,
            r.scroll == 0,
    {
        ConfirmDialog {
            active: false,
            action_type: ActionType::Install,
            packages: Vec::new(),
            confirmed: false,
            scroll: 0,
        }
    }

    /// Opens the dialog for `action_type` on `packages`.
    pub fn show(&mut self, action_type: ActionType, packages: Vec<String>)
        ensures
            final(self).active,
            final(self).action_type == action_type,
            final(self).packages == packages,
            !final(self).confirmed,
            final(self).scroll == 0,
    {
        self.active = true;
        self.action_type = action_type;
        self.packages = packages;
        self.confirmed = false;
        self.scroll = 0;
    }

    /// Accepts: the dialog closes, confirmed.
    pub fn confirm(&mut self)
        ensures
            final(self).confirmed,
            !final(self).active,
            final(self).scroll == 0,
            final(self).action_type == old(self).action_type,
            final(self).packages == old(self).packages,
    {
        self.confirmed = true;
        self.active = false;
        self.scroll = 0;
    }

    /// Declines: the dialog closes, not confirmed.
    pub fn cancel(&mut self)
        ensures
            !final(self).confirmed,
            !final(self).active,
            final(self).scroll == 0,
            final(self).action_type == old(self).action_type,
            final(self).packages == old(self).packages,
    {
        self.confirmed = false;
        self.active = false;
        self.scroll = 0;
    }

    pub fn is_confirmed(&self) -> (r: bool)
        ensures
            r == self.confirmed,
    {
        self.confirmed
    }

    pub fn scroll_down(&mut self)
        ensures
            final(self).scroll == (if old(self).scroll == u16::MAX {
                u16::MAX
            } else {
                (old(self).scroll + 1) as u16
            }),
            final(self).active == old(self).active,
            final(self).confirmed == old(self).confirmed,
            final(self).action_type == old(self).action_type,
            final(self).packages == old(self).packages,
    {
        self.scroll = self.scroll.saturating_add(1);
    }

    pub fn scroll_up(&mut self)
        ensures
            final(self).scroll == (if old(self).scroll == 0 {
                0
            } else {
                (old(self).scroll - 1) as u16
            }),
            final(self).active == old(self).active,
            final(self).confirmed == old(self).confirmed,
            final(self).action_type == old(self).action_type,
            final(self).packages == old(self).packages,
    {
        self.scroll = self.scroll.saturating_sub(1);
    }
}

/// The tabs of the main menu.
#[derive(Debug, Clone, Copy, PartialEq, Eq, Structural)]
pub enum ViewType {
    Home,
    Install,
    Remove,
    List,
}

impl ViewType {
    pub open spec fn spec_index(self) -> usize {
        match self {
            ViewType::Home => 0,
            ViewType::Install => 1,
            ViewType::Remove => 2,
            ViewType::List => 3,
        }
    }

    /// The position of the tab in the tab bar.
    pub fn index(&self) -> (r: usize)
        ensures
            r == self.spec_index(),
    {
        match self {
            ViewType::Home => 0,
            ViewType::Install => 1,
            ViewType::Remove => 2,
            ViewType::List => 3,
        }
    }

    /// The tab at position `i`, if there is one.
    pub fn from_index(i: usize) -> (r: Option<ViewType>)
        ensures
            match r {
                Some(v) => v.spec_index() == i,
                None => i > 3,
            },
    {
        if i == 0 {
            Some(ViewType::Home)
        } else if i == 1 {
            Some(ViewType::Install)
        } else if i == 2 {
            Some(ViewType::Remove)
        } else if i == 3 {
            Some(ViewType::List)
        } else {
            None
        }
    }
}

#[derive(Debug, Clone, Copy, PartialEq, Eq, Structural)]
pub enum AlertType {
    Success,
    Error,
    Info,
}

/// A banner that reports how an operation ended.
#[derive(Debug, Clone)]
pub struct Alert {
    pub active: bool,
    pub alert_type: AlertType,
    pub message: String,
}

impl Alert {
    pub fn new() -> (r: Self)
        ensures
            !r.active,
            r.alert_type == AlertType::Info,
            r.message@.len() == 0,
    {
        Alert { active: false, alert_type: AlertType::Info, message: String::new() }
    }

    pub fn show(&mut self, alert_type: AlertType, message: String)
        ensures
            final(self).active,
            final(self).alert_type == alert_type,
            final(self).message == message,
    {
        self.active = true;
        self.alert_type = alert_type;
        self.message = message;
    }

    pub fn close(&mut self)
        ensures
            !final(self).active,
            final(self).alert_type == old(self).alert_type,
            final(self).message@.len() == 0,
    {
        self.active = false;
        self.message = String::new();
    }
}

/// A key as the views read it.
#[derive(Debug, Clone, Copy, PartialEq, Eq, Structural)]
pub enum KeyCode {
    Char(char),
    Enter,
    Esc,
    Up,
    Down,
    Tab,
    Backspace,
    Other,
}

/// The modifiers held with a key; `Other` is any other combination.
#[derive(Debug, Clone, Copy, PartialEq, Eq, Structural)]
pub enum KeyMods {
    Plain,
    Shift,
    Control,
    Alt,
    Other,
}

/// A key press.
#[derive(Debug, Clone, Copy, PartialEq, Eq, Structural)]
pub struct Key {
    pub code: KeyCode,
    pub mods: KeyMods,
}

/// What the main menu does after a key press in a view.
#[derive(Debug, Clone, Copy, PartialEq, Eq, Structural)]
pub enum ViewAction {
    Nothing,
    Exit,
    SwitchView(ViewType),
    RefreshView,
    RefreshHomeStats,
    /// Leave the interface for a while and run a full system upgrade.
    RunSystemUpdate,
}

/// The character `c`, typed with or without shift.
pub open spec fn typed(k: Key, c: char) -> bool {
    k.code == KeyCode::Char(c) && (k.mods == KeyMods::Plain || k.mods == KeyMods::Shift)
}

/// The character `c`, typed without modifiers.
pub open spec fn bare(k: Key, c: char) -> bool {
    k.code == KeyCode::Char(c) && k.mods == KeyMods::Plain
}

pub open spec fn down_key(k: Key) -> bool {
    k.code == KeyCode::Down || bare(k, 'j')
}

pub open spec fn up_key(k: Key) -> bool {
    k.code == KeyCode::Up || bare(k, 'k')
}

pub open spec fn confirm_key(k: Key) -> bool {
    typed(k, 'y') || k.code == KeyCode::Enter
}

pub open spec fn cancel_key(k: Key) -> bool {
    typed(k, 'n') || k.code == KeyCode::Esc
}

pub open spec fn help_key(k: Key) -> bool {
    typed(k, '?')
}

pub open spec fn with_mods(k: Key, c: char, m: KeyMods) -> bool {
    k.code == KeyCode::Char(c) && k.mods == m
}

impl Key {
    pub fn is_typed(&self, c: char) -> (r: bool)
        ensures
            r == typed(*self, c),
    {
        self.code == KeyCode::Char(c) && (self.mods == KeyMods::Plain || self.mods == KeyMods::Shift)
    }

    pub fn is_bare(&self, c: char) -> (r: bool)
        ensures
            r == bare(*self, c),
    {
        self.code == KeyCode::Char(c) && self.mods == KeyMods::Plain
    }

    pub fn is_with(&self, c: char, m: KeyMods) -> (r: bool)
        ensures
            r == with_mods(*self, c, m),
    {
        self.code == KeyCode::Char(c) && self.mods == m
    }

    pub fn is_down(&self) -> (r: bool)
        ensures
            r == down_key(*self),
    {
        self.code == KeyCode::Down || self.is_bare('j')
    }

    pub fn is_up(&self) -> (r: bool)
        ensures
            r == up_key(*self),
    {
        self.code == KeyCode::Up || self.is_bare('k')
    }

    pub fn is_confirm(&self) -> (r: bool)
        ensures
            r == confirm_key(*self),
    {
        self.is_typed('y') || self.code == KeyCode::Enter
    }

    pub fn is_cancel(&self) -> (r: bool)
        ensures
            r == cancel_key(*self),
    {
        self.is_typed('n') || self.code == KeyCode::Esc
    }
}

/// The dialog after a key press while it is open: `y` or Enter confirms, `n`
/// or Esc declines, Down/`j` and Up/`k` scroll, other keys do nothing.
pub open spec fn dialog_after(d: ConfirmDialog, k: Key) -> ConfirmDialog {
    if confirm_key(k) {
        ConfirmDialog { confirmed: true, active: false, scroll: 0, ..d }
    } else if cancel_key(k) {
        ConfirmDialog { confirmed: false, active: false, scroll: 0, ..d }
    } else if down_key(k) {
        ConfirmDialog { scroll: sat_inc(d.scroll), ..d }
    } else if up_key(k) {
        ConfirmDialog { scroll: sat_dec(d.scroll), ..d }
    } else {
        d
    }
}

pub open spec fn sat_inc(x: u16) -> u16 {
    if x == u16::MAX {
        x
    } else {
        (x + 1) as u16
    }
}

pub open spec fn sat_dec(x: u16) -> u16 {
    if x == 0 {
        x
    } else {
        (x - 1) as u16
    }
}

impl ConfirmDialog {
    /// Handles a key press while the dialog is open (see `dialog_after`).
    pub fn handle_key(&mut self, key: Key)
        ensures
            *final(self) == dialog_after(*old(self), key),
    {
        if key.is_confirm() {
            self.confirm();
        } else if key.is_cancel() {
            self.cancel();
        } else if key.is_down() {
            self.scroll_down();
        } else if key.is_up() {
            self.scroll_up();
        }
    }
}

/// The main menu's reaction to a key on the home view: `1` to `4` switch
/// tabs, Esc leaves, Ctrl+R reloads the statistics.
pub open spec fn home_action(k: Key) -> ViewAction {
    if k.code == KeyCode::Char('1') {
        ViewAction::SwitchView(ViewType::Home)
    } else if k.code == KeyCode::Char('2') {
        ViewAction::SwitchView(ViewType::Install)
    } else if k.code == KeyCode::Char('3') {
        ViewAction::SwitchView(ViewType::Remove)
    } else if k.code == KeyCode::Char('4') {
        ViewAction::SwitchView(ViewType::List)
    } else if k.code == KeyCode::Esc {
        ViewAction::Exit
    } else if with_mods(k, 'r', KeyMods::Control) {
        ViewAction::RefreshHomeStats
    } else {
        ViewAction::Nothing
    }
}

/// The tab that a key `1` to `4` selects.
pub open spec fn tab_key(k: Key) -> Option<ViewType> {
    if k.code == KeyCode::Char('1') {
        Some(ViewType::Home)
    } else if k.code == KeyCode::Char('2') {
        Some(ViewType::Install)
    } else if k.code == KeyCode::Char('3') {
        Some(ViewType::Remove)
    } else if k.code == KeyCode::Char('4') {
        Some(ViewType::List)
    } else {
        None
    }
}

pub fn tab_for_key(key: Key) -> (r: Option<ViewType>)
    ensures
        r == tab_key(key),
{
    if key.code == KeyCode::Char('1') {
        Some(ViewType::Home)
    } else if key.code == KeyCode::Char('2') {
        Some(ViewType::Install)
    } else if key.code == KeyCode::Char('3') {
        Some(ViewType::Remove)
    } else if key.code == KeyCode::Char('4') {
        Some(ViewType::List)
    } else {
        None
    }
}

/// Reads a key pressed on the home view (see `home_action`).
pub fn home_key_action(key: Key) -> (r: ViewAction)
    ensures
        r == home_action(key),
{
    match tab_for_key(key) {
        Some(v) => ViewAction::SwitchView(v),
        None => if key.code == KeyCode::Esc {
            ViewAction::Exit
        } else if key.is_with('r', KeyMods::Control) {
            ViewAction::RefreshHomeStats
        } else {
            ViewAction::Nothing
        },
    }
}

} // verus!
