//! The keyboard: which key press does what in which state.

use vstd::prelude::*;
use crate::app::{statuses_of, App, Popup};
use crate::config::Config;
use crate::event::{AppEvent, ConfigOption, SortDirection};
use crate::text::{char_string, trim, trim_spec};

verus! {

/// A key of the keyboard, as far as the application tells keys apart.
#[derive(Debug, Clone, Copy, PartialEq, Eq, Structural)]
pub enum KeyCode {
    Char(char),
    Enter,
    Esc,
    Tab,
    Backspace,
    Up,
    Down,
    Left,
    Right,
    /// Any other key.
    Other,
}

/// A key press with its modifier bits (shift 1, control 2, alt 4, super 8,
/// hyper 16, meta 32).
#[derive(Debug, Clone, Copy, PartialEq, Eq, Structural)]
pub struct KeyPress {
    pub code: KeyCode,
    pub modifiers: u8,
}

/// The modifier bits of a press with control and nothing else.
pub const CONTROL: u8 = 2;

/// What a key press does.
#[derive(Debug, Clone, Copy, PartialEq, Eq, Structural)]
pub enum KeyDecision {
    /// Nothing.
    Ignore,
    /// Quit at once.
    QuitNow,
    /// The key edits the input line.
    EditInput,
    /// The input line, trimmed, becomes the token.
    SubmitToken,
    /// Open the popup, or close the one that is open, and toggle its option.
    TogglePopup(Popup),
    /// Ask to quit.
    SendQuit,
    /// Ask to toggle an option.
    SendToggle(ConfigOption),
    SendScrollUp,
    SendScrollDown,
    /// Ask to cycle the accent colour.
    SendCycle(SortDirection),
    /// Type a character into the query (`'\u{7f}'` for backspace).
    SendQuery(char),
}

/// The press is the character `c` with control and no other modifier.
pub open spec fn is_control_char(key: KeyPress, c: char) -> bool {
    key.code == KeyCode::Char(c) && key.modifiers == CONTROL
}

/// No popup is open, or `p` is.
pub open spec fn popup_free_for(popup: Option<Popup>, p: Popup) -> bool {
    popup is None || popup == Some(p)
}

/// The option whose toggle accompanies a popup.
pub open spec fn popup_option(p: Popup) -> ConfigOption {
    match p {
        Popup::Help => ConfigOption::ShowHelp,
        Popup::Debug => ConfigOption::ShowDebug,
        Popup::Logs => ConfigOption::ShowLogs,
    }
}

/// The popup after its key was pressed: opened if none was open, else closed.
pub open spec fn popup_toggled(popup: Option<Popup>, p: Popup) -> Option<Popup> {
    if popup is None { Some(p) } else { None }
}

/// What a key press does in a state: control-Q quits; while no token is set,
/// the input line takes the other keys; else control-C quits too; while the
/// status is edited, Enter saves and Escape cancels; popups claim their keys;
/// then the keys of the list.
pub open spec fn key_decision(app: App, key: KeyPress) -> KeyDecision {
    if is_control_char(key, 'q') {
        KeyDecision::SendQuit
    } else if app.config.token is None {
        match key.code {
            KeyCode::Enter => KeyDecision::SubmitToken,
            KeyCode::Esc => KeyDecision::QuitNow,
            _ => KeyDecision::EditInput,
        }
    } else if is_control_char(key, 'c') {
        KeyDecision::SendQuit
    } else if app.config.status_selected {
        if key.code == KeyCode::Enter && app.selected_spec() is Some {
            KeyDecision::SendToggle(ConfigOption::StatusSelected(true))
        } else if key.code == KeyCode::Esc {
            KeyDecision::SendToggle(ConfigOption::StatusSelected(false))
        } else {
            KeyDecision::EditInput
        }
    } else if is_control_char(key, 'h') && popup_free_for(app.popup, Popup::Help) {
        KeyDecision::TogglePopup(Popup::Help)
    } else if app.config.show_help {
        KeyDecision::Ignore
    } else if is_control_char(key, 'd') && popup_free_for(app.popup, Popup::Debug) {
        KeyDecision::TogglePopup(Popup::Debug)
    } else if is_control_char(key, 'l') && popup_free_for(app.popup, Popup::Logs) {
        KeyDecision::TogglePopup(Popup::Logs)
    } else if app.popup is Some {
        KeyDecision::Ignore
    } else if is_control_char(key, 'i') || key.code == KeyCode::Tab {
        KeyDecision::SendToggle(ConfigOption::ShowIds)
    } else if is_control_char(key, 'u') {
        KeyDecision::SendToggle(ConfigOption::ShowUptime)
    } else if key.code == KeyCode::Enter && app.selected_spec() is Some {
        KeyDecision::SendToggle(ConfigOption::StatusSelected(false))
    } else {
        match key.code {
            KeyCode::Up => KeyDecision::SendScrollUp,
            KeyCode::Down => KeyDecision::SendScrollDown,
            KeyCode::Left => KeyDecision::SendCycle(SortDirection::Descending),
            KeyCode::Right => KeyDecision::SendCycle(SortDirection::Ascending),
            KeyCode::Backspace => KeyDecision::SendQuery('\u{7f}'),
            KeyCode::Char(c) => if key.modifiers <= 1 { KeyDecision::SendQuery(c) } else { KeyDecision::Ignore },
            _ => KeyDecision::Ignore,
        }
    }
}

/// Deciding on the key looks at the selection (and adds the selection's row to
/// the rows scrolled past).
pub open spec fn key_reads_selection(app: App, key: KeyPress) -> bool {
    &&& app.config.token is Some
    &&& key.code == KeyCode::Enter
    &&& (app.config.status_selected || (!app.config.show_help && app.popup is None))
}

/// What handling a key asks of the surroundings.
#[derive(Debug)]
pub enum KeyOutcome {
    Nothing,
    /// The application quit; its settings are to be saved.
    Quit,
    /// The key is to be handed to the input line's editor.
    EditInput,
    /// The event is to be raised.
    Send(AppEvent),
}

/// The outcome answers the decision.
pub open spec fn outcome_of(decision: KeyDecision, res: KeyOutcome) -> bool {
    match decision {
        KeyDecision::Ignore | KeyDecision::SubmitToken => res is Nothing,
        KeyDecision::QuitNow => res is Quit,
        KeyDecision::EditInput => res is EditInput,
        KeyDecision::TogglePopup(p) => res matches KeyOutcome::Send(AppEvent::ToggleConfig(o)) && o == popup_option(p),
        KeyDecision::SendQuit => res matches KeyOutcome::Send(AppEvent::Quit),
        KeyDecision::SendToggle(o) => res matches KeyOutcome::Send(AppEvent::ToggleConfig(x)) && x == o,
        KeyDecision::SendScrollUp => res matches KeyOutcome::Send(AppEvent::ScrollUp),
        KeyDecision::SendScrollDown => res matches KeyOutcome::Send(AppEvent::ScrollDown),
        KeyDecision::SendCycle(d) => res matches KeyOutcome::Send(AppEvent::CycleAccentColor(x)) && x == d,
        KeyDecision::SendQuery(c) => res matches KeyOutcome::Send(AppEvent::QueryInput(s)) && s@ == seq![c],
    }
}

impl App {
    /// What a key press does in this state.
    pub fn decide_key(&self, key: KeyPress) -> (res: KeyDecision)
        requires
            self.wf(),
            key_reads_selection(*self, key) ==> self.selection_sum_fits(),
        ensures
            res == key_decision(*self, key),
    {
        let control = key.modifiers == CONTROL;
        if key.code == KeyCode::Char('q') && control {
            return KeyDecision::SendQuit;
        }
        if self.config.token.is_none() {
            return match key.code {
                KeyCode::Enter => KeyDecision::SubmitToken,
                KeyCode::Esc => KeyDecision::QuitNow,
                _ => KeyDecision::EditInput,
            };
        }
        if key.code == KeyCode::Char('c') && control {
            return KeyDecision::SendQuit;
        }
        if self.config.status_selected {
            if key.code == KeyCode::Enter && self.selected_userproxy().is_some() {
                return KeyDecision::SendToggle(ConfigOption::StatusSelected(true));
            } else if key.code == KeyCode::Esc {
                return KeyDecision::SendToggle(ConfigOption::StatusSelected(false));
            } else {
                return KeyDecision::EditInput;
            }
        }
        let popup_none = self.popup.is_none();
        if key.code == KeyCode::Char('h') && control && (popup_none || self.popup == Some(Popup::Help)) {
            return KeyDecision::TogglePopup(Popup::Help);
        }
        if self.config.show_help {
            return KeyDecision::Ignore;
        }
        if key.code == KeyCode::Char('d') && control && (popup_none || self.popup == Some(Popup::Debug)) {
            return KeyDecision::TogglePopup(Popup::Debug);
        }
        if key.code == KeyCode::Char('l') && control && (popup_none || self.popup == Some(Popup::Logs)) {
            return KeyDecision::TogglePopup(Popup::Logs);
        }
        if !popup_none {
            return KeyDecision::Ignore;
        }
        if (key.code == KeyCode::Char('i') && control) || key.code == KeyCode::Tab {
            return KeyDecision::SendToggle(ConfigOption::ShowIds);
        }
        if key.code == KeyCode::Char('u') && control {
            return KeyDecision::SendToggle(ConfigOption::ShowUptime);
        }
        if key.code == KeyCode::Enter && self.selected_userproxy().is_some() {
            return KeyDecision::SendToggle(ConfigOption::StatusSelected(false));
        }
        match key.code {
            KeyCode::Up => KeyDecision::SendScrollUp,
            KeyCode::Down => KeyDecision::SendScrollDown,
            KeyCode::Left => KeyDecision::SendCycle(SortDirection::Descending),
            KeyCode::Right => KeyDecision::SendCycle(SortDirection::Ascending),
            KeyCode::Backspace => KeyDecision::SendQuery('\u{7f}'),
            KeyCode::Char(c) => if key.modifiers <= 1 { KeyDecision::SendQuery(c) } else { KeyDecision::Ignore },
            _ => KeyDecision::Ignore,
        }
    }

    /// React to a key press: the state changes that the decision makes here
    /// (a popup, the token, quitting), and the outcome for the surroundings.
    pub fn handle_key_events(&mut self, key: KeyPress) -> (res: KeyOutcome)
        requires
            old(self).wf(),
            key_reads_selection(*old(self), key) ==> old(self).selection_sum_fits(),
        ensures
            final(self).wf(),
            outcome_of(key_decision(*old(self), key), res),
            match key_decision(*old(self), key) {
                KeyDecision::QuitNow => {
                    &&& final(self).config.userproxy_data@ == statuses_of(old(self).userproxies@)
                    &&& *final(self) == (App {
                        running: false,
                        config: Config { userproxy_data: final(self).config.userproxy_data, ..old(self).config },
                        ..*old(self)
                    })
                },
                KeyDecision::SubmitToken => {
                    &&& final(self).config.token matches Some(t) && t@ == trim_spec(old(self).status_input@)
                    &&& final(self).status_input@ == Seq::<char>::empty()
                    &&& *final(self) == (App {
                        config: Config { token: final(self).config.token, ..old(self).config },
                        status_input: final(self).status_input,
                        tick_counter: 0,
                        ..*old(self)
                    })
                },
                KeyDecision::TogglePopup(p) => *final(self) == (App {
                    popup: popup_toggled(old(self).popup, p),
                    ..*old(self)
                }),
                _ => *final(self) == *old(self),
            },
    {
        let decision = self.decide_key(key);
        match decision {
            KeyDecision::Ignore => KeyOutcome::Nothing,
            KeyDecision::QuitNow => {
                self.quit();
                KeyOutcome::Quit
            },
            KeyDecision::EditInput => KeyOutcome::EditInput,
            KeyDecision::SubmitToken => {
                self.config.token = Some(trim(self.status_input.as_str()));
                self.status_input = String::new();
                self.tick_counter = 0;
                KeyOutcome::Nothing
            },
            KeyDecision::TogglePopup(p) => {
                self.popup = if self.popup.is_none() { Some(p) } else { None };
                let option = match p {
                    Popup::Help => ConfigOption::ShowHelp,
                    Popup::Debug => ConfigOption::ShowDebug,
                    Popup::Logs => ConfigOption::ShowLogs,
                };
                KeyOutcome::Send(AppEvent::ToggleConfig(option))
            },
            KeyDecision::SendQuit => KeyOutcome::Send(AppEvent::Quit),
            KeyDecision::SendToggle(o) => KeyOutcome::Send(AppEvent::ToggleConfig(o)),
            KeyDecision::SendScrollUp => KeyOutcome::Send(AppEvent::ScrollUp),
            KeyDecision::SendScrollDown => KeyOutcome::Send(AppEvent::ScrollDown),
            KeyDecision::SendCycle(d) => KeyOutcome::Send(AppEvent::CycleAccentColor(d)),
            KeyDecision::SendQuery(c) => KeyOutcome::Send(AppEvent::QueryInput(char_string(c))),
        }
    }

}

/// Control-Q asks to quit in every state.
pub proof fn lemma_control_q_always_quits(app: App)
    ensures
        key_decision(app, KeyPress { code: KeyCode::Char('q'), modifiers: CONTROL }) == KeyDecision::SendQuit,
{
}

/// While the status is edited, control-C asks to quit, Escape cancels the
/// edit, Enter saves it when a userproxy is selected, and no other key but
/// control-Q leaves the input line.
pub proof fn lemma_status_editing_keys(app: App, key: KeyPress)
    requires
        app.config.token is Some,
        app.config.status_selected,
    ensures
        is_control_char(key, 'c') ==> key_decision(app, key) == KeyDecision::SendQuit,
        key.code == KeyCode::Esc ==> key_decision(app, key) == KeyDecision::SendToggle(ConfigOption::StatusSelected(false)),
        key.code == KeyCode::Enter && app.selected_spec() is Some
            ==> key_decision(app, key) == KeyDecision::SendToggle(ConfigOption::StatusSelected(true)),
        !is_control_char(key, 'q') && !is_control_char(key, 'c') && key.code != KeyCode::Esc
            && key.code != KeyCode::Enter ==> key_decision(app, key) == KeyDecision::EditInput,
{
}

/// Without a token, Escape quits, Enter submits the input as the token, and
/// every other key but control-Q edits the input.
pub proof fn lemma_token_entry_keys(app: App, key: KeyPress)
    requires
        app.config.token is None,
        !is_control_char(key, 'q'),
    ensures
        key_decision(app, key) == match key.code {
            KeyCode::Enter => KeyDecision::SubmitToken,
            KeyCode::Esc => KeyDecision::QuitNow,
            _ => KeyDecision::EditInput,
        },
{
}

/// With a token set, outside status editing and with no popup open and help
/// hidden, the list keys do what the key-binding help says: control-H, -D and
/// -L open the help, debug and logs popups, control-I or Tab toggles the ids,
/// control-U the uptime, Enter starts editing the selected status, the arrows
/// scroll and cycle the accent colour, Backspace and plain or shifted
/// characters type into the search.
pub proof fn lemma_list_keys(app: App, key: KeyPress)
    requires
        app.config.token is Some,
        !app.config.status_selected,
        !app.config.show_help,
        app.popup is None,
    ensures
        key == (KeyPress { code: KeyCode::Char('h'), modifiers: CONTROL }) ==> key_decision(app, key) == KeyDecision::TogglePopup(Popup::Help),
        key == (KeyPress { code: KeyCode::Char('d'), modifiers: CONTROL }) ==> key_decision(app, key) == KeyDecision::TogglePopup(Popup::Debug),
        key == (KeyPress { code: KeyCode::Char('l'), modifiers: CONTROL }) ==> key_decision(app, key) == KeyDecision::TogglePopup(Popup::Logs),
        key == (KeyPress { code: KeyCode::Char('i'), modifiers: CONTROL }) ==> key_decision(app, key) == KeyDecision::SendToggle(ConfigOption::ShowIds),
        key.code == KeyCode::Tab ==> key_decision(app, key) == KeyDecision::SendToggle(ConfigOption::ShowIds),
        key == (KeyPress { code: KeyCode::Char('u'), modifiers: CONTROL }) ==> key_decision(app, key) == KeyDecision::SendToggle(ConfigOption::ShowUptime),
        key.code == KeyCode::Enter && app.selected_spec() is Some
            ==> key_decision(app, key) == KeyDecision::SendToggle(ConfigOption::StatusSelected(false)),
        key.code == KeyCode::Enter && app.selected_spec() is None ==> key_decision(app, key) == KeyDecision::Ignore,
        key.code == KeyCode::Up ==> key_decision(app, key) == KeyDecision::SendScrollUp,
        key.code == KeyCode::Down ==> key_decision(app, key) == KeyDecision::SendScrollDown,
        key.code == KeyCode::Left ==> key_decision(app, key) == KeyDecision::SendCycle(SortDirection::Descending),
        key.code == KeyCode::Right ==> key_decision(app, key) == KeyDecision::SendCycle(SortDirection::Ascending),
        key.code == KeyCode::Backspace ==> key_decision(app, key) == KeyDecision::SendQuery('\u{7f}'),
        forall|c: char| key == (KeyPress { code: KeyCode::Char(c), modifiers: 0 })
            ==> #[trigger] key_decision(app, KeyPress { code: KeyCode::Char(c), modifiers: 0 }) == KeyDecision::SendQuery(c),
        forall|c: char| key == (KeyPress { code: KeyCode::Char(c), modifiers: 1 })
            ==> #[trigger] key_decision(app, KeyPress { code: KeyCode::Char(c), modifiers: 1 }) == KeyDecision::SendQuery(c),
{
}

/// With a popup open (help hidden, no status editing, a token set), the key of
/// that popup closes it again and every other key but control-Q and control-C
/// is ignored.
pub proof fn lemma_open_popup_keys(app: App, key: KeyPress, p: Popup)
    requires
        app.config.token is Some,
        !app.config.status_selected,
        !app.config.show_help,
        app.popup == Some(p),
        !is_control_char(key, 'q'),
        !is_control_char(key, 'c'),
    ensures
        p == Popup::Logs && key == (KeyPress { code: KeyCode::Char('l'), modifiers: CONTROL })
            ==> key_decision(app, key) == KeyDecision::TogglePopup(Popup::Logs),
        p == Popup::Debug && key == (KeyPress { code: KeyCode::Char('d'), modifiers: CONTROL })
            ==> key_decision(app, key) == KeyDecision::TogglePopup(Popup::Debug),
        p == Popup::Help && key == (KeyPress { code: KeyCode::Char('h'), modifiers: CONTROL })
            ==> key_decision(app, key) == KeyDecision::TogglePopup(Popup::Help),
        !(p == Popup::Logs && key == (KeyPress { code: KeyCode::Char('l'), modifiers: CONTROL }))
            && !(p == Popup::Debug && key == (KeyPress { code: KeyCode::Char('d'), modifiers: CONTROL }))
            && !(p == Popup::Help && key == (KeyPress { code: KeyCode::Char('h'), modifiers: CONTROL }))
            ==> key_decision(app, key) == KeyDecision::Ignore,
{
}

/// Opening a popup by its key and pressing the key again closes it: the popup
/// toggles between closed and open.
pub proof fn lemma_popup_key_toggles(popup: Option<Popup>, p: Popup)
    requires
        popup is None || popup == Some(p),
    ensures
        popup is None ==> popup_toggled(popup, p) == Some(p),
        popup == Some(p) ==> popup_toggled(popup, p) is None,
        popup_toggled(popup_toggled(popup, p), p) == popup,
{
}

} // verus!
