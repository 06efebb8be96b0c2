//! The events that drive the application and the options they toggle.

use vstd::prelude::*;
use crate::userproxy::Userproxy;

verus! {

/// A setting of the configuration that an event can flip.
#[derive(Debug, Clone, Copy, PartialEq, Eq, Structural)]
pub enum ConfigOption {
    ShowIds,
    ShowUptime,
    ShowHelp,
    ShowDebug,
    ShowLogs,
    /// Enter or leave status editing; the flag says whether leaving saves the edit.
    StatusSelected(bool),
    ShowAccentColor,
}

/// A direction to move through an ordered list.
#[derive(Debug, Clone, Copy, PartialEq, Eq, Structural)]
pub enum SortDirection {
    Ascending,
    Descending,
}

impl SortDirection {
    /// The other direction.
    pub open spec fn opposite(self) -> SortDirection {
        match self {
            SortDirection::Ascending => SortDirection::Descending,
            SortDirection::Descending => SortDirection::Ascending,
        }
    }
}

/// What the application reacts to, apart from ticks and raw terminal input.
#[derive(Debug)]
pub enum AppEvent {
    /// Increment the selection index.
    ScrollDown,
    /// Decrement the selection index.
    ScrollUp,
    /// Query input: one typed character, or `"\u{7f}"` for a backspace.
    QueryInput(String),
    /// Toggle a config option.
    ToggleConfig(ConfigOption),
    /// Cycle the accent colour.
    CycleAccentColor(SortDirection),
    /// Force re-run the query.
    QueryRun,
    /// Update from the /plu/ral API: the userproxies (if changed) and their version.
    UpdateUserproxies(Option<Vec<Userproxy>>, Option<String>),
    /// Update the online status of a single userproxy, named by its id.
    UpdateOnline(String, bool),
    /// Update the username of a single userproxy, named by its id.
    UpdateUserproxyName(String, String),
    /// Add a gateway event name to the log of a userproxy, named by its id.
    GatewayEvent(String, String),
    /// The /plu/ral api token is invalid or expired; the user must enter it again.
    TokenInvalid,
    /// Quit the application.
    Quit,
}

} // verus!
