//! The application's state and how it reacts to events and to ticks.

use vstd::prelude::*;
use vstd::string::StringExecFns;
use crate::config::{Config, SavedStatuses, cycled_color};
use crate::event::{AppEvent, ConfigOption};
use crate::text::{contains_str, has_substring, pop_char, str_eq};
use crate::userproxy::{events_after, Userproxy};

verus! {

/// The popup that is open over the list.
#[derive(Debug, Clone, Copy, PartialEq, Eq, Structural)]
pub enum Popup {
    Help,
    Debug,
    Logs,
}

/// Ticks after which the tick counter starts again at 0.
pub const TICK_PERIOD: usize = 6000;

/// Ticks between two refreshes of the online statuses.
pub const ONLINE_REFRESH_PERIOD: usize = 50;

/// The state of the application.
#[derive(Debug)]
pub struct App {
    pub running: bool,
    pub userproxies: Vec<Userproxy>,
    /// Indices into `userproxies` of those whose name matches `query`, in order.
    pub filtered_userproxies: Vec<usize>,
    pub query: String,
    pub config: Config,
    /// Row of the selection among the visible rows.
    pub scroll_position: usize,
    /// How many matching userproxies are scrolled past, above the visible rows.
    pub skip: usize,
    pub tick_counter: usize,
    /// The text of the input line: the token while none is set, else the status.
    pub status_input: String,
    pub update_in_progress: bool,
    pub update_available: Option<String>,
    /// The accent colour was changed and its name is shown until the display times out.
    pub accent_timer: bool,
    pub popup: Option<Popup>,
    pub userproxy_version: Option<String>,
}

/// Indices among the first `n` userproxies whose name holds `query`, in increasing order.
pub open spec fn matches_upto(ups: Seq<Userproxy>, query: Seq<char>, n: int) -> Seq<usize>
    decreases n,
{
    if n <= 0 {
        Seq::empty()
    } else {
        let rest = matches_upto(ups, query, n - 1);
        if has_substring(ups[n - 1].name@, query) {
            rest.push((n - 1) as usize)
        } else {
            rest
        }
    }
}

/// Indices of the userproxies whose name holds `query`, in increasing order.
pub open spec fn query_matches(ups: Seq<Userproxy>, query: Seq<char>) -> Seq<usize> {
    matches_upto(ups, query, ups.len() as int)
}

/// `x + 1`, staying at the largest `usize`.
pub open spec fn saturating_inc(x: usize) -> usize {
    if x == usize::MAX { x } else { (x + 1) as usize }
}

/// `x - y`, stopping at 0.
pub open spec fn saturating_minus(x: usize, y: usize) -> usize {
    if x >= y { (x - y) as usize } else { 0 }
}

/// The map of remembered statuses that the first `n` userproxies describe;
/// a later userproxy with the same id replaces an earlier one.
pub open spec fn statuses_upto(ups: Seq<Userproxy>, n: int) -> Map<Seq<char>, (Seq<char>, Seq<char>)>
    decreases n,
{
    if n <= 0 {
        Map::empty()
    } else {
        statuses_upto(ups, n - 1).insert(ups[n - 1].id@, (ups[n - 1].name@, ups[n - 1].status@))
    }
}

/// The map of remembered statuses that all userproxies describe.
pub open spec fn statuses_of(ups: Seq<Userproxy>) -> Map<Seq<char>, (Seq<char>, Seq<char>)> {
    statuses_upto(ups, ups.len() as int)
}

/// The query after one input: the backspace character removes the last
/// character, any other text is appended.
pub open spec fn query_after_input(query: Seq<char>, input: Seq<char>) -> Seq<char> {
    if input == seq!['\u{7f}'] {
        if query.len() > 0 { query.drop_last() } else { query }
    } else {
        query + input
    }
}

/// Every index that the query yields stands for a userproxy, and they increase.
pub proof fn lemma_matches_in_bounds(ups: Seq<Userproxy>, query: Seq<char>, n: int)
    requires
        0 <= n <= ups.len(),
        ups.len() <= usize::MAX,
    ensures
        forall|k: int| 0 <= k < matches_upto(ups, query, n).len()
            ==> #[trigger] matches_upto(ups, query, n)[k] < n,
        forall|a: int, b: int| 0 <= a < b < matches_upto(ups, query, n).len()
            ==> matches_upto(ups, query, n)[a] < matches_upto(ups, query, n)[b],
    decreases n,
{
    if n > 0 {
        lemma_matches_in_bounds(ups, query, n - 1);
        let rest = matches_upto(ups, query, n - 1);
        let all = matches_upto(ups, query, n);
        if has_substring(ups[n - 1].name@, query) {
            assert(all == rest.push((n - 1) as usize));
            assert forall|a: int, b: int| 0 <= a < b < all.len() implies all[a] < all[b] by {
                if b == all.len() - 1 {
                    assert(all[a] == rest[a]);
                    assert(rest[a] < n - 1);
                } else {
                    assert(all[a] == rest[a] && all[b] == rest[b]);
                }
            }
            assert forall|k: int| 0 <= k < all.len() implies #[trigger] all[k] < n by {
                if k < rest.len() {
                    assert(all[k] == rest[k]);
                }
            }
        }
    }
}

/// With the empty query, every userproxy matches.
pub proof fn lemma_empty_query_matches_all(ups: Seq<Userproxy>, n: int)
    requires
        0 <= n <= ups.len(),
        n <= usize::MAX,
    ensures
        matches_upto(ups, Seq::<char>::empty(), n) =~= Seq::new(n as nat, |i: int| i as usize),
    decreases n,
{
    if n > 0 {
        lemma_empty_query_matches_all(ups, n - 1);
        assert(ups[n - 1].name@.subrange(0, 0) =~= Seq::<char>::empty());
        assert(crate::text::occurs_at(ups[n - 1].name@, Seq::<char>::empty(), 0));
    }
}

impl App {
    /// The filtered list is the list of userproxies matching the query, the
    /// tick counter stays below its period, and the remembered statuses hold
    /// no repeated id.
    pub open spec fn wf(&self) -> bool {
        &&& self.filtered_userproxies@ == query_matches(self.userproxies@, self.query@)
        &&& self.tick_counter < TICK_PERIOD
        &&& self.config.wf()
    }

    /// Adding the selection's row to the rows scrolled past does not overflow,
    /// where there is a list to select from.
    pub open spec fn selection_sum_fits(&self) -> bool {
        self.filtered_userproxies@.len() > 0 ==> self.scroll_position + self.skip <= usize::MAX
    }

    /// The userproxy under the selection, as an index into `userproxies`.
    pub open spec fn selected_spec(&self) -> Option<usize> {
        let idx = self.scroll_position + self.skip;
        if self.filtered_userproxies@.len() == 0 || idx >= self.filtered_userproxies@.len() {
            None
        } else {
            Some(self.filtered_userproxies@[idx])
        }
    }

    /// A fresh application on the given settings: running, with no
    /// userproxies, an empty query and nothing selected.
    pub fn new(config: Config) -> (res: App)
        requires
            config.wf(),
        ensures
            res.wf(),
            res.running,
            res.userproxies@.len() == 0,
            res.filtered_userproxies@.len() == 0,
            res.query@ == Seq::<char>::empty(),
            res.config == config,
            res.scroll_position == 0 && res.skip == 0 && res.tick_counter == 0,
            res.status_input@ == Seq::<char>::empty(),
            !res.update_in_progress,
            res.update_available is None,
            !res.accent_timer,
            res.popup is None,
            res.userproxy_version is None,
    {
        App {
            running: true,
            userproxies: Vec::new(),
            filtered_userproxies: Vec::new(),
            query: String::new(),
            config,
            scroll_position: 0,
            skip: 0,
            tick_counter: 0,
            status_input: String::new(),
            update_in_progress: false,
            update_available: None,
            accent_timer: false,
            popup: None,
            userproxy_version: None,
        }
    }

    /// Move the selection one row down.
    pub fn increment_selection(&mut self)
        ensures
            *final(self) == (App { scroll_position: saturating_inc(old(self).scroll_position), ..*old(self) }),
    {
        self.scroll_position = self.scroll_position.saturating_add(1)
    }

    /// Move the selection one row up.
    pub fn decrement_selection(&mut self)
        ensures
            *final(self) == (App { scroll_position: saturating_minus(old(self).scroll_position, 1), ..*old(self) }),
    {
        self.scroll_position = self.scroll_position.saturating_sub(1)
    }

    /// The userproxy under the selection, as an index into `userproxies`.
    pub fn selected_userproxy(&self) -> (res: Option<usize>)
        requires
            self.wf(),
            self.selection_sum_fits(),
        ensures
            res == self.selected_spec(),
            res matches Some(i) ==> i < self.userproxies@.len(),
    {
        if self.filtered_userproxies.len() == 0 {
            return None;
        }
        let index = self.scroll_position + self.skip;
        if index >= self.filtered_userproxies.len() {
            return None;
        }
        proof {
            assert(self.userproxies.len() == self.userproxies@.len());
            lemma_matches_in_bounds(self.userproxies@, self.query@, self.userproxies@.len() as int);
            assert(self.filtered_userproxies@[index as int] < self.userproxies@.len());
        }
        Some(self.filtered_userproxies[index])
    }

    /// The indices of the userproxies whose name holds the query.
    fn matching_indices(userproxies: &Vec<Userproxy>, query: &String) -> (res: Vec<usize>)
        ensures
            res@ == query_matches(userproxies@, query@),
    {
        let mut res: Vec<usize> = Vec::new();
        if query.as_str().is_empty() {
            let mut i: usize = 0;
            while i < userproxies.len()
                invariant
                    i <= userproxies@.len(),
                    res@ =~= Seq::new(i as nat, |k: int| k as usize),
                decreases userproxies@.len() - i,
            {
                res.push(i);
                i = i + 1;
            }
            proof {
                assert(query@ =~= Seq::<char>::empty());
                lemma_empty_query_matches_all(userproxies@, userproxies@.len() as int);
            }
        } else {
            let mut i: usize = 0;
            while i < userproxies.len()
                invariant
                    i <= userproxies@.len(),
                    res@ == matches_upto(userproxies@, query@, i as int),
                decreases userproxies@.len() - i,
            {
                if contains_str(userproxies[i].name.as_str(), query.as_str()) {
                    res.push(i);
                }
                i = i + 1;
            }
        }
        res
    }

    /// Recompute the filtered list from the query.
    fn run_query(&mut self)
        ensures
            final(self).filtered_userproxies@ == query_matches(old(self).userproxies@, old(self).query@),
            *final(self) == (App { filtered_userproxies: final(self).filtered_userproxies, ..*old(self) }),
    {
        self.filtered_userproxies = Self::matching_indices(&self.userproxies, &self.query);
    }

    /// Type into the query (the text `"\u{7f}"` deletes its last character),
    /// go back to the top of the list and filter again; ignored while the
    /// status is being edited.
    pub fn query_input(&mut self, char: String)
        requires
            old(self).wf(),
        ensures
            final(self).wf(),
            old(self).config.status_selected ==> *final(self) == *old(self),
            !old(self).config.status_selected ==> {
                &&& final(self).query@ == query_after_input(old(self).query@, char@)
                &&& *final(self) == (App {
                    query: final(self).query,
                    filtered_userproxies: final(self).filtered_userproxies,
                    scroll_position: 0,
                    skip: 0,
                    ..*old(self)
                })
            },
    {
        if self.config.status_selected {
            return;
        }
        let backspace = "\u{7f}";
        proof {
            reveal_strlit("\u{7f}");
        }
        assert(backspace@ == seq!['\u{7f}']);
        if str_eq(char.as_str(), backspace) {
            pop_char(&mut self.query);
        } else {
            self.query.append(char.as_str());
        }
        assert(self.query@ == query_after_input(old(self).query@, char@));
        self.scroll_position = 0;
        self.skip = 0;
        self.run_query();
    }

    /// The remembered statuses taken from the current userproxies.
    fn collect_statuses(userproxies: &Vec<Userproxy>) -> (res: SavedStatuses)
        ensures
            res.wf(),
            res@ == statuses_of(userproxies@),
    {
        let mut res = SavedStatuses::new();
        let mut i: usize = 0;
        while i < userproxies.len()
            invariant
                i <= userproxies@.len(),
                res.wf(),
                res@ == statuses_upto(userproxies@, i as int),
            decreases userproxies@.len() - i,
        {
            res.insert(userproxies[i].id.clone(), userproxies[i].name.clone(), userproxies[i].status.clone());
            i = i + 1;
        }
        res
    }

    /// Stop running and remember every userproxy's name and status; the
    /// settings are then to be saved.
    pub fn quit(&mut self)
        requires
            old(self).wf(),
        ensures
            final(self).wf(),
            final(self).config.userproxy_data@ == statuses_of(old(self).userproxies@),
            *final(self) == (App {
                running: false,
                config: Config { userproxy_data: final(self).config.userproxy_data, ..old(self).config },
                ..*old(self)
            }),
    {
        self.running = false;
        self.config.userproxy_data = Self::collect_statuses(&self.userproxies);
    }

    /// One tick of the clock. Ends the display of a changed accent colour once
    /// it has timed out; then, while a token is set, asks for the userproxies
    /// to be fetched every `TICK_PERIOD` ticks (starting now) and for their
    /// online statuses to be refreshed every `ONLINE_REFRESH_PERIOD` ticks,
    /// and advances the counter.
    pub fn tick(&mut self, accent_expired: bool) -> (res: TickActions)
        requires
            old(self).wf(),
        ensures
            final(self).wf(),
            ({
                let cleared = old(self).accent_timer && accent_expired;
                let config = Config {
                    show_accent_color: if cleared { false } else { old(self).config.show_accent_color },
                    ..old(self).config
                };
                let timer = if cleared { false } else { old(self).accent_timer };
                if old(self).config.token is None {
                    &&& res == TickActions { fetch_userproxies: false, refresh_online: false }
                    &&& *final(self) == (App { config: config, accent_timer: timer, ..*old(self) })
                } else {
                    let fetch = old(self).tick_counter == 0;
                    &&& res == TickActions {
                        fetch_userproxies: fetch,
                        refresh_online: old(self).tick_counter % ONLINE_REFRESH_PERIOD == 0,
                    }
                    &&& *final(self) == (App {
                        config: config,
                        accent_timer: timer,
                        update_in_progress: fetch || old(self).update_in_progress,
                        tick_counter: ((old(self).tick_counter + 1) % (TICK_PERIOD as int)) as usize,
                        ..*old(self)
                    })
                }
            }),
    {
        if self.accent_timer && accent_expired {
            self.config.show_accent_color = false;
            self.accent_timer = false;
        }
        if self.config.token.is_none() {
            return TickActions { fetch_userproxies: false, refresh_online: false };
        }
        let fetch = self.tick_counter == 0;
        if fetch {
            self.update_in_progress = true;
        }
        let refresh = self.tick_counter % ONLINE_REFRESH_PERIOD == 0;
        self.tick_counter = (self.tick_counter + 1) % TICK_PERIOD;
        TickActions { fetch_userproxies: fetch, refresh_online: refresh }
    }

    /// React to an event: toggle options, edit the status, cycle the accent
    /// colour, take in new userproxies and their names, statuses and gateway
    /// events, forget an invalid token, scroll, filter, or quit.
    pub fn handle_event(&mut self, event: AppEvent) -> (res: EventOutcome)
        requires
            old(self).wf(),
            event matches AppEvent::ToggleConfig(ConfigOption::StatusSelected(_))
                ==> old(self).selected_spec() is Some,
        ensures
            final(self).wf(),
            match event {
                AppEvent::ToggleConfig(ConfigOption::StatusSelected(save)) =>
                    status_toggle_post(*old(self), *final(self), save, old(self).selected_spec()->0, res),
                AppEvent::ToggleConfig(option) => res == EventOutcome::Nothing
                    && *final(self) == (App { config: config_toggled(old(self).config, option), ..*old(self) }),
                AppEvent::CycleAccentColor(direction) => res == EventOutcome::AccentChanged
                    && *final(self) == (App {
                        config: Config {
                            accent_color: cycled_color(old(self).config.accent_color, direction),
                            show_accent_color: true,
                            ..old(self).config
                        },
                        accent_timer: true,
                        ..*old(self)
                    }),
                AppEvent::UpdateUserproxies(None, _) => res == EventOutcome::Nothing
                    && *final(self) == (App { update_in_progress: false, ..*old(self) }),
                AppEvent::UpdateUserproxies(Some(userproxies), version) => {
                    &&& res == EventOutcome::Nothing
                    &&& final(self).query@ == Seq::<char>::empty()
                    &&& *final(self) == (App {
                        update_in_progress: false,
                        userproxy_version: version,
                        userproxies: userproxies,
                        query: final(self).query,
                        filtered_userproxies: final(self).filtered_userproxies,
                        scroll_position: 0,
                        skip: 0,
                        ..*old(self)
                    })
                },
                AppEvent::UpdateOnline(id, online) => res == EventOutcome::Nothing
                    && online_updated(*old(self), *final(self), id@, online),
                AppEvent::GatewayEvent(id, name) => res == EventOutcome::Nothing
                    && event_recorded(*old(self), *final(self), id@, name),
                AppEvent::UpdateUserproxyName(id, name) => res == EventOutcome::Nothing
                    && name_updated(*old(self), *final(self), id@, name),
                AppEvent::TokenInvalid => res == EventOutcome::Nothing
                    && final(self).status_input@ == Seq::<char>::empty()
                    && *final(self) == (App {
                        config: Config { token: None, ..old(self).config },
                        status_input: final(self).status_input,
                        ..*old(self)
                    }),
                AppEvent::ScrollDown => res == EventOutcome::Nothing
                    && *final(self) == (App { scroll_position: saturating_inc(old(self).scroll_position), ..*old(self) }),
                AppEvent::ScrollUp => res == EventOutcome::Nothing
                    && *final(self) == (App { scroll_position: saturating_minus(old(self).scroll_position, 1), ..*old(self) }),
                AppEvent::QueryInput(text) => res == EventOutcome::Nothing && (if old(self).config.status_selected {
                    *final(self) == *old(self)
                } else {
                    &&& final(self).query@ == query_after_input(old(self).query@, text@)
                    &&& *final(self) == (App {
                        query: final(self).query,
                        filtered_userproxies: final(self).filtered_userproxies,
                        scroll_position: 0,
                        skip: 0,
                        ..*old(self)
                    })
                }),
                AppEvent::QueryRun => res == EventOutcome::Nothing
                    && final(self).filtered_userproxies@ == old(self).filtered_userproxies@
                    && *final(self) == (App { filtered_userproxies: final(self).filtered_userproxies, ..*old(self) }),
                AppEvent::Quit => res == EventOutcome::Quit
                    && final(self).config.userproxy_data@ == statuses_of(old(self).userproxies@)
                    && *final(self) == (App {
                        running: false,
                        config: Config { userproxy_data: final(self).config.userproxy_data, ..old(self).config },
                        ..*old(self)
                    }),
            },
    {
        match event {
            AppEvent::ToggleConfig(option) => self.toggle_config(option),
            AppEvent::CycleAccentColor(direction) => {
                self.config.cycle_accent_color(direction);
                self.accent_timer = true;
                self.config.show_accent_color = true;
                EventOutcome::AccentChanged
            },
            AppEvent::UpdateUserproxies(userproxies, version) => {
                self.update_userproxies(userproxies, version);
                EventOutcome::Nothing
            },
            AppEvent::UpdateOnline(id, online) => {
                self.update_online(&id, online);
                EventOutcome::Nothing
            },
            AppEvent::UpdateUserproxyName(id, name) => {
                self.update_userproxy_name(&id, name);
                EventOutcome::Nothing
            },
            AppEvent::GatewayEvent(id, name) => {
                self.record_gateway_event(&id, name);
                EventOutcome::Nothing
            },
            AppEvent::TokenInvalid => {
                self.config.token = None;
                self.status_input = String::new();
                EventOutcome::Nothing
            },
            AppEvent::ScrollDown => {
                self.increment_selection();
                EventOutcome::Nothing
            },
            AppEvent::ScrollUp => {
                self.decrement_selection();
                EventOutcome::Nothing
            },
            AppEvent::QueryInput(text) => {
                self.query_input(text);
                EventOutcome::Nothing
            },
            AppEvent::QueryRun => {
                self.run_query();
                EventOutcome::Nothing
            },
            AppEvent::Quit => {
                self.quit();
                EventOutcome::Quit
            },
        }
    }

    /// Take in the userproxies that the API sent, if it sent any: they replace
    /// the current ones, the query is cleared and the list starts at the top.
    fn update_userproxies(&mut self, userproxies: Option<Vec<Userproxy>>, version: Option<String>)
        requires
            old(self).wf(),
        ensures
            final(self).wf(),
            match userproxies {
                None => *final(self) == (App { update_in_progress: false, ..*old(self) }),
                Some(ups) => {
                    &&& final(self).query@ == Seq::<char>::empty()
                    &&& *final(self) == (App {
                        update_in_progress: false,
                        userproxy_version: version,
                        userproxies: ups,
                        query: final(self).query,
                        filtered_userproxies: final(self).filtered_userproxies,
                        scroll_position: 0,
                        skip: 0,
                        ..*old(self)
                    })
                },
            },
    {
        self.update_in_progress = false;
        if let Some(userproxies) = userproxies {
            self.userproxy_version = version;
            self.userproxies = userproxies;
            self.query = String::new();
            self.scroll_position = 0;
            self.skip = 0;
            self.run_query();
        }
    }

    /// Set the online flag of the first userproxy with this id.
    fn update_online(&mut self, id: &String, online: bool)
        requires
            old(self).wf(),
        ensures
            final(self).wf(),
            online_updated(*old(self), *final(self), id@, online),
    {
        if let Some(i) = self.find_userproxy(id) {
            self.userproxies[i].online = online;
            proof {
                lemma_matches_same_names(self.userproxies@, old(self).userproxies@, self.query@, self.userproxies@.len() as int);
            }
        }
    }

    /// Log a gateway event at the first userproxy with this id.
    fn record_gateway_event(&mut self, id: &String, name: String)
        requires
            old(self).wf(),
        ensures
            final(self).wf(),
            event_recorded(*old(self), *final(self), id@, name),
    {
        if let Some(i) = self.find_userproxy(id) {
            self.userproxies[i].record_event(name);
            proof {
                lemma_matches_same_names(self.userproxies@, old(self).userproxies@, self.query@, self.userproxies@.len() as int);
            }
        }
    }

    /// Rename the first userproxy with this id, remember its name and status,
    /// go back to the top of the list and filter again.
    fn update_userproxy_name(&mut self, id: &String, name: String)
        requires
            old(self).wf(),
        ensures
            final(self).wf(),
            name_updated(*old(self), *final(self), id@, name),
    {
        if let Some(i) = self.find_userproxy(id) {
            self.userproxies[i].name = name;
            self.scroll_position = 0;
            self.skip = 0;
            let key = self.userproxies[i].id.clone();
            let new_name = self.userproxies[i].name.clone();
            let status = self.userproxies[i].status.clone();
            self.config.userproxy_data.insert(key, new_name, status);
            self.run_query();
        }
    }

    /// Toggle an option; for status editing, also fill the input line from the
    /// selected userproxy, or save or drop the edit when leaving it.
    fn toggle_config(&mut self, option: ConfigOption) -> (res: EventOutcome)
        requires
            old(self).wf(),
            option matches ConfigOption::StatusSelected(_)
                ==> old(self).selected_spec() is Some,
        ensures
            final(self).wf(),
            match option {
                ConfigOption::StatusSelected(save) =>
                    status_toggle_post(*old(self), *final(self), save, old(self).selected_spec()->0, res),
                _ => res == EventOutcome::Nothing
                    && *final(self) == (App { config: config_toggled(old(self).config, option), ..*old(self) }),
            },
    {
        match option {
            ConfigOption::ShowIds => self.config.show_ids = !self.config.show_ids,
            ConfigOption::ShowUptime => self.config.show_uptime = !self.config.show_uptime,
            ConfigOption::ShowHelp => self.config.show_help = !self.config.show_help,
            ConfigOption::ShowDebug => self.config.show_debug = !self.config.show_debug,
            ConfigOption::ShowLogs => self.config.show_logs = !self.config.show_logs,
            ConfigOption::ShowAccentColor => self.config.show_accent_color = !self.config.show_accent_color,
            ConfigOption::StatusSelected(save) => {
                assert(self.filtered_userproxies.len() == self.filtered_userproxies@.len());
                let i = match self.selected_userproxy() {
                    Some(i) => i,
                    None => {
                        assert(false);
                        return EventOutcome::Nothing;
                    },
                };
                let mut outcome = EventOutcome::Nothing;
                if self.config.status_selected {
                    let pending_status = self.status_input.clone();
                    if save {
                        let key = self.userproxies[i].id.clone();
                        let name = self.userproxies[i].name.clone();
                        self.userproxies[i].set_status(pending_status.clone());
                        self.config.userproxy_data.insert(key, name, pending_status);
                        proof {
                            lemma_matches_same_names(self.userproxies@, old(self).userproxies@, self.query@, self.userproxies@.len() as int);
                        }
                        outcome = EventOutcome::StatusSaved(i);
                    } else {
                        self.status_input = self.userproxies[i].status.clone();
                    }
                } else {
                    self.status_input = self.userproxies[i].status.clone();
                }
                self.config.status_selected = !self.config.status_selected;
                return outcome;
            },
        }
        EventOutcome::Nothing
    }

    /// The first userproxy with the given id, as an index into `userproxies`.
    pub fn find_userproxy(&self, id: &String) -> (res: Option<usize>)
        ensures
            match res {
                Some(i) => is_first_with_id(self.userproxies@, id@, i as int),
                None => forall|j: int| 0 <= j < self.userproxies@.len() ==> self.userproxies@[j].id@ != id@,
            },
    {
        let mut i: usize = 0;
        while i < self.userproxies.len()
            invariant
                i <= self.userproxies@.len(),
                forall|j: int| 0 <= j < i ==> self.userproxies@[j].id@ != id@,
            decreases self.userproxies@.len() - i,
        {
            if self.userproxies[i].id == *id {
                return Some(i);
            }
            i = i + 1;
        }
        None
    }
}

/// The settings after an option was toggled.
pub open spec fn config_toggled(c: Config, option: ConfigOption) -> Config {
    match option {
        ConfigOption::ShowIds => Config { show_ids: !c.show_ids, ..c },
        ConfigOption::ShowUptime => Config { show_uptime: !c.show_uptime, ..c },
        ConfigOption::ShowHelp => Config { show_help: !c.show_help, ..c },
        ConfigOption::ShowDebug => Config { show_debug: !c.show_debug, ..c },
        ConfigOption::ShowLogs => Config { show_logs: !c.show_logs, ..c },
        ConfigOption::StatusSelected(_) => Config { status_selected: !c.status_selected, ..c },
        ConfigOption::ShowAccentColor => Config { show_accent_color: !c.show_accent_color, ..c },
    }
}

/// Two lists of userproxies with the same names match the same queries the same way.
pub proof fn lemma_matches_same_names(a: Seq<Userproxy>, b: Seq<Userproxy>, query: Seq<char>, n: int)
    requires
        a.len() == b.len(),
        0 <= n <= a.len(),
        forall|i: int| 0 <= i < a.len() ==> #[trigger] a[i].name == b[i].name,
    ensures
        matches_upto(a, query, n) == matches_upto(b, query, n),
    decreases n,
{
    if n > 0 {
        lemma_matches_same_names(a, b, query, n - 1);
        assert(a[n - 1].name == b[n - 1].name);
    }
}

/// What handling an event asks of the surroundings.
#[derive(Debug, Clone, Copy, PartialEq, Eq, Structural)]
pub enum EventOutcome {
    Nothing,
    /// The accent colour changed: its name is shown from now until it times out.
    AccentChanged,
    /// The status of the userproxy at this index was saved: its presence is to be updated.
    StatusSaved(usize),
    /// The application quit; its settings are to be saved.
    Quit,
}

/// The userproxy `u` with another status.
pub open spec fn with_status(u: Userproxy, status: String) -> Userproxy {
    Userproxy { status: status, ..u }
}

/// The effect of entering or leaving status editing on the selected userproxy `i`.
pub open spec fn status_toggle_post(pre: App, post: App, save: bool, i: usize, res: EventOutcome) -> bool {
    let up = pre.userproxies@[i as int];
    let config = Config { status_selected: !pre.config.status_selected, ..pre.config };
    if pre.config.status_selected && save {
        &&& res == EventOutcome::StatusSaved(i)
        &&& post.config.userproxy_data@ == pre.config.userproxy_data@.insert(up.id@, (up.name@, pre.status_input@))
        &&& post == (App {
            userproxies: post.userproxies,
            config: Config { userproxy_data: post.config.userproxy_data, ..config },
            ..pre
        })
        &&& post.userproxies@ == pre.userproxies@.update(i as int, with_status(up, pre.status_input))
    } else {
        &&& res == EventOutcome::Nothing
        &&& post == (App { status_input: up.status, config: config, ..pre })
    }
}

/// No userproxy has this id.
pub open spec fn no_userproxy_with_id(ups: Seq<Userproxy>, id: Seq<char>) -> bool {
    forall|j: int| 0 <= j < ups.len() ==> ups[j].id@ != id
}

/// The first userproxy with the id, if any, is online or not as reported;
/// nothing else changes.
pub open spec fn online_updated(pre: App, post: App, id: Seq<char>, online: bool) -> bool {
    ||| no_userproxy_with_id(pre.userproxies@, id) && post == pre
    ||| exists|i: int| #[trigger] is_first_with_id(pre.userproxies@, id, i)
        && post.userproxies@ == pre.userproxies@.update(i, Userproxy { online: online, ..pre.userproxies@[i] })
        && post == (App { userproxies: post.userproxies, ..pre })
}

/// The first userproxy with the id, if any, has the event name logged;
/// nothing else changes.
pub open spec fn event_recorded(pre: App, post: App, id: Seq<char>, name: String) -> bool {
    ||| no_userproxy_with_id(pre.userproxies@, id) && post == pre
    ||| exists|i: int| #[trigger] is_first_with_id(pre.userproxies@, id, i)
        && post.userproxies@[i].events@ == events_after(pre.userproxies@[i].events@, name)
        && post.userproxies@ == pre.userproxies@.update(i, Userproxy { events: post.userproxies@[i].events, ..pre.userproxies@[i] })
        && post == (App { userproxies: post.userproxies, ..pre })
}

/// The first userproxy with the id, if any, takes the name, which is
/// remembered with its status; the list goes back to the top.
pub open spec fn name_updated(pre: App, post: App, id: Seq<char>, name: String) -> bool {
    ||| no_userproxy_with_id(pre.userproxies@, id) && post == pre
    ||| exists|i: int| #[trigger] is_first_with_id(pre.userproxies@, id, i)
        && post.userproxies@ == pre.userproxies@.update(i, Userproxy { name: name, ..pre.userproxies@[i] })
        && post.config.userproxy_data@ == pre.config.userproxy_data@.insert(id, (name@, pre.userproxies@[i].status@))
        && post == (App {
            userproxies: post.userproxies,
            filtered_userproxies: post.filtered_userproxies,
            config: Config { userproxy_data: post.config.userproxy_data, ..pre.config },
            scroll_position: 0,
            skip: 0,
            ..pre
        })
}

/// A userproxy is in the filtered list exactly when its name holds the query,
/// and the list holds each such userproxy once, in increasing order.
pub proof fn lemma_query_matches_exactly(ups: Seq<Userproxy>, query: Seq<char>)
    requires
        ups.len() <= usize::MAX,
    ensures
        forall|i: int| 0 <= i < ups.len() ==>
            (query_matches(ups, query).contains(i as usize) <==> has_substring(#[trigger] ups[i].name@, query)),
        forall|a: int, b: int| 0 <= a < b < query_matches(ups, query).len()
            ==> query_matches(ups, query)[a] < query_matches(ups, query)[b],
        forall|k: int| 0 <= k < query_matches(ups, query).len() ==> #[trigger] query_matches(ups, query)[k] < ups.len(),
{
    lemma_matches_in_bounds(ups, query, ups.len() as int);
    lemma_matches_members(ups, query, ups.len() as int);
}

proof fn lemma_matches_members(ups: Seq<Userproxy>, query: Seq<char>, n: int)
    requires
        0 <= n <= ups.len(),
        ups.len() <= usize::MAX,
    ensures
        forall|i: int| 0 <= i < n ==>
            (matches_upto(ups, query, n).contains(i as usize) <==> has_substring(#[trigger] ups[i].name@, query)),
    decreases n,
{
    if n > 0 {
        lemma_matches_members(ups, query, n - 1);
        lemma_matches_in_bounds(ups, query, n - 1);
        let rest = matches_upto(ups, query, n - 1);
        let all = matches_upto(ups, query, n);
        assert forall|i: int| 0 <= i < n implies
            (all.contains(i as usize) <==> has_substring(#[trigger] ups[i].name@, query)) by {
            if has_substring(ups[n - 1].name@, query) {
                assert(all == rest.push((n - 1) as usize));
                if i == n - 1 {
                    assert(all[rest.len() as int] == (n - 1) as usize);
                    if rest.contains(i as usize) {
                        let k = choose|k: int| 0 <= k < rest.len() && rest[k] == i as usize;
                        assert(rest[k] < n - 1);
                    }
                } else {
                    if all.contains(i as usize) {
                        let k = choose|k: int| 0 <= k < all.len() && all[k] == i as usize;
                        if k < rest.len() {
                            assert(rest[k] == i as usize);
                        }
                    }
                    if rest.contains(i as usize) {
                        let k = choose|k: int| 0 <= k < rest.len() && rest[k] == i as usize;
                        assert(all[k] == i as usize);
                    }
                }
            } else {
                if i == n - 1 {
                    if rest.contains(i as usize) {
                        let k = choose|k: int| 0 <= k < rest.len() && rest[k] == i as usize;
                        assert(rest[k] < n - 1);
                    }
                }
            }
        }
    }
}

/// Typing any text but the backspace character appends exactly that text to
/// the query; the backspace character removes the query's last character, if
/// it has one.
pub proof fn lemma_query_input_edits(query: Seq<char>, input: Seq<char>)
    ensures
        input != seq!['\u{7f}'] ==> query_after_input(query, input) == query + input,
        input == seq!['\u{7f}'] && query.len() > 0 ==> query_after_input(query, input) == query.subrange(0, query.len() - 1),
        input == seq!['\u{7f}'] && query.len() == 0 ==> query_after_input(query, input).len() == 0,
{
}

/// A typed character is taken back by the backspace character.
pub proof fn lemma_backspace_undoes_typing(query: Seq<char>, c: char)
    requires
        c != '\u{7f}',
    ensures
        query_after_input(query_after_input(query, seq![c]), seq!['\u{7f}']) == query,
{
    assert(seq![c] != seq!['\u{7f}']) by {
        assert(seq![c][0] != seq!['\u{7f}'][0]);
    }
    assert((query + seq![c]).drop_last() =~= query);
}

/// Toggling an option twice gives back the settings.
pub proof fn lemma_toggle_twice(config: Config, option: ConfigOption)
    ensures
        config_toggled(config_toggled(config, option), option) == config,
{
}

/// Scrolling down and then up gives back the selection's row, below the largest row.
pub proof fn lemma_scroll_round_trip(row: usize)
    requires
        row < usize::MAX,
    ensures
        saturating_minus(saturating_inc(row), 1) == row,
{
}

/// Entering status editing and then cancelling it leaves everything as it was,
/// but that the input line shows the selected userproxy's status.
pub proof fn lemma_status_edit_cancel(pre: App, mid: App, post: App, enter: bool, i: usize,
    r1: EventOutcome, r2: EventOutcome)
    requires
        !pre.config.status_selected,
        i < pre.userproxies@.len(),
        status_toggle_post(pre, mid, enter, i, r1),
        status_toggle_post(mid, post, false, i, r2),
    ensures
        post == (App { status_input: pre.userproxies@[i as int].status, ..pre }),
        r1 == EventOutcome::Nothing && r2 == EventOutcome::Nothing,
{
}

/// Entering status editing, typing a status and saving it gives the selected
/// userproxy the typed status and remembers it with the userproxy's name.
pub proof fn lemma_status_edit_save(pre: App, mid: App, typed: String, post: App, enter: bool, i: usize,
    r1: EventOutcome, r2: EventOutcome)
    requires
        !pre.config.status_selected,
        i < pre.userproxies@.len(),
        status_toggle_post(pre, mid, enter, i, r1),
        status_toggle_post(App { status_input: typed, ..mid }, post, true, i, r2),
    ensures
        r2 == EventOutcome::StatusSaved(i),
        post.userproxies@ == pre.userproxies@.update(i as int, with_status(pre.userproxies@[i as int], typed)),
        post.config.userproxy_data@ == pre.config.userproxy_data@.insert(
            pre.userproxies@[i as int].id@,
            (pre.userproxies@[i as int].name@, typed@),
        ),
        !post.config.status_selected,
        post.status_input == typed,
{
}

/// After quitting, the remembered statuses hold every userproxy's id, with the
/// name and status of the last userproxy that has it.
pub proof fn lemma_statuses_of_lookup(ups: Seq<Userproxy>, i: int)
    requires
        0 <= i < ups.len(),
    ensures
        statuses_of(ups).contains_key(ups[i].id@),
        exists|j: int| i <= j < ups.len() && #[trigger] ups[j].id@ == ups[i].id@
            && (forall|k: int| j < k < ups.len() ==> ups[k].id@ != ups[i].id@)
            && statuses_of(ups)[ups[i].id@] == (ups[j].name@, ups[j].status@),
{
    lemma_statuses_upto_lookup(ups, i, ups.len() as int);
}

proof fn lemma_statuses_upto_lookup(ups: Seq<Userproxy>, i: int, n: int)
    requires
        0 <= i < n <= ups.len(),
    ensures
        statuses_upto(ups, n).contains_key(ups[i].id@),
        exists|j: int| i <= j < n && #[trigger] ups[j].id@ == ups[i].id@
            && (forall|k: int| j < k < n ==> ups[k].id@ != ups[i].id@)
            && statuses_upto(ups, n)[ups[i].id@] == (ups[j].name@, ups[j].status@),
    decreases n,
{
    let key = ups[i].id@;
    if ups[n - 1].id@ == key {
        assert(statuses_upto(ups, n)[key] == (ups[n - 1].name@, ups[n - 1].status@));
        assert(ups[n - 1].id@ == ups[i].id@);
    } else {
        lemma_statuses_upto_lookup(ups, i, n - 1);
        let j = choose|j: int| i <= j < n - 1 && #[trigger] ups[j].id@ == ups[i].id@
            && (forall|k: int| j < k < n - 1 ==> ups[k].id@ != ups[i].id@)
            && statuses_upto(ups, n - 1)[ups[i].id@] == (ups[j].name@, ups[j].status@);
        assert(statuses_upto(ups, n)[key] == statuses_upto(ups, n - 1)[key]);
        assert(forall|k: int| j < k < n ==> ups[k].id@ != ups[i].id@);
    }
}

/// What the clock asks of the surroundings on one tick.
#[derive(Debug, Clone, Copy, PartialEq, Eq, Structural)]
pub struct TickActions {
    /// Fetch the list of userproxies from the API.
    pub fetch_userproxies: bool,
    /// Ask every userproxy's gateway whether it is online.
    pub refresh_online: bool,
}

/// `i` is the first position in `ups` of a userproxy with this id.
pub open spec fn is_first_with_id(ups: Seq<Userproxy>, id: Seq<char>, i: int) -> bool {
    &&& 0 <= i < ups.len()
    &&& ups[i].id@ == id
    &&& forall|j: int| 0 <= j < i ==> ups[j].id@ != id
}

} // verus!
