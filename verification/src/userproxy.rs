//! One userproxy: a bot that the user runs, with its name, status and the
//! recent gateway events that it received.

use vstd::prelude::*;
use std::collections::VecDeque;
use crate::config::SavedStatuses;
use crate::json::{json_array_items, json_array_items_of, json_string_at, json_string_at_pointer};

verus! {

/// The most gateway event names that a userproxy keeps.
pub const MAX_EVENTS: usize = 100;

/// A userproxy as the application tracks it.
#[derive(Debug)]
pub struct Userproxy {
    pub name: String,
    pub id: String,
    pub online: bool,
    pub status: String,
    /// The names of the latest gateway events, oldest first.
    pub events: VecDeque<String>,
    /// The bot token that the gateway connection logs in with.
    pub token: String,
    /// The command that the userproxy answers to.
    pub command: String,
}

/// The string field that the JSON Pointer `pointer` addresses in the API's
/// description `json` of a userproxy, or the empty text where there is none.
pub open spec fn api_field(json: Seq<char>, pointer: Seq<char>) -> Seq<char> {
    match json_string_at_pointer(json, pointer) {
        Some(s) => s,
        None => Seq::empty(),
    }
}

/// The event log after `name` was recorded: appended, and the oldest entry
/// dropped once there are more than `MAX_EVENTS`.
pub open spec fn events_after(log: Seq<String>, name: String) -> Seq<String> {
    let grown = log.push(name);
    if grown.len() > MAX_EVENTS {
        grown.drop_first()
    } else {
        grown
    }
}

/// Recording an event keeps at most `MAX_EVENTS` entries: the latest ones,
/// ending with the new event.
pub proof fn lemma_events_after_keeps_latest(log: Seq<String>, name: String)
    requires
        log.len() <= MAX_EVENTS,
    ensures
        events_after(log, name).len() <= MAX_EVENTS,
        events_after(log, name).len() == if log.len() == MAX_EVENTS { log.len() } else { log.len() + 1 },
        events_after(log, name).last() == name,
        events_after(log, name) == log.push(name).subrange(
            log.len() + 1 - events_after(log, name).len() as int,
            (log.len() + 1) as int,
        ),
{
    let grown = log.push(name);
    if grown.len() > MAX_EVENTS {
        assert(grown.drop_first() =~= grown.subrange(1, grown.len() as int));
    } else {
        assert(grown =~= grown.subrange(0, grown.len() as int));
    }
}

/// The string field at `pointer` in `json`, or the empty string.
fn api_string(json: &str, pointer: &str) -> (res: String)
    ensures
        res@ == api_field(json@, pointer@),
{
    match json_string_at(json, pointer) {
        Some(s) => s,
        None => String::new(),
    }
}

impl Userproxy {
    /// The userproxy's log holds no more than `MAX_EVENTS` entries.
    pub open spec fn wf(&self) -> bool {
        self.events@.len() <= MAX_EVENTS
    }

    /// A userproxy as the API describes it in the JSON object `json`: named by
    /// its `bot_id`, with its `token` and `command` (each empty where it is not
    /// a string), offline, with no status and an empty log.
    pub fn from_api(json: &str) -> (res: Userproxy)
        ensures
            res.id@ == api_field(json@, "/bot_id"@),
            res.name@ == api_field(json@, "/bot_id"@),
            res.token@ == api_field(json@, "/token"@),
            res.command@ == api_field(json@, "/command"@),
            !res.online,
            res.status@ == Seq::<char>::empty(),
            res.events@ == Seq::<String>::empty(),
            res.wf(),
    {
        let bot_id = "/bot_id";
        let token = "/token";
        let command = "/command";
        let id = api_string(json, bot_id);
        let token = api_string(json, token);
        let command = api_string(json, command);
        Userproxy {
            name: id.clone(),
            id,
            online: false,
            status: String::new(),
            token,
            command,
            events: VecDeque::with_capacity(MAX_EVENTS),
        }
    }

    /// Record the new status; the presence update itself is sent over the gateway.
    pub fn set_status(&mut self, status: String)
        ensures
            *final(self) == (Userproxy { status: status, ..*old(self) }),
    {
        self.status = status;
    }

    /// Append a gateway event name to the log, dropping the oldest entry once
    /// the log would hold more than `MAX_EVENTS`.
    pub fn record_event(&mut self, event_name: String)
        ensures
            old(self).wf() ==> final(self).wf(),
            final(self).events@ == events_after(old(self).events@, event_name),
            final(self).status == old(self).status,
            final(self).name == old(self).name,
            final(self).id == old(self).id,
            final(self).online == old(self).online,
            final(self).token == old(self).token,
            final(self).command == old(self).command,
    {
        self.events.push_back(event_name);
        if self.events.len() > MAX_EVENTS {
            self.events.pop_front();
        }
    }
}


/// `u` is the userproxy that the API entry `json` describes, with the name and
/// status remembered for its id where there are some.
pub open spec fn prepared_from(json: Seq<char>, saved: Map<Seq<char>, (Seq<char>, Seq<char>)>, u: Userproxy) -> bool {
    let id = api_field(json, "/bot_id"@);
    &&& u.id@ == id
    &&& u.token@ == api_field(json, "/token"@)
    &&& u.command@ == api_field(json, "/command"@)
    &&& !u.online
    &&& u.events@.len() == 0
    &&& if saved.contains_key(id) {
        u.name@ == saved[id].0 && u.status@ == saved[id].1
    } else {
        u.name@ == id && u.status@ == Seq::<char>::empty()
    }
}

/// The userproxies that the API entries describe, in their order, each given
/// the name and status remembered for its id.
pub fn prepare_userproxies(entries: &Vec<String>, saved: &SavedStatuses) -> (res: Vec<Userproxy>)
    requires
        saved.wf(),
    ensures
        res@.len() == entries@.len(),
        forall|i: int| 0 <= i < entries@.len() ==> prepared_from(entries@[i]@, saved@, #[trigger] res@[i]),
{
    let mut res: Vec<Userproxy> = Vec::new();
    let mut k: usize = 0;
    while k < entries.len()
        invariant
            k <= entries@.len(),
            saved.wf(),
            res@.len() == k,
            forall|i: int| 0 <= i < k ==> prepared_from(entries@[i]@, saved@, #[trigger] res@[i]),
        decreases entries@.len() - k,
    {
        let mut u = Userproxy::from_api(entries[k].as_str());
        match saved.get(&u.id) {
            Some((name, status)) => {
                u.name = name;
                u.status = status;
            },
            None => {},
        }
        res.push(u);
        k = k + 1;
    }
    res
}

/// The entries of the API's list of userproxies, each as JSON text: `None`
/// where the answer is no JSON document, no entries where it is no array.
pub open spec fn listed_entries(body: Seq<char>) -> Option<Seq<Seq<char>>> {
    match json_array_items_of(body) {
        None => None,
        Some(None) => Some(Seq::empty()),
        Some(Some(items)) => Some(items),
    }
}

/// The userproxies in the API's answer `body`, each given the name and status
/// remembered for its id; `None` where the answer is no JSON document.
pub fn userproxies_from_body(body: &str, saved: &SavedStatuses) -> (res: Option<Vec<Userproxy>>)
    requires
        saved.wf(),
    ensures
        listed_entries(body@) is None <==> res is None,
        listed_entries(body@) matches Some(entries) ==> (res matches Some(ups) && {
            &&& ups@.len() == entries.len()
            &&& forall|i: int| 0 <= i < entries.len() ==> prepared_from(entries[i], saved@, #[trigger] ups@[i])
        }),
{
    match json_array_items(body) {
        None => None,
        Some(None) => Some(Vec::new()),
        Some(Some(items)) => {
            let ups = prepare_userproxies(&items, saved);
            assert forall|i: int| 0 <= i < items@.len() implies items@.map_values(|s: String| s@)[i] == items@[i]@ by {}
            Some(ups)
        },
    }
}

/// How the API answered a request for the userproxies.
#[derive(Debug, Clone, Copy, PartialEq, Eq, Structural)]
pub enum FetchResponse {
    /// A client error: the token is invalid or expired.
    TokenInvalid,
    /// Not modified, or any other answer that carries no list.
    NoUpdate,
    /// The list of userproxies follows.
    Userproxies,
}

/// How an HTTP status code of the API's answer is read.
pub open spec fn fetch_response_spec(status: u16) -> FetchResponse {
    if 400 <= status < 500 {
        FetchResponse::TokenInvalid
    } else if status == 200 {
        FetchResponse::Userproxies
    } else {
        FetchResponse::NoUpdate
    }
}

/// Read the HTTP status code of the API's answer: a client error (400 to
/// 499) means the token is invalid, 200 brings the list, and anything else
/// (304 not modified among them) brings no update.
pub fn fetch_response(status: u16) -> (res: FetchResponse)
    ensures
        res == fetch_response_spec(status),
        (res == FetchResponse::TokenInvalid) <==> (400 <= status && status < 500),
        (res == FetchResponse::Userproxies) <==> status == 200,
        (res == FetchResponse::NoUpdate) <==> !(400 <= status && status < 500) && status != 200,
{
    if 400 <= status && status < 500 {
        FetchResponse::TokenInvalid
    } else if status == 304 {
        FetchResponse::NoUpdate
    } else if status != 200 {
        FetchResponse::NoUpdate
    } else {
        FetchResponse::Userproxies
    }
}


/// Only a client error (400 to 499) declares the token invalid; only 200
/// brings a list; every other answer, server errors and 304 among them, brings
/// no update and keeps the token.
pub proof fn lemma_fetch_response_classes(status: u16)
    ensures
        (fetch_response_spec(status) == FetchResponse::TokenInvalid) <==> (400 <= status && status < 500),
        (fetch_response_spec(status) == FetchResponse::Userproxies) <==> status == 200,
        (fetch_response_spec(status) == FetchResponse::NoUpdate) <==> !(400 <= status && status < 500) && status != 200,
{
}

} // verus!
