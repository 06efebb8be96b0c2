//! What a userproxy's gateway connection reports: the name of each
//! dispatched event, and the bot's username where the event carries it.

use vstd::prelude::*;
use crate::event::AppEvent;
use crate::json::{json_string_at, json_string_at_pointer, opt_text};
use crate::text::str_eq;

verus! {

/// Where the bot's username stands in a gateway event of the given name:
/// under `d.user` for `READY`, under `d` for `USER_UPDATE`, nowhere otherwise.
pub open spec fn username_pointer_spec(event_name: Seq<char>) -> Option<Seq<char>> {
    if event_name == "READY"@ {
        Some("/d/user/username"@)
    } else if event_name == "USER_UPDATE"@ {
        Some("/d/username"@)
    } else {
        None
    }
}

/// The event name and username that a gateway message reports.
pub open spec fn gateway_update_spec(message: Seq<char>) -> (Option<Seq<char>>, Option<Seq<char>>) {
    match json_string_at_pointer(message, "/t"@) {
        None => (None, None),
        Some(name) => (
            Some(name),
            match username_pointer_spec(name) {
                Some(p) => json_string_at_pointer(message, p),
                None => None,
            },
        ),
    }
}

/// What one gateway message reports.
#[derive(Debug)]
pub struct GatewayUpdate {
    /// The dispatched event's name (`t`), if the message is a JSON document that has one.
    pub event_name: Option<String>,
    /// The bot's username, if the event carries it.
    pub username: Option<String>,
}

/// The JSON Pointer under which an event of this name carries the bot's username.
pub fn username_pointer(event_name: &str) -> (res: Option<&'static str>)
    ensures
        match res {
            Some(p) => username_pointer_spec(event_name@) == Some(p@),
            None => username_pointer_spec(event_name@) is None,
        },
{
    let ready = "READY";
    let user_update = "USER_UPDATE";
    let in_user = "/d/user/username";
    let in_data = "/d/username";
    proof {
        reveal_strlit("READY");
        reveal_strlit("USER_UPDATE");
        reveal_strlit("/d/user/username");
        reveal_strlit("/d/username");
    }
    if str_eq(event_name, ready) {
        Some(in_user)
    } else if str_eq(event_name, user_update) {
        Some(in_data)
    } else {
        None
    }
}

/// Read the event name, and the username where the event carries one, from
/// the text of a gateway message.
pub fn gateway_update(message: &str) -> (res: GatewayUpdate)
    ensures
        (opt_text(res.event_name), opt_text(res.username)) == gateway_update_spec(message@),
{
    let t = "/t";
    proof {
        reveal_strlit("/t");
    }
    match json_string_at(message, t) {
        None => GatewayUpdate { event_name: None, username: None },
        Some(name) => {
            let username = match username_pointer(name.as_str()) {
                Some(p) => json_string_at(message, p),
                None => None,
            };
            GatewayUpdate { event_name: Some(name), username }
        },
    }
}

/// The events that a gateway update of the userproxy `bot_id` raises: the
/// event's name for its log, then its new username if the event carries one.
/// An update without an event name raises nothing.
pub fn events_for_update(bot_id: &String, update: GatewayUpdate) -> (res: Vec<AppEvent>)
    ensures
        update.event_name is None ==> res@.len() == 0,
        update.event_name matches Some(name) ==> {
            &&& res@.len() == if update.username is Some { 2int } else { 1int }
            &&& res@[0] matches AppEvent::GatewayEvent(id, n) && id@ == bot_id@ && n@ == name@
            &&& update.username matches Some(u) ==> (res@[1] matches AppEvent::UpdateUserproxyName(id, v)
                && id@ == bot_id@ && v@ == u@)
        },
{
    let mut res: Vec<AppEvent> = Vec::new();
    match update.event_name {
        None => {},
        Some(name) => {
            res.push(AppEvent::GatewayEvent(bot_id.clone(), name));
            match update.username {
                Some(u) => res.push(AppEvent::UpdateUserproxyName(bot_id.clone(), u)),
                None => {},
            }
        },
    }
    res
}

/// The events that one gateway message of the userproxy `bot_id` raises.
pub fn gateway_events(bot_id: &String, message: &str) -> (res: Vec<AppEvent>)
    ensures
        gateway_update_spec(message@).0 is None ==> res@.len() == 0,
        gateway_update_spec(message@).0 matches Some(name) ==> {
            &&& res@.len() == if gateway_update_spec(message@).1 is Some { 2int } else { 1int }
            &&& res@[0] matches AppEvent::GatewayEvent(id, n) && id@ == bot_id@ && n@ == name
            &&& gateway_update_spec(message@).1 matches Some(u) ==> (res@[1] matches AppEvent::UpdateUserproxyName(id, v)
                && id@ == bot_id@ && v@ == u)
        },
{
    events_for_update(bot_id, gateway_update(message))
}

} // verus!
