//! The planner's and the timer window's messages arrive as JSON text. The
//! fields that the shell decides on are read here with `serde_json`; a
//! message that is not JSON changes nothing (or, for a reminder, is only
//! not passed on).
use vstd::prelude::*;
use crate::shell::{
    apply_pt_step, command_of, plan, show_notif_step, timer_action_step, timer_update_step, AppUpdate,
    AppUpdateView, Action, Shell, opt_string, TimerUpdate, Windows, timer_command,
};
use crate::text::{link_targets, open_targets, texts};

verus! {

/// Whether `serde_json` reads `payload` as a JSON document.
pub uninterp spec fn json_valid(payload: Seq<char>) -> bool;

/// The boolean that `serde_json` finds under `key` in `payload`: none when
/// the text is not JSON, has no such key, or holds another kind of value.
pub uninterp spec fn json_bool_at(payload: Seq<char>, key: Seq<char>) -> Option<bool>;

/// The string that `serde_json` finds under `key` in `payload`, if any.
pub uninterp spec fn json_str_at(payload: Seq<char>, key: Seq<char>) -> Option<Seq<char>>;

/// The integer (in `i64`) that `serde_json` finds under `key` in `payload`,
/// if any.
pub uninterp spec fn json_i64_at(payload: Seq<char>, key: Seq<char>) -> Option<i64>;

/// Whether `payload` is JSON with some value, of any kind, under `key`.
pub uninterp spec fn json_has(payload: Seq<char>, key: Seq<char>) -> bool;

/// Whether `payload` is JSON with a number under `key`.
pub uninterp spec fn json_number_at(payload: Seq<char>, key: Seq<char>) -> bool;

/// `serde_json::from_str::<Value>`: whether the text parses.
#[verifier::external_body]
fn parse_ok(payload: &str) -> (r: bool)
    ensures
        r == json_valid(payload@),
{
    serde_json::from_str::<serde_json::Value>(payload).is_ok()
}

/// `serde_json::from_str::<Value>`, then `Value::get` and `Value::as_bool`:
/// the boolean under `key`.
#[verifier::external_body]
fn json_bool(payload: &str, key: &str) -> (r: Option<bool>)
    ensures
        r == json_bool_at(payload@, key@),
{
    match serde_json::from_str::<serde_json::Value>(payload) {
        Ok(v) => match v.get(key) {
            Some(x) => x.as_bool(),
            None => None,
        },
        Err(_) => None,
    }
}

/// `serde_json::from_str::<Value>`, then `Value::get` and `Value::as_str`:
/// the string under `key`.
#[verifier::external_body]
fn json_str(payload: &str, key: &str) -> (r: Option<String>)
    ensures
        opt_string(r) == json_str_at(payload@, key@),
{
    match serde_json::from_str::<serde_json::Value>(payload) {
        Ok(v) => match v.get(key) {
            Some(x) => x.as_str().map(str::to_owned),
            None => None,
        },
        Err(_) => None,
    }
}

/// `serde_json::from_str::<Value>`, then `Value::get` and `Value::as_i64`:
/// the integer under `key`.
#[verifier::external_body]
fn json_i64(payload: &str, key: &str) -> (r: Option<i64>)
    ensures
        r == json_i64_at(payload@, key@),
{
    match serde_json::from_str::<serde_json::Value>(payload) {
        Ok(v) => match v.get(key) {
            Some(x) => x.as_i64(),
            None => None,
        },
        Err(_) => None,
    }
}

/// `serde_json::from_str::<Value>`, then `Value::get`: whether there is a
/// value under `key`.
#[verifier::external_body]
fn json_key(payload: &str, key: &str) -> (r: bool)
    ensures
        r == json_has(payload@, key@),
{
    match serde_json::from_str::<serde_json::Value>(payload) {
        Ok(v) => v.get(key).is_some(),
        Err(_) => false,
    }
}

/// `serde_json::from_str::<Value>`, then `Value::get` and
/// `Value::is_number`: whether there is a number under `key` (exactly the
/// values whose `as_f64` gives a float).
#[verifier::external_body]
fn json_number(payload: &str, key: &str) -> (r: bool)
    ensures
        r == json_number_at(payload@, key@),
{
    match serde_json::from_str::<serde_json::Value>(payload) {
        Ok(v) => match v.get(key) {
            Some(x) => x.is_number(),
            None => false,
        },
        Err(_) => false,
    }
}

/// The update that a `pt-app` message carries.
pub open spec fn app_update_of(p: Seq<char>) -> AppUpdateView {
    AppUpdateView {
        sound: json_bool_at(p, "sound"@),
        sound_name: json_str_at(p, "soundName"@),
        title: if json_has(p, "title"@) {
            Some(json_str_at(p, "title"@))
        } else {
            None
        },
        visible: json_bool_at(p, "visible"@),
        badge: if json_has(p, "badge"@) {
            Some(json_i64_at(p, "badge"@))
        } else {
            None
        },
    }
}

/// The timer state that a `pt-timer` message carries, with the end time and
/// the paused remainder already taken from its numbers.
pub open spec fn timer_update_of(p: Seq<char>, end_ms: i64, paused_rem: i64) -> TimerUpdate {
    TimerUpdate {
        active: json_bool_at(p, "active"@),
        end_ms,
        paused_rem,
        paused: json_bool_at(p, "paused"@),
        tray: json_bool_at(p, "tray"@),
    }
}

/// Reads the update of a `pt-app` message.
pub fn app_update(payload: &str) -> (r: AppUpdate)
    ensures
        r@ == app_update_of(payload@),
{
    let title = if json_key(payload, "title") {
        Some(json_str(payload, "title"))
    } else {
        None
    };
    let badge = if json_key(payload, "badge") {
        Some(json_i64(payload, "badge"))
    } else {
        None
    };
    AppUpdate {
        sound: json_bool(payload, "sound"),
        sound_name: json_str(payload, "soundName"),
        title,
        visible: json_bool(payload, "visible"),
        badge,
    }
}

/// Decides how to open the link of a `pt-open` message: the addresses to
/// try, in order, stopping at the first that opens; nothing for a message
/// that is not JSON.
pub fn open_external(payload: &str) -> (r: Vec<String>)
    ensures
        !json_valid(payload@) ==> r@.len() == 0,
        json_valid(payload@) ==> texts(r@) == open_targets(json_str_at(payload@, "url"@)),
{
    if !parse_ok(payload) {
        return Vec::new();
    }
    let url = json_str(payload, "url");
    match url {
        Some(u) => link_targets(Some(u.as_str())),
        None => link_targets(None),
    }
}

impl Shell {
    /// Applies a `pt-app` message from the planner; one that is not JSON
    /// changes nothing.
    pub fn apply_pt(&mut self, payload: &str, win: &Windows) -> (r: Vec<Action>)
        ensures
            !json_valid(payload@) ==> final(self)@ == old(self)@ && r@.len() == 0,
            json_valid(payload@) ==> (final(self)@, plan(r@)) == apply_pt_step(
                old(self)@,
                app_update_of(payload@),
                *win,
            ),
    {
        if !parse_ok(payload) {
            return Vec::new();
        }
        let u = app_update(payload);
        self.apply_update(&u, win)
    }

    /// Shows the reminder of a `pt-notif` message (or of a snoozed one).
    pub fn show_notif_box(&mut self, win: &Windows, payload: &str) -> (r: Vec<Action>)
        ensures
            (final(self)@, plan(r@)) == show_notif_step(old(self)@, *win, json_valid(payload@)),
    {
        let is_json = parse_ok(payload);
        self.show_notif(win, is_json)
    }

    /// Receives a `pt-timer` message; `end_ms` and `paused_rem` are its
    /// `endTs` (in milliseconds) and `remaining` (in seconds), as whole
    /// numbers. One that is not JSON changes nothing.
    pub fn on_timer_message(&mut self, payload: &str, end_ms: i64, paused_rem: i64, win: &Windows) -> (r: Vec<Action>)
        ensures
            !json_valid(payload@) ==> final(self)@ == old(self)@ && r@.len() == 0,
            json_valid(payload@) ==> (final(self)@, plan(r@)) == timer_update_step(
                old(self)@,
                timer_update_of(payload@, end_ms, paused_rem),
                *win,
            ),
    {
        if !parse_ok(payload) {
            return Vec::new();
        }
        let ev = TimerUpdate {
            active: json_bool(payload, "active"),
            end_ms,
            paused_rem,
            paused: json_bool(payload, "paused"),
            tray: json_bool(payload, "tray"),
        };
        self.on_timer_update(&ev, win)
    }

    /// Carries out a `pt-timer-action` message from the timer window; one
    /// that is not JSON changes nothing.
    pub fn on_timer_action_message(&mut self, payload: &str, win: &Windows) -> (r: Vec<Action>)
        ensures
            !json_valid(payload@) ==> final(self)@ == old(self)@ && r@.len() == 0,
            json_valid(payload@) ==> (final(self)@, plan(r@)) == timer_action_step(
                old(self)@,
                command_of(
                    json_str_at(payload@, "a"@),
                    json_number_at(payload@, "h"@),
                    json_bool_at(payload@, "on"@),
                ),
                *win,
            ),
    {
        if !parse_ok(payload) {
            return Vec::new();
        }
        let kind = json_str(payload, "a");
        let has_height = json_number(payload, "h");
        let on = json_bool(payload, "on");
        let cmd = match &kind {
            Some(k) => timer_command(Some(k.as_str()), has_height, on),
            None => timer_command(None, has_height, on),
        };
        self.on_timer_action(cmd, win)
    }
}

} // verus!
