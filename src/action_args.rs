//! Reading a browser action from the tool's JSON arguments.
use vstd::prelude::*;
use crate::browser::BrowserAction;
use crate::text::{owned, str_eq};

verus! {

/// `serde_json::Value`, carried through as an opaque value.
#[verifier::external_type_specification]
#[verifier::external_body]
pub struct ExJsonValue(serde_json::Value);

/// Relies on `serde_json::Value::get` with a string key: the field of that
/// name when the value is an object that has it.
#[verifier::external_body]
fn json_field<'a>(v: &'a serde_json::Value, key: &str) -> (r: Option<&'a serde_json::Value>) {
    v.get(key)
}

/// Relies on `serde_json::Value::as_str`: the text of a JSON string.
#[verifier::external_body]
fn json_as_str(v: &serde_json::Value) -> (r: Option<String>) {
    v.as_str().map(String::from)
}

/// Relies on `serde_json::Value::as_bool`: the value of a JSON boolean.
#[verifier::external_body]
fn json_as_bool(v: &serde_json::Value) -> (r: Option<bool>) {
    v.as_bool()
}

/// Relies on `serde_json::Value::as_u64`: a JSON number that fits in `u64`.
#[verifier::external_body]
fn json_as_u64(v: &serde_json::Value) -> (r: Option<u64>) {
    v.as_u64()
}

/// The argument fields that browser actions read.
#[derive(Debug, Clone)]
pub struct ActionFields {
    pub action: Option<String>,
    pub url: Option<String>,
    pub selector: Option<String>,
    pub value: Option<String>,
    pub text: Option<String>,
    pub key: Option<String>,
    pub direction: Option<String>,
    pub path: Option<String>,
    pub by: Option<String>,
    pub find_action: Option<String>,
    pub fill_value: Option<String>,
    pub interactive_only: Option<bool>,
    pub compact: Option<bool>,
    pub full_page: Option<bool>,
    pub depth: Option<u64>,
    pub pixels: Option<u64>,
    pub ms: Option<u64>,
}

/// Why the arguments name no runnable action.
#[derive(Debug, Clone)]
pub struct ActionArgsError {
    /// True when the action name is not one the tool knows; false when a
    /// required parameter is missing.
    pub unknown_action: bool,
    pub message: String,
}

fn text_field(args: &serde_json::Value, key: &str) -> Option<String> {
    match json_field(args, key) {
        Some(v) => json_as_str(v),
        None => None,
    }
}

fn bool_field(args: &serde_json::Value, key: &str) -> Option<bool> {
    match json_field(args, key) {
        Some(v) => json_as_bool(v),
        None => None,
    }
}

fn number_field(args: &serde_json::Value, key: &str) -> Option<u64> {
    match json_field(args, key) {
        Some(v) => json_as_u64(v),
        None => None,
    }
}

/// Reads the fields that browser actions use; fields of the wrong JSON type count as absent.
pub fn action_fields(args: &serde_json::Value) -> ActionFields {
    ActionFields {
        action: text_field(args, "action"),
        url: text_field(args, "url"),
        selector: text_field(args, "selector"),
        value: text_field(args, "value"),
        text: text_field(args, "text"),
        key: text_field(args, "key"),
        direction: text_field(args, "direction"),
        path: text_field(args, "path"),
        by: text_field(args, "by"),
        find_action: text_field(args, "find_action"),
        fill_value: text_field(args, "fill_value"),
        interactive_only: bool_field(args, "interactive_only"),
        compact: bool_field(args, "compact"),
        full_page: bool_field(args, "full_page"),
        depth: number_field(args, "depth"),
        pixels: number_field(args, "pixels"),
        ms: number_field(args, "ms"),
    }
}

/// A `u64` narrowed to `u32`, saturating.
pub open spec fn saturate(n: u64) -> u32 {
    if n > 0xffff_ffff { 0xffff_ffffu32 } else { n as u32 }
}

pub open spec fn missing(msg: Seq<char>) -> Result<BrowserAction, (bool, Seq<char>)> {
    Err((false, msg))
}

/// The action that the fields describe, or `(unknown_action, message)`.
pub open spec fn decode_action(f: ActionFields) -> Result<BrowserAction, (bool, Seq<char>)> {
    match f.action {
        None => missing("Missing 'action' parameter"@),
        Some(a) => {
            let a = a@;
            if a == "open"@ {
                match f.url { Some(u) => Ok(BrowserAction::Open { url: u }), None => missing("Missing 'url' for open action"@) }
            } else if a == "snapshot"@ {
                Ok(BrowserAction::Snapshot {
                    interactive_only: match f.interactive_only { Some(b) => b, None => true },
                    compact: match f.compact { Some(b) => b, None => true },
                    depth: match f.depth { Some(d) => Some(saturate(d)), None => None },
                })
            } else if a == "click"@ {
                match f.selector { Some(s) => Ok(BrowserAction::Click { selector: s }), None => missing("Missing 'selector' for click"@) }
            } else if a == "fill"@ {
                match (f.selector, f.value) {
                    (Some(s), Some(v)) => Ok(BrowserAction::Fill { selector: s, value: v }),
                    (None, _) => missing("Missing 'selector' for fill"@),
                    (_, None) => missing("Missing 'value' for fill"@),
                }
            } else if a == "type"@ {
                match (f.selector, f.text) {
                    (Some(s), Some(t)) => Ok(BrowserAction::Type { selector: s, text: t }),
                    (None, _) => missing("Missing 'selector' for type"@),
                    (_, None) => missing("Missing 'text' for type"@),
                }
            } else if a == "get_text"@ {
                match f.selector { Some(s) => Ok(BrowserAction::GetText { selector: s }), None => missing("Missing 'selector' for get_text"@) }
            } else if a == "get_title"@ {
                Ok(BrowserAction::GetTitle)
            } else if a == "get_url"@ {
                Ok(BrowserAction::GetUrl)
            } else if a == "screenshot"@ {
                Ok(BrowserAction::Screenshot {
                    path: f.path,
                    full_page: match f.full_page { Some(b) => b, None => false },
                })
            } else if a == "wait"@ {
                Ok(BrowserAction::Wait { selector: f.selector, ms: f.ms, text: f.text })
            } else if a == "press"@ {
                match f.key { Some(k) => Ok(BrowserAction::Press { key: k }), None => missing("Missing 'key' for press"@) }
            } else if a == "hover"@ {
                match f.selector { Some(s) => Ok(BrowserAction::Hover { selector: s }), None => missing("Missing 'selector' for hover"@) }
            } else if a == "scroll"@ {
                match f.direction {
                    Some(d) => Ok(BrowserAction::Scroll {
                        direction: d,
                        pixels: match f.pixels { Some(p) => Some(saturate(p)), None => None },
                    }),
                    None => missing("Missing 'direction' for scroll"@),
                }
            } else if a == "is_visible"@ {
                match f.selector { Some(s) => Ok(BrowserAction::IsVisible { selector: s }), None => missing("Missing 'selector' for is_visible"@) }
            } else if a == "close"@ {
                Ok(BrowserAction::Close)
            } else if a == "find"@ {
                match (f.by, f.value, f.find_action) {
                    (Some(b), Some(v), Some(fa)) => Ok(BrowserAction::Find { by: b, value: v, action: fa, fill_value: f.fill_value }),
                    (None, _, _) => missing("Missing 'by' for find"@),
                    (_, None, _) => missing("Missing 'value' for find"@),
                    (_, _, None) => missing("Missing 'find_action' for find"@),
                }
            } else {
                Err((true, "Unknown action: "@ + a))
            }
        },
    }
}

fn missing_error(msg: &str) -> (r: ActionArgsError)
    ensures
        !r.unknown_action,
        r.message@ == msg@,
{
    ActionArgsError { unknown_action: false, message: owned(msg) }
}

fn sat(n: u64) -> (r: u32)
    ensures
        r == saturate(n),
{
    if n > 0xffff_ffff { 0xffff_ffffu32 } else { n as u32 }
}

/// Builds the action that the fields describe.
pub fn action_from_fields(f: ActionFields) -> (r: Result<BrowserAction, ActionArgsError>)
    ensures
        match decode_action(f) {
            Ok(a) => r == Ok::<BrowserAction, ActionArgsError>(a),
            Err((u, m)) => r matches Err(e) && e.unknown_action == u && e.message@ == m,
        },
{
    let ActionFields {
        action, url, selector, value, text, key, direction, path, by, find_action, fill_value,
        interactive_only, compact, full_page, depth, pixels, ms,
    } = f;
    let a = match action {
        Some(a) => a,
        None => return Err(missing_error("Missing 'action' parameter")),
    };
    let s = a.as_str();
    if str_eq(s, "open") {
        match url { Some(u) => Ok(BrowserAction::Open { url: u }), None => Err(missing_error("Missing 'url' for open action")) }
    } else if str_eq(s, "snapshot") {
        Ok(BrowserAction::Snapshot {
            interactive_only: match interactive_only { Some(b) => b, None => true },
            compact: match compact { Some(b) => b, None => true },
            depth: match depth { Some(d) => Some(sat(d)), None => None },
        })
    } else if str_eq(s, "click") {
        match selector { Some(x) => Ok(BrowserAction::Click { selector: x }), None => Err(missing_error("Missing 'selector' for click")) }
    } else if str_eq(s, "fill") {
        match (selector, value) {
            (Some(x), Some(v)) => Ok(BrowserAction::Fill { selector: x, value: v }),
            (None, _) => Err(missing_error("Missing 'selector' for fill")),
            (_, None) => Err(missing_error("Missing 'value' for fill")),
        }
    } else if str_eq(s, "type") {
        match (selector, text) {
            (Some(x), Some(t)) => Ok(BrowserAction::Type { selector: x, text: t }),
            (None, _) => Err(missing_error("Missing 'selector' for type")),
            (_, None) => Err(missing_error("Missing 'text' for type")),
        }
    } else if str_eq(s, "get_text") {
        match selector { Some(x) => Ok(BrowserAction::GetText { selector: x }), None => Err(missing_error("Missing 'selector' for get_text")) }
    } else if str_eq(s, "get_title") {
        Ok(BrowserAction::GetTitle)
    } else if str_eq(s, "get_url") {
        Ok(BrowserAction::GetUrl)
    } else if str_eq(s, "screenshot") {
        Ok(BrowserAction::Screenshot { path, full_page: match full_page { Some(b) => b, None => false } })
    } else if str_eq(s, "wait") {
        Ok(BrowserAction::Wait { selector, ms, text })
    } else if str_eq(s, "press") {
        match key { Some(k) => Ok(BrowserAction::Press { key: k }), None => Err(missing_error("Missing 'key' for press")) }
    } else if str_eq(s, "hover") {
        match selector { Some(x) => Ok(BrowserAction::Hover { selector: x }), None => Err(missing_error("Missing 'selector' for hover")) }
    } else if str_eq(s, "scroll") {
        match direction {
            Some(d) => Ok(BrowserAction::Scroll { direction: d, pixels: match pixels { Some(p) => Some(sat(p)), None => None } }),
            None => Err(missing_error("Missing 'direction' for scroll")),
        }
    } else if str_eq(s, "is_visible") {
        match selector { Some(x) => Ok(BrowserAction::IsVisible { selector: x }), None => Err(missing_error("Missing 'selector' for is_visible")) }
    } else if str_eq(s, "close") {
        Ok(BrowserAction::Close)
    } else if str_eq(s, "find") {
        match (by, value, find_action) {
            (Some(b), Some(v), Some(fa)) => Ok(BrowserAction::Find { by: b, value: v, action: fa, fill_value }),
            (None, _, _) => Err(missing_error("Missing 'by' for find")),
            (_, None, _) => Err(missing_error("Missing 'value' for find")),
            (_, _, None) => Err(missing_error("Missing 'find_action' for find")),
        }
    } else {
        let mut m = owned("Unknown action: ");
        m.append(s);
        Err(ActionArgsError { unknown_action: true, message: m })
    }
}

/// Reads a browser action from JSON arguments.
pub fn parse_browser_action(args: &serde_json::Value) -> (r: Result<BrowserAction, ActionArgsError>) {
    action_from_fields(action_fields(args))
}

} // verus!
