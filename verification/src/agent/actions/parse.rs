//! Reading actions out of what a model wrote.
//!
//! A response may hold one `finish(...)` call or any number of `do(...)`
//! calls. The first `finish(` wins over every `do(`. Inside `do(...)`,
//! `action=` names the kind of action in double quotes and the remaining
//! `key=value` pairs are its parameters: double-quoted strings, bracketed
//! lists of integers, or bare integers.

use vstd::prelude::*;
use crate::agent::actions::base::{fault_of, kind_name, ActionEnum};
use crate::agent::actions::input::{KeyCode, PressKeyAction, TypeAction};
use crate::agent::actions::navigation::{BackAction, HomeAction, NotificationAction, RecentAction};
use crate::agent::actions::swipe::{ScrollAction, ScrollDirection, SwipeAction};
use crate::agent::actions::system::{
    app_name_to_package, package_for, FinishAction, LaunchAction, ScreenshotAction, WaitAction,
};
use crate::agent::actions::touch::{DoubleTapAction, LongPressAction, TapAction};
use crate::agent::engine::traits::{
    opt_text, ActionView, ParamValue, ParamView, Params, ParsedAction,
};
use crate::outside::{captures_all, regex_captures};
use crate::text::{
    begins_with, chars_of, find_char_from, find_from, first_char_index, first_index,
    lemma_first_index, lowercase, matches_at, parse_u32, parse_u64, same_text, slice_chars,
    string_of, to_lowercase, trim_bounds, trim_char_bounds, trimmed, trimmed_of, unsigned_of,
};

verus! {

/// The name of an action's kind as the library writes it: lower case, with
/// the spellings without an underscore taken for the ones with it.
pub open spec fn normalized(name: Seq<char>) -> Seq<char> {
    normalized_lowered(lowercase(name))
}

/// The name of an action's kind as the library writes it, given the name
/// in lower case: the spellings without an underscore are taken for the
/// ones with it.
pub open spec fn normalized_lowered(l: Seq<char>) -> Seq<char> {
    if l == "doubletap"@ {
        "double_tap"@
    } else if l == "longpress"@ {
        "long_press"@
    } else if l == "type_name"@ {
        "type"@
    } else if l == "presskey"@ {
        "press_key"@
    } else {
        l
    }
}

/// The name of an action's kind as the library writes it.
pub fn normalize_action_type(action_type: &str) -> (r: String)
    ensures
        r@ == normalized(action_type@),
{
    normalize_lowered(to_lowercase(action_type))
}

/// The name of an action's kind as the library writes it, given the name
/// in lower case.
pub fn normalize_lowered(l: String) -> (r: String)
    ensures
        r@ == normalized_lowered(l@),
{
    if same_text(l.as_str(), "doubletap") {
        "double_tap".to_owned()
    } else if same_text(l.as_str(), "longpress") {
        "long_press".to_owned()
    } else if same_text(l.as_str(), "type_name") {
        "type".to_owned()
    } else if same_text(l.as_str(), "presskey") {
        "press_key".to_owned()
    } else {
        l
    }
}

/// The integer that `key` holds, if it holds one.
pub open spec fn int_of(p: Map<Seq<char>, ParamView>, key: Seq<char>) -> Option<u64> {
    if p.contains_key(key) {
        match p[key] {
            ParamView::Int(n) => Some(n),
            _ => None,
        }
    } else {
        None
    }
}

/// The text that `key` holds, if it holds one.
pub open spec fn text_of(p: Map<Seq<char>, ParamView>, key: Seq<char>) -> Option<Seq<char>> {
    if p.contains_key(key) {
        match p[key] {
            ParamView::Text(t) => Some(t),
            _ => None,
        }
    } else {
        None
    }
}

/// The list that `key` holds, if it holds one.
pub open spec fn list_of(p: Map<Seq<char>, ParamView>, key: Seq<char>) -> Option<
    Seq<Option<u64>>,
> {
    if p.contains_key(key) {
        match p[key] {
            ParamView::List(l) => Some(l),
            _ => None,
        }
    } else {
        None
    }
}

/// The truth value that `key` holds, if it holds one.
pub open spec fn bool_of(p: Map<Seq<char>, ParamView>, key: Seq<char>) -> Option<bool> {
    if p.contains_key(key) {
        match p[key] {
            ParamView::Bool(b) => Some(b),
            _ => None,
        }
    } else {
        None
    }
}

/// `n` where it fits 32 bits, else the largest 32-bit value, so that a
/// number too large for a field stays too large for validation.
pub open spec fn clamp32(n: nat) -> u32 {
    if n > u32::MAX {
        u32::MAX
    } else {
        n as u32
    }
}

/// A point given either as a list of at least two elements under
/// `list_key`, or as two integers under `x_key` and `y_key`. Of such a
/// list the first two elements are read, and there is no point where one
/// of them is no integer; what follows them is not looked at.
pub open spec fn point_of(
    p: Map<Seq<char>, ParamView>,
    list_key: Seq<char>,
    x_key: Seq<char>,
    y_key: Seq<char>,
) -> Option<(u32, u32)> {
    if list_of(p, list_key) is Some && list_of(p, list_key)->0.len() >= 2 {
        let l = list_of(p, list_key)->0;
        match (l[0], l[1]) {
            (Some(x), Some(y)) => Some((clamp32(x as nat), clamp32(y as nat))),
            _ => None,
        }
    } else if int_of(p, x_key) is Some && int_of(p, y_key) is Some {
        Some((clamp32(int_of(p, x_key)->0 as nat), clamp32(int_of(p, y_key)->0 as nat)))
    } else {
        None
    }
}

/// The duration under `key` in milliseconds, or `default` where `key`
/// holds no integer.
pub open spec fn duration_or(p: Map<Seq<char>, ParamView>, key: Seq<char>, default: u32) -> u32 {
    match int_of(p, key) {
        Some(n) => clamp32(n as nat),
        None => default,
    }
}

/// The number of seconds under `duration`: an integer, or a text that
/// `str::parse` reads as one.
pub open spec fn seconds_of(p: Map<Seq<char>, ParamView>) -> Option<nat> {
    if p.contains_key("duration"@) {
        match p["duration"@] {
            ParamView::Int(n) => Some(n as nat),
            ParamView::Text(t) => unsigned_of(t, u64::MAX as nat),
            _ => None,
        }
    } else {
        None
    }
}

/// How long a wait lasts, in milliseconds: `duration_ms` where it is
/// given, else a thousand times `duration`, else one second.
pub open spec fn wait_duration(p: Map<Seq<char>, ParamView>) -> u32 {
    match int_of(p, "duration_ms"@) {
        Some(n) => clamp32(n as nat),
        None => match seconds_of(p) {
            Some(s) => clamp32(s * 1000),
            None => 1000,
        },
    }
}

/// The direction that a text names, in any case of letters.
pub open spec fn direction_named(t: Seq<char>) -> Option<ScrollDirection> {
    direction_lowered(lowercase(t))
}

/// The direction that a text in lower case names.
pub open spec fn direction_lowered(l: Seq<char>) -> Option<ScrollDirection> {
    if l == "up"@ {
        Some(ScrollDirection::Up)
    } else if l == "down"@ {
        Some(ScrollDirection::Down)
    } else if l == "left"@ {
        Some(ScrollDirection::Left)
    } else if l == "right"@ {
        Some(ScrollDirection::Right)
    } else {
        None
    }
}

/// The app to launch: the package that `app` or else `app_name` stands
/// for, where one of them is given, which fails for an unknown alias; else
/// the text under `package` as it is.
pub open spec fn launch_package(p: Map<Seq<char>, ParamView>) -> Option<Seq<char>> {
    if text_of(p, "app"@) is Some {
        package_for(text_of(p, "app"@)->0)
    } else if text_of(p, "app_name"@) is Some {
        package_for(text_of(p, "app_name"@)->0)
    } else {
        text_of(p, "package"@)
    }
}

/// The first of the texts under `first` and `second`.
pub open spec fn text_of_either(
    p: Map<Seq<char>, ParamView>,
    first: Seq<char>,
    second: Seq<char>,
) -> Option<Seq<char>> {
    if text_of(p, first) is Some {
        text_of(p, first)
    } else {
        text_of(p, second)
    }
}

/// The direction of a scroll: the one that the text under `direction`
/// names, in any case of letters.
pub open spec fn scroll_direction(p: Map<Seq<char>, ParamView>) -> Option<ScrollDirection> {
    match text_of(p, "direction"@) {
        Some(t) => direction_named(t),
        None => None,
    }
}

/// The action that a kind's name and a set of parameters stand for, before
/// validation. None where the name is unknown or a parameter that the
/// kind requires is missing. No description is set.
pub open spec fn action_from(name: Seq<char>, p: Map<Seq<char>, ParamView>) -> Option<ActionView> {
    action_resolved(normalized(name), p, scroll_direction(p), launch_package(p))
}

/// The action that a kind and a set of parameters stand for, before
/// validation, where the kind is written as the library writes it, and
/// the direction of a scroll and the package of a launch have been
/// worked out: `direction` and `package` say what they are, if the
/// parameters give them. None where the kind is unknown or a parameter
/// that the kind requires is missing. No description is set.
pub open spec fn action_resolved(
    n: Seq<char>,
    p: Map<Seq<char>, ParamView>,
    direction: Option<ScrollDirection>,
    package: Option<Seq<char>>,
) -> Option<ActionView> {
    if n == "tap"@ {
        match point_of(p, "element"@, "x"@, "y"@) {
            Some(pt) => Some(ActionView::Tap { x: pt.0, y: pt.1, description: None }),
            None => None,
        }
    } else if n == "long_press"@ {
        match point_of(p, "element"@, "x"@, "y"@) {
            Some(pt) => Some(
                ActionView::LongPress {
                    x: pt.0,
                    y: pt.1,
                    duration_ms: duration_or(p, "duration_ms"@, 1000),
                    description: None,
                },
            ),
            None => None,
        }
    } else if n == "double_tap"@ {
        match point_of(p, "element"@, "x"@, "y"@) {
            Some(pt) => Some(ActionView::DoubleTap { x: pt.0, y: pt.1, description: None }),
            None => None,
        }
    } else if n == "swipe"@ {
        match (
            point_of(p, "start"@, "start_x"@, "start_y"@),
            point_of(p, "end"@, "end_x"@, "end_y"@),
        ) {
            (Some(a), Some(b)) => Some(
                ActionView::Swipe {
                    start_x: a.0,
                    start_y: a.1,
                    end_x: b.0,
                    end_y: b.1,
                    duration_ms: duration_or(p, "duration_ms"@, 500),
                    description: None,
                },
            ),
            _ => None,
        }
    } else if n == "scroll"@ {
        if direction is Some && int_of(p, "distance_pct"@) is Some && int_of(p, "duration_ms"@)
            is Some {
            Some(
                ActionView::Scroll {
                    direction: direction->0,
                    distance_pct: clamp32(int_of(p, "distance_pct"@)->0 as nat),
                    duration_ms: clamp32(int_of(p, "duration_ms"@)->0 as nat),
                    description: None,
                },
            )
        } else {
            None
        }
    } else if n == "type"@ {
        match text_of(p, "text"@) {
            Some(t) => Some(ActionView::Type { text: t, description: None }),
            None => None,
        }
    } else if n == "press_key"@ {
        match int_of(p, "keycode"@) {
            Some(c) => Some(
                ActionView::PressKey { keycode: KeyCode::of_android(c), description: None },
            ),
            None => None,
        }
    } else if n == "back"@ {
        Some(ActionView::Back { description: None })
    } else if n == "home"@ {
        Some(ActionView::Home { description: None })
    } else if n == "recent"@ {
        Some(ActionView::Recent { description: None })
    } else if n == "notification"@ {
        Some(ActionView::Notification { description: None })
    } else if n == "launch"@ {
        match package {
            Some(name) => Some(
                ActionView::Launch { package: name, activity: None, description: None },
            ),
            None => None,
        }
    } else if n == "wait"@ {
        Some(
            ActionView::Wait {
                duration_ms: wait_duration(p),
                reason: text_of_either(p, "reason"@, "message"@),
            },
        )
    } else if n == "screenshot"@ {
        Some(ActionView::Screenshot { description: None })
    } else if n == "finish"@ {
        Some(
            ActionView::Finish {
                result: match text_of_either(p, "result"@, "message"@) {
                    Some(t) => t,
                    None => "任务完成"@,
                },
                success: match bool_of(p, "success"@) {
                    Some(b) => b,
                    None => true,
                },
            },
        )
    } else {
        None
    }
}

/// The value of an optional action.
pub open spec fn opt_action(a: Option<ActionEnum>) -> Option<ActionView> {
    match a {
        Some(x) => Some(x@),
        None => None,
    }
}

fn int_param(p: &Params, key: &str) -> (r: Option<u64>)
    ensures
        r == int_of(p@, key@),
{
    match p.get(key) {
        Some(ParamValue::Int(n)) => Some(*n),
        _ => None,
    }
}

fn text_param(p: &Params, key: &str) -> (r: Option<String>)
    ensures
        opt_text(r) == text_of(p@, key@),
{
    match p.get(key) {
        Some(ParamValue::Text(t)) => Some(t.clone()),
        _ => None,
    }
}

fn bool_param(p: &Params, key: &str) -> (r: Option<bool>)
    ensures
        r == bool_of(p@, key@),
{
    match p.get(key) {
        Some(ParamValue::Bool(b)) => Some(*b),
        _ => None,
    }
}

fn clamp(n: u64) -> (r: u32)
    ensures
        r == clamp32(n as nat),
{
    if n > 0xffff_ffff {
        0xffff_ffff
    } else {
        n as u32
    }
}

fn point_param(p: &Params, list_key: &str, x_key: &str, y_key: &str) -> (r: Option<(u32, u32)>)
    ensures
        r == point_of(p@, list_key@, x_key@, y_key@),
{
    match p.get(list_key) {
        Some(ParamValue::List(l)) => {
            if l.len() >= 2 {
                return match (l[0], l[1]) {
                    (Some(x), Some(y)) => Some((clamp(x), clamp(y))),
                    _ => None,
                };
            }
        },
        _ => {},
    }
    match (int_param(p, x_key), int_param(p, y_key)) {
        (Some(x), Some(y)) => Some((clamp(x), clamp(y))),
        _ => None,
    }
}

fn duration_param(p: &Params, key: &str, default: u32) -> (r: u32)
    ensures
        r == duration_or(p@, key@, default),
{
    match int_param(p, key) {
        Some(n) => clamp(n),
        None => default,
    }
}

fn seconds_param(p: &Params) -> (r: Option<u64>)
    ensures
        match r {
            Some(n) => seconds_of(p@) == Some(n as nat),
            None => seconds_of(p@) is None,
        },
{
    match p.get("duration") {
        Some(ParamValue::Int(n)) => Some(*n),
        Some(ParamValue::Text(t)) => {
            let v = chars_of(t.as_str());
            parse_u64(v.as_slice())
        },
        _ => None,
    }
}

fn wait_duration_param(p: &Params) -> (r: u32)
    ensures
        r == wait_duration(p@),
{
    match int_param(p, "duration_ms") {
        Some(n) => clamp(n),
        None => match seconds_param(p) {
            Some(s) => if s > 4_294_967 {
                0xffff_ffff
            } else {
                (s * 1000) as u32
            },
            None => 1000,
        },
    }
}

/// The direction that a text in lower case names.
pub fn direction_of_lowered(l: &str) -> (r: Option<ScrollDirection>)
    ensures
        r == direction_lowered(l@),
{
    if same_text(l, "up") {
        Some(ScrollDirection::Up)
    } else if same_text(l, "down") {
        Some(ScrollDirection::Down)
    } else if same_text(l, "left") {
        Some(ScrollDirection::Left)
    } else if same_text(l, "right") {
        Some(ScrollDirection::Right)
    } else {
        None
    }
}

fn direction_param(p: &Params) -> (r: Option<ScrollDirection>)
    ensures
        r == scroll_direction(p@),
{
    match text_param(p, "direction") {
        Some(t) => {
            let l = to_lowercase(t.as_str());
            direction_of_lowered(l.as_str())
        },
        None => None,
    }
}

fn launch_package_param(p: &Params) -> (r: Option<String>)
    ensures
        opt_text(r) == launch_package(p@),
{
    match text_param(p, "app") {
        Some(app) => app_name_to_package(app.as_str()),
        None => match text_param(p, "app_name") {
            Some(app) => app_name_to_package(app.as_str()),
            None => text_param(p, "package"),
        },
    }
}

fn either_text_param(p: &Params, first: &str, second: &str) -> (r: Option<String>)
    ensures
        opt_text(r) == text_of_either(p@, first@, second@),
{
    match text_param(p, first) {
        Some(t) => Some(t),
        None => text_param(p, second),
    }
}

impl ActionEnum {
    /// The action that a parsed operation stands for, before validation:
    /// none where the kind is unknown or a required parameter is missing.
    pub fn from_parsed(parsed: ParsedAction) -> (r: Option<Self>)
        ensures
            opt_action(r) == action_from(parsed.action_type@, parsed.parameters@),
    {
        let name = normalize_action_type(parsed.action_type.as_str());
        let direction = direction_param(&parsed.parameters);
        let package = launch_package_param(&parsed.parameters);
        Self::from_resolved(name.as_str(), &parsed.parameters, direction, package)
    }

    /// The action that a kind and a set of parameters stand for, before
    /// validation, where the kind is written as the library writes it,
    /// and `direction` and `package` are the direction of a scroll and
    /// the package of a launch, as far as the parameters give them: none
    /// where the kind is unknown or a required parameter is missing.
    pub fn from_resolved(
        n: &str,
        p: &Params,
        direction: Option<ScrollDirection>,
        package: Option<String>,
    ) -> (r: Option<Self>)
        ensures
            opt_action(r) == action_resolved(n@, p@, direction, opt_text(package)),
    {
        if same_text(n, "tap") {
            match point_param(p, "element", "x", "y") {
                Some(pt) => Some(ActionEnum::Tap(TapAction { x: pt.0, y: pt.1, description: None })),
                None => None,
            }
        } else if same_text(n, "long_press") {
            match point_param(p, "element", "x", "y") {
                Some(pt) => Some(
                    ActionEnum::LongPress(
                        LongPressAction {
                            x: pt.0,
                            y: pt.1,
                            duration_ms: duration_param(p, "duration_ms", 1000),
                            description: None,
                        },
                    ),
                ),
                None => None,
            }
        } else if same_text(n, "double_tap") {
            match point_param(p, "element", "x", "y") {
                Some(pt) => Some(
                    ActionEnum::DoubleTap(DoubleTapAction { x: pt.0, y: pt.1, description: None }),
                ),
                None => None,
            }
        } else if same_text(n, "swipe") {
            match (
                point_param(p, "start", "start_x", "start_y"),
                point_param(p, "end", "end_x", "end_y"),
            ) {
                (Some(a), Some(b)) => Some(
                    ActionEnum::Swipe(
                        SwipeAction {
                            start_x: a.0,
                            start_y: a.1,
                            end_x: b.0,
                            end_y: b.1,
                            duration_ms: duration_param(p, "duration_ms", 500),
                            description: None,
                        },
                    ),
                ),
                _ => None,
            }
        } else if same_text(n, "scroll") {
            match (direction, int_param(p, "distance_pct"), int_param(p, "duration_ms")) {
                (Some(d), Some(pct), Some(ms)) => Some(
                    ActionEnum::Scroll(
                        ScrollAction {
                            direction: d,
                            distance_pct: clamp(pct),
                            duration_ms: clamp(ms),
                            description: None,
                        },
                    ),
                ),
                _ => None,
            }
        } else if same_text(n, "type") {
            match text_param(p, "text") {
                Some(t) => Some(ActionEnum::Type(TypeAction { text: t, description: None })),
                None => None,
            }
        } else if same_text(n, "press_key") {
            match int_param(p, "keycode") {
                Some(c) => Some(
                    ActionEnum::PressKey(
                        PressKeyAction {
                            keycode: KeyCode::from_android_keycode(c),
                            description: None,
                        },
                    ),
                ),
                None => None,
            }
        } else if same_text(n, "back") {
            Some(ActionEnum::Back(BackAction { description: None }))
        } else if same_text(n, "home") {
            Some(ActionEnum::Home(HomeAction { description: None }))
        } else if same_text(n, "recent") {
            Some(ActionEnum::Recent(RecentAction { description: None }))
        } else if same_text(n, "notification") {
            Some(ActionEnum::Notification(NotificationAction { description: None }))
        } else if same_text(n, "launch") {
            match package {
                Some(name) => Some(
                    ActionEnum::Launch(
                        LaunchAction { package: name, activity: None, description: None },
                    ),
                ),
                None => None,
            }
        } else if same_text(n, "wait") {
            Some(
                ActionEnum::Wait(
                    WaitAction {
                        duration_ms: wait_duration_param(p),
                        reason: either_text_param(p, "reason", "message"),
                    },
                ),
            )
        } else if same_text(n, "screenshot") {
            Some(ActionEnum::Screenshot(ScreenshotAction { description: None }))
        } else if same_text(n, "finish") {
            let result = match either_text_param(p, "result", "message") {
                Some(t) => t,
                None => "任务完成".to_owned(),
            };
            let success = match bool_param(p, "success") {
                Some(b) => b,
                None => true,
            };
            Some(ActionEnum::Finish(FinishAction { result, success }))
        } else {
            None
        }
    }
}

/// For every kind's name and every set of parameters: where they stand
/// for an action, that action is of the kind named.
pub proof fn lemma_action_kind(name: Seq<char>, p: Map<Seq<char>, ParamView>)
    ensures
        action_from(name, p) matches Some(a) ==> kind_name(a) == normalized(name),
{
}

/// The pattern of a reasoning block.
pub const THINKING_PATTERN: &'static str = r"<thinking>([^<]*)</thinking>";

/// The pattern of the pair that names the kind of action.
pub const ACTION_PATTERN: &'static str = r#"action\s*=\s*"([^"]+)""#;

/// The pattern of a pair whose value is a double-quoted string.
pub const QUOTED_PATTERN: &'static str = r#"(\w+)\s*=\s*"([^"]*)""#;

/// The pattern of a pair whose value is a bracketed list.
pub const LIST_PATTERN: &'static str = r#"(\w+)\s*=\s*\[([^\]]+)\]"#;

/// The pattern of a pair whose value is a bare integer.
pub const NUMBER_PATTERN: &'static str = r#"(\w+)\s*=\s*(\d+)"#;

/// Capture group `i` of one match.
pub open spec fn group(m: Seq<Option<Seq<char>>>, i: int) -> Option<Seq<char>> {
    if 0 <= i < m.len() {
        m[i]
    } else {
        None
    }
}

/// The matches that were found, or none where the pattern was refused.
pub open spec fn found(r: Option<Seq<Seq<Option<Seq<char>>>>>) -> Seq<Seq<Option<Seq<char>>>> {
    match r {
        Some(ms) => ms,
        None => Seq::empty(),
    }
}

/// The first capture group of the first match, if there is one.
pub open spec fn first_capture(ms: Seq<Seq<Option<Seq<char>>>>) -> Option<Seq<char>> {
    if ms.len() > 0 {
        group(ms[0], 1)
    } else {
        None
    }
}

/// The reasoning that a response gives: the inside of its first reasoning
/// block, trimmed.
pub open spec fn thinking_in(ms: Seq<Seq<Option<Seq<char>>>>) -> Option<Seq<char>> {
    match first_capture(ms) {
        Some(t) => Some(trimmed(t)),
        None => None,
    }
}

/// The integers of a comma-separated list, from index `from` on: each
/// piece is trimmed and read by `str::parse::<u32>`; pieces that are no
/// such integer are left out.
pub open spec fn list_items(s: Seq<char>, from: int) -> Seq<u64>
    decreases s.len() - from,
{
    let i = first_char_index(s, ',', from);
    if from < 0 || from > s.len() {
        Seq::empty()
    } else if i < from || i >= s.len() {
        item_of(s.subrange(from, s.len() as int))
    } else {
        item_of(s.subrange(from, i)) + list_items(s, i + 1)
    }
}

/// A list of integers as the elements of a parameter list.
pub open spec fn all_integers(items: Seq<u64>) -> Seq<Option<u64>> {
    items.map_values(|n: u64| Some(n))
}

/// The integer that one piece of a list holds, as a list of one or none.
pub open spec fn item_of(piece: Seq<char>) -> Seq<u64> {
    match unsigned_of(trimmed(piece), u32::MAX as nat) {
        Some(n) => seq![n as u64],
        None => Seq::empty(),
    }
}

/// What a bare integer stands for: the integer where it fits 64 bits,
/// else its digits as text.
pub open spec fn number_value(digits: Seq<char>) -> ParamView {
    match unsigned_of(digits, u64::MAX as nat) {
        Some(n) => ParamView::Int(n as u64),
        None => ParamView::Text(digits),
    }
}

/// The parameters after one quoted pair: the pair is added as text unless
/// its key is `action`.
pub open spec fn quoted_step(acc: Map<Seq<char>, ParamView>, m: Seq<Option<Seq<char>>>) -> Map<
    Seq<char>,
    ParamView,
> {
    if group(m, 1) is Some && group(m, 2) is Some && group(m, 1)->0 != "action"@ {
        acc.insert(group(m, 1)->0, ParamView::Text(group(m, 2)->0))
    } else {
        acc
    }
}

/// The parameters after one list pair: the pair is added unless its key
/// is `action` or its list holds no integer.
pub open spec fn list_step(acc: Map<Seq<char>, ParamView>, m: Seq<Option<Seq<char>>>) -> Map<
    Seq<char>,
    ParamView,
> {
    if group(m, 1) is Some && group(m, 2) is Some && group(m, 1)->0 != "action"@ && list_items(
        group(m, 2)->0,
        0,
    ).len() > 0 {
        acc.insert(group(m, 1)->0, ParamView::List(all_integers(list_items(group(m, 2)->0, 0))))
    } else {
        acc
    }
}

/// The parameters after one bare-integer pair: the pair is added unless
/// its key is `action` or already has a value.
pub open spec fn number_step(acc: Map<Seq<char>, ParamView>, m: Seq<Option<Seq<char>>>) -> Map<
    Seq<char>,
    ParamView,
> {
    if group(m, 1) is Some && group(m, 2) is Some && group(m, 1)->0 != "action"@
        && !acc.contains_key(group(m, 1)->0) {
        acc.insert(group(m, 1)->0, number_value(group(m, 2)->0))
    } else {
        acc
    }
}

/// The three ways a pair can be written.
pub enum PairForm {
    Quoted,
    List,
    Number,
}

/// The parameters after one pair of the given form.
pub open spec fn pair_step(
    form: PairForm,
    acc: Map<Seq<char>, ParamView>,
    m: Seq<Option<Seq<char>>>,
) -> Map<Seq<char>, ParamView> {
    match form {
        PairForm::Quoted => quoted_step(acc, m),
        PairForm::List => list_step(acc, m),
        PairForm::Number => number_step(acc, m),
    }
}

/// The parameters after all the pairs of one form, taken in order.
pub open spec fn pairs_added(
    form: PairForm,
    ms: Seq<Seq<Option<Seq<char>>>>,
    base: Map<Seq<char>, ParamView>,
) -> Map<Seq<char>, ParamView>
    decreases ms.len(),
{
    if ms.len() == 0 {
        base
    } else {
        pair_step(form, pairs_added(form, ms.drop_last(), base), ms.last())
    }
}

/// The parameters of a `do(...)` body: the quoted pairs, then the list
/// pairs, then the bare integers that name no key already set.
pub open spec fn params_from(
    quoted: Seq<Seq<Option<Seq<char>>>>,
    lists: Seq<Seq<Option<Seq<char>>>>,
    numbers: Seq<Seq<Option<Seq<char>>>>,
) -> Map<Seq<char>, ParamView> {
    pairs_added(
        PairForm::Number,
        numbers,
        pairs_added(PairForm::List, lists, pairs_added(PairForm::Quoted, quoted, Map::empty())),
    )
}

/// An action where it passes validation, else none.
pub open spec fn accepted(a: Option<ActionView>) -> Option<ActionView> {
    match a {
        Some(x) => if fault_of(x) is None {
            Some(x)
        } else {
            None
        },
        None => None,
    }
}

/// The action of a `do(...)` body, given what the four patterns matched in
/// it: none without a quoted `action=`; else the action that the name and
/// the parameters stand for, where it passes validation.
pub open spec fn do_action_from(
    action: Seq<Seq<Option<Seq<char>>>>,
    quoted: Seq<Seq<Option<Seq<char>>>>,
    lists: Seq<Seq<Option<Seq<char>>>>,
    numbers: Seq<Seq<Option<Seq<char>>>>,
) -> Option<ActionView> {
    match first_capture(action) {
        Some(name) => accepted(action_from(name, params_from(quoted, lists, numbers))),
        None => None,
    }
}

/// The action of a `do(...)` body.
pub open spec fn do_action_of(body: Seq<char>) -> Option<ActionView> {
    do_action_from(
        found(regex_captures(ACTION_PATTERN@, body)),
        found(regex_captures(QUOTED_PATTERN@, body)),
        found(regex_captures(LIST_PATTERN@, body)),
        found(regex_captures(NUMBER_PATTERN@, body)),
    )
}

/// The index of the `)` that closes the bracket opened at or after `i`,
/// where `depth` brackets are open before `i`; -1 where there is none.
pub open spec fn closing_paren(s: Seq<char>, i: int, depth: int) -> int
    decreases s.len() - i,
{
    if i < 0 || i >= s.len() {
        -1
    } else if s[i] == '(' {
        closing_paren(s, i + 1, depth + 1)
    } else if s[i] == ')' {
        if depth == 1 {
            i
        } else {
            closing_paren(s, i + 1, depth - 1)
        }
    } else {
        closing_paren(s, i + 1, depth)
    }
}

/// The text `finish(`.
pub open spec fn finish_marker() -> Seq<char> {
    seq!['f', 'i', 'n', 'i', 's', 'h', '(']
}

/// The text `do(`.
pub open spec fn do_marker() -> Seq<char> {
    seq!['d', 'o', '(']
}

/// The text `message=`.
pub open spec fn message_prefix() -> Seq<char> {
    seq!['m', 'e', 's', 's', 'a', 'g', 'e', '=']
}

/// The message of a `finish(...)` call, given what stands between its
/// brackets: trimmed, without a leading `message=`, and without double and
/// then single quotes at both ends.
pub open spec fn finish_message(inner: Seq<char>) -> Seq<char> {
    let t = trimmed(inner);
    let body = if begins_with(t, message_prefix()) {
        t.subrange(8, t.len() as int)
    } else {
        t
    };
    trimmed_of(trimmed_of(body, '"'), '\'')
}

/// The message of the first `finish(` of a response, where it holds one.
/// The inside of the call ends at the `)` that closes its bracket; where
/// none does, it is the rest of the response.
pub open spec fn finish_in(content: Seq<char>) -> Option<Seq<char>> {
    let start = first_index(content, finish_marker(), 0);
    let end = closing_paren(content, start + 6, 0);
    if start < 0 {
        None
    } else if end < 0 {
        Some(finish_message(content.subrange(start + 7, content.len() as int)))
    } else {
        Some(finish_message(content.subrange(start + 7, end)))
    }
}

/// The actions of the `do(...)` calls of a response from index `from` on,
/// in the order of the text. A call whose body gives no accepted action is
/// left out; the scan ends at a `do(` whose bracket is not closed.
pub open spec fn do_actions(content: Seq<char>, from: int) -> Seq<ActionView>
    decreases content.len() - from,
{
    let start = first_index(content, do_marker(), from);
    let end = closing_paren(content, start + 2, 0);
    if from < 0 || start < from || end <= start || end >= content.len() {
        Seq::empty()
    } else {
        let rest = do_actions(content, end + 1);
        match do_action_of(trimmed(content.subrange(start + 3, end))) {
            Some(a) => seq![a] + rest,
            None => rest,
        }
    }
}

/// The actions of a response: the finish action alone where the response
/// holds `finish(`, else the actions of its `do(...)` calls.
pub open spec fn response_actions(content: Seq<char>) -> Seq<ActionView> {
    match finish_in(content) {
        Some(message) => seq![ActionView::Finish { result: message, success: true }],
        None => do_actions(content, 0),
    }
}

/// The values of a list of actions.
pub open spec fn action_views(actions: Seq<ActionEnum>) -> Seq<ActionView> {
    Seq::new(actions.len(), |i: int| actions[i]@)
}

/// All the matches of `pattern` in `text`, each with its capture groups.
pub fn matches_of(pattern: &str, text: &str) -> (r: Vec<Vec<Option<String>>>)
    ensures
        r.deep_view() == found(regex_captures(pattern@, text@)),
{
    match captures_all(pattern, text) {
        Some(ms) => ms,
        None => {
            let empty: Vec<Vec<Option<String>>> = Vec::new();
            proof {
                assert(empty.deep_view() =~= Seq::<Seq<Option<Seq<char>>>>::empty());
            }
            empty
        },
    }
}

/// The reasoning of a response, given the matches of the reasoning
/// pattern in it.
pub fn thinking_of(ms: &Vec<Vec<Option<String>>>) -> (r: Option<String>)
    ensures
        opt_text(r) == thinking_in(ms.deep_view()),
{
    if ms.len() == 0 {
        return None;
    }
    let m = &ms[0];
    if m.len() < 2 {
        return None;
    }
    match &m[1] {
        Some(t) => {
            let v = chars_of(t.as_str());
            let (a, b) = trim_bounds(v.as_slice(), 0, v.len());
            proof {
                assert(v@.subrange(0, v@.len() as int) =~= v@);
            }
            let inner = slice_chars(v.as_slice(), a, b);
            Some(string_of(inner.as_slice()))
        },
        None => None,
    }
}

fn push_item(out: &mut Vec<u64>, s: &[char], lo: usize, hi: usize)
    requires
        lo <= hi <= s@.len(),
    ensures
        final(out)@ == old(out)@ + item_of(s@.subrange(lo as int, hi as int)),
{
    let (a, b) = trim_bounds(s, lo, hi);
    let piece = slice_chars(s, a, b);
    match parse_u32(piece.as_slice()) {
        Some(n) => {
            out.push(n as u64);
            proof {
                assert(out@ =~= old(out)@ + seq![n as u64]);
            }
        },
        None => {
            proof {
                assert(out@ =~= old(out)@ + Seq::<u64>::empty());
            }
        },
    }
}

/// The integers of a comma-separated list.
pub fn list_values(s: &[char]) -> (r: Vec<u64>)
    ensures
        r@ == list_items(s@, 0),
{
    let mut out: Vec<u64> = Vec::new();
    let mut from: usize = 0;
    let n: usize = s.len();
    proof {
        assert(list_items(s@, 0) =~= out@ + list_items(s@, 0));
    }
    loop
        invariant
            n == s@.len(),
            from <= s@.len(),
            list_items(s@, 0) == out@ + list_items(s@, from as int),
        decreases s@.len() - from,
    {
        let ghost before = out@;
        match find_char_from(s, ',', from) {
            Some(i) => {
                push_item(&mut out, s, from, i);
                proof {
                    let piece = item_of(s@.subrange(from as int, i as int));
                    assert(before + (piece + list_items(s@, i + 1)) =~= (before + piece)
                        + list_items(s@, i + 1));
                }
                from = i + 1;
            },
            None => {
                push_item(&mut out, s, from, s.len());
                return out;
            },
        }
    }
}

fn number_of(digits: &str) -> (r: ParamValue)
    ensures
        r@ == number_value(digits@),
{
    let v = chars_of(digits);
    match parse_u64(v.as_slice()) {
        Some(n) => ParamValue::Int(n),
        None => ParamValue::Text(digits.to_owned()),
    }
}

/// A list of integers as the elements of a parameter list.
pub fn elements_of(values: &Vec<u64>) -> (r: Vec<Option<u64>>)
    ensures
        r@ == all_integers(values@),
{
    let mut out: Vec<Option<u64>> = Vec::new();
    let mut i: usize = 0;
    while i < values.len()
        invariant
            i <= values@.len(),
            out@.len() == i,
            forall|j: int| 0 <= j < i ==> out@[j] == Some(values@[j]),
        decreases values@.len() - i,
    {
        out.push(Some(values[i]));
        i += 1;
    }
    proof {
        assert(out@ =~= all_integers(values@));
    }
    out
}

/// Adds to `params` the pairs of one form that a pattern matched, in
/// order.
pub fn add_pairs(form: PairForm, ms: &Vec<Vec<Option<String>>>, params: &mut Params)
    ensures
        final(params)@ == pairs_added(form, ms.deep_view(), old(params)@),
{
    let ghost base = params@;
    let ghost all = ms.deep_view();
    let mut i: usize = 0;
    proof {
        assert(all.take(0) =~= Seq::<Seq<Option<Seq<char>>>>::empty());
    }
    while i < ms.len()
        invariant
            i <= ms@.len(),
            all == ms.deep_view(),
            params@ == pairs_added(form, all.take(i as int), base),
        decreases ms@.len() - i,
    {
        let m = &ms[i];
        proof {
            assert(all.take(i + 1).drop_last() =~= all.take(i as int));
            assert(all.take(i + 1).last() == m.deep_view());
        }
        if m.len() > 2 {
            match (&m[1], &m[2]) {
                (Some(k), Some(v)) => {
                    proof {
                        assert(group(m.deep_view(), 1) == Some(k@));
                        assert(group(m.deep_view(), 2) == Some(v@));
                    }
                    if !same_text(k.as_str(), "action") {
                        match form {
                            PairForm::Quoted => {
                                params.insert(k.clone(), ParamValue::Text(v.clone()));
                            },
                            PairForm::List => {
                                let text = chars_of(v.as_str());
                                let values = list_values(text.as_slice());
                                if values.len() > 0 {
                                    params.insert(k.clone(), ParamValue::List(elements_of(&values)));
                                }
                            },
                            PairForm::Number => {
                                if !params.contains_key(k.as_str()) {
                                    params.insert(k.clone(), number_of(v.as_str()));
                                }
                            },
                        }
                    }
                },
                _ => {
                    proof {
                        assert(group(m.deep_view(), 1) is None || group(m.deep_view(), 2) is None);
                    }
                },
            }
        }
        i += 1;
    }
    proof {
        assert(all.take(all.len() as int) =~= all);
    }
}

fn first_group(ms: &Vec<Vec<Option<String>>>) -> (r: Option<String>)
    ensures
        opt_text(r) == first_capture(ms.deep_view()),
{
    if ms.len() == 0 {
        return None;
    }
    let m = &ms[0];
    if m.len() < 2 {
        return None;
    }
    match &m[1] {
        Some(t) => Some(t.clone()),
        None => None,
    }
}

/// The index of the `)` that closes the `(` at `open`.
pub fn find_closing(s: &[char], open: usize) -> (r: Option<usize>)
    requires
        open < s@.len(),
        s@[open as int] == '(',
    ensures
        match r {
            Some(e) => e as int == closing_paren(s@, open as int, 0) && open < e < s@.len(),
            None => closing_paren(s@, open as int, 0) == -1,
        },
{
    let n: usize = s.len();
    let mut depth: usize = 1;
    let mut i: usize = open + 1;
    while i < s.len()
        invariant
            n == s@.len(),
            open < i <= s@.len(),
            1 <= depth <= i - open,
            closing_paren(s@, open as int, 0) == closing_paren(s@, i as int, depth as int),
        decreases s@.len() - i,
    {
        let c = s[i];
        if c == '(' {
            depth += 1;
        } else if c == ')' {
            if depth == 1 {
                return Some(i);
            }
            depth -= 1;
        }
        i += 1;
    }
    None
}

/// The message of a `finish(...)` call whose inside is `s[lo..hi]`.
pub fn finish_message_of(s: &[char], lo: usize, hi: usize) -> (r: String)
    requires
        lo <= hi <= s@.len(),
    ensures
        r@ == finish_message(s@.subrange(lo as int, hi as int)),
{
    let (a, b) = trim_bounds(s, lo, hi);
    let t = slice_chars(s, a, b);
    let prefix = vec!['m', 'e', 's', 's', 'a', 'g', 'e', '='];
    proof {
        assert(prefix@ =~= message_prefix());
    }
    let from: usize = if matches_at(t.as_slice(), prefix.as_slice(), 0) {
        8
    } else {
        proof {
            assert(t@.subrange(0, t@.len() as int) =~= t@);
        }
        0
    };
    let (c, d) = trim_char_bounds(t.as_slice(), from, t.len(), '"');
    let (e, f) = trim_char_bounds(t.as_slice(), c, d, '\'');
    let message = slice_chars(t.as_slice(), e, f);
    string_of(message.as_slice())
}

impl ActionEnum {
    /// The action of a `do(...)` body, given what the four patterns
    /// matched in it.
    pub fn from_matches(
        action: &Vec<Vec<Option<String>>>,
        quoted: &Vec<Vec<Option<String>>>,
        lists: &Vec<Vec<Option<String>>>,
        numbers: &Vec<Vec<Option<String>>>,
        body: &str,
    ) -> (r: Option<Self>)
        ensures
            opt_action(r) == do_action_from(
                action.deep_view(),
                quoted.deep_view(),
                lists.deep_view(),
                numbers.deep_view(),
            ),
    {
        let name = match first_group(action) {
            Some(n) => n,
            None => {
                return None;
            },
        };
        let mut params = Params::new();
        add_pairs(PairForm::Quoted, quoted, &mut params);
        add_pairs(PairForm::List, lists, &mut params);
        add_pairs(PairForm::Number, numbers, &mut params);
        let parsed = ParsedAction {
            action_type: name,
            parameters: params,
            reasoning: body.to_owned(),
        };
        match Self::from_parsed(parsed) {
            Some(a) => match a.validate() {
                Ok(_) => Some(a),
                Err(_) => None,
            },
            None => None,
        }
    }

    /// The action of a `do(...)` body: none without a quoted `action=`,
    /// for an unknown kind, a missing parameter or a parameter that
    /// validation refuses.
    pub fn parse_do_params(params_str: &str) -> (r: Option<Self>)
        ensures
            opt_action(r) == do_action_of(params_str@),
    {
        let action = matches_of(ACTION_PATTERN, params_str);
        let quoted = matches_of(QUOTED_PATTERN, params_str);
        let lists = matches_of(LIST_PATTERN, params_str);
        let numbers = matches_of(NUMBER_PATTERN, params_str);
        Self::from_matches(&action, &quoted, &lists, &numbers, params_str)
    }

    /// The actions of the `do(...)` calls of a response, in the order of
    /// the text.
    pub fn scan_do_calls(content: &[char]) -> (r: Vec<Self>)
        ensures
            action_views(r@) == do_actions(content@, 0),
    {
        let marker = vec!['d', 'o', '('];
        proof {
            assert(marker@ =~= do_marker());
        }
        let mut out: Vec<Self> = Vec::new();
        let mut from: usize = 0;
        let n: usize = content.len();
        proof {
            assert(action_views(out@) + do_actions(content@, 0) =~= do_actions(content@, 0));
        }
        loop
            invariant
                n == content@.len(),
                from <= content@.len(),
                marker@ == do_marker(),
                do_actions(content@, 0) == action_views(out@) + do_actions(content@, from as int),
            decreases content@.len() - from,
        {
            let start = match find_from(content, marker.as_slice(), from) {
                Some(i) => i,
                None => {
                    proof {
                        assert(do_actions(content@, from as int) =~= Seq::<ActionView>::empty());
                        assert(action_views(out@) + Seq::<ActionView>::empty() =~= action_views(
                            out@,
                        ));
                    }
                    return out;
                },
            };
            proof {
                lemma_first_index(content@, marker@, from as int);
                assert(content@.subrange(start as int, start + 3)[2] == '(');
            }
            let end = match find_closing(content, start + 2) {
                Some(e) => e,
                None => {
                    proof {
                        assert(do_actions(content@, from as int) =~= Seq::<ActionView>::empty());
                        assert(action_views(out@) + Seq::<ActionView>::empty() =~= action_views(
                            out@,
                        ));
                    }
                    return out;
                },
            };
            let (a, b) = trim_bounds(content, start + 3, end);
            let body = slice_chars(content, a, b);
            let text = string_of(body.as_slice());
            let ghost before = out@;
            let ghost rest = do_actions(content@, end + 1);
            match Self::parse_do_params(text.as_str()) {
                Some(action) => {
                    out.push(action);
                    proof {
                        assert(action_views(out@) =~= action_views(before) + seq![action@]);
                        assert(action_views(before) + (seq![action@] + rest) =~= (action_views(
                            before,
                        ) + seq![action@]) + rest);
                    }
                },
                None => {},
            }
            from = end + 1;
        }
    }

    /// Reads a model's response: the reasoning of its first reasoning
    /// block, and its actions. Where the response holds `finish(`, the
    /// finish action of the first one is the only action, whatever `do(`
    /// the response holds; else the accepted `do(...)` calls, in order;
    /// none where neither is found.
    pub fn parse_from_response(content: &str) -> (r: (Option<String>, Vec<Self>))
        ensures
            opt_text(r.0) == thinking_in(found(regex_captures(THINKING_PATTERN@, content@))),
            action_views(r.1@) == response_actions(content@),
    {
        let blocks = matches_of(THINKING_PATTERN, content);
        let thinking = thinking_of(&blocks);
        let text = chars_of(content);
        let n: usize = text.len();
        let marker = vec!['f', 'i', 'n', 'i', 's', 'h', '('];
        proof {
            assert(marker@ =~= finish_marker());
        }
        match find_from(text.as_slice(), marker.as_slice(), 0) {
            Some(start) => {
                proof {
                    lemma_first_index(text@, marker@, 0);
                    assert(text@.subrange(start as int, start + 7)[6] == '(');
                }
                let end = match find_closing(text.as_slice(), start + 6) {
                    Some(end) => end,
                    None => n,
                };
                let message = finish_message_of(text.as_slice(), start + 7, end);
                let finish = ActionEnum::Finish(FinishAction { result: message, success: true });
                let actions = vec![finish];
                proof {
                    assert(action_views(actions@) =~= response_actions(content@));
                }
                (thinking, actions)
            },
            None => {
                let actions = Self::scan_do_calls(text.as_slice());
                (thinking, actions)
            },
        }
    }
}

/// Every action that the parser returns has passed validation.
pub proof fn lemma_parsed_actions_valid(content: Seq<char>, i: int)
    requires
        0 <= i < response_actions(content).len(),
    ensures
        fault_of(response_actions(content)[i]) is None,
{
    if finish_in(content) is None {
        lemma_do_actions_valid(content, 0, i);
    }
}

/// Every action of the `do(...)` calls has passed validation.
pub proof fn lemma_do_actions_valid(content: Seq<char>, from: int, i: int)
    requires
        0 <= i < do_actions(content, from).len(),
    ensures
        fault_of(do_actions(content, from)[i]) is None,
    decreases content.len() - from,
{
    let start = first_index(content, do_marker(), from);
    let end = closing_paren(content, start + 2, 0);
    let rest = do_actions(content, end + 1);
    match do_action_of(trimmed(content.subrange(start + 3, end))) {
        Some(a) => {
            if i > 0 {
                lemma_do_actions_valid(content, end + 1, i - 1);
            }
        },
        None => {
            lemma_do_actions_valid(content, end + 1, i);
        },
    }
}

/// Where a bracket is closed, it is closed within the text and after the
/// index at which the scan began.
pub proof fn lemma_closing_paren_bound(s: Seq<char>, i: int, depth: int)
    requires
        0 <= i,
    ensures
        closing_paren(s, i, depth) == -1 || i <= closing_paren(s, i, depth) < s.len(),
    decreases s.len() - i,
{
    if i < s.len() {
        if s[i] == '(' {
            lemma_closing_paren_bound(s, i + 1, depth + 1);
        } else if s[i] == ')' {
            if depth != 1 {
                lemma_closing_paren_bound(s, i + 1, depth - 1);
            }
        } else {
            lemma_closing_paren_bound(s, i + 1, depth);
        }
    }
}

/// The parameters that the body of a `do(...)` call gives.
pub open spec fn params_of(body: Seq<char>) -> Map<Seq<char>, ParamView> {
    params_from(
        found(regex_captures(QUOTED_PATTERN@, body)),
        found(regex_captures(LIST_PATTERN@, body)),
        found(regex_captures(NUMBER_PATTERN@, body)),
    )
}

/// An accepted `do(...)` call yields exactly one action, of the kind it
/// names. For every response without `finish(` that holds one `do(...)`
/// call: where the body of the call names a kind in a quoted `action=`,
/// in any case of letters or by an alias, and the kind and the
/// parameters of the body stand for an action that validation accepts,
/// the parser returns that action and no other, and the action is of the
/// kind named.
pub proof fn lemma_accepted_do_call(content: Seq<char>, name: Seq<char>, a: ActionView)
    requires
        first_index(content, finish_marker(), 0) < 0,
        first_index(content, do_marker(), 0) >= 0,
        closing_paren(content, first_index(content, do_marker(), 0) + 2, 0) >= 0,
        first_index(
            content,
            do_marker(),
            closing_paren(content, first_index(content, do_marker(), 0) + 2, 0) + 1,
        ) < 0,
        ({
            let start = first_index(content, do_marker(), 0);
            let end = closing_paren(content, start + 2, 0);
            let body = trimmed(content.subrange(start + 3, end));
            &&& first_capture(found(regex_captures(ACTION_PATTERN@, body))) == Some(name)
            &&& action_from(name, params_of(body)) == Some(a)
            &&& fault_of(a) is None
        }),
    ensures
        response_actions(content) == seq![a],
        kind_name(a) == normalized(name),
{
    let start = first_index(content, do_marker(), 0);
    let end = closing_paren(content, start + 2, 0);
    lemma_first_index(content, do_marker(), 0);
    assert(content.subrange(start, start + 3) == do_marker());
    assert(content[start + 2] == content.subrange(start, start + 3)[2]);
    assert(content[start + 2] == '(');
    assert(end == closing_paren(content, start + 3, 1));
    lemma_closing_paren_bound(content, start + 3, 1);
    let body = trimmed(content.subrange(start + 3, end));
    assert(do_action_of(body) == Some(a));
    assert(do_actions(content, end + 1) =~= Seq::<ActionView>::empty());
    assert(do_actions(content, 0) =~= seq![a] + do_actions(content, end + 1));
    assert(response_actions(content) =~= seq![a]);
    lemma_action_kind(name, params_of(body));
}

/// Where a response holds neither `finish(` nor `do(`, the parser returns
/// no action.
pub proof fn lemma_no_markers(content: Seq<char>)
    requires
        first_index(content, finish_marker(), 0) < 0,
        first_index(content, do_marker(), 0) < 0,
    ensures
        response_actions(content).len() == 0,
{
}

/// Where a response holds `finish(`, the parser returns exactly one
/// action, a finish, whatever `do(` the response holds.
pub proof fn lemma_finish_wins(content: Seq<char>)
    requires
        first_index(content, finish_marker(), 0) >= 0,
    ensures
        response_actions(content).len() == 1,
        response_actions(content)[0] is Finish,
        response_actions(content)[0]->Finish_success,
{
}

} // verus!
