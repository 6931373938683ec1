//! Tap, long press and double tap.

use vstd::prelude::*;
use crate::agent::actions::base::{description_of, fault_of, kind_name, validated};
use crate::agent::engine::traits::{opt_text, ActionError, ActionView};
use crate::text::{chars_of, push_decimal, push_text, string_of};

verus! {

/// The largest coordinate that validation accepts.
pub const MAX_COORDINATE: u32 = 10000;

/// A tap at a point of the logical screen.
#[derive(Debug, Clone, PartialEq, Eq)]
pub struct TapAction {
    pub x: u32,
    pub y: u32,
    pub description: Option<String>,
}

impl View for TapAction {
    type V = ActionView;

    open spec fn view(&self) -> ActionView {
        ActionView::Tap { x: self.x, y: self.y, description: opt_text(self.description) }
    }
}

impl TapAction {
    pub fn action_type(&self) -> (r: String)
        ensures
            r@ == kind_name(self@),
    {
        "tap".to_owned()
    }

    /// Accepts the tap if both coordinates are at most 10000.
    pub fn validate(&self) -> (r: Result<(), ActionError>)
        ensures
            validated(r, self@),
    {
        if self.x > MAX_COORDINATE || self.y > MAX_COORDINATE {
            return Err(ActionError::OutOfBounds { x: self.x, y: self.y });
        }
        Ok(())
    }

    pub fn description(&self) -> (r: String)
        ensures
            r@ == description_of(self@),
    {
        match &self.description {
            Some(d) => d.clone(),
            None => {
                let mut v = chars_of("点击 (");
                push_decimal(&mut v, self.x as u64);
                push_text(&mut v, ", ");
                push_decimal(&mut v, self.y as u64);
                push_text(&mut v, ")");
                string_of(v.as_slice())
            },
        }
    }
}

/// A press held for `duration_ms` at a point of the logical screen.
#[derive(Debug, Clone, PartialEq, Eq)]
pub struct LongPressAction {
    pub x: u32,
    pub y: u32,
    pub duration_ms: u32,
    pub description: Option<String>,
}

impl View for LongPressAction {
    type V = ActionView;

    open spec fn view(&self) -> ActionView {
        ActionView::LongPress {
            x: self.x,
            y: self.y,
            duration_ms: self.duration_ms,
            description: opt_text(self.description),
        }
    }
}

impl LongPressAction {
    pub fn action_type(&self) -> (r: String)
        ensures
            r@ == kind_name(self@),
    {
        "long_press".to_owned()
    }

    /// Accepts the press if both coordinates are at most 10000 and the
    /// duration lies between 100 and 10000 ms.
    pub fn validate(&self) -> (r: Result<(), ActionError>)
        ensures
            validated(r, self@),
    {
        if self.x > MAX_COORDINATE || self.y > MAX_COORDINATE {
            return Err(ActionError::OutOfBounds { x: self.x, y: self.y });
        }
        if self.duration_ms < 100 {
            return Err(ActionError::DurationTooShort(self.duration_ms));
        }
        if self.duration_ms > 10000 {
            return Err(ActionError::DurationTooLong(self.duration_ms));
        }
        Ok(())
    }

    pub fn description(&self) -> (r: String)
        ensures
            r@ == description_of(self@),
    {
        match &self.description {
            Some(d) => d.clone(),
            None => {
                let mut v = chars_of("长按 (");
                push_decimal(&mut v, self.x as u64);
                push_text(&mut v, ", ");
                push_decimal(&mut v, self.y as u64);
                push_text(&mut v, ") ");
                push_decimal(&mut v, self.duration_ms as u64);
                push_text(&mut v, "ms");
                string_of(v.as_slice())
            },
        }
    }
}

/// Two taps in quick succession at a point of the logical screen.
#[derive(Debug, Clone, PartialEq, Eq)]
pub struct DoubleTapAction {
    pub x: u32,
    pub y: u32,
    pub description: Option<String>,
}

impl View for DoubleTapAction {
    type V = ActionView;

    open spec fn view(&self) -> ActionView {
        ActionView::DoubleTap { x: self.x, y: self.y, description: opt_text(self.description) }
    }
}

impl DoubleTapAction {
    pub fn action_type(&self) -> (r: String)
        ensures
            r@ == kind_name(self@),
    {
        "double_tap".to_owned()
    }

    /// Accepts the double tap if both coordinates are at most 10000.
    pub fn validate(&self) -> (r: Result<(), ActionError>)
        ensures
            validated(r, self@),
    {
        if self.x > MAX_COORDINATE || self.y > MAX_COORDINATE {
            return Err(ActionError::OutOfBounds { x: self.x, y: self.y });
        }
        Ok(())
    }

    pub fn description(&self) -> (r: String)
        ensures
            r@ == description_of(self@),
    {
        match &self.description {
            Some(d) => d.clone(),
            None => {
                let mut v = chars_of("双击 (");
                push_decimal(&mut v, self.x as u64);
                push_text(&mut v, ", ");
                push_decimal(&mut v, self.y as u64);
                push_text(&mut v, ")");
                string_of(v.as_slice())
            },
        }
    }
}

} // verus!
