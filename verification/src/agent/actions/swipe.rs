//! Swipe and scroll.

use vstd::prelude::*;
use crate::agent::actions::base::{description_of, fault_of, kind_name, validated};
use crate::agent::actions::touch::MAX_COORDINATE;
use crate::agent::engine::traits::{opt_text, ActionError, ActionView};
use crate::text::{chars_of, push_decimal, push_text, string_of};

verus! {

/// A swipe between two points of the logical screen.
#[derive(Debug, Clone, PartialEq, Eq)]
pub struct SwipeAction {
    pub start_x: u32,
    pub start_y: u32,
    pub end_x: u32,
    pub end_y: u32,
    pub duration_ms: u32,
    pub description: Option<String>,
}

impl View for SwipeAction {
    type V = ActionView;

    open spec fn view(&self) -> ActionView {
        ActionView::Swipe {
            start_x: self.start_x,
            start_y: self.start_y,
            end_x: self.end_x,
            end_y: self.end_y,
            duration_ms: self.duration_ms,
            description: opt_text(self.description),
        }
    }
}

impl SwipeAction {
    pub fn action_type(&self) -> (r: String)
        ensures
            r@ == kind_name(self@),
    {
        "swipe".to_owned()
    }

    /// Accepts the swipe if all four coordinates are at most 10000 and the
    /// duration lies between 50 and 5000 ms. An out-of-bounds error names
    /// the larger of the two x and of the two y.
    pub fn validate(&self) -> (r: Result<(), ActionError>)
        ensures
            validated(r, self@),
    {
        if self.start_x > MAX_COORDINATE || self.start_y > MAX_COORDINATE || self.end_x
            > MAX_COORDINATE || self.end_y > MAX_COORDINATE {
            let x = if self.start_x >= self.end_x {
                self.start_x
            } else {
                self.end_x
            };
            let y = if self.start_y >= self.end_y {
                self.start_y
            } else {
                self.end_y
            };
            return Err(ActionError::OutOfBounds { x, y });
        }
        if self.duration_ms < 50 {
            return Err(ActionError::DurationTooShort(self.duration_ms));
        }
        if self.duration_ms > 5000 {
            return Err(ActionError::DurationTooLong(self.duration_ms));
        }
        Ok(())
    }

    pub fn description(&self) -> (r: String)
        ensures
            r@ == description_of(self@),
    {
        match &self.description {
            Some(d) => d.clone(),
            None => {
                let mut v = chars_of("滑动 from (");
                push_decimal(&mut v, self.start_x as u64);
                push_text(&mut v, ",");
                push_decimal(&mut v, self.start_y as u64);
                push_text(&mut v, ") to (");
                push_decimal(&mut v, self.end_x as u64);
                push_text(&mut v, ",");
                push_decimal(&mut v, self.end_y as u64);
                push_text(&mut v, ") ");
                push_decimal(&mut v, self.duration_ms as u64);
                push_text(&mut v, "ms");
                string_of(v.as_slice())
            },
        }
    }
}

/// The way a scroll moves.
#[derive(Debug, Clone, Copy, PartialEq, Eq)]
pub enum ScrollDirection {
    Up,
    Down,
    Left,
    Right,
}

impl ScrollDirection {
    /// The name of the direction.
    pub open spec fn name(self) -> Seq<char> {
        match self {
            ScrollDirection::Up => "Up"@,
            ScrollDirection::Down => "Down"@,
            ScrollDirection::Left => "Left"@,
            ScrollDirection::Right => "Right"@,
        }
    }

    /// The name of the direction.
    pub fn as_str(&self) -> (r: &'static str)
        ensures
            r@ == self.name(),
    {
        match self {
            ScrollDirection::Up => "Up",
            ScrollDirection::Down => "Down",
            ScrollDirection::Left => "Left",
            ScrollDirection::Right => "Right",
        }
    }
}

/// A scroll: a swipe along one axis over the middle half of the screen.
#[derive(Debug, Clone, PartialEq, Eq)]
pub struct ScrollAction {
    pub direction: ScrollDirection,
    pub distance_pct: u32,
    pub duration_ms: u32,
    pub description: Option<String>,
}

impl View for ScrollAction {
    type V = ActionView;

    open spec fn view(&self) -> ActionView {
        ActionView::Scroll {
            direction: self.direction,
            distance_pct: self.distance_pct,
            duration_ms: self.duration_ms,
            description: opt_text(self.description),
        }
    }
}

/// The swipe that a scroll makes on a screen of the given size: it starts
/// and ends on the middle line of the other axis, and runs between the
/// quarter and the three-quarter mark.
pub open spec fn scroll_swipe(direction: ScrollDirection, width: u32, height: u32) -> (
    u32,
    u32,
    u32,
    u32,
) {
    match direction {
        ScrollDirection::Up => (
            (width / 2) as u32,
            (height * 3 / 4) as u32,
            (width / 2) as u32,
            (height / 4) as u32,
        ),
        ScrollDirection::Down => (
            (width / 2) as u32,
            (height / 4) as u32,
            (width / 2) as u32,
            (height * 3 / 4) as u32,
        ),
        ScrollDirection::Left => (
            (width * 3 / 4) as u32,
            (height / 2) as u32,
            (width / 4) as u32,
            (height / 2) as u32,
        ),
        ScrollDirection::Right => (
            (width / 4) as u32,
            (height / 2) as u32,
            (width * 3 / 4) as u32,
            (height / 2) as u32,
        ),
    }
}

fn three_quarters(n: u32) -> (r: u32)
    ensures
        r == n * 3 / 4,
{
    let wide: u64 = n as u64 * 3 / 4;
    wide as u32
}

impl ScrollAction {
    pub fn action_type(&self) -> (r: String)
        ensures
            r@ == kind_name(self@),
    {
        "scroll".to_owned()
    }

    /// Accepts the scroll if the distance lies between 1 and 100 percent
    /// and the duration between 50 and 2000 ms.
    pub fn validate(&self) -> (r: Result<(), ActionError>)
        ensures
            validated(r, self@),
    {
        if self.distance_pct > 100 {
            return Err(ActionError::InvalidParameters("距离百分比不能超过100".to_owned()));
        }
        if self.distance_pct < 1 {
            return Err(ActionError::InvalidParameters("距离百分比不能小于1".to_owned()));
        }
        if self.duration_ms < 50 {
            return Err(ActionError::DurationTooShort(self.duration_ms));
        }
        if self.duration_ms > 2000 {
            return Err(ActionError::DurationTooLong(self.duration_ms));
        }
        Ok(())
    }

    pub fn description(&self) -> (r: String)
        ensures
            r@ == description_of(self@),
    {
        match &self.description {
            Some(d) => d.clone(),
            None => {
                let mut v = chars_of("滚动 ");
                push_text(&mut v, self.direction.as_str());
                push_text(&mut v, " ");
                push_decimal(&mut v, self.distance_pct as u64);
                push_text(&mut v, "% ");
                push_decimal(&mut v, self.duration_ms as u64);
                push_text(&mut v, "ms");
                string_of(v.as_slice())
            },
        }
    }

    /// The start and end point of the swipe that performs this scroll on a
    /// screen of the given size.
    pub fn swipe_points(&self, width: u32, height: u32) -> (r: (u32, u32, u32, u32))
        ensures
            r == scroll_swipe(self.direction, width, height),
    {
        match self.direction {
            ScrollDirection::Up => (width / 2, three_quarters(height), width / 2, height / 4),
            ScrollDirection::Down => (width / 2, height / 4, width / 2, three_quarters(height)),
            ScrollDirection::Left => (three_quarters(width), height / 2, width / 4, height / 2),
            ScrollDirection::Right => (width / 4, height / 2, three_quarters(width), height / 2),
        }
    }
}

} // verus!
