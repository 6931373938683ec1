//! Text input and key presses.

use vstd::prelude::*;
use crate::agent::actions::base::{description_of, fault_of, kind_name, validated};
use crate::agent::engine::traits::{opt_text, ActionError, ActionView};
use crate::text::concat2;

verus! {

/// The largest number of bytes of text that validation accepts.
pub const MAX_TEXT_BYTES: usize = 10000;

/// Text typed into the focused input field.
#[derive(Debug, Clone, PartialEq, Eq)]
pub struct TypeAction {
    pub text: String,
    pub description: Option<String>,
}

impl View for TypeAction {
    type V = ActionView;

    open spec fn view(&self) -> ActionView {
        ActionView::Type { text: self.text@, description: opt_text(self.description) }
    }
}

impl TypeAction {
    pub fn action_type(&self) -> (r: String)
        ensures
            r@ == kind_name(self@),
    {
        "type".to_owned()
    }

    /// Accepts the text if it is not empty and its UTF-8 encoding has at
    /// most 10000 bytes.
    pub fn validate(&self) -> (r: Result<(), ActionError>)
        ensures
            validated(r, self@),
    {
        if self.text.as_str().is_empty() {
            return Err(ActionError::InvalidParameters("文本不能为空".to_owned()));
        }
        if self.text.as_str().as_bytes().len() > MAX_TEXT_BYTES {
            return Err(ActionError::InvalidParameters("文本过长".to_owned()));
        }
        Ok(())
    }

    pub fn description(&self) -> (r: String)
        ensures
            r@ == description_of(self@),
    {
        match &self.description {
            Some(d) => d.clone(),
            None => concat2("输入文本: ", self.text.as_str()),
        }
    }
}

/// The keys an agent may press.
#[derive(Debug, Clone, Copy, PartialEq, Eq)]
pub enum KeyCode {
    Enter,
    Escape,
    Delete,
    Backspace,
    Tab,
    Home,
    Back,
    VolumeUp,
    VolumeDown,
    Power,
    Camera,
}

impl KeyCode {
    /// The Android key code of each key.
    pub open spec fn android_keycode(self) -> u32 {
        match self {
            KeyCode::Enter => 66,
            KeyCode::Escape => 111,
            KeyCode::Delete => 67,
            KeyCode::Backspace => 67,
            KeyCode::Tab => 61,
            KeyCode::Home => 3,
            KeyCode::Back => 4,
            KeyCode::VolumeUp => 24,
            KeyCode::VolumeDown => 25,
            KeyCode::Power => 26,
            KeyCode::Camera => 27,
        }
    }

    /// The key that an Android key code stands for; an unknown code stands
    /// for the back key.
    pub open spec fn of_android(code: u64) -> KeyCode {
        if code == 3 {
            KeyCode::Home
        } else if code == 66 {
            KeyCode::Enter
        } else if code == 111 {
            KeyCode::Escape
        } else if code == 67 {
            KeyCode::Delete
        } else if code == 61 {
            KeyCode::Tab
        } else if code == 24 {
            KeyCode::VolumeUp
        } else if code == 25 {
            KeyCode::VolumeDown
        } else if code == 26 {
            KeyCode::Power
        } else if code == 27 {
            KeyCode::Camera
        } else {
            KeyCode::Back
        }
    }

    /// The name of the key.
    pub open spec fn name(self) -> Seq<char> {
        match self {
            KeyCode::Enter => "Enter"@,
            KeyCode::Escape => "Escape"@,
            KeyCode::Delete => "Delete"@,
            KeyCode::Backspace => "Backspace"@,
            KeyCode::Tab => "Tab"@,
            KeyCode::Home => "Home"@,
            KeyCode::Back => "Back"@,
            KeyCode::VolumeUp => "VolumeUp"@,
            KeyCode::VolumeDown => "VolumeDown"@,
            KeyCode::Power => "Power"@,
            KeyCode::Camera => "Camera"@,
        }
    }

    /// The Android key code of this key.
    pub fn to_android_keycode(&self) -> (code: u32)
        ensures
            code == self.android_keycode(),
    {
        match self {
            KeyCode::Enter => 66,
            KeyCode::Escape => 111,
            KeyCode::Delete => 67,
            KeyCode::Backspace => 67,
            KeyCode::Tab => 61,
            KeyCode::Home => 3,
            KeyCode::Back => 4,
            KeyCode::VolumeUp => 24,
            KeyCode::VolumeDown => 25,
            KeyCode::Power => 26,
            KeyCode::Camera => 27,
        }
    }

    /// The key that an Android key code stands for.
    pub fn from_android_keycode(code: u64) -> (key: KeyCode)
        ensures
            key == KeyCode::of_android(code),
    {
        if code == 3 {
            KeyCode::Home
        } else if code == 66 {
            KeyCode::Enter
        } else if code == 111 {
            KeyCode::Escape
        } else if code == 67 {
            KeyCode::Delete
        } else if code == 61 {
            KeyCode::Tab
        } else if code == 24 {
            KeyCode::VolumeUp
        } else if code == 25 {
            KeyCode::VolumeDown
        } else if code == 26 {
            KeyCode::Power
        } else if code == 27 {
            KeyCode::Camera
        } else {
            KeyCode::Back
        }
    }

    /// The name of the key.
    pub fn as_str(&self) -> (r: &'static str)
        ensures
            r@ == self.name(),
    {
        match self {
            KeyCode::Enter => "Enter",
            KeyCode::Escape => "Escape",
            KeyCode::Delete => "Delete",
            KeyCode::Backspace => "Backspace",
            KeyCode::Tab => "Tab",
            KeyCode::Home => "Home",
            KeyCode::Back => "Back",
            KeyCode::VolumeUp => "VolumeUp",
            KeyCode::VolumeDown => "VolumeDown",
            KeyCode::Power => "Power",
            KeyCode::Camera => "Camera",
        }
    }
}

/// One press of a key.
#[derive(Debug, Clone, PartialEq, Eq)]
pub struct PressKeyAction {
    pub keycode: KeyCode,
    pub description: Option<String>,
}

impl View for PressKeyAction {
    type V = ActionView;

    open spec fn view(&self) -> ActionView {
        ActionView::PressKey { keycode: self.keycode, description: opt_text(self.description) }
    }
}

impl PressKeyAction {
    pub fn action_type(&self) -> (r: String)
        ensures
            r@ == kind_name(self@),
    {
        "press_key".to_owned()
    }

    /// Every key press is acceptable.
    pub fn validate(&self) -> (r: Result<(), ActionError>)
        ensures
            validated(r, self@),
    {
        Ok(())
    }

    pub fn description(&self) -> (r: String)
        ensures
            r@ == description_of(self@),
    {
        match &self.description {
            Some(d) => d.clone(),
            None => concat2("按键: ", self.keycode.as_str()),
        }
    }
}

} // verus!
