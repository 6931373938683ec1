//! The error type shared by the whole library.

use vstd::prelude::*;
use crate::agent::engine::traits::{AgentError, ModelError};
use crate::text::concat2;

verus! {

/// Any failure that the library reports to its callers.
#[derive(Debug, Clone, PartialEq, Eq)]
pub enum AppError {
    /// No device with this serial is known.
    DeviceNotFound(String),
    /// The device already has a streaming session.
    DeviceAlreadyConnected(String),
    /// The device has no streaming session.
    DeviceNotConnected(String),
    /// An on-device command failed; the text is meant for the user.
    AdbError(String),
    /// A failure inside a streaming session.
    ScrcpyError(String),
    /// A failure of the operating system's input or output.
    IoError(String),
    /// Malformed JSON.
    JsonError(String),
    /// A lifecycle violation of an agent.
    AgentError(AgentError),
    /// A failure of the language model.
    ModelError(ModelError),
    /// Anything else.
    Unknown(String),
}

impl AppError {
    /// A copy of this error.
    pub fn copy(&self) -> (r: Self)
        ensures
            r == *self,
    {
        match self {
            AppError::DeviceNotFound(s) => AppError::DeviceNotFound(s.clone()),
            AppError::DeviceAlreadyConnected(s) => AppError::DeviceAlreadyConnected(s.clone()),
            AppError::DeviceNotConnected(s) => AppError::DeviceNotConnected(s.clone()),
            AppError::AdbError(s) => AppError::AdbError(s.clone()),
            AppError::ScrcpyError(s) => AppError::ScrcpyError(s.clone()),
            AppError::IoError(s) => AppError::IoError(s.clone()),
            AppError::JsonError(s) => AppError::JsonError(s.clone()),
            AppError::AgentError(e) => AppError::AgentError(e.copy()),
            AppError::ModelError(e) => AppError::ModelError(e.copy()),
            AppError::Unknown(s) => AppError::Unknown(s.clone()),
        }
    }

    /// The HTTP status code that stands for each kind of error.
    pub open spec fn status(self) -> u16 {
        match self {
            AppError::DeviceNotFound(_) => 404,
            AppError::DeviceAlreadyConnected(_) => 409,
            AppError::DeviceNotConnected(_) => 400,
            AppError::JsonError(_) => 400,
            _ => 500,
        }
    }

    /// The HTTP status code for this error.
    pub fn status_code(&self) -> (code: u16)
        ensures
            code == self.status(),
    {
        match self {
            AppError::DeviceNotFound(_) => 404,
            AppError::DeviceAlreadyConnected(_) => 409,
            AppError::DeviceNotConnected(_) => 400,
            AppError::AdbError(_) => 500,
            AppError::ScrcpyError(_) => 500,
            AppError::IoError(_) => 500,
            AppError::JsonError(_) => 400,
            AppError::AgentError(_) => 500,
            AppError::ModelError(_) => 500,
            AppError::Unknown(_) => 500,
        }
    }

    /// The text shown to the user for this error.
    pub open spec fn text(self) -> Seq<char> {
        match self {
            AppError::DeviceNotFound(s) => "设备未找到: "@ + s@,
            AppError::DeviceAlreadyConnected(s) => "设备已连接: "@ + s@,
            AppError::DeviceNotConnected(s) => "设备未连接: "@ + s@,
            AppError::AdbError(s) => "ADB 错误: "@ + s@,
            AppError::ScrcpyError(s) => "Scrcpy 错误: "@ + s@,
            AppError::IoError(s) => "IO 错误: "@ + s@,
            AppError::JsonError(s) => "JSON 错误: "@ + s@,
            AppError::AgentError(e) => e.text(),
            AppError::ModelError(e) => e.text(),
            AppError::Unknown(s) => "未知错误: "@ + s@,
        }
    }

    /// The text shown to the user for this error.
    pub fn message(&self) -> (r: String)
        ensures
            r@ == self.text(),
    {
        match self {
            AppError::DeviceNotFound(s) => concat2("设备未找到: ", s.as_str()),
            AppError::DeviceAlreadyConnected(s) => concat2("设备已连接: ", s.as_str()),
            AppError::DeviceNotConnected(s) => concat2("设备未连接: ", s.as_str()),
            AppError::AdbError(s) => concat2("ADB 错误: ", s.as_str()),
            AppError::ScrcpyError(s) => concat2("Scrcpy 错误: ", s.as_str()),
            AppError::IoError(s) => concat2("IO 错误: ", s.as_str()),
            AppError::JsonError(s) => concat2("JSON 错误: ", s.as_str()),
            AppError::AgentError(e) => e.message(),
            AppError::ModelError(e) => e.message(),
            AppError::Unknown(s) => concat2("未知错误: ", s.as_str()),
        }
    }
}

} // verus!
