//! The log of a device's streaming session: where it is kept and what a
//! line looks like. Writing is the caller's.

use vstd::prelude::*;
use crate::text::{chars_of, concat2, concat3, push_text, string_of};

verus! {

/// The severity of a line.
#[derive(Debug, Clone, Copy, PartialEq, Eq)]
pub enum LogLevel {
    Info,
    Warn,
    Error,
    Debug,
}

impl LogLevel {
    /// The tag of a level, five characters wide.
    pub open spec fn tag(self) -> Seq<char> {
        match self {
            LogLevel::Info => "INFO  "@,
            LogLevel::Warn => "WARN  "@,
            LogLevel::Error => "ERROR "@,
            LogLevel::Debug => "DEBUG "@,
        }
    }

    /// The tag of a level.
    pub fn as_tag(&self) -> (r: &'static str)
        ensures
            r@ == self.tag(),
    {
        match self {
            LogLevel::Info => "INFO  ",
            LogLevel::Warn => "WARN  ",
            LogLevel::Error => "ERROR ",
            LogLevel::Debug => "DEBUG ",
        }
    }
}

/// The log of one device.
#[derive(Debug, Clone, PartialEq, Eq)]
pub struct DeviceLogger {
    pub device_serial: String,
    pub log_path: String,
}

impl DeviceLogger {
    /// A line of the log: the time, the serial in brackets, the level and
    /// the message.
    pub open spec fn line_text(self, timestamp: Seq<char>, level: LogLevel, message: Seq<char>) -> Seq<
        char,
    > {
        timestamp + " ["@ + self.device_serial@ + "] "@ + level.tag() + message + "\n"@
    }

    /// The log of a device, kept in `logs/ws_<serial>.log`.
    pub fn new(device_serial: &str) -> (r: Self)
        ensures
            r.device_serial@ == device_serial@,
            r.log_path@ == "logs/ws_"@ + device_serial@ + ".log"@,
    {
        DeviceLogger {
            device_serial: device_serial.to_owned(),
            log_path: concat3("logs/ws_", device_serial, ".log"),
        }
    }

    /// The line for a message of a level, written at `timestamp`.
    pub fn line(&self, timestamp: &str, level: LogLevel, message: &str) -> (r: String)
        ensures
            r@ == self.line_text(timestamp@, level, message@),
    {
        let mut v = chars_of(timestamp);
        push_text(&mut v, " [");
        push_text(&mut v, self.device_serial.as_str());
        push_text(&mut v, "] ");
        push_text(&mut v, level.as_tag());
        push_text(&mut v, message);
        push_text(&mut v, "\n");
        string_of(v.as_slice())
    }

    /// The line for an information.
    pub fn info(&self, timestamp: &str, message: &str) -> (r: String)
        ensures
            r@ == self.line_text(timestamp@, LogLevel::Info, message@),
    {
        self.line(timestamp, LogLevel::Info, message)
    }

    /// The line for a warning.
    pub fn warn(&self, timestamp: &str, message: &str) -> (r: String)
        ensures
            r@ == self.line_text(timestamp@, LogLevel::Warn, message@),
    {
        self.line(timestamp, LogLevel::Warn, message)
    }

    /// The line for an error.
    pub fn error(&self, timestamp: &str, message: &str) -> (r: String)
        ensures
            r@ == self.line_text(timestamp@, LogLevel::Error, message@),
    {
        self.line(timestamp, LogLevel::Error, message)
    }

    /// The line for a detail.
    pub fn debug(&self, timestamp: &str, message: &str) -> (r: String)
        ensures
            r@ == self.line_text(timestamp@, LogLevel::Debug, message@),
    {
        self.line(timestamp, LogLevel::Debug, message)
    }
}

} // verus!
