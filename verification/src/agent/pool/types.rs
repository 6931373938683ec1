//! The types of the device pool.

use vstd::prelude::*;
use crate::text::{chars_of, concat2, decimal, push_decimal, string_of};

verus! {

/// Where a device stands in the pool.
#[derive(Debug, Clone, PartialEq, Eq)]
pub enum DeviceStatus {
    /// Registered, without a streaming session.
    Registered,
    /// Being connected; never seen from outside a connect.
    Connecting,
    /// Connected: the streaming session is in place.
    Connected,
    /// An agent or a task occupies the device.
    Busy,
    /// The streaming session was dropped.
    Disconnected,
    /// The device is offline.
    Offline,
    /// The device is in error.
    Error(String),
}

impl DeviceStatus {
    /// The text shown to the user for this status.
    pub open spec fn label(self) -> Seq<char> {
        match self {
            DeviceStatus::Registered => "已注册"@,
            DeviceStatus::Connecting => "连接中"@,
            DeviceStatus::Connected => "已连接"@,
            DeviceStatus::Busy => "忙碌"@,
            DeviceStatus::Disconnected => "已断开"@,
            DeviceStatus::Offline => "离线"@,
            DeviceStatus::Error(msg) => "错误: "@ + msg@,
        }
    }

    /// The text shown to the user for this status.
    pub fn to_text(&self) -> (r: String)
        ensures
            r@ == self.label(),
    {
        match self {
            DeviceStatus::Registered => "已注册".to_owned(),
            DeviceStatus::Connecting => "连接中".to_owned(),
            DeviceStatus::Connected => "已连接".to_owned(),
            DeviceStatus::Busy => "忙碌".to_owned(),
            DeviceStatus::Disconnected => "已断开".to_owned(),
            DeviceStatus::Offline => "离线".to_owned(),
            DeviceStatus::Error(msg) => concat2("错误: ", msg.as_str()),
        }
    }

    /// A copy of this status.
    pub fn copy(&self) -> (r: Self)
        ensures
            r == *self,
    {
        match self {
            DeviceStatus::Registered => DeviceStatus::Registered,
            DeviceStatus::Connecting => DeviceStatus::Connecting,
            DeviceStatus::Connected => DeviceStatus::Connected,
            DeviceStatus::Busy => DeviceStatus::Busy,
            DeviceStatus::Disconnected => DeviceStatus::Disconnected,
            DeviceStatus::Offline => DeviceStatus::Offline,
            DeviceStatus::Error(msg) => DeviceStatus::Error(msg.clone()),
        }
    }

    /// Whether a device in this status counts as connected.
    pub open spec fn is_live(self) -> bool {
        self is Connected || self is Busy
    }

    /// Whether a device in this status counts as connected.
    pub fn live(&self) -> (b: bool)
        ensures
            b == self.is_live(),
    {
        match self {
            DeviceStatus::Connected => true,
            DeviceStatus::Busy => true,
            _ => false,
        }
    }
}

/// The limits of the pool. Times are in seconds.
#[derive(Debug, Clone, Copy, PartialEq, Eq)]
pub struct DevicePoolConfig {
    /// The largest number of registered devices.
    pub max_connections: usize,
    pub connection_timeout: u64,
    /// How long a device must be idle before it is cleaned up.
    pub idle_cleanup_threshold: u64,
    pub auto_reconnect: bool,
    pub health_check_interval: u64,
}

impl Default for DevicePoolConfig {
    /// Ten devices, cleaned up after five idle minutes.
    fn default() -> (r: Self)
        ensures
            r.max_connections == 10,
            r.connection_timeout == 30,
            r.idle_cleanup_threshold == 300,
            r.auto_reconnect,
            r.health_check_interval == 60,
    {
        Self {
            max_connections: 10,
            connection_timeout: 30,
            idle_cleanup_threshold: 300,
            auto_reconnect: true,
            health_check_interval: 60,
        }
    }
}

/// The number of events that the channel to the subscribers holds; a
/// subscriber that falls behind by more misses events, and none sees them
/// out of order.
pub const EVENT_CHANNEL_CAPACITY: usize = 100;

/// What the pool tells its subscribers.
#[derive(Debug, Clone, PartialEq, Eq)]
pub enum DevicePoolEvent {
    DeviceRegistered { serial: String },
    DeviceConnected { serial: String },
    DeviceDisconnected { serial: String },
    AgentCreated { serial: String, agent_id: String },
    AgentDestroyed { serial: String, agent_id: String },
    DeviceIdle { serial: String, idle_seconds: u64 },
    TaskStarted { serial: String, task: String },
    TaskCompleted { serial: String, result: String },
    TaskFailed { serial: String, error: String },
    Error { serial: String, error: String },
}

/// The mathematical value of a [`DevicePoolEvent`].
pub enum PoolEventView {
    DeviceRegistered { serial: Seq<char> },
    DeviceConnected { serial: Seq<char> },
    DeviceDisconnected { serial: Seq<char> },
    AgentCreated { serial: Seq<char>, agent_id: Seq<char> },
    AgentDestroyed { serial: Seq<char>, agent_id: Seq<char> },
    DeviceIdle { serial: Seq<char>, idle_seconds: u64 },
    TaskStarted { serial: Seq<char>, task: Seq<char> },
    TaskCompleted { serial: Seq<char>, result: Seq<char> },
    TaskFailed { serial: Seq<char>, error: Seq<char> },
    Error { serial: Seq<char>, error: Seq<char> },
}

impl DeepView for DevicePoolEvent {
    type V = PoolEventView;

    open spec fn deep_view(&self) -> PoolEventView {
        match *self {
            DevicePoolEvent::DeviceRegistered { serial } => PoolEventView::DeviceRegistered {
                serial: serial@,
            },
            DevicePoolEvent::DeviceConnected { serial } => PoolEventView::DeviceConnected {
                serial: serial@,
            },
            DevicePoolEvent::DeviceDisconnected { serial } => PoolEventView::DeviceDisconnected {
                serial: serial@,
            },
            DevicePoolEvent::AgentCreated { serial, agent_id } => PoolEventView::AgentCreated {
                serial: serial@,
                agent_id: agent_id@,
            },
            DevicePoolEvent::AgentDestroyed { serial, agent_id } => PoolEventView::AgentDestroyed {
                serial: serial@,
                agent_id: agent_id@,
            },
            DevicePoolEvent::DeviceIdle { serial, idle_seconds } => PoolEventView::DeviceIdle {
                serial: serial@,
                idle_seconds,
            },
            DevicePoolEvent::TaskStarted { serial, task } => PoolEventView::TaskStarted {
                serial: serial@,
                task: task@,
            },
            DevicePoolEvent::TaskCompleted { serial, result } => PoolEventView::TaskCompleted {
                serial: serial@,
                result: result@,
            },
            DevicePoolEvent::TaskFailed { serial, error } => PoolEventView::TaskFailed {
                serial: serial@,
                error: error@,
            },
            DevicePoolEvent::Error { serial, error } => PoolEventView::Error {
                serial: serial@,
                error: error@,
            },
        }
    }
}

/// A failure of the pool.
#[derive(Debug, Clone, PartialEq, Eq)]
pub enum DevicePoolError {
    DeviceNotFound(String),
    DeviceAlreadyExists(String),
    ConnectionTimeout,
    ConnectionError(String),
    MaxConnectionsReached(usize),
    InvalidState(String),
    AgentCreationFailed(String),
}

impl DevicePoolError {
    /// The text shown to the user for this error.
    pub open spec fn text(self) -> Seq<char> {
        match self {
            DevicePoolError::DeviceNotFound(s) => "设备未找到: "@ + s@,
            DevicePoolError::DeviceAlreadyExists(s) => "设备已存在: "@ + s@,
            DevicePoolError::ConnectionTimeout => "连接超时"@,
            DevicePoolError::ConnectionError(s) => "连接失败: "@ + s@,
            DevicePoolError::MaxConnectionsReached(n) => "已达最大连接数限制: "@ + decimal(n as nat),
            DevicePoolError::InvalidState(s) => "设备状态错误: "@ + s@,
            DevicePoolError::AgentCreationFailed(s) => "Agent 创建失败: "@ + s@,
        }
    }

    /// The text shown to the user for this error.
    pub fn message(&self) -> (r: String)
        ensures
            r@ == self.text(),
    {
        match self {
            DevicePoolError::DeviceNotFound(s) => concat2("设备未找到: ", s.as_str()),
            DevicePoolError::DeviceAlreadyExists(s) => concat2("设备已存在: ", s.as_str()),
            DevicePoolError::ConnectionTimeout => "连接超时".to_owned(),
            DevicePoolError::ConnectionError(s) => concat2("连接失败: ", s.as_str()),
            DevicePoolError::MaxConnectionsReached(n) => {
                let mut v = chars_of("已达最大连接数限制: ");
                push_decimal(&mut v, *n as u64);
                string_of(v.as_slice())
            },
            DevicePoolError::InvalidState(s) => concat2("设备状态错误: ", s.as_str()),
            DevicePoolError::AgentCreationFailed(s) => concat2("Agent 创建失败: ", s.as_str()),
        }
    }
}

/// What the pool tells of a device. `last_used` is in seconds since the
/// Unix epoch.
#[derive(Debug, Clone, PartialEq, Eq)]
pub struct DeviceInfo {
    pub serial: String,
    pub name: Option<String>,
    pub status: DeviceStatus,
    pub has_agent: bool,
    pub last_used: i64,
    pub idle_seconds: i64,
}

} // verus!
