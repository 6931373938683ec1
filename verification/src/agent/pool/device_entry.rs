//! One device of the pool.

use vstd::prelude::*;
use crate::agent::engine::agent::PhoneAgent;
use crate::agent::engine::traits::copy_opt_text;
use crate::agent::pool::types::{DeviceInfo, DeviceStatus};
use crate::outside::utc_now_millis;
use crate::scrcpy::scrcpy::ScrcpyConnect;

verus! {

/// A device of the pool with its streaming endpoint and its agent, where
/// it has them. Times are in milliseconds since the Unix epoch.
#[derive(Debug, Clone)]
pub struct DeviceEntry {
    pub serial: String,
    pub name: Option<String>,
    /// The streaming endpoint, created on the first connect.
    pub scrcpy: Option<ScrcpyConnect>,
    /// The agent, created on demand.
    pub agent: Option<PhoneAgent>,
    pub status: DeviceStatus,
    pub last_used: i64,
    pub created_at: i64,
    pub current_task_id: Option<String>,
    pub current_task: Option<String>,
}

/// The whole seconds between two times in milliseconds, rounded towards
/// zero.
pub open spec fn seconds_between(from: i64, to: i64) -> int {
    if to >= from {
        (to - from) / 1000
    } else {
        -((from - to) / 1000)
    }
}

/// `seconds_between`, which always fits 64 bits.
pub fn whole_seconds(from: i64, to: i64) -> (r: i64)
    ensures
        r == seconds_between(from, to),
{
    if to >= from {
        let d: u64 = (to as i128 - from as i128) as u64;
        (d / 1000) as i64
    } else {
        let d: u64 = (from as i128 - to as i128) as u64;
        -((d / 1000) as i64)
    }
}

/// The whole seconds of a time in milliseconds, rounded down.
pub fn floor_seconds(ms: i64) -> (r: i64)
    ensures
        r == ms / 1000,
{
    if ms >= 0 {
        ((ms as u64) / 1000) as i64
    } else {
        let up: u64 = (-(ms as i128)) as u64;
        let q: u64 = up / 1000;
        if q * 1000 == up {
            -(q as i64)
        } else {
            -(q as i64) - 1
        }
    }
}

impl DeviceEntry {
    /// Whether the device has been idle for more than `threshold_seconds`
    /// at the time `now` and neither an agent nor a task occupies it.
    pub open spec fn idle_at(self, threshold_seconds: i64, now: i64) -> bool {
        seconds_between(self.last_used, now) > threshold_seconds && self.agent is None
            && self.current_task_id is None
    }

    /// Whether the device has a streaming endpoint and counts as
    /// connected.
    pub open spec fn connected(self) -> bool {
        self.scrcpy is Some && self.status.is_live()
    }

    /// Whether an agent or a task occupies the device.
    pub open spec fn busy(self) -> bool {
        self.agent is Some || self.status is Busy
    }

    /// A newly registered device.
    pub fn new(serial: String, name: Option<String>, now: i64) -> (r: Self)
        ensures
            r.serial == serial,
            r.name == name,
            r.scrcpy is None,
            r.agent is None,
            r.status is Registered,
            r.last_used == now,
            r.created_at == now,
            r.current_task_id is None,
            r.current_task is None,
    {
        Self {
            serial,
            name,
            scrcpy: None,
            agent: None,
            status: DeviceStatus::Registered,
            last_used: now,
            created_at: now,
            current_task_id: None,
            current_task: None,
        }
    }

    /// Marks the device as used at the time `now`.
    pub fn touch_at(&mut self, now: i64)
        ensures
            *final(self) == (DeviceEntry { last_used: now, ..*old(self) }),
    {
        self.last_used = now;
    }

    /// Marks the device as used now. Nothing is known of the clock.
    pub fn touch(&mut self)
        ensures
            *final(self) == (DeviceEntry { last_used: final(self).last_used, ..*old(self) }),
    {
        let now = utc_now_millis();
        self.touch_at(now);
    }

    /// How long the device has been idle at the time `now`, in seconds.
    pub fn idle_seconds_at(&self, now: i64) -> (r: i64)
        ensures
            r == seconds_between(self.last_used, now),
    {
        whole_seconds(self.last_used, now)
    }

    /// How long the device has been idle now, in seconds.
    pub fn idle_seconds(&self) -> (r: i64)
        ensures
            exists|now: i64| r == seconds_between(self.last_used, now),
    {
        self.idle_seconds_at(utc_now_millis())
    }

    /// Whether the device is idle at the time `now`.
    pub fn is_idle_at(&self, threshold_seconds: i64, now: i64) -> (b: bool)
        ensures
            b == self.idle_at(threshold_seconds, now),
    {
        self.idle_seconds_at(now) > threshold_seconds && self.agent.is_none()
            && self.current_task_id.is_none()
    }

    /// Whether the device is idle now.
    pub fn is_idle(&self, threshold_seconds: i64) -> (b: bool)
        ensures
            exists|now: i64| b == self.idle_at(threshold_seconds, now),
    {
        self.is_idle_at(threshold_seconds, utc_now_millis())
    }

    /// Whether the device has a streaming endpoint and counts as
    /// connected.
    pub fn is_connected(&self) -> (b: bool)
        ensures
            b == self.connected(),
    {
        self.scrcpy.is_some() && self.status.live()
    }

    /// Whether an agent or a task occupies the device.
    pub fn is_busy(&self) -> (b: bool)
        ensures
            b == self.busy(),
    {
        self.agent.is_some() || match self.status {
            DeviceStatus::Busy => true,
            _ => false,
        }
    }

    /// What the pool tells of the device at the time `now`.
    pub fn to_info_at(&self, now: i64) -> (r: DeviceInfo)
        ensures
            r.serial == self.serial,
            r.name == self.name,
            r.status == self.status,
            r.has_agent == (self.agent is Some),
            r.last_used == self.last_used / 1000,
            r.idle_seconds == seconds_between(self.last_used, now),
    {
        DeviceInfo {
            serial: self.serial.clone(),
            name: copy_opt_text(&self.name),
            status: self.status.copy(),
            has_agent: self.agent.is_some(),
            last_used: floor_seconds(self.last_used),
            idle_seconds: self.idle_seconds_at(now),
        }
    }

    /// What the pool tells of the device now.
    pub fn to_info(&self) -> (r: DeviceInfo)
        ensures
            r.serial == self.serial,
            r.name == self.name,
            r.status == self.status,
            r.has_agent == (self.agent is Some),
            r.last_used == self.last_used / 1000,
    {
        self.to_info_at(utc_now_millis())
    }

    /// Sets the status and marks the device as used at the time `now`.
    pub fn set_status(&mut self, status: DeviceStatus, now: i64)
        ensures
            *final(self) == (DeviceEntry { status, last_used: now, ..*old(self) }),
    {
        self.status = status;
        self.last_used = now;
    }

    /// Enters a task: the device is busy with it from the time `now`.
    pub fn start_task(&mut self, task_id: String, task: String, now: i64)
        ensures
            *final(self) == (DeviceEntry {
                current_task_id: Some(task_id),
                current_task: Some(task),
                status: DeviceStatus::Busy,
                last_used: now,
                ..*old(self)
            }),
    {
        self.current_task_id = Some(task_id);
        self.current_task = Some(task);
        self.status = DeviceStatus::Busy;
        self.last_used = now;
    }

    /// The device after its task: without a task from the time `now`,
    /// still busy where an agent is attached to it, else connected.
    pub open spec fn after_task(self, now: i64) -> DeviceEntry {
        DeviceEntry {
            current_task_id: None,
            current_task: None,
            status: if self.agent is Some {
                DeviceStatus::Busy
            } else {
                DeviceStatus::Connected
            },
            last_used: now,
            ..self
        }
    }

    /// Leaves the task: the device is without a task from the time `now`.
    /// A device with an agent stays busy; one without is connected.
    pub fn complete_task(&mut self, now: i64)
        ensures
            *final(self) == old(self).after_task(now),
    {
        self.current_task_id = None;
        self.current_task = None;
        self.status = if self.agent.is_some() {
            DeviceStatus::Busy
        } else {
            DeviceStatus::Connected
        };
        self.last_used = now;
    }
}

} // verus!
