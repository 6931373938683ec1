//! The request that starts an agent.

use vstd::prelude::*;

verus! {

/// The request `agent/start`: the device and the task.
#[derive(Debug, Clone, PartialEq, Eq)]
pub struct AgentStartRequest {
    pub device_serial: String,
    pub task: String,
}

impl AgentStartRequest {
    /// Whether the request names a device and a task.
    pub fn is_complete(&self) -> (b: bool)
        ensures
            b == (self.device_serial@.len() > 0 && self.task@.len() > 0),
    {
        !self.device_serial.as_str().is_empty() && !self.task.as_str().is_empty()
    }
}

} // verus!
