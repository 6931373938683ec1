//! The state of an agent's run.

use vstd::prelude::*;
use crate::agent::engine::traits::ExecutionStep;

verus! {

/// Where an agent stands in its run.
#[derive(Debug, Clone, PartialEq, Eq)]
pub enum AgentState {
    Idle,
    Initializing,
    Analyzing { step: usize },
    Executing { step: usize, action: String },
    Waiting { step: usize, reason: String },
    Paused { step: usize },
    Completed { steps: usize, duration_ms: u64 },
    Failed { step: usize, error: String },
}

impl AgentState {
    /// Whether a run has ended in this state, by completion or failure.
    pub open spec fn is_terminal(self) -> bool {
        self is Completed || self is Failed
    }

    /// Whether a run is under way in this state.
    pub open spec fn is_active(self) -> bool {
        self is Analyzing || self is Executing
    }
}

/// The limits and switches of an agent.
#[derive(Debug, Clone, PartialEq, Eq)]
pub struct AgentConfig {
    /// The largest number of steps of one task.
    pub max_steps: usize,
    /// The longest time one task may take, in seconds.
    pub max_execution_time: u64,
    /// The pause between two steps, in milliseconds.
    pub action_delay: u32,
    /// The quality of screenshots, from 1 to 100.
    pub screenshot_quality: u8,
    pub enable_retry: bool,
    pub max_retries: u32,
    pub enable_safety: bool,
    pub enable_rollback: bool,
    pub log_file: String,
}

impl Default for AgentConfig {
    /// Fifty steps, five minutes, one second between steps.
    fn default() -> (r: Self)
        ensures
            r.max_steps == 50,
            r.max_execution_time == 300,
            r.action_delay == 1000,
            r.screenshot_quality == 80,
            r.enable_retry,
            r.max_retries == 3,
            r.enable_safety,
            !r.enable_rollback,
            r.log_file@ == "logs/agent.log"@,
    {
        Self {
            max_steps: 50,
            max_execution_time: 300,
            action_delay: 1000,
            screenshot_quality: 80,
            enable_retry: true,
            max_retries: 3,
            enable_safety: true,
            enable_rollback: false,
            log_file: "logs/agent.log".to_owned(),
        }
    }
}

impl AgentConfig {
    /// A copy of this configuration.
    pub fn copy(&self) -> (r: Self)
        ensures
            r == *self,
    {
        Self {
            max_steps: self.max_steps,
            max_execution_time: self.max_execution_time,
            action_delay: self.action_delay,
            screenshot_quality: self.screenshot_quality,
            enable_retry: self.enable_retry,
            max_retries: self.max_retries,
            enable_safety: self.enable_safety,
            enable_rollback: self.enable_rollback,
            log_file: self.log_file.clone(),
        }
    }
}

/// The time from `start` to `now`, both in milliseconds since the epoch;
/// zero where no start is set or the clock went back.
pub open spec fn elapsed_between(start: Option<i64>, now: i64) -> u64 {
    match start {
        Some(s) => if now >= s {
            (now - s) as u64
        } else {
            0
        },
        None => 0,
    }
}

/// What an agent keeps of its run: the state, the task, the audit trail,
/// the step counter and the time the run began, in milliseconds since the
/// Unix epoch.
#[derive(Debug, Clone, PartialEq, Eq)]
pub struct AgentRuntime {
    pub state: AgentState,
    pub config: AgentConfig,
    pub current_task: Option<String>,
    pub execution_history: Vec<ExecutionStep>,
    pub step_counter: usize,
    pub start_time: Option<i64>,
}

impl AgentRuntime {
    /// An idle runtime with an empty audit trail.
    pub fn new(config: AgentConfig) -> (r: Self)
        ensures
            r.state is Idle,
            r.config == config,
            r.current_task is None,
            r.execution_history@.len() == 0,
            r.step_counter == 0,
            r.start_time is None,
    {
        Self {
            state: AgentState::Idle,
            config,
            current_task: None,
            execution_history: Vec::new(),
            step_counter: 0,
            start_time: None,
        }
    }

    /// Back to the idle state: no task, no audit trail, step zero. The
    /// configuration stays.
    pub fn reset(&mut self)
        ensures
            final(self).state is Idle,
            final(self).config == old(self).config,
            final(self).current_task is None,
            final(self).execution_history@.len() == 0,
            final(self).step_counter == 0,
            final(self).start_time is None,
    {
        self.state = AgentState::Idle;
        self.current_task = None;
        self.execution_history.clear();
        self.step_counter = 0;
        self.start_time = None;
    }

    /// The time since the run began, in milliseconds, at the time `now`.
    pub fn elapsed_ms(&self, now: i64) -> (r: u64)
        ensures
            r == elapsed_between(self.start_time, now),
    {
        match self.start_time {
            Some(s) => if now >= s {
                (now as i128 - s as i128) as u64
            } else {
                0
            },
            None => 0,
        }
    }

    /// Appends a record to the audit trail.
    pub fn add_step(&mut self, step: ExecutionStep)
        ensures
            final(self).execution_history@ == old(self).execution_history@.push(step),
            final(self).state == old(self).state,
            final(self).config == old(self).config,
            final(self).current_task == old(self).current_task,
            final(self).step_counter == old(self).step_counter,
            final(self).start_time == old(self).start_time,
    {
        self.execution_history.push(step);
    }

    /// Advances the step counter by one, stopping at the largest value,
    /// and returns it.
    pub fn increment_step(&mut self) -> (r: usize)
        ensures
            r == final(self).step_counter,
            old(self).step_counter < usize::MAX ==> r == old(self).step_counter + 1,
            old(self).step_counter == usize::MAX ==> r == usize::MAX,
            final(self).state == old(self).state,
            final(self).config == old(self).config,
            final(self).current_task == old(self).current_task,
            final(self).execution_history == old(self).execution_history,
            final(self).start_time == old(self).start_time,
    {
        if self.step_counter < usize::MAX {
            self.step_counter = self.step_counter + 1;
        }
        self.step_counter
    }

    /// The step counter.
    pub fn current_step(&self) -> (r: usize)
        ensures
            r == self.step_counter,
    {
        self.step_counter
    }
}

} // verus!
