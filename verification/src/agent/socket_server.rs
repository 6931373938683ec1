//! The agent namespace: what the three requests `agent/start`,
//! `agent/devices` and `agent/stop` do to the pool and what they answer.

use vstd::prelude::*;
use crate::agent::engine::traits::opt_text;
use crate::agent::pool::device_pool::{
    agents_busy, connected_entry, distinct_serials, index_of, lemma_index_kept,
    lemma_index_of_appended, lemma_index_of_bound, released, DevicePool, SCRCPY_SERVER_PORT,
};
use crate::agent::pool::device_entry::{seconds_between, DeviceEntry};
use crate::agent::pool::types::{DeviceInfo, DeviceStatus, PoolEventView};
use crate::error::AppError;
use crate::scrcpy::scrcpy::ScrcpyConnect;

verus! {

/// The TCP port on which the agent namespace is served.
pub const AGENT_PORT: u16 = 4000;

/// The event that answers `agent/start`.
pub const START_RESPONSE: &'static str = "agent/start/response";

/// The event that answers `agent/devices`.
pub const DEVICES_RESPONSE: &'static str = "agent/devices/response";

/// The event that answers `agent/stop`.
pub const STOP_RESPONSE: &'static str = "agent/stop/response";

/// The answer to `agent/start`.
#[derive(Debug, Clone, PartialEq, Eq)]
pub struct AgentStartResponse {
    pub success: bool,
    pub agent_id: Option<String>,
    pub device_serial: String,
    pub task: String,
    pub error: Option<String>,
}

/// The answer to `agent/stop`.
#[derive(Debug, Clone, PartialEq, Eq)]
pub struct AgentStopResponse {
    pub success: bool,
    pub device_serial: String,
    pub error: Option<String>,
}

/// The answer to `agent/devices`.
#[derive(Debug, Clone, PartialEq, Eq)]
pub struct AgentDevicesResponse {
    pub success: bool,
    pub devices: Vec<DeviceInfo>,
}

/// The server of the agent namespace.
#[derive(Debug, Clone, Copy, PartialEq, Eq)]
pub struct AgentSocketServer {
    pub port: u16,
}

impl AgentSocketServer {
    /// A server on the given port.
    pub fn new(port: u16) -> (r: Self)
        ensures
            r.port == port,
    {
        Self { port }
    }

    /// The TCP port that the server listens on.
    pub fn port(&self) -> (p: u16)
        ensures
            p == self.port,
    {
        self.port
    }
}

fn start_failure(device_serial: &str, task: &str, error: String) -> (r: AgentStartResponse)
    ensures
        !r.success,
        r.agent_id is None,
        r.device_serial@ == device_serial@,
        r.task@ == task@,
        r.error == Some(error),
{
    AgentStartResponse {
        success: false,
        agent_id: None,
        device_serial: device_serial.to_owned(),
        task: task.to_owned(),
        error: Some(error),
    }
}

/// Whether the agent of a device can start a task: the device is known
/// and has no agent, or an agent that is idle or whose run has ended; or
/// the device is not known and the pool has room for it.
pub open spec fn can_start(pool: DevicePool, serial: Seq<char>) -> bool {
    let i = index_of(pool.devices@, serial);
    if i < 0 {
        pool.devices@.len() < pool.config.max_connections
    } else {
        match pool.devices@[i].agent {
            Some(agent) => agent.runtime.state is Idle || agent.runtime.state.is_terminal(),
            None => true,
        }
    }
}

/// Why `agent/start` is refused, if it is: a serial or a task is missing;
/// the device is not known and the pool is full; or the agent of the
/// device is running already.
pub open spec fn start_refusal(pool: DevicePool, serial: Seq<char>, task: Seq<char>) -> Option<
    Seq<char>,
> {
    if serial.len() == 0 || task.len() == 0 {
        Some("缺少 device_serial 或 task 参数"@)
    } else if index_of(pool.devices@, serial) < 0 && pool.devices@.len()
        >= pool.config.max_connections {
        Some("设备未找到: "@ + serial)
    } else if !can_start(pool, serial) {
        Some("Agent 已在运行"@)
    } else {
        None
    }
}

/// What a connect announces of a device: its connection, where it had no
/// streaming endpoint.
pub open spec fn connect_events(e: DeviceEntry) -> Seq<PoolEventView> {
    if e.scrcpy is Some {
        Seq::empty()
    } else {
        seq![PoolEventView::DeviceConnected { serial: e.serial@ }]
    }
}

/// What a start that succeeds announces, in order: the registration of a
/// device that the pool did not hold; the connection of a device that had
/// no streaming endpoint; the creation of the agent `agent_id` for a
/// device that had none; and the start of the task.
pub open spec fn start_events(
    pool: DevicePool,
    serial: Seq<char>,
    task: Seq<char>,
    agent_id: Seq<char>,
) -> Seq<PoolEventView> {
    let k = index_of(pool.devices@, serial);
    (if k < 0 {
        seq![PoolEventView::DeviceRegistered { serial }]
    } else {
        Seq::empty()
    }) + (if k < 0 || pool.devices@[k].scrcpy is None {
        seq![PoolEventView::DeviceConnected { serial }]
    } else {
        Seq::empty()
    }) + (if k < 0 || pool.devices@[k].agent is None {
        seq![PoolEventView::AgentCreated { serial, agent_id }]
    } else {
        Seq::empty()
    }) + seq![PoolEventView::TaskStarted { serial, task }]
}

/// Handles `agent/start` at the time `now`: the device is registered
/// where the pool does not hold it, its agent is taken or created, with
/// the streaming endpoint on `port` where the device has none, the agent
/// starts the task, and the task is entered on the device.
///
/// The request is refused exactly where `start_refusal` says, with the
/// text it gives. A request without serial or task, or for a device that
/// the pool neither holds nor has room for, does not touch the pool. A
/// request for a device whose agent is running leaves the device marked
/// as used, and connected where it had no streaming endpoint, which is
/// announced; nothing else changes. On success the device holds the
/// agent named in the answer, the agent is initializing with the task,
/// the device is busy with it, the events that `start_events` lists are
/// appended, and every other device is as it was.
pub fn handle_agent_start(pool: &mut DevicePool, device_serial: &str, task: &str, port: u16, now: i64) -> (r:
    AgentStartResponse)
    ensures
        old(pool).same_settings(*final(pool)),
        agents_busy(old(pool).devices@) ==> agents_busy(final(pool).devices@),
        distinct_serials(old(pool).devices@) ==> distinct_serials(final(pool).devices@),
        r.device_serial@ == device_serial@,
        r.task@ == task@,
        opt_text(r.error) == start_refusal(*old(pool), device_serial@, task@),
        r.success == (r.error is None),
        r.success == (r.agent_id is Some),
        !r.success ==> {
            let k = index_of(old(pool).devices@, device_serial@);
            if device_serial@.len() > 0 && task@.len() > 0 && k >= 0 {
                &&& k < old(pool).devices@.len()
                &&& final(pool).devices@ == old(pool).devices@.update(
                    k,
                    DeviceEntry {
                        last_used: now,
                        ..connected_entry(old(pool).devices@[k], port, now)
                    },
                )
                &&& final(pool).events.deep_view() == old(pool).events.deep_view()
                    + connect_events(old(pool).devices@[k])
            } else {
                &&& final(pool).devices == old(pool).devices
                &&& final(pool).events == old(pool).events
            }
        },
        r.success ==> {
            let k = index_of(old(pool).devices@, device_serial@);
            let i = index_of(final(pool).devices@, device_serial@);
            &&& 0 <= i < final(pool).devices@.len()
            &&& i == (if k >= 0 {
                k
            } else {
                old(pool).devices@.len() as int
            })
            &&& final(pool).devices@.len() == (if k >= 0 {
                old(pool).devices@.len()
            } else {
                old(pool).devices@.len() + 1
            })
            &&& forall|j: int|
                0 <= j < old(pool).devices@.len() && j != i ==> final(pool).devices@[j] == old(
                    pool,
                ).devices@[j]
            &&& final(pool).devices@[i].serial@ == device_serial@
            &&& final(pool).devices@[i].last_used == now
            &&& k >= 0 ==> final(pool).devices@[i].name == old(pool).devices@[k].name
                && final(pool).devices@[i].created_at == old(pool).devices@[k].created_at
            &&& k < 0 ==> final(pool).devices@[i].name is None && final(pool).devices@[i].created_at
                == now
            &&& final(pool).events.deep_view() == old(pool).events.deep_view() + start_events(
                *old(pool),
                device_serial@,
                task@,
                final(pool).devices@[i].agent->0.id@,
            )
            &&& final(pool).devices@[i].agent matches Some(agent)
            &&& opt_text(r.agent_id) == Some(agent.id@)
            &&& agent.runtime.state is Initializing
            &&& agent.runtime.start_time == Some(now)
            &&& opt_text(agent.runtime.current_task) == Some(task@)
            &&& if k >= 0 && old(pool).devices@[k].agent is Some {
                old(pool).devices@[k].agent->0.started(agent, task@, now)
            } else {
                &&& agent.id@.len() == 36
                &&& agent.runtime.config == old(pool).agent_config
                &&& agent.runtime.step_counter == 0
                &&& agent.runtime.execution_history@.len() == 0
                &&& agent.messages@.len() == 0
                &&& agent.conversation.messages@.len() == 0
                &&& agent.conversation.max_messages == 50
                &&& agent.no_action_count == 0
            }
            &&& final(pool).devices@[i].status is Busy
            &&& final(pool).devices@[i].scrcpy == (if k >= 0 && old(pool).devices@[k].scrcpy
                is Some {
                old(pool).devices@[k].scrcpy
            } else {
                Some(ScrcpyConnect { port, scrcpy_server_port: SCRCPY_SERVER_PORT })
            })
            &&& opt_text(final(pool).devices@[i].current_task_id) == Some(agent.id@)
            &&& opt_text(final(pool).devices@[i].current_task) == Some(task@)
        },
{
    if device_serial.is_empty() || task.is_empty() {
        return start_failure(device_serial, task, "缺少 device_serial 或 task 参数".to_owned());
    }
    let ghost before = old(pool).devices@;
    let ghost k = index_of(before, device_serial@);
    let ghost events_before = old(pool).events.deep_view();
    proof {
        lemma_index_of_bound(before, device_serial@);
    }
    let registered = pool.register_device(device_serial.to_owned(), None, now);
    let ghost known = pool.devices@;
    let ghost events_known = pool.events.deep_view();
    proof {
        match registered {
            Ok(_) => {
                let entry = known.last();
                assert(known =~= before.push(entry));
                lemma_index_of_appended(before, entry, 0);
                assert forall|j: int| 0 <= j < before.len() implies known[j] == before[j] by {
                    assert(known.drop_last()[j] == known[j]);
                }
            },
            Err(_) => {},
        }
    }
    match pool.get_agent(device_serial, port, now) {
        Ok(_) => {},
        Err(e) => {
            return start_failure(device_serial, task, e.message());
        },
    }
    let ghost ready = pool.devices@;
    let ghost events_ready = pool.events.deep_view();
    proof {
        lemma_index_kept(known, ready, device_serial@);
    }
    let i = match pool.find(device_serial) {
        Some(i) => i,
        None => {
            return start_failure(device_serial, task, "设备未找到".to_owned());
        },
    };
    let missing = pool.devices[i].agent.is_none();
    if missing {
        return start_failure(device_serial, task, "Agent 未创建".to_owned());
    }
    let started: Result<String, AppError> = match &mut pool.devices[i].agent {
        Some(agent) => agent.start(task.to_owned(), now),
        None => Err(AppError::Unknown("Agent 未创建".to_owned())),
    };
    match started {
        Ok(agent_id) => {
            let entry = &mut pool.devices[i];
            entry.start_task(agent_id.clone(), task.to_owned(), now);
            pool.events.push(
                crate::agent::pool::types::DevicePoolEvent::TaskStarted {
                    serial: device_serial.to_owned(),
                    task: task.to_owned(),
                },
            );
            proof {
                lemma_index_kept(ready, pool.devices@, device_serial@);
                let id = pool.devices@[i as int].agent->0.id@;
                assert(k < 0 <==> registered is Ok);
                assert(i == (if k >= 0 {
                    k
                } else {
                    before.len() as int
                }));
                assert(pool.events.deep_view() =~= events_ready.push(
                    PoolEventView::TaskStarted { serial: device_serial@, task: task@ },
                ));
                assert(events_known =~= events_before + (if k < 0 {
                    seq![PoolEventView::DeviceRegistered { serial: device_serial@ }]
                } else {
                    Seq::<PoolEventView>::empty()
                }));
                assert(pool.events.deep_view() =~= events_before + start_events(
                    *old(pool),
                    device_serial@,
                    task@,
                    id,
                ));
                assert forall|j: int| 0 <= j < before.len() && j != i implies pool.devices@[j]
                    == before[j] by {
                    assert(ready[j] == known[j]);
                }
            }
            AgentStartResponse {
                success: true,
                agent_id: Some(agent_id),
                device_serial: device_serial.to_owned(),
                task: task.to_owned(),
                error: None,
            }
        },
        Err(e) => start_failure(device_serial, task, e.message()),
    }
}

/// Handles `agent/devices` at the time `now`: what the pool tells of
/// every device.
pub fn handle_agent_devices(pool: &DevicePool, now: i64) -> (r: AgentDevicesResponse)
    ensures
        r.success,
        r.devices@.len() == pool.devices@.len(),
        forall|i: int|
            0 <= i < r.devices@.len() ==> {
                &&& (#[trigger] r.devices@[i]).serial == pool.devices@[i].serial
                &&& r.devices@[i].name == pool.devices@[i].name
                &&& r.devices@[i].status == pool.devices@[i].status
                &&& r.devices@[i].has_agent == (pool.devices@[i].agent is Some)
                &&& r.devices@[i].last_used == pool.devices@[i].last_used / 1000
                &&& r.devices@[i].idle_seconds == seconds_between(
                    pool.devices@[i].last_used,
                    now,
                )
            },
{
    AgentDevicesResponse { success: true, devices: pool.get_all_devices_info(now) }
}

/// Why `agent/stop` is refused, if it is: the serial is missing, or the
/// pool does not hold the device.
pub open spec fn stop_refusal(pool: DevicePool, serial: Seq<char>) -> Option<Seq<char>> {
    if serial.len() == 0 {
        Some("缺少 device_serial 参数"@)
    } else if index_of(pool.devices@, serial) < 0 {
        Some("设备未找到: "@ + serial)
    } else {
        None
    }
}

/// Handles `agent/stop` at the time `now`: the agent of the device is
/// released. The request is refused exactly where `stop_refusal` says,
/// with the text it gives, and the pool is then unchanged. Else the
/// device is left without agent and task, connected where it has a
/// streaming endpoint and disconnected where it has none, and the
/// destruction of the agent is announced where it had one.
pub fn handle_agent_stop(pool: &mut DevicePool, device_serial: &str, now: i64) -> (r:
    AgentStopResponse)
    ensures
        old(pool).same_settings(*final(pool)),
        agents_busy(old(pool).devices@) ==> agents_busy(final(pool).devices@),
        distinct_serials(old(pool).devices@) ==> distinct_serials(final(pool).devices@),
        r.device_serial@ == device_serial@,
        opt_text(r.error) == stop_refusal(*old(pool), device_serial@),
        r.success == (r.error is None),
        !r.success ==> {
            &&& final(pool).devices == old(pool).devices
            &&& final(pool).events == old(pool).events
        },
        r.success ==> {
            let i = index_of(old(pool).devices@, device_serial@);
            &&& 0 <= i < old(pool).devices@.len()
            &&& final(pool).devices@ == old(pool).devices@.update(
                i,
                released(old(pool).devices@[i], now),
            )
            &&& final(pool).events.deep_view() == old(pool).events.deep_view() + (
            match old(pool).devices@[i].agent {
                Some(agent) => seq![
                    PoolEventView::AgentDestroyed { serial: device_serial@, agent_id: agent.id@ },
                ],
                None => Seq::<PoolEventView>::empty(),
            })
        },
{
    if device_serial.is_empty() {
        return AgentStopResponse {
            success: false,
            device_serial: device_serial.to_owned(),
            error: Some("缺少 device_serial 参数".to_owned()),
        };
    }
    match pool.release_agent(device_serial, now) {
        Ok(_) => AgentStopResponse {
            success: true,
            device_serial: device_serial.to_owned(),
            error: None,
        },
        Err(e) => AgentStopResponse {
            success: false,
            device_serial: device_serial.to_owned(),
            error: Some(e.message()),
        },
    }
}

} // verus!
