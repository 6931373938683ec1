//! The pool of devices: the registry that owns every device entry, its
//! streaming endpoint and its agent.
//!
//! Every function takes the time of the call in milliseconds since the
//! Unix epoch where it marks a device as used. Events are appended to the
//! pool's outbox, from which the caller takes them to its subscribers.

use vstd::prelude::*;
use crate::agent::engine::agent::PhoneAgent;
use crate::agent::engine::state::AgentConfig;
use crate::agent::engine::traits::{opt_text, AgentError};
use crate::agent::llm::types::ModelConfig;
use crate::agent::pool::device_entry::{seconds_between, DeviceEntry};
use crate::agent::pool::types::{
    DeviceInfo, DevicePoolConfig, DevicePoolEvent, DeviceStatus, PoolEventView,
};
use crate::error::AppError;
use crate::outside::new_uuid_text;
use crate::scrcpy::scrcpy::ScrcpyConnect;
use crate::text::{chars_of, concat2, decimal, push_decimal, same_text, string_of};

verus! {

/// The host port that is forwarded to the mirror server of a device.
pub const SCRCPY_SERVER_PORT: u16 = 27183;

/// The index of the first device at or after `from` whose serial is
/// `serial`, or -1 where there is none.
pub open spec fn index_from(devices: Seq<DeviceEntry>, serial: Seq<char>, from: int) -> int
    decreases devices.len() - from,
{
    if from < 0 || from >= devices.len() {
        -1
    } else if devices[from].serial@ == serial {
        from
    } else {
        index_from(devices, serial, from + 1)
    }
}

/// The index of the device whose serial is `serial`, or -1 where the pool
/// does not hold it.
pub open spec fn index_of(devices: Seq<DeviceEntry>, serial: Seq<char>) -> int {
    index_from(devices, serial, 0)
}

/// Whether every device with an agent is busy and has a streaming
/// endpoint.
pub open spec fn agents_busy(devices: Seq<DeviceEntry>) -> bool {
    forall|i: int|
        0 <= i < devices.len() && (#[trigger] devices[i]).agent is Some ==> devices[i].status
            is Busy && devices[i].scrcpy is Some
}

/// Whether no serial occurs twice among the devices: the pool holds at
/// most one device for a serial.
pub open spec fn distinct_serials(devices: Seq<DeviceEntry>) -> bool {
    forall|i: int, j: int|
        #![trigger devices[i], devices[j]]
        0 <= i < j < devices.len() ==> devices[i].serial@ != devices[j].serial@
}

/// Whether `e` says that the pool does not hold `serial`.
pub open spec fn is_not_found(e: AppError, serial: Seq<char>) -> bool {
    e matches AppError::AgentError(AgentError::DeviceNotFound(s)) && s@ == serial
}

/// A device after the clean-up at the time `now`: where it has been idle
/// for more than twice the threshold, without agent or task, it loses its
/// streaming endpoint and is disconnected; else it stays as it is.
pub open spec fn cleaned(e: DeviceEntry, threshold: i64, now: i64) -> DeviceEntry {
    if e.idle_at(threshold, now) && seconds_between(e.last_used, now) > threshold * 2 {
        DeviceEntry { scrcpy: None, status: DeviceStatus::Disconnected, last_used: now, ..e }
    } else {
        e
    }
}

/// A device after its agent was released at the time `now`: without agent
/// and task, connected where it has a streaming endpoint and disconnected
/// where it has none.
pub open spec fn released(e: DeviceEntry, now: i64) -> DeviceEntry {
    DeviceEntry {
        agent: None,
        status: if e.scrcpy is Some {
            DeviceStatus::Connected
        } else {
            DeviceStatus::Disconnected
        },
        current_task_id: None,
        current_task: None,
        last_used: now,
        ..e
    }
}

/// A device after a connect at the time `now` on the port `port`: as it
/// was where it has a streaming endpoint, else connected, with an endpoint
/// on that port.
pub open spec fn connected_entry(e: DeviceEntry, port: u16, now: i64) -> DeviceEntry {
    if e.scrcpy is Some {
        e
    } else {
        DeviceEntry {
            scrcpy: Some(ScrcpyConnect { port, scrcpy_server_port: SCRCPY_SERVER_PORT }),
            status: DeviceStatus::Connected,
            last_used: now,
            ..e
        }
    }
}

/// Connecting is idempotent: a device that has been connected is not
/// changed by another connect, whatever port and time the other connect
/// is given.
pub proof fn lemma_connect_idempotent(e: DeviceEntry, port: u16, now: i64, port2: u16, later: i64)
    ensures
        connected_entry(connected_entry(e, port, now), port2, later) == connected_entry(
            e,
            port,
            now,
        ),
{
}

/// The threshold of the clean-up in seconds, as a signed number.
pub open spec fn cleanup_threshold(config: DevicePoolConfig) -> i64 {
    if config.idle_cleanup_threshold > i64::MAX {
        i64::MAX
    } else {
        config.idle_cleanup_threshold as i64
    }
}

/// The pool of devices.
#[derive(Debug, Clone)]
pub struct DevicePool {
    /// The devices, in the order they were registered. No serial occurs
    /// twice.
    pub devices: Vec<DeviceEntry>,
    pub config: DevicePoolConfig,
    /// The settings of the model of every agent.
    pub model_config: ModelConfig,
    /// The settings of every agent.
    pub agent_config: AgentConfig,
    /// The events that have not been handed out yet, oldest first.
    pub events: Vec<DevicePoolEvent>,
}

impl DevicePool {
    /// Whether `other` differs from this pool in its devices and events at
    /// most.
    pub open spec fn same_settings(self, other: DevicePool) -> bool {
        &&& other.config == self.config
        &&& other.model_config == self.model_config
        &&& other.agent_config == self.agent_config
    }

    /// Whether `other` is this pool with the device at `i` replaced by
    /// `entry` and with `event` appended to the outbox.
    pub open spec fn updated(
        self,
        other: DevicePool,
        i: int,
        entry: DeviceEntry,
        event: PoolEventView,
    ) -> bool {
        &&& self.same_settings(other)
        &&& other.devices@ == self.devices@.update(i, entry)
        &&& other.events.deep_view() == self.events.deep_view().push(event)
    }

    /// An empty pool.
    pub fn new(config: DevicePoolConfig, model_config: ModelConfig, agent_config: AgentConfig) -> (r:
        Self)
        ensures
            r.devices@.len() == 0,
            distinct_serials(r.devices@),
            agents_busy(r.devices@),
            r.events@.len() == 0,
            r.config == config,
            r.model_config == model_config,
            r.agent_config == agent_config,
    {
        Self { devices: Vec::new(), config, model_config, agent_config, events: Vec::new() }
    }

    /// The index of the device whose serial is `serial`.
    pub fn find(&self, serial: &str) -> (r: Option<usize>)
        ensures
            match r {
                Some(i) => i == index_of(self.devices@, serial@) && i < self.devices@.len()
                    && self.devices@[i as int].serial@ == serial@,
                None => index_of(self.devices@, serial@) == -1,
            },
    {
        let mut i: usize = 0;
        while i < self.devices.len()
            invariant
                i <= self.devices@.len(),
                index_of(self.devices@, serial@) == index_from(self.devices@, serial@, i as int),
            decreases self.devices@.len() - i,
        {
            if same_text(self.devices[i].serial.as_str(), serial) {
                return Some(i);
            }
            i += 1;
        }
        None
    }

    fn emit(&mut self, event: DevicePoolEvent)
        ensures
            old(self).same_settings(*final(self)),
            final(self).devices == old(self).devices,
            final(self).events.deep_view() == old(self).events.deep_view().push(event.deep_view()),
    {
        self.events.push(event);
        proof {
            assert(self.events.deep_view() =~= old(self).events.deep_view().push(
                event.deep_view(),
            ));
        }
    }

    fn not_found(serial: &str) -> (e: AppError)
        ensures
            is_not_found(e, serial@),
    {
        AppError::AgentError(AgentError::DeviceNotFound(serial.to_owned()))
    }

    /// Hands out the events of the outbox, oldest first, and empties it.
    pub fn take_events(&mut self) -> (r: Vec<DevicePoolEvent>)
        ensures
            r == old(self).events,
            final(self).events@.len() == 0,
            final(self).devices == old(self).devices,
            old(self).same_settings(*final(self)),
    {
        let mut out: Vec<DevicePoolEvent> = Vec::new();
        std::mem::swap(&mut out, &mut self.events);
        out
    }

    /// Registers a device at the time `now`. Refused, with the pool
    /// unchanged, where the pool is full, and else where it holds the
    /// serial already. The new device comes last, is merely registered,
    /// and has neither streaming endpoint nor agent nor task.
    pub fn register_device(&mut self, serial: String, name: Option<String>, now: i64) -> (r:
        Result<(), AppError>)
        ensures
            old(self).same_settings(*final(self)),
            agents_busy(old(self).devices@) ==> agents_busy(final(self).devices@),
            distinct_serials(old(self).devices@) ==> distinct_serials(final(self).devices@),
            match r {
                Ok(_) => {
                    &&& old(self).devices@.len() < old(self).config.max_connections
                    &&& index_of(old(self).devices@, serial@) == -1
                    &&& final(self).devices@.len() == old(self).devices@.len() + 1
                    &&& final(self).devices@.drop_last() == old(self).devices@
                    &&& final(self).devices@.last().serial == serial
                    &&& final(self).devices@.last().name == name
                    &&& final(self).devices@.last().scrcpy is None
                    &&& final(self).devices@.last().agent is None
                    &&& final(self).devices@.last().status is Registered
                    &&& final(self).devices@.last().last_used == now
                    &&& final(self).devices@.last().created_at == now
                    &&& final(self).devices@.last().current_task_id is None
                    &&& final(self).devices@.last().current_task is None
                    &&& final(self).events.deep_view() == old(self).events.deep_view().push(
                        PoolEventView::DeviceRegistered { serial: serial@ },
                    )
                },
                Err(e) => {
                    &&& final(self).devices == old(self).devices
                    &&& final(self).events == old(self).events
                    &&& e matches AppError::AgentError(AgentError::ValidationError(text))
                    &&& if old(self).devices@.len() >= old(self).config.max_connections {
                        text@ == "已达最大连接数限制: "@ + decimal(
                            old(self).config.max_connections as nat,
                        )
                    } else {
                        index_of(old(self).devices@, serial@) >= 0 && text@ == "设备已注册: "@
                            + serial@
                    }
                },
            },
    {
        if self.devices.len() >= self.config.max_connections {
            let mut v = chars_of("已达最大连接数限制: ");
            push_decimal(&mut v, self.config.max_connections as u64);
            return Err(
                AppError::AgentError(AgentError::ValidationError(string_of(v.as_slice()))),
            );
        }
        if self.find(serial.as_str()).is_some() {
            return Err(
                AppError::AgentError(
                    AgentError::ValidationError(concat2("设备已注册: ", serial.as_str())),
                ),
            );
        }
        let event = DevicePoolEvent::DeviceRegistered { serial: serial.clone() };
        let entry = DeviceEntry::new(serial, name, now);
        self.devices.push(entry);
        proof {
            assert(self.devices@.drop_last() =~= old(self).devices@);
            lemma_index_of_bound(old(self).devices@, serial@);
            if distinct_serials(old(self).devices@) {
                assert forall|i: int, j: int| 0 <= i < j < self.devices@.len() implies (
                #[trigger] self.devices@[i]).serial@ != (#[trigger] self.devices@[j]).serial@ by {
                    assert(self.devices@[i] == old(self).devices@[i]);
                    if j < old(self).devices@.len() {
                        assert(self.devices@[j] == old(self).devices@[j]);
                    }
                }
            }
        }
        self.emit(event);
        Ok(())
    }

    /// Removes a device from the pool, with its agent and its streaming
    /// endpoint. Refused, with the pool unchanged, where the pool does not
    /// hold the serial.
    pub fn unregister_device(&mut self, serial: &str) -> (r: Result<(), AppError>)
        ensures
            old(self).same_settings(*final(self)),
            agents_busy(old(self).devices@) ==> agents_busy(final(self).devices@),
            distinct_serials(old(self).devices@) ==> distinct_serials(final(self).devices@),
            match r {
                Ok(_) => {
                    &&& 0 <= index_of(old(self).devices@, serial@) < old(self).devices@.len()
                    &&& final(self).devices@ == old(self).devices@.remove(
                        index_of(old(self).devices@, serial@),
                    )
                    &&& final(self).events.deep_view() == old(self).events.deep_view().push(
                        PoolEventView::DeviceDisconnected { serial: serial@ },
                    )
                },
                Err(e) => {
                    &&& index_of(old(self).devices@, serial@) == -1
                    &&& is_not_found(e, serial@)
                    &&& final(self).devices == old(self).devices
                    &&& final(self).events == old(self).events
                },
            },
    {
        match self.find(serial) {
            Some(i) => {
                let mut entry = self.devices.remove(i);
                match &mut entry.agent {
                    Some(agent) => {
                        agent.stop();
                    },
                    None => {},
                }
                self.emit(DevicePoolEvent::DeviceDisconnected { serial: serial.to_owned() });
                Ok(())
            },
            None => Err(Self::not_found(serial)),
        }
    }

    /// Connects a device at the time `now`: where it has no streaming
    /// endpoint yet, it gets one on the port `port` and is connected.
    /// Where it has one already, nothing changes at all. Refused where
    /// the pool does not hold the serial.
    pub fn connect_device(&mut self, serial: &str, port: u16, now: i64) -> (r: Result<
        (),
        AppError,
    >)
        ensures
            old(self).same_settings(*final(self)),
            agents_busy(old(self).devices@) ==> agents_busy(final(self).devices@),
            distinct_serials(old(self).devices@) ==> distinct_serials(final(self).devices@),
            match r {
                Ok(_) => {
                    let i = index_of(old(self).devices@, serial@);
                    &&& 0 <= i < old(self).devices@.len()
                    &&& final(self).devices@ == old(self).devices@.update(
                        i,
                        connected_entry(old(self).devices@[i], port, now),
                    )
                    &&& if old(self).devices@[i].scrcpy is Some {
                        final(self).devices == old(self).devices && final(self).events == old(
                            self,
                        ).events
                    } else {
                        final(self).events.deep_view() == old(self).events.deep_view().push(
                            PoolEventView::DeviceConnected { serial: serial@ },
                        )
                    }
                },
                Err(e) => {
                    &&& index_of(old(self).devices@, serial@) == -1
                    &&& is_not_found(e, serial@)
                    &&& final(self).devices == old(self).devices
                    &&& final(self).events == old(self).events
                },
            },
    {
        let i = match self.find(serial) {
            Some(i) => i,
            None => {
                return Err(Self::not_found(serial));
            },
        };
        if self.devices[i].scrcpy.is_some() {
            proof {
                assert(self.devices@ =~= old(self).devices@.update(
                    i as int,
                    connected_entry(old(self).devices@[i as int], port, now),
                ));
            }
            return Ok(());
        }
        let entry = &mut self.devices[i];
        entry.scrcpy = Some(ScrcpyConnect::new(port, SCRCPY_SERVER_PORT));
        entry.set_status(DeviceStatus::Connected, now);
        self.emit(DevicePoolEvent::DeviceConnected { serial: serial.to_owned() });
        Ok(())
    }

    /// Disconnects a device at the time `now`: its agent is stopped and
    /// dropped, its streaming endpoint is dropped, and it is disconnected.
    /// Refused where the pool does not hold the serial.
    pub fn disconnect_device(&mut self, serial: &str, now: i64) -> (r: Result<(), AppError>)
        ensures
            old(self).same_settings(*final(self)),
            agents_busy(old(self).devices@) ==> agents_busy(final(self).devices@),
            distinct_serials(old(self).devices@) ==> distinct_serials(final(self).devices@),
            match r {
                Ok(_) => {
                    let i = index_of(old(self).devices@, serial@);
                    &&& 0 <= i < old(self).devices@.len()
                    &&& old(self).updated(
                        *final(self),
                        i,
                        DeviceEntry {
                            agent: None,
                            scrcpy: None,
                            status: DeviceStatus::Disconnected,
                            last_used: now,
                            ..old(self).devices@[i]
                        },
                        PoolEventView::DeviceDisconnected { serial: serial@ },
                    )
                },
                Err(e) => {
                    &&& index_of(old(self).devices@, serial@) == -1
                    &&& is_not_found(e, serial@)
                    &&& final(self).devices == old(self).devices
                    &&& final(self).events == old(self).events
                },
            },
    {
        let i = match self.find(serial) {
            Some(i) => i,
            None => {
                return Err(Self::not_found(serial));
            },
        };
        let entry = &mut self.devices[i];
        entry.agent = None;
        entry.scrcpy = None;
        entry.set_status(DeviceStatus::Disconnected, now);
        self.emit(DevicePoolEvent::DeviceDisconnected { serial: serial.to_owned() });
        Ok(())
    }

    /// The agent of a device, created where the device has none, with
    /// `fresh_id` as the identifier of a new agent. The device is
    /// connected first, on the port `port`, where it has no streaming
    /// endpoint. An agent that exists is reused and the device is marked
    /// as used; a new agent is idle, has the pool's agent settings, and
    /// makes the device busy. Returns the identifier of the agent.
    /// Refused where the pool does not hold the serial.
    pub fn get_agent_with_id(&mut self, serial: &str, port: u16, fresh_id: String, now: i64) -> (r:
        Result<String, AppError>)
        ensures
            old(self).same_settings(*final(self)),
            agents_busy(old(self).devices@) ==> agents_busy(final(self).devices@),
            distinct_serials(old(self).devices@) ==> distinct_serials(final(self).devices@),
            match r {
                Ok(id) => {
                    let i = index_of(old(self).devices@, serial@);
                    let before = old(self).devices@[i];
                    let after = final(self).devices@[i];
                    &&& 0 <= i < old(self).devices@.len()
                    &&& final(self).devices@.len() == old(self).devices@.len()
                    &&& forall|j: int|
                        0 <= j < old(self).devices@.len() && j != i ==> final(self).devices@[j]
                            == old(self).devices@[j]
                    &&& after.serial == before.serial
                    &&& after.name == before.name
                    &&& after.created_at == before.created_at
                    &&& after.current_task_id == before.current_task_id
                    &&& after.current_task == before.current_task
                    &&& after.last_used == now
                    &&& after.scrcpy == (if before.scrcpy is Some {
                        before.scrcpy
                    } else {
                        Some(ScrcpyConnect { port, scrcpy_server_port: SCRCPY_SERVER_PORT })
                    })
                    &&& after.agent is Some
                    &&& id@ == after.agent->0.id@
                    &&& if before.agent is Some {
                        &&& after.agent == before.agent
                        &&& after.status == (if before.scrcpy is Some {
                            before.status
                        } else {
                            DeviceStatus::Connected
                        })
                    } else {
                        &&& after.status is Busy
                        &&& after.agent->0.id == fresh_id
                        &&& after.agent->0.is_new(fresh_id@, old(self).agent_config)
                    }
                    &&& final(self).events.deep_view() == old(self).events.deep_view() + (
                    if before.scrcpy is Some {
                        Seq::<PoolEventView>::empty()
                    } else {
                        seq![PoolEventView::DeviceConnected { serial: serial@ }]
                    }) + (if before.agent is Some {
                        Seq::<PoolEventView>::empty()
                    } else {
                        seq![PoolEventView::AgentCreated { serial: serial@, agent_id: fresh_id@ }]
                    })
                },
                Err(e) => {
                    &&& index_of(old(self).devices@, serial@) == -1
                    &&& is_not_found(e, serial@)
                    &&& final(self).devices == old(self).devices
                    &&& final(self).events == old(self).events
                },
            },
    {
        let i = match self.find(serial) {
            Some(i) => i,
            None => {
                return Err(Self::not_found(serial));
            },
        };
        if self.devices[i].scrcpy.is_none() {
            let entry = &mut self.devices[i];
            entry.scrcpy = Some(ScrcpyConnect::new(port, SCRCPY_SERVER_PORT));
            entry.set_status(DeviceStatus::Connected, now);
            self.emit(DevicePoolEvent::DeviceConnected { serial: serial.to_owned() });
        }
        let ghost middle = *self;
        proof {
            assert(middle.events.deep_view() =~= old(self).events.deep_view() + (if old(
                self,
            ).devices@[i as int].scrcpy is Some {
                Seq::<PoolEventView>::empty()
            } else {
                seq![PoolEventView::DeviceConnected { serial: serial@ }]
            }));
        }
        let existing = match &self.devices[i].agent {
            Some(agent) => Some(agent.id.clone()),
            None => None,
        };
        match existing {
            Some(id) => {
                let entry = &mut self.devices[i];
                entry.touch_at(now);
                proof {
                    assert(self.events.deep_view() =~= middle.events.deep_view()
                        + Seq::<PoolEventView>::empty());
                }
                Ok(id)
            },
            None => {
                let agent = PhoneAgent::new(fresh_id.clone(), self.agent_config.copy());
                let entry = &mut self.devices[i];
                entry.agent = Some(agent);
                entry.set_status(DeviceStatus::Busy, now);
                self.emit(
                    DevicePoolEvent::AgentCreated {
                        serial: serial.to_owned(),
                        agent_id: fresh_id.clone(),
                    },
                );
                proof {
                    assert(self.events.deep_view() =~= middle.events.deep_view()
                        + seq![
                        PoolEventView::AgentCreated { serial: serial@, agent_id: fresh_id@ },
                    ]);
                }
                Ok(fresh_id)
            },
        }
    }

    /// The agent of a device, created with a random identifier where the
    /// device has none. See [`DevicePool::get_agent_with_id`], which this
    /// function calls with the identifier it drew.
    pub fn get_agent(&mut self, serial: &str, port: u16, now: i64) -> (r: Result<String, AppError>)
        ensures
            old(self).same_settings(*final(self)),
            agents_busy(old(self).devices@) ==> agents_busy(final(self).devices@),
            distinct_serials(old(self).devices@) ==> distinct_serials(final(self).devices@),
            match r {
                Ok(id) => {
                    let i = index_of(old(self).devices@, serial@);
                    let before = old(self).devices@[i];
                    let after = final(self).devices@[i];
                    &&& 0 <= i < old(self).devices@.len()
                    &&& final(self).devices@.len() == old(self).devices@.len()
                    &&& forall|j: int|
                        0 <= j < old(self).devices@.len() && j != i ==> final(self).devices@[j]
                            == old(self).devices@[j]
                    &&& after.serial == before.serial
                    &&& after.name == before.name
                    &&& after.created_at == before.created_at
                    &&& after.current_task_id == before.current_task_id
                    &&& after.current_task == before.current_task
                    &&& after.last_used == now
                    &&& after.scrcpy == (if before.scrcpy is Some {
                        before.scrcpy
                    } else {
                        Some(ScrcpyConnect { port, scrcpy_server_port: SCRCPY_SERVER_PORT })
                    })
                    &&& after.agent is Some
                    &&& id@ == after.agent->0.id@
                    &&& if before.agent is Some {
                        &&& after.agent == before.agent
                        &&& after.status == (if before.scrcpy is Some {
                            before.status
                        } else {
                            DeviceStatus::Connected
                        })
                    } else {
                        &&& after.status is Busy
                        &&& id@.len() == 36
                        &&& after.agent->0.is_new(id@, old(self).agent_config)
                    }
                    &&& final(self).events.deep_view() == old(self).events.deep_view() + (
                    if before.scrcpy is Some {
                        Seq::<PoolEventView>::empty()
                    } else {
                        seq![PoolEventView::DeviceConnected { serial: serial@ }]
                    }) + (if before.agent is Some {
                        Seq::<PoolEventView>::empty()
                    } else {
                        seq![PoolEventView::AgentCreated { serial: serial@, agent_id: id@ }]
                    })
                },
                Err(e) => {
                    &&& index_of(old(self).devices@, serial@) == -1
                    &&& is_not_found(e, serial@)
                    &&& final(self).devices == old(self).devices
                    &&& final(self).events == old(self).events
                },
            },
    {
        let fresh = new_uuid_text();
        self.get_agent_with_id(serial, port, fresh, now)
    }

    /// Releases the agent of a device at the time `now`: the agent, where
    /// the device has one, is stopped and dropped, and its destruction is
    /// announced; the device is left without a task, connected where it
    /// has a streaming endpoint and disconnected where it has none.
    /// Refused where the pool does not hold the serial.
    pub fn release_agent(&mut self, serial: &str, now: i64) -> (r: Result<(), AppError>)
        ensures
            old(self).same_settings(*final(self)),
            agents_busy(old(self).devices@) ==> agents_busy(final(self).devices@),
            distinct_serials(old(self).devices@) ==> distinct_serials(final(self).devices@),
            match r {
                Ok(_) => {
                    let i = index_of(old(self).devices@, serial@);
                    &&& 0 <= i < old(self).devices@.len()
                    &&& final(self).devices@ == old(self).devices@.update(
                        i,
                        released(old(self).devices@[i], now),
                    )
                    &&& final(self).devices@[i].agent is None
                    &&& final(self).devices@[i].status is Connected || final(self).devices@[i].status
                        is Disconnected
                    &&& final(self).devices@[i].current_task_id is None
                    &&& final(self).devices@[i].current_task is None
                    &&& final(self).events.deep_view() == old(self).events.deep_view() + (
                    match old(self).devices@[i].agent {
                        Some(agent) => seq![
                            PoolEventView::AgentDestroyed { serial: serial@, agent_id: agent.id@ },
                        ],
                        None => Seq::<PoolEventView>::empty(),
                    })
                },
                Err(e) => {
                    &&& index_of(old(self).devices@, serial@) == -1
                    &&& is_not_found(e, serial@)
                    &&& final(self).devices == old(self).devices
                    &&& final(self).events == old(self).events
                },
            },
    {
        let i = match self.find(serial) {
            Some(i) => i,
            None => {
                return Err(Self::not_found(serial));
            },
        };
        let agent_id = match &self.devices[i].agent {
            Some(agent) => Some(agent.id.clone()),
            None => None,
        };
        let entry = &mut self.devices[i];
        entry.agent = None;
        entry.current_task_id = None;
        entry.current_task = None;
        let status = if entry.scrcpy.is_some() {
            DeviceStatus::Connected
        } else {
            DeviceStatus::Disconnected
        };
        entry.set_status(status, now);
        match agent_id {
            Some(id) => {
                self.emit(
                    DevicePoolEvent::AgentDestroyed { serial: serial.to_owned(), agent_id: id },
                );
            },
            None => {
                proof {
                    assert(self.events.deep_view() =~= old(self).events.deep_view()
                        + Seq::<PoolEventView>::empty());
                }
            },
        }
        Ok(())
    }

    /// The serial and the status of every device, in the order of the
    /// pool.
    pub fn get_all_devices_status(&self) -> (r: Vec<(String, DeviceStatus)>)
        ensures
            r@.len() == self.devices@.len(),
            forall|i: int|
                0 <= i < r@.len() ==> (#[trigger] r@[i]).0 == self.devices@[i].serial && r@[i].1
                    == self.devices@[i].status,
    {
        let mut out: Vec<(String, DeviceStatus)> = Vec::new();
        let mut i: usize = 0;
        while i < self.devices.len()
            invariant
                i <= self.devices@.len(),
                out@.len() == i,
                forall|j: int|
                    0 <= j < i ==> (#[trigger] out@[j]).0 == self.devices@[j].serial && out@[j].1
                        == self.devices@[j].status,
            decreases self.devices@.len() - i,
        {
            out.push((self.devices[i].serial.clone(), self.devices[i].status.copy()));
            i += 1;
        }
        out
    }

    /// The serial of every device, in the order of the pool.
    pub fn list_devices(&self) -> (r: Vec<String>)
        ensures
            r@.len() == self.devices@.len(),
            forall|i: int| 0 <= i < r@.len() ==> #[trigger] r@[i] == self.devices@[i].serial,
    {
        let mut out: Vec<String> = Vec::new();
        let mut i: usize = 0;
        while i < self.devices.len()
            invariant
                i <= self.devices@.len(),
                out@.len() == i,
                forall|j: int| 0 <= j < i ==> #[trigger] out@[j] == self.devices@[j].serial,
            decreases self.devices@.len() - i,
        {
            out.push(self.devices[i].serial.clone());
            i += 1;
        }
        out
    }

    /// What the pool tells of a device at the time `now`; none where it
    /// does not hold the serial.
    pub fn get_device_info(&self, serial: &str, now: i64) -> (r: Option<DeviceInfo>)
        ensures
            match r {
                Some(info) => {
                    let i = index_of(self.devices@, serial@);
                    &&& 0 <= i < self.devices@.len()
                    &&& info.serial == self.devices@[i].serial
                    &&& info.name == self.devices@[i].name
                    &&& info.status == self.devices@[i].status
                    &&& info.has_agent == (self.devices@[i].agent is Some)
                    &&& info.last_used == self.devices@[i].last_used / 1000
                    &&& info.idle_seconds == seconds_between(self.devices@[i].last_used, now)
                },
                None => index_of(self.devices@, serial@) == -1,
            },
    {
        match self.find(serial) {
            Some(i) => Some(self.devices[i].to_info_at(now)),
            None => None,
        }
    }

    /// What the pool tells of every device at the time `now`, in the order
    /// of the pool.
    pub fn get_all_devices_info(&self, now: i64) -> (r: Vec<DeviceInfo>)
        ensures
            r@.len() == self.devices@.len(),
            forall|i: int|
                0 <= i < r@.len() ==> {
                    &&& (#[trigger] r@[i]).serial == self.devices@[i].serial
                    &&& r@[i].name == self.devices@[i].name
                    &&& r@[i].status == self.devices@[i].status
                    &&& r@[i].has_agent == (self.devices@[i].agent is Some)
                    &&& r@[i].last_used == self.devices@[i].last_used / 1000
                    &&& r@[i].idle_seconds == seconds_between(self.devices@[i].last_used, now)
                },
    {
        let mut out: Vec<DeviceInfo> = Vec::new();
        let mut i: usize = 0;
        while i < self.devices.len()
            invariant
                i <= self.devices@.len(),
                out@.len() == i,
                forall|j: int|
                    0 <= j < i ==> {
                        &&& (#[trigger] out@[j]).serial == self.devices@[j].serial
                        &&& out@[j].name == self.devices@[j].name
                        &&& out@[j].status == self.devices@[j].status
                        &&& out@[j].has_agent == (self.devices@[j].agent is Some)
                        &&& out@[j].last_used == self.devices@[j].last_used / 1000
                        &&& out@[j].idle_seconds == seconds_between(self.devices@[j].last_used, now)
                    },
            decreases self.devices@.len() - i,
        {
            out.push(self.devices[i].to_info_at(now));
            i += 1;
        }
        out
    }

    /// Cleans up at the time `now`: every device that has been idle for
    /// more than twice the threshold, without agent or task, loses its
    /// streaming endpoint and is disconnected. Returns the number of
    /// agents dropped, which is 0: a device with an agent is never idle.
    pub fn cleanup_idle_devices(&mut self, now: i64) -> (r: usize)
        ensures
            r == 0,
            old(self).same_settings(*final(self)),
            final(self).events == old(self).events,
            final(self).devices@.len() == old(self).devices@.len(),
            forall|i: int|
                0 <= i < old(self).devices@.len() ==> #[trigger] final(self).devices@[i] == cleaned(
                    old(self).devices@[i],
                    cleanup_threshold(old(self).config),
                    now,
                ),
            agents_busy(old(self).devices@) ==> agents_busy(final(self).devices@),
            distinct_serials(old(self).devices@) ==> distinct_serials(final(self).devices@),
    {
        let threshold: i64 = if self.config.idle_cleanup_threshold > 0x7fff_ffff_ffff_ffff {
            0x7fff_ffff_ffff_ffff
        } else {
            self.config.idle_cleanup_threshold as i64
        };
        let mut i: usize = 0;
        while i < self.devices.len()
            invariant
                i <= self.devices@.len(),
                threshold == cleanup_threshold(old(self).config),
                old(self).same_settings(*self),
                self.events == old(self).events,
                self.devices@.len() == old(self).devices@.len(),
                forall|j: int|
                    0 <= j < i ==> #[trigger] self.devices@[j] == cleaned(
                        old(self).devices@[j],
                        threshold,
                        now,
                    ),
                forall|j: int|
                    i <= j < self.devices@.len() ==> #[trigger] self.devices@[j] == old(
                        self,
                    ).devices@[j],
            decreases self.devices@.len() - i,
        {
            if self.devices[i].is_idle_at(threshold, now) {
                let idle: i64 = self.devices[i].idle_seconds_at(now);
                if idle as i128 > threshold as i128 * 2 {
                    let entry = &mut self.devices[i];
                    entry.scrcpy = None;
                    entry.set_status(DeviceStatus::Disconnected, now);
                }
            }
            i += 1;
        }
        0
    }

    /// Whether each device is healthy: it has a streaming endpoint and is
    /// connected or busy. One answer for every device, in the order of the
    /// pool.
    pub fn health_check(&self) -> (r: Vec<(String, bool)>)
        ensures
            r@.len() == self.devices@.len(),
            forall|i: int|
                0 <= i < r@.len() ==> (#[trigger] r@[i]).0 == self.devices@[i].serial && r@[i].1
                    == self.devices@[i].connected(),
    {
        let mut out: Vec<(String, bool)> = Vec::new();
        let mut i: usize = 0;
        while i < self.devices.len()
            invariant
                i <= self.devices@.len(),
                out@.len() == i,
                forall|j: int|
                    0 <= j < i ==> (#[trigger] out@[j]).0 == self.devices@[j].serial && out@[j].1
                        == self.devices@[j].connected(),
            decreases self.devices@.len() - i,
        {
            out.push((self.devices[i].serial.clone(), self.devices[i].is_connected()));
            i += 1;
        }
        out
    }

    /// Enters a task on a device at the time `now`: the device is busy
    /// with it. Refused where the pool does not hold the serial.
    pub fn update_task_status(&mut self, serial: &str, task_id: String, task: String, now: i64) -> (r:
        Result<(), AppError>)
        ensures
            old(self).same_settings(*final(self)),
            agents_busy(old(self).devices@) ==> agents_busy(final(self).devices@),
            distinct_serials(old(self).devices@) ==> distinct_serials(final(self).devices@),
            match r {
                Ok(_) => {
                    let i = index_of(old(self).devices@, serial@);
                    &&& 0 <= i < old(self).devices@.len()
                    &&& final(self).devices@.len() == old(self).devices@.len()
                    &&& final(self).devices@ == old(self).devices@.update(
                        i,
                        final(self).devices@[i],
                    )
                    &&& final(self).devices@[i] == (DeviceEntry {
                        current_task_id: Some(task_id),
                        current_task: final(self).devices@[i].current_task,
                        status: DeviceStatus::Busy,
                        last_used: now,
                        ..old(self).devices@[i]
                    })
                    &&& opt_text(final(self).devices@[i].current_task) == Some(task@)
                    &&& final(self).events.deep_view() == old(self).events.deep_view().push(
                        PoolEventView::TaskStarted { serial: serial@, task: task@ },
                    )
                },
                Err(e) => {
                    &&& index_of(old(self).devices@, serial@) == -1
                    &&& is_not_found(e, serial@)
                    &&& final(self).devices == old(self).devices
                    &&& final(self).events == old(self).events
                },
            },
    {
        let i = match self.find(serial) {
            Some(i) => i,
            None => {
                return Err(Self::not_found(serial));
            },
        };
        let event = DevicePoolEvent::TaskStarted { serial: serial.to_owned(), task: task.clone() };
        let entry = &mut self.devices[i];
        entry.start_task(task_id, task, now);
        self.emit(event);
        Ok(())
    }

    /// Leaves the task of a device at the time `now`, as completed with
    /// `result`: the device is without a task, busy where it has an agent
    /// and connected where it has none. Refused where the pool does not
    /// hold the serial.
    pub fn mark_task_completed(&mut self, serial: &str, result: String, now: i64) -> (r: Result<
        (),
        AppError,
    >)
        ensures
            old(self).same_settings(*final(self)),
            match r {
                Ok(_) => {
                    let i = index_of(old(self).devices@, serial@);
                    &&& 0 <= i < old(self).devices@.len()
                    &&& old(self).updated(
                        *final(self),
                        i,
                        old(self).devices@[i].after_task(now),
                        PoolEventView::TaskCompleted { serial: serial@, result: result@ },
                    )
                    &&& agents_busy(old(self).devices@) ==> agents_busy(final(self).devices@)
                    &&& distinct_serials(old(self).devices@) ==> distinct_serials(
                        final(self).devices@,
                    )
                },
                Err(e) => {
                    &&& index_of(old(self).devices@, serial@) == -1
                    &&& is_not_found(e, serial@)
                    &&& final(self).devices == old(self).devices
                    &&& final(self).events == old(self).events
                },
            },
    {
        let i = match self.find(serial) {
            Some(i) => i,
            None => {
                return Err(Self::not_found(serial));
            },
        };
        let entry = &mut self.devices[i];
        entry.complete_task(now);
        self.emit(DevicePoolEvent::TaskCompleted { serial: serial.to_owned(), result });
        Ok(())
    }

    /// Leaves the task of a device at the time `now`, as failed with
    /// `error`: the device is without a task, busy where it has an agent
    /// and connected where it has none. Refused where the pool does not
    /// hold the serial.
    pub fn mark_task_failed(&mut self, serial: &str, error: String, now: i64) -> (r: Result<
        (),
        AppError,
    >)
        ensures
            old(self).same_settings(*final(self)),
            match r {
                Ok(_) => {
                    let i = index_of(old(self).devices@, serial@);
                    &&& 0 <= i < old(self).devices@.len()
                    &&& old(self).updated(
                        *final(self),
                        i,
                        old(self).devices@[i].after_task(now),
                        PoolEventView::TaskFailed { serial: serial@, error: error@ },
                    )
                    &&& agents_busy(old(self).devices@) ==> agents_busy(final(self).devices@)
                    &&& distinct_serials(old(self).devices@) ==> distinct_serials(
                        final(self).devices@,
                    )
                },
                Err(e) => {
                    &&& index_of(old(self).devices@, serial@) == -1
                    &&& is_not_found(e, serial@)
                    &&& final(self).devices == old(self).devices
                    &&& final(self).events == old(self).events
                },
            },
    {
        let i = match self.find(serial) {
            Some(i) => i,
            None => {
                return Err(Self::not_found(serial));
            },
        };
        let entry = &mut self.devices[i];
        entry.complete_task(now);
        self.emit(DevicePoolEvent::TaskFailed { serial: serial.to_owned(), error });
        Ok(())
    }
}

/// The index of a serial lies within the pool or is -1, and where it
/// lies within, the device at it has that serial and no device before it
/// has.
pub proof fn lemma_index_of_bound(devices: Seq<DeviceEntry>, serial: Seq<char>)
    ensures
        -1 <= index_of(devices, serial) < devices.len(),
        index_of(devices, serial) >= 0 ==> devices[index_of(devices, serial)].serial@ == serial,
        forall|j: int| 0 <= j < index_of(devices, serial) ==> (#[trigger] devices[j]).serial@ != serial,
        index_of(devices, serial) == -1 ==> forall|j: int|
            0 <= j < devices.len() ==> (#[trigger] devices[j]).serial@ != serial,
{
    lemma_index_from_bound(devices, serial, 0);
}

/// The same from any index on.
pub proof fn lemma_index_from_bound(devices: Seq<DeviceEntry>, serial: Seq<char>, from: int)
    requires
        0 <= from,
    ensures
        -1 <= index_from(devices, serial, from) < devices.len(),
        index_from(devices, serial, from) >= 0 ==> from <= index_from(devices, serial, from)
            && devices[index_from(devices, serial, from)].serial@ == serial,
        forall|j: int|
            from <= j < index_from(devices, serial, from) ==> (#[trigger] devices[j]).serial@
                != serial,
        index_from(devices, serial, from) == -1 ==> forall|j: int|
            from <= j < devices.len() ==> (#[trigger] devices[j]).serial@ != serial,
    decreases devices.len() - from,
{
    if from < devices.len() && devices[from].serial@ != serial {
        lemma_index_from_bound(devices, serial, from + 1);
    }
}

/// Where two lists of devices have the same serials at the same places,
/// a serial is found at the same place in both.
pub proof fn lemma_index_kept(a: Seq<DeviceEntry>, b: Seq<DeviceEntry>, serial: Seq<char>)
    requires
        a.len() == b.len(),
        forall|i: int| 0 <= i < a.len() ==> (#[trigger] a[i]).serial == b[i].serial,
    ensures
        index_of(a, serial) == index_of(b, serial),
{
    lemma_index_from_kept(a, b, serial, 0);
}

pub proof fn lemma_index_from_kept(
    a: Seq<DeviceEntry>,
    b: Seq<DeviceEntry>,
    serial: Seq<char>,
    from: int,
)
    requires
        a.len() == b.len(),
        forall|i: int| 0 <= i < a.len() ==> (#[trigger] a[i]).serial == b[i].serial,
    ensures
        index_from(a, serial, from) == index_from(b, serial, from),
    decreases a.len() - from,
{
    if 0 <= from < a.len() {
        assert(a[from].serial == b[from].serial);
        lemma_index_from_kept(a, b, serial, from + 1);
    }
}

/// A serial that a list of devices does not hold is found at the end of
/// the list once a device with that serial has been appended.
pub proof fn lemma_index_of_appended(devices: Seq<DeviceEntry>, entry: DeviceEntry, from: int)
    requires
        0 <= from <= devices.len(),
        index_from(devices, entry.serial@, from) == -1,
    ensures
        index_from(devices.push(entry), entry.serial@, from) == devices.len(),
    decreases devices.len() - from,
{
    if from < devices.len() {
        assert(devices.push(entry)[from] == devices[from]);
        lemma_index_of_appended(devices, entry, from + 1);
    }
}

/// Registering a device and unregistering it again leaves the devices of
/// the pool as they were: for every list of devices that does not hold
/// the serial, appending a device with that serial and then removing the
/// device found under that serial gives the list back.
pub proof fn lemma_register_then_unregister(devices: Seq<DeviceEntry>, entry: DeviceEntry)
    requires
        index_of(devices, entry.serial@) == -1,
    ensures
        index_of(devices.push(entry), entry.serial@) == devices.len(),
        devices.push(entry).remove(index_of(devices.push(entry), entry.serial@)) == devices,
{
    lemma_index_of_appended(devices, entry, 0);
    assert(devices.push(entry).remove(devices.len() as int) =~= devices);
}

} // verus!
