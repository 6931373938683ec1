//! The streaming session of one device as a state machine.
//!
//! A session owns four supervised tasks (the server on the device, the
//! reader and the writer of its socket, and the broadcast to the viewers)
//! and the set of connected clients. The tasks live exactly while a client
//! is connected; a client that joins a running session restarts the tasks
//! and keeps the clients. The functions here decide; starting, aborting
//! and the sockets are the caller's.

use vstd::prelude::*;
use crate::agent::engine::traits::opt_text;
use crate::outside::{base64_encode, base64_text, from_utf8_lossy, utf8_lossy};
use crate::text::{
    chars_of, concat2, decimal, push_decimal, push_text, same_text, slice_chars, string_of,
    trim_char_bounds, strip_bounds, strip_back, CharClass,
};

verus! {

/// The number of tasks of a running session.
pub const SESSION_TASKS: usize = 4;

/// The number of bytes of the acknowledgement that opens the stream.
pub const ACK_LEN: usize = 1;

/// The number of bytes of the device metadata that follows it.
pub const META_LEN: usize = 64;

/// The largest number of bytes read at a time after the handshake.
pub const CHUNK_LEN: usize = 8192;

/// The ports of a device's streaming endpoint: the port that viewers
/// connect to, and the host port forwarded to the server on the device.
#[derive(Debug, Clone, Copy, PartialEq, Eq)]
pub struct ScrcpyConnect {
    pub port: u16,
    pub scrcpy_server_port: u16,
}

impl ScrcpyConnect {
    /// An endpoint on the given ports.
    pub fn new(port: u16, scrcpy_server_port: u16) -> (r: ScrcpyConnect)
        ensures
            r.port == port,
            r.scrcpy_server_port == scrcpy_server_port,
    {
        ScrcpyConnect { port, scrcpy_server_port }
    }

    /// The port that viewers connect to.
    pub fn get_port(&self) -> (p: u16)
        ensures
            p == self.port,
    {
        self.port
    }
}

/// The mathematical value of a session: the clients in the order they
/// joined, which of the four tasks are live, whether the control socket is
/// ready, and the device name from the handshake.
pub struct SessionView {
    pub clients: Seq<Seq<char>>,
    pub jar: bool,
    pub read: bool,
    pub write: bool,
    pub broadcast: bool,
    pub control_ready: bool,
    pub device_meta: Option<Seq<char>>,
}

/// `b` as a number.
pub open spec fn one_if(b: bool) -> nat {
    if b {
        1
    } else {
        0
    }
}

impl SessionView {
    /// The number of live tasks.
    pub open spec fn live_tasks(self) -> nat {
        one_if(self.jar) + one_if(self.read) + one_if(self.write) + one_if(self.broadcast)
    }

    /// Whether the session is running: its server task is live.
    pub open spec fn running(self) -> bool {
        self.jar
    }

    /// Whether the tasks fit the clients: none is live without a client,
    /// all four are live with one or more.
    pub open spec fn consistent(self) -> bool {
        if self.clients.len() == 0 {
            self.live_tasks() == 0
        } else {
            self.live_tasks() == 4
        }
    }

    /// The session with no task live and the control socket gone.
    pub open spec fn tasks_aborted(self) -> SessionView {
        SessionView {
            jar: false,
            read: false,
            write: false,
            broadcast: false,
            control_ready: false,
            ..self
        }
    }

    /// The session with all four tasks started afresh; the control socket
    /// is not ready yet and the device name not yet read.
    pub open spec fn tasks_started(self) -> SessionView {
        SessionView {
            jar: true,
            read: true,
            write: true,
            broadcast: true,
            control_ready: false,
            device_meta: None,
            ..self
        }
    }

    /// The empty session.
    pub open spec fn empty() -> SessionView {
        SessionView {
            clients: Seq::empty(),
            jar: false,
            read: false,
            write: false,
            broadcast: false,
            control_ready: false,
            device_meta: None,
        }
    }

    /// The session after the client `id` has connected: the client is in
    /// the set, and the tasks run afresh.
    pub open spec fn after_connect(self, id: Seq<char>) -> SessionView {
        SessionView { clients: with_client(self.clients, id), ..self }.tasks_started()
    }

    /// The session after the client `id` has disconnected: the client is
    /// gone; without a client left, no task is live and the device name is
    /// forgotten.
    pub open spec fn after_disconnect(self, id: Seq<char>) -> SessionView {
        if without_client(self.clients, id).len() == 0 {
            SessionView {
                clients: Seq::empty(),
                device_meta: None,
                ..self
            }.tasks_aborted()
        } else {
            SessionView { clients: without_client(self.clients, id), ..self }
        }
    }
}

/// A set of clients with `id` in it.
pub open spec fn with_client(clients: Seq<Seq<char>>, id: Seq<char>) -> Seq<Seq<char>> {
    if clients.contains(id) {
        clients
    } else {
        clients.push(id)
    }
}

/// A set of clients without `id`.
pub open spec fn without_client(clients: Seq<Seq<char>>, id: Seq<char>) -> Seq<Seq<char>>
    decreases clients.len(),
{
    if clients.len() == 0 {
        clients
    } else if clients.last() == id {
        without_client(clients.drop_last(), id)
    } else {
        without_client(clients.drop_last(), id).push(clients.last())
    }
}

/// What is to be done when a client has connected.
#[derive(Debug, Clone, Copy, PartialEq, Eq)]
pub enum ConnectPlan {
    /// No session was running: start the four tasks.
    Start,
    /// A session was running: abort its four tasks, wait
    /// `RESTART_DELAY_MS`, and start four new ones for all clients.
    Restart,
}

/// What is to be done when a client has disconnected.
#[derive(Debug, Clone, Copy, PartialEq, Eq)]
pub enum DisconnectPlan {
    /// The last client has gone: abort the four tasks.
    Teardown,
    /// Clients remain: the session goes on.
    Keep,
}

/// The pause between aborting and restarting the tasks, in milliseconds.
pub const RESTART_DELAY_MS: u64 = 200;

/// How long the reader waits for the handshake, in milliseconds, before
/// the session is declared failed.
pub const HANDSHAKE_TIMEOUT_MS: u64 = 10000;

/// The tasks of one session and its clients.
#[derive(Debug, Clone, PartialEq, Eq)]
pub struct ScrcpySessionTasks {
    pub scrcpy_jar_running: bool,
    pub socket_read_running: bool,
    pub socket_write_running: bool,
    pub broadcast_running: bool,
    pub control_ready: bool,
    pub connected_clients: Vec<String>,
    pub device_meta: Option<String>,
}

impl View for ScrcpySessionTasks {
    type V = SessionView;

    open spec fn view(&self) -> SessionView {
        SessionView {
            clients: self.connected_clients.deep_view(),
            jar: self.scrcpy_jar_running,
            read: self.socket_read_running,
            write: self.socket_write_running,
            broadcast: self.broadcast_running,
            control_ready: self.control_ready,
            device_meta: opt_text(self.device_meta),
        }
    }
}

impl ScrcpySessionTasks {
    /// A session without clients and without tasks.
    pub fn new() -> (r: Self)
        ensures
            r@ == SessionView::empty(),
    {
        let r = Self {
            scrcpy_jar_running: false,
            socket_read_running: false,
            socket_write_running: false,
            broadcast_running: false,
            control_ready: false,
            connected_clients: Vec::new(),
            device_meta: None,
        };
        proof {
            assert(r.connected_clients.deep_view() =~= Seq::<Seq<char>>::empty());
        }
        r
    }

    /// The number of live tasks.
    pub fn live_tasks(&self) -> (n: usize)
        ensures
            n == self@.live_tasks(),
    {
        let mut n: usize = 0;
        if self.scrcpy_jar_running {
            n += 1;
        }
        if self.socket_read_running {
            n += 1;
        }
        if self.socket_write_running {
            n += 1;
        }
        if self.broadcast_running {
            n += 1;
        }
        n
    }

    /// Whether the session is running.
    pub fn is_session_running(&self) -> (b: bool)
        ensures
            b == self@.running(),
    {
        self.scrcpy_jar_running
    }

    /// Aborts all tasks and forgets the clients and the device name.
    pub fn abort_all(&mut self)
        ensures
            final(self)@ == SessionView::empty(),
    {
        self.abort_tasks_only();
        self.connected_clients.clear();
        self.device_meta = None;
        proof {
            assert(self.connected_clients.deep_view() =~= Seq::<Seq<char>>::empty());
        }
    }

    /// Aborts all tasks and keeps the clients.
    pub fn abort_tasks_only(&mut self)
        ensures
            final(self)@ == old(self)@.tasks_aborted(),
    {
        self.control_ready = false;
        self.scrcpy_jar_running = false;
        self.socket_read_running = false;
        self.socket_write_running = false;
        self.broadcast_running = false;
    }

    /// Marks the four tasks as started afresh.
    pub fn start_tasks(&mut self)
        ensures
            final(self)@ == old(self)@.tasks_started(),
    {
        self.scrcpy_jar_running = true;
        self.socket_read_running = true;
        self.socket_write_running = true;
        self.broadcast_running = true;
        self.control_ready = false;
        self.device_meta = None;
    }

    /// Whether `id` is among the clients.
    pub fn has_client(&self, id: &str) -> (b: bool)
        ensures
            b == self@.clients.contains(id@),
    {
        let mut i: usize = 0;
        while i < self.connected_clients.len()
            invariant
                i <= self.connected_clients@.len(),
                forall|j: int| 0 <= j < i ==> self.connected_clients.deep_view()[j] != id@,
            decreases self.connected_clients@.len() - i,
        {
            if same_text(self.connected_clients[i].as_str(), id) {
                proof {
                    assert(self.connected_clients.deep_view()[i as int] == id@);
                }
                return true;
            }
            i += 1;
        }
        false
    }

    /// Adds a client to the set.
    pub fn add_client(&mut self, client_id: String)
        ensures
            final(self)@ == (SessionView {
                clients: with_client(old(self)@.clients, client_id@),
                ..old(self)@
            }),
    {
        if !self.has_client(client_id.as_str()) {
            self.connected_clients.push(client_id);
            proof {
                assert(self.connected_clients.deep_view() =~= old(
                    self,
                ).connected_clients.deep_view().push(client_id@));
            }
        }
    }

    /// Removes a client from the set, and tells whether no client is left.
    pub fn remove_client(&mut self, client_id: &str) -> (none_left: bool)
        ensures
            final(self)@ == (SessionView {
                clients: without_client(old(self)@.clients, client_id@),
                ..old(self)@
            }),
            none_left == (final(self)@.clients.len() == 0),
    {
        let mut kept: Vec<String> = Vec::new();
        let ghost all = self.connected_clients.deep_view();
        let mut i: usize = 0;
        proof {
            assert(all.take(0) =~= Seq::<Seq<char>>::empty());
            assert(kept.deep_view() =~= without_client(all.take(0), client_id@));
        }
        while i < self.connected_clients.len()
            invariant
                i <= self.connected_clients@.len(),
                all == self.connected_clients.deep_view(),
                *self == *old(self),
                kept.deep_view() == without_client(all.take(i as int), client_id@),
            decreases self.connected_clients@.len() - i,
        {
            proof {
                assert(all.take(i + 1).drop_last() =~= all.take(i as int));
                assert(all.take(i + 1).last() == self.connected_clients@[i as int]@);
            }
            if !same_text(self.connected_clients[i].as_str(), client_id) {
                let ghost before = kept.deep_view();
                kept.push(self.connected_clients[i].clone());
                proof {
                    assert(kept.deep_view() =~= before.push(self.connected_clients@[i as int]@));
                }
            }
            i += 1;
        }
        proof {
            assert(all.take(all.len() as int) =~= all);
        }
        self.connected_clients = kept;
        self.connected_clients.len() == 0
    }

    /// Takes in a client that has connected: it joins the set, and the
    /// tasks are started, or restarted where the session was running. The
    /// session then has its four tasks live.
    pub fn on_connect(&mut self, client_id: String) -> (plan: ConnectPlan)
        ensures
            final(self)@ == old(self)@.after_connect(client_id@),
            plan == (if old(self)@.running() {
                ConnectPlan::Restart
            } else {
                ConnectPlan::Start
            }),
    {
        self.add_client(client_id);
        let plan = if self.is_session_running() {
            self.abort_tasks_only();
            ConnectPlan::Restart
        } else {
            ConnectPlan::Start
        };
        self.start_tasks();
        plan
    }

    /// Takes in a client that has disconnected: it leaves the set; where
    /// it was the last one, all tasks are aborted and the device name is
    /// forgotten.
    pub fn on_disconnect(&mut self, client_id: &str) -> (plan: DisconnectPlan)
        ensures
            final(self)@ == old(self)@.after_disconnect(client_id@),
            plan == (if without_client(old(self)@.clients, client_id@).len() == 0 {
                DisconnectPlan::Teardown
            } else {
                DisconnectPlan::Keep
            }),
    {
        if self.remove_client(client_id) {
            self.abort_all();
            DisconnectPlan::Teardown
        } else {
            DisconnectPlan::Keep
        }
    }

    /// Declares the session failed because the handshake could not be
    /// read: the tasks are aborted and the clients stay, to receive
    /// nothing until a client connects again, which starts the tasks
    /// anew.
    pub fn on_handshake_failed(&mut self)
        ensures
            final(self)@ == old(self)@.tasks_aborted(),
            !final(self)@.running(),
    {
        self.abort_tasks_only();
    }

    /// Records that the write half of the control socket is in place.
    pub fn control_socket_ready(&mut self)
        ensures
            final(self)@ == (SessionView { control_ready: true, ..old(self)@ }),
    {
        self.control_ready = true;
    }

    /// Records the device name read in the handshake.
    pub fn set_device_meta(&mut self, name: String)
        ensures
            final(self)@ == (SessionView { device_meta: Some(name@), ..old(self)@ }),
    {
        self.device_meta = Some(name);
    }
}

impl Default for ScrcpySessionTasks {
    fn default() -> (r: Self)
        ensures
            r@ == SessionView::empty(),
    {
        Self::new()
    }
}

/// A connect leaves the tasks fitting the clients, whatever the session
/// was; a disconnect keeps them fitting. So the number of live tasks of a
/// session that only sees connects and disconnects is 0 without clients
/// and 4 with one or more.
pub proof fn lemma_session_consistent(s: SessionView, id: Seq<char>)
    ensures
        SessionView::empty().consistent(),
        s.after_connect(id).consistent(),
        s.after_connect(id).live_tasks() == 4,
        s.consistent() ==> s.after_disconnect(id).consistent(),
{
    lemma_without_client_len(s.clients, id);
}

/// Removing a client never makes the set larger, and leaves it empty only
/// where it held no other client.
pub proof fn lemma_without_client_len(clients: Seq<Seq<char>>, id: Seq<char>)
    ensures
        without_client(clients, id).len() <= clients.len(),
        without_client(clients, id).len() == 0 <==> (forall|i: int|
            0 <= i < clients.len() ==> clients[i] == id),
    decreases clients.len(),
{
    if clients.len() > 0 {
        lemma_without_client_len(clients.drop_last(), id);
        if clients.last() == id {
            assert forall|i: int| 0 <= i < clients.len() && (forall|j: int|
                0 <= j < clients.drop_last().len() ==> clients.drop_last()[j] == id) implies clients[i]
                == id by {
                if i < clients.len() - 1 {
                    assert(clients.drop_last()[i] == clients[i]);
                }
            }
            if forall|i: int| 0 <= i < clients.len() ==> clients[i] == id {
                assert forall|j: int| 0 <= j < clients.drop_last().len() implies clients.drop_last()[j]
                    == id by {
                    assert(clients.drop_last()[j] == clients[j]);
                }
            }
        } else {
            assert(clients[clients.len() - 1] != id);
        }
    }
}

/// A session that a client `a` has opened has four live tasks, and still
/// has four after another client `b` has joined and left again.
pub proof fn lemma_join_and_leave(a: Seq<char>, b: Seq<char>)
    requires
        a != b,
    ensures
        SessionView::empty().after_connect(a).live_tasks() == 4,
        SessionView::empty().after_connect(a).after_connect(b).live_tasks() == 4,
        SessionView::empty().after_connect(a).after_connect(b).after_disconnect(b).live_tasks()
            == 4,
        SessionView::empty().after_connect(a).after_connect(b).after_disconnect(b).clients
            == SessionView::empty().after_connect(a).clients,
{
    let one = SessionView::empty().after_connect(a);
    assert(one.clients =~= seq![a]);
    let two = one.after_connect(b);
    assert(!one.clients.contains(b));
    assert(two.clients =~= seq![a, b]);
    assert(two.clients.drop_last() =~= seq![a]);
    assert(seq![a].drop_last() =~= Seq::<Seq<char>>::empty());
    reveal_with_fuel(without_client, 3);
    assert(without_client(two.clients, b) =~= seq![a]);
}

/// Where the reader of the device's socket stands in the stream.
#[derive(Debug, Clone, Copy, PartialEq, Eq)]
pub enum ReadState {
    /// The acknowledgement byte is due.
    ReadAck,
    /// The 64 bytes of device metadata are due.
    ReadMeta,
    /// The handshake is over: video data follows.
    ReadData,
}

/// What the reader makes of the bytes it was given.
#[derive(Debug, Clone, PartialEq, Eq)]
pub enum ReadOutcome {
    /// The acknowledgement was read; it is unexpected where it is not 0,
    /// which is worth a warning and no more.
    Ack { unexpected: bool },
    /// The device metadata was read: emit the device name to the viewers
    /// and keep it on the session.
    Meta { device_name: String },
    /// A chunk of video was read: emit it to the viewers in base64.
    Frame { payload: String },
    /// The socket was closed by the device.
    Closed,
    /// The handshake could not be read in full: the session has failed.
    HandshakeFailed,
}

/// The number of bytes that the reader asks for in a state: exactly that
/// many during the handshake, at most that many after it.
pub open spec fn wanted_len(state: ReadState) -> usize {
    match state {
        ReadState::ReadAck => 1,
        ReadState::ReadMeta => 64,
        ReadState::ReadData => 8192,
    }
}

/// The device name in the metadata of the handshake: the text that the
/// bytes encode, without the NUL characters at its end.
pub open spec fn device_name_in(meta: Seq<u8>) -> Seq<char> {
    name_in_text(utf8_lossy(meta))
}

/// The device name in the metadata of the handshake, given as text: the
/// text without the NUL characters at its end.
pub open spec fn name_in_text(text: Seq<char>) -> Seq<char> {
    strip_back(text, CharClass::Only('\0'))
}

/// The state that follows once the bytes of a state have been read.
pub open spec fn state_after(state: ReadState, bytes: Seq<u8>) -> ReadState {
    match state {
        ReadState::ReadAck => if bytes.len() == 1 {
            ReadState::ReadMeta
        } else {
            ReadState::ReadAck
        },
        ReadState::ReadMeta => if bytes.len() == 64 {
            ReadState::ReadData
        } else {
            ReadState::ReadMeta
        },
        ReadState::ReadData => ReadState::ReadData,
    }
}

/// The reader of the device's socket.
#[derive(Debug, Clone, Copy, PartialEq, Eq)]
pub struct StreamReader {
    pub state: ReadState,
}

impl StreamReader {
    /// A reader at the start of the stream.
    pub fn new() -> (r: Self)
        ensures
            r.state == ReadState::ReadAck,
    {
        Self { state: ReadState::ReadAck }
    }

    /// The number of bytes to read next: exactly that many during the
    /// handshake, at most that many after it.
    pub fn wanted(&self) -> (n: usize)
        ensures
            n == wanted_len(self.state),
    {
        match self.state {
            ReadState::ReadAck => ACK_LEN,
            ReadState::ReadMeta => META_LEN,
            ReadState::ReadData => CHUNK_LEN,
        }
    }

    /// Takes in the bytes that were read. In the handshake the
    /// acknowledgement is one byte and the metadata 64 bytes; any other
    /// length fails the handshake and leaves the state as it is. After the
    /// handshake no byte means that the socket was closed, and any other
    /// chunk is a frame.
    pub fn feed(&mut self, bytes: &[u8]) -> (r: ReadOutcome)
        ensures
            final(self).state == state_after(old(self).state, bytes@),
            match old(self).state {
                ReadState::ReadAck => if bytes@.len() == 1 {
                    r == (ReadOutcome::Ack { unexpected: bytes@[0] != 0 })
                } else {
                    r == ReadOutcome::HandshakeFailed
                },
                ReadState::ReadMeta => if bytes@.len() == 64 {
                    r matches ReadOutcome::Meta { device_name } && device_name@ == device_name_in(
                        bytes@,
                    )
                } else {
                    r == ReadOutcome::HandshakeFailed
                },
                ReadState::ReadData => if bytes@.len() == 0 {
                    r == ReadOutcome::Closed
                } else {
                    r matches ReadOutcome::Frame { payload } && payload@ == base64_text(bytes@)
                },
            },
    {
        match self.state {
            ReadState::ReadAck => {
                if bytes.len() != ACK_LEN {
                    return ReadOutcome::HandshakeFailed;
                }
                self.state = ReadState::ReadMeta;
                ReadOutcome::Ack { unexpected: bytes[0] != 0 }
            },
            ReadState::ReadMeta => {
                if bytes.len() != META_LEN {
                    return ReadOutcome::HandshakeFailed;
                }
                self.state = ReadState::ReadData;
                ReadOutcome::Meta { device_name: device_name_of(bytes) }
            },
            ReadState::ReadData => {
                if bytes.len() == 0 {
                    return ReadOutcome::Closed;
                }
                ReadOutcome::Frame { payload: base64_encode(bytes) }
            },
        }
    }
}

/// The device name in the metadata of the handshake.
pub fn device_name_of(meta: &[u8]) -> (r: String)
    ensures
        r@ == device_name_in(meta@),
{
    let text = from_utf8_lossy(meta);
    device_name_from(text.as_str())
}

/// The device name in the metadata of the handshake, given as text.
pub fn device_name_from(text: &str) -> (r: String)
    ensures
        r@ == name_in_text(text@),
{
    let v = chars_of(text);
    let mut end: usize = v.len();
    proof {
        assert(v@.take(end as int) =~= v@);
    }
    while end > 0 && v[end - 1] == '\0'
        invariant
            end <= v@.len(),
            strip_back(v@, CharClass::Only('\0')) == strip_back(
                v@.take(end as int),
                CharClass::Only('\0'),
            ),
        decreases end,
    {
        proof {
            crate::text::lemma_strip_back_step(v@, CharClass::Only('\0'), end as int);
        }
        end -= 1;
    }
    let name = slice_chars(v.as_slice(), 0, end);
    proof {
        assert(v@.subrange(0, end as int) =~= v@.take(end as int));
    }
    string_of(name.as_slice())
}

/// The answer to a client that sent a control packet.
#[derive(Debug, Clone, PartialEq, Eq)]
pub enum ControlReply {
    /// The packet was written to the device: `scrcpy_ctl_ack`.
    Ack { length: usize },
    /// The packet was not written: `scrcpy_ctl_error`.
    Error { error: String, length: usize },
}

/// The text of the answer for a control packet that could not be written:
/// the socket was not ready, or the write failed with the given cause.
pub open spec fn control_error_text(ready: bool, failure: Option<Seq<char>>) -> Option<Seq<char>> {
    if !ready {
        Some("control socket 未就绪"@)
    } else {
        match failure {
            Some(cause) => Some("写入失败: "@ + cause),
            None => None,
        }
    }
}

/// The answer to a client for a control packet of `length` bytes: an
/// error where the control socket was not ready or the write failed, else
/// an acknowledgement. The bytes of the packet play no part.
pub fn control_reply(ready: bool, failure: Option<&str>, length: usize) -> (r: ControlReply)
    ensures
        match control_error_text(
            ready,
            match failure {
                Some(f) => Some(f@),
                None => None,
            },
        ) {
            Some(text) => r matches ControlReply::Error { error, length: l } && error@ == text
                && l == length,
            None => r == (ControlReply::Ack { length }),
        },
{
    if !ready {
        return ControlReply::Error { error: "control socket 未就绪".to_owned(), length };
    }
    match failure {
        Some(cause) => ControlReply::Error { error: concat2("写入失败: ", cause), length },
        None => ControlReply::Ack { length },
    }
}

/// The fields of a touch packet that the session writes to its log: the
/// action, the position and the pressure.
#[derive(Debug, Clone, Copy, PartialEq, Eq)]
pub struct TouchFields {
    pub action: u8,
    pub x: u32,
    pub y: u32,
    pub pressure: u16,
}

/// The number that four bytes denote, least significant byte first.
pub open spec fn le_u32(b0: u8, b1: u8, b2: u8, b3: u8) -> u32 {
    (b0 + b1 * 0x100 + b2 * 0x1_0000 + b3 * 0x100_0000) as u32
}

/// The number that two bytes denote, most significant byte first.
pub open spec fn be_u16(b0: u8, b1: u8) -> u16 {
    (b0 * 0x100 + b1) as u16
}

/// The fields of a control packet of at least 24 bytes, read as a touch
/// packet: the action in byte 1, x and y in bytes 10 to 17, least
/// significant byte first, and the pressure in bytes 22 and 23, most
/// significant byte first.
pub open spec fn touch_fields_in(data: Seq<u8>) -> Option<TouchFields> {
    if data.len() >= 24 {
        Some(
            TouchFields {
                action: data[1],
                x: le_u32(data[10], data[11], data[12], data[13]),
                y: le_u32(data[14], data[15], data[16], data[17]),
                pressure: be_u16(data[22], data[23]),
            },
        )
    } else {
        None
    }
}

fn u32_le(b0: u8, b1: u8, b2: u8, b3: u8) -> (r: u32)
    ensures
        r == le_u32(b0, b1, b2, b3),
{
    b0 as u32 + b1 as u32 * 0x100 + b2 as u32 * 0x1_0000 + b3 as u32 * 0x100_0000
}

/// The fields of a control packet, read as a touch packet, for the log.
pub fn touch_fields(data: &[u8]) -> (r: Option<TouchFields>)
    ensures
        r == touch_fields_in(data@),
{
    if data.len() >= 24 {
        Some(
            TouchFields {
                action: data[1],
                x: u32_le(data[10], data[11], data[12], data[13]),
                y: u32_le(data[14], data[15], data[16], data[17]),
                pressure: data[22] as u16 * 0x100 + data[23] as u16,
            },
        )
    } else {
        None
    }
}

/// The command that starts the mirror server on the device: without
/// audio, with frames of at most 1920 pixels, logging at level info, and
/// waiting for the host to connect through the forward.
pub const SERVER_COMMAND: &'static str =
    "CLASSPATH=/data/local/tmp/scrcpy-server.jar app_process / com.genymobile.scrcpy.Server 3.3.4 log_level=info audio=false max_size=1920 tunnel_forward=true";

/// Where the mirror server is pushed to on the device.
pub const SERVER_JAR_ON_DEVICE: &'static str = "/data/local/tmp/scrcpy-server.jar";

/// The path of the mirror server among the embedded assets.
pub const SERVER_JAR_ASSET: &'static str = "jar/scrcpy-server-v3.3.4.jar";

/// The pause between starting the server task and connecting the reader,
/// in milliseconds.
pub const SERVER_START_DELAY_MS: u64 = 3000;

/// The pause between connecting the reader and the writer, in
/// milliseconds.
pub const WRITER_DELAY_MS: u64 = 100;

/// One step of the server task.
#[derive(Debug, Clone, PartialEq, Eq)]
pub enum ServerStep {
    /// Write the embedded server to the file `path` on the host.
    WriteJar { path: String },
    /// Run `adb` with these arguments. Where `fatal`, a failure ends the
    /// task; else it is logged and the task goes on.
    Adb { args: Vec<String>, fatal: bool },
    /// Remove the file `path` on the host.
    RemoveFile { path: String },
}

/// The file on the host that holds the server for one client.
pub open spec fn temp_jar_path(client_id: Seq<char>) -> Seq<char> {
    "/tmp/scrcpy-server-"@ + client_id + ".jar"@
}

/// The local end of the forward to the device.
pub open spec fn forward_local(port: u16) -> Seq<char> {
    "tcp:"@ + decimal(port as nat)
}

/// The arguments of the steps of the server task, as texts: `None` for a
/// step that runs no `adb`.
pub open spec fn server_step_args(serial: Seq<char>, port: u16, client_id: Seq<char>) -> Seq<
    Seq<Seq<char>>,
> {
    seq![
        seq!["-s"@, serial, "forward"@, "--remove-all"@],
        seq!["-s"@, serial, "forward"@, forward_local(port), "localabstract:scrcpy"@],
        seq!["-s"@, serial, "push"@, temp_jar_path(client_id), SERVER_JAR_ON_DEVICE@],
        seq!["-s"@, serial, "shell"@, SERVER_COMMAND@],
    ]
}

fn texts4(a: &str, b: &str, c: &str, d: &str) -> (r: Vec<String>)
    ensures
        r.deep_view() == seq![a@, b@, c@, d@],
{
    let r = vec![a.to_owned(), b.to_owned(), c.to_owned(), d.to_owned()];
    proof {
        assert(r.deep_view() =~= seq![a@, b@, c@, d@]);
    }
    r
}

fn texts5(a: &str, b: &str, c: &str, d: &str, e: &str) -> (r: Vec<String>)
    ensures
        r.deep_view() == seq![a@, b@, c@, d@, e@],
{
    let r = vec![a.to_owned(), b.to_owned(), c.to_owned(), d.to_owned(), e.to_owned()];
    proof {
        assert(r.deep_view() =~= seq![a@, b@, c@, d@, e@]);
    }
    r
}

/// The steps of the server task for the device `serial`, the forwarded
/// host port `port` and the client that opened the session: write the
/// server to a file of its own; remove all forwards and set the one
/// forward to `localabstract:scrcpy`, neither of which may end the task;
/// push the server, which must succeed; run it; remove the file.
pub fn server_steps(serial: &str, port: u16, client_id: &str) -> (r: Vec<ServerStep>)
    ensures
        r@.len() == 6,
        r@[0] matches ServerStep::WriteJar { path } && path@ == temp_jar_path(client_id@),
        r@[1] matches ServerStep::Adb { args, fatal } && !fatal && args.deep_view()
            == server_step_args(serial@, port, client_id@)[0],
        r@[2] matches ServerStep::Adb { args, fatal } && !fatal && args.deep_view()
            == server_step_args(serial@, port, client_id@)[1],
        r@[3] matches ServerStep::Adb { args, fatal } && fatal && args.deep_view()
            == server_step_args(serial@, port, client_id@)[2],
        r@[4] matches ServerStep::Adb { args, fatal } && !fatal && args.deep_view()
            == server_step_args(serial@, port, client_id@)[3],
        r@[5] matches ServerStep::RemoveFile { path } && path@ == temp_jar_path(client_id@),
{
    let mut path_chars = chars_of("/tmp/scrcpy-server-");
    push_text(&mut path_chars, client_id);
    push_text(&mut path_chars, ".jar");
    let path = string_of(path_chars.as_slice());
    let mut local_chars = chars_of("tcp:");
    push_decimal(&mut local_chars, port as u64);
    let local = string_of(local_chars.as_slice());
    let mut steps: Vec<ServerStep> = Vec::new();
    steps.push(ServerStep::WriteJar { path: path.clone() });
    steps.push(
        ServerStep::Adb { args: texts4("-s", serial, "forward", "--remove-all"), fatal: false },
    );
    steps.push(
        ServerStep::Adb {
            args: texts5("-s", serial, "forward", local.as_str(), "localabstract:scrcpy"),
            fatal: false,
        },
    );
    steps.push(
        ServerStep::Adb {
            args: texts5("-s", serial, "push", path.as_str(), SERVER_JAR_ON_DEVICE),
            fatal: true,
        },
    );
    steps.push(ServerStep::Adb { args: texts4("-s", serial, "shell", SERVER_COMMAND), fatal: false });
    steps.push(ServerStep::RemoveFile { path });
    steps
}

} // verus!
