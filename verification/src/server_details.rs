//! The server's state and its commands.
//!
//! `LogLevel` grades a log message; `ServerCommand` is what the server's own
//! channel carries (kick a client, log a line, a client came or went);
//! `ServerDetails` holds the connected clients, their count and the sender of
//! the server's channel.

use crate::client::{Client, ClientAddr, ClientDetails, ClientID, Control};
use crate::externs::{clone_sender, random_in_range};
use crate::text::{decimal, push_decimal};
use tokio::sync::mpsc::Sender;
use vstd::prelude::*;

verus! {

/// The smallest id the server hands to a client.
pub const MIN_CLIENT_ID: u16 = 1000;

/// The largest id the server hands to a client.
pub const MAX_CLIENT_ID: u16 = 9999;

/// How grave a log message is.
#[derive(Clone, Copy, Debug, PartialEq, Eq, Structural)]
pub enum LogLevel {
    Info,
    Warn,
    Error,
}

/// A command on the server's own channel.
pub enum ServerCommand {
    Kick { client_id: ClientID, reason: String },
    Log { level: LogLevel, message: String },
    ClientDisconnected(ClientID),
    ClientConnected(ClientID, ClientAddr),
}

/// A `ServerCommand` as a mathematical value.
pub enum ServerCommandView {
    Kick { client_id: ClientID, reason: Seq<char> },
    Log { level: LogLevel, message: Seq<char> },
    ClientDisconnected(ClientID),
    ClientConnected(ClientID, Seq<char>),
}

impl View for ServerCommand {
    type V = ServerCommandView;

    open spec fn view(&self) -> ServerCommandView {
        match self {
            ServerCommand::Kick { client_id, reason } => ServerCommandView::Kick {
                client_id: *client_id,
                reason: reason@,
            },
            ServerCommand::Log { level, message } => ServerCommandView::Log {
                level: *level,
                message: message@,
            },
            ServerCommand::ClientDisconnected(id) => ServerCommandView::ClientDisconnected(*id),
            ServerCommand::ClientConnected(id, addr) => ServerCommandView::ClientConnected(
                *id,
                addr@,
            ),
        }
    }
}

/// The name a log line gives a level.
pub open spec fn level_name(level: LogLevel) -> Seq<char> {
    match level {
        LogLevel::Info => "Info"@,
        LogLevel::Warn => "Warn"@,
        LogLevel::Error => "Error"@,
    }
}

/// The line the server prints for a command.
pub open spec fn command_line(cmd: ServerCommandView) -> Seq<char> {
    match cmd {
        ServerCommandView::Kick { client_id, reason } => "[CMD: KICK] Client: "@ + decimal(
            client_id as nat,
        ) + " kicked for "@ + reason,
        ServerCommandView::ClientDisconnected(id) => "[CMD: DISCONNECT] Client: "@ + decimal(
            id as nat,
        ) + " disconnected"@,
        ServerCommandView::ClientConnected(id, addr) => "[CMD: CONNECT] Client: "@ + decimal(
            id as nat,
        ) + " connected with IP: "@ + addr,
        ServerCommandView::Log { level, message } => "[CMD: LOG] "@ + level_name(level) + ": "@
            + message,
    }
}

impl ServerCommand {
    /// The command to kick `client_id` for `reason`.
    pub fn kick(client_id: ClientID, reason: String) -> (cmd: Self)
        ensures
            cmd@ == (ServerCommandView::Kick { client_id, reason: reason@ }),
    {
        ServerCommand::Kick { client_id, reason }
    }

    /// The command to log `message` at `level`.
    pub fn log(level: LogLevel, message: String) -> (cmd: Self)
        ensures
            cmd@ == (ServerCommandView::Log { level, message: message@ }),
    {
        ServerCommand::Log { level, message }
    }

    /// The line the server prints for this command, such as
    /// `[CMD: KICK] Client: 1234 kicked for spam`.
    pub fn describe(&self) -> (line: String)
        ensures
            line@ == command_line(self@),
    {
        match self {
            ServerCommand::Kick { client_id, reason } => {
                let mut s = String::from_str("[CMD: KICK] Client: ");
                push_decimal(&mut s, *client_id);
                s.append(" kicked for ");
                s.append(reason.as_str());
                s
            },
            ServerCommand::ClientDisconnected(client_id) => {
                let mut s = String::from_str("[CMD: DISCONNECT] Client: ");
                push_decimal(&mut s, *client_id);
                s.append(" disconnected");
                s
            },
            ServerCommand::ClientConnected(client_id, client_addr) => {
                let mut s = String::from_str("[CMD: CONNECT] Client: ");
                push_decimal(&mut s, *client_id);
                s.append(" connected with IP: ");
                s.append(client_addr.as_str());
                s
            },
            ServerCommand::Log { level, message } => {
                let log_level = match level {
                    LogLevel::Info => "Info",
                    LogLevel::Error => "Error",
                    LogLevel::Warn => "Warn",
                };
                let mut s = String::from_str("[CMD: LOG] ");
                s.append(log_level);
                s.append(": ");
                s.append(message.as_str());
                s
            },
        }
    }
}

/// The server's state: its clients, their count, and the sender of its own
/// command channel.
pub struct ServerDetails {
    clients: Vec<Client>,
    client_count: u16,
    server_tx: Sender<ServerCommand>,
}

impl ServerDetails {
    pub closed spec fn clients(&self) -> Seq<Client> {
        self.clients@
    }

    pub closed spec fn client_count(&self) -> u16 {
        self.client_count
    }

    pub closed spec fn server_tx(&self) -> Sender<ServerCommand> {
        self.server_tx
    }

    /// Whether some client of the server has the id `id`.
    pub open spec fn id_in_use(&self, id: ClientID) -> bool {
        exists|i: int| 0 <= i < self.clients().len() && #[trigger] self.clients()[i].id() == id
    }

    /// Whether some client holds an id between `MIN_CLIENT_ID` and
    /// `MAX_CLIENT_ID`.
    pub open spec fn some_id_held(&self) -> bool {
        exists|id: ClientID| MIN_CLIENT_ID <= id <= MAX_CLIENT_ID && #[trigger] self.id_in_use(id)
    }

    /// Every client of the server has an id between `MIN_CLIENT_ID` and
    /// `MAX_CLIENT_ID`.
    pub open spec fn ids_in_range(&self) -> bool {
        forall|i: int|
            0 <= i < self.clients().len() ==> MIN_CLIENT_ID <= #[trigger] self.clients()[i].id()
                <= MAX_CLIENT_ID
    }

    /// The server's record of its clients is consistent: their ids are in
    /// range, and the count is the number of clients.
    pub open spec fn registry_consistent(&self) -> bool {
        &&& self.ids_in_range()
        &&& self.client_count() == self.clients().len()
    }

    /// A server with no client, whose commands go to `server_tx`.
    pub fn new(server_tx: Sender<ServerCommand>) -> (d: Self)
        ensures
            d.clients() == Seq::<Client>::empty(),
            d.client_count() == 0,
            d.server_tx() == server_tx,
            d.registry_consistent(),
    {
        Self { clients: Vec::new(), client_count: 0, server_tx }
    }

    /// Appends `client` to the clients; the count is left alone.
    pub(crate) fn add_client(&mut self, client: Client)
        ensures
            final(self).clients() == old(self).clients().push(client),
            final(self).client_count() == old(self).client_count(),
            final(self).server_tx() == old(self).server_tx(),
    {
        self.clients.push(client);
    }

    pub(crate) fn increment_client_count(&mut self)
        requires
            old(self).client_count() < u16::MAX,
        ensures
            final(self).client_count() == old(self).client_count() + 1,
            final(self).clients() == old(self).clients(),
            final(self).server_tx() == old(self).server_tx(),
    {
        self.client_count += 1;
    }

    pub(crate) fn decrement_client_count(&mut self)
        requires
            old(self).client_count() > 0,
        ensures
            final(self).client_count() == old(self).client_count() - 1,
            final(self).clients() == old(self).clients(),
            final(self).server_tx() == old(self).server_tx(),
    {
        self.client_count -= 1;
    }

    pub fn get_client_count(&self) -> (n: u16)
        ensures
            n == self.client_count(),
    {
        self.client_count
    }

    /// Whether some client of the server has the id `client_id`: the test is
    /// true when the id is held.
    pub fn is_client_id_vacant(&self, client_id: ClientID) -> (held: bool)
        ensures
            held == self.id_in_use(client_id),
    {
        let mut i: usize = 0;
        while i < self.clients.len()
            invariant
                i <= self.clients@.len(),
                forall|k: int| 0 <= k < i ==> #[trigger] self.clients()[k].id() != client_id,
            decreases self.clients@.len() - i,
        {
            if self.clients[i].get_client_id() == client_id {
                assert(self.clients()[i as int].id() == client_id);
                return true;
            }
            i += 1;
        }
        false
    }

    /// Whether some client holds an id between `MIN_CLIENT_ID` and
    /// `MAX_CLIENT_ID`.
    pub fn has_held_id(&self) -> (r: bool)
        ensures
            r == self.some_id_held(),
    {
        let mut id: u16 = MIN_CLIENT_ID;
        while id <= MAX_CLIENT_ID
            invariant
                MIN_CLIENT_ID <= id <= MAX_CLIENT_ID + 1,
                forall|k: ClientID| MIN_CLIENT_ID <= k < id ==> !#[trigger] self.id_in_use(k),
            decreases MAX_CLIENT_ID + 1 - id,
        {
            if self.is_client_id_vacant(id) {
                return true;
            }
            id += 1;
        }
        false
    }

    /// The ids from `MIN_CLIENT_ID` up to, not including, `hi` that some
    /// client holds, in increasing order.
    pub open spec fn held_ids_below(&self, hi: int) -> Seq<ClientID>
        decreases hi - MIN_CLIENT_ID,
    {
        if hi <= MIN_CLIENT_ID {
            Seq::empty()
        } else if self.id_in_use((hi - 1) as ClientID) {
            self.held_ids_below(hi - 1).push((hi - 1) as ClientID)
        } else {
            self.held_ids_below(hi - 1)
        }
    }

    /// The ids between `MIN_CLIENT_ID` and `MAX_CLIENT_ID` that some client
    /// holds, in increasing order.
    pub open spec fn held_ids_spec(&self) -> Seq<ClientID> {
        self.held_ids_below(MAX_CLIENT_ID + 1)
    }

    /// The held ids below `hi` are those, and no others, of the range that
    /// some client holds.
    pub proof fn lemma_held_ids_below(&self, hi: int)
        requires
            MIN_CLIENT_ID <= hi <= MAX_CLIENT_ID + 1,
        ensures
            self.held_ids_below(hi).len() <= hi - MIN_CLIENT_ID,
            forall|k: int|
                0 <= k < self.held_ids_below(hi).len() ==> MIN_CLIENT_ID <= #[trigger] self.held_ids_below(
                    hi,
                )[k] < hi && self.id_in_use(self.held_ids_below(hi)[k]),
            forall|v: ClientID|
                MIN_CLIENT_ID <= v < hi && #[trigger] self.id_in_use(v) ==> self.held_ids_below(
                    hi,
                ).contains(v),
        decreases hi - MIN_CLIENT_ID,
    {
        if hi > MIN_CLIENT_ID {
            self.lemma_held_ids_below(hi - 1);
            let prev = self.held_ids_below(hi - 1);
            let cur = self.held_ids_below(hi);
            assert forall|v: ClientID|
                MIN_CLIENT_ID <= v < hi && #[trigger] self.id_in_use(v) implies cur.contains(v) by {
                if v < hi - 1 {
                    let k = choose|k: int| 0 <= k < prev.len() && prev[k] == v;
                    assert(cur[k] == v);
                } else {
                    assert(cur[cur.len() - 1] == v);
                }
            }
        }
    }

    /// The ids between `MIN_CLIENT_ID` and `MAX_CLIENT_ID` that some client
    /// holds, in increasing order.
    pub fn held_ids(&self) -> (ids: Vec<ClientID>)
        ensures
            ids@ == self.held_ids_spec(),
    {
        let mut ids: Vec<ClientID> = Vec::new();
        let mut id: u16 = MIN_CLIENT_ID;
        while id <= MAX_CLIENT_ID
            invariant
                MIN_CLIENT_ID <= id <= MAX_CLIENT_ID + 1,
                ids@ == self.held_ids_below(id as int),
            decreases MAX_CLIENT_ID + 1 - id,
        {
            if self.is_client_id_vacant(id) {
                ids.push(id);
            }
            id += 1;
        }
        ids
    }

    /// The id a client gets when the first draw over the whole range gave
    /// `first` and the draw among the held ids gave the index `k`: `first`
    /// itself when some client holds it, otherwise the `k`-th held id.
    pub fn choose_client_id(&self, first: ClientID, k: u32) -> (id: ClientID)
        requires
            MIN_CLIENT_ID <= first <= MAX_CLIENT_ID,
            !self.id_in_use(first) ==> k < self.held_ids_spec().len(),
        ensures
            self.id_in_use(first) ==> id == first,
            !self.id_in_use(first) ==> id == self.held_ids_spec()[k as int],
            MIN_CLIENT_ID <= id <= MAX_CLIENT_ID,
            self.id_in_use(id),
    {
        proof {
            self.lemma_held_ids_below(MAX_CLIENT_ID + 1);
        }
        if self.is_client_id_vacant(first) {
            first
        } else {
            let ids = self.held_ids();
            ids[k as usize]
        }
    }

    /// A random id between `MIN_CLIENT_ID` and `MAX_CLIENT_ID` that passes
    /// `is_client_id_vacant`, that is, one that some client already holds.
    /// A first draw over the whole range is taken when it passes; otherwise
    /// the id is drawn among the held ones, which gives each of them the same
    /// chance, as drawing again until one passes would. `choose_client_id`
    /// makes the choice from the two draws. With no id of the range held,
    /// drawing again would never end, so that input is left out.
    pub(crate) fn generate_random_id(&self) -> (id: u16)
        requires
            self.some_id_held(),
        ensures
            MIN_CLIENT_ID <= id <= MAX_CLIENT_ID,
            self.id_in_use(id),
    {
        let first = random_in_range(MIN_CLIENT_ID as u32, MAX_CLIENT_ID as u32) as u16;
        let k = if self.is_client_id_vacant(first) {
            0
        } else {
            let held = self.held_ids().len();
            proof {
                self.lemma_held_ids_below(MAX_CLIENT_ID + 1);
                let witness = choose|id: ClientID|
                    MIN_CLIENT_ID <= id <= MAX_CLIENT_ID && #[trigger] self.id_in_use(id);
                assert(self.held_ids_spec().contains(witness));
            }
            random_in_range(0, (held - 1) as u32)
        };
        self.choose_client_id(first, k)
    }

    /// A client at `client_addr` whose control channel is `control_tx`, with a
    /// random id from `generate_random_id` (one that some client already
    /// holds); the client is not added.
    pub(crate) fn create_client(&self, client_addr: ClientAddr, control_tx: Sender<Control>) -> (c:
        Client)
        requires
            self.some_id_held(),
        ensures
            MIN_CLIENT_ID <= c.id() <= MAX_CLIENT_ID,
            self.id_in_use(c.id()),
            c.details().addr() == client_addr,
            c.details().control_tx() == control_tx,
            c.state() == crate::client::ClientState::Free,
    {
        let generated_client_id = self.generate_random_id();
        Client::new(ClientDetails::new(client_addr, generated_client_id, control_tx))
    }

    /// Another sender of the server's command channel.
    pub(crate) fn get_server_tx_clone(&self) -> (tx: Sender<ServerCommand>)
        ensures
            tx == self.server_tx(),
    {
        clone_sender(&self.server_tx)
    }
}

} // verus!
