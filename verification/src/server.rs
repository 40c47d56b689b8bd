//! The server: adding clients, counting them, creating them, and handing out
//! senders of its command channel.

use crate::client::{Client, ClientAddr, ClientState, Control};
use crate::server_details::{MAX_CLIENT_ID, MIN_CLIENT_ID, ServerCommand, ServerDetails};
use tokio::sync::mpsc::Sender;
use vstd::prelude::*;

verus! {

/// The server, which holds its details.
pub struct Server {
    pub server_details: ServerDetails,
}

impl Server {
    /// A server with `server_details`.
    pub fn new(server_details: ServerDetails) -> (s: Self)
        ensures
            s.server_details == server_details,
    {
        Self { server_details }
    }

    /// Adds `client` to the clients and counts it.
    pub fn add_client(&mut self, client: Client)
        requires
            old(self).server_details.client_count() < u16::MAX,
        ensures
            final(self).server_details.clients() == old(self).server_details.clients().push(
                client,
            ),
            final(self).server_details.client_count() == old(self).server_details.client_count()
                + 1,
            final(self).server_details.server_tx() == old(self).server_details.server_tx(),
    {
        self.server_details.add_client(client);
        self.increment_client_count();
    }

    /// Counts one client more.
    pub fn increment_client_count(&mut self)
        requires
            old(self).server_details.client_count() < u16::MAX,
        ensures
            final(self).server_details.client_count() == old(self).server_details.client_count()
                + 1,
            final(self).server_details.clients() == old(self).server_details.clients(),
            final(self).server_details.server_tx() == old(self).server_details.server_tx(),
    {
        self.server_details.increment_client_count();
    }

    /// Counts one client less.
    pub fn decrement_client_count(&mut self)
        requires
            old(self).server_details.client_count() > 0,
        ensures
            final(self).server_details.client_count() == old(self).server_details.client_count()
                - 1,
            final(self).server_details.clients() == old(self).server_details.clients(),
            final(self).server_details.server_tx() == old(self).server_details.server_tx(),
    {
        self.server_details.decrement_client_count();
    }

    /// A client at `client_addr` with control channel `control_tx` and a random
    /// id that some client of the server already holds (see
    /// `ServerDetails::generate_random_id`). The client is not added:
    /// `add_client` does that.
    pub fn create_client(&self, client_addr: ClientAddr, control_tx: Sender<Control>) -> (c:
        Client)
        requires
            self.server_details.some_id_held(),
        ensures
            MIN_CLIENT_ID <= c.id() <= MAX_CLIENT_ID,
            self.server_details.id_in_use(c.id()),
            c.details().addr() == client_addr,
            c.details().control_tx() == control_tx,
            c.state() == ClientState::Free,
    {
        self.server_details.create_client(client_addr, control_tx)
    }

    /// Another sender of the server's command channel.
    pub fn get_server_tx_clone(&self) -> (tx: Sender<ServerCommand>)
        ensures
            tx == self.server_details.server_tx(),
    {
        self.server_details.get_server_tx_clone()
    }
}

/// Counting a client and then counting it out leaves the count, the clients
/// and the channel as they were.
pub proof fn lemma_increment_then_decrement(s0: Server, s1: Server, s2: Server)
    requires
        s0.server_details.client_count() < u16::MAX,
        s1.server_details.client_count() == s0.server_details.client_count() + 1,
        s1.server_details.clients() == s0.server_details.clients(),
        s1.server_details.server_tx() == s0.server_details.server_tx(),
        s2.server_details.client_count() == s1.server_details.client_count() - 1,
        s2.server_details.clients() == s1.server_details.clients(),
        s2.server_details.server_tx() == s1.server_details.server_tx(),
    ensures
        s2.server_details.client_count() == s0.server_details.client_count(),
        s2.server_details.clients() == s0.server_details.clients(),
        s2.server_details.server_tx() == s0.server_details.server_tx(),
{
}

/// Admitting a connection as the server's loop does (a client made by
/// `create_client`, whose id is in range, then added by `add_client`) keeps
/// the record consistent: every id stays in range and the count stays the
/// number of clients.
pub proof fn lemma_admission_keeps_registry_consistent(before: Server, client: Client, after: Server)
    requires
        before.server_details.registry_consistent(),
        MIN_CLIENT_ID <= client.id() <= MAX_CLIENT_ID,
        after.server_details.clients() == before.server_details.clients().push(client),
        after.server_details.client_count() == before.server_details.client_count() + 1,
    ensures
        after.server_details.registry_consistent(),
{
    let b = before.server_details.clients();
    let a = after.server_details.clients();
    assert forall|i: int| 0 <= i < a.len() implies MIN_CLIENT_ID <= #[trigger] a[i].id()
        <= MAX_CLIENT_ID by {
        if i < b.len() {
            assert(a[i] == b[i]);
        }
    }
}

} // verus!
