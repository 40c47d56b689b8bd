//! A connected client: its id, address, the sender of its control channel and
//! its cancellation token; and the controls that travel on that channel.

use crate::externs::{clone_cancellation_token, new_cancellation_token};
use tokio::sync::mpsc::Sender;
use tokio_util::sync::CancellationToken;
use vstd::prelude::*;

verus! {

/// A client's id.
pub type ClientID = u16;

/// A client's socket address, held as the text of its usual display form
/// (`ip:port`, or `[ip]:port` for IPv6): that text is all the server reads
/// of an address.
#[derive(Clone, Debug)]
pub struct ClientAddr {
    text: String,
}

impl View for ClientAddr {
    type V = Seq<char>;

    closed spec fn view(&self) -> Seq<char> {
        self.text@
    }
}

impl ClientAddr {
    /// The address whose display form is `text`.
    pub fn new(text: String) -> (addr: ClientAddr)
        ensures
            addr@ == text@,
    {
        ClientAddr { text }
    }

    /// The display form of the address.
    pub fn as_str(&self) -> (text: &str)
        ensures
            text@ == self@,
    {
        self.text.as_str()
    }
}

/// What a client asks of the server.
#[derive(Clone, Copy, Debug, PartialEq, Eq, Structural)]
pub enum RequestType {
    GetList,
    GetFile,
    SendMessage,
    GetOkay,
    GetErr,
}

/// A message on a client's control channel: raw bytes, or a request with its
/// text and the id of the client that made it.
pub enum Control {
    Bytes(Vec<u8>),
    Request { request_type: RequestType, text: String, client_id: ClientID },
}

/// A `Control` as a mathematical value.
pub enum ControlView {
    Bytes(Seq<u8>),
    Request { request_type: RequestType, text: Seq<char>, client_id: ClientID },
}

impl View for Control {
    type V = ControlView;

    open spec fn view(&self) -> ControlView {
        match self {
            Control::Bytes(b) => ControlView::Bytes(b@),
            Control::Request { request_type, text, client_id } => ControlView::Request {
                request_type: *request_type,
                text: text@,
                client_id: *client_id,
            },
        }
    }
}

impl Control {
    /// The request `request_type` with `text`, made by `client_id`.
    pub fn request_from(request_type: RequestType, text: String, client_id: ClientID) -> (c: Self)
        ensures
            c@ == (ControlView::Request { request_type, text: text@, client_id }),
    {
        Control::Request { request_type, text, client_id }
    }
}

/// Whether a client is busy with a request.
#[derive(Clone, Copy, Debug, PartialEq, Eq, Structural)]
pub enum ClientState {
    Free,
    Processing,
}

/// What the server keeps of a client: its id and address, the sender of its
/// control channel, and the token that cancels its tasks.
pub struct ClientDetails {
    client_id: ClientID,
    client_addr: ClientAddr,
    control_tx: Sender<Control>,
    cancel_token: CancellationToken,
}

impl ClientDetails {
    pub closed spec fn id(&self) -> ClientID {
        self.client_id
    }

    pub closed spec fn addr(&self) -> ClientAddr {
        self.client_addr
    }

    pub closed spec fn control_tx(&self) -> Sender<Control> {
        self.control_tx
    }

    pub closed spec fn cancel_token(&self) -> CancellationToken {
        self.cancel_token
    }

    /// The details of client `client_id` at `client_addr`, with a fresh
    /// cancellation token.
    pub fn new(client_addr: ClientAddr, client_id: ClientID, control_tx: Sender<Control>) -> (d:
        Self)
        ensures
            d.id() == client_id,
            d.addr() == client_addr,
            d.control_tx() == control_tx,
    {
        Self { client_id, client_addr, control_tx, cancel_token: new_cancellation_token() }
    }

    fn get_client_id(&self) -> (id: u16)
        ensures
            id == self.id(),
    {
        self.client_id
    }

    fn get_client_addr(&self) -> (addr: &ClientAddr)
        ensures
            *addr == self.addr(),
    {
        &self.client_addr
    }

    fn get_cancellation_token_clone(&self) -> (token: CancellationToken)
        ensures
            token == self.cancel_token(),
    {
        clone_cancellation_token(&self.cancel_token)
    }
}

/// A client as the server holds it: its details and its state.
pub struct Client {
    client_details: ClientDetails,
    client_state: ClientState,
}

impl Client {
    pub closed spec fn details(&self) -> ClientDetails {
        self.client_details
    }

    pub closed spec fn state(&self) -> ClientState {
        self.client_state
    }

    /// The client's id.
    pub open spec fn id(&self) -> ClientID {
        self.details().id()
    }

    /// A client with `client_details`, free to take a request.
    pub fn new(client_details: ClientDetails) -> (c: Self)
        ensures
            c.details() == client_details,
            c.state() == ClientState::Free,
    {
        Self { client_details, client_state: ClientState::Free }
    }

    pub fn get_client_id(&self) -> (id: u16)
        ensures
            id == self.id(),
    {
        self.client_details.get_client_id()
    }

    pub fn get_client_addr(&self) -> (addr: &ClientAddr)
        ensures
            *addr == self.details().addr(),
    {
        self.client_details.get_client_addr()
    }

    pub fn get_client_details(&self) -> (d: &ClientDetails)
        ensures
            *d == self.details(),
    {
        &self.client_details
    }

    /// A clone of the client's cancellation token: cancelling either cancels
    /// both.
    pub fn get_cancellation_token_clone(&self) -> (token: CancellationToken)
        ensures
            token == self.details().cancel_token(),
    {
        self.client_details.get_cancellation_token_clone()
    }
}

} // verus!
