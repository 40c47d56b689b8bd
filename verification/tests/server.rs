use ftcp_server::client::{Client, ClientAddr, ClientDetails, ClientState, Control};
use ftcp_server::server::Server;
use ftcp_server::server_details::{LogLevel, ServerCommand, ServerDetails, MAX_CLIENT_ID, MIN_CLIENT_ID};
use tokio::sync::mpsc;

fn new_server() -> (Server, mpsc::Receiver<ServerCommand>) {
    let (tx, rx) = mpsc::channel::<ServerCommand>(32);
    (Server::new(ServerDetails::new(tx)), rx)
}

fn control_tx() -> mpsc::Sender<Control> {
    let (tx, _rx) = mpsc::channel::<Control>(32);
    tx
}

fn add_with_id(server: &mut Server, id: u16) {
    let details = ClientDetails::new(ClientAddr::new(format!("10.1.1.1:{id}")), id, control_tx());
    server.add_client(Client::new(details));
}

#[test]
fn new_server_has_no_clients() {
    let (server, _rx) = new_server();
    assert_eq!(server.server_details.get_client_count(), 0);
    assert!(!server.server_details.has_held_id());
    assert!(!server.server_details.is_client_id_vacant(1000));
    assert!(server.server_details.held_ids().is_empty());
}

#[test]
fn vacancy_test_is_true_of_held_ids() {
    let (mut server, _rx) = new_server();
    add_with_id(&mut server, 1234);
    assert!(server.server_details.is_client_id_vacant(1234));
    assert!(!server.server_details.is_client_id_vacant(1235));
    assert!(server.server_details.has_held_id());
}

#[test]
fn created_client_is_free_with_held_id() {
    let (mut server, _rx) = new_server();
    add_with_id(&mut server, 4321);
    let client = server.create_client(ClientAddr::new("127.0.0.1:5000".to_string()), control_tx());
    assert_eq!(client.get_client_id(), 4321);
    assert_eq!(client.get_client_addr().as_str(), "127.0.0.1:5000");
    let _details = client.get_client_details();
}

#[test]
fn created_ids_are_held_ids() {
    let (mut server, _rx) = new_server();
    add_with_id(&mut server, 1000);
    add_with_id(&mut server, 5555);
    add_with_id(&mut server, 9999);
    for i in 0..200u32 {
        let client = server.create_client(ClientAddr::new(format!("10.0.0.1:{i}")), control_tx());
        let id = client.get_client_id();
        assert!(id == 1000 || id == 5555 || id == 9999);
        assert!((MIN_CLIENT_ID..=MAX_CLIENT_ID).contains(&id));
    }
}

#[test]
fn add_client_counts_it() {
    let (mut server, _rx) = new_server();
    add_with_id(&mut server, 2000);
    let client = server.create_client(ClientAddr::new("10.0.0.1:1".to_string()), control_tx());
    assert_eq!(client.get_client_id(), 2000);
    server.add_client(client);
    assert_eq!(server.server_details.get_client_count(), 2);
    assert!(server.server_details.is_client_id_vacant(2000));
}

#[test]
fn increment_then_decrement_restores_count() {
    let (mut server, _rx) = new_server();
    server.increment_client_count();
    server.increment_client_count();
    assert_eq!(server.server_details.get_client_count(), 2);
    server.decrement_client_count();
    assert_eq!(server.server_details.get_client_count(), 1);
    server.decrement_client_count();
    assert_eq!(server.server_details.get_client_count(), 0);
}

#[test]
fn client_new_is_free() {
    let details = ClientDetails::new(ClientAddr::new("[::1]:80".to_string()), 4321, control_tx());
    let client = Client::new(details);
    assert_eq!(client.get_client_id(), 4321);
    assert_eq!(client.get_client_addr().as_str(), "[::1]:80");
    let _ = ClientState::Free;
}

#[test]
fn cancellation_token_clones_share_state() {
    let details = ClientDetails::new(ClientAddr::new("1.2.3.4:5".to_string()), 1000, control_tx());
    let client = Client::new(details);
    let a = client.get_cancellation_token_clone();
    let b = client.get_cancellation_token_clone();
    assert!(!a.is_cancelled());
    a.cancel();
    assert!(b.is_cancelled());
    assert!(client.get_cancellation_token_clone().is_cancelled());
}

#[test]
fn server_tx_clone_reaches_server_channel() {
    let (server, mut rx) = new_server();
    let tx = server.get_server_tx_clone();
    tx.try_send(ServerCommand::kick(1234, "spam".to_string())).ok().unwrap();
    let cmd = rx.try_recv().ok().unwrap();
    assert_eq!(cmd.describe(), "[CMD: KICK] Client: 1234 kicked for spam");
}

#[test]
fn describe_kick() {
    assert_eq!(ServerCommand::kick(1234, "spam".to_string()).describe(), "[CMD: KICK] Client: 1234 kicked for spam");
    assert_eq!(ServerCommand::kick(0, String::new()).describe(), "[CMD: KICK] Client: 0 kicked for ");
    assert_eq!(ServerCommand::kick(65535, "x".to_string()).describe(), "[CMD: KICK] Client: 65535 kicked for x");
}

#[test]
fn describe_disconnect_and_connect() {
    assert_eq!(ServerCommand::ClientDisconnected(1000).describe(), "[CMD: DISCONNECT] Client: 1000 disconnected");
    let c = ServerCommand::ClientConnected(9999, ClientAddr::new("127.0.0.1:8080".to_string()));
    assert_eq!(c.describe(), "[CMD: CONNECT] Client: 9999 connected with IP: 127.0.0.1:8080");
}

#[test]
fn describe_log_levels() {
    assert_eq!(ServerCommand::log(LogLevel::Info, "up".to_string()).describe(), "[CMD: LOG] Info: up");
    assert_eq!(ServerCommand::log(LogLevel::Warn, "slow".to_string()).describe(), "[CMD: LOG] Warn: slow");
    assert_eq!(ServerCommand::log(LogLevel::Error, "down".to_string()).describe(), "[CMD: LOG] Error: down");
}

#[test]
fn held_ids_lists_taken_ids_in_order() {
    let (mut server, _rx) = new_server();
    add_with_id(&mut server, 9999);
    add_with_id(&mut server, 1001);
    add_with_id(&mut server, 1000);
    add_with_id(&mut server, 1001);
    assert_eq!(server.server_details.held_ids(), vec![1000, 1001, 9999]);
}

#[test]
fn choose_client_id_keeps_held_first_draw() {
    let (mut server, _rx) = new_server();
    add_with_id(&mut server, 4321);
    assert_eq!(server.server_details.choose_client_id(4321, 0), 4321);
    assert_eq!(server.server_details.choose_client_id(4321, 5000), 4321);
}

#[test]
fn choose_client_id_takes_kth_held_after_vacant_draw() {
    let (mut server, _rx) = new_server();
    add_with_id(&mut server, 1000);
    add_with_id(&mut server, 1002);
    add_with_id(&mut server, 9999);
    assert_eq!(server.server_details.choose_client_id(1001, 0), 1000);
    assert_eq!(server.server_details.choose_client_id(1001, 1), 1002);
    assert_eq!(server.server_details.choose_client_id(5000, 2), 9999);
}
