//! The two-client relay scenario, run against the library's own
//! components: what the event loops outside the library would feed in is
//! written here as plain events.

use chat::channel::Receive;
use chat::cli::{Cli, Commands};
use chat::client::{reader_step, writer_step, ClientExit, ReaderAction, ReaderEvent, WriterAction,
    WriterEvent};
use chat::server::ChatServer;
use chat::session::Session;
use chat::signal::Signal;

#[test]
fn two_clients_relay_and_mark_mentions() {
    // One server-side channel, two connected sessions (alice's and
    // bob's), each with its own outbound subscription.
    let server = ChatServer::new("127.0.0.1:0".to_string());
    let mut chan = server.make_channel();
    let alice_session = Session::new();
    let mut alice_out = chan.subscribe();
    let _bob_session = Session::new();
    let mut bob_out = chan.subscribe();

    // alice types "hello @bob": her writer loop formats and frames it.
    let mut alice_sig = Signal::new(ClientExit::Running);
    let sent = match writer_step("alice", &mut alice_sig, WriterEvent::Line("hello @bob\n".to_string())) {
        WriterAction::Send(w) => w,
        other => panic!("expected a send, got {:?}", other),
    };
    assert_eq!(sent, "alice: hello @bob\n");

    // The server reads that line on alice's session and publishes it.
    alice_session.on_inbound_line(&mut chan, sent.as_str());

    // bob's outbound loop receives it and his client renders it marked.
    let to_bob = match bob_out.receive(&chan) {
        Receive::Msg(m) => m,
        other => panic!("expected the relayed line, got {:?}", other),
    };
    assert_eq!(to_bob, "alice: hello @bob");
    let mut bob_sig = Signal::new(ClientExit::Running);
    match reader_step("bob", &mut bob_sig, ReaderEvent::Line(format!("{}\n", to_bob))) {
        ReaderAction::Print { text, marked } => {
            assert_eq!(text, "alice: hello @bob");
            assert!(marked);
        },
        other => panic!("expected a print, got {:?}", other),
    }

    // alice receives her own line back, unmarked (no self-mention).
    let to_alice = match alice_out.receive(&chan) {
        Receive::Msg(m) => m,
        other => panic!("expected the relayed line, got {:?}", other),
    };
    assert_eq!(to_alice, "alice: hello @bob");
    match reader_step("alice", &mut alice_sig, ReaderEvent::Line(format!("{}\n", to_alice))) {
        ReaderAction::Print { text, marked } => {
            assert_eq!(text, "alice: hello @bob");
            assert!(!marked);
        },
        other => panic!("expected a print, got {:?}", other),
    }
}

#[test]
fn command_types_carry_both_modes() {
    let s = Cli { command: Commands::Server { bind: "0.0.0.0:4000".to_string() } };
    match s.command {
        Commands::Server { bind } => assert_eq!(bind, "0.0.0.0:4000"),
        Commands::Client { .. } => panic!("expected server mode"),
    }
    let c = Cli {
        command: Commands::Client { addr: "127.0.0.1:4000".to_string(), name: "bob".to_string() },
    };
    match c.command {
        Commands::Client { addr, name } => {
            assert_eq!(addr, "127.0.0.1:4000");
            assert_eq!(name, "bob");
        },
        Commands::Server { .. } => panic!("expected client mode"),
    }
}

#[test]
fn server_keeps_its_bind_address() {
    let s = ChatServer::new("192.168.0.1:9000".to_string());
    assert_eq!(s.bind, "192.168.0.1:9000");
}
