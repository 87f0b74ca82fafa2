use grid_chat::bus::Incoming;
use grid_chat::bus::BUS_CAPACITY;
use grid_chat::keys::Key;
use grid_chat::message::Message;
use grid_chat::modes::InputMode;
use grid_chat::relay::relay_step;
use grid_chat::relay::RelayAction;
use grid_chat::relay::RelayEvent;
use grid_chat::server::Server;
use grid_chat::server_commands::RoomRequest;
use grid_chat::server_commands::ServerCommand;
use grid_chat::session::open_room;
use grid_chat::session::Flow;
use grid_chat::session::Session;
use grid_chat::user::Color;
use tokio::sync::broadcast;
use tokio::sync::broadcast::error::TryRecvError;
use tui_input::Input;

fn session() -> (Session, broadcast::Receiver<ServerCommand>) {
    let (commands_tx, commands_rx) = broadcast::channel::<ServerCommand>(1);
    (Session::new(commands_tx), commands_rx)
}

fn notice(outcome: Result<InputMode, ()>) -> String {
    match outcome {
        Ok(InputMode::Info(text)) => text,
        other => panic!("not a notice: {:?}", other),
    }
}

fn ends(command: ServerCommand) -> (broadcast::Sender<Message>, broadcast::Sender<Message>) {
    match command {
        ServerCommand::HostRoom { inbound_tx, outbound_tx, .. } => (inbound_tx, outbound_tx),
        ServerCommand::JoinRoom { inbound_tx, outbound_tx, .. } => (inbound_tx, outbound_tx),
    }
}

#[test]
fn new_session_has_the_local_user_and_no_lines() {
    let (session, _commands) = session();
    assert!(matches!(session.input_mode, InputMode::Help));
    assert!(session.messages.is_empty());
    assert_eq!(session.text_buffer.value(), "");
    assert_eq!(session.root_user().id, 0);
    assert_eq!(session.root_user().name, "You");
    assert_eq!(session.root_user().color, Color::LightBlue);
    assert_eq!(session.nth_user(0).name, "You");
}

#[test]
fn switch_mode_changes_only_the_mode() {
    let (mut session, _commands) = session();
    session.text_buffer = Input::new(String::from("abc"));
    session.switch_mode(InputMode::Typing);
    assert!(matches!(session.input_mode, InputMode::Typing));
    assert_eq!(session.text_buffer.value(), "abc");
    assert!(session.messages.is_empty());
}

#[test]
fn outside_a_room_a_line_comes_back() {
    let (mut session, _commands) = session();
    session.text_buffer = Input::new(String::from("hi"));
    assert!(session.send_user_msg());
    assert_eq!(session.messages.len(), 1);
    assert_eq!(session.messages[0].content, "hi\n");
    assert_eq!(session.messages[0].user_id, 0);
    assert_eq!(session.messages[0].color, Color::LightYellow);
    assert_eq!(session.text_buffer.value(), "");
    let echo = session.incoming().try_recv().unwrap();
    assert_eq!(echo.content, "hi\n");
}

#[test]
fn a_line_without_subscriber_stays_in_the_buffer() {
    let (mut session, mut commands) = session();
    session.text_buffer = Input::new(String::from("run"));
    session.execute_cmd().unwrap();
    let command = commands.try_recv().unwrap();
    session.text_buffer = Input::new(String::from("anyone?"));
    assert!(!session.send_user_msg());
    assert!(session.messages.is_empty());
    assert_eq!(session.text_buffer.value(), "anyone?");
    let (_inbound_tx, outbound_tx) = ends(command);
    let mut relay_rx = outbound_tx.subscribe();
    assert!(session.send_user_msg());
    assert_eq!(session.messages.len(), 1);
    assert_eq!(session.text_buffer.value(), "");
    assert_eq!(relay_rx.try_recv().unwrap().content, "anyone?\n");
}

#[test]
fn record_sent_keeps_an_undelivered_line_out_of_the_log() {
    let (mut session, _commands) = session();
    session.text_buffer = Input::new(String::from("draft"));
    session.record_sent(Message::new(0, String::from("draft\n")), false);
    assert!(session.messages.is_empty());
    assert_eq!(session.text_buffer.value(), "draft");
    session.record_sent(Message::new(0, String::from("draft\n")), true);
    assert_eq!(session.messages.len(), 1);
    assert_eq!(session.messages[0].content, "draft\n");
    assert_eq!(session.text_buffer.value(), "");
}

#[test]
fn incoming_line_joins_the_log() {
    let (mut session, _commands) = session();
    session.text_buffer = Input::new(String::from("typing"));
    session.listen_for_msgs(Incoming::Line(Message::from_line(String::from("hello\n"))));
    session.listen_for_msgs(Incoming::Lagged(3));
    session.listen_for_msgs(Incoming::Closed);
    assert_eq!(session.messages.len(), 1);
    assert_eq!(session.messages[0].content, "hello\n");
    assert_eq!(session.messages[0].user_id, 1);
    assert_eq!(session.text_buffer.value(), "typing");
}

#[test]
fn a_closed_channel_ends_the_listening_until_the_next_room() {
    let (mut session, mut commands) = session();
    assert!(session.is_listening());
    session.listen_for_msgs(Incoming::Lagged(1));
    assert!(session.is_listening());
    session.listen_for_msgs(Incoming::Line(Message::from_line(String::from("x\n"))));
    assert!(session.is_listening());
    assert!(session.switch_room(RoomRequest::Host));
    drop(commands.try_recv().unwrap());
    assert!(matches!(session.incoming().try_recv(), Err(TryRecvError::Closed)));
    session.listen_for_msgs(Incoming::Closed);
    assert!(!session.is_listening());
    assert_eq!(session.messages.len(), 1);
    assert!(session.switch_room(RoomRequest::Host));
    assert!(session.is_listening());
}

#[test]
fn quit_asks_to_end_and_changes_nothing() {
    let (mut session, mut commands) = session();
    session.text_buffer = Input::new(String::from(" quit "));
    assert!(session.execute_cmd().is_err());
    assert_eq!(session.text_buffer.value(), " quit ");
    assert!(matches!(commands.try_recv(), Err(TryRecvError::Empty)));
}

#[test]
fn inv_is_answered_with_a_notice() {
    let (mut session, mut commands) = session();
    session.text_buffer = Input::new(String::from("inv"));
    assert_eq!(notice(session.execute_cmd()), "Not yet implemented!");
    assert_eq!(session.text_buffer.value(), "");
    assert!(matches!(commands.try_recv(), Err(TryRecvError::Empty)));
}

#[test]
fn join_without_address_emits_no_command() {
    let (mut session, mut commands) = session();
    session.text_buffer = Input::new(String::from("join"));
    assert_eq!(notice(session.execute_cmd()), "Unknown Command!");
    assert_eq!(session.text_buffer.value(), "");
    assert!(matches!(commands.try_recv(), Err(TryRecvError::Empty)));
    session.text_buffer = Input::new(String::from("hi"));
    assert!(session.send_user_msg());
    assert_eq!(session.incoming().try_recv().unwrap().content, "hi\n");
}

#[test]
fn run_forwards_a_host_command() {
    let (mut session, mut commands) = session();
    session.text_buffer = Input::new(String::from("run"));
    assert_eq!(notice(session.execute_cmd()), "Server running on 127.0.0.1:8080");
    assert_eq!(session.text_buffer.value(), "");
    match commands.try_recv().unwrap() {
        ServerCommand::HostRoom { shutdown_rx, .. } => {
            assert!(!*shutdown_rx.borrow());
            assert!(!shutdown_rx.has_changed().unwrap());
        }
        other => panic!("not a host: {:?}", other),
    }
    assert!(matches!(commands.try_recv(), Err(TryRecvError::Empty)));
}

#[test]
fn join_forwards_the_address() {
    let (mut session, mut commands) = session();
    session.text_buffer = Input::new(String::from("join 127.0.0.1:8080"));
    assert_eq!(notice(session.execute_cmd()), "joined room 127.0.0.1:8080");
    assert_eq!(session.text_buffer.value(), "");
    match commands.try_recv().unwrap() {
        ServerCommand::JoinRoom { address, shutdown_rx, .. } => {
            assert_eq!(address, "127.0.0.1:8080");
            assert!(!*shutdown_rx.borrow());
            assert!(!shutdown_rx.has_changed().unwrap());
        }
        other => panic!("not a join: {:?}", other),
    }
}

#[test]
fn command_without_transport_is_still_answered() {
    let (commands_tx, commands_rx) = broadcast::channel::<ServerCommand>(1);
    let mut session = Session::new(commands_tx);
    drop(commands_rx);
    assert!(!session.switch_room(RoomRequest::Host));
    session.text_buffer = Input::new(String::from("run"));
    assert_eq!(notice(session.execute_cmd()), "Server running on 127.0.0.1:8080");
}

#[test]
fn channels_of_a_room_run_in_their_direction() {
    let (mut session, mut commands) = session();
    assert!(session.switch_room(RoomRequest::Join(String::from("host:1"))));
    let (inbound_tx, outbound_tx) = ends(commands.try_recv().unwrap());
    let mut relay_rx = outbound_tx.subscribe();
    inbound_tx.send(Message::from_line(String::from("from the network\n"))).unwrap();
    assert_eq!(session.incoming().try_recv().unwrap().content, "from the network\n");
    session.text_buffer = Input::new(String::from("to the network"));
    assert!(session.send_user_msg());
    assert_eq!(relay_rx.try_recv().unwrap().content, "to the network\n");
    assert!(matches!(session.incoming().try_recv(), Err(TryRecvError::Empty)));
}

#[test]
fn open_room_pairs_the_ends() {
    let (_handle, command) = open_room(RoomRequest::Join(String::from("host:1")));
    assert!(matches!(command.to_request(), RoomRequest::Join(address) if address == "host:1"));
    let copy = command.clone();
    let (inbound_tx, outbound_tx) = ends(command);
    let (inbound_copy, outbound_copy) = ends(copy);
    assert!(inbound_tx.same_channel(&inbound_copy));
    assert!(outbound_tx.same_channel(&outbound_copy));
    assert!(!inbound_tx.same_channel(&outbound_tx));
    assert_eq!(inbound_tx.receiver_count(), 1);
    assert_eq!(outbound_tx.receiver_count(), 0);
    let (_handle, host) = open_room(RoomRequest::Host);
    assert!(matches!(host.to_request(), RoomRequest::Host));
}

#[test]
fn a_new_room_supersedes_the_old_one() {
    let (mut session, mut commands) = session();
    session.text_buffer = Input::new(String::from("run"));
    session.execute_cmd().unwrap();
    let (_old_inbound, old_outbound) = ends(commands.try_recv().unwrap());
    let mut old_relay = old_outbound.subscribe();
    session.text_buffer = Input::new(String::from("first"));
    assert!(session.send_user_msg());
    assert_eq!(old_relay.try_recv().unwrap().content, "first\n");

    session.text_buffer = Input::new(String::from("join 10.0.0.1:9"));
    session.execute_cmd().unwrap();
    let (_new_inbound, new_outbound) = ends(commands.try_recv().unwrap());
    assert!(!new_outbound.same_channel(&old_outbound));
    let mut new_relay = new_outbound.subscribe();
    session.text_buffer = Input::new(String::from("second"));
    assert!(session.send_user_msg());
    session.text_buffer = Input::new(String::from("third"));
    assert!(session.send_user_msg());
    assert_eq!(new_relay.try_recv().unwrap().content, "second\n");
    assert_eq!(new_relay.try_recv().unwrap().content, "third\n");
    assert!(matches!(old_relay.try_recv(), Err(TryRecvError::Empty)));
}

#[test]
fn the_same_command_twice_gives_equivalent_independent_rooms() {
    let (mut first, mut first_commands) = session();
    let (mut second, mut second_commands) = session();
    first.text_buffer = Input::new(String::from("join 127.0.0.1:8080"));
    second.text_buffer = Input::new(String::from("join 127.0.0.1:8080"));
    assert_eq!(notice(first.execute_cmd()), notice(second.execute_cmd()));
    let a = first_commands.try_recv().unwrap();
    let b = second_commands.try_recv().unwrap();
    assert!(matches!(a.to_request(), RoomRequest::Join(address) if address == "127.0.0.1:8080"));
    assert!(matches!(b.to_request(), RoomRequest::Join(address) if address == "127.0.0.1:8080"));
    let (a_inbound, a_outbound) = ends(a);
    let (b_inbound, b_outbound) = ends(b);
    assert!(!a_inbound.same_channel(&b_inbound));
    assert!(!a_outbound.same_channel(&b_outbound));
}

#[test]
fn the_old_shutdown_signal_ends_with_its_room() {
    let (mut session, mut commands) = session();
    assert!(session.switch_room(RoomRequest::Host));
    let old = match commands.try_recv().unwrap() {
        ServerCommand::HostRoom { shutdown_rx, .. } => shutdown_rx,
        other => panic!("not a host: {:?}", other),
    };
    assert!(!*old.borrow());
    assert!(!old.has_changed().unwrap());
    assert!(session.switch_room(RoomRequest::Host));
    assert!(old.has_changed().is_err());
}

#[test]
fn a_copy_of_a_command_observes_the_same_signal() {
    let (mut session, mut commands) = session();
    assert!(session.switch_room(RoomRequest::Join(String::from("host:1"))));
    let command = commands.try_recv().unwrap();
    let copy = command.clone();
    assert!(matches!(copy.to_request(), RoomRequest::Join(address) if address == "host:1"));
    let (first, second) = match (command, copy) {
        (
            ServerCommand::JoinRoom { shutdown_rx: first, .. },
            ServerCommand::JoinRoom { shutdown_rx: second, .. },
        ) => (first, second),
        other => panic!("not two joins: {:?}", other),
    };
    assert!(first.same_channel(&second));
    assert!(session.request_shutdown());
    assert!(*first.borrow());
    assert!(*second.borrow());
}

#[test]
fn shutdown_request_reaches_the_room() {
    let (mut session, mut commands) = session();
    assert!(!session.request_shutdown());
    assert!(session.switch_room(RoomRequest::Host));
    let shutdown_rx = match commands.try_recv().unwrap() {
        ServerCommand::HostRoom { shutdown_rx, .. } => shutdown_rx,
        other => panic!("not a host: {:?}", other),
    };
    assert!(!shutdown_rx.has_changed().unwrap());
    assert!(session.request_shutdown());
    assert!(shutdown_rx.has_changed().unwrap());
    assert!(*shutdown_rx.borrow());
}

#[test]
fn host_and_guest_exchange_lines() {
    let (mut host, mut commands) = session();
    host.text_buffer = Input::new(String::from("run"));
    assert_eq!(notice(host.execute_cmd()), "Server running on 127.0.0.1:8080");
    let (inbound_tx, outbound_tx) = ends(commands.try_recv().unwrap());
    let mut relay_rx = outbound_tx.subscribe();

    let read = RelayEvent::Read { bytes_read: 6, line: String::from("hello\n") };
    assert!(matches!(Server::handle_client(read, &inbound_tx).0, RelayAction::Continue));
    let arrived = host.incoming().try_recv().unwrap();
    assert_eq!(arrived.content, "hello\n");
    assert_eq!(arrived.user_id, 1);
    host.listen_for_msgs(Incoming::Line(arrived));
    assert_eq!(host.messages.len(), 1);
    assert_eq!(host.messages[0].content, "hello\n");

    host.text_buffer = Input::new(String::from("hi"));
    assert!(host.send_user_msg());
    let outgoing = relay_rx.try_recv().unwrap();
    match relay_step(RelayEvent::Bus(Incoming::Line(outgoing))) {
        RelayAction::Write(bytes) => assert_eq!(bytes, b"hi\n".to_vec()),
        other => panic!("not a write: {:?}", other),
    }
    assert_eq!(host.messages.len(), 2);
    assert_eq!(host.messages[1].content, "hi\n");
}

#[test]
fn unknown_users_are_shown_as_program() {
    let (session, _commands) = session();
    assert_eq!(session.display_name(0), "You");
    assert_eq!(session.display_name(1), "Program");
    assert_eq!(session.display_name(usize::MAX), "Program");
}

#[test]
fn keys_move_between_the_modes() {
    let (mut session, _commands) = session();
    assert_eq!(session.press(Key::Other), Flow::Stay);
    assert!(matches!(session.input_mode, InputMode::Normal));
    assert_eq!(session.press(Key::Char('x')), Flow::Stay);
    assert!(matches!(session.input_mode, InputMode::Normal));
    assert_eq!(session.press(Key::Char('h')), Flow::Stay);
    assert!(matches!(session.input_mode, InputMode::Help));
    assert_eq!(session.press(Key::Char('t')), Flow::Stay);
    assert!(matches!(session.input_mode, InputMode::Typing));
    assert_eq!(session.press(Key::Char('Q')), Flow::Edit);
    assert!(matches!(session.input_mode, InputMode::Typing));
    assert_eq!(session.press(Key::Esc), Flow::Stay);
    assert!(matches!(session.input_mode, InputMode::Normal));
    assert_eq!(session.press(Key::Char(':')), Flow::Stay);
    assert!(matches!(session.input_mode, InputMode::Command));
    assert_eq!(session.press(Key::Esc), Flow::Stay);
    assert_eq!(session.press(Key::Char('Q')), Flow::Leave);
    assert!(matches!(session.input_mode, InputMode::Normal));
}

#[test]
fn enter_sends_the_text_line() {
    let (mut session, _commands) = session();
    session.switch_mode(InputMode::Typing);
    session.text_buffer = Input::new(String::from("hi"));
    assert_eq!(session.press(Key::Enter), Flow::Stay);
    assert!(matches!(session.input_mode, InputMode::Typing));
    assert_eq!(session.messages.len(), 1);
    assert_eq!(session.messages[0].content, "hi\n");
    assert_eq!(session.text_buffer.value(), "");
}

#[test]
fn enter_carries_out_the_command_line() {
    let (mut session, mut commands) = session();
    session.switch_mode(InputMode::Command);
    session.text_buffer = Input::new(String::from("run"));
    assert_eq!(session.press(Key::Enter), Flow::Stay);
    match &session.input_mode {
        InputMode::Info(text) => assert_eq!(text, "Server running on 127.0.0.1:8080"),
        other => panic!("not a notice: {:?}", other),
    }
    assert!(matches!(commands.try_recv(), Ok(ServerCommand::HostRoom { .. })));
    assert_eq!(session.text_buffer.value(), "");
    assert_eq!(session.press(Key::Char(':')), Flow::Stay);
    session.text_buffer = Input::new(String::from("quit"));
    assert_eq!(session.press(Key::Enter), Flow::Leave);
    assert!(matches!(session.input_mode, InputMode::Command));
    assert_eq!(session.text_buffer.value(), "quit");
}

#[test]
fn a_newline_in_the_text_is_sent_as_it_is() {
    let (mut session, _commands) = session();
    session.text_buffer = Input::new(String::from("a\nb"));
    assert!(session.send_user_msg());
    assert_eq!(session.messages[0].content, "a\nb\n");
    assert_eq!(session.messages[0].as_bytes(), b"a\nb\n".to_vec());
}

#[test]
fn an_empty_text_is_sent_as_an_empty_line() {
    let (mut session, _commands) = session();
    assert!(session.send_user_msg());
    assert_eq!(session.messages[0].content, "\n");
}

#[test]
fn a_slow_session_loses_the_oldest_lines() {
    assert_eq!(BUS_CAPACITY, 10);
    let (mut session, mut commands) = session();
    assert!(session.switch_room(RoomRequest::Host));
    let (inbound_tx, _outbound_tx) = ends(commands.try_recv().unwrap());
    for n in 0..BUS_CAPACITY {
        inbound_tx.send(Message::from_line(format!("{}\n", n))).unwrap();
    }
    assert_eq!(session.incoming().try_recv().unwrap().content, "0\n");
    let mut sent = BUS_CAPACITY;
    let skipped = loop {
        inbound_tx.send(Message::from_line(format!("{}\n", sent))).unwrap();
        sent += 1;
        match session.incoming().try_recv() {
            Ok(line) => assert_eq!(line.content, format!("{}\n", sent - BUS_CAPACITY)),
            Err(TryRecvError::Lagged(skipped)) => break skipped,
            Err(other) => panic!("neither a line nor a lag: {:?}", other),
        }
        for _ in 0..BUS_CAPACITY {
            inbound_tx.send(Message::from_line(format!("{}\n", sent))).unwrap();
            sent += 1;
        }
    };
    assert!(skipped > 0);
    let before = session.messages.len();
    session.listen_for_msgs(Incoming::Lagged(skipped));
    assert_eq!(session.messages.len(), before);
    assert!(session.is_listening());
    assert!(session.incoming().try_recv().is_ok());
}
