use grid_chat::client::get_invite_link;
use grid_chat::client::parse_client_command;
use grid_chat::client::ClientCommand;
use grid_chat::keys::on_key;
use grid_chat::keys::Key;
use grid_chat::keys::KeyAction;
use grid_chat::modes::InputMode;

#[test]
fn a_session_opens_on_help() {
    assert!(matches!(InputMode::default(), InputMode::Help));
}

#[test]
fn set_replaces_the_mode() {
    let mut mode = InputMode::Help;
    mode.set(InputMode::Typing);
    assert!(matches!(mode, InputMode::Typing));
    mode.set(InputMode::Info(String::from("note")));
    match mode {
        InputMode::Info(notice) => assert_eq!(notice, "note"),
        other => panic!("not a notice: {:?}", other),
    }
}

#[test]
fn every_mode_has_its_label() {
    assert_eq!(InputMode::Normal.label(), " Normal Mode ");
    assert_eq!(InputMode::Info(String::from("x")).label(), " Normal Mode ");
    assert_eq!(InputMode::Typing.label(), " Typing Mode ");
    assert_eq!(InputMode::Command.label(), " Command Mode ");
    assert_eq!(InputMode::Help.label(), " Help ");
}

#[test]
fn keys_on_help_and_notice() {
    for mode in [InputMode::Help, InputMode::Info(String::from("n"))] {
        assert!(matches!(on_key(&mode, Key::Char(':')), KeyAction::Switch(InputMode::Command)));
        assert!(matches!(on_key(&mode, Key::Char('t')), KeyAction::Switch(InputMode::Typing)));
        assert!(matches!(on_key(&mode, Key::Char('Q')), KeyAction::Quit));
        assert!(matches!(on_key(&mode, Key::Char('h')), KeyAction::Switch(InputMode::Normal)));
        assert!(matches!(on_key(&mode, Key::Esc), KeyAction::Switch(InputMode::Normal)));
        assert!(matches!(on_key(&mode, Key::Other), KeyAction::Switch(InputMode::Normal)));
    }
}

#[test]
fn keys_in_normal_mode() {
    let mode = InputMode::Normal;
    assert!(matches!(on_key(&mode, Key::Char(':')), KeyAction::Switch(InputMode::Command)));
    assert!(matches!(on_key(&mode, Key::Char('t')), KeyAction::Switch(InputMode::Typing)));
    assert!(matches!(on_key(&mode, Key::Char('h')), KeyAction::Switch(InputMode::Help)));
    assert!(matches!(on_key(&mode, Key::Char('Q')), KeyAction::Quit));
    assert!(matches!(on_key(&mode, Key::Char('q')), KeyAction::Ignore));
    assert!(matches!(on_key(&mode, Key::Enter), KeyAction::Ignore));
    assert!(matches!(on_key(&mode, Key::Esc), KeyAction::Ignore));
}

#[test]
fn keys_in_the_editing_modes() {
    assert!(matches!(on_key(&InputMode::Command, Key::Esc), KeyAction::Switch(InputMode::Normal)));
    assert!(matches!(on_key(&InputMode::Command, Key::Enter), KeyAction::Execute));
    assert!(matches!(on_key(&InputMode::Command, Key::Char('Q')), KeyAction::Edit));
    assert!(matches!(on_key(&InputMode::Command, Key::Other), KeyAction::Edit));
    assert!(matches!(on_key(&InputMode::Typing, Key::Esc), KeyAction::Switch(InputMode::Normal)));
    assert!(matches!(on_key(&InputMode::Typing, Key::Enter), KeyAction::Send));
    assert!(matches!(on_key(&InputMode::Typing, Key::Char(':')), KeyAction::Edit));
}

#[test]
fn invite_link_is_empty() {
    assert_eq!(get_invite_link(), "");
}

#[test]
fn client_line_names_its_command() {
    assert_eq!(parse_client_command("JOIN #grid\r\n"), ClientCommand::Join);
    assert_eq!(parse_client_command("  PRIVMSG #grid :hi\n"), ClientCommand::PrivMsg);
    assert_eq!(parse_client_command("JOIN"), ClientCommand::Join);
    assert_eq!(parse_client_command("JOIN\t#grid"), ClientCommand::Unknown);
    assert_eq!(parse_client_command("join #grid"), ClientCommand::Unknown);
    assert_eq!(parse_client_command("NICK you"), ClientCommand::Unknown);
    assert_eq!(parse_client_command(""), ClientCommand::Unknown);
    assert_eq!(parse_client_command(" \r\n"), ClientCommand::Unknown);
}
