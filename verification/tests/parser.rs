//! The command parser on every command word, odd casings, whitespace, and
//! unrecognized text.

use frontend_cli::command::{menu_text, MenuOptions};
use frontend_cli::session::{session_step, Action, SessionState};

#[test]
fn recognizes_each_command_word() {
    assert_eq!(MenuOptions::get_choice(String::from("chat")), Some(MenuOptions::Chat));
    assert_eq!(MenuOptions::get_choice(String::from("loadfile")), Some(MenuOptions::LoadFile));
    assert_eq!(MenuOptions::get_choice(String::from("help")), Some(MenuOptions::Help));
    assert_eq!(MenuOptions::get_choice(String::from("options")), Some(MenuOptions::Options));
    assert_eq!(MenuOptions::get_choice(String::from("exit")), Some(MenuOptions::Exit));
}

#[test]
fn ignores_casing() {
    assert_eq!(MenuOptions::get_choice(String::from("ChAt")), Some(MenuOptions::Chat));
    assert_eq!(MenuOptions::get_choice(String::from("LOADFILE")), Some(MenuOptions::LoadFile));
    assert_eq!(MenuOptions::get_choice(String::from("Help")), Some(MenuOptions::Help));
    assert_eq!(MenuOptions::get_choice(String::from("OPTIONS")), Some(MenuOptions::Options));
    assert_eq!(MenuOptions::get_choice(String::from("Exit")), Some(MenuOptions::Exit));
}

#[test]
fn ignores_surrounding_whitespace() {
    assert_eq!(MenuOptions::get_choice(String::from("  chat  ")), Some(MenuOptions::Chat));
    assert_eq!(MenuOptions::get_choice(String::from("\tEXIT\r\n")), Some(MenuOptions::Exit));
    assert_eq!(MenuOptions::get_choice(String::from("loadfile\n")), Some(MenuOptions::LoadFile));
}

#[test]
fn rejects_everything_else() {
    assert_eq!(MenuOptions::get_choice(String::from("")), None);
    assert_eq!(MenuOptions::get_choice(String::from("   ")), None);
    assert_eq!(MenuOptions::get_choice(String::from("quit")), None);
    assert_eq!(MenuOptions::get_choice(String::from("chat now")), None);
    assert_eq!(MenuOptions::get_choice(String::from("chatt")), None);
    assert_eq!(MenuOptions::get_choice(String::from("cha")), None);
    assert_eq!(MenuOptions::get_choice(String::from("load file")), None);
}

#[test]
fn menu_lists_the_five_commands() {
    assert_eq!(
        menu_text(),
        "Options Menu\n-------------\n| -Chat     |\n| -LoadFile |\n| -Help     |\n| -Options  |\n| -Exit     |\n-------------\n"
    );
}

#[test]
fn exit_ends_the_session_on_first_dispatch() {
    assert_eq!(
        session_step(String::from("exit\n")),
        (SessionState::Exited, Action::Farewell)
    );
    assert_eq!(
        session_step(String::from("  EXIT  ")),
        (SessionState::Exited, Action::Farewell)
    );
}

#[test]
fn other_lines_keep_the_session_running() {
    assert_eq!(
        session_step(String::from("chat\n")),
        (SessionState::AwaitingCommand, Action::EnterChat)
    );
    assert_eq!(
        session_step(String::from("LoadFile\n")),
        (SessionState::AwaitingCommand, Action::RunLoadFile)
    );
    assert_eq!(
        session_step(String::from("help")),
        (SessionState::AwaitingCommand, Action::PrintHelp)
    );
    assert_eq!(
        session_step(String::from("options")),
        (SessionState::AwaitingCommand, Action::ShowMenu)
    );
    assert_eq!(
        session_step(String::from("nonsense\n")),
        (SessionState::AwaitingCommand, Action::NoChoice)
    );
}
