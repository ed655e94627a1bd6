//! The session loop's state machine: one step per line of input.

use vstd::prelude::*;

use crate::command::{parse_spec, MenuOptions};
use crate::text::{codes_of, norm_codes};

verus! {

/// The session after a dispatch: still reading commands, or done.
#[derive(Clone, Copy, Debug, PartialEq, Eq, Structural)]
pub enum SessionState {
    AwaitingCommand,
    Exited,
}

/// What the shell must do after a line is dispatched.
#[derive(Clone, Copy, Debug, PartialEq, Eq, Structural)]
pub enum Action {
    EnterChat,
    RunLoadFile,
    PrintHelp,
    ShowMenu,
    NoChoice,
    Farewell,
}

/// The state and action one input line leads to.
pub open spec fn step_spec(line: Seq<char>) -> (SessionState, Action) {
    match parse_spec(line) {
        Some(MenuOptions::Chat) => (SessionState::AwaitingCommand, Action::EnterChat),
        Some(MenuOptions::LoadFile) => (SessionState::AwaitingCommand, Action::RunLoadFile),
        Some(MenuOptions::Help) => (SessionState::AwaitingCommand, Action::PrintHelp),
        Some(MenuOptions::Options) => (SessionState::AwaitingCommand, Action::ShowMenu),
        Some(MenuOptions::Exit) => (SessionState::Exited, Action::Farewell),
        None => (SessionState::AwaitingCommand, Action::NoChoice),
    }
}

/// Dispatches one input line: parses it and returns the next session state
/// together with the action the shell must take.
pub fn session_step(line: String) -> (r: (SessionState, Action))
    ensures
        r == step_spec(line@),
{
    match MenuOptions::get_choice(line) {
        Some(MenuOptions::Chat) => (SessionState::AwaitingCommand, Action::EnterChat),
        Some(MenuOptions::LoadFile) => (SessionState::AwaitingCommand, Action::RunLoadFile),
        Some(MenuOptions::Help) => (SessionState::AwaitingCommand, Action::PrintHelp),
        Some(MenuOptions::Options) => (SessionState::AwaitingCommand, Action::ShowMenu),
        Some(MenuOptions::Exit) => (SessionState::Exited, Action::Farewell),
        None => (SessionState::AwaitingCommand, Action::NoChoice),
    }
}

/// Law: the parser sees only the normal form of a line. Two lines that agree
/// once trimmed and case-lowered — any casing, any surrounding whitespace —
/// select the same command.
pub proof fn lemma_parse_depends_only_on_norm(s1: Seq<char>, s2: Seq<char>)
    requires
        norm_codes(s1) == norm_codes(s2),
    ensures
        parse_spec(s1) == parse_spec(s2),
{
}

/// Law: each command word, and no other normal form, selects its command;
/// every line whose normal form is none of the five words selects nothing.
pub proof fn lemma_parse_classifies(s: Seq<char>)
    ensures
        parse_spec(s) == Some(MenuOptions::Chat) <==> norm_codes(s) == codes_of("chat"@),
        parse_spec(s) == Some(MenuOptions::LoadFile) <==> norm_codes(s) == codes_of("loadfile"@),
        parse_spec(s) == Some(MenuOptions::Help) <==> norm_codes(s) == codes_of("help"@),
        parse_spec(s) == Some(MenuOptions::Options) <==> norm_codes(s) == codes_of("options"@),
        parse_spec(s) == Some(MenuOptions::Exit) <==> norm_codes(s) == codes_of("exit"@),
        parse_spec(s) is None <==> (norm_codes(s) != codes_of("chat"@) && norm_codes(s)
            != codes_of("loadfile"@) && norm_codes(s) != codes_of("help"@) && norm_codes(s)
            != codes_of("options"@) && norm_codes(s) != codes_of("exit"@)),
{
    reveal_strlit("chat");
    reveal_strlit("loadfile");
    reveal_strlit("help");
    reveal_strlit("options");
    reveal_strlit("exit");
    assert(codes_of("chat"@)[0] != codes_of("help"@)[0]);
    assert(codes_of("chat"@)[0] != codes_of("exit"@)[0]);
    assert(codes_of("help"@)[0] != codes_of("exit"@)[0]);
    assert(codes_of("chat"@).len() != codes_of("loadfile"@).len());
    assert(codes_of("chat"@).len() != codes_of("options"@).len());
    assert(codes_of("loadfile"@).len() != codes_of("options"@).len());
}

/// Law: an `exit` command — and only an `exit` command — moves the session
/// to its terminal state on the very dispatch that reads it, and the one
/// action that remains is the farewell line; every other line leaves the
/// session awaiting the next command.
pub proof fn lemma_exit_terminates(line: Seq<char>)
    ensures
        step_spec(line).0 is Exited <==> parse_spec(line) == Some(MenuOptions::Exit),
        step_spec(line).0 is Exited ==> step_spec(line).1 == Action::Farewell,
        step_spec(line).0 is AwaitingCommand <==> parse_spec(line) != Some(MenuOptions::Exit),
{
}

} // verus!
