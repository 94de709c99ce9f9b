//! What a client of the cluster does with a line that its user typed.

use vstd::prelude::*;
use crate::state_machine::impls::key_value_store::Command;
use crate::state_machine::impls::key_value_store::parse::{command_read_from, reads_as_command, word_is};

verus! {

/// What a typed line asks the client to do.
#[derive(Debug, Clone)]
pub enum ClientInput {
    /// Close the connection and leave.
    Exit,
    /// Send this command to the cluster.
    Send(Command<String, serde_json::Value>),
    /// The line is no command of the state machine.
    Unrecognized,
}

/// Whether `line` is one of the words that end the client: `exit` or `quit`.
pub open spec fn is_exit_word(line: Seq<char>) -> bool {
    line == seq!['e', 'x', 'i', 't'] || line == seq!['q', 'u', 'i', 't']
}

/// Reads a line typed by the user: `exit` and `quit` end the client; any
/// other line is sent when it reads as a command with string keys and JSON
/// values, and is reported as unrecognized otherwise.
pub fn client_input(line: &str) -> (input: ClientInput)
    ensures
        match input {
            ClientInput::Exit => is_exit_word(line@),
            ClientInput::Send(command) => !is_exit_word(line@) && command_read_from(line@, command),
            ClientInput::Unrecognized => !is_exit_word(line@) && !reads_as_command::<
                String,
                serde_json::Value,
            >(line@),
        },
{
    proof {
        reveal_strlit("exit");
        reveal_strlit("quit");
        assert("exit"@ =~= seq!['e', 'x', 'i', 't']);
        assert("quit"@ =~= seq!['q', 'u', 'i', 't']);
    }
    if word_is(line, "exit") || word_is(line, "quit") {
        return ClientInput::Exit;
    }
    match Command::<String, serde_json::Value>::try_from(line) {
        Ok(command) => ClientInput::Send(command),
        Err(_) => ClientInput::Unrecognized,
    }
}

/// The line that carries a serialized command to the cluster: its bytes,
/// followed by a newline.
pub fn framed(serialized: Vec<u8>) -> (line: Vec<u8>)
    ensures
        line@ == serialized@.push(10u8),
{
    let mut line = serialized;
    line.push(10u8);
    line
}

} // verus!
