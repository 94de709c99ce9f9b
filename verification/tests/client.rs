use kraft::raft::client::{client_input, framed, ClientInput};
use kraft::state_machine::impls::key_value_store::{Command, DeleteCommand, GetCommand, PutCommand};

#[test]
fn exit_and_quit_end_the_client() {
    assert!(matches!(client_input("exit"), ClientInput::Exit));
    assert!(matches!(client_input("quit"), ClientInput::Exit));
    assert!(matches!(client_input("exit now"), ClientInput::Unrecognized));
    assert!(matches!(client_input("EXIT"), ClientInput::Unrecognized));
}

#[test]
fn commands_are_sent() {
    match client_input("PUT x 3") {
        ClientInput::Send(Command::PUT(PutCommand { key, value })) => {
            assert_eq!(key, "x");
            assert_eq!(value, serde_json::Value::from(3));
        },
        other => panic!("unexpected {:?}", other),
    }
    match client_input("DELETE x") {
        ClientInput::Send(Command::DELETE(DeleteCommand { key })) => assert_eq!(key, "x"),
        other => panic!("unexpected {:?}", other),
    }
    match client_input("GET y") {
        ClientInput::Send(Command::GET(GetCommand { key })) => assert_eq!(key, "y"),
        other => panic!("unexpected {:?}", other),
    }
}

#[test]
fn other_lines_are_unrecognized() {
    assert!(matches!(client_input(""), ClientInput::Unrecognized));
    assert!(matches!(client_input("PUT x"), ClientInput::Unrecognized));
    assert!(matches!(client_input("PUT x {"), ClientInput::Unrecognized));
    assert!(matches!(client_input("LIST"), ClientInput::Unrecognized));
}

#[test]
fn a_command_line_ends_with_a_newline() {
    assert_eq!(framed(b"{\"GET\":{\"key\":\"x\"}}".to_vec()), b"{\"GET\":{\"key\":\"x\"}}\n".to_vec());
    assert_eq!(framed(Vec::new()), vec![b'\n']);
}
