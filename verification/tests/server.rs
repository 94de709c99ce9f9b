use kraft::election::Election;
use kraft::network::node::Server;
use kraft::node_address::{parse_socket_and_id, ParseError};

#[test]
fn test_parse_socket_and_id() {
    let inputs: Vec<String> = vec![
        "192.168.1.113:9000,1".to_owned(),
        "192.168.0.223:9000,2".to_owned(),
        "192.168.0.223:9000,22".to_owned(),
        "192.168.0.223:9000,0".to_owned(),
    ];
    let expected_outputs = vec![
        (1, "192.168.1.113:9000".to_owned()),
        (2, "192.168.0.223:9000".to_owned()),
        (22, "192.168.0.223:9000".to_owned()),
        (0, "192.168.0.223:9000".to_owned()),
    ];
    let observed_outputs =
        inputs.iter().map(|s| parse_socket_and_id(s)).map(|x| x.unwrap()).collect::<Vec<(usize, String)>>();
    assert_eq!(expected_outputs, observed_outputs);
}

#[test]
fn test_parse_socket_and_id_invalid() {
    let input = "192.168.0.223:9000-0".to_owned();
    parse_socket_and_id(&input).expect_err("Some kind of error");
}

#[test]
fn socket_and_id_split_at_the_first_comma() {
    assert_eq!(parse_socket_and_id("a,7"), Ok((7, "a".to_owned())));
    assert_eq!(parse_socket_and_id(",7"), Ok((7, "".to_owned())));
    assert_eq!(parse_socket_and_id("no comma"), Err(ParseError));
}

#[test]
fn io_errors_become_parse_errors() {
    let error = std::io::Error::new(std::io::ErrorKind::Other, "boom");
    let parse: ParseError = error.into();
    assert_eq!(parse, ParseError);
}

#[test]
fn server_starts_as_a_fresh_follower() {
    let nodes = vec![(1, "192.168.1.113:9000".to_owned()), (2, "192.168.0.223:9000".to_owned())];
    let server = Server::new(9000, 3, nodes.clone(), "/tmp/storage.gz");
    assert_eq!(server.port, 9000);
    assert_eq!(server.id, 3);
    assert_eq!(server.remote_nodes, nodes);
    assert_eq!(server.storage_path, "/tmp/storage.gz");
    assert_eq!(server.state.participant_type, Election::Follower);
    assert_eq!(server.state.current_term, 0);
    assert_eq!(server.state.voted_for, None);
    assert!(server.state.log.is_empty());
    assert_eq!(server.volatile_state.commit_index, 0);
    assert!(server.volatile_state.next_index.is_none());
}

#[test]
fn server_finds_the_first_address_of_a_node() {
    let nodes = vec![
        (1, "192.168.1.113:9000".to_owned()),
        (2, "192.168.0.223:9000".to_owned()),
        (1, "10.0.0.1:9000".to_owned()),
    ];
    let server = Server::new(9000, 0, nodes, "/tmp/storage.gz");
    assert_eq!(server.get_socket_addr(1), "192.168.1.113:9000");
    assert_eq!(server.get_socket_addr(2), "192.168.0.223:9000");
}
