use webrcon::directory::{Server, ServerLookupError, find_server_by_prefix};

fn record(id: &str) -> Server {
    Server {
        id: String::from(id),
        host: String::from("example.invalid"),
        port: 28016,
        password: String::from("pw"),
    }
}

#[test]
fn full_identifier_resolves_to_its_record() {
    let servers = vec![record("abc123"), record("xyz789")];
    let found = find_server_by_prefix(&servers, "abc123").unwrap();
    assert_eq!(found.id, "abc123");
    let found = find_server_by_prefix(&servers, "xyz789").unwrap();
    assert_eq!(found.id, "xyz789");
}

#[test]
fn unmatched_prefix_is_not_found() {
    let servers = vec![record("abc123"), record("abc456")];
    match find_server_by_prefix(&servers, "xyz") {
        Err(ServerLookupError::NotFound) => {}
        other => panic!("expected NotFound, got {:?}", other.map(|s| s.id.clone())),
    }
}

#[test]
fn ambiguous_prefix_lists_exactly_the_matches() {
    let servers = vec![record("abc123"), record("abc456"), record("zzz")];
    match find_server_by_prefix(&servers, "abc") {
        Err(ServerLookupError::Ambiguous(ids)) => {
            assert_eq!(ids, vec!["abc123".to_string(), "abc456".to_string()]);
        }
        other => panic!("expected Ambiguous, got {:?}", other.map(|s| s.id.clone())),
    }
}

#[test]
fn longer_prefix_resolves_uniquely() {
    let servers = vec![record("abc123"), record("abc456")];
    let found = find_server_by_prefix(&servers, "abc1").unwrap();
    assert_eq!(found.id, "abc123");
}

#[test]
fn empty_directory_is_not_found() {
    let servers: Vec<Server> = Vec::new();
    assert!(matches!(
        find_server_by_prefix(&servers, ""),
        Err(ServerLookupError::NotFound)
    ));
}

#[test]
fn empty_prefix_matches_every_record() {
    let servers = vec![record("a"), record("b")];
    match find_server_by_prefix(&servers, "") {
        Err(ServerLookupError::Ambiguous(ids)) => {
            assert_eq!(ids, vec!["a".to_string(), "b".to_string()]);
        }
        _ => panic!("expected Ambiguous"),
    }
}

#[test]
fn error_messages_match_their_cases() {
    assert_eq!(
        ServerLookupError::NotFound.message(),
        "No server found with the given ID prefix"
    );
    let ambiguous = ServerLookupError::Ambiguous(vec![
        "abc123".to_string(),
        "abc456".to_string(),
    ]);
    assert_eq!(
        ambiguous.message(),
        "Ambiguous ID prefix. Multiple matches found: abc123, abc456"
    );
    assert_eq!(
        ServerLookupError::FileError("no such file".to_string()).message(),
        "File error: no such file"
    );
    assert_eq!(
        ServerLookupError::ParseError("bad yaml".to_string()).message(),
        "Parse error: bad yaml"
    );
}
