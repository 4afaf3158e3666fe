use pwnboard_rs::{ConstructionError, LogLevel, Pwnboard};

#[test]
fn new_accepts_plain_uri() {
    let board = Pwnboard::new("https://board.test");
    match board {
        Ok(b) => assert_eq!(b.uri, "https://board.test"),
        Err(_) => panic!("a plain URI must be accepted"),
    }
}

#[test]
fn new_accepts_uri_without_scheme() {
    assert!(Pwnboard::new("board.test:8080").is_ok());
}

#[test]
fn new_rejects_trailing_slash() {
    let board = Pwnboard::new("https://board.test/");
    match board {
        Ok(_) => panic!("a trailing slash must be rejected"),
        Err(e) => assert_eq!(e, ConstructionError::TrailingSlash),
    }
}

#[test]
fn new_rejects_empty() {
    let board = Pwnboard::new("");
    match board {
        Ok(_) => panic!("an empty URI must be rejected"),
        Err(e) => assert_eq!(e, ConstructionError::EmptyUri),
    }
}

#[test]
fn new_rejects_single_slash() {
    let board = Pwnboard::new("/");
    match board {
        Ok(_) => panic!("a bare slash must be rejected"),
        Err(e) => assert_eq!(e, ConstructionError::TrailingSlash),
    }
}

#[test]
fn construction_error_messages_differ() {
    let empty = ConstructionError::EmptyUri.message();
    let slash = ConstructionError::TrailingSlash.message();
    assert_ne!(empty, slash);
    assert!(empty.contains("empty"));
    assert!(slash.contains("trailing slash"));
}

#[test]
fn level_names_are_lowercase() {
    assert_eq!(LogLevel::Loot.name(), "loot");
    assert_eq!(LogLevel::Info.name(), "info");
    assert_eq!(LogLevel::Warn.name(), "warn");
    assert_eq!(LogLevel::Error.name(), "error");
}
