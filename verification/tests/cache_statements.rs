use gloss_word::cache::{lookup_statement, schema_statement, table_name, write_statement};
use gloss_word::mode::Mode;
use rusqlite::Connection;

fn open_cache() -> Connection {
    let connection = Connection::open_in_memory().unwrap();
    connection.execute(&schema_statement(Mode::Definition), ()).unwrap();
    connection.execute(&schema_statement(Mode::Etymology), ()).unwrap();
    connection
}

fn upsert(connection: &Connection, mode: Mode, word: &str, text: &str, is_update: bool) -> bool {
    connection
        .execute(&write_statement(mode, is_update), (word, text))
        .is_ok()
}

fn lookup(connection: &Connection, mode: Mode, word: &str) -> Option<String> {
    connection
        .query_row(&lookup_statement(mode), (word,), |row| row.get(0))
        .ok()
}

#[test]
fn statements_name_the_table_of_their_mode() {
    assert_eq!(table_name(Mode::Definition), "dictionary");
    assert_eq!(table_name(Mode::Etymology), "etymology");
    assert_eq!(
        schema_statement(Mode::Definition),
        "CREATE TABLE IF NOT EXISTS dictionary (word TEXT UNIQUE NOT NULL, content TEXT NOT NULL)"
    );
    assert_eq!(
        schema_statement(Mode::Etymology),
        "CREATE TABLE IF NOT EXISTS etymology (word TEXT UNIQUE NOT NULL, content TEXT NOT NULL)"
    );
    assert_eq!(
        lookup_statement(Mode::Definition),
        "SELECT content FROM dictionary WHERE word = (?1)"
    );
    assert_eq!(
        lookup_statement(Mode::Etymology),
        "SELECT content FROM etymology WHERE word = (?1)"
    );
    assert_eq!(
        write_statement(Mode::Definition, false),
        "INSERT INTO dictionary (word, content) VALUES (?1, ?2)"
    );
    assert_eq!(
        write_statement(Mode::Etymology, false),
        "INSERT INTO etymology (word, content) VALUES (?1, ?2)"
    );
    assert_eq!(
        write_statement(Mode::Definition, true),
        "UPDATE dictionary SET content = (?2) WHERE word = (?1)"
    );
    assert_eq!(
        write_statement(Mode::Etymology, true),
        "UPDATE etymology SET content = (?2) WHERE word = (?1)"
    );
}

#[test]
fn schema_can_be_created_again() {
    let connection = open_cache();
    assert!(upsert(&connection, Mode::Definition, "bank", "text", false));
    connection.execute(&schema_statement(Mode::Definition), ()).unwrap();
    connection.execute(&schema_statement(Mode::Etymology), ()).unwrap();
    assert_eq!(lookup(&connection, Mode::Definition, "bank"), Some("text".to_string()));
}

#[test]
fn insert_then_lookup_returns_the_text() {
    let connection = open_cache();
    assert_eq!(lookup(&connection, Mode::Definition, "atavism"), None);
    assert!(upsert(&connection, Mode::Definition, "atavism", "at·a·vism\n\nn.\n", false));
    assert_eq!(
        lookup(&connection, Mode::Definition, "atavism"),
        Some("at·a·vism\n\nn.\n".to_string())
    );
    assert!(upsert(&connection, Mode::Etymology, "forest", "forest (n.)\n", false));
    assert_eq!(
        lookup(&connection, Mode::Etymology, "forest"),
        Some("forest (n.)\n".to_string())
    );
}

#[test]
fn update_overwrites_the_text() {
    let connection = open_cache();
    assert!(upsert(&connection, Mode::Etymology, "forest", "text a", false));
    assert!(upsert(&connection, Mode::Etymology, "forest", "text b", true));
    assert_eq!(lookup(&connection, Mode::Etymology, "forest"), Some("text b".to_string()));
}

#[test]
fn modes_do_not_see_each_other() {
    let connection = open_cache();
    assert!(upsert(&connection, Mode::Definition, "bank", "x", false));
    assert_eq!(lookup(&connection, Mode::Etymology, "bank"), None);
    assert_eq!(lookup(&connection, Mode::Definition, "bank"), Some("x".to_string()));
    assert!(upsert(&connection, Mode::Etymology, "bank", "y", true));
    assert_eq!(lookup(&connection, Mode::Etymology, "bank"), None);
    assert_eq!(lookup(&connection, Mode::Definition, "bank"), Some("x".to_string()));
}

#[test]
fn second_insert_of_a_word_is_refused_and_keeps_the_first_text() {
    let connection = open_cache();
    assert!(upsert(&connection, Mode::Definition, "bank", "first", false));
    assert!(!upsert(&connection, Mode::Definition, "bank", "second", false));
    assert_eq!(lookup(&connection, Mode::Definition, "bank"), Some("first".to_string()));
}

#[test]
fn lookup_matches_the_word_exactly() {
    let connection = open_cache();
    assert!(upsert(&connection, Mode::Definition, "o'clock", "text", false));
    assert_eq!(lookup(&connection, Mode::Definition, "o'clock"), Some("text".to_string()));
    assert_eq!(lookup(&connection, Mode::Definition, "o'cloc"), None);
    assert_eq!(lookup(&connection, Mode::Definition, "x' OR '1'='1"), None);
}
