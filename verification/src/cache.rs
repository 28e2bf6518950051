//! The statements that read and write the persistent cache: one table per mode,
//! keyed by the word.

use crate::mode::Mode;
use vstd::prelude::*;
use vstd::string::StringExecFns;

verus! {

/// The name of the table that caches the entries of `mode`.
pub open spec fn table_text(mode: Mode) -> Seq<char> {
    match mode {
        Mode::Definition => "dictionary"@,
        Mode::Etymology => "etymology"@,
    }
}

/// The statement that creates the table of `mode` unless it is there already.
pub open spec fn schema_text(mode: Mode) -> Seq<char> {
    "CREATE TABLE IF NOT EXISTS "@ + table_text(mode)
        + " (word TEXT UNIQUE NOT NULL, content TEXT NOT NULL)"@
}

/// The statement that reads the content cached for the word bound to its one
/// parameter.
pub open spec fn lookup_text(mode: Mode) -> Seq<char> {
    "SELECT content FROM "@ + table_text(mode) + " WHERE word = (?1)"@
}

/// The statement that writes a content for a word, the word bound to its first
/// parameter and the content to its second: an update overwrites the row of the
/// word, an insert adds a new row.
pub open spec fn write_text(mode: Mode, is_update: bool) -> Seq<char> {
    if is_update {
        "UPDATE "@ + table_text(mode) + " SET content = (?2) WHERE word = (?1)"@
    } else {
        "INSERT INTO "@ + table_text(mode) + " (word, content) VALUES (?1, ?2)"@
    }
}

/// The name of the table that caches the entries of `mode`.
pub fn table_name(mode: Mode) -> (name: &'static str)
    ensures
        name@ == table_text(mode),
{
    match mode {
        Mode::Definition => "dictionary",
        Mode::Etymology => "etymology",
    }
}

/// The statement that creates the table of `mode` unless it is there already, so
/// that it can be run at every start.
pub fn schema_statement(mode: Mode) -> (statement: String)
    ensures
        statement@ == schema_text(mode),
{
    let mut statement = String::from_str("CREATE TABLE IF NOT EXISTS ");
    statement.append(table_name(mode));
    statement.append(" (word TEXT UNIQUE NOT NULL, content TEXT NOT NULL)");
    statement
}

/// The statement that reads the content cached for a word in `mode`. The word is
/// bound to its one parameter, so it is matched exactly.
pub fn lookup_statement(mode: Mode) -> (statement: String)
    ensures
        statement@ == lookup_text(mode),
{
    let mut statement = String::from_str("SELECT content FROM ");
    statement.append(table_name(mode));
    statement.append(" WHERE word = (?1)");
    statement
}

/// The statement that writes a content for a word in `mode`: an update where
/// `is_update` holds, an insert otherwise. The word is bound to the first parameter
/// and the content to the second.
pub fn write_statement(mode: Mode, is_update: bool) -> (statement: String)
    ensures
        statement@ == write_text(mode, is_update),
{
    if is_update {
        let mut statement = String::from_str("UPDATE ");
        statement.append(table_name(mode));
        statement.append(" SET content = (?2) WHERE word = (?1)");
        statement
    } else {
        let mut statement = String::from_str("INSERT INTO ");
        statement.append(table_name(mode));
        statement.append(" (word, content) VALUES (?1, ?2)");
        statement
    }
}

/// Two texts that differ in their first character still differ when the same text
/// stands before both and the same text behind both.
proof fn lemma_framed_texts_differ(before: Seq<char>, a: Seq<char>, b: Seq<char>, behind: Seq<char>)
    requires
        a.len() > 0,
        b.len() > 0,
        a[0] != b[0],
    ensures
        before + a + behind != before + b + behind,
{
    let at = before.len() as int;
    assert((before + a + behind)[at] == a[0]);
    assert((before + b + behind)[at] == b[0]);
}

/// The two modes keep their entries apart: their tables differ, and so do the
/// statements that read and write them. A statement of one mode names the table of
/// that mode only, so what is written in one mode is not read in the other.
pub proof fn lemma_modes_keep_apart(is_update: bool)
    ensures
        table_text(Mode::Definition) != table_text(Mode::Etymology),
        schema_text(Mode::Definition) != schema_text(Mode::Etymology),
        lookup_text(Mode::Definition) != lookup_text(Mode::Etymology),
        write_text(Mode::Definition, is_update) != write_text(Mode::Etymology, is_update),
{
    reveal_strlit("dictionary");
    reveal_strlit("etymology");
    let d = table_text(Mode::Definition);
    let e = table_text(Mode::Etymology);
    assert(d[0] == 'd');
    assert(e[0] == 'e');
    lemma_framed_texts_differ(
        "CREATE TABLE IF NOT EXISTS "@,
        d,
        e,
        " (word TEXT UNIQUE NOT NULL, content TEXT NOT NULL)"@,
    );
    lemma_framed_texts_differ("SELECT content FROM "@, d, e, " WHERE word = (?1)"@);
    if is_update {
        lemma_framed_texts_differ("UPDATE "@, d, e, " SET content = (?2) WHERE word = (?1)"@);
    } else {
        lemma_framed_texts_differ("INSERT INTO "@, d, e, " (word, content) VALUES (?1, ?2)"@);
    }
}

} // verus!
