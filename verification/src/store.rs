//! The relational backend: the same logical indices realized as normalized
//! SQLite tables, queried per table and re-aggregated in process into the
//! nested record shapes.
//!
//! The store is populated once, inside a single transaction, in dependency
//! order; queries then read single-table selections and the verified code
//! rebuilds entries, senses and synsets from the rows.  Each trusted wrapper
//! states exactly which rows it adds or returns, over per-table contents
//! named below; everything layered on top is verified against those names.
//!
//! The two relation tables carry composite primary keys and are filled with
//! INSERT OR IGNORE, so an edge the source document repeats is stored once
//! and records rebuilt from the rows carry duplicate-free relation lists —
//! where the in-memory backend hands the source records back verbatim.

use vstd::prelude::*;

use crate::error::OewnError;
use crate::index::lower_of;
use crate::index::lowercase;
use crate::models::Definition;
use crate::models::Dup;
use crate::models::DefinitionV;
use crate::models::Example;
use crate::models::ExampleV;
use crate::models::ILIDefinition;
use crate::models::ILIDefinitionV;
use crate::models::Lemma;
use crate::models::LexicalEntry;
use crate::models::LexicalEntryV;
use crate::models::LexicalResource;
use crate::models::PartOfSpeech;
use crate::models::Pronunciation;
use crate::models::PronunciationV;
use crate::models::Sense;
use crate::models::SenseRelation;
use crate::models::SenseRelationV;
use crate::models::SenseV;
use crate::models::Synset;
use crate::models::SynsetRelation;
use crate::models::SynsetRelationV;
use crate::models::SynsetV;
use crate::models::opt_str_view;
use crate::models::spec_decode_pos;
use crate::models::spec_decode_sense_rel;
use crate::models::spec_decode_synset_rel;
use crate::models::spec_pos_string;
use crate::models::part_of_speech_to_string;
use crate::models::string_to_part_of_speech;
use crate::models::string_to_sense_rel_type;
use crate::models::string_to_synset_rel_type;
use crate::models::views_of;

verus! {

#[verifier::external_type_specification]
#[verifier::external_body]
pub struct ExConnection(rusqlite::Connection);

/// The `lexical_entries` rows a store holds, in rowid order:
/// (id, lexicon id, written form, case-folded written form, pos tag).
pub uninterp spec fn entry_rows(c: rusqlite::Connection) -> Seq<
    (Seq<char>, Seq<char>, Seq<char>, Seq<char>, Seq<char>),
>;

/// The `pronunciations` rows a store holds, in rowid order:
/// (entry id, variety, notation, phonemic, audio, text).
pub uninterp spec fn pron_rows(c: rusqlite::Connection) -> Seq<
    (Seq<char>, Seq<char>, Option<Seq<char>>, bool, Option<Seq<char>>, Seq<char>),
>;

/// The `senses` rows a store holds, in rowid order:
/// (sense id, entry id, synset id).
pub uninterp spec fn sense_rows(c: rusqlite::Connection) -> Seq<
    (Seq<char>, Seq<char>, Seq<char>),
>;

/// The `sense_relations` rows a store holds, in rowid order:
/// (source sense id, target sense id, relation tag).
pub uninterp spec fn sense_rel_rows(c: rusqlite::Connection) -> Seq<
    (Seq<char>, Seq<char>, Seq<char>),
>;

/// The `synsets` rows a store holds, in rowid order:
/// (id, lexicon id, ili, pos tag).
pub uninterp spec fn synset_rows(c: rusqlite::Connection) -> Seq<
    (Seq<char>, Seq<char>, Option<Seq<char>>, Seq<char>),
>;

/// The `synset_relations` rows a store holds, in rowid order:
/// (source synset id, target synset id, relation tag).
pub uninterp spec fn synset_rel_rows(c: rusqlite::Connection) -> Seq<
    (Seq<char>, Seq<char>, Seq<char>),
>;

/// The `definitions` rows a store holds, in rowid order:
/// (synset id, text, source).
pub uninterp spec fn def_rows(c: rusqlite::Connection) -> Seq<
    (Seq<char>, Seq<char>, Option<Seq<char>>),
>;

/// The `ili_definitions` rows a store holds, in rowid order:
/// (synset id, text, source).
pub uninterp spec fn ili_def_rows(c: rusqlite::Connection) -> Seq<
    (Seq<char>, Seq<char>, Option<Seq<char>>),
>;

/// The `examples` rows a store holds, in rowid order:
/// (synset id, text, source).
pub uninterp spec fn example_rows(c: rusqlite::Connection) -> Seq<
    (Seq<char>, Seq<char>, Option<Seq<char>>),
>;

/// The `metadata` rows a store holds, in rowid order: (key, value).
pub uninterp spec fn metadata_rows(c: rusqlite::Connection) -> Seq<(Seq<char>, Seq<char>)>;

/// Whether a transaction is open on the store that began when every data
/// table was empty.  The population path starts its one transaction on a
/// fresh store, so rolling that transaction back returns to emptiness.
pub uninterp spec fn tx_open_from_empty(c: rusqlite::Connection) -> bool;

/// An edge row joins a relation table only when it is not already present:
/// the composite primary key with INSERT OR IGNORE keeps the table a set.
pub open spec fn add_edge(
    t: Seq<(Seq<char>, Seq<char>, Seq<char>)>,
    row: (Seq<char>, Seq<char>, Seq<char>),
) -> Seq<(Seq<char>, Seq<char>, Seq<char>)> {
    if t.contains(row) {
        t
    } else {
        t.push(row)
    }
}

/// Folds a row sequence into a relation table, left to right, keeping each
/// edge once.
pub open spec fn add_edges(
    t: Seq<(Seq<char>, Seq<char>, Seq<char>)>,
    rows: Seq<(Seq<char>, Seq<char>, Seq<char>)>,
) -> Seq<(Seq<char>, Seq<char>, Seq<char>)>
    decreases rows.len(),
{
    if rows.len() == 0 {
        t
    } else {
        add_edge(add_edges(t, rows.drop_last()), rows.last())
    }
}

/// Folding a concatenation folds the parts in turn.
pub proof fn lemma_add_edges_concat(
    t: Seq<(Seq<char>, Seq<char>, Seq<char>)>,
    a: Seq<(Seq<char>, Seq<char>, Seq<char>)>,
    b: Seq<(Seq<char>, Seq<char>, Seq<char>)>,
)
    ensures
        add_edges(t, a + b) == add_edges(add_edges(t, a), b),
    decreases b.len(),
{
    if b.len() == 0 {
        assert(a + b =~= a);
    } else {
        assert((a + b).drop_last() =~= a + b.drop_last());
        assert((a + b).last() == b.last());
        lemma_add_edges_concat(t, a, b.drop_last());
    }
}

/// The metadata rows carrying one key, in rowid order.
pub open spec fn db_metadata_value(c: rusqlite::Connection, key: Seq<char>) -> Seq<
    (Seq<char>, Seq<char>),
> {
    metadata_rows(c).filter(|row: (Seq<char>, Seq<char>)| row.0 == key)
}

/// Every table of the store, the metadata included, unchanged from `a` to
/// `b`.
pub open spec fn all_rows_unchanged(a: rusqlite::Connection, b: rusqlite::Connection) -> bool {
    &&& entry_rows(b) == entry_rows(a)
    &&& pron_rows(b) == pron_rows(a)
    &&& sense_rows(b) == sense_rows(a)
    &&& sense_rel_rows(b) == sense_rel_rows(a)
    &&& synset_rows(b) == synset_rows(a)
    &&& synset_rel_rows(b) == synset_rel_rows(a)
    &&& def_rows(b) == def_rows(a)
    &&& ili_def_rows(b) == ili_def_rows(a)
    &&& example_rows(b) == example_rows(a)
    &&& metadata_rows(b) == metadata_rows(a)
}

/// What a failed statement leaves behind: either nothing changed and the
/// transaction state is as before, or SQLite responded to the error by
/// rolling the open transaction back to its empty start.
pub open spec fn stmt_err_state(a: rusqlite::Connection, b: rusqlite::Connection) -> bool {
    ||| (all_rows_unchanged(a, b) && tx_open_from_empty(b) == tx_open_from_empty(a))
    ||| (tx_open_from_empty(a) && store_empty(b) && metadata_rows(b) == metadata_rows(a))
}


/// The projected entry rows whose case-folded written form is `lower`:
/// (id, written form, pos tag), in rowid order.
pub open spec fn db_matching_rows(c: rusqlite::Connection, lower: Seq<char>) -> Seq<
    (Seq<char>, Seq<char>, Seq<char>),
> {
    entry_rows(c).filter(
        |row: (Seq<char>, Seq<char>, Seq<char>, Seq<char>, Seq<char>)| row.3 == lower,
    ).map_values(
        |row: (Seq<char>, Seq<char>, Seq<char>, Seq<char>, Seq<char>)| (row.0, row.2, row.4),
    )
}

/// The projected pronunciation rows of one entry:
/// (variety, notation, phonemic, audio, text), in rowid order.
pub open spec fn db_pron_fields(c: rusqlite::Connection, entry: Seq<char>) -> Seq<
    (Seq<char>, Option<Seq<char>>, bool, Option<Seq<char>>, Seq<char>),
> {
    pron_rows(c).filter(
        |row: (Seq<char>, Seq<char>, Option<Seq<char>>, bool, Option<Seq<char>>, Seq<char>)|
            row.0 == entry,
    ).map_values(
        |row: (Seq<char>, Seq<char>, Option<Seq<char>>, bool, Option<Seq<char>>, Seq<char>)|
            (row.1, row.2, row.3, row.4, row.5),
    )
}

/// The projected sense rows of one entry: (sense id, synset id), in rowid
/// order.
pub open spec fn db_senses_of_entry(c: rusqlite::Connection, entry: Seq<char>) -> Seq<
    (Seq<char>, Seq<char>),
> {
    sense_rows(c).filter(|row: (Seq<char>, Seq<char>, Seq<char>)| row.1 == entry).map_values(
        |row: (Seq<char>, Seq<char>, Seq<char>)| (row.0, row.2),
    )
}

/// The projected sense rows targeting one synset: (sense id, synset id), in
/// rowid order.
pub open spec fn db_senses_of_synset(c: rusqlite::Connection, synset: Seq<char>) -> Seq<
    (Seq<char>, Seq<char>),
> {
    sense_rows(c).filter(|row: (Seq<char>, Seq<char>, Seq<char>)| row.2 == synset).map_values(
        |row: (Seq<char>, Seq<char>, Seq<char>)| (row.0, row.2),
    )
}

/// The projected relation rows leaving one sense: (target, tag), in rowid
/// order.
pub open spec fn db_rels_of_sense(c: rusqlite::Connection, source: Seq<char>) -> Seq<
    (Seq<char>, Seq<char>),
> {
    sense_rel_rows(c).filter(|row: (Seq<char>, Seq<char>, Seq<char>)| row.0 == source).map_values(
        |row: (Seq<char>, Seq<char>, Seq<char>)| (row.1, row.2),
    )
}

/// The projected relation rows leaving one synset: (target, tag), in rowid
/// order.
pub open spec fn db_rels_of_synset(c: rusqlite::Connection, source: Seq<char>) -> Seq<
    (Seq<char>, Seq<char>),
> {
    synset_rel_rows(c).filter(|row: (Seq<char>, Seq<char>, Seq<char>)| row.0 == source).map_values(
        |row: (Seq<char>, Seq<char>, Seq<char>)| (row.1, row.2),
    )
}

/// The synset rows carrying one id, in rowid order.
pub open spec fn db_synset_match(c: rusqlite::Connection, id: Seq<char>) -> Seq<
    (Seq<char>, Seq<char>, Option<Seq<char>>, Seq<char>),
> {
    synset_rows(c).filter(
        |row: (Seq<char>, Seq<char>, Option<Seq<char>>, Seq<char>)| row.0 == id,
    )
}

/// The projected definition rows of one synset: (text, source), in rowid
/// order.
pub open spec fn db_defs_of_synset(c: rusqlite::Connection, synset: Seq<char>) -> Seq<
    (Seq<char>, Option<Seq<char>>),
> {
    def_rows(c).filter(
        |row: (Seq<char>, Seq<char>, Option<Seq<char>>)| row.0 == synset,
    ).map_values(|row: (Seq<char>, Seq<char>, Option<Seq<char>>)| (row.1, row.2))
}

/// The projected example rows of one synset: (text, source), in rowid
/// order.
pub open spec fn db_examples_of_synset(c: rusqlite::Connection, synset: Seq<char>) -> Seq<
    (Seq<char>, Option<Seq<char>>),
> {
    example_rows(c).filter(
        |row: (Seq<char>, Seq<char>, Option<Seq<char>>)| row.0 == synset,
    ).map_values(|row: (Seq<char>, Seq<char>, Option<Seq<char>>)| (row.1, row.2))
}

/// The projected ILI-definition rows of one synset: (text, source), in
/// rowid order.
pub open spec fn db_ilis_of_synset(c: rusqlite::Connection, synset: Seq<char>) -> Seq<
    (Seq<char>, Option<Seq<char>>),
> {
    ili_def_rows(c).filter(
        |row: (Seq<char>, Seq<char>, Option<Seq<char>>)| row.0 == synset,
    ).map_values(|row: (Seq<char>, Seq<char>, Option<Seq<char>>)| (row.1, row.2))
}

/// All tables the relational schema owns are empty.
pub open spec fn store_empty(c: rusqlite::Connection) -> bool {
    &&& entry_rows(c) == Seq::<(Seq<char>, Seq<char>, Seq<char>, Seq<char>, Seq<char>)>::empty()
    &&& pron_rows(c) == Seq::<
        (Seq<char>, Seq<char>, Option<Seq<char>>, bool, Option<Seq<char>>, Seq<char>),
    >::empty()
    &&& sense_rows(c) == Seq::<(Seq<char>, Seq<char>, Seq<char>)>::empty()
    &&& sense_rel_rows(c) == Seq::<(Seq<char>, Seq<char>, Seq<char>)>::empty()
    &&& synset_rows(c) == Seq::<(Seq<char>, Seq<char>, Option<Seq<char>>, Seq<char>)>::empty()
    &&& synset_rel_rows(c) == Seq::<(Seq<char>, Seq<char>, Seq<char>)>::empty()
    &&& def_rows(c) == Seq::<(Seq<char>, Seq<char>, Option<Seq<char>>)>::empty()
    &&& ili_def_rows(c) == Seq::<(Seq<char>, Seq<char>, Option<Seq<char>>)>::empty()
    &&& example_rows(c) == Seq::<(Seq<char>, Seq<char>, Option<Seq<char>>)>::empty()
}

/// Relies on rusqlite's `Connection::open_in_memory` and `execute_batch`: a
/// fresh in-memory database with the schema created holds no data rows, and
/// its `metadata` table carries exactly the schema version.
#[verifier::external_body]
fn open_store_raw() -> (r: Result<rusqlite::Connection, String>)
    ensures
        r matches Ok(c) ==> store_empty(c) && metadata_rows(c) == seq![
            ("schema_version"@, "1"@),
        ],
{
    let conn = rusqlite::Connection::open_in_memory().map_err(|e| e.to_string())?;
    conn.execute_batch(
        "CREATE TABLE metadata (key TEXT PRIMARY KEY, value TEXT NOT NULL);
         INSERT INTO metadata (key, value) VALUES ('schema_version', '1');
         CREATE TABLE lexical_entries (id TEXT PRIMARY KEY, lexicon_id TEXT NOT NULL,
             lemma_written_form TEXT NOT NULL, lemma_written_form_lower TEXT NOT NULL,
             part_of_speech TEXT NOT NULL);
         CREATE TABLE pronunciations (entry_id TEXT NOT NULL, variety TEXT NOT NULL,
             notation TEXT, phonemic INTEGER NOT NULL, audio TEXT, text TEXT NOT NULL);
         CREATE TABLE senses (id TEXT PRIMARY KEY, entry_id TEXT NOT NULL,
             synset_id TEXT NOT NULL);
         CREATE TABLE sense_relations (source_sense_id TEXT NOT NULL,
             target_sense_id TEXT NOT NULL, rel_type TEXT NOT NULL,
             PRIMARY KEY (source_sense_id, target_sense_id, rel_type));
         CREATE TABLE synsets (id TEXT PRIMARY KEY, lexicon_id TEXT NOT NULL, ili TEXT,
             part_of_speech TEXT NOT NULL);
         CREATE TABLE synset_relations (source_synset_id TEXT NOT NULL,
             target_synset_id TEXT NOT NULL, rel_type TEXT NOT NULL,
             PRIMARY KEY (source_synset_id, target_synset_id, rel_type));
         CREATE TABLE definitions (synset_id TEXT NOT NULL, text TEXT NOT NULL, dc_source TEXT);
         CREATE TABLE ili_definitions (synset_id TEXT PRIMARY KEY, text TEXT NOT NULL,
             dc_source TEXT);
         CREATE TABLE examples (synset_id TEXT NOT NULL, text TEXT NOT NULL, dc_source TEXT);
         CREATE INDEX idx_entry_lemma_lower ON lexical_entries (lemma_written_form_lower);
         CREATE INDEX idx_sense_entry ON senses (entry_id);
         CREATE INDEX idx_sense_synset ON senses (synset_id);
         CREATE INDEX idx_sense_rel_source ON sense_relations (source_sense_id, rel_type);
         CREATE INDEX idx_synset_rel_source ON synset_relations (source_synset_id, rel_type);",
    ).map_err(|e| e.to_string())?;
    Ok(conn)
}

/// Relies on rusqlite's `Connection::execute`: BEGIN changes no rows, and a
/// transaction begun on an empty store is one that rolls back to empty.
#[verifier::external_body]
fn begin_tx(c: &mut rusqlite::Connection) -> (r: Result<(), String>)
    ensures
        all_rows_unchanged(*old(c), *final(c)),
        r is Ok && store_empty(*old(c)) ==> tx_open_from_empty(*final(c)),
{
    c.execute("BEGIN", []).map(|_| ()).map_err(|e| e.to_string())
}

/// Relies on rusqlite's `Connection::execute`: COMMIT persists the rows as
/// they stand; a failing COMMIT either changes nothing or has already rolled
/// the transaction back to its empty start.
#[verifier::external_body]
fn commit_tx(c: &mut rusqlite::Connection) -> (r: Result<(), String>)
    ensures
        r is Ok ==> all_rows_unchanged(*old(c), *final(c)),
        r is Err ==> stmt_err_state(*old(c), *final(c)),
{
    c.execute("COMMIT", []).map(|_| ()).map_err(|e| e.to_string())
}

/// Relies on rusqlite's `Connection::execute`: ROLLBACK discards the open
/// transaction, so one begun on an empty store leaves the store empty; when
/// the transaction is already gone (SQLite rolls back on some errors by
/// itself) the statement fails without touching any rows.
#[verifier::external_body]
fn rollback_tx(c: &mut rusqlite::Connection)
    ensures
        tx_open_from_empty(*old(c)) ==> store_empty(*final(c)),
        store_empty(*old(c)) ==> store_empty(*final(c)),
        metadata_rows(*final(c)) == metadata_rows(*old(c)),
{
    let _ = c.execute("ROLLBACK", []);
}

/// Relies on rusqlite's `Connection::execute` with an INSERT: on success
/// the new row is appended and nothing else changes; a failing statement
/// either changes nothing or has rolled the transaction back to empty.
#[verifier::external_body]
fn insert_entry_row(
    c: &mut rusqlite::Connection,
    id: &str,
    lexicon: &str,
    written: &str,
    written_lower: &str,
    pos: &str,
) -> (r: Result<(), String>)
    ensures
        r is Ok ==> entry_rows(*final(c)) == entry_rows(*old(c)).push((id@, lexicon@, written@, written_lower@, pos@))
            && pron_rows(*final(c)) == pron_rows(*old(c))
            && sense_rows(*final(c)) == sense_rows(*old(c))
            && sense_rel_rows(*final(c)) == sense_rel_rows(*old(c))
            && synset_rows(*final(c)) == synset_rows(*old(c))
            && synset_rel_rows(*final(c)) == synset_rel_rows(*old(c))
            && def_rows(*final(c)) == def_rows(*old(c))
            && ili_def_rows(*final(c)) == ili_def_rows(*old(c))
            && example_rows(*final(c)) == example_rows(*old(c))
            && metadata_rows(*final(c)) == metadata_rows(*old(c)) && tx_open_from_empty(
            *final(c),
        ) == tx_open_from_empty(*old(c)),
        r is Err ==> stmt_err_state(*old(c), *final(c)),
{
    c.execute(
        "INSERT INTO lexical_entries (id, lexicon_id, lemma_written_form,\n             lemma_written_form_lower, part_of_speech) VALUES (?1, ?2, ?3, ?4, ?5)",
        (id, lexicon, written, written_lower, pos),
    ).map(|_| ()).map_err(|e| e.to_string())
}

/// Relies on rusqlite's `Connection::execute` with an INSERT: on success
/// the new row is appended and nothing else changes; a failing statement
/// either changes nothing or has rolled the transaction back to empty.
#[verifier::external_body]
fn insert_pron_row(
    c: &mut rusqlite::Connection,
    entry: &str,
    variety: &str,
    notation: &Option<String>,
    phonemic: bool,
    audio: &Option<String>,
    text: &str,
) -> (r: Result<(), String>)
    ensures
        r is Ok ==> pron_rows(*final(c)) == pron_rows(*old(c)).push((entry@, variety@, opt_str_view(*notation), phonemic, opt_str_view(*audio), text@))
            && entry_rows(*final(c)) == entry_rows(*old(c))
            && sense_rows(*final(c)) == sense_rows(*old(c))
            && sense_rel_rows(*final(c)) == sense_rel_rows(*old(c))
            && synset_rows(*final(c)) == synset_rows(*old(c))
            && synset_rel_rows(*final(c)) == synset_rel_rows(*old(c))
            && def_rows(*final(c)) == def_rows(*old(c))
            && ili_def_rows(*final(c)) == ili_def_rows(*old(c))
            && example_rows(*final(c)) == example_rows(*old(c))
            && metadata_rows(*final(c)) == metadata_rows(*old(c)) && tx_open_from_empty(
            *final(c),
        ) == tx_open_from_empty(*old(c)),
        r is Err ==> stmt_err_state(*old(c), *final(c)),
{
    c.execute(
        "INSERT INTO pronunciations (entry_id, variety, notation, phonemic, audio, text)\n         VALUES (?1, ?2, ?3, ?4, ?5, ?6)",
        (entry, variety, notation, phonemic, audio, text),
    ).map(|_| ()).map_err(|e| e.to_string())
}

/// Relies on rusqlite's `Connection::execute` with an INSERT: on success
/// the new row is appended and nothing else changes; a failing statement
/// either changes nothing or has rolled the transaction back to empty.
#[verifier::external_body]
fn insert_sense_row(
    c: &mut rusqlite::Connection,
    id: &str,
    entry: &str,
    synset: &str,
) -> (r: Result<(), String>)
    ensures
        r is Ok ==> sense_rows(*final(c)) == sense_rows(*old(c)).push((id@, entry@, synset@))
            && entry_rows(*final(c)) == entry_rows(*old(c))
            && pron_rows(*final(c)) == pron_rows(*old(c))
            && sense_rel_rows(*final(c)) == sense_rel_rows(*old(c))
            && synset_rows(*final(c)) == synset_rows(*old(c))
            && synset_rel_rows(*final(c)) == synset_rel_rows(*old(c))
            && def_rows(*final(c)) == def_rows(*old(c))
            && ili_def_rows(*final(c)) == ili_def_rows(*old(c))
            && example_rows(*final(c)) == example_rows(*old(c))
            && metadata_rows(*final(c)) == metadata_rows(*old(c)) && tx_open_from_empty(
            *final(c),
        ) == tx_open_from_empty(*old(c)),
        r is Err ==> stmt_err_state(*old(c), *final(c)),
{
    c.execute(
        "INSERT INTO senses (id, entry_id, synset_id) VALUES (?1, ?2, ?3)",
        (id, entry, synset),
    ).map(|_| ()).map_err(|e| e.to_string())
}

/// Relies on rusqlite's `Connection::execute` with INSERT OR IGNORE on
/// the composite primary key: on success the edge is appended unless it
/// is already present, and nothing else changes; a failing statement
/// either changes nothing or has rolled the transaction back to empty.
#[verifier::external_body]
fn insert_sense_rel_row(
    c: &mut rusqlite::Connection,
    source: &str,
    target: &str,
    rel: &str,
) -> (r: Result<(), String>)
    ensures
        r is Ok ==> sense_rel_rows(*final(c)) == add_edge(sense_rel_rows(*old(c)), (source@, target@, rel@))
            && entry_rows(*final(c)) == entry_rows(*old(c))
            && pron_rows(*final(c)) == pron_rows(*old(c))
            && sense_rows(*final(c)) == sense_rows(*old(c))
            && synset_rows(*final(c)) == synset_rows(*old(c))
            && synset_rel_rows(*final(c)) == synset_rel_rows(*old(c))
            && def_rows(*final(c)) == def_rows(*old(c))
            && ili_def_rows(*final(c)) == ili_def_rows(*old(c))
            && example_rows(*final(c)) == example_rows(*old(c))
            && metadata_rows(*final(c)) == metadata_rows(*old(c)) && tx_open_from_empty(
            *final(c),
        ) == tx_open_from_empty(*old(c)),
        r is Err ==> stmt_err_state(*old(c), *final(c)),
{
    c.execute(
        "INSERT OR IGNORE INTO sense_relations (source_sense_id, target_sense_id, rel_type)\n         VALUES (?1, ?2, ?3)",
        (source, target, rel),
    ).map(|_| ()).map_err(|e| e.to_string())
}

/// Relies on rusqlite's `Connection::execute` with an INSERT: on success
/// the new row is appended and nothing else changes; a failing statement
/// either changes nothing or has rolled the transaction back to empty.
#[verifier::external_body]
fn insert_synset_row(
    c: &mut rusqlite::Connection,
    id: &str,
    lexicon: &str,
    ili: &Option<String>,
    pos: &str,
) -> (r: Result<(), String>)
    ensures
        r is Ok ==> synset_rows(*final(c)) == synset_rows(*old(c)).push((id@, lexicon@, opt_str_view(*ili), pos@))
            && entry_rows(*final(c)) == entry_rows(*old(c))
            && pron_rows(*final(c)) == pron_rows(*old(c))
            && sense_rows(*final(c)) == sense_rows(*old(c))
            && sense_rel_rows(*final(c)) == sense_rel_rows(*old(c))
            && synset_rel_rows(*final(c)) == synset_rel_rows(*old(c))
            && def_rows(*final(c)) == def_rows(*old(c))
            && ili_def_rows(*final(c)) == ili_def_rows(*old(c))
            && example_rows(*final(c)) == example_rows(*old(c))
            && metadata_rows(*final(c)) == metadata_rows(*old(c)) && tx_open_from_empty(
            *final(c),
        ) == tx_open_from_empty(*old(c)),
        r is Err ==> stmt_err_state(*old(c), *final(c)),
{
    c.execute(
        "INSERT INTO synsets (id, lexicon_id, ili, part_of_speech) VALUES (?1, ?2, ?3, ?4)",
        (id, lexicon, ili, pos),
    ).map(|_| ()).map_err(|e| e.to_string())
}

/// Relies on rusqlite's `Connection::execute` with INSERT OR IGNORE on
/// the composite primary key: on success the edge is appended unless it
/// is already present, and nothing else changes; a failing statement
/// either changes nothing or has rolled the transaction back to empty.
#[verifier::external_body]
fn insert_synset_rel_row(
    c: &mut rusqlite::Connection,
    source: &str,
    target: &str,
    rel: &str,
) -> (r: Result<(), String>)
    ensures
        r is Ok ==> synset_rel_rows(*final(c)) == add_edge(synset_rel_rows(*old(c)), (source@, target@, rel@))
            && entry_rows(*final(c)) == entry_rows(*old(c))
            && pron_rows(*final(c)) == pron_rows(*old(c))
            && sense_rows(*final(c)) == sense_rows(*old(c))
            && sense_rel_rows(*final(c)) == sense_rel_rows(*old(c))
            && synset_rows(*final(c)) == synset_rows(*old(c))
            && def_rows(*final(c)) == def_rows(*old(c))
            && ili_def_rows(*final(c)) == ili_def_rows(*old(c))
            && example_rows(*final(c)) == example_rows(*old(c))
            && metadata_rows(*final(c)) == metadata_rows(*old(c)) && tx_open_from_empty(
            *final(c),
        ) == tx_open_from_empty(*old(c)),
        r is Err ==> stmt_err_state(*old(c), *final(c)),
{
    c.execute(
        "INSERT OR IGNORE INTO synset_relations (source_synset_id, target_synset_id, rel_type)\n         VALUES (?1, ?2, ?3)",
        (source, target, rel),
    ).map(|_| ()).map_err(|e| e.to_string())
}

/// Relies on rusqlite's `Connection::execute` with an INSERT: on success
/// the new row is appended and nothing else changes; a failing statement
/// either changes nothing or has rolled the transaction back to empty.
#[verifier::external_body]
fn insert_def_row(
    c: &mut rusqlite::Connection,
    synset: &str,
    text: &str,
    source: &Option<String>,
) -> (r: Result<(), String>)
    ensures
        r is Ok ==> def_rows(*final(c)) == def_rows(*old(c)).push((synset@, text@, opt_str_view(*source)))
            && entry_rows(*final(c)) == entry_rows(*old(c))
            && pron_rows(*final(c)) == pron_rows(*old(c))
            && sense_rows(*final(c)) == sense_rows(*old(c))
            && sense_rel_rows(*final(c)) == sense_rel_rows(*old(c))
            && synset_rows(*final(c)) == synset_rows(*old(c))
            && synset_rel_rows(*final(c)) == synset_rel_rows(*old(c))
            && ili_def_rows(*final(c)) == ili_def_rows(*old(c))
            && example_rows(*final(c)) == example_rows(*old(c))
            && metadata_rows(*final(c)) == metadata_rows(*old(c)) && tx_open_from_empty(
            *final(c),
        ) == tx_open_from_empty(*old(c)),
        r is Err ==> stmt_err_state(*old(c), *final(c)),
{
    c.execute(
        "INSERT INTO definitions (synset_id, text, dc_source) VALUES (?1, ?2, ?3)",
        (synset, text, source),
    ).map(|_| ()).map_err(|e| e.to_string())
}

/// Relies on rusqlite's `Connection::execute` with an INSERT: on success
/// the new row is appended and nothing else changes; a failing statement
/// either changes nothing or has rolled the transaction back to empty.
#[verifier::external_body]
fn insert_ili_def_row(
    c: &mut rusqlite::Connection,
    synset: &str,
    text: &str,
    source: &Option<String>,
) -> (r: Result<(), String>)
    ensures
        r is Ok ==> ili_def_rows(*final(c)) == ili_def_rows(*old(c)).push((synset@, text@, opt_str_view(*source)))
            && entry_rows(*final(c)) == entry_rows(*old(c))
            && pron_rows(*final(c)) == pron_rows(*old(c))
            && sense_rows(*final(c)) == sense_rows(*old(c))
            && sense_rel_rows(*final(c)) == sense_rel_rows(*old(c))
            && synset_rows(*final(c)) == synset_rows(*old(c))
            && synset_rel_rows(*final(c)) == synset_rel_rows(*old(c))
            && def_rows(*final(c)) == def_rows(*old(c))
            && example_rows(*final(c)) == example_rows(*old(c))
            && metadata_rows(*final(c)) == metadata_rows(*old(c)) && tx_open_from_empty(
            *final(c),
        ) == tx_open_from_empty(*old(c)),
        r is Err ==> stmt_err_state(*old(c), *final(c)),
{
    c.execute(
        "INSERT INTO ili_definitions (synset_id, text, dc_source) VALUES (?1, ?2, ?3)",
        (synset, text, source),
    ).map(|_| ()).map_err(|e| e.to_string())
}

/// Relies on rusqlite's `Connection::execute` with an INSERT: on success
/// the new row is appended and nothing else changes; a failing statement
/// either changes nothing or has rolled the transaction back to empty.
#[verifier::external_body]
fn insert_example_row(
    c: &mut rusqlite::Connection,
    synset: &str,
    text: &str,
    source: &Option<String>,
) -> (r: Result<(), String>)
    ensures
        r is Ok ==> example_rows(*final(c)) == example_rows(*old(c)).push((synset@, text@, opt_str_view(*source)))
            && entry_rows(*final(c)) == entry_rows(*old(c))
            && pron_rows(*final(c)) == pron_rows(*old(c))
            && sense_rows(*final(c)) == sense_rows(*old(c))
            && sense_rel_rows(*final(c)) == sense_rel_rows(*old(c))
            && synset_rows(*final(c)) == synset_rows(*old(c))
            && synset_rel_rows(*final(c)) == synset_rel_rows(*old(c))
            && def_rows(*final(c)) == def_rows(*old(c))
            && ili_def_rows(*final(c)) == ili_def_rows(*old(c))
            && metadata_rows(*final(c)) == metadata_rows(*old(c)) && tx_open_from_empty(
            *final(c),
        ) == tx_open_from_empty(*old(c)),
        r is Err ==> stmt_err_state(*old(c), *final(c)),
{
    c.execute(
        "INSERT INTO examples (synset_id, text, dc_source) VALUES (?1, ?2, ?3)",
        (synset, text, source),
    ).map(|_| ()).map_err(|e| e.to_string())
}

/// Relies on rusqlite's `prepare`/`query_map` with `ORDER BY rowid`: rows
/// are returned in insertion order, exactly those whose case-folded written
/// form matches.
#[verifier::external_body]
fn select_entries_by_lower(c: &rusqlite::Connection, lower: &str) -> (r: Result<
    Vec<(String, String, String)>,
    String,
>)
    ensures
        r matches Ok(v) ==> v@.map_values(|t: (String, String, String)| (t.0@, t.1@, t.2@))
            == db_matching_rows(*c, lower@),
{
    let mut stmt = c.prepare(
        "SELECT id, lemma_written_form, part_of_speech FROM lexical_entries
         WHERE lemma_written_form_lower = ?1 ORDER BY rowid",
    ).map_err(|e| e.to_string())?;
    let rows = stmt.query_map((lower,), |row| {
        Ok((row.get(0)?, row.get(1)?, row.get(2)?))
    }).map_err(|e| e.to_string())?;
    let mut out = Vec::new();
    for row in rows {
        out.push(row.map_err(|e| e.to_string())?);
    }
    Ok(out)
}

/// Relies on rusqlite's `prepare`/`query_map` with `ORDER BY rowid`: the
/// pronunciation rows of one entry, in insertion order.
#[verifier::external_body]
fn select_prons_by_entry(c: &rusqlite::Connection, entry: &str) -> (r: Result<
    Vec<(String, Option<String>, bool, Option<String>, String)>,
    String,
>)
    ensures
        r matches Ok(v) ==> v@.map_values(
            |t: (String, Option<String>, bool, Option<String>, String)|
                (t.0@, opt_str_view(t.1), t.2, opt_str_view(t.3), t.4@),
        ) == db_pron_fields(*c, entry@),
{
    let mut stmt = c.prepare(
        "SELECT variety, notation, phonemic, audio, text FROM pronunciations
         WHERE entry_id = ?1 ORDER BY rowid",
    ).map_err(|e| e.to_string())?;
    let rows = stmt.query_map((entry,), |row| {
        Ok((row.get(0)?, row.get(1)?, row.get(2)?, row.get(3)?, row.get(4)?))
    }).map_err(|e| e.to_string())?;
    let mut out = Vec::new();
    for row in rows {
        out.push(row.map_err(|e| e.to_string())?);
    }
    Ok(out)
}

/// Relies on rusqlite's `prepare`/`query_map` with `ORDER BY rowid`: the
/// sense rows of one entry, in insertion order.
#[verifier::external_body]
fn select_senses_by_entry(c: &rusqlite::Connection, entry: &str) -> (r: Result<
    Vec<(String, String)>,
    String,
>)
    ensures
        r matches Ok(v) ==> v@.map_values(|t: (String, String)| (t.0@, t.1@)) == db_senses_of_entry(
            *c,
            entry@,
        ),
{
    let mut stmt = c.prepare(
        "SELECT id, synset_id FROM senses WHERE entry_id = ?1 ORDER BY rowid",
    ).map_err(|e| e.to_string())?;
    let rows = stmt.query_map((entry,), |row| {
        Ok((row.get(0)?, row.get(1)?))
    }).map_err(|e| e.to_string())?;
    let mut out = Vec::new();
    for row in rows {
        out.push(row.map_err(|e| e.to_string())?);
    }
    Ok(out)
}

/// Relies on rusqlite's `prepare`/`query_map` with `ORDER BY rowid`: the
/// sense rows targeting one synset, in insertion order.
#[verifier::external_body]
fn select_senses_by_synset(c: &rusqlite::Connection, synset: &str) -> (r: Result<
    Vec<(String, String)>,
    String,
>)
    ensures
        r matches Ok(v) ==> v@.map_values(|t: (String, String)| (t.0@, t.1@))
            == db_senses_of_synset(*c, synset@),
{
    let mut stmt = c.prepare(
        "SELECT id, synset_id FROM senses WHERE synset_id = ?1 ORDER BY rowid",
    ).map_err(|e| e.to_string())?;
    let rows = stmt.query_map((synset,), |row| {
        Ok((row.get(0)?, row.get(1)?))
    }).map_err(|e| e.to_string())?;
    let mut out = Vec::new();
    for row in rows {
        out.push(row.map_err(|e| e.to_string())?);
    }
    Ok(out)
}

/// Relies on rusqlite's `prepare`/`query_map` with `ORDER BY rowid`: the
/// relation rows leaving one sense, in insertion order.
#[verifier::external_body]
fn select_sense_rels_by_source(c: &rusqlite::Connection, source: &str) -> (r: Result<
    Vec<(String, String)>,
    String,
>)
    ensures
        r matches Ok(v) ==> v@.map_values(|t: (String, String)| (t.0@, t.1@)) == db_rels_of_sense(
            *c,
            source@,
        ),
{
    let mut stmt = c.prepare(
        "SELECT target_sense_id, rel_type FROM sense_relations
         WHERE source_sense_id = ?1 ORDER BY rowid",
    ).map_err(|e| e.to_string())?;
    let rows = stmt.query_map((source,), |row| {
        Ok((row.get(0)?, row.get(1)?))
    }).map_err(|e| e.to_string())?;
    let mut out = Vec::new();
    for row in rows {
        out.push(row.map_err(|e| e.to_string())?);
    }
    Ok(out)
}

/// Relies on rusqlite's `prepare`/`query_map` with `ORDER BY rowid`: the
/// relation rows leaving one synset, in insertion order.
#[verifier::external_body]
fn select_synset_rels_by_source(c: &rusqlite::Connection, source: &str) -> (r: Result<
    Vec<(String, String)>,
    String,
>)
    ensures
        r matches Ok(v) ==> v@.map_values(|t: (String, String)| (t.0@, t.1@)) == db_rels_of_synset(
            *c,
            source@,
        ),
{
    let mut stmt = c.prepare(
        "SELECT target_synset_id, rel_type FROM synset_relations
         WHERE source_synset_id = ?1 ORDER BY rowid",
    ).map_err(|e| e.to_string())?;
    let rows = stmt.query_map((source,), |row| {
        Ok((row.get(0)?, row.get(1)?))
    }).map_err(|e| e.to_string())?;
    let mut out = Vec::new();
    for row in rows {
        out.push(row.map_err(|e| e.to_string())?);
    }
    Ok(out)
}

/// Relies on rusqlite's `prepare`/`query_map` with `ORDER BY rowid LIMIT 1`:
/// the first synset row with the given id, or nothing.
#[verifier::external_body]
fn select_synset_by_id(c: &rusqlite::Connection, id: &str) -> (r: Result<
    Option<(String, Option<String>, String)>,
    String,
>)
    ensures
        r matches Ok(o) ==> {
            let f = db_synset_match(*c, id@);
            match o {
                Some(t) => f.len() > 0 && (t.0@, opt_str_view(t.1), t.2@) == (
                    f[0].0,
                    f[0].2,
                    f[0].3,
                ),
                None => f.len() == 0,
            }
        },
{
    let mut stmt = c.prepare(
        "SELECT id, ili, part_of_speech FROM synsets WHERE id = ?1 ORDER BY rowid LIMIT 1",
    ).map_err(|e| e.to_string())?;
    let mut rows = stmt.query_map((id,), |row| {
        Ok((row.get(0)?, row.get(1)?, row.get(2)?))
    }).map_err(|e| e.to_string())?;
    match rows.next() {
        Some(row) => Ok(Some(row.map_err(|e| e.to_string())?)),
        None => Ok(None),
    }
}

/// Relies on rusqlite's `prepare`/`query_map` with `ORDER BY rowid`: the
/// definition rows of one synset, in insertion order.
#[verifier::external_body]
fn select_defs_by_synset(c: &rusqlite::Connection, synset: &str) -> (r: Result<
    Vec<(String, Option<String>)>,
    String,
>)
    ensures
        r matches Ok(v) ==> v@.map_values(
            |t: (String, Option<String>)| (t.0@, opt_str_view(t.1)),
        ) == db_defs_of_synset(*c, synset@),
{
    let mut stmt = c.prepare(
        "SELECT text, dc_source FROM definitions WHERE synset_id = ?1 ORDER BY rowid",
    ).map_err(|e| e.to_string())?;
    let rows = stmt.query_map((synset,), |row| {
        Ok((row.get(0)?, row.get(1)?))
    }).map_err(|e| e.to_string())?;
    let mut out = Vec::new();
    for row in rows {
        out.push(row.map_err(|e| e.to_string())?);
    }
    Ok(out)
}

/// Relies on rusqlite's `prepare`/`query_map` with `ORDER BY rowid`: the
/// example rows of one synset, in insertion order.
#[verifier::external_body]
fn select_examples_by_synset(c: &rusqlite::Connection, synset: &str) -> (r: Result<
    Vec<(String, Option<String>)>,
    String,
>)
    ensures
        r matches Ok(v) ==> v@.map_values(
            |t: (String, Option<String>)| (t.0@, opt_str_view(t.1)),
        ) == db_examples_of_synset(*c, synset@),
{
    let mut stmt = c.prepare(
        "SELECT text, dc_source FROM examples WHERE synset_id = ?1 ORDER BY rowid",
    ).map_err(|e| e.to_string())?;
    let rows = stmt.query_map((synset,), |row| {
        Ok((row.get(0)?, row.get(1)?))
    }).map_err(|e| e.to_string())?;
    let mut out = Vec::new();
    for row in rows {
        out.push(row.map_err(|e| e.to_string())?);
    }
    Ok(out)
}

/// Relies on rusqlite's `prepare`/`query_map` with `ORDER BY rowid LIMIT 1`:
/// the first ILI-definition row of one synset, or nothing.
#[verifier::external_body]
fn select_ili_def_by_synset(c: &rusqlite::Connection, synset: &str) -> (r: Result<
    Option<(String, Option<String>)>,
    String,
>)
    ensures
        r matches Ok(o) ==> {
            let f = db_ilis_of_synset(*c, synset@);
            match o {
                Some(t) => f.len() > 0 && (t.0@, opt_str_view(t.1)) == (f[0].0, f[0].1),
                None => f.len() == 0,
            }
        },
{
    let mut stmt = c.prepare(
        "SELECT text, dc_source FROM ili_definitions WHERE synset_id = ?1
         ORDER BY rowid LIMIT 1",
    ).map_err(|e| e.to_string())?;
    let mut rows = stmt.query_map((synset,), |row| {
        Ok((row.get(0)?, row.get(1)?))
    }).map_err(|e| e.to_string())?;
    match rows.next() {
        Some(row) => Ok(Some(row.map_err(|e| e.to_string())?)),
        None => Ok(None),
    }
}


/// Relies on rusqlite's `prepare`/`query_map` with `ORDER BY rowid LIMIT 1`:
/// the first metadata row with the given key, or nothing.
#[verifier::external_body]
fn select_metadata_value(c: &rusqlite::Connection, key: &str) -> (r: Result<
    Option<String>,
    String,
>)
    ensures
        r matches Ok(o) ==> {
            let f = db_metadata_value(*c, key@);
            match o {
                Some(v) => f.len() > 0 && v@ == f[0].1,
                None => f.len() == 0,
            }
        },
{
    let mut stmt = c.prepare(
        "SELECT value FROM metadata WHERE key = ?1 ORDER BY rowid LIMIT 1",
    ).map_err(|e| e.to_string())?;
    let mut rows = stmt.query_map((key,), |row| row.get(0)).map_err(|e| e.to_string())?;
    match rows.next() {
        Some(row) => Ok(Some(row.map_err(|e| e.to_string())?)),
        None => Ok(None),
    }
}

/// Every lexical entry paired with the id of the lexicon that owns it, in
/// document order.
pub open spec fn entry_pairs(lxs: Seq<crate::models::LexiconV>) -> Seq<
    (Seq<char>, LexicalEntryV),
>
    decreases lxs.len(),
{
    if lxs.len() == 0 {
        Seq::empty()
    } else {
        entry_pairs(lxs.drop_last()) + lxs.last().lexical_entries.map_values(
            |e: LexicalEntryV| (lxs.last().id, e),
        )
    }
}

/// Every synset paired with the id of the lexicon that owns it, in document
/// order.
pub open spec fn synset_pairs(lxs: Seq<crate::models::LexiconV>) -> Seq<(Seq<char>, SynsetV)>
    decreases lxs.len(),
{
    if lxs.len() == 0 {
        Seq::empty()
    } else {
        synset_pairs(lxs.drop_last()) + lxs.last().synsets.map_values(
            |y: SynsetV| (lxs.last().id, y),
        )
    }
}

/// The entry table row one owned entry populates.
pub open spec fn entry_row_of(p: (Seq<char>, LexicalEntryV)) -> (
    Seq<char>,
    Seq<char>,
    Seq<char>,
    Seq<char>,
    Seq<char>,
) {
    (p.1.id, p.0, p.1.lemma.written_form, lower_of(p.1.lemma.written_form), spec_pos_string(
        p.1.lemma.part_of_speech,
    ))
}

/// The pronunciation rows one entry populates.
pub open spec fn pron_rows_of_entry(e: LexicalEntryV) -> Seq<
    (Seq<char>, Seq<char>, Option<Seq<char>>, bool, Option<Seq<char>>, Seq<char>),
> {
    e.pronunciations.map_values(
        |p: PronunciationV| (e.id, p.variety, p.notation, p.phonemic, p.audio, p.text),
    )
}

/// The sense rows one entry populates.
pub open spec fn sense_rows_of_entry(e: LexicalEntryV) -> Seq<(Seq<char>, Seq<char>, Seq<char>)> {
    e.senses.map_values(|s: SenseV| (s.id, e.id, s.synset))
}

/// The sense-relation rows one sense populates.
pub open spec fn rel_rows_of_sense(s: SenseV) -> Seq<(Seq<char>, Seq<char>, Seq<char>)> {
    s.sense_relations.map_values(
        |r: SenseRelationV| (s.id, r.target, crate::models::spec_sense_rel_string(r.rel_type)),
    )
}

/// The sense-relation rows one entry populates.
pub open spec fn rel_rows_of_entry(e: LexicalEntryV) -> Seq<(Seq<char>, Seq<char>, Seq<char>)> {
    e.senses.map_values(|s: SenseV| rel_rows_of_sense(s)).flatten()
}

/// The synset table row one owned synset populates.
pub open spec fn synset_row_of(p: (Seq<char>, SynsetV)) -> (
    Seq<char>,
    Seq<char>,
    Option<Seq<char>>,
    Seq<char>,
) {
    (p.1.id, p.0, p.1.ili, spec_pos_string(p.1.part_of_speech))
}

/// The synset-relation rows one synset populates.
pub open spec fn rel_rows_of_synset(y: SynsetV) -> Seq<(Seq<char>, Seq<char>, Seq<char>)> {
    y.synset_relations.map_values(
        |r: SynsetRelationV| (y.id, r.target, crate::models::spec_synset_rel_string(r.rel_type)),
    )
}

/// The definition rows one synset populates.
pub open spec fn def_rows_of_synset(y: SynsetV) -> Seq<(Seq<char>, Seq<char>, Option<Seq<char>>)> {
    y.definitions.map_values(|d: DefinitionV| (y.id, d.text, d.dc_source))
}

/// The example rows one synset populates.
pub open spec fn example_rows_of_synset(y: SynsetV) -> Seq<
    (Seq<char>, Seq<char>, Option<Seq<char>>),
> {
    y.examples.map_values(|d: ExampleV| (y.id, d.text, d.dc_source))
}

/// The ILI-definition rows one synset populates: one or none.
pub open spec fn ili_rows_of_synset(y: SynsetV) -> Seq<(Seq<char>, Seq<char>, Option<Seq<char>>)> {
    match y.ili_definition {
        Some(d) => seq![(y.id, d.text, d.dc_source)],
        None => Seq::empty(),
    }
}

/// What every table holds after populating a store with a resource.
pub open spec fn populated(c: rusqlite::Connection, lxs: Seq<crate::models::LexiconV>) -> bool {
    let ep = entry_pairs(lxs);
    let yp = synset_pairs(lxs);
    &&& entry_rows(c) == ep.map_values(|p: (Seq<char>, LexicalEntryV)| entry_row_of(p))
    &&& pron_rows(c) == ep.map_values(
        |p: (Seq<char>, LexicalEntryV)| pron_rows_of_entry(p.1),
    ).flatten()
    &&& sense_rows(c) == ep.map_values(
        |p: (Seq<char>, LexicalEntryV)| sense_rows_of_entry(p.1),
    ).flatten()
    &&& sense_rel_rows(c) == add_edges(
        Seq::empty(),
        ep.map_values(|p: (Seq<char>, LexicalEntryV)| rel_rows_of_entry(p.1)).flatten(),
    )
    &&& synset_rows(c) == yp.map_values(|p: (Seq<char>, SynsetV)| synset_row_of(p))
    &&& synset_rel_rows(c) == add_edges(
        Seq::empty(),
        yp.map_values(|p: (Seq<char>, SynsetV)| rel_rows_of_synset(p.1)).flatten(),
    )
    &&& def_rows(c) == yp.map_values(|p: (Seq<char>, SynsetV)| def_rows_of_synset(p.1)).flatten()
    &&& ili_def_rows(c) == yp.map_values(
        |p: (Seq<char>, SynsetV)| ili_rows_of_synset(p.1),
    ).flatten()
    &&& example_rows(c) == yp.map_values(
        |p: (Seq<char>, SynsetV)| example_rows_of_synset(p.1),
    ).flatten()
}

/// Copies every entry of every lexicon into one flat vector, paired with
/// its owning lexicon's id, in document order.
fn collect_entry_pairs(lexicons: &Vec<crate::models::Lexicon>) -> (r: Vec<(String, LexicalEntry)>)
    ensures
        r@.map_values(|t: (String, LexicalEntry)| (t.0@, t.1@)) == entry_pairs(
            views_of(lexicons@),
        ),
{
    let ghost lvs = views_of(lexicons@);
    let ghost tview = |t: (String, LexicalEntry)| (t.0@, t.1@);
    let mut out: Vec<(String, LexicalEntry)> = Vec::new();
    proof {
        assert(out@.map_values(tview) =~= entry_pairs(lvs.take(0)));
    }
    let mut li: usize = 0;
    while li < lexicons.len()
        invariant
            lvs == views_of(lexicons@),
            tview == (|t: (String, LexicalEntry)| (t.0@, t.1@)),
            li <= lexicons.len(),
            lvs.len() == lexicons@.len(),
            out@.map_values(tview) == entry_pairs(lvs.take(li as int)),
        decreases lexicons.len() - li,
    {
        let lex = &lexicons[li];
        let ghost lv = lvs[li as int];
        let ghost inner = lv.lexical_entries.map_values(|e: LexicalEntryV| (lv.id, e));
        proof {
            assert(lv == lexicons@[li as int]@);
            assert(lvs.take(li as int + 1).drop_last() =~= lvs.take(li as int));
            assert(lvs.take(li as int + 1).last() == lv);
        }
        let mut ei: usize = 0;
        while ei < lex.lexical_entries.len()
            invariant
                lvs == views_of(lexicons@),
                tview == (|t: (String, LexicalEntry)| (t.0@, t.1@)),
                li < lexicons.len(),
                lvs.len() == lexicons@.len(),
                *lex == lexicons@[li as int],
                lv == lvs[li as int],
                inner == lv.lexical_entries.map_values(|e: LexicalEntryV| (lv.id, e)),
                lv.lexical_entries.len() == lex.lexical_entries@.len(),
                ei <= lex.lexical_entries.len(),
                out@.map_values(tview) == entry_pairs(lvs.take(li as int)) + inner.take(ei as int),
            decreases lex.lexical_entries.len() - ei,
        {
            let pair = (lex.id.clone(), lex.lexical_entries[ei].duplicate());
            let ghost out0 = out@;
            out.push(pair);
            proof {
                assert(out@.map_values(tview) =~= out0.map_values(tview).push(
                    (lv.id, lv.lexical_entries[ei as int]),
                ));
                assert(inner[ei as int] == (lv.id, lv.lexical_entries[ei as int]));
                assert(inner.take(ei as int).push(inner[ei as int]) =~= inner.take(ei as int + 1));
                assert(out@.map_values(tview) =~= entry_pairs(lvs.take(li as int)) + inner.take(
                    ei as int + 1,
                ));
            }
            ei = ei + 1;
        }
        proof {
            assert(inner.take(inner.len() as int) =~= inner);
        }
        li = li + 1;
    }
    proof {
        assert(lvs.take(lvs.len() as int) =~= lvs);
    }
    out
}

/// Copies every synset of every lexicon into one flat vector, paired with
/// its owning lexicon's id, in document order.
fn collect_synset_pairs(lexicons: &Vec<crate::models::Lexicon>) -> (r: Vec<(String, Synset)>)
    ensures
        r@.map_values(|t: (String, Synset)| (t.0@, t.1@)) == synset_pairs(views_of(lexicons@)),
{
    let ghost lvs = views_of(lexicons@);
    let ghost tview = |t: (String, Synset)| (t.0@, t.1@);
    let mut out: Vec<(String, Synset)> = Vec::new();
    proof {
        assert(out@.map_values(tview) =~= synset_pairs(lvs.take(0)));
    }
    let mut li: usize = 0;
    while li < lexicons.len()
        invariant
            lvs == views_of(lexicons@),
            tview == (|t: (String, Synset)| (t.0@, t.1@)),
            li <= lexicons.len(),
            lvs.len() == lexicons@.len(),
            out@.map_values(tview) == synset_pairs(lvs.take(li as int)),
        decreases lexicons.len() - li,
    {
        let lex = &lexicons[li];
        let ghost lv = lvs[li as int];
        let ghost inner = lv.synsets.map_values(|y: SynsetV| (lv.id, y));
        proof {
            assert(lv == lexicons@[li as int]@);
            assert(lvs.take(li as int + 1).drop_last() =~= lvs.take(li as int));
            assert(lvs.take(li as int + 1).last() == lv);
        }
        let mut yi: usize = 0;
        while yi < lex.synsets.len()
            invariant
                lvs == views_of(lexicons@),
                tview == (|t: (String, Synset)| (t.0@, t.1@)),
                li < lexicons.len(),
                lvs.len() == lexicons@.len(),
                *lex == lexicons@[li as int],
                lv == lvs[li as int],
                inner == lv.synsets.map_values(|y: SynsetV| (lv.id, y)),
                lv.synsets.len() == lex.synsets@.len(),
                yi <= lex.synsets.len(),
                out@.map_values(tview) == synset_pairs(lvs.take(li as int)) + inner.take(
                    yi as int,
                ),
            decreases lex.synsets.len() - yi,
        {
            let pair = (lex.id.clone(), lex.synsets[yi].duplicate());
            let ghost out0 = out@;
            out.push(pair);
            proof {
                assert(out@.map_values(tview) =~= out0.map_values(tview).push(
                    (lv.id, lv.synsets[yi as int]),
                ));
                assert(inner[yi as int] == (lv.id, lv.synsets[yi as int]));
                assert(inner.take(yi as int).push(inner[yi as int]) =~= inner.take(yi as int + 1));
                assert(out@.map_values(tview) =~= synset_pairs(lvs.take(li as int)) + inner.take(
                    yi as int + 1,
                ));
            }
            yi = yi + 1;
        }
        proof {
            assert(inner.take(inner.len() as int) =~= inner);
        }
        li = li + 1;
    }
    proof {
        assert(lvs.take(lvs.len() as int) =~= lvs);
    }
    out
}


/// One step of a prefix's flattened per-element rows.
proof fn lemma_take_flatten_step<T, U>(s: Seq<T>, ef: spec_fn(T) -> Seq<U>, i: int)
    requires
        0 <= i < s.len(),
    ensures
        s.take(i + 1).map_values(ef).flatten() == s.take(i).map_values(ef).flatten() + ef(s[i]),
{
    let m = s.take(i).map_values(ef);
    m.lemma_flatten_push(ef(s[i]));
    assert(m.push(ef(s[i])) =~= s.take(i + 1).map_values(ef));
}

/// The sense a store's rows denote: the row's ids plus every relation row
/// leaving the sense, with its tag decoded.
pub open spec fn db_sense(c: rusqlite::Connection, id: Seq<char>, synset: Seq<char>) -> SenseV {
    SenseV {
        id: id,
        synset: synset,
        sense_relations: db_rels_of_sense(c, id).map_values(
            |r: (Seq<char>, Seq<char>)| SenseRelationV {
                rel_type: spec_decode_sense_rel(r.1),
                target: r.0,
            },
        ),
    }
}

/// The entry a store's rows denote: the entry row's fields plus its
/// pronunciation rows and its senses.
pub open spec fn db_entry(c: rusqlite::Connection, row: (Seq<char>, Seq<char>, Seq<char>)) -> LexicalEntryV {
    LexicalEntryV {
        id: row.0,
        lemma: crate::models::LemmaV {
            written_form: row.1,
            part_of_speech: spec_decode_pos(row.2)->0,
        },
        pronunciations: db_pron_fields(c, row.0).map_values(
            |p: (Seq<char>, Option<Seq<char>>, bool, Option<Seq<char>>, Seq<char>)|
                PronunciationV {
                    variety: p.0,
                    notation: p.1,
                    phonemic: p.2,
                    audio: p.3,
                    text: p.4,
                },
        ),
        senses: db_senses_of_entry(c, row.0).map_values(
            |s: (Seq<char>, Seq<char>)| db_sense(c, s.0, s.1),
        ),
    }
}

/// The entries a lookup on the relational store returns, walking the
/// matching entry rows in order and keeping those that pass the optional
/// part-of-speech filter.  A row whose stored tag does not decode makes the
/// lookup fail instead, so the pipeline is only consulted on decodable rows.
pub open spec fn db_lookup_pipe(
    c: rusqlite::Connection,
    rows: Seq<(Seq<char>, Seq<char>, Seq<char>)>,
    pos_filter: Option<PartOfSpeech>,
    j: int,
) -> Seq<LexicalEntryV>
    decreases j,
{
    if j <= 0 {
        Seq::empty()
    } else {
        let d = db_lookup_pipe(c, rows, pos_filter, j - 1);
        let row = rows[j - 1];
        if spec_decode_pos(row.2) is Some && (match pos_filter {
            None => true,
            Some(p) => spec_decode_pos(row.2) == Some(p),
        }) {
            d.push(db_entry(c, row))
        } else {
            d
        }
    }
}

/// The same indices as the in-memory backend, realized as normalized SQLite
/// tables behind one connection.
///
/// The store lives in memory for the lifetime of the value and is populated
/// once; persistence across processes is the job of the verified binary
/// snapshot.  The `metadata` table still carries a `schema_version` row, as
/// the schema demands, readable through [`WordNetDb::schema_version`].
pub struct WordNetDb {
    conn: rusqlite::Connection,
}

impl WordNetDb {
    /// The connection the contracts speak about; the field itself stays
    /// private so no caller can reach past the wrappers and change rows the
    /// proofs rely on.
    pub closed spec fn spec_conn(self) -> rusqlite::Connection {
        self.conn
    }
}

impl WordNetDb {
    /// Opens a fresh in-memory store with the schema created and no rows.
    pub fn new() -> (r: Result<WordNetDb, OewnError>)
        ensures
            r matches Ok(d) ==> store_empty(d.spec_conn()) && metadata_rows(d.spec_conn())
                == seq![("schema_version"@, "1"@)],
    {
        match open_store_raw() {
            Ok(conn) => Ok(WordNetDb { conn }),
            Err(m) => Err(OewnError::DbError(m)),
        }
    }

    /// Populates the store from a parsed resource, inside one transaction,
    /// in dependency order: entries with their pronunciations, senses and
    /// sense relations first, then synsets with their definitions, examples
    /// and relations.  On any failure the transaction is rolled back, so a
    /// half-populated store is never left behind; the metadata row survives
    /// population either way.
    pub fn populate(&mut self, resource: &LexicalResource) -> (r: Result<(), OewnError>)
        requires
            store_empty(old(self).spec_conn()),
        ensures
            r is Ok ==> populated(final(self).spec_conn(), views_of(resource.lexicons@))
                && metadata_rows(final(self).spec_conn()) == metadata_rows(old(self).spec_conn()),
            r is Err ==> store_empty(final(self).spec_conn()) && metadata_rows(
                final(self).spec_conn(),
            ) == metadata_rows(old(self).spec_conn()),
    {
        let ghost lxs = views_of(resource.lexicons@);
        let entries = collect_entry_pairs(&resource.lexicons);
        let synsets = collect_synset_pairs(&resource.lexicons);
        let ghost eps = entry_pairs(lxs);
        let ghost yps = synset_pairs(lxs);
        let ghost erow = |p: (Seq<char>, LexicalEntryV)| entry_row_of(p);
        let ghost eprons = |p: (Seq<char>, LexicalEntryV)| pron_rows_of_entry(p.1);
        let ghost esenses = |p: (Seq<char>, LexicalEntryV)| sense_rows_of_entry(p.1);
        let ghost erels = |p: (Seq<char>, LexicalEntryV)| rel_rows_of_entry(p.1);
        if let Err(m) = begin_tx(&mut self.conn) {
            return Err(OewnError::DbError(m));
        }
        proof {
            assert(eps.take(0).map_values(erow) =~= Seq::<
                (Seq<char>, Seq<char>, Seq<char>, Seq<char>, Seq<char>),
            >::empty());
            assert(eps.take(0).map_values(eprons) =~= Seq::<
                Seq<(Seq<char>, Seq<char>, Option<Seq<char>>, bool, Option<Seq<char>>, Seq<char>)>,
            >::empty());
            assert(Seq::<
                Seq<(Seq<char>, Seq<char>, Option<Seq<char>>, bool, Option<Seq<char>>, Seq<char>)>,
            >::empty().flatten() =~= Seq::<
                (Seq<char>, Seq<char>, Option<Seq<char>>, bool, Option<Seq<char>>, Seq<char>),
            >::empty());
            assert(eps.take(0).map_values(esenses) =~= Seq::<
                Seq<(Seq<char>, Seq<char>, Seq<char>)>,
            >::empty());
            assert(eps.take(0).map_values(erels) =~= Seq::<
                Seq<(Seq<char>, Seq<char>, Seq<char>)>,
            >::empty());
            assert(Seq::<Seq<(Seq<char>, Seq<char>, Seq<char>)>>::empty().flatten() =~= Seq::<
                (Seq<char>, Seq<char>, Seq<char>),
            >::empty());
        }
        let ne = entries.len();
        let mut i: usize = 0;
        while i < ne
            invariant
                eps == entry_pairs(views_of(resource.lexicons@)),
                entries@.map_values(|t: (String, LexicalEntry)| (t.0@, t.1@)) == eps,
                erow == (|p: (Seq<char>, LexicalEntryV)| entry_row_of(p)),
                eprons == (|p: (Seq<char>, LexicalEntryV)| pron_rows_of_entry(p.1)),
                esenses == (|p: (Seq<char>, LexicalEntryV)| sense_rows_of_entry(p.1)),
                erels == (|p: (Seq<char>, LexicalEntryV)| rel_rows_of_entry(p.1)),
                ne == entries@.len(),
                eps.len() == ne,
                i <= ne,
                tx_open_from_empty(self.conn),
                metadata_rows(self.conn) == metadata_rows(old(self).conn),
                entry_rows(self.conn) == eps.take(i as int).map_values(erow),
                pron_rows(self.conn) == eps.take(i as int).map_values(eprons).flatten(),
                sense_rows(self.conn) == eps.take(i as int).map_values(esenses).flatten(),
                sense_rel_rows(self.conn) == add_edges(
                    Seq::empty(),
                    eps.take(i as int).map_values(erels).flatten(),
                ),
                synset_rows(self.conn) == Seq::<
                    (Seq<char>, Seq<char>, Option<Seq<char>>, Seq<char>),
                >::empty(),
                synset_rel_rows(self.conn) == Seq::<(Seq<char>, Seq<char>, Seq<char>)>::empty(),
                def_rows(self.conn) == Seq::<(Seq<char>, Seq<char>, Option<Seq<char>>)>::empty(),
                ili_def_rows(self.conn) == Seq::<
                    (Seq<char>, Seq<char>, Option<Seq<char>>),
                >::empty(),
                example_rows(self.conn) == Seq::<
                    (Seq<char>, Seq<char>, Option<Seq<char>>),
                >::empty(),
            decreases ne - i,
        {
            let lex_id = &entries[i].0;
            let e = &entries[i].1;
            let ghost pv = eps[i as int];
            proof {
                assert(entries@.map_values(|t: (String, LexicalEntry)| (t.0@, t.1@))[i as int]
                    == eps[i as int]);
                assert(pv == (lex_id@, e@));
            }
            let folded = lowercase(e.lemma.written_form.as_str());
            let pos_tag = part_of_speech_to_string(e.lemma.part_of_speech);
            if let Err(m) = insert_entry_row(
                &mut self.conn,
                e.id.as_str(),
                lex_id.as_str(),
                e.lemma.written_form.as_str(),
                folded.as_str(),
                pos_tag,
            ) {
                rollback_tx(&mut self.conn);
                return Err(OewnError::DbError(m));
            }
            proof {
                assert(erow(pv) == entry_row_of(pv));
                assert(eps.take(i as int).map_values(erow).push(erow(pv)) =~= eps.take(
                    i as int + 1,
                ).map_values(erow));
                lemma_take_flatten_step(eps, eprons, i as int);
                lemma_take_flatten_step(eps, esenses, i as int);
                lemma_take_flatten_step(eps, erels, i as int);
            }
            let ghost prs = pron_rows_of_entry(pv.1);
            let np = e.pronunciations.len();
            let mut pi: usize = 0;
            while pi < np
                invariant
                    pv == eps[i as int],
                    i < eps.len(),
                    *e == entries@[i as int].1,
                    pv.1 == e@,
                    prs == pron_rows_of_entry(pv.1),
                    np == e.pronunciations@.len(),
                    prs.len() == np,
                    pi <= np,
                    tx_open_from_empty(self.conn),
                    metadata_rows(self.conn) == metadata_rows(old(self).conn),
                    entry_rows(self.conn) == eps.take(i as int + 1).map_values(erow),
                    pron_rows(self.conn) == eps.take(i as int).map_values(eprons).flatten()
                        + prs.take(pi as int),
                    sense_rows(self.conn) == eps.take(i as int).map_values(esenses).flatten(),
                    sense_rel_rows(self.conn) == add_edges(
                        Seq::empty(),
                        eps.take(i as int).map_values(erels).flatten(),
                    ),
                    synset_rows(self.conn) == Seq::<
                        (Seq<char>, Seq<char>, Option<Seq<char>>, Seq<char>),
                    >::empty(),
                    synset_rel_rows(self.conn) == Seq::<
                        (Seq<char>, Seq<char>, Seq<char>),
                    >::empty(),
                    def_rows(self.conn) == Seq::<
                        (Seq<char>, Seq<char>, Option<Seq<char>>),
                    >::empty(),
                    ili_def_rows(self.conn) == Seq::<
                        (Seq<char>, Seq<char>, Option<Seq<char>>),
                    >::empty(),
                    example_rows(self.conn) == Seq::<
                        (Seq<char>, Seq<char>, Option<Seq<char>>),
                    >::empty(),
                    erow == (|p: (Seq<char>, LexicalEntryV)| entry_row_of(p)),
                    eprons == (|p: (Seq<char>, LexicalEntryV)| pron_rows_of_entry(p.1)),
                    esenses == (|p: (Seq<char>, LexicalEntryV)| sense_rows_of_entry(p.1)),
                    erels == (|p: (Seq<char>, LexicalEntryV)| rel_rows_of_entry(p.1)),
                decreases np - pi,
            {
                let p = &e.pronunciations[pi];
                proof {
                    assert(prs[pi as int] == (
                        pv.1.id,
                        p@.variety,
                        p@.notation,
                        p@.phonemic,
                        p@.audio,
                        p@.text,
                    ));
                }
                if let Err(m) = insert_pron_row(
                    &mut self.conn,
                    e.id.as_str(),
                    p.variety.as_str(),
                    &p.notation,
                    p.phonemic,
                    &p.audio,
                    p.text.as_str(),
                ) {
                    rollback_tx(&mut self.conn);
                    return Err(OewnError::DbError(m));
                }
                proof {
                    assert(prs.take(pi as int).push(prs[pi as int]) =~= prs.take(pi as int + 1));
                }
                pi = pi + 1;
            }
            proof {
                assert(prs.take(np as int) =~= prs);
            }
            let ghost srs = sense_rows_of_entry(pv.1);
            let ghost relf = |s2: SenseV| rel_rows_of_sense(s2);
            let ns = e.senses.len();
            let mut si: usize = 0;
            proof {
                assert(pv.1.senses.take(0).map_values(relf) =~= Seq::<
                    Seq<(Seq<char>, Seq<char>, Seq<char>)>,
                >::empty());
                assert(Seq::<Seq<(Seq<char>, Seq<char>, Seq<char>)>>::empty().flatten() =~= Seq::<
                    (Seq<char>, Seq<char>, Seq<char>),
                >::empty());
                assert(eps.take(i as int).map_values(erels).flatten() + pv.1.senses.take(
                    0,
                ).map_values(relf).flatten() =~= eps.take(i as int).map_values(erels).flatten());
            }
            while si < ns
                invariant
                    pv == eps[i as int],
                    i < eps.len(),
                    *e == entries@[i as int].1,
                    pv.1 == e@,
                    srs == sense_rows_of_entry(pv.1),
                    relf == (|s2: SenseV| rel_rows_of_sense(s2)),
                    ns == e.senses@.len(),
                    srs.len() == ns,
                    pv.1.senses.len() == ns,
                    si <= ns,
                    tx_open_from_empty(self.conn),
                    metadata_rows(self.conn) == metadata_rows(old(self).conn),
                    entry_rows(self.conn) == eps.take(i as int + 1).map_values(erow),
                    pron_rows(self.conn) == eps.take(i as int + 1).map_values(eprons).flatten(),
                    sense_rows(self.conn) == eps.take(i as int).map_values(esenses).flatten()
                        + srs.take(si as int),
                    sense_rel_rows(self.conn) == add_edges(
                        Seq::empty(),
                        eps.take(i as int).map_values(erels).flatten() + pv.1.senses.take(
                            si as int,
                        ).map_values(relf).flatten(),
                    ),
                    synset_rows(self.conn) == Seq::<
                        (Seq<char>, Seq<char>, Option<Seq<char>>, Seq<char>),
                    >::empty(),
                    synset_rel_rows(self.conn) == Seq::<
                        (Seq<char>, Seq<char>, Seq<char>),
                    >::empty(),
                    def_rows(self.conn) == Seq::<
                        (Seq<char>, Seq<char>, Option<Seq<char>>),
                    >::empty(),
                    ili_def_rows(self.conn) == Seq::<
                        (Seq<char>, Seq<char>, Option<Seq<char>>),
                    >::empty(),
                    example_rows(self.conn) == Seq::<
                        (Seq<char>, Seq<char>, Option<Seq<char>>),
                    >::empty(),
                    erow == (|p: (Seq<char>, LexicalEntryV)| entry_row_of(p)),
                    eprons == (|p: (Seq<char>, LexicalEntryV)| pron_rows_of_entry(p.1)),
                    esenses == (|p: (Seq<char>, LexicalEntryV)| sense_rows_of_entry(p.1)),
                    erels == (|p: (Seq<char>, LexicalEntryV)| rel_rows_of_entry(p.1)),
                decreases ns - si,
            {
                let s = &e.senses[si];
                let ghost sv = pv.1.senses[si as int];
                proof {
                    assert(sv == e.senses@[si as int]@);
                    assert(srs[si as int] == (sv.id, pv.1.id, sv.synset));
                }
                if let Err(m) = insert_sense_row(
                    &mut self.conn,
                    s.id.as_str(),
                    e.id.as_str(),
                    s.synset.as_str(),
                ) {
                    rollback_tx(&mut self.conn);
                    return Err(OewnError::DbError(m));
                }
                proof {
                    assert(srs.take(si as int).push(srs[si as int]) =~= srs.take(si as int + 1));
                    lemma_take_flatten_step(pv.1.senses, relf, si as int);
                }
                let ghost rrs = rel_rows_of_sense(sv);
                let ghost base = eps.take(i as int).map_values(erels).flatten()
                    + pv.1.senses.take(si as int).map_values(relf).flatten();
                proof {
                    assert(base + rrs.take(0) =~= base);
                }
                let nr = s.sense_relations.len();
                let mut ri: usize = 0;
                while ri < nr
                    invariant
                        pv == eps[i as int],
                        i < eps.len(),
                        si < pv.1.senses.len(),
                        *s == entries@[i as int].1.senses[si as int],
                        sv == pv.1.senses[si as int],
                        sv == s@,
                        rrs == rel_rows_of_sense(sv),
                        relf == (|s2: SenseV| rel_rows_of_sense(s2)),
                        base == eps.take(i as int).map_values(erels).flatten()
                            + pv.1.senses.take(si as int).map_values(relf).flatten(),
                        nr == s.sense_relations@.len(),
                        rrs.len() == nr,
                        ri <= nr,
                        tx_open_from_empty(self.conn),
                        metadata_rows(self.conn) == metadata_rows(old(self).conn),
                        entry_rows(self.conn) == eps.take(i as int + 1).map_values(erow),
                        pron_rows(self.conn) == eps.take(i as int + 1).map_values(
                            eprons,
                        ).flatten(),
                        sense_rows(self.conn) == eps.take(i as int).map_values(esenses).flatten()
                            + srs.take(si as int + 1),
                        sense_rel_rows(self.conn) == add_edges(
                            Seq::empty(),
                            base + rrs.take(ri as int),
                        ),
                        synset_rows(self.conn) == Seq::<
                            (Seq<char>, Seq<char>, Option<Seq<char>>, Seq<char>),
                        >::empty(),
                        synset_rel_rows(self.conn) == Seq::<
                            (Seq<char>, Seq<char>, Seq<char>),
                        >::empty(),
                        def_rows(self.conn) == Seq::<
                            (Seq<char>, Seq<char>, Option<Seq<char>>),
                        >::empty(),
                        ili_def_rows(self.conn) == Seq::<
                            (Seq<char>, Seq<char>, Option<Seq<char>>),
                        >::empty(),
                        example_rows(self.conn) == Seq::<
                            (Seq<char>, Seq<char>, Option<Seq<char>>),
                        >::empty(),
                        srs == sense_rows_of_entry(pv.1),
                        erow == (|p: (Seq<char>, LexicalEntryV)| entry_row_of(p)),
                        eprons == (|p: (Seq<char>, LexicalEntryV)| pron_rows_of_entry(p.1)),
                        esenses == (|p: (Seq<char>, LexicalEntryV)| sense_rows_of_entry(p.1)),
                        erels == (|p: (Seq<char>, LexicalEntryV)| rel_rows_of_entry(p.1)),
                    decreases nr - ri,
                {
                    let rel = &s.sense_relations[ri];
                    let tag = crate::models::sense_rel_type_to_string(rel.rel_type);
                    proof {
                        assert(rrs[ri as int] == (
                            sv.id,
                            rel@.target,
                            crate::models::spec_sense_rel_string(rel@.rel_type),
                        ));
                    }
                    if let Err(m) = insert_sense_rel_row(
                        &mut self.conn,
                        s.id.as_str(),
                        rel.target.as_str(),
                        tag,
                    ) {
                        rollback_tx(&mut self.conn);
                        return Err(OewnError::DbError(m));
                    }
                    proof {
                        let cum = base + rrs.take(ri as int);
                        assert(cum.push(rrs[ri as int]).drop_last() =~= cum);
                        assert(sense_rel_rows(self.conn) == add_edges(
                            Seq::empty(),
                            cum.push(rrs[ri as int]),
                        ));
                        assert(cum.push(rrs[ri as int]) =~= base + rrs.take(ri as int + 1));
                    }
                    ri = ri + 1;
                }
                proof {
                    assert(rrs.take(nr as int) =~= rrs);
                    assert(base + rrs =~= eps.take(i as int).map_values(erels).flatten()
                        + pv.1.senses.take(si as int + 1).map_values(relf).flatten());
                }
                si = si + 1;
            }
            proof {
                assert(srs.take(ns as int) =~= srs);
                assert(pv.1.senses.take(ns as int) =~= pv.1.senses);
                assert(rel_rows_of_entry(pv.1) == pv.1.senses.map_values(relf).flatten());
                assert(eps.take(i as int).map_values(erels).flatten() + pv.1.senses.map_values(
                    relf,
                ).flatten() =~= eps.take(i as int + 1).map_values(erels).flatten());
            }
            i = i + 1;
        }
        proof {
            assert(eps.take(ne as int) =~= eps);
        }
        if let Err(m) = self.populate_synsets(&synsets, Ghost(yps)) {
            return Err(m);
        }
        if let Err(m) = commit_tx(&mut self.conn) {
            rollback_tx(&mut self.conn);
            return Err(OewnError::DbError(m));
        }
        Ok(())
    }
}



impl WordNetDb {
    /// The synset half of population: synset rows, then their definitions,
    /// ILI definition, examples and relations, in document order; like the
    /// entry half, a failed statement rolls the whole transaction back.
    fn populate_synsets(
        &mut self,
        synsets: &Vec<(String, Synset)>,
        Ghost(yps): Ghost<Seq<(Seq<char>, SynsetV)>>,
    ) -> (r: Result<(), OewnError>)
        requires
            synsets@.map_values(|t: (String, Synset)| (t.0@, t.1@)) == yps,
            tx_open_from_empty(old(self).conn),
            synset_rows(old(self).conn) == Seq::<
                (Seq<char>, Seq<char>, Option<Seq<char>>, Seq<char>),
            >::empty(),
            synset_rel_rows(old(self).conn) == Seq::<(Seq<char>, Seq<char>, Seq<char>)>::empty(),
            def_rows(old(self).conn) == Seq::<(Seq<char>, Seq<char>, Option<Seq<char>>)>::empty(),
            ili_def_rows(old(self).conn) == Seq::<
                (Seq<char>, Seq<char>, Option<Seq<char>>),
            >::empty(),
            example_rows(old(self).conn) == Seq::<
                (Seq<char>, Seq<char>, Option<Seq<char>>),
            >::empty(),
        ensures
            r is Ok ==> {
                &&& entry_rows(final(self).conn) == entry_rows(old(self).conn)
                &&& pron_rows(final(self).conn) == pron_rows(old(self).conn)
                &&& sense_rows(final(self).conn) == sense_rows(old(self).conn)
                &&& sense_rel_rows(final(self).conn) == sense_rel_rows(old(self).conn)
                &&& synset_rows(final(self).conn) == yps.map_values(
                    |p: (Seq<char>, SynsetV)| synset_row_of(p),
                )
                &&& synset_rel_rows(final(self).conn) == add_edges(
                    Seq::empty(),
                    yps.map_values(|p: (Seq<char>, SynsetV)| rel_rows_of_synset(p.1)).flatten(),
                )
                &&& def_rows(final(self).conn) == yps.map_values(
                    |p: (Seq<char>, SynsetV)| def_rows_of_synset(p.1),
                ).flatten()
                &&& ili_def_rows(final(self).conn) == yps.map_values(
                    |p: (Seq<char>, SynsetV)| ili_rows_of_synset(p.1),
                ).flatten()
                &&& example_rows(final(self).conn) == yps.map_values(
                    |p: (Seq<char>, SynsetV)| example_rows_of_synset(p.1),
                ).flatten()
                &&& tx_open_from_empty(final(self).conn)
                &&& metadata_rows(final(self).conn) == metadata_rows(old(self).conn)
            },
            r is Err ==> store_empty(final(self).conn) && metadata_rows(final(self).conn)
                == metadata_rows(old(self).conn),
    {
        let ghost yrow = |p: (Seq<char>, SynsetV)| synset_row_of(p);
        let ghost yrels = |p: (Seq<char>, SynsetV)| rel_rows_of_synset(p.1);
        let ghost ydefs = |p: (Seq<char>, SynsetV)| def_rows_of_synset(p.1);
        let ghost yilis = |p: (Seq<char>, SynsetV)| ili_rows_of_synset(p.1);
        let ghost yexs = |p: (Seq<char>, SynsetV)| example_rows_of_synset(p.1);
        proof {
            assert(yps.take(0).map_values(yrow) =~= Seq::<
                (Seq<char>, Seq<char>, Option<Seq<char>>, Seq<char>),
            >::empty());
            assert(yps.take(0).map_values(yrels) =~= Seq::<
                Seq<(Seq<char>, Seq<char>, Seq<char>)>,
            >::empty());
            assert(Seq::<Seq<(Seq<char>, Seq<char>, Seq<char>)>>::empty().flatten() =~= Seq::<
                (Seq<char>, Seq<char>, Seq<char>),
            >::empty());
            assert(yps.take(0).map_values(ydefs) =~= Seq::<
                Seq<(Seq<char>, Seq<char>, Option<Seq<char>>)>,
            >::empty());
            assert(yps.take(0).map_values(yilis) =~= Seq::<
                Seq<(Seq<char>, Seq<char>, Option<Seq<char>>)>,
            >::empty());
            assert(yps.take(0).map_values(yexs) =~= Seq::<
                Seq<(Seq<char>, Seq<char>, Option<Seq<char>>)>,
            >::empty());
            assert(Seq::<Seq<(Seq<char>, Seq<char>, Option<Seq<char>>)>>::empty().flatten() =~= Seq::<
                (Seq<char>, Seq<char>, Option<Seq<char>>),
            >::empty());
        }
        let ny = synsets.len();
        let mut i: usize = 0;
        while i < ny
            invariant
                synsets@.map_values(|t: (String, Synset)| (t.0@, t.1@)) == yps,
                yrow == (|p: (Seq<char>, SynsetV)| synset_row_of(p)),
                yrels == (|p: (Seq<char>, SynsetV)| rel_rows_of_synset(p.1)),
                ydefs == (|p: (Seq<char>, SynsetV)| def_rows_of_synset(p.1)),
                yilis == (|p: (Seq<char>, SynsetV)| ili_rows_of_synset(p.1)),
                yexs == (|p: (Seq<char>, SynsetV)| example_rows_of_synset(p.1)),
                ny == synsets@.len(),
                yps.len() == ny,
                i <= ny,
                tx_open_from_empty(self.conn),
                metadata_rows(self.conn) == metadata_rows(old(self).conn),
                entry_rows(self.conn) == entry_rows(old(self).conn),
                pron_rows(self.conn) == pron_rows(old(self).conn),
                sense_rows(self.conn) == sense_rows(old(self).conn),
                sense_rel_rows(self.conn) == sense_rel_rows(old(self).conn),
                synset_rows(self.conn) == yps.take(i as int).map_values(yrow),
                synset_rel_rows(self.conn) == add_edges(
                    Seq::empty(),
                    yps.take(i as int).map_values(yrels).flatten(),
                ),
                def_rows(self.conn) == yps.take(i as int).map_values(ydefs).flatten(),
                ili_def_rows(self.conn) == yps.take(i as int).map_values(yilis).flatten(),
                example_rows(self.conn) == yps.take(i as int).map_values(yexs).flatten(),
            decreases ny - i,
        {
            let lex_id = &synsets[i].0;
            let y = &synsets[i].1;
            let ghost pv = yps[i as int];
            proof {
                assert(synsets@.map_values(|t: (String, Synset)| (t.0@, t.1@))[i as int]
                    == yps[i as int]);
                assert(pv == (lex_id@, y@));
            }
            let pos_tag = part_of_speech_to_string(y.part_of_speech);
            if let Err(m) = insert_synset_row(
                &mut self.conn,
                y.id.as_str(),
                lex_id.as_str(),
                &y.ili,
                pos_tag,
            ) {
                rollback_tx(&mut self.conn);
                return Err(OewnError::DbError(m));
            }
            proof {
                assert(yps.take(i as int).map_values(yrow).push(yrow(pv)) =~= yps.take(
                    i as int + 1,
                ).map_values(yrow));
                lemma_take_flatten_step(yps, yrels, i as int);
                lemma_take_flatten_step(yps, ydefs, i as int);
                lemma_take_flatten_step(yps, yilis, i as int);
                lemma_take_flatten_step(yps, yexs, i as int);
            }
            let ghost drs = def_rows_of_synset(pv.1);
            let nd = y.definitions.len();
            let mut di: usize = 0;
            while di < nd
                invariant
                    pv == yps[i as int],
                    i < yps.len(),
                    *y == synsets@[i as int].1,
                    pv.1 == y@,
                    drs == def_rows_of_synset(pv.1),
                    nd == y.definitions@.len(),
                    drs.len() == nd,
                    di <= nd,
                    tx_open_from_empty(self.conn),
                    metadata_rows(self.conn) == metadata_rows(old(self).conn),
                    entry_rows(self.conn) == entry_rows(old(self).conn),
                    pron_rows(self.conn) == pron_rows(old(self).conn),
                    sense_rows(self.conn) == sense_rows(old(self).conn),
                    sense_rel_rows(self.conn) == sense_rel_rows(old(self).conn),
                    synset_rows(self.conn) == yps.take(i as int + 1).map_values(yrow),
                    synset_rel_rows(self.conn) == add_edges(
                        Seq::empty(),
                        yps.take(i as int).map_values(yrels).flatten(),
                    ),
                    def_rows(self.conn) == yps.take(i as int).map_values(ydefs).flatten()
                        + drs.take(di as int),
                    ili_def_rows(self.conn) == yps.take(i as int).map_values(yilis).flatten(),
                    example_rows(self.conn) == yps.take(i as int).map_values(yexs).flatten(),
                    yrow == (|p: (Seq<char>, SynsetV)| synset_row_of(p)),
                    yrels == (|p: (Seq<char>, SynsetV)| rel_rows_of_synset(p.1)),
                    ydefs == (|p: (Seq<char>, SynsetV)| def_rows_of_synset(p.1)),
                    yilis == (|p: (Seq<char>, SynsetV)| ili_rows_of_synset(p.1)),
                    yexs == (|p: (Seq<char>, SynsetV)| example_rows_of_synset(p.1)),
                decreases nd - di,
            {
                let d = &y.definitions[di];
                proof {
                    assert(drs[di as int] == (pv.1.id, d@.text, d@.dc_source));
                }
                if let Err(m) = insert_def_row(
                    &mut self.conn,
                    y.id.as_str(),
                    d.text.as_str(),
                    &d.dc_source,
                ) {
                    rollback_tx(&mut self.conn);
                    return Err(OewnError::DbError(m));
                }
                proof {
                    assert(drs.take(di as int).push(drs[di as int]) =~= drs.take(di as int + 1));
                }
                di = di + 1;
            }
            proof {
                assert(drs.take(nd as int) =~= drs);
            }
            if let Some(ili_def) = &y.ili_definition {
                proof {
                    assert(ili_rows_of_synset(pv.1) =~= Seq::<
                        (Seq<char>, Seq<char>, Option<Seq<char>>),
                    >::empty().push((pv.1.id, ili_def@.text, ili_def@.dc_source)));
                }
                if let Err(m) = insert_ili_def_row(
                    &mut self.conn,
                    y.id.as_str(),
                    ili_def.text.as_str(),
                    &ili_def.dc_source,
                ) {
                    rollback_tx(&mut self.conn);
                    return Err(OewnError::DbError(m));
                }
                proof {
                    assert(ili_def_rows(self.conn) =~= yps.take(i as int).map_values(
                        yilis,
                    ).flatten() + ili_rows_of_synset(pv.1));
                }
            } else {
                proof {
                    assert(ili_rows_of_synset(pv.1) =~= Seq::<
                        (Seq<char>, Seq<char>, Option<Seq<char>>),
                    >::empty());
                    assert(ili_def_rows(self.conn) =~= yps.take(i as int).map_values(
                        yilis,
                    ).flatten() + ili_rows_of_synset(pv.1));
                }
            }
            let ghost exs = example_rows_of_synset(pv.1);
            let nx = y.examples.len();
            let mut xi: usize = 0;
            while xi < nx
                invariant
                    pv == yps[i as int],
                    i < yps.len(),
                    *y == synsets@[i as int].1,
                    pv.1 == y@,
                    exs == example_rows_of_synset(pv.1),
                    nx == y.examples@.len(),
                    exs.len() == nx,
                    xi <= nx,
                    tx_open_from_empty(self.conn),
                    metadata_rows(self.conn) == metadata_rows(old(self).conn),
                    entry_rows(self.conn) == entry_rows(old(self).conn),
                    pron_rows(self.conn) == pron_rows(old(self).conn),
                    sense_rows(self.conn) == sense_rows(old(self).conn),
                    sense_rel_rows(self.conn) == sense_rel_rows(old(self).conn),
                    synset_rows(self.conn) == yps.take(i as int + 1).map_values(yrow),
                    synset_rel_rows(self.conn) == add_edges(
                        Seq::empty(),
                        yps.take(i as int).map_values(yrels).flatten(),
                    ),
                    def_rows(self.conn) == yps.take(i as int + 1).map_values(ydefs).flatten(),
                    ili_def_rows(self.conn) == yps.take(i as int + 1).map_values(yilis).flatten(),
                    example_rows(self.conn) == yps.take(i as int).map_values(yexs).flatten()
                        + exs.take(xi as int),
                    yrow == (|p: (Seq<char>, SynsetV)| synset_row_of(p)),
                    yrels == (|p: (Seq<char>, SynsetV)| rel_rows_of_synset(p.1)),
                    ydefs == (|p: (Seq<char>, SynsetV)| def_rows_of_synset(p.1)),
                    yilis == (|p: (Seq<char>, SynsetV)| ili_rows_of_synset(p.1)),
                    yexs == (|p: (Seq<char>, SynsetV)| example_rows_of_synset(p.1)),
                decreases nx - xi,
            {
                let x = &y.examples[xi];
                proof {
                    assert(exs[xi as int] == (pv.1.id, x@.text, x@.dc_source));
                }
                if let Err(m) = insert_example_row(
                    &mut self.conn,
                    y.id.as_str(),
                    x.text.as_str(),
                    &x.dc_source,
                ) {
                    rollback_tx(&mut self.conn);
                    return Err(OewnError::DbError(m));
                }
                proof {
                    assert(exs.take(xi as int).push(exs[xi as int]) =~= exs.take(xi as int + 1));
                }
                xi = xi + 1;
            }
            proof {
                assert(exs.take(nx as int) =~= exs);
            }
            let ghost rrs = rel_rows_of_synset(pv.1);
            let ghost base = yps.take(i as int).map_values(yrels).flatten();
            proof {
                assert(base + rrs.take(0) =~= base);
            }
            let nr = y.synset_relations.len();
            let mut ri: usize = 0;
            while ri < nr
                invariant
                    pv == yps[i as int],
                    i < yps.len(),
                    *y == synsets@[i as int].1,
                    pv.1 == y@,
                    rrs == rel_rows_of_synset(pv.1),
                    base == yps.take(i as int).map_values(yrels).flatten(),
                    nr == y.synset_relations@.len(),
                    rrs.len() == nr,
                    ri <= nr,
                    tx_open_from_empty(self.conn),
                    metadata_rows(self.conn) == metadata_rows(old(self).conn),
                    entry_rows(self.conn) == entry_rows(old(self).conn),
                    pron_rows(self.conn) == pron_rows(old(self).conn),
                    sense_rows(self.conn) == sense_rows(old(self).conn),
                    sense_rel_rows(self.conn) == sense_rel_rows(old(self).conn),
                    synset_rows(self.conn) == yps.take(i as int + 1).map_values(yrow),
                    synset_rel_rows(self.conn) == add_edges(
                        Seq::empty(),
                        base + rrs.take(ri as int),
                    ),
                    def_rows(self.conn) == yps.take(i as int + 1).map_values(ydefs).flatten(),
                    ili_def_rows(self.conn) == yps.take(i as int + 1).map_values(yilis).flatten(),
                    example_rows(self.conn) == yps.take(i as int + 1).map_values(yexs).flatten(),
                    yrow == (|p: (Seq<char>, SynsetV)| synset_row_of(p)),
                    yrels == (|p: (Seq<char>, SynsetV)| rel_rows_of_synset(p.1)),
                    ydefs == (|p: (Seq<char>, SynsetV)| def_rows_of_synset(p.1)),
                    yilis == (|p: (Seq<char>, SynsetV)| ili_rows_of_synset(p.1)),
                    yexs == (|p: (Seq<char>, SynsetV)| example_rows_of_synset(p.1)),
                decreases nr - ri,
            {
                let rel = &y.synset_relations[ri];
                let tag = crate::models::synset_rel_type_to_string(rel.rel_type);
                proof {
                    assert(rrs[ri as int] == (
                        pv.1.id,
                        rel@.target,
                        crate::models::spec_synset_rel_string(rel@.rel_type),
                    ));
                }
                if let Err(m) = insert_synset_rel_row(
                    &mut self.conn,
                    y.id.as_str(),
                    rel.target.as_str(),
                    tag,
                ) {
                    rollback_tx(&mut self.conn);
                    return Err(OewnError::DbError(m));
                }
                proof {
                    let cum = base + rrs.take(ri as int);
                    assert(cum.push(rrs[ri as int]).drop_last() =~= cum);
                    assert(synset_rel_rows(self.conn) == add_edges(
                        Seq::empty(),
                        cum.push(rrs[ri as int]),
                    ));
                    assert(cum.push(rrs[ri as int]) =~= base + rrs.take(ri as int + 1));
                }
                ri = ri + 1;
            }
            proof {
                assert(rrs.take(nr as int) =~= rrs);
                assert(base + rrs =~= yps.take(i as int + 1).map_values(yrels).flatten());
            }
            i = i + 1;
        }
        proof {
            assert(yps.take(ny as int) =~= yps);
        }
        Ok(())
    }
}


/// The synset a store's rows denote for one id, assuming a matching row
/// with a decodable part-of-speech tag.  The `members` attribute is not
/// stored relationally, so it comes back empty.
pub open spec fn db_synset(c: rusqlite::Connection, id: Seq<char>) -> SynsetV {
    let row = db_synset_match(c, id)[0];
    SynsetV {
        id: row.0,
        ili: row.2,
        part_of_speech: spec_decode_pos(row.3)->0,
        members: Seq::empty(),
        definitions: db_defs_of_synset(c, id).map_values(
            |d: (Seq<char>, Option<Seq<char>>)| DefinitionV { dc_source: d.1, text: d.0 },
        ),
        ili_definition: if db_ilis_of_synset(c, id).len() > 0 {
            Some(
                ILIDefinitionV {
                    dc_source: db_ilis_of_synset(c, id)[0].1,
                    text: db_ilis_of_synset(c, id)[0].0,
                },
            )
        } else {
            None
        },
        synset_relations: db_rels_of_synset(c, id).map_values(
            |r: (Seq<char>, Seq<char>)| SynsetRelationV {
                rel_type: spec_decode_synset_rel(r.1),
                target: r.0,
            },
        ),
        examples: db_examples_of_synset(c, id).map_values(
            |d: (Seq<char>, Option<Seq<char>>)| ExampleV { dc_source: d.1, text: d.0 },
        ),
    }
}

/// The synsets a relational relation traversal returns: the targets of the
/// matching relation rows, in order, skipping targets with no synset row.
pub open spec fn db_rel_pipe(
    c: rusqlite::Connection,
    rels: Seq<(Seq<char>, Seq<char>)>,
    rt: crate::models::SynsetRelType,
    j: int,
) -> Seq<SynsetV>
    decreases j,
{
    if j <= 0 {
        Seq::empty()
    } else {
        let d = db_rel_pipe(c, rels, rt, j - 1);
        let r = rels[j - 1];
        if spec_decode_synset_rel(r.1) == rt && db_synset_match(c, r.0).len() > 0
            && spec_decode_pos(db_synset_match(c, r.0)[0].3) is Some {
            d.push(db_synset(c, r.0))
        } else {
            d
        }
    }
}

impl WordNetDb {
    /// Rebuilds one sense record from its rows: the sense ids plus every
    /// decoded relation edge leaving it.
    fn fetch_sense(&self, id: &str, synset: &str) -> (r: Result<Sense, OewnError>)
        ensures
            r matches Ok(s) ==> s@ == db_sense(self.conn, id@, synset@),
    {
        let rel_rows = match select_sense_rels_by_source(&self.conn, id) {
            Ok(v) => v,
            Err(m) => {
                return Err(OewnError::DbError(m));
            },
        };
        let ghost rv = db_rels_of_sense(self.conn, id@);
        let ghost mk = |r: (Seq<char>, Seq<char>)| SenseRelationV {
            rel_type: spec_decode_sense_rel(r.1),
            target: r.0,
        };
        let mut rels: Vec<SenseRelation> = Vec::new();
        let nr = rel_rows.len();
        let mut i: usize = 0;
        while i < nr
            invariant
                rel_rows@.map_values(|t: (String, String)| (t.0@, t.1@)) == rv,
                mk == (|r: (Seq<char>, Seq<char>)| SenseRelationV {
                    rel_type: spec_decode_sense_rel(r.1),
                    target: r.0,
                }),
                nr == rel_rows@.len(),
                rv.len() == nr,
                i <= nr,
                rels@.len() == i,
                forall|k: int| 0 <= k < i ==> (#[trigger] rels@[k])@ == mk(rv[k]),
            decreases nr - i,
        {
            let row = &rel_rows[i];
            let rel_type = match crate::models::string_to_sense_rel_type(row.1.as_str()) {
                Ok(t) => t,
                Err(e) => {
                    return Err(e);
                },
            };
            proof {
                assert(rel_rows@.map_values(|t: (String, String)| (t.0@, t.1@))[i as int]
                    == rv[i as int]);
            }
            rels.push(SenseRelation { rel_type, target: row.0.clone() });
            i = i + 1;
        }
        let out = Sense { id: id.to_owned(), synset: synset.to_owned(), sense_relations: rels };
        proof {
            assert(crate::models::views_of(rels@) =~= rv.map_values(mk));
            assert(out@ == db_sense(self.conn, id@, synset@));
        }
        Ok(out)
    }

    /// Looks up entries by written form against the relational tables,
    /// case-folded, optionally filtered by part of speech, rebuilding each
    /// entry with its pronunciations, senses and sense relations.
    pub fn lookup_entries(&self, lemma: &str, pos_filter: Option<PartOfSpeech>) -> (r: Result<
        Vec<LexicalEntry>,
        OewnError,
    >)
        ensures
            r matches Ok(v) ==> {
                let mrows = db_matching_rows(self.spec_conn(), lower_of(lemma@));
                views_of(v@) == db_lookup_pipe(
                    self.spec_conn(),
                    mrows,
                    pos_filter,
                    mrows.len() as int,
                )
            },
    {
        let folded = lowercase(lemma);
        let rows = match select_entries_by_lower(&self.conn, folded.as_str()) {
            Ok(v) => v,
            Err(m) => {
                return Err(OewnError::DbError(m));
            },
        };
        let ghost mrows = db_matching_rows(self.conn, lower_of(lemma@));
        let mut out: Vec<LexicalEntry> = Vec::new();
        let n = rows.len();
        let mut i: usize = 0;
        while i < n
            invariant
                rows@.map_values(|t: (String, String, String)| (t.0@, t.1@, t.2@)) == mrows,
                mrows == db_matching_rows(self.conn, lower_of(lemma@)),
                n == rows@.len(),
                mrows.len() == n,
                i <= n,
                views_of(out@) == db_lookup_pipe(self.conn, mrows, pos_filter, i as int),
            decreases n - i,
        {
            let row = &rows[i];
            proof {
                assert(rows@.map_values(|t: (String, String, String)| (t.0@, t.1@, t.2@))[i as int]
                    == mrows[i as int]);
            }
            let pos = match string_to_part_of_speech(row.2.as_str()) {
                Ok(p) => p,
                Err(e) => {
                    return Err(e);
                },
            };
            let keep = match pos_filter {
                None => true,
                Some(p) => pos == p,
            };
            if keep {
                let prons_raw = match select_prons_by_entry(&self.conn, row.0.as_str()) {
                    Ok(v) => v,
                    Err(m) => {
                        return Err(OewnError::DbError(m));
                    },
                };
                let ghost pfields = db_pron_fields(self.conn, mrows[i as int].0);
                let ghost mkp = |p: (Seq<char>, Option<Seq<char>>, bool, Option<Seq<char>>, Seq<char>)|
                    PronunciationV {
                        variety: p.0,
                        notation: p.1,
                        phonemic: p.2,
                        audio: p.3,
                        text: p.4,
                    };
                let mut prons: Vec<Pronunciation> = Vec::new();
                let np = prons_raw.len();
                let mut pi: usize = 0;
                while pi < np
                    invariant
                        prons_raw@.map_values(
                            |t: (String, Option<String>, bool, Option<String>, String)|
                                (t.0@, opt_str_view(t.1), t.2, opt_str_view(t.3), t.4@),
                        ) == pfields,
                        mkp == (|p: (
                            Seq<char>,
                            Option<Seq<char>>,
                            bool,
                            Option<Seq<char>>,
                            Seq<char>,
                        )|
                            PronunciationV {
                                variety: p.0,
                                notation: p.1,
                                phonemic: p.2,
                                audio: p.3,
                                text: p.4,
                            }),
                        np == prons_raw@.len(),
                        pfields.len() == np,
                        pi <= np,
                        prons@.len() == pi,
                        forall|k: int| 0 <= k < pi ==> (#[trigger] prons@[k])@ == mkp(pfields[k]),
                    decreases np - pi,
                {
                    let p = &prons_raw[pi];
                    proof {
                        assert(prons_raw@.map_values(
                            |t: (String, Option<String>, bool, Option<String>, String)|
                                (t.0@, opt_str_view(t.1), t.2, opt_str_view(t.3), t.4@),
                        )[pi as int] == pfields[pi as int]);
                    }
                    prons.push(
                        Pronunciation {
                            variety: p.0.clone(),
                            notation: crate::models::dup_opt_string(&p.1),
                            phonemic: p.2,
                            audio: crate::models::dup_opt_string(&p.3),
                            text: p.4.clone(),
                        },
                    );
                    pi = pi + 1;
                }
                let sense_raw = match select_senses_by_entry(&self.conn, row.0.as_str()) {
                    Ok(v) => v,
                    Err(m) => {
                        return Err(OewnError::DbError(m));
                    },
                };
                let ghost sfields = db_senses_of_entry(self.conn, mrows[i as int].0);
                let ghost mks = |s: (Seq<char>, Seq<char>)| db_sense(self.conn, s.0, s.1);
                let mut senses: Vec<Sense> = Vec::new();
                let ns = sense_raw.len();
                let mut si: usize = 0;
                while si < ns
                    invariant
                        sense_raw@.map_values(|t: (String, String)| (t.0@, t.1@)) == sfields,
                        mks == (|s: (Seq<char>, Seq<char>)| db_sense(self.conn, s.0, s.1)),
                        ns == sense_raw@.len(),
                        sfields.len() == ns,
                        si <= ns,
                        senses@.len() == si,
                        forall|k: int| 0 <= k < si ==> (#[trigger] senses@[k])@ == mks(sfields[k]),
                    decreases ns - si,
                {
                    let srow = &sense_raw[si];
                    proof {
                        assert(sense_raw@.map_values(
                            |t: (String, String)| (t.0@, t.1@),
                        )[si as int] == sfields[si as int]);
                    }
                    let s = match self.fetch_sense(srow.0.as_str(), srow.1.as_str()) {
                        Ok(s) => s,
                        Err(e) => {
                            return Err(e);
                        },
                    };
                    senses.push(s);
                    si = si + 1;
                }
                let entry = LexicalEntry {
                    id: row.0.clone(),
                    lemma: Lemma { written_form: row.1.clone(), part_of_speech: pos },
                    pronunciations: prons,
                    senses,
                };
                let ghost out0 = out@;
                out.push(entry);
                proof {
                    assert(views_of(out@) =~= views_of(out0).push(out@.last()@));
                    assert(out@.last()@.pronunciations =~= pfields.map_values(mkp));
                    assert(out@.last()@.senses =~= sfields.map_values(mks));
                    assert(out@.last()@ == db_entry(self.conn, mrows[i as int]));
                    assert(views_of(out@) =~= db_lookup_pipe(
                        self.conn,
                        mrows,
                        pos_filter,
                        i as int + 1,
                    ));
                }
            } else {
                proof {
                    assert(views_of(out@) =~= db_lookup_pipe(
                        self.conn,
                        mrows,
                        pos_filter,
                        i as int + 1,
                    ));
                }
            }
            i = i + 1;
        }
        Ok(out)
    }

    /// Retrieves the senses whose stored target-synset id is the given
    /// synset, with their relations, rebuilt from the rows.
    pub fn get_senses_for_synset(&self, synset_id: &str) -> (r: Result<Vec<Sense>, OewnError>)
        ensures
            r matches Ok(v) ==> views_of(v@) == db_senses_of_synset(
                self.spec_conn(),
                synset_id@,
            ).map_values(|s: (Seq<char>, Seq<char>)| db_sense(self.spec_conn(), s.0, s.1)),
    {
        let sense_raw = match select_senses_by_synset(&self.conn, synset_id) {
            Ok(v) => v,
            Err(m) => {
                return Err(OewnError::DbError(m));
            },
        };
        let ghost sfields = db_senses_of_synset(self.conn, synset_id@);
        let ghost mks = |s: (Seq<char>, Seq<char>)| db_sense(self.conn, s.0, s.1);
        let mut out: Vec<Sense> = Vec::new();
        let ns = sense_raw.len();
        let mut si: usize = 0;
        while si < ns
            invariant
                sense_raw@.map_values(|t: (String, String)| (t.0@, t.1@)) == sfields,
                mks == (|s: (Seq<char>, Seq<char>)| db_sense(self.conn, s.0, s.1)),
                ns == sense_raw@.len(),
                sfields.len() == ns,
                si <= ns,
                out@.len() == si,
                forall|k: int| 0 <= k < si ==> (#[trigger] out@[k])@ == mks(sfields[k]),
            decreases ns - si,
        {
            let srow = &sense_raw[si];
            proof {
                assert(sense_raw@.map_values(|t: (String, String)| (t.0@, t.1@))[si as int]
                    == sfields[si as int]);
            }
            let s = match self.fetch_sense(srow.0.as_str(), srow.1.as_str()) {
                Ok(s) => s,
                Err(e) => {
                    return Err(e);
                },
            };
            out.push(s);
            si = si + 1;
        }
        proof {
            assert(views_of(out@) =~= sfields.map_values(mks));
        }
        Ok(out)
    }

    /// Retrieves the synsets reached from one synset by relation rows of
    /// one kind, each rebuilt with its definitions, examples and relations;
    /// targets with no synset row are skipped.
    pub fn get_related_synsets(
        &self,
        synset_id: &str,
        rel_type: crate::models::SynsetRelType,
    ) -> (r: Result<Vec<Synset>, OewnError>)
        ensures
            r matches Ok(v) ==> {
                let rels = db_rels_of_synset(self.spec_conn(), synset_id@);
                views_of(v@) == db_rel_pipe(self.spec_conn(), rels, rel_type, rels.len() as int)
            },
    {
        let rel_raw = match select_synset_rels_by_source(&self.conn, synset_id) {
            Ok(v) => v,
            Err(m) => {
                return Err(OewnError::DbError(m));
            },
        };
        let ghost rels = db_rels_of_synset(self.conn, synset_id@);
        let mut out: Vec<Synset> = Vec::new();
        let nr = rel_raw.len();
        let mut i: usize = 0;
        while i < nr
            invariant
                rel_raw@.map_values(|t: (String, String)| (t.0@, t.1@)) == rels,
                rels == db_rels_of_synset(self.conn, synset_id@),
                nr == rel_raw@.len(),
                rels.len() == nr,
                i <= nr,
                views_of(out@) == db_rel_pipe(self.conn, rels, rel_type, i as int),
            decreases nr - i,
        {
            let row = &rel_raw[i];
            proof {
                assert(rel_raw@.map_values(|t: (String, String)| (t.0@, t.1@))[i as int]
                    == rels[i as int]);
            }
            let decoded = match string_to_synset_rel_type(row.1.as_str()) {
                Ok(t) => t,
                Err(e) => {
                    return Err(e);
                },
            };
            if decoded == rel_type {
                match select_synset_by_id(&self.conn, row.0.as_str()) {
                    Ok(Some(yrow)) => {
                        let y = match self.fetch_synset_details(row.0.as_str(), &yrow) {
                            Ok(y) => y,
                            Err(e) => {
                                return Err(e);
                            },
                        };
                        let ghost out0 = out@;
                        out.push(y);
                        proof {
                            assert(views_of(out@) =~= views_of(out0).push(out@.last()@));
                            assert(views_of(out@) =~= db_rel_pipe(
                                self.conn,
                                rels,
                                rel_type,
                                i as int + 1,
                            ));
                        }
                    },
                    Ok(None) => {
                        proof {
                            assert(views_of(out@) =~= db_rel_pipe(
                                self.conn,
                                rels,
                                rel_type,
                                i as int + 1,
                            ));
                        }
                    },
                    Err(m) => {
                        return Err(OewnError::DbError(m));
                    },
                }
            } else {
                proof {
                    assert(views_of(out@) =~= db_rel_pipe(
                        self.conn,
                        rels,
                        rel_type,
                        i as int + 1,
                    ));
                }
            }
            i = i + 1;
        }
        Ok(out)
    }

    /// Rebuilds one synset record from its rows: the synset row's fields
    /// plus its definitions, ILI definition, examples and relations.  The
    /// `members` attribute is not stored relationally and comes back empty.
    fn fetch_synset_details(&self, id: &str, yrow: &(String, Option<String>, String)) -> (r:
        Result<Synset, OewnError>)
        requires
            db_synset_match(self.conn, id@).len() > 0,
            (yrow.0@, opt_str_view(yrow.1), yrow.2@) == (
                db_synset_match(self.conn, id@)[0].0,
                db_synset_match(self.conn, id@)[0].2,
                db_synset_match(self.conn, id@)[0].3,
            ),
        ensures
            r matches Ok(y) ==> spec_decode_pos(db_synset_match(self.conn, id@)[0].3) is Some && y@
                == db_synset(self.conn, id@),
            r is Err ==> true,
    {
        let pos = match string_to_part_of_speech(yrow.2.as_str()) {
            Ok(p) => p,
            Err(e) => {
                return Err(e);
            },
        };
        let defs_raw = match select_defs_by_synset(&self.conn, id) {
            Ok(v) => v,
            Err(m) => {
                return Err(OewnError::DbError(m));
            },
        };
        let ghost dfields = db_defs_of_synset(self.conn, id@);
        let ghost mkd = |d: (Seq<char>, Option<Seq<char>>)| DefinitionV {
            dc_source: d.1,
            text: d.0,
        };
        let mut defs: Vec<Definition> = Vec::new();
        let nd = defs_raw.len();
        let mut di: usize = 0;
        while di < nd
            invariant
                defs_raw@.map_values(
                    |t: (String, Option<String>)| (t.0@, opt_str_view(t.1)),
                ) == dfields,
                mkd == (|d: (Seq<char>, Option<Seq<char>>)| DefinitionV {
                    dc_source: d.1,
                    text: d.0,
                }),
                nd == defs_raw@.len(),
                dfields.len() == nd,
                di <= nd,
                defs@.len() == di,
                forall|k: int| 0 <= k < di ==> (#[trigger] defs@[k])@ == mkd(dfields[k]),
            decreases nd - di,
        {
            let d = &defs_raw[di];
            proof {
                assert(defs_raw@.map_values(
                    |t: (String, Option<String>)| (t.0@, opt_str_view(t.1)),
                )[di as int] == dfields[di as int]);
            }
            defs.push(
                Definition {
                    dc_source: crate::models::dup_opt_string(&d.1),
                    text: d.0.clone(),
                },
            );
            di = di + 1;
        }
        let ili_definition = match select_ili_def_by_synset(&self.conn, id) {
            Ok(Some(t)) => Some(
                ILIDefinition {
                    dc_source: crate::models::dup_opt_string(&t.1),
                    text: t.0.clone(),
                },
            ),
            Ok(None) => None,
            Err(m) => {
                return Err(OewnError::DbError(m));
            },
        };
        let exs_raw = match select_examples_by_synset(&self.conn, id) {
            Ok(v) => v,
            Err(m) => {
                return Err(OewnError::DbError(m));
            },
        };
        let ghost xfields = db_examples_of_synset(self.conn, id@);
        let ghost mkx = |d: (Seq<char>, Option<Seq<char>>)| ExampleV { dc_source: d.1, text: d.0 };
        let mut exs: Vec<Example> = Vec::new();
        let nx = exs_raw.len();
        let mut xi: usize = 0;
        while xi < nx
            invariant
                exs_raw@.map_values(
                    |t: (String, Option<String>)| (t.0@, opt_str_view(t.1)),
                ) == xfields,
                mkx == (|d: (Seq<char>, Option<Seq<char>>)| ExampleV {
                    dc_source: d.1,
                    text: d.0,
                }),
                nx == exs_raw@.len(),
                xfields.len() == nx,
                xi <= nx,
                exs@.len() == xi,
                forall|k: int| 0 <= k < xi ==> (#[trigger] exs@[k])@ == mkx(xfields[k]),
            decreases nx - xi,
        {
            let d = &exs_raw[xi];
            proof {
                assert(exs_raw@.map_values(
                    |t: (String, Option<String>)| (t.0@, opt_str_view(t.1)),
                )[xi as int] == xfields[xi as int]);
            }
            exs.push(
                Example { dc_source: crate::models::dup_opt_string(&d.1), text: d.0.clone() },
            );
            xi = xi + 1;
        }
        let rels_raw = match select_synset_rels_by_source(&self.conn, id) {
            Ok(v) => v,
            Err(m) => {
                return Err(OewnError::DbError(m));
            },
        };
        let ghost rfields = db_rels_of_synset(self.conn, id@);
        let ghost mkr = |r: (Seq<char>, Seq<char>)| SynsetRelationV {
            rel_type: spec_decode_synset_rel(r.1),
            target: r.0,
        };
        let mut rels: Vec<SynsetRelation> = Vec::new();
        let nr = rels_raw.len();
        let mut ri: usize = 0;
        while ri < nr
            invariant
                rels_raw@.map_values(|t: (String, String)| (t.0@, t.1@)) == rfields,
                mkr == (|r: (Seq<char>, Seq<char>)| SynsetRelationV {
                    rel_type: spec_decode_synset_rel(r.1),
                    target: r.0,
                }),
                nr == rels_raw@.len(),
                rfields.len() == nr,
                ri <= nr,
                rels@.len() == ri,
                forall|k: int| 0 <= k < ri ==> (#[trigger] rels@[k])@ == mkr(rfields[k]),
            decreases nr - ri,
        {
            let rr = &rels_raw[ri];
            let rel_type = match string_to_synset_rel_type(rr.1.as_str()) {
                Ok(t) => t,
                Err(e) => {
                    return Err(e);
                },
            };
            proof {
                assert(rels_raw@.map_values(|t: (String, String)| (t.0@, t.1@))[ri as int]
                    == rfields[ri as int]);
            }
            rels.push(SynsetRelation { rel_type, target: rr.0.clone() });
            ri = ri + 1;
        }
        let out = Synset {
            id: yrow.0.clone(),
            ili: crate::models::dup_opt_string(&yrow.1),
            part_of_speech: pos,
            members: String::new(),
            definitions: defs,
            ili_definition,
            synset_relations: rels,
            examples: exs,
        };
        proof {
            assert(out@.definitions =~= dfields.map_values(mkd));
            assert(out@.examples =~= xfields.map_values(mkx));
            assert(out@.synset_relations =~= rfields.map_values(mkr));
            assert(out@.members =~= Seq::<char>::empty());
            assert(out@ == db_synset(self.conn, id@));
        }
        Ok(out)
    }
}


impl WordNetDb {
    /// The schema version the store's metadata table carries, consulted so
    /// a caller can flag version drift.
    pub fn schema_version(&self) -> (r: Result<Option<String>, OewnError>)
        ensures
            r matches Ok(o) ==> {
                let f = db_metadata_value(self.spec_conn(), "schema_version"@);
                match o {
                    Some(v) => f.len() > 0 && v@ == f[0].1,
                    None => f.len() == 0,
                }
            },
    {
        match select_metadata_value(&self.conn, "schema_version") {
            Ok(o) => Ok(o),
            Err(m) => Err(OewnError::DbError(m)),
        }
    }
}

} // verus!
