//! The main WordNet interface: one loaded, indexed resource behind the full
//! read API.
//!
//! A `WordNet` is built once from a parsed resource (or restored from a
//! versioned binary snapshot) and is read-only thereafter, so concurrent
//! readers never observe a partially built state.  Every query's contract is
//! inherited verbatim from the underlying index.

use vstd::prelude::*;

use crate::error::OewnError;
use crate::index::IndexedLexicon;
use crate::index::build;
use crate::index::derived_membership;
use crate::index::dropped_of;
use crate::index::entry_with_id;
use crate::index::has_entry;
use crate::index::has_sense;
use crate::index::has_synset;
use crate::index::ids_unique;
use crate::index::owner_of;
use crate::index::sense_rec;
use crate::index::synset_with_id;
use crate::models::LexicalEntry;
use crate::models::LexicalEntryV;
use crate::models::LexicalResource;
use crate::models::LexiconV;
use crate::models::PartOfSpeech;
use crate::models::Sense;
use crate::models::SenseRelType;
use crate::models::Synset;
use crate::models::SynsetRelType;
use crate::models::views_of;
use crate::query::lookup_result;
use crate::query::related_sense_ids;
use crate::query::related_synset_ids;
use crate::snapshot::enc_snapshot;
use crate::snapshot::load_snapshot;
use crate::snapshot::save_snapshot;

verus! {

/// Options for loading WordNet data.  The path names where persisted state
/// lives; resolving and reading it is the embedding application's concern.
#[derive(Debug, Clone)]
pub struct LoadOptions {
    /// Optional path to a specific snapshot or database file to use.
    pub db_path: Option<String>,
    /// Force rebuilding from the source document, discarding any persisted
    /// state first.
    pub force_reload: bool,
}

impl Default for LoadOptions {
    /// No explicit path, no forced reload.
    fn default() -> (r: Self)
        ensures
            r.db_path is None,
            !r.force_reload,
    {
        LoadOptions { db_path: None, force_reload: false }
    }
}

/// One loaded, indexed lexical resource behind the read API.
///
/// Record-fetching queries hand back the loaded records verbatim, repeated
/// child listings of the source included; traversal queries return each
/// target once.
pub struct WordNet {
    /// The built index set.
    pub index: IndexedLexicon,
}

impl WordNet {
    /// The loaded entries, in document order.
    pub open spec fn spec_entries(self) -> Seq<LexicalEntryV> {
        self.index.spec_entries()
    }

    /// The loaded synsets, in document order.
    pub open spec fn spec_synsets(self) -> Seq<crate::models::SynsetV> {
        self.index.spec_synsets()
    }

    /// The indices are consistent cross-references over the loaded records.
    pub open spec fn wf(self) -> bool {
        self.index.wf()
    }

    /// Builds the index set from a parsed resource.  Succeeds exactly when
    /// entry, synset and sense ids are globally unique.
    pub fn from_resource(resource: &LexicalResource) -> (r: Result<WordNet, OewnError>)
        ensures
            match r {
                Ok(w) => {
                    &&& w.wf()
                    &&& views_of(w.index.lexicons@) == views_of(resource.lexicons@)
                    &&& ids_unique(views_of(resource.lexicons@))
                },
                Err(_) => !ids_unique(views_of(resource.lexicons@)),
            },
    {
        match build(resource) {
            Ok(index) => Ok(WordNet { index }),
            Err(e) => Err(e),
        }
    }

    /// Serializes the loaded records to a versioned binary snapshot.
    pub fn to_snapshot(&self) -> (r: Vec<u8>)
        ensures
            r@ == enc_snapshot(views_of(self.index.lexicons@)),
    {
        save_snapshot(&self.index)
    }

    /// Restores a WordNet from a snapshot; an unrecognized format version is
    /// rejected outright, and whatever `to_snapshot` wrote restores to the
    /// same records.
    pub fn from_snapshot(data: &Vec<u8>) -> (r: Result<WordNet, OewnError>)
        ensures
            data@.len() >= 4 && data@.subrange(0, 4) != crate::snapshot::enc_u32(
                crate::snapshot::SNAPSHOT_VERSION,
            ) ==> r is Err,
            forall|lxs: Seq<LexiconV>|
                data@ == #[trigger] enc_snapshot(lxs) ==> match r {
                    Ok(w) => w.wf() && views_of(w.index.lexicons@) == lxs && ids_unique(lxs),
                    Err(_) => !ids_unique(lxs),
                },
    {
        match load_snapshot(data) {
            Ok(index) => Ok(WordNet { index }),
            Err(e) => Err(e),
        }
    }

    /// Looks up entries by written form, case-folded, optionally filtered by
    /// part of speech; an empty result is not an error.
    pub fn lookup_entries(&self, lemma: &str, pos_filter: Option<PartOfSpeech>) -> (r: Result<
        Vec<LexicalEntry>,
        OewnError,
    >)
        requires
            self.wf(),
        ensures
            match r {
                Ok(v) => views_of(v@) == lookup_result(self.spec_entries(), lemma@, pos_filter),
                Err(_) => false,
            },
    {
        self.index.lookup_entries(lemma, pos_filter)
    }

    /// Retrieves a synset by id; a missing id is an explicit not-found
    /// error.
    pub fn get_synset(&self, id: &str) -> (r: Result<Synset, OewnError>)
        requires
            self.wf(),
        ensures
            match r {
                Ok(y) => has_synset(self.spec_synsets(), id@) && y@ == synset_with_id(
                    self.spec_synsets(),
                    id@,
                ),
                Err(e) => !has_synset(self.spec_synsets(), id@) && (e matches
                    OewnError::SynsetNotFound(s) && s@ == id@),
            },
    {
        self.index.get_synset(id)
    }

    /// Retrieves a sense by id; a missing id is an explicit not-found error.
    pub fn get_sense(&self, id: &str) -> (r: Result<Sense, OewnError>)
        requires
            self.wf(),
        ensures
            match r {
                Ok(s) => has_sense(self.spec_entries(), id@) && s@ == sense_rec(
                    self.spec_entries(),
                    id@,
                ),
                Err(e) => !has_sense(self.spec_entries(), id@) && (e matches
                    OewnError::SenseNotFound(s) && s@ == id@),
            },
    {
        self.index.get_sense(id)
    }

    /// Retrieves the senses an entry owns; an unknown entry id yields an
    /// empty result.
    pub fn get_senses_for_entry(&self, entry_id: &str) -> (r: Result<Vec<Sense>, OewnError>)
        requires
            self.wf(),
        ensures
            match r {
                Ok(v) => if has_entry(self.spec_entries(), entry_id@) {
                    views_of(v@) == entry_with_id(self.spec_entries(), entry_id@).senses
                } else {
                    v@.len() == 0
                },
                Err(_) => false,
            },
    {
        self.index.get_senses_for_entry(entry_id)
    }

    /// Retrieves the derived member senses of a synset, in derivation order.
    pub fn get_senses_for_synset(&self, synset_id: &str) -> (r: Result<Vec<Sense>, OewnError>)
        requires
            self.wf(),
        ensures
            match r {
                Ok(v) => if has_synset(self.spec_synsets(), synset_id@) {
                    views_of(v@) == derived_membership(
                        self.spec_entries(),
                        synset_with_id(self.spec_synsets(), synset_id@),
                    ).map_values(|k: Seq<char>| sense_rec(self.spec_entries(), k))
                } else {
                    v@.len() == 0
                },
                Err(_) => false,
            },
    {
        self.index.get_senses_for_synset(synset_id)
    }

    /// Retrieves one entry chosen from the whole entry population; fails
    /// only when the dataset is empty.
    pub fn get_random_entry(&self) -> (r: Result<LexicalEntry, OewnError>)
        requires
            self.wf(),
        ensures
            match r {
                Ok(e) => self.spec_entries().len() > 0 && exists|i: int|
                    0 <= i < self.spec_entries().len() && e@ == self.spec_entries()[i],
                Err(_) => self.spec_entries().len() == 0,
            },
    {
        self.index.get_random_entry()
    }

    /// Retrieves every entry, in document order.  A full scan, intended for
    /// batch and export use.
    pub fn all_entries(&self) -> (r: Result<Vec<LexicalEntry>, OewnError>)
        requires
            self.wf(),
        ensures
            match r {
                Ok(v) => views_of(v@) == self.spec_entries(),
                Err(_) => false,
            },
    {
        self.index.all_entries()
    }

    /// Retrieves the id of the entry owning a sense, or nothing when the
    /// sense id is unknown.
    pub fn get_entry_id_for_sense(&self, sense_id: &str) -> (r: Result<Option<String>, OewnError>)
        requires
            self.wf(),
        ensures
            match r {
                Ok(o) => match o {
                    Some(eid) => has_sense(self.spec_entries(), sense_id@) && eid@ == owner_of(
                        self.spec_entries(),
                        sense_id@,
                    ),
                    None => !has_sense(self.spec_entries(), sense_id@),
                },
                Err(_) => false,
            },
    {
        self.index.get_entry_id_for_sense(sense_id)
    }

    /// Retrieves an entry by id, or nothing when the id names no entry.
    pub fn get_entry_by_id(&self, entry_id: &str) -> (r: Result<Option<LexicalEntry>, OewnError>)
        requires
            self.wf(),
        ensures
            match r {
                Ok(o) => match o {
                    Some(e) => has_entry(self.spec_entries(), entry_id@) && e@ == entry_with_id(
                        self.spec_entries(),
                        entry_id@,
                    ),
                    None => !has_entry(self.spec_entries(), entry_id@),
                },
                Err(_) => false,
            },
    {
        self.index.get_entry_by_id(entry_id)
    }

    /// Retrieves the senses a sense's relations of one kind point at, each
    /// target once, dangling targets skipped.
    pub fn get_related_senses(&self, sense_id: &str, rel_type: SenseRelType) -> (r: Result<
        Vec<Sense>,
        OewnError,
    >)
        requires
            self.wf(),
        ensures
            match r {
                Ok(v) => {
                    let ids = related_sense_ids(self.spec_entries(), sense_id@, rel_type);
                    &&& v@.len() == ids.len()
                    &&& forall|i: int|
                        0 <= i < ids.len() ==> (#[trigger] v@[i])@ == sense_rec(
                            self.spec_entries(),
                            ids[i],
                        )
                },
                Err(_) => false,
            },
    {
        self.index.get_related_senses(sense_id, rel_type)
    }

    /// Retrieves the synsets a synset's relations of one kind point at, each
    /// target once, dangling targets skipped.
    pub fn get_related_synsets(&self, synset_id: &str, rel_type: SynsetRelType) -> (r: Result<
        Vec<Synset>,
        OewnError,
    >)
        requires
            self.wf(),
        ensures
            match r {
                Ok(v) => {
                    let ids = related_synset_ids(self.spec_synsets(), synset_id@, rel_type);
                    &&& v@.len() == ids.len()
                    &&& forall|i: int|
                        0 <= i < ids.len() ==> (#[trigger] v@[i])@ == synset_with_id(
                            self.spec_synsets(),
                            ids[i],
                        )
                },
                Err(_) => false,
            },
    {
        self.index.get_related_synsets(synset_id, rel_type)
    }

    /// The synonyms of a synset for display: the written forms of the
    /// entries owning its member senses, each once, lexicographically
    /// sorted, the form currently displayed excluded.
    pub fn get_synonyms(&self, synset_id: &str, exclude: &str) -> (r: Result<
        Vec<String>,
        OewnError,
    >)
        requires
            self.wf(),
        ensures
            match r {
                Ok(v) => {
                    &&& crate::synonyms::sorted_strs(v@)
                    &&& crate::synonyms::distinct_strs(v@)
                    &&& forall|w: Seq<char>|
                        crate::models::strs_view(v@).contains(w) <==> (crate::synonyms::synonym_of(
                            self.spec_entries(),
                            self.spec_synsets(),
                            synset_id@,
                            w,
                        ) && w != exclude@)
                },
                Err(_) => false,
            },
    {
        self.index.get_synonyms(synset_id, exclude)
    }

    /// How many member tokens of a synset contributed no sense when its
    /// membership was derived; nothing when the synset id is unknown.
    pub fn get_dropped_member_count(&self, synset_id: &str) -> (r: Option<usize>)
        requires
            self.wf(),
        ensures
            match r {
                Some(c) => has_synset(self.spec_synsets(), synset_id@) && c as int == dropped_of(
                    self.spec_entries(),
                    synset_with_id(self.spec_synsets(), synset_id@),
                ),
                None => !has_synset(self.spec_synsets(), synset_id@),
            },
    {
        self.index.get_dropped_member_count(synset_id)
    }
}

} // verus!
