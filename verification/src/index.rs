//! The index builder: turns a parsed lexical resource into the set of
//! cross-reference indices the query engine reads.
//!
//! The correctness-critical step is synset-membership derivation: a synset's
//! `members` attribute lists *entry* ids, and an entry may have senses in
//! several different synsets, so the senses that truly belong to a synset are
//! those senses of the listed entries whose own target-synset id equals the
//! synset at hand.  Every index this module builds is characterized exactly,
//! in document order, by the well-formedness predicate [`IndexedLexicon::wf`].

use vstd::prelude::*;

use crate::alist::AList;
use crate::error::OewnError;
use crate::models::Dup;
use crate::models::LexicalEntry;
use crate::models::LexicalEntryV;
use crate::models::LexicalResource;
use crate::models::LexiconV;
use crate::models::Lexicon;
use crate::models::Sense;
use crate::models::SenseV;
use crate::models::Synset;
use crate::models::SynsetV;
use crate::models::dup_strings;
use crate::models::dup_vec;
use crate::models::parse_members;
use crate::models::spec_split_ws;
use crate::models::strs_view;
use crate::models::views_of;

verus! {

/// What `str::to_lowercase` returns for a string's characters: the
/// case-folded form used to key the lemma index.
pub uninterp spec fn lower_of(s: Seq<char>) -> Seq<char>;

/// Relies on str::to_lowercase: the result depends on the characters of the
/// input alone.
#[verifier::external_body]
pub fn lowercase(s: &str) -> (r: String)
    ensures
        r@ == lower_of(s@),
{
    s.to_lowercase()
}

/// All lexical entries of a lexicon sequence, in document order.
pub open spec fn entry_views(lxs: Seq<LexiconV>) -> Seq<LexicalEntryV>
    decreases lxs.len(),
{
    if lxs.len() == 0 {
        Seq::empty()
    } else {
        entry_views(lxs.drop_last()) + lxs.last().lexical_entries
    }
}

/// All synsets of a lexicon sequence, in document order.
pub open spec fn synset_views(lxs: Seq<LexiconV>) -> Seq<SynsetV>
    decreases lxs.len(),
{
    if lxs.len() == 0 {
        Seq::empty()
    } else {
        synset_views(lxs.drop_last()) + lxs.last().synsets
    }
}

/// Whether (a, b) addresses a sense: entry a exists and has a b-th sense.
pub open spec fn sense_at(es: Seq<LexicalEntryV>, a: int, b: int) -> bool {
    0 <= a < es.len() && 0 <= b < es[a].senses.len()
}

/// Whether some entry in the sequence has the given id.
pub open spec fn has_entry(es: Seq<LexicalEntryV>, id: Seq<char>) -> bool {
    exists|i: int| 0 <= i < es.len() && es[i].id == id
}

/// The entry with the given id, when one exists.
pub open spec fn entry_with_id(es: Seq<LexicalEntryV>, id: Seq<char>) -> LexicalEntryV {
    es[choose|i: int| 0 <= i < es.len() && es[i].id == id]
}

/// Whether some synset in the sequence has the given id.
pub open spec fn has_synset(ys: Seq<SynsetV>, id: Seq<char>) -> bool {
    exists|i: int| 0 <= i < ys.len() && ys[i].id == id
}

/// The synset with the given id, when one exists.
pub open spec fn synset_with_id(ys: Seq<SynsetV>, id: Seq<char>) -> SynsetV {
    ys[choose|i: int| 0 <= i < ys.len() && ys[i].id == id]
}


/// Entry ids are pairwise distinct.
pub open spec fn distinct_entry_ids(es: Seq<LexicalEntryV>) -> bool {
    forall|i: int, j: int| 0 <= i < j < es.len() ==> es[i].id != es[j].id
}

/// Synset ids are pairwise distinct.
pub open spec fn distinct_synset_ids(ys: Seq<SynsetV>) -> bool {
    forall|i: int, j: int| 0 <= i < j < ys.len() ==> ys[i].id != ys[j].id
}

/// Sense ids are pairwise distinct across the whole resource.
pub open spec fn sense_ids_unique(es: Seq<LexicalEntryV>) -> bool {
    forall|a1: int, b1: int, a2: int, b2: int|
        sense_at(es, a1, b1) && sense_at(es, a2, b2) && (a1 != a2 || b1 != b2)
            ==> #[trigger] es[a1].senses[b1].id != #[trigger] es[a2].senses[b2].id
}

/// All the id uniqueness the builder demands of a resource.
pub open spec fn ids_unique(lxs: Seq<LexiconV>) -> bool {
    &&& distinct_entry_ids(entry_views(lxs))
    &&& distinct_synset_ids(synset_views(lxs))
    &&& sense_ids_unique(entry_views(lxs))
}

/// The ids of the senses of one entry that target the given synset, in the
/// order the entry lists them.
pub open spec fn member_senses_of_entry(e: LexicalEntryV, syn_id: Seq<char>) -> Seq<Seq<char>> {
    e.senses.filter(|s: SenseV| s.synset == syn_id).map_values(|s: SenseV| s.id)
}

/// What one token of a synset's `members` list contributes to that synset's
/// membership: the listed entry's senses targeting the synset, or nothing
/// when the token names no entry.
pub open spec fn member_contrib(
    es: Seq<LexicalEntryV>,
    tok: Seq<char>,
    syn_id: Seq<char>,
) -> Seq<Seq<char>> {
    if has_entry(es, tok) {
        member_senses_of_entry(entry_with_id(es, tok), syn_id)
    } else {
        Seq::empty()
    }
}

/// The derived membership of a synset: for every entry id in its `members`
/// list, the senses of that entry that target this synset, concatenated in
/// document order.
pub open spec fn derived_membership(es: Seq<LexicalEntryV>, y: SynsetV) -> Seq<Seq<char>> {
    spec_split_ws(y.members).map_values(|t: Seq<char>| member_contrib(es, t, y.id)).flatten()
}

/// How many tokens of a synset's `members` list contribute nothing to its
/// membership: dangling entry ids, and entries whose senses all target other
/// synsets.
pub open spec fn dropped_of(es: Seq<LexicalEntryV>, y: SynsetV) -> int {
    spec_split_ws(y.members).filter(
        |t: Seq<char>| member_contrib(es, t, y.id).len() == 0,
    ).len() as int
}

/// Whether one entry owns a sense with the given id.
pub open spec fn entry_owns(e: LexicalEntryV, sense_id: Seq<char>) -> bool {
    exists|j: int| 0 <= j < e.senses.len() && e.senses[j].id == sense_id
}

/// The id of the entry owning the sense with the given id.
pub open spec fn owner_of(es: Seq<LexicalEntryV>, sense_id: Seq<char>) -> Seq<char> {
    es[choose|i: int| 0 <= i < es.len() && entry_owns(#[trigger] es[i], sense_id)].id
}

/// The sense record carrying the given id, when one exists.
pub open spec fn sense_rec(es: Seq<LexicalEntryV>, sense_id: Seq<char>) -> SenseV {
    let (a, b) = choose|a: int, b: int|
        sense_at(es, a, b) && (#[trigger] es[a].senses[b]).id == sense_id;
    es[a].senses[b]
}

/// Whether some sense of the resource has the given id.
pub open spec fn has_sense(es: Seq<LexicalEntryV>, sense_id: Seq<char>) -> bool {
    exists|a: int, b: int| sense_at(es, a, b) && (#[trigger] es[a].senses[b]).id == sense_id
}

/// Whether some entry of the sequence owns a sense with the given id.
pub open spec fn owned_sense(es: Seq<LexicalEntryV>, sense_id: Seq<char>) -> bool {
    exists|i: int| 0 <= i < es.len() && entry_owns(#[trigger] es[i], sense_id)
}

/// The entry ids of a sequence, in order.
pub open spec fn ids_of(es: Seq<LexicalEntryV>) -> Seq<Seq<char>> {
    es.map_values(|e: LexicalEntryV| e.id)
}

/// Filtering a sequence none of whose elements match gives the empty
/// sequence.
proof fn lemma_filter_empty<A>(s: Seq<A>, p: spec_fn(A) -> bool)
    requires
        forall|i: int| 0 <= i < s.len() ==> !p(#[trigger] s[i]),
    ensures
        s.filter(p) == Seq::<A>::empty(),
    decreases s.len(),
{
    reveal(Seq::filter);
    if s.len() > 0 {
        assert(forall|i: int| 0 <= i < s.drop_last().len() ==> !p(#[trigger] s.drop_last()[i]));
        lemma_filter_empty(s.drop_last(), p);
    }
}

/// The full set of cross-reference indices over one loaded resource,
/// immutable once built.
pub struct IndexedLexicon {
    /// The source records, kept for snapshotting and for lexicon metadata.
    pub lexicons: Vec<Lexicon>,
    /// entry id -> the entry record.
    pub entries: AList<LexicalEntry>,
    /// synset id -> the synset record.
    pub synsets: AList<Synset>,
    /// sense id -> the sense record.
    pub senses: AList<Sense>,
    /// sense id -> the id of the entry owning it.
    pub sense_entry: AList<String>,
    /// case-folded written form -> ids of the entries carrying it.
    pub lemma_index: AList<Vec<String>>,
    /// synset id -> (derived member sense ids, dropped member-token count).
    pub membership: AList<(Vec<String>, usize)>,
    /// every entry id once, in document order, for sampling and enumeration.
    pub all_entry_ids: Vec<String>,
}

impl IndexedLexicon {
    /// The entries of the loaded resource, in document order.
    pub open spec fn spec_entries(self) -> Seq<LexicalEntryV> {
        entry_views(views_of(self.lexicons@))
    }

    /// The synsets of the loaded resource, in document order.
    pub open spec fn spec_synsets(self) -> Seq<SynsetV> {
        synset_views(views_of(self.lexicons@))
    }

    /// The indices are exactly the cross-references derived from the loaded
    /// records: every map is characterized, key for key and value for value,
    /// by the record sequences.
    pub open spec fn wf(self) -> bool {
        let es = self.spec_entries();
        let ys = self.spec_synsets();
        &&& distinct_entry_ids(es)
        &&& distinct_synset_ids(ys)
        &&& sense_ids_unique(es)
        &&& self.entries.wf()
        &&& forall|k: Seq<char>| self.entries@.contains_key(k) ==> has_entry(es, k)
        &&& forall|i: int|
            0 <= i < es.len() ==> self.entries@.contains_key(#[trigger] es[i].id)
                && self.entries@[es[i].id]@ == es[i]
        &&& self.synsets.wf()
        &&& forall|k: Seq<char>| self.synsets@.contains_key(k) ==> has_synset(ys, k)
        &&& forall|i: int|
            0 <= i < ys.len() ==> self.synsets@.contains_key(#[trigger] ys[i].id)
                && self.synsets@[ys[i].id]@ == ys[i]
        &&& self.senses.wf()
        &&& forall|k: Seq<char>| self.senses@.contains_key(k) ==> has_sense(es, k)
        &&& self.sense_entry.wf()
        &&& forall|k: Seq<char>| self.sense_entry@.contains_key(k) ==> has_sense(es, k)
        &&& forall|i: int, j: int|
            sense_at(es, i, j) ==> {
                &&& self.senses@.contains_key((#[trigger] es[i].senses[j]).id)
                &&& self.senses@[es[i].senses[j].id]@ == es[i].senses[j]
                &&& self.sense_entry@.contains_key(es[i].senses[j].id)
                &&& self.sense_entry@[es[i].senses[j].id]@ == es[i].id
            }
        &&& self.lemma_index.wf()
        &&& forall|k: Seq<char>|
            #[trigger] self.lemma_index@.contains_key(k) ==> exists|i: int|
                0 <= i < es.len() && lower_of(#[trigger] es[i].lemma.written_form) == k
        &&& forall|i: int|
            0 <= i < es.len() ==> self.lemma_index@.contains_key(
                lower_of(#[trigger] es[i].lemma.written_form),
            )
        &&& forall|k: Seq<char>|
            #[trigger] self.lemma_index@.contains_key(k) ==> strs_view(self.lemma_index@[k]@)
                == ids_of(es.filter(|e: LexicalEntryV| lower_of(e.lemma.written_form) == k))
        &&& self.membership.wf()
        &&& forall|k: Seq<char>| self.membership@.contains_key(k) ==> has_synset(ys, k)
        &&& forall|i: int|
            0 <= i < ys.len() ==> {
                &&& self.membership@.contains_key(#[trigger] ys[i].id)
                &&& strs_view(self.membership@[ys[i].id].0@) == derived_membership(es, ys[i])
                &&& self.membership@[ys[i].id].1 == dropped_of(es, ys[i])
            }
        &&& strs_view(self.all_entry_ids@) == ids_of(es)
    }
}


/// Entries of a concatenation are the concatenation of the entries.
pub proof fn lemma_entry_views_concat(a: Seq<LexiconV>, b: Seq<LexiconV>)
    ensures
        entry_views(a + b) == entry_views(a) + entry_views(b),
    decreases b.len(),
{
    if b.len() == 0 {
        assert(a + b =~= a);
        assert(entry_views(a) + entry_views(b) =~= entry_views(a));
    } else {
        assert((a + b).drop_last() =~= a + b.drop_last());
        assert((a + b).last() == b.last());
        lemma_entry_views_concat(a, b.drop_last());
        assert(entry_views(a) + entry_views(b.drop_last()) + b.last().lexical_entries =~= entry_views(
            a,
        ) + entry_views(b));
    }
}

/// Synsets of a concatenation are the concatenation of the synsets.
pub proof fn lemma_synset_views_concat(a: Seq<LexiconV>, b: Seq<LexiconV>)
    ensures
        synset_views(a + b) == synset_views(a) + synset_views(b),
    decreases b.len(),
{
    if b.len() == 0 {
        assert(a + b =~= a);
        assert(synset_views(a) + synset_views(b) =~= synset_views(a));
    } else {
        assert((a + b).drop_last() =~= a + b.drop_last());
        assert((a + b).last() == b.last());
        lemma_synset_views_concat(a, b.drop_last());
        assert(synset_views(a) + synset_views(b.drop_last()) + b.last().synsets =~= synset_views(a)
            + synset_views(b));
    }
}

/// One step of `entry_views` along a prefix.
pub proof fn lemma_entry_views_step(lxs: Seq<LexiconV>, i: int)
    requires
        0 <= i < lxs.len(),
    ensures
        entry_views(lxs.take(i + 1)) == entry_views(lxs.take(i)) + lxs[i].lexical_entries,
{
    assert(lxs.take(i + 1).drop_last() =~= lxs.take(i));
    assert(lxs.take(i + 1).last() == lxs[i]);
}

/// One step of `synset_views` along a prefix.
pub proof fn lemma_synset_views_step(lxs: Seq<LexiconV>, i: int)
    requires
        0 <= i < lxs.len(),
    ensures
        synset_views(lxs.take(i + 1)) == synset_views(lxs.take(i)) + lxs[i].synsets,
{
    assert(lxs.take(i + 1).drop_last() =~= lxs.take(i));
    assert(lxs.take(i + 1).last() == lxs[i]);
}

/// Copies every lexical entry of every lexicon into one flat vector, in
/// document order.
fn collect_entries(lexicons: &Vec<Lexicon>) -> (r: Vec<LexicalEntry>)
    ensures
        views_of(r@) == entry_views(views_of(lexicons@)),
{
    let ghost lvs = views_of(lexicons@);
    let mut out: Vec<LexicalEntry> = Vec::new();
    proof {
        assert(views_of(out@) =~= entry_views(lvs.take(0)));
    }
    let mut li: usize = 0;
    while li < lexicons.len()
        invariant
            lvs == views_of(lexicons@),
            li <= lexicons.len(),
            lvs.len() == lexicons@.len(),
            views_of(out@) == entry_views(lvs.take(li as int)),
        decreases lexicons.len() - li,
    {
        let lex = &lexicons[li];
        let ghost evs = lvs[li as int].lexical_entries;
        proof {
            assert(lvs[li as int] == lexicons@[li as int]@);
            assert(evs == views_of(lex.lexical_entries@));
        }
        let mut ei: usize = 0;
        while ei < lex.lexical_entries.len()
            invariant
                lvs == views_of(lexicons@),
                li < lexicons.len(),
                lvs.len() == lexicons@.len(),
                *lex == lexicons@[li as int],
                evs == views_of(lex.lexical_entries@),
                ei <= lex.lexical_entries.len(),
                views_of(out@) == entry_views(lvs.take(li as int)) + evs.take(ei as int),
            decreases lex.lexical_entries.len() - ei,
        {
            let e = lex.lexical_entries[ei].duplicate();
            let ghost ev = e@;
            let ghost out0 = out@;
            out.push(e);
            proof {
                assert(views_of(out0.push(out@.last())) =~= views_of(out0).push(ev));
                assert(ev == evs[ei as int]);
                assert(evs.take(ei as int).push(evs[ei as int]) =~= evs.take(ei as int + 1));
                assert(views_of(out@) =~= entry_views(lvs.take(li as int)) + evs.take(
                    ei as int + 1,
                ));
            }
            ei = ei + 1;
        }
        proof {
            assert(evs.take(evs.len() as int) =~= evs);
            lemma_entry_views_step(lvs, li as int);
        }
        li = li + 1;
    }
    proof {
        assert(lvs.take(lvs.len() as int) =~= lvs);
    }
    out
}

/// Copies every synset of every lexicon into one flat vector, in document
/// order.
fn collect_synsets(lexicons: &Vec<Lexicon>) -> (r: Vec<Synset>)
    ensures
        views_of(r@) == synset_views(views_of(lexicons@)),
{
    let ghost lvs = views_of(lexicons@);
    let mut out: Vec<Synset> = Vec::new();
    proof {
        assert(views_of(out@) =~= synset_views(lvs.take(0)));
    }
    let mut li: usize = 0;
    while li < lexicons.len()
        invariant
            lvs == views_of(lexicons@),
            li <= lexicons.len(),
            lvs.len() == lexicons@.len(),
            views_of(out@) == synset_views(lvs.take(li as int)),
        decreases lexicons.len() - li,
    {
        let lex = &lexicons[li];
        let ghost yvs = lvs[li as int].synsets;
        proof {
            assert(lvs[li as int] == lexicons@[li as int]@);
            assert(yvs == views_of(lex.synsets@));
        }
        let mut yi: usize = 0;
        while yi < lex.synsets.len()
            invariant
                lvs == views_of(lexicons@),
                li < lexicons.len(),
                lvs.len() == lexicons@.len(),
                *lex == lexicons@[li as int],
                yvs == views_of(lex.synsets@),
                yi <= lex.synsets.len(),
                views_of(out@) == synset_views(lvs.take(li as int)) + yvs.take(yi as int),
            decreases lex.synsets.len() - yi,
        {
            let y = lex.synsets[yi].duplicate();
            let ghost yv = y@;
            let ghost out0 = out@;
            out.push(y);
            proof {
                assert(views_of(out0.push(out@.last())) =~= views_of(out0).push(yv));
                assert(yv == yvs[yi as int]);
                assert(yvs.take(yi as int).push(yvs[yi as int]) =~= yvs.take(yi as int + 1));
                assert(views_of(out@) =~= synset_views(lvs.take(li as int)) + yvs.take(
                    yi as int + 1,
                ));
            }
            yi = yi + 1;
        }
        proof {
            assert(yvs.take(yvs.len() as int) =~= yvs);
            lemma_synset_views_step(lvs, li as int);
        }
        li = li + 1;
    }
    proof {
        assert(lvs.take(lvs.len() as int) =~= lvs);
    }
    out
}


/// The entry map covers exactly the first `n` entries.
pub open spec fn entries_char_upto(
    m: Map<Seq<char>, LexicalEntry>,
    es: Seq<LexicalEntryV>,
    n: int,
) -> bool {
    &&& forall|k: Seq<char>|
        #[trigger] m.contains_key(k) ==> exists|j: int| 0 <= j < n && (#[trigger] es[j]).id == k
    &&& forall|j: int|
        0 <= j < n ==> m.contains_key((#[trigger] es[j]).id) && m[es[j].id]@ == es[j]
}

/// The first `n` entry ids are pairwise distinct.
pub open spec fn distinct_ids_upto(es: Seq<LexicalEntryV>, n: int) -> bool {
    forall|a: int, b: int| 0 <= a < b < n ==> (#[trigger] es[a]).id != (#[trigger] es[b]).id
}

/// The lemma index covers exactly the first `n` entries: each key is a
/// case-folded written form that occurs, and each value lists, in document
/// order, the ids of the entries whose folded form is the key.
pub open spec fn lemma_char_upto(
    m: Map<Seq<char>, Vec<String>>,
    es: Seq<LexicalEntryV>,
    n: int,
) -> bool {
    &&& forall|k: Seq<char>|
        #[trigger] m.contains_key(k) ==> exists|j: int|
            0 <= j < n && lower_of((#[trigger] es[j]).lemma.written_form) == k
    &&& forall|j: int|
        0 <= j < n ==> m.contains_key(lower_of((#[trigger] es[j]).lemma.written_form))
    &&& forall|k: Seq<char>|
        #[trigger] m.contains_key(k) ==> strs_view(m[k]@) == ids_of(
            es.take(n).filter(|e: LexicalEntryV| lower_of(e.lemma.written_form) == k),
        )
}

/// Whether (a, b) addresses a sense strictly before position (i, j) in the
/// entry-major order the builder walks.
pub open spec fn sense_before(es: Seq<LexicalEntryV>, i: int, j: int, a: int, b: int) -> bool {
    sense_at(es, a, b) && (a < i || (a == i && b < j))
}

/// The sense maps cover exactly the senses before position (i, j).
pub open spec fn senses_char_upto(
    sm: Map<Seq<char>, Sense>,
    om: Map<Seq<char>, String>,
    es: Seq<LexicalEntryV>,
    i: int,
    j: int,
) -> bool {
    &&& forall|k: Seq<char>|
        #[trigger] sm.contains_key(k) ==> exists|a: int, b: int|
            sense_before(es, i, j, a, b) && (#[trigger] es[a].senses[b]).id == k
    &&& forall|k: Seq<char>|
        #[trigger] om.contains_key(k) ==> exists|a: int, b: int|
            sense_before(es, i, j, a, b) && (#[trigger] es[a].senses[b]).id == k
    &&& forall|a: int, b: int|
        sense_before(es, i, j, a, b) ==> {
            &&& sm.contains_key((#[trigger] es[a].senses[b]).id)
            &&& sm[es[a].senses[b].id]@ == es[a].senses[b]
            &&& om.contains_key(es[a].senses[b].id)
            &&& om[es[a].senses[b].id]@ == es[a].id
        }
}

/// The sense ids before position (i, j) are pairwise distinct.
pub open spec fn sense_ids_unique_upto(es: Seq<LexicalEntryV>, i: int, j: int) -> bool {
    forall|a1: int, b1: int, a2: int, b2: int|
        sense_before(es, i, j, a1, b1) && sense_before(es, i, j, a2, b2) && (a1 != a2 || b1 != b2)
            ==> #[trigger] es[a1].senses[b1].id != #[trigger] es[a2].senses[b2].id
}

/// The indices derived from the entry records alone.
struct EntryIndexes {
    entries: AList<LexicalEntry>,
    senses: AList<Sense>,
    sense_entry: AList<String>,
    lemma_index: AList<Vec<String>>,
    all_entry_ids: Vec<String>,
}

/// Indexes a flat entry sequence: the record map, the case-folded lemma
/// index, the sense map with its inverse entry links, and the id roster.
/// Fails exactly when an entry id or a sense id repeats.
#[verifier::rlimit(50)]
fn index_entries(flat: &Vec<LexicalEntry>) -> (r: Result<EntryIndexes, OewnError>)
    ensures
        match r {
            Ok(x) => {
                &&& distinct_entry_ids(views_of(flat@))
                &&& sense_ids_unique(views_of(flat@))
                &&& x.entries.wf()
                &&& entries_char_upto(x.entries@, views_of(flat@), views_of(flat@).len() as int)
                &&& x.senses.wf()
                &&& x.sense_entry.wf()
                &&& senses_char_upto(
                    x.senses@,
                    x.sense_entry@,
                    views_of(flat@),
                    views_of(flat@).len() as int,
                    0,
                )
                &&& x.lemma_index.wf()
                &&& lemma_char_upto(
                    x.lemma_index@,
                    views_of(flat@),
                    views_of(flat@).len() as int,
                )
                &&& strs_view(x.all_entry_ids@) == ids_of(views_of(flat@))
            },
            Err(_) => !distinct_entry_ids(views_of(flat@)) || !sense_ids_unique(views_of(flat@)),
        },
{
    let ghost es = views_of(flat@);
    let n = flat.len();
    let mut entries: AList<LexicalEntry> = AList::new();
    let mut lemma_index: AList<Vec<String>> = AList::new();
    let mut all_entry_ids: Vec<String> = Vec::new();
    let mut i: usize = 0;
    while i < n
        invariant
            es == views_of(flat@),
            n == flat@.len(),
            es.len() == n,
            i <= n,
            distinct_ids_upto(es, i as int),
            entries.wf(),
            entries_char_upto(entries@, es, i as int),
            lemma_index.wf(),
            lemma_char_upto(lemma_index@, es, i as int),
            strs_view(all_entry_ids@) == ids_of(es).take(i as int),
        decreases n - i,
    {
        let e = &flat[i];
        let ghost ev = es[i as int];
        proof {
            assert(ev == flat@[i as int]@);
        }
        if entries.contains_key(e.id.as_str()) {
            proof {
                let j = choose|j: int| 0 <= j < i && (#[trigger] es[j]).id == ev.id;
                assert(es[j].id == es[i as int].id);
                assert(!distinct_entry_ids(es));
            }
            return Err(OewnError::InvalidArgument(e.id.clone()));
        }
        entries.set(e.id.clone(), e.duplicate());
        proof {
            assert(entries_char_upto(entries@, es, i as int + 1));
            assert(distinct_ids_upto(es, i as int + 1));
        }
        let ghost aeids0 = all_entry_ids@;
        all_entry_ids.push(e.id.clone());
        proof {
            assert(strs_view(aeids0.push(all_entry_ids@.last())) =~= strs_view(aeids0).push(ev.id));
            assert(ids_of(es)[i as int] == ev.id);
            assert(strs_view(all_entry_ids@) =~= ids_of(es).take(i as int + 1));
        }
        let folded = lowercase(e.lemma.written_form.as_str());
        let ghost f = folded@;
        let ghost lm0 = lemma_index@;
        proof {
            assert(f == lower_of(ev.lemma.written_form));
        }
        let ids: Vec<String> = match lemma_index.get(folded.as_str()) {
            Some(v) => {
                let mut c = dup_strings(v);
                c.push(e.id.clone());
                proof {
                    assert(strs_view(c@) =~= strs_view(lm0[f]@).push(ev.id));
                }
                c
            },
            None => {
                let mut c: Vec<String> = Vec::new();
                c.push(e.id.clone());
                proof {
                    assert(strs_view(c@) =~= Seq::<Seq<char>>::empty().push(ev.id));
                }
                c
            },
        };
        let ghost idsv = strs_view(ids@);
        lemma_index.set(folded, ids);
        proof {
            let pre1 = es.take(i as int + 1);
            assert(es.take(i as int).push(ev) =~= pre1);
            assert forall|k: Seq<char>| #[trigger] lemma_index@.contains_key(k) implies strs_view(
                lemma_index@[k]@,
            ) == ids_of(pre1.filter(|e2: LexicalEntryV| lower_of(e2.lemma.written_form) == k)) by {
                let pk = |e2: LexicalEntryV| lower_of(e2.lemma.written_form) == k;
                es.take(i as int).lemma_filter_push(ev, pk);
                if k == f {
                    if lm0.contains_key(f) {
                        assert(strs_view(lemma_index@[k]@) == strs_view(lm0[f]@).push(ev.id));
                        assert(ids_of(pre1.filter(pk)) =~= ids_of(
                            es.take(i as int).filter(pk),
                        ).push(ev.id));
                    } else {
                        assert forall|j: int| 0 <= j < es.take(i as int).len() implies !pk(
                            #[trigger] es.take(i as int)[j],
                        ) by {
                            assert(es.take(i as int)[j] == es[j]);
                            assert(lm0.contains_key(lower_of((#[trigger] es[j]).lemma.written_form)));
                        }
                        lemma_filter_empty(es.take(i as int), pk);
                        assert(ids_of(pre1.filter(pk)) =~= Seq::<Seq<char>>::empty().push(ev.id));
                        assert(strs_view(lemma_index@[k]@) == idsv);
                    }
                } else {
                    assert(pre1.filter(pk) == es.take(i as int).filter(pk));
                    assert(lemma_index@[k] == lm0[k]);
                }
            }
            assert(lemma_char_upto(lemma_index@, es, i as int + 1));
        }
        i = i + 1;
    }
    proof {
        assert(ids_of(es).take(n as int) =~= ids_of(es));
    }
    // Second pass: the sense map and its inverse entry links.
    let mut senses: AList<Sense> = AList::new();
    let mut sense_entry: AList<String> = AList::new();
    let mut i2: usize = 0;
    while i2 < n
        invariant
            es == views_of(flat@),
            n == flat@.len(),
            es.len() == n,
            i2 <= n,
            senses.wf(),
            sense_entry.wf(),
            senses_char_upto(senses@, sense_entry@, es, i2 as int, 0),
            sense_ids_unique_upto(es, i2 as int, 0),
        decreases n - i2,
    {
        let e = &flat[i2];
        let ghost ev = es[i2 as int];
        proof {
            assert(ev == flat@[i2 as int]@);
        }
        let mut j: usize = 0;
        while j < e.senses.len()
            invariant
                es == views_of(flat@),
                n == flat@.len(),
                es.len() == n,
                i2 < n,
                ev == es[i2 as int],
                *e == flat@[i2 as int],
                j <= e.senses.len(),
                ev.senses.len() == e.senses@.len(),
                senses.wf(),
                sense_entry.wf(),
                senses_char_upto(senses@, sense_entry@, es, i2 as int, j as int),
                sense_ids_unique_upto(es, i2 as int, j as int),
            decreases e.senses.len() - j,
        {
            let s = &e.senses[j];
            let ghost sv = ev.senses[j as int];
            proof {
                assert(sv == e.senses@[j as int]@);
            }
            if senses.contains_key(s.id.as_str()) {
                proof {
                    let (a, b) = choose|a: int, b: int|
                        sense_before(es, i2 as int, j as int, a, b) && (
                        #[trigger] es[a].senses[b]).id == sv.id;
                    assert(es[a].senses[b].id == es[i2 as int].senses[j as int].id);
                    assert(!sense_ids_unique(es));
                }
                return Err(OewnError::InvalidArgument(s.id.clone()));
            }
            senses.set(s.id.clone(), s.duplicate());
            sense_entry.set(s.id.clone(), e.id.clone());
            proof {
                assert forall|a1: int, b1: int, a2: int, b2: int|
                    sense_before(es, i2 as int, j as int + 1, a1, b1) && sense_before(
                        es,
                        i2 as int,
                        j as int + 1,
                        a2,
                        b2,
                    ) && (a1 != a2 || b1 != b2) implies #[trigger] es[a1].senses[b1].id
                    != #[trigger] es[a2].senses[b2].id by {
                    if a1 == i2 as int && b1 == j as int {
                        assert(sense_before(es, i2 as int, j as int, a2, b2));
                        assert(senses@.contains_key(es[a2].senses[b2].id) || es[a2].senses[b2].id
                            != sv.id);
                    } else if a2 == i2 as int && b2 == j as int {
                        assert(sense_before(es, i2 as int, j as int, a1, b1));
                    } else {
                        assert(sense_before(es, i2 as int, j as int, a1, b1));
                        assert(sense_before(es, i2 as int, j as int, a2, b2));
                    }
                }
                assert(senses_char_upto(senses@, sense_entry@, es, i2 as int, j as int + 1));
            }
            j = j + 1;
        }
        proof {
            assert forall|a: int, b: int|
                sense_before(es, i2 as int + 1, 0, a, b) implies sense_before(
                es,
                i2 as int,
                ev.senses.len() as int,
                a,
                b,
            ) by {}
            assert(senses_char_upto(senses@, sense_entry@, es, i2 as int + 1, 0));
            assert(sense_ids_unique_upto(es, i2 as int + 1, 0));
        }
        i2 = i2 + 1;
    }
    proof {
        assert forall|a1: int, b1: int, a2: int, b2: int|
            sense_at(es, a1, b1) && sense_at(es, a2, b2) && (a1 != a2 || b1 != b2)
                implies #[trigger] es[a1].senses[b1].id != #[trigger] es[a2].senses[b2].id by {
            assert(sense_before(es, n as int, 0, a1, b1));
            assert(sense_before(es, n as int, 0, a2, b2));
        }
    }
    Ok(EntryIndexes { entries, senses, sense_entry, lemma_index, all_entry_ids })
}


/// The synset map covers exactly the first `n` synsets.
pub open spec fn synsets_char_upto(m: Map<Seq<char>, Synset>, ys: Seq<SynsetV>, n: int) -> bool {
    &&& forall|k: Seq<char>|
        #[trigger] m.contains_key(k) ==> exists|j: int| 0 <= j < n && (#[trigger] ys[j]).id == k
    &&& forall|j: int|
        0 <= j < n ==> m.contains_key((#[trigger] ys[j]).id) && m[ys[j].id]@ == ys[j]
}

/// The first `n` synset ids are pairwise distinct.
pub open spec fn distinct_syn_ids_upto(ys: Seq<SynsetV>, n: int) -> bool {
    forall|a: int, b: int| 0 <= a < b < n ==> (#[trigger] ys[a]).id != (#[trigger] ys[b]).id
}

/// Indexes a flat synset sequence by id.  Fails exactly when a synset id
/// repeats.
fn index_synsets(flat: &Vec<Synset>) -> (r: Result<AList<Synset>, OewnError>)
    ensures
        match r {
            Ok(m) => {
                &&& distinct_synset_ids(views_of(flat@))
                &&& m.wf()
                &&& synsets_char_upto(m@, views_of(flat@), views_of(flat@).len() as int)
            },
            Err(_) => !distinct_synset_ids(views_of(flat@)),
        },
{
    let ghost ys = views_of(flat@);
    let n = flat.len();
    let mut synsets: AList<Synset> = AList::new();
    let mut i: usize = 0;
    while i < n
        invariant
            ys == views_of(flat@),
            n == flat@.len(),
            ys.len() == n,
            i <= n,
            distinct_syn_ids_upto(ys, i as int),
            synsets.wf(),
            synsets_char_upto(synsets@, ys, i as int),
        decreases n - i,
    {
        let y = &flat[i];
        let ghost yv = ys[i as int];
        proof {
            assert(yv == flat@[i as int]@);
        }
        if synsets.contains_key(y.id.as_str()) {
            proof {
                let j = choose|j: int| 0 <= j < i && (#[trigger] ys[j]).id == yv.id;
                assert(ys[j].id == ys[i as int].id);
                assert(!distinct_synset_ids(ys));
            }
            return Err(OewnError::InvalidArgument(y.id.clone()));
        }
        synsets.set(y.id.clone(), y.duplicate());
        proof {
            assert(synsets_char_upto(synsets@, ys, i as int + 1));
            assert(distinct_syn_ids_upto(ys, i as int + 1));
        }
        i = i + 1;
    }
    Ok(synsets)
}

/// Derives one synset's membership: walks its `members` tokens, keeps for
/// each listed entry exactly the senses targeting this synset, and counts
/// the tokens that contribute nothing.
fn derive_membership(
    entries: &AList<LexicalEntry>,
    y: &Synset,
    Ghost(es): Ghost<Seq<LexicalEntryV>>,
) -> (r: (Vec<String>, usize))
    requires
        entries.wf(),
        entries_char_upto(entries@, es, es.len() as int),
        distinct_entry_ids(es),
    ensures
        strs_view(r.0@) == derived_membership(es, y@),
        r.1 == dropped_of(es, y@),
{
    let ghost yid = y@.id;
    let toks = parse_members(y.members.as_str());
    let ghost tv = strs_view(toks@);
    proof {
        assert(tv == spec_split_ws(y@.members));
        assert(tv.take(0).map_values(|t: Seq<char>| member_contrib(es, t, yid)) =~= Seq::<
            Seq<Seq<char>>,
        >::empty());
        assert(Seq::<Seq<Seq<char>>>::empty().flatten() =~= Seq::<Seq<char>>::empty());
        assert(strs_view(Seq::<String>::empty()) =~= Seq::<Seq<char>>::empty());
    }
    let mut mem: Vec<String> = Vec::new();
    let mut cnt: usize = 0;
    let nt = toks.len();
    let mut ti: usize = 0;
    while ti < nt
        invariant
            tv == strs_view(toks@),
            tv == spec_split_ws(y@.members),
            nt == toks@.len(),
            tv.len() == nt,
            ti <= nt,
            entries.wf(),
            entries_char_upto(entries@, es, es.len() as int),
            distinct_entry_ids(es),
            yid == y@.id,
            strs_view(mem@) == tv.take(ti as int).map_values(
                |t: Seq<char>| member_contrib(es, t, yid),
            ).flatten(),
            cnt == tv.take(ti as int).filter(
                |t: Seq<char>| member_contrib(es, t, yid).len() == 0,
            ).len(),
            cnt <= ti,
        decreases nt - ti,
    {
        let tok = &toks[ti];
        let ghost tkv = tv[ti as int];
        proof {
            assert(tkv == toks@[ti as int]@);
        }
        let mut gathered: Vec<String> = Vec::new();
        proof {
            assert(strs_view(gathered@) =~= Seq::<Seq<char>>::empty());
        }
        match entries.get(tok.as_str()) {
            Some(e) => {
                let ghost evv = e@;
                proof {
                    let j = choose|j: int| 0 <= j < es.len() && (#[trigger] es[j]).id == tkv;
                    assert(entries@[es[j].id]@ == es[j]);
                    assert(evv == es[j]);
                    let j2 = choose|i: int| 0 <= i < es.len() && es[i].id == tkv;
                    assert(es[j2].id == tkv && es[j].id == tkv);
                    assert(evv == entry_with_id(es, tkv));
                    assert(has_entry(es, tkv));
                    assert(evv.senses.take(0).filter(|s: SenseV| s.synset == yid) =~= Seq::<
                        SenseV,
                    >::empty());
                    assert(Seq::<SenseV>::empty().map_values(|s: SenseV| s.id) =~= Seq::<
                        Seq<char>,
                    >::empty());
                }
                let ns = e.senses.len();
                let mut sj: usize = 0;
                while sj < ns
                    invariant
                        evv == e@,
                        ns == e.senses@.len(),
                        evv.senses.len() == ns,
                        sj <= ns,
                        yid == y@.id,
                        strs_view(gathered@) == evv.senses.take(sj as int).filter(
                            |s: SenseV| s.synset == yid,
                        ).map_values(|s: SenseV| s.id),
                    decreases ns - sj,
                {
                    let ghost svv = evv.senses[sj as int];
                    let ghost c0 = gathered@;
                    proof {
                        assert(svv == e.senses@[sj as int]@);
                        evv.senses.take(sj as int).lemma_filter_push(
                            svv,
                            |s: SenseV| s.synset == yid,
                        );
                        assert(evv.senses.take(sj as int).push(svv) =~= evv.senses.take(
                            sj as int + 1,
                        ));
                    }
                    if e.senses[sj].synset == y.id {
                        gathered.push(e.senses[sj].id.clone());
                        proof {
                            assert(strs_view(c0.push(gathered@.last())) =~= strs_view(c0).push(
                                svv.id,
                            ));
                            assert(strs_view(gathered@) =~= evv.senses.take(sj as int + 1).filter(
                                |s: SenseV| s.synset == yid,
                            ).map_values(|s: SenseV| s.id));
                        }
                    } else {
                        proof {
                            assert(strs_view(gathered@) =~= evv.senses.take(sj as int + 1).filter(
                                |s: SenseV| s.synset == yid,
                            ).map_values(|s: SenseV| s.id));
                        }
                    }
                    sj = sj + 1;
                }
                proof {
                    assert(evv.senses.take(ns as int) =~= evv.senses);
                    assert(strs_view(gathered@) == member_contrib(es, tkv, yid));
                }
            },
            None => {
                proof {
                    if has_entry(es, tkv) {
                        let j = choose|i: int| 0 <= i < es.len() && (#[trigger] es[i]).id == tkv;
                        assert(entries@.contains_key(es[j].id));
                    }
                    assert(!has_entry(es, tkv));
                    assert(strs_view(gathered@) == member_contrib(es, tkv, yid));
                }
            },
        }
        let ghost mem0 = mem@;
        let token_empty = gathered.len() == 0;
        proof {
            assert(strs_view(gathered@).len() == gathered@.len());
            assert(token_empty == (member_contrib(es, tkv, yid).len() == 0));
        }
        mem.append(&mut gathered);
        if token_empty {
            cnt = cnt + 1;
        }
        proof {
            let cf = |t: Seq<char>| member_contrib(es, t, yid);
            let pe = |t: Seq<char>| member_contrib(es, t, yid).len() == 0;
            assert(tv.take(ti as int).push(tkv) =~= tv.take(ti as int + 1));
            assert(tv.take(ti as int).map_values(cf).push(cf(tkv)) =~= tv.take(
                ti as int + 1,
            ).map_values(cf));
            tv.take(ti as int).map_values(cf).lemma_flatten_push(cf(tkv));
            assert(strs_view(mem@) =~= strs_view(mem0) + member_contrib(es, tkv, yid));
            assert(strs_view(mem@) == tv.take(ti as int + 1).map_values(cf).flatten());
            tv.take(ti as int).lemma_filter_push(tkv, pe);
        }
        ti = ti + 1;
    }
    proof {
        assert(tv.take(nt as int) =~= tv);
    }
    (mem, cnt)
}


/// Builds the full index set over a parsed resource.
///
/// Succeeds exactly when entry, synset and sense ids are globally unique;
/// on success the returned structure satisfies [`IndexedLexicon::wf`] and
/// carries an exact copy of the source records.
pub fn build(resource: &LexicalResource) -> (r: Result<IndexedLexicon, OewnError>)
    ensures
        match r {
            Ok(w) => {
                &&& w.wf()
                &&& views_of(w.lexicons@) == views_of(resource.lexicons@)
                &&& ids_unique(views_of(resource.lexicons@))
            },
            Err(_) => !ids_unique(views_of(resource.lexicons@)),
        },
{
    let ghost lvs = views_of(resource.lexicons@);
    let lexicons = dup_vec(&resource.lexicons);
    let flat_entries = collect_entries(&lexicons);
    let flat_synsets = collect_synsets(&lexicons);
    let ghost es = views_of(flat_entries@);
    let ghost ys = views_of(flat_synsets@);
    proof {
        assert(es == entry_views(lvs));
        assert(ys == synset_views(lvs));
    }
    let ix = match index_entries(&flat_entries) {
        Ok(ix) => ix,
        Err(e) => {
            return Err(e);
        },
    };
    let synsets = match index_synsets(&flat_synsets) {
        Ok(m) => m,
        Err(e) => {
            return Err(e);
        },
    };
    let EntryIndexes { entries, senses, sense_entry, lemma_index, all_entry_ids } = ix;
    let mut membership: AList<(Vec<String>, usize)> = AList::new();
    let ny = flat_synsets.len();
    let mut yi: usize = 0;
    while yi < ny
        invariant
            ys == views_of(flat_synsets@),
            es == views_of(flat_entries@),
            ny == flat_synsets@.len(),
            ys.len() == ny,
            yi <= ny,
            distinct_synset_ids(ys),
            distinct_entry_ids(es),
            entries.wf(),
            entries_char_upto(entries@, es, es.len() as int),
            membership.wf(),
            forall|k: Seq<char>|
                #[trigger] membership@.contains_key(k) ==> exists|j: int|
                    0 <= j < yi && (#[trigger] ys[j]).id == k,
            forall|j: int|
                0 <= j < yi ==> {
                    &&& membership@.contains_key((#[trigger] ys[j]).id)
                    &&& strs_view(membership@[ys[j].id].0@) == derived_membership(es, ys[j])
                    &&& membership@[ys[j].id].1 == dropped_of(es, ys[j])
                },
        decreases ny - yi,
    {
        let y = &flat_synsets[yi];
        let ghost yv = ys[yi as int];
        proof {
            assert(yv == flat_synsets@[yi as int]@);
            if membership@.contains_key(yv.id) {
                let j = choose|j: int| 0 <= j < yi && (#[trigger] ys[j]).id == yv.id;
                assert(ys[j].id == ys[yi as int].id);
                assert(false);
            }
        }
        let derived = derive_membership(&entries, y, Ghost(es));
        membership.set(y.id.clone(), derived);
        yi = yi + 1;
    }
    let w = IndexedLexicon {
        lexicons,
        entries,
        synsets,
        senses,
        sense_entry,
        lemma_index,
        membership,
        all_entry_ids,
    };
    proof {
        assert(views_of(w.lexicons@) == lvs);
        assert(w.spec_entries() == es);
        assert(w.spec_synsets() == ys);
        assert(es.take(es.len() as int) =~= es);
        assert(ids_of(es).take(es.len() as int) =~= ids_of(es));
        assert forall|k: Seq<char>| #[trigger] w.lemma_index@.contains_key(k) implies strs_view(
            w.lemma_index@[k]@,
        ) == ids_of(es.filter(|e: LexicalEntryV| lower_of(e.lemma.written_form) == k)) by {
            assert(strs_view(w.lemma_index@[k]@) == ids_of(
                es.take(es.len() as int).filter(
                    |e: LexicalEntryV| lower_of(e.lemma.written_form) == k,
                ),
            ));
        }
        assert(w.wf());
    }
    Ok(w)
}

} // verus!
