//! The query engine: pure reads over the immutable indices.
//!
//! Every operation is specified exactly against the loaded records: what
//! entries a lemma resolves to, which sense belongs to which entry and
//! synset, and which records a relation edge reaches.  A missing id is an
//! explicit not-found result, never a silent default.
//!
//! Returned records are exact copies of the loaded ones: a source document
//! that lists a pronunciation or a relation edge twice gets it back twice
//! inside the record, by design.  The traversal queries, by contrast,
//! return each reachable target once, however many edges lead to it.

use vstd::prelude::*;

use crate::error::OewnError;
use crate::index::IndexedLexicon;
use crate::index::entry_with_id;
use crate::index::has_entry;
use crate::index::has_sense;
use crate::index::has_synset;
use crate::index::lower_of;
use crate::index::lowercase;
use crate::index::owner_of;
use crate::index::sense_at;
use crate::index::sense_rec;
use crate::index::synset_with_id;
use crate::index::derived_membership;
use crate::index::ids_of;
use crate::models::Dup;
use crate::models::LexicalEntry;
use crate::models::LexicalEntryV;
use crate::models::PartOfSpeech;
use crate::models::Sense;
use crate::models::SenseV;
use crate::models::Synset;
use crate::models::dup_vec;
use crate::models::views_of;

verus! {

pub assume_specification<T>[ rand::random::<T> ]() -> (r: T)
    where
        rand::distributions::Standard: rand::distributions::Distribution<T>,
;

/// Whether an entry passes an optional part-of-speech filter.
pub open spec fn pos_matches(e: LexicalEntryV, pos_filter: Option<PartOfSpeech>) -> bool {
    match pos_filter {
        None => true,
        Some(p) => e.lemma.part_of_speech == p,
    }
}

/// The entries a lookup returns: those whose case-folded written form is the
/// case-folded query, restricted to the optional part-of-speech filter, in
/// document order.
pub open spec fn lookup_pred(
    lemma: Seq<char>,
    pos_filter: Option<PartOfSpeech>,
) -> spec_fn(LexicalEntryV) -> bool {
    |e: LexicalEntryV|
        lower_of(e.lemma.written_form) == lower_of(lemma) && pos_matches(e, pos_filter)
}

pub open spec fn lookup_result(
    es: Seq<LexicalEntryV>,
    lemma: Seq<char>,
    pos_filter: Option<PartOfSpeech>,
) -> Seq<LexicalEntryV> {
    es.filter(lookup_pred(lemma, pos_filter))
}

/// Filtering by two predicates in turn filters by their conjunction.
proof fn lemma_filter_and<A>(
    s: Seq<A>,
    p: spec_fn(A) -> bool,
    q: spec_fn(A) -> bool,
    pq: spec_fn(A) -> bool,
)
    requires
        forall|x: A| #[trigger] pq(x) == (p(x) && q(x)),
    ensures
        s.filter(p).filter(q) == s.filter(pq),
    decreases s.len(),
{
    reveal(Seq::filter);
    if s.len() > 0 {
        let s1 = s.drop_last();
        let x = s.last();
        lemma_filter_and(s1, p, q, pq);
        if p(x) {
            assert(s.filter(p) == s1.filter(p).push(x));
            s1.filter(p).lemma_filter_push(x, q);
        }
        assert(s.filter(p).filter(q) =~= s.filter(pq));
    } else {
        assert(s.filter(p).filter(q) =~= s.filter(pq));
    }
}

/// Every element of a filtered sequence comes from the original.
pub proof fn lemma_filter_origin<A>(s: Seq<A>, p: spec_fn(A) -> bool, q: int)
    requires
        0 <= q < s.filter(p).len(),
    ensures
        exists|i: int| 0 <= i < s.len() && s[i] == s.filter(p)[q],
    decreases s.len(),
{
    reveal(Seq::filter);
    if s.len() > 0 {
        if p(s.last()) && q == s.filter(p).len() - 1 {
            assert(s[s.len() - 1] == s.filter(p)[q]);
        } else {
            lemma_filter_origin(s.drop_last(), p, q);
            let i = choose|i: int|
                0 <= i < s.drop_last().len() && s.drop_last()[i] == s.drop_last().filter(p)[q];
            assert(s[i] == s.filter(p)[q]);
        }
    }
}

/// Filtering a sequence none of whose elements match gives nothing.
proof fn lemma_filter_none<A>(s: Seq<A>, p: spec_fn(A) -> bool)
    requires
        forall|i: int| 0 <= i < s.len() ==> !p(#[trigger] s[i]),
    ensures
        s.filter(p) == Seq::<A>::empty(),
    decreases s.len(),
{
    reveal(Seq::filter);
    if s.len() > 0 {
        assert(forall|i: int| 0 <= i < s.drop_last().len() ==> !p(#[trigger] s.drop_last()[i]));
        lemma_filter_none(s.drop_last(), p);
    }
}

impl IndexedLexicon {
    /// Retrieves a synset by id; a missing id is an explicit not-found
    /// error.
    pub fn get_synset(&self, id: &str) -> (r: Result<Synset, OewnError>)
        requires
            self.wf(),
        ensures
            match r {
                Ok(y) => has_synset(self.spec_synsets(), id@) && y@ == synset_with_id(
                    self.spec_synsets(),
                    id@,
                ),
                Err(e) => !has_synset(self.spec_synsets(), id@) && (e matches
                    OewnError::SynsetNotFound(s) && s@ == id@),
            },
    {
        let ghost ys = self.spec_synsets();
        match self.synsets.get(id) {
            Some(y) => {
                proof {
                    assert(self.synsets@.contains_key(id@));
                    assert(has_synset(ys, id@));
                    let j = choose|j: int| 0 <= j < ys.len() && ys[j].id == id@;
                    assert(self.synsets@[ys[j].id]@ == ys[j]);
                    let j2 = choose|i: int| 0 <= i < ys.len() && ys[i].id == id@;
                    assert(ys[j2].id == id@ && ys[j].id == id@);
                }
                Ok(y.duplicate())
            },
            None => {
                proof {
                    if has_synset(ys, id@) {
                        let j = choose|i: int| 0 <= i < ys.len() && ys[i].id == id@;
                        assert(self.synsets@.contains_key(ys[j].id));
                    }
                }
                Err(OewnError::SynsetNotFound(id.to_owned()))
            },
        }
    }

    /// Retrieves a sense by id; a missing id is an explicit not-found error.
    pub fn get_sense(&self, id: &str) -> (r: Result<Sense, OewnError>)
        requires
            self.wf(),
        ensures
            match r {
                Ok(s) => has_sense(self.spec_entries(), id@) && s@ == sense_rec(
                    self.spec_entries(),
                    id@,
                ),
                Err(e) => !has_sense(self.spec_entries(), id@) && (e matches
                    OewnError::SenseNotFound(s) && s@ == id@),
            },
    {
        let ghost es = self.spec_entries();
        match self.senses.get(id) {
            Some(s) => {
                proof {
                    assert(self.senses@.contains_key(id@));
                    assert(has_sense(es, id@));
                    let (a, b) = choose|a: int, b: int|
                        sense_at(es, a, b) && (#[trigger] es[a].senses[b]).id == id@;
                    assert(self.senses@[es[a].senses[b].id]@ == es[a].senses[b]);
                    let (a2, b2) = choose|a2: int, b2: int|
                        sense_at(es, a2, b2) && (#[trigger] es[a2].senses[b2]).id == id@;
                    assert(es[a2].senses[b2].id == id@ && es[a].senses[b].id == id@);
                }
                Ok(s.duplicate())
            },
            None => {
                proof {
                    if has_sense(es, id@) {
                        let (a, b) = choose|a: int, b: int|
                            sense_at(es, a, b) && (#[trigger] es[a].senses[b]).id == id@;
                        assert(self.senses@.contains_key(es[a].senses[b].id));
                    }
                }
                Err(OewnError::SenseNotFound(id.to_owned()))
            },
        }
    }

    /// Retrieves an entry by id, or nothing when the id names no entry.
    pub fn get_entry_by_id(&self, entry_id: &str) -> (r: Result<
        Option<LexicalEntry>,
        OewnError,
    >)
        requires
            self.wf(),
        ensures
            match r {
                Ok(o) => match o {
                    Some(e) => has_entry(self.spec_entries(), entry_id@) && e@ == entry_with_id(
                        self.spec_entries(),
                        entry_id@,
                    ),
                    None => !has_entry(self.spec_entries(), entry_id@),
                },
                Err(_) => false,
            },
    {
        let ghost es = self.spec_entries();
        match self.entries.get(entry_id) {
            Some(e) => {
                proof {
                    assert(self.entries@.contains_key(entry_id@));
                    assert(has_entry(es, entry_id@));
                    let j = choose|j: int| 0 <= j < es.len() && es[j].id == entry_id@;
                    assert(self.entries@[es[j].id]@ == es[j]);
                    let j2 = choose|i: int| 0 <= i < es.len() && es[i].id == entry_id@;
                    assert(es[j2].id == entry_id@ && es[j].id == entry_id@);
                }
                Ok(Some(e.duplicate()))
            },
            None => {
                proof {
                    if has_entry(es, entry_id@) {
                        let j = choose|i: int| 0 <= i < es.len() && es[i].id == entry_id@;
                        assert(self.entries@.contains_key(es[j].id));
                    }
                }
                Ok(None)
            },
        }
    }

    /// Retrieves the id of the entry owning a sense, or nothing when the
    /// sense id is unknown.
    pub fn get_entry_id_for_sense(&self, sense_id: &str) -> (r: Result<Option<String>, OewnError>)
        requires
            self.wf(),
        ensures
            match r {
                Ok(o) => match o {
                    Some(eid) => has_sense(self.spec_entries(), sense_id@) && eid@ == owner_of(
                        self.spec_entries(),
                        sense_id@,
                    ),
                    None => !has_sense(self.spec_entries(), sense_id@),
                },
                Err(_) => false,
            },
    {
        let ghost es = self.spec_entries();
        match self.sense_entry.get(sense_id) {
            Some(eid) => {
                proof {
                    assert(self.sense_entry@.contains_key(sense_id@));
                    assert(has_sense(es, sense_id@));
                    let (a, b) = choose|a: int, b: int|
                        sense_at(es, a, b) && (#[trigger] es[a].senses[b]).id == sense_id@;
                    assert(self.sense_entry@[es[a].senses[b].id]@ == es[a].id);
                    let a2 = choose|i: int|
                        0 <= i < es.len() && crate::index::entry_owns(#[trigger] es[i], sense_id@);
                    let b2 = choose|j: int|
                        0 <= j < es[a2].senses.len() && es[a2].senses[j].id == sense_id@;
                    assert(sense_at(es, a2, b2) && es[a2].senses[b2].id == sense_id@);
                    assert(a == a2 && b == b2);
                    assert(owner_of(es, sense_id@) == es[a2].id);
                }
                Ok(Some(eid.clone()))
            },
            None => {
                proof {
                    if has_sense(es, sense_id@) {
                        let (a, b) = choose|a: int, b: int|
                            sense_at(es, a, b) && (#[trigger] es[a].senses[b]).id == sense_id@;
                        assert(self.sense_entry@.contains_key(es[a].senses[b].id));
                    }
                }
                Ok(None)
            },
        }
    }

    /// Retrieves the senses an entry owns, in the order the entry lists
    /// them; an unknown entry id yields an empty result.
    pub fn get_senses_for_entry(&self, entry_id: &str) -> (r: Result<Vec<Sense>, OewnError>)
        requires
            self.wf(),
        ensures
            match r {
                Ok(v) => if has_entry(self.spec_entries(), entry_id@) {
                    views_of(v@) == entry_with_id(self.spec_entries(), entry_id@).senses
                } else {
                    v@.len() == 0
                },
                Err(_) => false,
            },
    {
        let ghost es = self.spec_entries();
        match self.entries.get(entry_id) {
            Some(e) => {
                proof {
                    assert(self.entries@.contains_key(entry_id@));
                    assert(has_entry(es, entry_id@));
                    let j = choose|j: int| 0 <= j < es.len() && es[j].id == entry_id@;
                    assert(self.entries@[es[j].id]@ == es[j]);
                    let j2 = choose|i: int| 0 <= i < es.len() && es[i].id == entry_id@;
                    assert(es[j] == es[j2]);
                }
                Ok(dup_vec(&e.senses))
            },
            None => {
                proof {
                    if has_entry(es, entry_id@) {
                        let j = choose|i: int| 0 <= i < es.len() && es[i].id == entry_id@;
                        assert(self.entries@.contains_key(es[j].id));
                    }
                }
                Ok(Vec::new())
            },
        }
    }

    /// Retrieves every entry, in document order.  A full scan, intended for
    /// batch and export use.
    pub fn all_entries(&self) -> (r: Result<Vec<LexicalEntry>, OewnError>)
        requires
            self.wf(),
        ensures
            match r {
                Ok(v) => views_of(v@) == self.spec_entries(),
                Err(_) => false,
            },
    {
        let ghost es = self.spec_entries();
        let mut out: Vec<LexicalEntry> = Vec::new();
        proof {
            assert(views_of(out@) =~= es.take(0));
            assert(crate::models::strs_view(self.all_entry_ids@).len()
                == self.all_entry_ids@.len());
            assert(ids_of(es).len() == es.len());
        }
        let n = self.all_entry_ids.len();
        let mut i: usize = 0;
        while i < n
            invariant
                self.wf(),
                es == self.spec_entries(),
                n == self.all_entry_ids@.len(),
                es.len() == n,
                i <= n,
                views_of(out@) == es.take(i as int),
            decreases n - i,
        {
            let id = &self.all_entry_ids[i];
            proof {
                assert(crate::models::strs_view(self.all_entry_ids@)[i as int] == ids_of(
                    es,
                )[i as int]);
                assert(id@ == es[i as int].id);
            }
            match self.entries.get(id.as_str()) {
                Some(e) => {
                    let ghost out0 = out@;
                    proof {
                        assert(self.entries@.contains_key(id@));
                        assert(has_entry(es, id@));
                        let j = choose|j: int| 0 <= j < es.len() && es[j].id == id@;
                        assert(self.entries@[es[j].id]@ == es[j]);
                        assert(es[j] == es[i as int]);
                    }
                    out.push(e.duplicate());
                    proof {
                        assert(views_of(out0.push(out@.last())) =~= views_of(out0).push(
                            es[i as int],
                        ));
                        assert(views_of(out@) =~= es.take(i as int + 1));
                    }
                },
                None => {
                    proof {
                        assert(self.entries@.contains_key(es[i as int].id));
                        assert(false);
                    }
                },
            }
            i = i + 1;
        }
        proof {
            assert(es.take(n as int) =~= es);
        }
        Ok(out)
    }

    /// Retrieves one entry chosen from the whole entry population; fails
    /// only when the dataset is empty.
    pub fn get_random_entry(&self) -> (r: Result<LexicalEntry, OewnError>)
        requires
            self.wf(),
        ensures
            match r {
                Ok(e) => self.spec_entries().len() > 0 && exists|i: int|
                    0 <= i < self.spec_entries().len() && e@ == self.spec_entries()[i],
                Err(_) => self.spec_entries().len() == 0,
            },
    {
        let ghost es = self.spec_entries();
        proof {
            assert(crate::models::strs_view(self.all_entry_ids@).len()
                == self.all_entry_ids@.len());
            assert(ids_of(es).len() == es.len());
        }
        let n = self.all_entry_ids.len();
        if n == 0 {
            return Err(OewnError::Internal("no entries are loaded".to_owned()));
        }
        let raw: u64 = rand::random::<u64>();
        let idx: usize = (raw % (n as u64)) as usize;
        proof {
            assert(idx < n);
        }
        let id = &self.all_entry_ids[idx];
        proof {
            assert(crate::models::strs_view(self.all_entry_ids@)[idx as int] == ids_of(
                es,
            )[idx as int]);
            assert(id@ == es[idx as int].id);
        }
        match self.entries.get(id.as_str()) {
            Some(e) => {
                proof {
                    assert(self.entries@.contains_key(id@));
                    assert(has_entry(es, id@));
                    let j = choose|j: int| 0 <= j < es.len() && es[j].id == id@;
                    assert(self.entries@[es[j].id]@ == es[j]);
                    assert(es[j] == es[idx as int]);
                }
                Ok(e.duplicate())
            },
            None => {
                proof {
                    assert(self.entries@.contains_key(es[idx as int].id));
                    assert(false);
                }
                Err(OewnError::Internal("entry roster out of step".to_owned()))
            },
        }
    }

    /// Looks up entries by written form, case-folded, optionally filtered by
    /// part of speech; an empty result is not an error.
    pub fn lookup_entries(&self, lemma: &str, pos_filter: Option<PartOfSpeech>) -> (r: Result<
        Vec<LexicalEntry>,
        OewnError,
    >)
        requires
            self.wf(),
        ensures
            match r {
                Ok(v) => views_of(v@) == lookup_result(self.spec_entries(), lemma@, pos_filter),
                Err(_) => false,
            },
    {
        let ghost es = self.spec_entries();
        let ghost f = lower_of(lemma@);
        let ghost fp = |e: LexicalEntryV| lower_of(e.lemma.written_form) == f;
        let ghost pp = |e: LexicalEntryV| pos_matches(e, pos_filter);
        proof {
            lemma_filter_and(es, fp, pp, lookup_pred(lemma@, pos_filter));
            assert(es.filter(fp).filter(pp) == lookup_result(es, lemma@, pos_filter));
        }
        let folded = lowercase(lemma);
        let mut out: Vec<LexicalEntry> = Vec::new();
        match self.lemma_index.get(folded.as_str()) {
            Some(ids) => {
                let ghost fseq = es.filter(fp);
                proof {
                    assert(crate::models::strs_view(ids@) == ids_of(fseq));
                    assert(views_of(out@) =~= fseq.take(0).filter(pp));
                }
                let n = ids.len();
                let mut q: usize = 0;
                while q < n
                    invariant
                        self.wf(),
                        es == self.spec_entries(),
                        fseq == es.filter(fp),
                        crate::models::strs_view(ids@) == ids_of(fseq),
                        n == ids@.len(),
                        fseq.len() == n,
                        q <= n,
                        pp == (|e: LexicalEntryV| pos_matches(e, pos_filter)),
                        views_of(out@) == fseq.take(q as int).filter(pp),
                    decreases n - q,
                {
                    let id = &ids[q];
                    proof {
                        assert(crate::models::strs_view(ids@)[q as int] == ids_of(fseq)[q as int]);
                        assert(id@ == fseq[q as int].id);
                        lemma_filter_origin(es, fp, q as int);
                        let i0 = choose|i: int| 0 <= i < es.len() && es[i] == fseq[q as int];
                        assert(has_entry(es, id@));
                        fseq.take(q as int).lemma_filter_push(fseq[q as int], pp);
                        assert(fseq.take(q as int).push(fseq[q as int]) =~= fseq.take(q as int + 1));
                    }
                    match self.entries.get(id.as_str()) {
                        Some(e) => {
                            proof {
                                let j = choose|j: int|
                                    0 <= j < es.len() && (#[trigger] es[j]).id == id@;
                                assert(self.entries@[es[j].id]@ == es[j]);
                                let i0 = choose|i: int|
                                    0 <= i < es.len() && es[i] == fseq[q as int];
                                assert(es[i0].id == id@ && es[j].id == id@);
                                assert(e@ == fseq[q as int]);
                            }
                            let keep = match pos_filter {
                                None => true,
                                Some(p) => {
                                    let ep = e.lemma.part_of_speech;
                                    ep == p
                                },
                            };
                            if keep {
                                let ghost out0 = out@;
                                out.push(e.duplicate());
                                proof {
                                    assert(views_of(out0.push(out@.last())) =~= views_of(
                                        out0,
                                    ).push(fseq[q as int]));
                                    assert(views_of(out@) =~= fseq.take(q as int + 1).filter(pp));
                                }
                            } else {
                                proof {
                                    assert(!pp(fseq[q as int]));
                                    assert(views_of(out@) =~= fseq.take(q as int + 1).filter(pp));
                                }
                            }
                        },
                        None => {
                            proof {
                                let i0 = choose|i: int|
                                    0 <= i < es.len() && es[i] == fseq[q as int];
                                assert(self.entries@.contains_key(es[i0].id));
                                assert(false);
                            }
                        },
                    }
                    q = q + 1;
                }
                proof {
                    assert(fseq.take(n as int) =~= fseq);
                }
                Ok(out)
            },
            None => {
                proof {
                    assert forall|i: int| 0 <= i < es.len() implies !fp(#[trigger] es[i]) by {
                        assert(self.lemma_index@.contains_key(
                            lower_of((#[trigger] es[i]).lemma.written_form),
                        ));
                    }
                    lemma_filter_none(es, fp);
                    assert(es.filter(fp).filter(pp) =~= Seq::<LexicalEntryV>::empty());
                    assert(views_of(out@) =~= Seq::<LexicalEntryV>::empty());
                }
                Ok(out)
            },
        }
    }
}


/// The membership senses a token sequence contributes, concatenated.
pub open spec fn token_contribs(
    es: Seq<LexicalEntryV>,
    yid: Seq<char>,
    tv: Seq<Seq<char>>,
) -> Seq<Seq<char>> {
    tv.map_values(|t: Seq<char>| crate::index::member_contrib(es, t, yid)).flatten()
}

/// Every derived member sense id names a sense of the resource, and that
/// sense targets the synset the membership was derived for.
pub proof fn lemma_membership_elems(
    es: Seq<LexicalEntryV>,
    yid: Seq<char>,
    tv: Seq<Seq<char>>,
    p: int,
)
    requires
        crate::index::distinct_entry_ids(es),
        crate::index::sense_ids_unique(es),
        0 <= p < token_contribs(es, yid, tv).len(),
    ensures
        has_sense(es, token_contribs(es, yid, tv)[p]),
        sense_rec(es, token_contribs(es, yid, tv)[p]).synset == yid,
    decreases tv.len(),
{
    let cf = |t: Seq<char>| crate::index::member_contrib(es, t, yid);
    let m = tv.map_values(cf);
    if tv.len() == 0 {
        assert(m =~= Seq::<Seq<Seq<char>>>::empty());
        assert(m.flatten() =~= Seq::<Seq<char>>::empty());
    } else {
        let m1 = tv.drop_last().map_values(cf);
        assert(m.drop_last() =~= m1);
        m1.lemma_flatten_push(cf(tv.last()));
        assert(m1.push(cf(tv.last())) =~= m);
        assert(m.flatten() == m1.flatten() + cf(tv.last()));
        if p < m1.flatten().len() {
            lemma_membership_elems(es, yid, tv.drop_last(), p);
            assert(token_contribs(es, yid, tv.drop_last())[p] == token_contribs(es, yid, tv)[p]);
        } else {
            let q = p - m1.flatten().len();
            let t = tv.last();
            let k = token_contribs(es, yid, tv)[p];
            assert(k == cf(t)[q]);
            assert(crate::index::has_entry(es, t));
            let e = crate::index::entry_with_id(es, t);
            let a = choose|i: int| 0 <= i < es.len() && es[i].id == t;
            assert(es[a] == e);
            let pr = |s: SenseV| s.synset == yid;
            assert(k == e.senses.filter(pr)[q].id);
            e.senses.lemma_filter_pred(pr, q);
            lemma_filter_origin(e.senses, pr, q);
            let b = choose|b: int| 0 <= b < e.senses.len() && e.senses[b] == e.senses.filter(pr)[q];
            assert(sense_at(es, a, b) && es[a].senses[b].id == k);
            assert(has_sense(es, k));
            let (a2, b2) = choose|a2: int, b2: int|
                sense_at(es, a2, b2) && (#[trigger] es[a2].senses[b2]).id == k;
            assert(a2 == a && b2 == b);
            assert(sense_rec(es, k) == es[a].senses[b]);
        }
    }
}

/// Whether a vector of strings holds one with the given contents.
pub(crate) fn contains_str(v: &Vec<String>, k: &str) -> (r: bool)
    ensures
        r == crate::models::strs_view(v@).contains(k@),
{
    let n = v.len();
    let mut i: usize = 0;
    while i < n
        invariant
            n == v@.len(),
            i <= n,
            forall|j: int| 0 <= j < i ==> v@[j]@ != k@,
        decreases n - i,
    {
        if crate::models::str_eq(v[i].as_str(), k) {
            proof {
                assert(crate::models::strs_view(v@)[i as int] == k@);
            }
            return true;
        }
        i = i + 1;
    }
    proof {
        if crate::models::strs_view(v@).contains(k@) {
            let j = choose|j: int|
                0 <= j < crate::models::strs_view(v@).len() && crate::models::strs_view(v@)[j]
                    == k@;
            assert(v@[j]@ == k@);
        }
    }
    false
}

impl IndexedLexicon {
    /// Retrieves the derived member senses of a synset, in derivation order;
    /// an unknown synset id yields an empty result.
    pub fn get_senses_for_synset(&self, synset_id: &str) -> (r: Result<Vec<Sense>, OewnError>)
        requires
            self.wf(),
        ensures
            match r {
                Ok(v) => if has_synset(self.spec_synsets(), synset_id@) {
                    views_of(v@) == derived_membership(
                        self.spec_entries(),
                        synset_with_id(self.spec_synsets(), synset_id@),
                    ).map_values(|k: Seq<char>| sense_rec(self.spec_entries(), k))
                } else {
                    v@.len() == 0
                },
                Err(_) => false,
            },
    {
        let ghost es = self.spec_entries();
        let ghost ys = self.spec_synsets();
        match self.membership.get(synset_id) {
            Some(pair) => {
                let mem_ids = &pair.0;
                proof {
                    assert(self.membership@.contains_key(synset_id@));
                    assert(has_synset(ys, synset_id@));
                    let j = choose|i: int| 0 <= i < ys.len() && ys[i].id == synset_id@;
                    assert(synset_with_id(ys, synset_id@) == ys[j]);
                    assert(crate::models::strs_view(self.membership@[ys[j].id].0@)
                        == derived_membership(es, ys[j]));
                }
                let ghost yv = synset_with_id(ys, synset_id@);
                let ghost der = derived_membership(es, yv);
                let ghost sr = |k: Seq<char>| sense_rec(es, k);
                proof {
                    assert(crate::models::strs_view(mem_ids@) == der);
                    assert(der == token_contribs(es, yv.id, crate::models::spec_split_ws(
                        yv.members,
                    )));
                }
                let mut out: Vec<Sense> = Vec::new();
                proof {
                    assert(views_of(out@) =~= der.take(0).map_values(sr));
                }
                let n = mem_ids.len();
                let mut q: usize = 0;
                while q < n
                    invariant
                        self.wf(),
                        es == self.spec_entries(),
                        ys == self.spec_synsets(),
                        yv == synset_with_id(ys, synset_id@),
                        der == derived_membership(es, yv),
                        der == token_contribs(es, yv.id, crate::models::spec_split_ws(yv.members)),
                        crate::models::strs_view(mem_ids@) == der,
                        sr == (|k: Seq<char>| sense_rec(es, k)),
                        n == mem_ids@.len(),
                        der.len() == n,
                        q <= n,
                        views_of(out@) == der.take(q as int).map_values(sr),
                    decreases n - q,
                {
                    let id = &mem_ids[q];
                    proof {
                        assert(crate::models::strs_view(mem_ids@)[q as int] == der[q as int]);
                        assert(id@ == der[q as int]);
                        lemma_membership_elems(
                            es,
                            yv.id,
                            crate::models::spec_split_ws(yv.members),
                            q as int,
                        );
                        assert(has_sense(es, id@));
                    }
                    match self.senses.get(id.as_str()) {
                        Some(s) => {
                            let ghost out0 = out@;
                            proof {
                                let (a, b) = choose|a: int, b: int|
                                    sense_at(es, a, b) && (#[trigger] es[a].senses[b]).id == id@;
                                assert(sense_rec(es, id@) == es[a].senses[b]);
                                assert(self.senses@[es[a].senses[b].id]@ == es[a].senses[b]);
                            }
                            out.push(s.duplicate());
                            proof {
                                assert(views_of(out0.push(out@.last())) =~= views_of(out0).push(
                                    sense_rec(es, id@),
                                ));
                                assert(der.take(q as int).map_values(sr).push(sr(der[q as int]))
                                    =~= der.take(q as int + 1).map_values(sr));
                            }
                        },
                        None => {
                            proof {
                                let (a, b) = choose|a: int, b: int|
                                    sense_at(es, a, b) && (#[trigger] es[a].senses[b]).id == id@;
                                assert(self.senses@.contains_key(es[a].senses[b].id));
                                assert(false);
                            }
                        },
                    }
                    q = q + 1;
                }
                proof {
                    assert(der.take(n as int) =~= der);
                }
                Ok(out)
            },
            None => {
                proof {
                    if has_synset(ys, synset_id@) {
                        let j = choose|i: int| 0 <= i < ys.len() && ys[i].id == synset_id@;
                        assert(self.membership@.contains_key(ys[j].id));
                    }
                }
                Ok(Vec::new())
            },
        }
    }

    /// How many member tokens of a synset contributed no sense when its
    /// membership was derived; nothing when the synset id is unknown.
    pub fn get_dropped_member_count(&self, synset_id: &str) -> (r: Option<usize>)
        requires
            self.wf(),
        ensures
            match r {
                Some(c) => has_synset(self.spec_synsets(), synset_id@) && c as int
                    == crate::index::dropped_of(
                    self.spec_entries(),
                    synset_with_id(self.spec_synsets(), synset_id@),
                ),
                None => !has_synset(self.spec_synsets(), synset_id@),
            },
    {
        let ghost ys = self.spec_synsets();
        match self.membership.get(synset_id) {
            Some(pair) => {
                proof {
                    assert(self.membership@.contains_key(synset_id@));
                    assert(has_synset(ys, synset_id@));
                    let j = choose|i: int| 0 <= i < ys.len() && ys[i].id == synset_id@;
                    assert(synset_with_id(ys, synset_id@) == ys[j]);
                }
                Some(pair.1)
            },
            None => {
                proof {
                    if has_synset(ys, synset_id@) {
                        let j = choose|i: int| 0 <= i < ys.len() && ys[i].id == synset_id@;
                        assert(self.membership@.contains_key(ys[j].id));
                    }
                }
                None
            },
        }
    }
}


/// The distinct target ids reached from a relation list by edges of one
/// kind, first occurrence first, keeping only targets that resolve to a
/// loaded sense.
pub open spec fn sense_rel_pipeline(
    es: Seq<LexicalEntryV>,
    rels: Seq<crate::models::SenseRelationV>,
    rt: crate::models::SenseRelType,
    j: int,
) -> Seq<Seq<char>>
    decreases j,
{
    if j <= 0 {
        Seq::empty()
    } else {
        let d = sense_rel_pipeline(es, rels, rt, j - 1);
        let r = rels[j - 1];
        if r.rel_type == rt && has_sense(es, r.target) && !d.contains(r.target) {
            d.push(r.target)
        } else {
            d
        }
    }
}

/// The ids `get_related_senses` returns for a source sense and a relation
/// kind: an unknown source yields nothing.
pub open spec fn related_sense_ids(
    es: Seq<LexicalEntryV>,
    sense_id: Seq<char>,
    rt: crate::models::SenseRelType,
) -> Seq<Seq<char>> {
    if has_sense(es, sense_id) {
        let rels = sense_rec(es, sense_id).sense_relations;
        sense_rel_pipeline(es, rels, rt, rels.len() as int)
    } else {
        Seq::empty()
    }
}

/// The distinct synset targets reached from a relation list by edges of one
/// kind, first occurrence first, keeping only targets that resolve to a
/// loaded synset.
pub open spec fn synset_rel_pipeline(
    ys: Seq<crate::models::SynsetV>,
    rels: Seq<crate::models::SynsetRelationV>,
    rt: crate::models::SynsetRelType,
    j: int,
) -> Seq<Seq<char>>
    decreases j,
{
    if j <= 0 {
        Seq::empty()
    } else {
        let d = synset_rel_pipeline(ys, rels, rt, j - 1);
        let r = rels[j - 1];
        if r.rel_type == rt && has_synset(ys, r.target) && !d.contains(r.target) {
            d.push(r.target)
        } else {
            d
        }
    }
}

/// The ids `get_related_synsets` returns for a source synset and a relation
/// kind: an unknown source yields nothing.
pub open spec fn related_synset_ids(
    ys: Seq<crate::models::SynsetV>,
    synset_id: Seq<char>,
    rt: crate::models::SynsetRelType,
) -> Seq<Seq<char>> {
    if has_synset(ys, synset_id) {
        let rels = synset_with_id(ys, synset_id).synset_relations;
        synset_rel_pipeline(ys, rels, rt, rels.len() as int)
    } else {
        Seq::empty()
    }
}

impl IndexedLexicon {
    /// Retrieves the senses a sense's relations of one kind point at, each
    /// target once, dangling targets skipped; an unknown source id yields an
    /// empty result.
    pub fn get_related_senses(
        &self,
        sense_id: &str,
        rel_type: crate::models::SenseRelType,
    ) -> (r: Result<Vec<Sense>, OewnError>)
        requires
            self.wf(),
        ensures
            match r {
                Ok(v) => {
                    let ids = related_sense_ids(self.spec_entries(), sense_id@, rel_type);
                    &&& v@.len() == ids.len()
                    &&& forall|i: int|
                        0 <= i < ids.len() ==> (#[trigger] v@[i])@ == sense_rec(
                            self.spec_entries(),
                            ids[i],
                        )
                },
                Err(_) => false,
            },
    {
        let ghost es = self.spec_entries();
        let mut out: Vec<Sense> = Vec::new();
        let mut out_ids: Vec<String> = Vec::new();
        match self.senses.get(sense_id) {
            Some(src) => {
                proof {
                    assert(self.senses@.contains_key(sense_id@));
                    assert(has_sense(es, sense_id@));
                    let (a, b) = choose|a: int, b: int|
                        sense_at(es, a, b) && (#[trigger] es[a].senses[b]).id == sense_id@;
                    assert(sense_rec(es, sense_id@) == es[a].senses[b]);
                    assert(self.senses@[es[a].senses[b].id]@ == es[a].senses[b]);
                }
                let ghost rels = sense_rec(es, sense_id@).sense_relations;
                proof {
                    assert(src@.sense_relations == rels);
                }
                let n = src.sense_relations.len();
                let mut j: usize = 0;
                while j < n
                    invariant
                        self.wf(),
                        es == self.spec_entries(),
                        rels == sense_rec(es, sense_id@).sense_relations,
                        src@.sense_relations == rels,
                        n == src.sense_relations@.len(),
                        rels.len() == n,
                        j <= n,
                        crate::models::strs_view(out_ids@) == sense_rel_pipeline(
                            es,
                            rels,
                            rel_type,
                            j as int,
                        ),
                        out@.len() == out_ids@.len(),
                        forall|i: int|
                            0 <= i < out_ids@.len() ==> (#[trigger] out@[i])@ == sense_rec(
                                es,
                                out_ids@[i]@,
                            ),
                    decreases n - j,
                {
                    let edge = &src.sense_relations[j];
                    let ghost rv = rels[j as int];
                    proof {
                        assert(rv == src.sense_relations@[j as int]@);
                    }
                    if edge.rel_type == rel_type {
                        match self.senses.get(edge.target.as_str()) {
                            Some(tgt) => {
                                proof {
                                    assert(self.senses@.contains_key(rv.target));
                                    assert(has_sense(es, rv.target));
                                }
                                if !contains_str(&out_ids, edge.target.as_str()) {
                                    proof {
                                        let (a, b) = choose|a: int, b: int|
                                            sense_at(es, a, b) && (
                                            #[trigger] es[a].senses[b]).id == rv.target;
                                        assert(sense_rec(es, rv.target) == es[a].senses[b]);
                                        assert(self.senses@[es[a].senses[b].id]@ == es[
                                            a
                                        ].senses[b]);
                                    }
                                    let ghost ids0 = out_ids@;
                                    out_ids.push(edge.target.clone());
                                    out.push(tgt.duplicate());
                                    proof {
                                        assert(crate::models::strs_view(out_ids@)
                                            =~= crate::models::strs_view(ids0).push(rv.target));
                                    }
                                }
                            },
                            None => {
                                proof {
                                    if has_sense(es, rv.target) {
                                        let (a, b) = choose|a: int, b: int|
                                            sense_at(es, a, b) && (
                                            #[trigger] es[a].senses[b]).id == rv.target;
                                        assert(self.senses@.contains_key(es[a].senses[b].id));
                                    }
                                    assert(!has_sense(es, rv.target));
                                }
                            },
                        }
                    }
                    j = j + 1;
                }
                proof {
                    assert(related_sense_ids(es, sense_id@, rel_type) == sense_rel_pipeline(
                        es,
                        rels,
                        rel_type,
                        n as int,
                    ));
                }
                Ok(out)
            },
            None => {
                proof {
                    if has_sense(es, sense_id@) {
                        let (a, b) = choose|a: int, b: int|
                            sense_at(es, a, b) && (#[trigger] es[a].senses[b]).id == sense_id@;
                        assert(self.senses@.contains_key(es[a].senses[b].id));
                    }
                    assert(related_sense_ids(es, sense_id@, rel_type) =~= Seq::<Seq<char>>::empty());
                }
                Ok(out)
            },
        }
    }

    /// Retrieves the synsets a synset's relations of one kind point at, each
    /// target once, dangling targets skipped; an unknown source id yields an
    /// empty result.
    pub fn get_related_synsets(
        &self,
        synset_id: &str,
        rel_type: crate::models::SynsetRelType,
    ) -> (r: Result<Vec<Synset>, OewnError>)
        requires
            self.wf(),
        ensures
            match r {
                Ok(v) => {
                    let ids = related_synset_ids(self.spec_synsets(), synset_id@, rel_type);
                    &&& v@.len() == ids.len()
                    &&& forall|i: int|
                        0 <= i < ids.len() ==> (#[trigger] v@[i])@ == synset_with_id(
                            self.spec_synsets(),
                            ids[i],
                        )
                },
                Err(_) => false,
            },
    {
        let ghost ys = self.spec_synsets();
        let mut out: Vec<Synset> = Vec::new();
        let mut out_ids: Vec<String> = Vec::new();
        match self.synsets.get(synset_id) {
            Some(src) => {
                proof {
                    assert(self.synsets@.contains_key(synset_id@));
                    assert(has_synset(ys, synset_id@));
                    let j0 = choose|i: int| 0 <= i < ys.len() && ys[i].id == synset_id@;
                    assert(synset_with_id(ys, synset_id@) == ys[j0]);
                    assert(self.synsets@[ys[j0].id]@ == ys[j0]);
                }
                let ghost rels = synset_with_id(ys, synset_id@).synset_relations;
                proof {
                    assert(src@.synset_relations == rels);
                }
                let n = src.synset_relations.len();
                let mut j: usize = 0;
                while j < n
                    invariant
                        self.wf(),
                        ys == self.spec_synsets(),
                        rels == synset_with_id(ys, synset_id@).synset_relations,
                        src@.synset_relations == rels,
                        n == src.synset_relations@.len(),
                        rels.len() == n,
                        j <= n,
                        crate::models::strs_view(out_ids@) == synset_rel_pipeline(
                            ys,
                            rels,
                            rel_type,
                            j as int,
                        ),
                        out@.len() == out_ids@.len(),
                        forall|i: int|
                            0 <= i < out_ids@.len() ==> (#[trigger] out@[i])@ == synset_with_id(
                                ys,
                                out_ids@[i]@,
                            ),
                    decreases n - j,
                {
                    let edge = &src.synset_relations[j];
                    let ghost rv = rels[j as int];
                    proof {
                        assert(rv == src.synset_relations@[j as int]@);
                    }
                    if edge.rel_type == rel_type {
                        match self.synsets.get(edge.target.as_str()) {
                            Some(tgt) => {
                                proof {
                                    assert(self.synsets@.contains_key(rv.target));
                                    assert(has_synset(ys, rv.target));
                                }
                                if !contains_str(&out_ids, edge.target.as_str()) {
                                    proof {
                                        let j1 = choose|i: int|
                                            0 <= i < ys.len() && ys[i].id == rv.target;
                                        assert(synset_with_id(ys, rv.target) == ys[j1]);
                                        assert(self.synsets@[ys[j1].id]@ == ys[j1]);
                                    }
                                    let ghost ids0 = out_ids@;
                                    out_ids.push(edge.target.clone());
                                    out.push(tgt.duplicate());
                                    proof {
                                        assert(crate::models::strs_view(out_ids@)
                                            =~= crate::models::strs_view(ids0).push(rv.target));
                                    }
                                }
                            },
                            None => {
                                proof {
                                    if has_synset(ys, rv.target) {
                                        let j1 = choose|i: int|
                                            0 <= i < ys.len() && ys[i].id == rv.target;
                                        assert(self.synsets@.contains_key(ys[j1].id));
                                    }
                                    assert(!has_synset(ys, rv.target));
                                }
                            },
                        }
                    }
                    j = j + 1;
                }
                proof {
                    assert(related_synset_ids(ys, synset_id@, rel_type) == synset_rel_pipeline(
                        ys,
                        rels,
                        rel_type,
                        n as int,
                    ));
                }
                Ok(out)
            },
            None => {
                proof {
                    if has_synset(ys, synset_id@) {
                        let j0 = choose|i: int| 0 <= i < ys.len() && ys[i].id == synset_id@;
                        assert(self.synsets@.contains_key(ys[j0].id));
                    }
                    assert(related_synset_ids(ys, synset_id@, rel_type) =~= Seq::<
                        Seq<char>,
                    >::empty());
                }
                Ok(out)
            },
        }
    }
}

} // verus!


