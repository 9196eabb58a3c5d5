//! The library's cross-cutting guarantees, proved once and for all loaded
//! resources.
//!
//! Each law is stated over the same spec functions the query contracts use,
//! so what is proved here holds of what the query engine returns.

use vstd::prelude::*;

use crate::index::IndexedLexicon;
use crate::index::derived_membership;
use crate::index::entry_owns;
use crate::index::entry_with_id;
use crate::index::has_entry;
use crate::index::has_sense;
use crate::index::member_contrib;
use crate::index::member_senses_of_entry;
use crate::index::owner_of;
use crate::index::sense_at;
use crate::index::sense_rec;
use crate::models::SenseV;
use crate::models::spec_split_ws;
use crate::query::lookup_pred;
use crate::query::lookup_result;
use crate::query::token_contribs;

verus! {

/// Looking an entry up by its own lemma always finds it: for every loaded
/// entry, `lookup_entries` on its written form contains it, both under its
/// own part of speech and with no part-of-speech filter.
pub proof fn lemma_lookup_finds_entry(w: IndexedLexicon, i: int)
    requires
        w.wf(),
        0 <= i < w.spec_entries().len(),
    ensures
        lookup_result(
            w.spec_entries(),
            w.spec_entries()[i].lemma.written_form,
            Some(w.spec_entries()[i].lemma.part_of_speech),
        ).contains(w.spec_entries()[i]),
        lookup_result(w.spec_entries(), w.spec_entries()[i].lemma.written_form, None).contains(
            w.spec_entries()[i],
        ),
{
    let es = w.spec_entries();
    let e = es[i];
    assert(lookup_pred(e.lemma.written_form, Some(e.lemma.part_of_speech))(e));
    es.lemma_filter_contains(lookup_pred(e.lemma.written_form, Some(e.lemma.part_of_speech)), i);
    assert(lookup_pred(e.lemma.written_form, None)(e));
    es.lemma_filter_contains(lookup_pred(e.lemma.written_form, None), i);
}

/// Sense-to-entry resolution is the true inverse of ownership: for every
/// loaded sense, the owner id the index resolves is the id of the entry the
/// sense sits in, and that entry's sense list really carries the sense.
pub proof fn lemma_sense_owner_round_trip(w: IndexedLexicon, a: int, b: int)
    requires
        w.wf(),
        sense_at(w.spec_entries(), a, b),
    ensures
        has_sense(w.spec_entries(), w.spec_entries()[a].senses[b].id),
        owner_of(w.spec_entries(), w.spec_entries()[a].senses[b].id) == w.spec_entries()[a].id,
        entry_owns(
            entry_with_id(
                w.spec_entries(),
                owner_of(w.spec_entries(), w.spec_entries()[a].senses[b].id),
            ),
            w.spec_entries()[a].senses[b].id,
        ),
{
    let es = w.spec_entries();
    let sid = es[a].senses[b].id;
    assert(entry_owns(es[a], sid));
    assert(has_sense(es, sid));
    let i = choose|i: int| 0 <= i < es.len() && entry_owns(#[trigger] es[i], sid);
    assert(owner_of(es, sid) == es[i].id);
    let j = choose|j: int| 0 <= j < es[i].senses.len() && es[i].senses[j].id == sid;
    assert(sense_at(es, i, j) && es[i].senses[j].id == sid);
    assert(i == a);
    assert(has_entry(es, es[a].id));
    let i2 = choose|i2: int| 0 <= i2 < es.len() && es[i2].id == es[a].id;
    assert(entry_with_id(es, es[a].id) == es[i2]);
    assert(i2 == a);
}

/// Membership soundness: every sense id in a synset's derived membership
/// names a loaded sense, and that sense targets exactly this synset — a
/// sense of a listed entry that targets a different synset is never
/// included.
pub proof fn lemma_membership_targets_synset(w: IndexedLexicon, k: int, p: int)
    requires
        w.wf(),
        0 <= k < w.spec_synsets().len(),
        0 <= p < derived_membership(w.spec_entries(), w.spec_synsets()[k]).len(),
    ensures
        has_sense(
            w.spec_entries(),
            derived_membership(w.spec_entries(), w.spec_synsets()[k])[p],
        ),
        sense_rec(
            w.spec_entries(),
            derived_membership(w.spec_entries(), w.spec_synsets()[k])[p],
        ).synset == w.spec_synsets()[k].id,
{
    let es = w.spec_entries();
    let y = w.spec_synsets()[k];
    crate::query::lemma_membership_elems(es, y.id, spec_split_ws(y.members), p);
}

/// An element of one inner sequence is an element of the flattening.
proof fn lemma_flatten_has<A>(m: Seq<Seq<A>>, i: int, x: A)
    requires
        0 <= i < m.len(),
        m[i].contains(x),
    ensures
        m.flatten().contains(x),
    decreases m.len(),
{
    if m.len() > 0 {
        m.drop_last().lemma_flatten_push(m.last());
        assert(m.drop_last().push(m.last()) =~= m);
        if i < m.len() - 1 {
            lemma_flatten_has(m.drop_last(), i, x);
            let q = choose|q: int|
                0 <= q < m.drop_last().flatten().len() && m.drop_last().flatten()[q] == x;
            assert(m.flatten()[q] == x);
        } else {
            let q = choose|q: int| 0 <= q < m.last().len() && m.last()[q] == x;
            assert(m.flatten()[m.drop_last().flatten().len() + q] == x);
        }
    }
}

/// Membership completeness: when a synset's `members` list names an entry,
/// every sense of that entry targeting the synset appears in the derived
/// membership.
pub proof fn lemma_membership_complete(w: IndexedLexicon, k: int, ti: int, a: int, b: int)
    requires
        w.wf(),
        0 <= k < w.spec_synsets().len(),
        0 <= ti < spec_split_ws(w.spec_synsets()[k].members).len(),
        0 <= a < w.spec_entries().len(),
        w.spec_entries()[a].id == spec_split_ws(w.spec_synsets()[k].members)[ti],
        sense_at(w.spec_entries(), a, b),
        w.spec_entries()[a].senses[b].synset == w.spec_synsets()[k].id,
    ensures
        derived_membership(w.spec_entries(), w.spec_synsets()[k]).contains(
            w.spec_entries()[a].senses[b].id,
        ),
{
    let es = w.spec_entries();
    let y = w.spec_synsets()[k];
    let tv = spec_split_ws(y.members);
    let tok = tv[ti];
    let s = es[a].senses[b];
    assert(has_entry(es, tok));
    let a2 = choose|i: int| 0 <= i < es.len() && es[i].id == tok;
    assert(entry_with_id(es, tok) == es[a2]);
    assert(a2 == a);
    let pr = |sv: SenseV| sv.synset == y.id;
    assert(pr(es[a].senses[b]));
    es[a].senses.lemma_filter_contains(pr, b);
    let q = choose|q: int|
        0 <= q < es[a].senses.filter(pr).len() && es[a].senses.filter(pr)[q] == s;
    assert(member_senses_of_entry(es[a], y.id)[q] == s.id);
    assert(member_contrib(es, tok, y.id).contains(s.id));
    let cf = |t: Seq<char>| member_contrib(es, t, y.id);
    assert(tv.map_values(cf)[ti] == cf(tok));
    lemma_flatten_has(tv.map_values(cf), ti, s.id);
    assert(derived_membership(es, y) == token_contribs(es, y.id, tv));
}

} // verus!
