//! Synonym resolution: the written forms of the entries owning a synset's
//! member senses, distinct, lexicographically sorted, with the form being
//! displayed excluded — deterministic output for display and tests.

use vstd::prelude::*;

use crate::error::OewnError;
use crate::index::IndexedLexicon;
use crate::index::derived_membership;
use crate::index::entry_with_id;
use crate::index::has_entry;
use crate::index::has_sense;
use crate::index::has_synset;
use crate::index::owner_of;
use crate::index::sense_at;
use crate::index::synset_with_id;
use crate::models::LexicalEntryV;
use crate::models::SynsetV;
use crate::models::spec_split_ws;
use crate::models::str_eq;
use crate::models::strs_view;
use crate::query::lemma_membership_elems;
use crate::query::token_contribs;

verus! {

/// Lexicographic order on character sequences, by Unicode scalar value.
pub open spec fn str_le(a: Seq<char>, b: Seq<char>) -> bool
    decreases a.len(),
{
    if a.len() == 0 {
        true
    } else if b.len() == 0 {
        false
    } else if a[0] != b[0] {
        (a[0] as u32) < (b[0] as u32)
    } else {
        str_le(a.drop_first(), b.drop_first())
    }
}

/// The order is total: one direction always holds.
pub proof fn lemma_str_le_total(a: Seq<char>, b: Seq<char>)
    ensures
        str_le(a, b) || str_le(b, a),
    decreases a.len(),
{
    if a.len() != 0 && b.len() != 0 {
        if a[0] == b[0] {
            lemma_str_le_total(a.drop_first(), b.drop_first());
        } else {
            vstd::utf8::char_u32_cast(a[0], a[0] as u32);
            vstd::utf8::char_u32_cast(b[0], b[0] as u32);
        }
    }
}

/// Compares two strings in the lexicographic order.
pub fn str_le_exec(a: &str, b: &str) -> (r: bool)
    ensures
        r == str_le(a@, b@),
{
    let na = a.unicode_len();
    let nb = b.unicode_len();
    let mut i: usize = 0;
    proof {
        assert(a@.skip(0) =~= a@);
        assert(b@.skip(0) =~= b@);
    }
    while i < na && i < nb
        invariant
            na == a@.len(),
            nb == b@.len(),
            i <= na,
            i <= nb,
            str_le(a@, b@) == str_le(a@.skip(i as int), b@.skip(i as int)),
        decreases na - i,
    {
        let ca = a.get_char(i);
        let cb = b.get_char(i);
        proof {
            assert(a@.skip(i as int)[0] == a@[i as int]);
            assert(b@.skip(i as int)[0] == b@[i as int]);
        }
        if (ca as u32) != (cb as u32) {
            return (ca as u32) < (cb as u32);
        }
        proof {
            vstd::utf8::char_u32_cast(ca, ca as u32);
            vstd::utf8::char_u32_cast(cb, cb as u32);
            assert(ca == cb);
            assert(a@.skip(i as int).drop_first() =~= a@.skip(i as int + 1));
            assert(b@.skip(i as int).drop_first() =~= b@.skip(i as int + 1));
        }
        i = i + 1;
    }
    proof {
        if i >= na {
            assert(a@.skip(i as int).len() == 0);
        } else {
            assert(b@.skip(i as int).len() == 0);
            assert(a@.skip(i as int).len() > 0);
        }
    }
    i >= na
}

/// Neighbouring elements are in order.
pub open spec fn sorted_strs(s: Seq<String>) -> bool {
    forall|i: int| 0 <= i && i + 1 < s.len() ==> str_le((#[trigger] s[i])@, s[i + 1]@)
}

/// No written form occurs twice.
pub open spec fn distinct_strs(s: Seq<String>) -> bool {
    forall|i: int, j: int| 0 <= i < j < s.len() ==> (#[trigger] s[i])@ != (#[trigger] s[j])@
}

/// Inserts a new string into a sorted, duplicate-free vector, keeping it
/// sorted and duplicate-free and adding exactly that string.
fn insert_sorted(v: &mut Vec<String>, x: String)
    requires
        sorted_strs(old(v)@),
        distinct_strs(old(v)@),
        !strs_view(old(v)@).contains(x@),
    ensures
        sorted_strs(final(v)@),
        distinct_strs(final(v)@),
        final(v)@.len() == old(v)@.len() + 1,
        forall|w: Seq<char>|
            strs_view(final(v)@).contains(w) <==> strs_view(old(v)@).contains(w) || w == x@,
{
    let ghost s0 = v@;
    let ghost xv = x@;
    let n = v.len();
    let mut p: usize = 0;
    while p < n && !str_le_exec(x.as_str(), v[p].as_str())
        invariant
            old(v)@ == s0,
            v@ == s0,
            xv == x@,
            n == s0.len(),
            p <= n,
            forall|k: int| 0 <= k < p ==> !str_le(xv, (#[trigger] s0[k])@),
        decreases n - p,
    {
        p = p + 1;
    }
    proof {
        s0.insert_ensures(p as int, x);
        assert forall|k: int| 0 <= k < s0.len() implies (#[trigger] s0[k])@ != xv by {
            assert(strs_view(s0)[k] == s0[k]@);
        }
    }
    v.insert(p, x);
    proof {
        assert(v@.len() == s0.len() + 1);
        assert(v@[p as int]@ == xv);
        assert forall|i: int| 0 <= i && i + 1 < v@.len() implies str_le(
            (#[trigger] v@[i])@,
            v@[i + 1]@,
        ) by {
            if i + 1 < p {
                assert(v@[i] == s0[i] && v@[i + 1] == s0[i + 1]);
            } else if i + 1 == p {
                assert(v@[i] == s0[i]);
                lemma_str_le_total(xv, s0[i]@);
            } else if i == p {
                assert(v@[i + 1] == s0[i]);
            } else {
                assert(v@[i] == s0[i - 1] && v@[i + 1] == s0[i]);
            }
        }
        assert forall|i: int, j: int| 0 <= i < j < v@.len() implies (#[trigger] v@[i])@ != (
        #[trigger] v@[j])@ by {
            if i == p {
                assert(v@[j] == s0[j - 1]);
            } else if j == p {
                assert(v@[i] == s0[i]);
            } else {
                let i0: int = if i < p { i } else { i - 1 };
                let j0: int = if j < p { j } else { j - 1 };
                assert(v@[i] == s0[i0] && v@[j] == s0[j0]);
            }
        }
        assert forall|w: Seq<char>|
            strs_view(v@).contains(w) <==> strs_view(s0).contains(w) || w == xv by {
            if strs_view(v@).contains(w) {
                let k = choose|k: int| 0 <= k < strs_view(v@).len() && strs_view(v@)[k] == w;
                assert(v@[k]@ == w);
                if k != p {
                    let k0: int = if k < p { k } else { k - 1 };
                    assert(v@[k] == s0[k0]);
                    assert(strs_view(s0)[k0] == s0[k0]@);
                }
            }
            if strs_view(s0).contains(w) {
                let k = choose|k: int| 0 <= k < strs_view(s0).len() && strs_view(s0)[k] == w;
                assert(s0[k]@ == w);
                let k1: int = if k < p {
                    k
                } else {
                    k + 1
                };
                assert(v@[k1] == s0[k]);
                assert(strs_view(v@)[k1] == v@[k1]@);
            }
            if w == xv {
                assert(strs_view(v@)[p as int] == v@[p as int]@);
            }
        }
    }
}

/// The written form of the entry owning a sense.
pub open spec fn written_of(es: Seq<LexicalEntryV>, sense_id: Seq<char>) -> Seq<char> {
    entry_with_id(es, owner_of(es, sense_id)).lemma.written_form
}

/// Whether `w` is a written form carried by some member sense of the synset:
/// the owning entry of one of the synset's derived member senses writes `w`.
pub open spec fn synonym_of(
    es: Seq<LexicalEntryV>,
    ys: Seq<SynsetV>,
    synset_id: Seq<char>,
    w: Seq<char>,
) -> bool {
    has_synset(ys, synset_id) && exists|p: int|
        0 <= p < derived_membership(es, synset_with_id(ys, synset_id)).len() && written_of(
            es,
            #[trigger] derived_membership(es, synset_with_id(ys, synset_id))[p],
        ) == w
}

impl IndexedLexicon {
    /// The synonyms of a synset for display: the written forms of the
    /// entries owning its member senses, each once, lexicographically
    /// sorted, with the form currently being displayed excluded.  An
    /// unknown synset id yields an empty result.
    pub fn get_synonyms(&self, synset_id: &str, exclude: &str) -> (r: Result<
        Vec<String>,
        OewnError,
    >)
        requires
            self.wf(),
        ensures
            match r {
                Ok(v) => {
                    &&& sorted_strs(v@)
                    &&& distinct_strs(v@)
                    &&& forall|w: Seq<char>|
                        strs_view(v@).contains(w) <==> (synonym_of(
                            self.spec_entries(),
                            self.spec_synsets(),
                            synset_id@,
                            w,
                        ) && w != exclude@)
                },
                Err(_) => false,
            },
    {
        let ghost es = self.spec_entries();
        let ghost ys = self.spec_synsets();
        let mut out: Vec<String> = Vec::new();
        match self.membership.get(synset_id) {
            Some(pair) => {
                let mem_ids = &pair.0;
                proof {
                    assert(self.membership@.contains_key(synset_id@));
                    assert(has_synset(ys, synset_id@));
                    let j = choose|i: int| 0 <= i < ys.len() && ys[i].id == synset_id@;
                    assert(synset_with_id(ys, synset_id@) == ys[j]);
                    assert(crate::models::strs_view(self.membership@[ys[j].id].0@)
                        == derived_membership(es, ys[j]));
                }
                let ghost yv = synset_with_id(ys, synset_id@);
                let ghost der = derived_membership(es, yv);
                proof {
                    assert(strs_view(mem_ids@) == der);
                    assert(der == token_contribs(es, yv.id, spec_split_ws(yv.members)));
                }
                let n = mem_ids.len();
                let mut q: usize = 0;
                while q < n
                    invariant
                        self.wf(),
                        es == self.spec_entries(),
                        ys == self.spec_synsets(),
                        yv == synset_with_id(ys, synset_id@),
                        der == derived_membership(es, yv),
                        der == token_contribs(es, yv.id, spec_split_ws(yv.members)),
                        strs_view(mem_ids@) == der,
                        n == mem_ids@.len(),
                        der.len() == n,
                        q <= n,
                        sorted_strs(out@),
                        distinct_strs(out@),
                        forall|w: Seq<char>|
                            strs_view(out@).contains(w) <==> ((exists|p: int|
                                0 <= p < q && written_of(es, #[trigger] der[p]) == w) && w
                                != exclude@),
                    decreases n - q,
                {
                    let id = &mem_ids[q];
                    proof {
                        assert(strs_view(mem_ids@)[q as int] == der[q as int]);
                        assert(id@ == der[q as int]);
                        lemma_membership_elems(es, yv.id, spec_split_ws(yv.members), q as int);
                        assert(has_sense(es, id@));
                    }
                    let owner = match self.sense_entry.get(id.as_str()) {
                        Some(o) => o,
                        None => {
                            proof {
                                let (a, b) = choose|a: int, b: int|
                                    sense_at(es, a, b) && (#[trigger] es[a].senses[b]).id == id@;
                                assert(self.sense_entry@.contains_key(es[a].senses[b].id));
                                assert(false);
                            }
                            return Err(OewnError::Internal("sense owner is missing".to_owned()));
                        },
                    };
                    proof {
                        let (a, b) = choose|a: int, b: int|
                            sense_at(es, a, b) && (#[trigger] es[a].senses[b]).id == id@;
                        assert(self.sense_entry@[es[a].senses[b].id]@ == es[a].id);
                        assert(crate::index::entry_owns(es[a], id@));
                        let a2 = choose|i: int|
                            0 <= i < es.len() && crate::index::entry_owns(#[trigger] es[i], id@);
                        assert(owner_of(es, id@) == es[a2].id);
                        let b2 = choose|j: int|
                            0 <= j < es[a2].senses.len() && es[a2].senses[j].id == id@;
                        assert(sense_at(es, a2, b2) && es[a2].senses[b2].id == id@);
                        assert(a == a2);
                        assert(owner@ == owner_of(es, id@));
                    }
                    let entry = match self.entries.get(owner.as_str()) {
                        Some(e) => e,
                        None => {
                            proof {
                                let (a, b) = choose|a: int, b: int|
                                    sense_at(es, a, b) && (#[trigger] es[a].senses[b]).id == id@;
                                assert(self.entries@.contains_key(es[a].id));
                                assert(false);
                            }
                            return Err(OewnError::Internal("owning entry is missing".to_owned()));
                        },
                    };
                    proof {
                        assert(self.entries@.contains_key(owner@));
                        assert(has_entry(es, owner@));
                        let j = choose|i: int| 0 <= i < es.len() && es[i].id == owner@;
                        assert(entry_with_id(es, owner@) == es[j]);
                        assert(self.entries@[es[j].id]@ == es[j]);
                        assert(entry@.lemma.written_form == written_of(es, der[q as int]));
                    }
                    let w = entry.lemma.written_form.clone();
                    let ghost wv = written_of(es, der[q as int]);
                    proof {
                        assert(w@ == wv);
                    }
                    if str_eq(w.as_str(), exclude) {
                        proof {
                            assert forall|w2: Seq<char>|
                                strs_view(out@).contains(w2) <==> ((exists|p: int|
                                    0 <= p < q + 1 && written_of(es, #[trigger] der[p]) == w2)
                                    && w2 != exclude@) by {}
                        }
                    } else {
                        if crate::query::contains_str(&out, w.as_str()) {
                            proof {
                                assert forall|w2: Seq<char>|
                                    strs_view(out@).contains(w2) <==> ((exists|p: int|
                                        0 <= p < q + 1 && written_of(es, #[trigger] der[p]) == w2)
                                        && w2 != exclude@) by {}
                            }
                        } else {
                            insert_sorted(&mut out, w);
                            proof {
                                assert forall|w2: Seq<char>|
                                    strs_view(out@).contains(w2) <==> ((exists|p: int|
                                        0 <= p < q + 1 && written_of(es, #[trigger] der[p]) == w2)
                                        && w2 != exclude@) by {}
                            }
                        }
                    }
                    q = q + 1;
                }
                proof {
                    assert forall|w: Seq<char>|
                        strs_view(out@).contains(w) <==> (synonym_of(es, ys, synset_id@, w) && w
                            != exclude@) by {
                        if synonym_of(es, ys, synset_id@, w) {
                            let p = choose|p: int|
                                0 <= p < derived_membership(es, synset_with_id(ys, synset_id@)).len()
                                    && written_of(
                                    es,
                                    #[trigger] derived_membership(
                                        es,
                                        synset_with_id(ys, synset_id@),
                                    )[p],
                                ) == w;
                            assert(der[p] == derived_membership(es, synset_with_id(ys, synset_id@))[p]);
                        }
                    }
                }
                Ok(out)
            },
            None => {
                proof {
                    if has_synset(ys, synset_id@) {
                        let j = choose|i: int| 0 <= i < ys.len() && ys[i].id == synset_id@;
                        assert(self.membership@.contains_key(ys[j].id));
                    }
                    assert(strs_view(out@) =~= Seq::<Seq<char>>::empty());
                }
                Ok(out)
            },
        }
    }
}

} // verus!
