//! Cross-backend equivalence: the in-memory backend and the relational
//! backend answer the same queries identically on a fixed sample corpus.

use oewn_rs::Definition;
use oewn_rs::Lemma;
use oewn_rs::LexicalEntry;
use oewn_rs::LexicalResource;
use oewn_rs::Lexicon;
use oewn_rs::PartOfSpeech;
use oewn_rs::Pronunciation;
use oewn_rs::Sense;
use oewn_rs::SenseRelType;
use oewn_rs::SenseRelation;
use oewn_rs::Synset;
use oewn_rs::SynsetRelType;
use oewn_rs::SynsetRelation;
use oewn_rs::WordNet;
use oewn_rs::WordNetDb;

fn sample() -> LexicalResource {
    let mut hot = LexicalEntry {
        id: "w-hot".to_string(),
        lemma: Lemma { written_form: "Hot".to_string(), part_of_speech: PartOfSpeech::A },
        pronunciations: vec![Pronunciation {
            variety: "en-GB-fonipa".to_string(),
            notation: None,
            phonemic: true,
            audio: None,
            text: "h\u{0252}t".to_string(),
        }],
        senses: vec![Sense {
            id: "s-hot-1".to_string(),
            synset: "syn-hot".to_string(),
            sense_relations: vec![SenseRelation {
                rel_type: SenseRelType::Antonym,
                target: "s-cold-1".to_string(),
            }],
        }],
    };
    hot.senses[0].sense_relations.push(SenseRelation {
        rel_type: SenseRelType::Derivation,
        target: "s-heat-1".to_string(),
    });
    let cold = LexicalEntry {
        id: "w-cold".to_string(),
        lemma: Lemma { written_form: "cold".to_string(), part_of_speech: PartOfSpeech::A },
        pronunciations: Vec::new(),
        senses: vec![Sense {
            id: "s-cold-1".to_string(),
            synset: "syn-cold".to_string(),
            sense_relations: Vec::new(),
        }],
    };
    let heat = LexicalEntry {
        id: "w-heat".to_string(),
        lemma: Lemma { written_form: "heat".to_string(), part_of_speech: PartOfSpeech::N },
        pronunciations: Vec::new(),
        senses: vec![Sense {
            id: "s-heat-1".to_string(),
            synset: "syn-heat".to_string(),
            sense_relations: Vec::new(),
        }],
    };
    let syn_hot = Synset {
        id: "syn-hot".to_string(),
        ili: Some("i1".to_string()),
        part_of_speech: PartOfSpeech::A,
        members: "w-hot".to_string(),
        definitions: vec![Definition {
            dc_source: None,
            text: "at a high temperature".to_string(),
        }],
        ili_definition: None,
        synset_relations: vec![
            SynsetRelation { rel_type: SynsetRelType::Antonym, target: "syn-cold".to_string() },
            SynsetRelation { rel_type: SynsetRelType::Attribute, target: "syn-heat".to_string() },
        ],
        examples: Vec::new(),
    };
    let syn_cold = Synset {
        id: "syn-cold".to_string(),
        ili: None,
        part_of_speech: PartOfSpeech::A,
        members: "w-cold".to_string(),
        definitions: vec![Definition { dc_source: None, text: "at a low temperature".to_string() }],
        ili_definition: None,
        synset_relations: Vec::new(),
        examples: Vec::new(),
    };
    let syn_heat = Synset {
        id: "syn-heat".to_string(),
        ili: None,
        part_of_speech: PartOfSpeech::N,
        members: "w-heat".to_string(),
        definitions: vec![Definition {
            dc_source: None,
            text: "the quality of being hot".to_string(),
        }],
        ili_definition: None,
        synset_relations: Vec::new(),
        examples: Vec::new(),
    };
    LexicalResource {
        lexicons: vec![Lexicon {
            id: "test-en".to_string(),
            label: "Test".to_string(),
            language: "en".to_string(),
            email: "a@b.c".to_string(),
            license: "l".to_string(),
            version: "1".to_string(),
            url: None,
            citation: None,
            logo: None,
            status: None,
            dc_publisher: None,
            dc_contributor: None,
            requires: Vec::new(),
            lexical_entries: vec![hot, cold, heat],
            synsets: vec![syn_hot, syn_cold, syn_heat],
        }],
    }
}

fn entry_keys(v: &[LexicalEntry]) -> Vec<(String, String)> {
    let mut keys: Vec<(String, String)> = v
        .iter()
        .map(|e| (e.id.clone(), e.lemma.written_form.clone()))
        .collect();
    keys.sort();
    keys
}

fn sense_keys(v: &[Sense]) -> Vec<(String, String)> {
    let mut keys: Vec<(String, String)> = v
        .iter()
        .map(|s| (s.id.clone(), s.synset.clone()))
        .collect();
    keys.sort();
    keys
}

#[test]
fn backends_agree_on_the_sample_corpus() {
    let resource = sample();
    let mem = WordNet::from_resource(&resource).unwrap();
    let mut db = WordNetDb::new().unwrap();
    db.populate(&resource).unwrap();

    // lookup_entries, case-folded, with and without a part-of-speech filter
    for (lemma, pos) in [
        ("HOT", None),
        ("hot", Some(PartOfSpeech::A)),
        ("hot", Some(PartOfSpeech::N)),
        ("cold", None),
        ("missing", None),
    ] {
        let a = mem.lookup_entries(lemma, pos).unwrap();
        let b = db.lookup_entries(lemma, pos).unwrap();
        assert_eq!(entry_keys(&a), entry_keys(&b), "lookup {lemma:?} {pos:?}");
        for (ea, eb) in a.iter().zip(b.iter()) {
            assert_eq!(sense_keys(&ea.senses), sense_keys(&eb.senses));
            assert_eq!(ea.pronunciations.len(), eb.pronunciations.len());
        }
    }

    // get_senses_for_synset
    for synset in ["syn-hot", "syn-cold", "syn-heat", "syn-missing"] {
        let a = mem.get_senses_for_synset(synset).unwrap();
        let b = db.get_senses_for_synset(synset).unwrap();
        assert_eq!(sense_keys(&a), sense_keys(&b), "senses for {synset:?}");
    }

    // get_related_synsets for one relation of each kind used in the corpus
    for (synset, rel) in [
        ("syn-hot", SynsetRelType::Antonym),
        ("syn-hot", SynsetRelType::Attribute),
        ("syn-hot", SynsetRelType::Hypernym),
        ("syn-cold", SynsetRelType::Antonym),
    ] {
        let a = mem.get_related_synsets(synset, rel).unwrap();
        let b = db.get_related_synsets(synset, rel).unwrap();
        let mut ia: Vec<String> = a.iter().map(|y| y.id.clone()).collect();
        let mut ib: Vec<String> = b.iter().map(|y| y.id.clone()).collect();
        ia.sort();
        ib.sort();
        assert_eq!(ia, ib, "related for {synset:?}");
        for (ya, yb) in a.iter().zip(b.iter()) {
            let mut da: Vec<String> = ya.definitions.iter().map(|d| d.text.clone()).collect();
            let mut dbv: Vec<String> = yb.definitions.iter().map(|d| d.text.clone()).collect();
            da.sort();
            dbv.sort();
            assert_eq!(da, dbv);
        }
    }
}


#[test]
fn duplicate_edges_collapse_in_both_backends() {
    // The source lists the same antonym edge twice; the relational store's
    // composite primary key keeps one row, and the in-memory traversal
    // returns each target once, so the backends agree.
    let mut resource = sample();
    resource.lexicons[0].synsets[0].synset_relations.push(SynsetRelation {
        rel_type: SynsetRelType::Antonym,
        target: "syn-cold".to_string(),
    });
    resource.lexicons[0].lexical_entries[0].senses[0].sense_relations.push(SenseRelation {
        rel_type: SenseRelType::Antonym,
        target: "s-cold-1".to_string(),
    });
    let mem = WordNet::from_resource(&resource).unwrap();
    let mut db = WordNetDb::new().unwrap();
    db.populate(&resource).unwrap();

    let a = mem.get_related_synsets("syn-hot", SynsetRelType::Antonym).unwrap();
    let b = db.get_related_synsets("syn-hot", SynsetRelType::Antonym).unwrap();
    assert_eq!(a.len(), 1);
    assert_eq!(b.len(), 1);
    assert_eq!(a[0].id, b[0].id);

    let ants = mem.get_related_senses("s-hot-1", SenseRelType::Antonym).unwrap();
    assert_eq!(ants.len(), 1);
    assert_eq!(ants[0].id, "s-cold-1");
}

#[test]
fn store_carries_its_schema_version() {
    let db = WordNetDb::new().unwrap();
    assert_eq!(db.schema_version().unwrap().as_deref(), Some("1"));
}
