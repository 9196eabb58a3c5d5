//! Shared corpus construction plus the core query scenarios.

use oewn_rs::Definition;
use oewn_rs::Lemma;
use oewn_rs::LexicalEntry;
use oewn_rs::LexicalResource;
use oewn_rs::Lexicon;
use oewn_rs::OewnError;
use oewn_rs::PartOfSpeech;
use oewn_rs::Pronunciation;
use oewn_rs::Sense;
use oewn_rs::SenseRelType;
use oewn_rs::SenseRelation;
use oewn_rs::Synset;
use oewn_rs::SynsetRelType;
use oewn_rs::SynsetRelation;
use oewn_rs::WordNet;

fn lexicon_shell(id: &str) -> Lexicon {
    Lexicon {
        id: id.to_string(),
        label: "Test Wordnet (English)".to_string(),
        language: "en".to_string(),
        email: "test@example.com".to_string(),
        license: "https://example.com/license".to_string(),
        version: "1.0".to_string(),
        url: None,
        citation: None,
        logo: None,
        status: None,
        dc_publisher: None,
        dc_contributor: None,
        requires: Vec::new(),
        lexical_entries: Vec::new(),
        synsets: Vec::new(),
    }
}

fn entry(id: &str, written: &str, pos: PartOfSpeech, senses: Vec<Sense>) -> LexicalEntry {
    LexicalEntry {
        id: id.to_string(),
        lemma: Lemma { written_form: written.to_string(), part_of_speech: pos },
        pronunciations: Vec::new(),
        senses,
    }
}

fn sense(id: &str, synset: &str) -> Sense {
    Sense { id: id.to_string(), synset: synset.to_string(), sense_relations: Vec::new() }
}

fn synset(id: &str, pos: PartOfSpeech, members: &str, def: &str) -> Synset {
    Synset {
        id: id.to_string(),
        ili: None,
        part_of_speech: pos,
        members: members.to_string(),
        definitions: vec![Definition { dc_source: None, text: def.to_string() }],
        ili_definition: None,
        synset_relations: Vec::new(),
        examples: Vec::new(),
    }
}

/// The sample corpus: "cat" (noun, syn1) and "dog" (noun, syn2).
fn cat_dog_corpus() -> LexicalResource {
    let mut lex = lexicon_shell("test-en");
    lex.lexical_entries.push(entry(
        "w-cat",
        "cat",
        PartOfSpeech::N,
        vec![sense("s-cat-1", "syn1")],
    ));
    lex.lexical_entries.push(entry(
        "w-dog",
        "dog",
        PartOfSpeech::N,
        vec![sense("s-dog-1", "syn2")],
    ));
    lex.synsets.push(synset(
        "syn1",
        PartOfSpeech::N,
        "w-cat",
        "a small domesticated carnivorous mammal",
    ));
    lex.synsets.push(synset("syn2", PartOfSpeech::N, "w-dog", "a domesticated canine"));
    LexicalResource { lexicons: vec![lex] }
}

#[test]
fn lookup_is_case_folded_and_exact() {
    let wn = WordNet::from_resource(&cat_dog_corpus()).unwrap();
    let entries = wn.lookup_entries("CAT", None).unwrap();
    assert_eq!(entries.len(), 1);
    assert_eq!(entries[0].id, "w-cat");
    assert_eq!(entries[0].lemma.written_form, "cat");
    let entries = wn.lookup_entries("cAt", Some(PartOfSpeech::N)).unwrap();
    assert_eq!(entries.len(), 1);
    assert_eq!(entries[0].id, "w-cat");
    let entries = wn.lookup_entries("cat", Some(PartOfSpeech::V)).unwrap();
    assert!(entries.is_empty());
    let entries = wn.lookup_entries("horse", None).unwrap();
    assert!(entries.is_empty());
}

#[test]
fn senses_for_synset_returns_exactly_the_member_sense() {
    let wn = WordNet::from_resource(&cat_dog_corpus()).unwrap();
    let senses = wn.get_senses_for_synset("syn1").unwrap();
    assert_eq!(senses.len(), 1);
    assert_eq!(senses[0].id, "s-cat-1");
    assert_eq!(senses[0].synset, "syn1");
    let senses = wn.get_senses_for_synset("syn2").unwrap();
    assert_eq!(senses.len(), 1);
    assert_eq!(senses[0].id, "s-dog-1");
}

#[test]
fn hypernym_traversal_empty_until_edge_added() {
    let wn = WordNet::from_resource(&cat_dog_corpus()).unwrap();
    let related = wn.get_related_synsets("syn1", SynsetRelType::Hypernym).unwrap();
    assert!(related.is_empty());

    let mut resource = cat_dog_corpus();
    resource.lexicons[0].synsets[0].synset_relations.push(SynsetRelation {
        rel_type: SynsetRelType::Hypernym,
        target: "syn2".to_string(),
    });
    let wn = WordNet::from_resource(&resource).unwrap();
    let related = wn.get_related_synsets("syn1", SynsetRelType::Hypernym).unwrap();
    assert_eq!(related.len(), 1);
    assert_eq!(related[0].id, "syn2");
}

#[test]
fn sense_ownership_round_trips() {
    let wn = WordNet::from_resource(&cat_dog_corpus()).unwrap();
    let owner = wn.get_entry_id_for_sense("s-cat-1").unwrap();
    assert_eq!(owner.as_deref(), Some("w-cat"));
    let entry = wn.get_entry_by_id("w-cat").unwrap().unwrap();
    assert!(entry.senses.iter().any(|s| s.id == "s-cat-1"));
    assert_eq!(wn.get_entry_id_for_sense("nope").unwrap(), None);
}

#[test]
fn membership_splits_across_synsets_and_counts_drops() {
    // A synset declares members="w1 w2" but w2's only sense targets a
    // different synset: only w1's sense belongs, and one reference is
    // counted as dropped.
    let mut lex = lexicon_shell("test-en");
    lex.lexical_entries.push(entry("w1", "alpha", PartOfSpeech::N, vec![sense("s1", "synA")]));
    lex.lexical_entries.push(entry("w2", "beta", PartOfSpeech::N, vec![sense("s2", "synB")]));
    lex.synsets.push(synset("synA", PartOfSpeech::N, "w1 w2", "the first concept"));
    lex.synsets.push(synset("synB", PartOfSpeech::N, "w2", "the second concept"));
    let wn = WordNet::from_resource(&LexicalResource { lexicons: vec![lex] }).unwrap();

    let member_senses = wn.get_senses_for_synset("synA").unwrap();
    assert_eq!(member_senses.len(), 1);
    assert_eq!(member_senses[0].id, "s1");
    assert_eq!(wn.get_dropped_member_count("synA"), Some(1));

    let member_senses = wn.get_senses_for_synset("synB").unwrap();
    assert_eq!(member_senses.len(), 1);
    assert_eq!(member_senses[0].id, "s2");
    assert_eq!(wn.get_dropped_member_count("synB"), Some(0));
}

#[test]
fn membership_keeps_only_targeting_senses_of_one_entry() {
    // One entry whose senses span two synsets: each synset's membership
    // keeps only the senses targeting it, never both.
    let mut lex = lexicon_shell("test-en");
    lex.lexical_entries.push(entry(
        "w1",
        "bank",
        PartOfSpeech::N,
        vec![sense("s1", "synA"), sense("s2", "synB")],
    ));
    lex.synsets.push(synset("synA", PartOfSpeech::N, "w1", "a financial institution"));
    lex.synsets.push(synset("synB", PartOfSpeech::N, "w1", "sloping land beside water"));
    let wn = WordNet::from_resource(&LexicalResource { lexicons: vec![lex] }).unwrap();

    let a = wn.get_senses_for_synset("synA").unwrap();
    assert_eq!(a.len(), 1);
    assert_eq!(a[0].id, "s1");
    let b = wn.get_senses_for_synset("synB").unwrap();
    assert_eq!(b.len(), 1);
    assert_eq!(b[0].id, "s2");
}

#[test]
fn missing_ids_are_explicit_not_found() {
    let wn = WordNet::from_resource(&cat_dog_corpus()).unwrap();
    assert!(matches!(wn.get_synset("syn-x"), Err(OewnError::SynsetNotFound(_))));
    assert!(matches!(wn.get_sense("s-x"), Err(OewnError::SenseNotFound(_))));
    assert!(wn.get_entry_by_id("w-x").unwrap().is_none());
    let y = wn.get_synset("syn1").unwrap();
    assert_eq!(y.definitions[0].text, "a small domesticated carnivorous mammal");
}

#[test]
fn duplicate_ids_are_rejected() {
    let mut lex = lexicon_shell("test-en");
    lex.lexical_entries.push(entry("w1", "left", PartOfSpeech::N, vec![sense("s1", "synA")]));
    lex.lexical_entries.push(entry("w1", "right", PartOfSpeech::N, vec![sense("s2", "synA")]));
    lex.synsets.push(synset("synA", PartOfSpeech::N, "w1", "a concept"));
    assert!(WordNet::from_resource(&LexicalResource { lexicons: vec![lex] }).is_err());
}

#[test]
fn random_and_all_entries_cover_the_population() {
    let wn = WordNet::from_resource(&cat_dog_corpus()).unwrap();
    let all = wn.all_entries().unwrap();
    assert_eq!(all.len(), 2);
    let mut ids: Vec<String> = all.iter().map(|e| e.id.clone()).collect();
    ids.sort();
    assert_eq!(ids, vec!["w-cat".to_string(), "w-dog".to_string()]);
    for _ in 0..16 {
        let e = wn.get_random_entry().unwrap();
        assert!(e.id == "w-cat" || e.id == "w-dog");
    }
    let empty = WordNet::from_resource(&LexicalResource { lexicons: Vec::new() }).unwrap();
    assert!(empty.get_random_entry().is_err());
}

#[test]
fn related_senses_dedup_and_skip_dangling() {
    let mut lex = lexicon_shell("test-en");
    let mut s1 = sense("s1", "synA");
    s1.sense_relations.push(SenseRelation {
        rel_type: SenseRelType::Antonym,
        target: "s2".to_string(),
    });
    s1.sense_relations.push(SenseRelation {
        rel_type: SenseRelType::Antonym,
        target: "s2".to_string(),
    });
    s1.sense_relations.push(SenseRelation {
        rel_type: SenseRelType::Antonym,
        target: "s-dangling".to_string(),
    });
    s1.sense_relations.push(SenseRelation {
        rel_type: SenseRelType::Derivation,
        target: "s3".to_string(),
    });
    lex.lexical_entries.push(entry("w1", "hot", PartOfSpeech::A, vec![s1]));
    lex.lexical_entries.push(entry("w2", "cold", PartOfSpeech::A, vec![sense("s2", "synB")]));
    lex.lexical_entries.push(entry("w3", "heat", PartOfSpeech::N, vec![sense("s3", "synC")]));
    lex.synsets.push(synset("synA", PartOfSpeech::A, "w1", "high temperature"));
    lex.synsets.push(synset("synB", PartOfSpeech::A, "w2", "low temperature"));
    lex.synsets.push(synset("synC", PartOfSpeech::N, "w3", "the quality of being hot"));
    let wn = WordNet::from_resource(&LexicalResource { lexicons: vec![lex] }).unwrap();

    let ants = wn.get_related_senses("s1", SenseRelType::Antonym).unwrap();
    assert_eq!(ants.len(), 1);
    assert_eq!(ants[0].id, "s2");
    let ders = wn.get_related_senses("s1", SenseRelType::Derivation).unwrap();
    assert_eq!(ders.len(), 1);
    assert_eq!(ders[0].id, "s3");
    assert!(wn.get_related_senses("s-unknown", SenseRelType::Antonym).unwrap().is_empty());
}

#[test]
fn pronunciations_carry_through_lookup() {
    let mut lex = lexicon_shell("test-en");
    let mut e = entry("w1", "rabbit", PartOfSpeech::N, vec![sense("s1", "synA")]);
    e.pronunciations.push(Pronunciation {
        variety: "en-GB-fonipa".to_string(),
        notation: None,
        phonemic: true,
        audio: Some("http://example.com/rabbit.flac".to_string()),
        text: "'r\u{00e6}b\u{026a}t".to_string(),
    });
    e.pronunciations.push(Pronunciation {
        variety: "en-US-fonipa".to_string(),
        notation: None,
        phonemic: false,
        audio: None,
        text: "'\u{0279}\u{00e6}b\u{026a}t".to_string(),
    });
    lex.lexical_entries.push(e);
    lex.synsets.push(synset("synA", PartOfSpeech::N, "w1", "a burrowing mammal"));
    let wn = WordNet::from_resource(&LexicalResource { lexicons: vec![lex] }).unwrap();
    let found = wn.lookup_entries("rabbit", None).unwrap();
    assert_eq!(found.len(), 1);
    assert_eq!(found[0].pronunciations.len(), 2);
    assert_eq!(found[0].pronunciations[0].variety, "en-GB-fonipa");
    assert!(found[0].pronunciations[0].phonemic);
    assert_eq!(
        found[0].pronunciations[0].audio.as_deref(),
        Some("http://example.com/rabbit.flac")
    );
    assert_eq!(found[0].pronunciations[1].variety, "en-US-fonipa");
    assert!(!found[0].pronunciations[1].phonemic);
}

#[test]
fn synonyms_are_sorted_distinct_and_exclude_the_displayed_form() {
    let mut lex = lexicon_shell("test-en");
    lex.lexical_entries.push(entry("w1", "zebra crossing", PartOfSpeech::N, vec![sense(
        "s1", "synA",
    )]));
    lex.lexical_entries.push(entry("w2", "crosswalk", PartOfSpeech::N, vec![sense(
        "s2", "synA",
    )]));
    lex.lexical_entries.push(entry("w3", "pedestrian crossing", PartOfSpeech::N, vec![sense(
        "s3", "synA",
    )]));
    lex.synsets.push(synset(
        "synA",
        PartOfSpeech::N,
        "w1 w2 w3",
        "a marked street crossing for walkers",
    ));
    let wn = WordNet::from_resource(&LexicalResource { lexicons: vec![lex] }).unwrap();
    let syns = wn.get_synonyms("synA", "crosswalk").unwrap();
    assert_eq!(
        syns,
        vec!["pedestrian crossing".to_string(), "zebra crossing".to_string()]
    );
    let all = wn.get_synonyms("synA", "").unwrap();
    assert_eq!(all.len(), 3);
    assert_eq!(all[0], "crosswalk");
    assert!(wn.get_synonyms("syn-missing", "x").unwrap().is_empty());
}
