//! Snapshot round trip and version guard.

use oewn_rs::Definition;
use oewn_rs::Lemma;
use oewn_rs::LexicalEntry;
use oewn_rs::LexicalResource;
use oewn_rs::Lexicon;
use oewn_rs::OewnError;
use oewn_rs::PartOfSpeech;
use oewn_rs::Sense;
use oewn_rs::Synset;
use oewn_rs::SynsetRelType;
use oewn_rs::SynsetRelation;
use oewn_rs::WordNet;

fn sample() -> LexicalResource {
    let entry_cat = LexicalEntry {
        id: "w-cat".to_string(),
        lemma: Lemma { written_form: "cat".to_string(), part_of_speech: PartOfSpeech::N },
        pronunciations: Vec::new(),
        senses: vec![Sense {
            id: "s-cat-1".to_string(),
            synset: "syn1".to_string(),
            sense_relations: Vec::new(),
        }],
    };
    let entry_feline = LexicalEntry {
        id: "w-feline".to_string(),
        lemma: Lemma { written_form: "feline".to_string(), part_of_speech: PartOfSpeech::N },
        pronunciations: Vec::new(),
        senses: vec![Sense {
            id: "s-feline-1".to_string(),
            synset: "syn1".to_string(),
            sense_relations: Vec::new(),
        }],
    };
    let mut syn1 = Synset {
        id: "syn1".to_string(),
        ili: Some("i100".to_string()),
        part_of_speech: PartOfSpeech::N,
        members: "w-cat w-feline".to_string(),
        definitions: vec![Definition {
            dc_source: None,
            text: "a small domesticated carnivorous mammal".to_string(),
        }],
        ili_definition: None,
        synset_relations: Vec::new(),
        examples: Vec::new(),
    };
    syn1.synset_relations.push(SynsetRelation {
        rel_type: SynsetRelType::Hypernym,
        target: "syn2".to_string(),
    });
    let syn2 = Synset {
        id: "syn2".to_string(),
        ili: None,
        part_of_speech: PartOfSpeech::N,
        members: String::new(),
        definitions: vec![Definition { dc_source: None, text: "an animal".to_string() }],
        ili_definition: None,
        synset_relations: Vec::new(),
        examples: Vec::new(),
    };
    let lex = Lexicon {
        id: "test-en".to_string(),
        label: "Test".to_string(),
        language: "en".to_string(),
        email: "a@b.c".to_string(),
        license: "l".to_string(),
        version: "1".to_string(),
        url: Some("https://example.com".to_string()),
        citation: None,
        logo: None,
        status: None,
        dc_publisher: Some("pub".to_string()),
        dc_contributor: None,
        requires: Vec::new(),
        lexical_entries: vec![entry_cat, entry_feline],
        synsets: vec![syn1, syn2],
    };
    LexicalResource { lexicons: vec![lex] }
}

fn ids_of(entries: &[LexicalEntry]) -> Vec<String> {
    let mut v: Vec<String> = entries.iter().map(|e| e.id.clone()).collect();
    v.sort();
    v
}

#[test]
fn round_trip_preserves_query_results() {
    let wn = WordNet::from_resource(&sample()).unwrap();
    let bytes = wn.to_snapshot();
    let wn2 = WordNet::from_snapshot(&bytes).unwrap();

    let a = wn.lookup_entries("CAT", None).unwrap();
    let b = wn2.lookup_entries("CAT", None).unwrap();
    assert_eq!(ids_of(&a), ids_of(&b));
    assert_eq!(a.len(), 1);

    let ra = wn.get_related_synsets("syn1", SynsetRelType::Hypernym).unwrap();
    let rb = wn2.get_related_synsets("syn1", SynsetRelType::Hypernym).unwrap();
    assert_eq!(ra.len(), 1);
    assert_eq!(rb.len(), 1);
    assert_eq!(ra[0].id, rb[0].id);

    let all_a = wn.all_entries().unwrap();
    let all_b = wn2.all_entries().unwrap();
    assert_eq!(ids_of(&all_a), ids_of(&all_b));

    let m_a = wn.get_senses_for_synset("syn1").unwrap();
    let m_b = wn2.get_senses_for_synset("syn1").unwrap();
    assert_eq!(m_a.len(), 2);
    assert_eq!(m_a.len(), m_b.len());
    assert_eq!(m_a[0].id, m_b[0].id);
    assert_eq!(m_a[1].id, m_b[1].id);
}

#[test]
fn incompatible_version_is_rejected() {
    let wn = WordNet::from_resource(&sample()).unwrap();
    let mut bytes = wn.to_snapshot();
    // Older and newer versions alike must be refused outright.
    bytes[0] = bytes[0].wrapping_add(1);
    assert!(matches!(WordNet::from_snapshot(&bytes), Err(OewnError::FormatError(_))));
    bytes[0] = bytes[0].wrapping_sub(2);
    assert!(matches!(WordNet::from_snapshot(&bytes), Err(OewnError::FormatError(_))));
}

#[test]
fn truncated_or_garbled_snapshots_fail_loudly() {
    let wn = WordNet::from_resource(&sample()).unwrap();
    let bytes = wn.to_snapshot();
    let truncated: Vec<u8> = bytes[..bytes.len() - 3].to_vec();
    assert!(WordNet::from_snapshot(&truncated).is_err());
    let tiny: Vec<u8> = vec![1, 0];
    assert!(WordNet::from_snapshot(&tiny).is_err());
    let mut trailing = bytes.clone();
    trailing.push(0);
    assert!(WordNet::from_snapshot(&trailing).is_err());
}
