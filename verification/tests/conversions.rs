//! Storage-tag conversions and member-list splitting.

use oewn_rs::PartOfSpeech;
use oewn_rs::SenseRelType;
use oewn_rs::SynsetRelType;
use oewn_rs::models::parse_members;
use oewn_rs::models::part_of_speech_to_string;
use oewn_rs::models::sense_rel_type_to_string;
use oewn_rs::models::string_to_part_of_speech;
use oewn_rs::models::string_to_sense_rel_type;
use oewn_rs::models::string_to_synset_rel_type;
use oewn_rs::models::synset_rel_type_to_string;
use oewn_rs::progress::ProgressUpdate;

#[test]
fn part_of_speech_tags_round_trip() {
    let all = [
        PartOfSpeech::N,
        PartOfSpeech::V,
        PartOfSpeech::A,
        PartOfSpeech::R,
        PartOfSpeech::S,
        PartOfSpeech::C,
        PartOfSpeech::P,
        PartOfSpeech::X,
        PartOfSpeech::U,
    ];
    for pos in all {
        let tag = part_of_speech_to_string(pos);
        assert_eq!(string_to_part_of_speech(tag).unwrap(), pos);
    }
    assert_eq!(part_of_speech_to_string(PartOfSpeech::N), "n");
    assert!(string_to_part_of_speech("q").is_err());
    assert!(string_to_part_of_speech("noun").is_err());
}

#[test]
fn sense_rel_tags_round_trip() {
    let all = [
        SenseRelType::Antonym,
        SenseRelType::Also,
        SenseRelType::Participle,
        SenseRelType::Pertainym,
        SenseRelType::Derivation,
        SenseRelType::DomainTopic,
        SenseRelType::DomainMemberTopic,
        SenseRelType::DomainRegion,
        SenseRelType::DomainMemberRegion,
        SenseRelType::Exemplifies,
        SenseRelType::IsExemplifiedBy,
        SenseRelType::Other,
    ];
    for rel in all {
        let tag = sense_rel_type_to_string(rel);
        assert_eq!(string_to_sense_rel_type(tag).unwrap(), rel);
    }
    assert_eq!(sense_rel_type_to_string(SenseRelType::DomainMemberTopic), "domain_member_topic");
    assert_eq!(string_to_sense_rel_type("left_handedness").unwrap(), SenseRelType::Other);
}

#[test]
fn synset_rel_tags_round_trip() {
    let sample = [
        SynsetRelType::Hypernym,
        SynsetRelType::Hyponym,
        SynsetRelType::InstanceHypernym,
        SynsetRelType::MeroMember,
        SynsetRelType::HoloSubstance,
        SynsetRelType::Entails,
        SynsetRelType::Causes,
        SynsetRelType::Similar,
        SynsetRelType::Attribute,
        SynsetRelType::IsExemplifiedBy,
        SynsetRelType::AntoConverse,
        SynsetRelType::CoAgentInstrument,
        SynsetRelType::EqSynonym,
        SynsetRelType::HasFeminine,
        SynsetRelType::InvolvedSourceDirection,
        SynsetRelType::IrSynonym,
        SynsetRelType::MannerOf,
        SynsetRelType::Other,
        SynsetRelType::SecondaryAspectIp,
        SynsetRelType::SimpleAspectPi,
        SynsetRelType::TargetDirection,
        SynsetRelType::Young,
        SynsetRelType::Unknown,
    ];
    for rel in sample {
        let tag = synset_rel_type_to_string(rel);
        assert_eq!(string_to_synset_rel_type(tag).unwrap(), rel);
    }
    assert_eq!(synset_rel_type_to_string(SynsetRelType::InstanceHypernym), "instance_hypernym");
    assert_eq!(
        string_to_synset_rel_type("definitely_not_a_relation").unwrap(),
        SynsetRelType::Unknown
    );
}

#[test]
fn member_lists_split_on_whitespace() {
    assert_eq!(parse_members("w1 w2"), vec!["w1".to_string(), "w2".to_string()]);
    assert_eq!(parse_members(""), Vec::<String>::new());
    assert_eq!(parse_members("   "), Vec::<String>::new());
    assert_eq!(
        parse_members("  a\tb\n c  "),
        vec!["a".to_string(), "b".to_string(), "c".to_string()]
    );
    assert_eq!(parse_members("single"), vec!["single".to_string()]);
    // The full Unicode white-space set separates, as str::split_whitespace does.
    assert_eq!(
        parse_members("a\u{000B}b\u{000C}c\u{00A0}d\u{2003}e"),
        vec!["a".to_string(), "b".to_string(), "c".to_string(), "d".to_string(), "e".to_string()]
    );
    assert_eq!(
        parse_members("w1 w2")
            .into_iter()
            .collect::<Vec<_>>(),
        "w1 w2".split_whitespace().map(str::to_string).collect::<Vec<_>>()
    );
}

#[test]
fn progress_update_carries_its_fields() {
    let u = ProgressUpdate::new("Reading".to_string(), 3, Some(10), Some("almost".to_string()));
    assert_eq!(u.stage_description, "Reading");
    assert_eq!(u.current_item, 3);
    assert_eq!(u.total_items, Some(10));
    assert_eq!(u.message.as_deref(), Some("almost"));
    let s = ProgressUpdate::new_stage("Parsing".to_string(), None);
    assert_eq!(s.current_item, 0);
    assert!(s.total_items.is_none());
    assert!(s.message.is_none());
}
