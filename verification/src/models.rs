//! Record model for a WordNet-LMF lexical resource.
//!
//! These are the typed entities a parsed document is made of: lexicons,
//! lexical entries with lemmas, pronunciations and senses, synsets with
//! definitions and examples, and the typed relations between senses and
//! between synsets.  Each record type carries a ghost view so contracts can
//! speak about its contents as mathematical sequences of characters.

use vstd::prelude::*;
use vstd::string::StringExecFns;

use crate::error::OewnError;

verus! {

/// Exact equality of two string slices, compared by contents.
pub fn str_eq(a: &str, b: &str) -> (r: bool)
    ensures
        r == (a@ == b@),
{
    let aa: String = a.to_owned();
    let bb: String = b.to_owned();
    aa == bb
}

/// The view of an optional string: its contents, if present.
pub open spec fn opt_str_view(o: Option<String>) -> Option<Seq<char>> {
    match o {
        Some(s) => Some(s@),
        None => None,
    }
}

/// Copies an optional string, contents for contents.
pub fn dup_opt_string(o: &Option<String>) -> (r: Option<String>)
    ensures
        opt_str_view(r) == opt_str_view(*o),
{
    match o {
        Some(s) => Some(s.clone()),
        None => None,
    }
}

/// The views of a sequence of strings.
pub open spec fn strs_view(v: Seq<String>) -> Seq<Seq<char>> {
    v.map_values(|s: String| s@)
}

/// Copies a vector of strings, contents for contents.
pub fn dup_strings(v: &Vec<String>) -> (r: Vec<String>)
    ensures
        strs_view(r@) == strs_view(v@),
{
    let mut out: Vec<String> = Vec::new();
    let mut i: usize = 0;
    while i < v.len()
        invariant
            i <= v.len(),
            out@.len() == i,
            forall|j: int| 0 <= j < i ==> out@[j]@ == v@[j]@,
        decreases v.len() - i,
    {
        out.push(v[i].clone());
        i = i + 1;
    }
    proof {
        assert(strs_view(out@) =~= strs_view(v@));
    }
    out
}

/// A record type whose values can be copied exactly, as witnessed by its view.
pub trait Dup: View + Sized {
    /// An exact copy: same view, field for field.
    fn duplicate(&self) -> (r: Self)
        ensures
            r@ == self@,
    ;
}

/// The views of a sequence of records.
pub open spec fn views_of<T: View>(v: Seq<T>) -> Seq<<T as View>::V> {
    v.map_values(|t: T| t@)
}

/// Copies a vector of records, view for view.
pub fn dup_vec<T: Dup>(v: &Vec<T>) -> (r: Vec<T>)
    ensures
        views_of(r@) == views_of(v@),
{
    let mut out: Vec<T> = Vec::new();
    let mut i: usize = 0;
    while i < v.len()
        invariant
            i <= v.len(),
            out@.len() == i,
            forall|j: int| 0 <= j < i ==> out@[j]@ == v@[j]@,
        decreases v.len() - i,
    {
        out.push(v[i].duplicate());
        i = i + 1;
    }
    proof {
        assert(views_of(out@) =~= views_of(v@));
    }
    out
}

/// Part-of-speech tags following WordNet conventions.
#[derive(Debug, Clone, Copy, PartialEq, Eq, Structural)]
pub enum PartOfSpeech {
    /// Noun
    N,
    /// Verb
    V,
    /// Adjective
    A,
    /// Adverb
    R,
    /// Adjective satellite
    S,
    /// Conjunction
    C,
    /// Adposition
    P,
    /// Other
    X,
    /// Unknown
    U,
}

/// The single-letter tag under which a part of speech is stored.
pub open spec fn spec_pos_string(pos: PartOfSpeech) -> Seq<char> {
    match pos {
        PartOfSpeech::N => "n"@,
        PartOfSpeech::V => "v"@,
        PartOfSpeech::A => "a"@,
        PartOfSpeech::R => "r"@,
        PartOfSpeech::S => "s"@,
        PartOfSpeech::C => "c"@,
        PartOfSpeech::P => "p"@,
        PartOfSpeech::X => "x"@,
        PartOfSpeech::U => "u"@,
    }
}

/// The part of speech a stored tag decodes to, if the tag is recognized.
pub open spec fn spec_decode_pos(s: Seq<char>) -> Option<PartOfSpeech> {
    if s == spec_pos_string(PartOfSpeech::N) { Some(PartOfSpeech::N) }
    else if s == spec_pos_string(PartOfSpeech::V) { Some(PartOfSpeech::V) }
    else if s == spec_pos_string(PartOfSpeech::A) { Some(PartOfSpeech::A) }
    else if s == spec_pos_string(PartOfSpeech::R) { Some(PartOfSpeech::R) }
    else if s == spec_pos_string(PartOfSpeech::S) { Some(PartOfSpeech::S) }
    else if s == spec_pos_string(PartOfSpeech::C) { Some(PartOfSpeech::C) }
    else if s == spec_pos_string(PartOfSpeech::P) { Some(PartOfSpeech::P) }
    else if s == spec_pos_string(PartOfSpeech::X) { Some(PartOfSpeech::X) }
    else if s == spec_pos_string(PartOfSpeech::U) { Some(PartOfSpeech::U) }
    else { None }
}

/// Converts a part of speech to its single-letter storage tag.
pub fn part_of_speech_to_string(pos: PartOfSpeech) -> (r: &'static str)
    ensures
        r@ == spec_pos_string(pos),
{
    match pos {
        PartOfSpeech::N => "n",
        PartOfSpeech::V => "v",
        PartOfSpeech::A => "a",
        PartOfSpeech::R => "r",
        PartOfSpeech::S => "s",
        PartOfSpeech::C => "c",
        PartOfSpeech::P => "p",
        PartOfSpeech::X => "x",
        PartOfSpeech::U => "u",
    }
}

/// Decodes a stored single-letter tag back to a part of speech; any other
/// string is rejected with a parse error.
pub fn string_to_part_of_speech(s: &str) -> (r: Result<PartOfSpeech, OewnError>)
    ensures
        match spec_decode_pos(s@) {
            Some(p) => r == Ok::<PartOfSpeech, OewnError>(p),
            None => r is Err,
        },
{
    if str_eq(s, "n") { Ok(PartOfSpeech::N) }
    else if str_eq(s, "v") { Ok(PartOfSpeech::V) }
    else if str_eq(s, "a") { Ok(PartOfSpeech::A) }
    else if str_eq(s, "r") { Ok(PartOfSpeech::R) }
    else if str_eq(s, "s") { Ok(PartOfSpeech::S) }
    else if str_eq(s, "c") { Ok(PartOfSpeech::C) }
    else if str_eq(s, "p") { Ok(PartOfSpeech::P) }
    else if str_eq(s, "x") { Ok(PartOfSpeech::X) }
    else if str_eq(s, "u") { Ok(PartOfSpeech::U) }
    else {
        Err(OewnError::ParseError("unrecognized part-of-speech tag: ".to_owned().concat(s)))
    }
}

/// Encoding a part of speech and decoding the tag gives the part of speech
/// back: the storage tags are lossless.
pub proof fn lemma_pos_round_trip(pos: PartOfSpeech)
    ensures
        spec_decode_pos(spec_pos_string(pos)) == Some(pos),
{
    reveal_strlit("n");
    reveal_strlit("v");
    reveal_strlit("a");
    reveal_strlit("r");
    reveal_strlit("s");
    reveal_strlit("c");
    reveal_strlit("p");
    reveal_strlit("x");
    reveal_strlit("u");
    assert("n"@[0] == 'n');
    assert("v"@[0] == 'v');
    assert("a"@[0] == 'a');
    assert("r"@[0] == 'r');
    assert("s"@[0] == 's');
    assert("c"@[0] == 'c');
    assert("p"@[0] == 'p');
    assert("x"@[0] == 'x');
    assert("u"@[0] == 'u');
}

/// Typed relationships between senses; `Other` stands for any tag outside
/// the known enumeration, so decoding never fails on corpus evolution.
#[derive(Debug, Clone, Copy, PartialEq, Eq, Structural)]
pub enum SenseRelType {
    Antonym,
    Also,
    Participle,
    Pertainym,
    Derivation,
    DomainTopic,
    DomainMemberTopic,
    DomainRegion,
    DomainMemberRegion,
    Exemplifies,
    IsExemplifiedBy,
    Other,
}

/// The snake_case tag under which a sense-relation kind is stored.
pub open spec fn spec_sense_rel_string(t: SenseRelType) -> Seq<char> {
    match t {
        SenseRelType::Antonym => "antonym"@,
        SenseRelType::Also => "also"@,
        SenseRelType::Participle => "participle"@,
        SenseRelType::Pertainym => "pertainym"@,
        SenseRelType::Derivation => "derivation"@,
        SenseRelType::DomainTopic => "domain_topic"@,
        SenseRelType::DomainMemberTopic => "domain_member_topic"@,
        SenseRelType::DomainRegion => "domain_region"@,
        SenseRelType::DomainMemberRegion => "domain_member_region"@,
        SenseRelType::Exemplifies => "exemplifies"@,
        SenseRelType::IsExemplifiedBy => "is_exemplified_by"@,
        SenseRelType::Other => "other"@,
    }
}

/// The sense-relation kind a stored tag decodes to; unrecognized tags decode
/// to `Other`.
pub open spec fn spec_decode_sense_rel(s: Seq<char>) -> SenseRelType {
    if s == spec_sense_rel_string(SenseRelType::Antonym) { SenseRelType::Antonym }
    else
    if s == spec_sense_rel_string(SenseRelType::Also) { SenseRelType::Also }
    else
    if s == spec_sense_rel_string(SenseRelType::Participle) { SenseRelType::Participle }
    else
    if s == spec_sense_rel_string(SenseRelType::Pertainym) { SenseRelType::Pertainym }
    else
    if s == spec_sense_rel_string(SenseRelType::Derivation) { SenseRelType::Derivation }
    else
    if s == spec_sense_rel_string(SenseRelType::DomainTopic) { SenseRelType::DomainTopic }
    else
    if s == spec_sense_rel_string(SenseRelType::DomainMemberTopic) { SenseRelType::DomainMemberTopic }
    else
    if s == spec_sense_rel_string(SenseRelType::DomainRegion) { SenseRelType::DomainRegion }
    else
    if s == spec_sense_rel_string(SenseRelType::DomainMemberRegion) { SenseRelType::DomainMemberRegion }
    else
    if s == spec_sense_rel_string(SenseRelType::Exemplifies) { SenseRelType::Exemplifies }
    else
    if s == spec_sense_rel_string(SenseRelType::IsExemplifiedBy) { SenseRelType::IsExemplifiedBy }
    else
    { SenseRelType::Other }
}

/// Converts a sense-relation kind to its storage tag.
pub fn sense_rel_type_to_string(rel_type: SenseRelType) -> (r: &'static str)
    ensures
        r@ == spec_sense_rel_string(rel_type),
{
    match rel_type {
        SenseRelType::Antonym => "antonym",
        SenseRelType::Also => "also",
        SenseRelType::Participle => "participle",
        SenseRelType::Pertainym => "pertainym",
        SenseRelType::Derivation => "derivation",
        SenseRelType::DomainTopic => "domain_topic",
        SenseRelType::DomainMemberTopic => "domain_member_topic",
        SenseRelType::DomainRegion => "domain_region",
        SenseRelType::DomainMemberRegion => "domain_member_region",
        SenseRelType::Exemplifies => "exemplifies",
        SenseRelType::IsExemplifiedBy => "is_exemplified_by",
        SenseRelType::Other => "other",
    }
}

/// Decodes a stored tag back to a sense-relation kind, `Other` for any
/// unrecognized tag.
#[verifier::rlimit(30)]
pub fn string_to_sense_rel_type(s: &str) -> (r: Result<SenseRelType, OewnError>)
    ensures
        r == Ok::<SenseRelType, OewnError>(spec_decode_sense_rel(s@)),
{
    if str_eq(s, "antonym") { return Ok(SenseRelType::Antonym); }
    if str_eq(s, "also") { return Ok(SenseRelType::Also); }
    if str_eq(s, "participle") { return Ok(SenseRelType::Participle); }
    if str_eq(s, "pertainym") { return Ok(SenseRelType::Pertainym); }
    if str_eq(s, "derivation") { return Ok(SenseRelType::Derivation); }
    if str_eq(s, "domain_topic") { return Ok(SenseRelType::DomainTopic); }
    if str_eq(s, "domain_member_topic") { return Ok(SenseRelType::DomainMemberTopic); }
    if str_eq(s, "domain_region") { return Ok(SenseRelType::DomainRegion); }
    if str_eq(s, "domain_member_region") { return Ok(SenseRelType::DomainMemberRegion); }
    if str_eq(s, "exemplifies") { return Ok(SenseRelType::Exemplifies); }
    if str_eq(s, "is_exemplified_by") { return Ok(SenseRelType::IsExemplifiedBy); }
    Ok(SenseRelType::Other)
}

/// Encoding a sense-relation kind and decoding the tag gives the kind back:
/// the storage tags are lossless.
#[verifier::rlimit(50)]
#[verifier::spinoff_prover]
pub proof fn lemma_sense_rel_round_trip(t: SenseRelType)
    ensures
        spec_decode_sense_rel(spec_sense_rel_string(t)) == t,
{
    reveal_strlit("antonym");
    reveal_strlit("also");
    reveal_strlit("participle");
    reveal_strlit("pertainym");
    reveal_strlit("derivation");
    reveal_strlit("domain_topic");
    reveal_strlit("domain_member_topic");
    reveal_strlit("domain_region");
    reveal_strlit("domain_member_region");
    reveal_strlit("exemplifies");
    reveal_strlit("is_exemplified_by");
    reveal_strlit("other");
    assert("antonym"@.len() == 7);
    assert("also"@.len() == 4);
    assert("participle"@.len() == 10);
    assert("pertainym"@.len() == 9);
    assert("derivation"@.len() == 10);
    assert("domain_topic"@.len() == 12);
    assert("domain_member_topic"@.len() == 19);
    assert("domain_region"@.len() == 13);
    assert("domain_member_region"@.len() == 20);
    assert("exemplifies"@.len() == 11);
    assert("is_exemplified_by"@.len() == 17);
    assert("other"@.len() == 5);
    assert("derivation"@[0] == 'd');
    assert("participle"@[0] == 'p');
    match t {
        SenseRelType::Antonym => {
            assert(spec_decode_sense_rel("antonym"@) == SenseRelType::Antonym);
        },
        SenseRelType::Also => {
            assert(spec_decode_sense_rel("also"@) == SenseRelType::Also);
        },
        SenseRelType::Participle => {
            assert(spec_decode_sense_rel("participle"@) == SenseRelType::Participle);
        },
        SenseRelType::Pertainym => {
            assert(spec_decode_sense_rel("pertainym"@) == SenseRelType::Pertainym);
        },
        SenseRelType::Derivation => {
            assert(spec_decode_sense_rel("derivation"@) == SenseRelType::Derivation);
        },
        SenseRelType::DomainTopic => {
            assert(spec_decode_sense_rel("domain_topic"@) == SenseRelType::DomainTopic);
        },
        SenseRelType::DomainMemberTopic => {
            assert(spec_decode_sense_rel("domain_member_topic"@) == SenseRelType::DomainMemberTopic);
        },
        SenseRelType::DomainRegion => {
            assert(spec_decode_sense_rel("domain_region"@) == SenseRelType::DomainRegion);
        },
        SenseRelType::DomainMemberRegion => {
            assert(spec_decode_sense_rel("domain_member_region"@) == SenseRelType::DomainMemberRegion);
        },
        SenseRelType::Exemplifies => {
            assert(spec_decode_sense_rel("exemplifies"@) == SenseRelType::Exemplifies);
        },
        SenseRelType::IsExemplifiedBy => {
            assert(spec_decode_sense_rel("is_exemplified_by"@) == SenseRelType::IsExemplifiedBy);
        },
        SenseRelType::Other => {
            assert(spec_decode_sense_rel("other"@) == SenseRelType::Other);
        },
    }
}

/// Typed relationships between synsets, covering both Princeton WordNet
/// relations and the extended relations of the WordNet-LMF specification;
/// `Unknown` stands for any tag outside the enumeration.
#[derive(Debug, Clone, Copy, PartialEq, Eq, Structural)]
pub enum SynsetRelType {
    Hypernym,
    Hyponym,
    InstanceHypernym,
    InstanceHyponym,
    MeroMember,
    MeroPart,
    MeroSubstance,
    HoloMember,
    HoloPart,
    HoloSubstance,
    Entails,
    Causes,
    Similar,
    Attribute,
    DomainRegion,
    DomainTopic,
    HasDomainRegion,
    HasDomainTopic,
    Exemplifies,
    IsExemplifiedBy,
    Agent,
    Also,
    AntoConverse,
    AntoGradable,
    AntoSimple,
    Antonym,
    Augmentative,
    BeInState,
    ClassifiedBy,
    Classifies,
    CoAgentInstrument,
    CoAgentPatient,
    CoAgentResult,
    CoInstrumentAgent,
    CoInstrumentPatient,
    CoInstrumentResult,
    CoPatientAgent,
    CoPatientInstrument,
    CoResultAgent,
    CoResultInstrument,
    CoRole,
    Constitutive,
    Derivation,
    Diminutive,
    Direction,
    Domain,
    EqSynonym,
    Feminine,
    HasAugmentative,
    HasDiminutive,
    HasDomain,
    HasFeminine,
    HasMasculine,
    HasYoung,
    HoloLocation,
    HoloPortion,
    Holonym,
    InManner,
    Instrument,
    Involved,
    InvolvedAgent,
    InvolvedDirection,
    InvolvedInstrument,
    InvolvedLocation,
    InvolvedPatient,
    InvolvedResult,
    InvolvedSourceDirection,
    InvolvedTargetDirection,
    IrSynonym,
    IsCausedBy,
    IsEntailedBy,
    IsSubeventOf,
    Location,
    MannerOf,
    Masculine,
    MeroLocation,
    MeroPortion,
    Meronym,
    Other,
    Participle,
    Patient,
    Pertainym,
    RestrictedBy,
    Restricts,
    Result,
    Role,
    SecondaryAspectIp,
    SecondaryAspectPi,
    SimpleAspectIp,
    SimpleAspectPi,
    SourceDirection,
    StateOf,
    Subevent,
    TargetDirection,
    Young,
    Unknown,
}

/// The snake_case tag under which a synset-relation kind is stored.
pub open spec fn spec_synset_rel_string(t: SynsetRelType) -> Seq<char> {
    match t {
        SynsetRelType::Hypernym => "hypernym"@,
        SynsetRelType::Hyponym => "hyponym"@,
        SynsetRelType::InstanceHypernym => "instance_hypernym"@,
        SynsetRelType::InstanceHyponym => "instance_hyponym"@,
        SynsetRelType::MeroMember => "mero_member"@,
        SynsetRelType::MeroPart => "mero_part"@,
        SynsetRelType::MeroSubstance => "mero_substance"@,
        SynsetRelType::HoloMember => "holo_member"@,
        SynsetRelType::HoloPart => "holo_part"@,
        SynsetRelType::HoloSubstance => "holo_substance"@,
        SynsetRelType::Entails => "entails"@,
        SynsetRelType::Causes => "causes"@,
        SynsetRelType::Similar => "similar"@,
        SynsetRelType::Attribute => "attribute"@,
        SynsetRelType::DomainRegion => "domain_region"@,
        SynsetRelType::DomainTopic => "domain_topic"@,
        SynsetRelType::HasDomainRegion => "has_domain_region"@,
        SynsetRelType::HasDomainTopic => "has_domain_topic"@,
        SynsetRelType::Exemplifies => "exemplifies"@,
        SynsetRelType::IsExemplifiedBy => "is_exemplified_by"@,
        SynsetRelType::Agent => "agent"@,
        SynsetRelType::Also => "also"@,
        SynsetRelType::AntoConverse => "anto_converse"@,
        SynsetRelType::AntoGradable => "anto_gradable"@,
        SynsetRelType::AntoSimple => "anto_simple"@,
        SynsetRelType::Antonym => "antonym"@,
        SynsetRelType::Augmentative => "augmentative"@,
        SynsetRelType::BeInState => "be_in_state"@,
        SynsetRelType::ClassifiedBy => "classified_by"@,
        SynsetRelType::Classifies => "classifies"@,
        SynsetRelType::CoAgentInstrument => "co_agent_instrument"@,
        SynsetRelType::CoAgentPatient => "co_agent_patient"@,
        SynsetRelType::CoAgentResult => "co_agent_result"@,
        SynsetRelType::CoInstrumentAgent => "co_instrument_agent"@,
        SynsetRelType::CoInstrumentPatient => "co_instrument_patient"@,
        SynsetRelType::CoInstrumentResult => "co_instrument_result"@,
        SynsetRelType::CoPatientAgent => "co_patient_agent"@,
        SynsetRelType::CoPatientInstrument => "co_patient_instrument"@,
        SynsetRelType::CoResultAgent => "co_result_agent"@,
        SynsetRelType::CoResultInstrument => "co_result_instrument"@,
        SynsetRelType::CoRole => "co_role"@,
        SynsetRelType::Constitutive => "constitutive"@,
        SynsetRelType::Derivation => "derivation"@,
        SynsetRelType::Diminutive => "diminutive"@,
        SynsetRelType::Direction => "direction"@,
        SynsetRelType::Domain => "domain"@,
        SynsetRelType::EqSynonym => "eq_synonym"@,
        SynsetRelType::Feminine => "feminine"@,
        SynsetRelType::HasAugmentative => "has_augmentative"@,
        SynsetRelType::HasDiminutive => "has_diminutive"@,
        SynsetRelType::HasDomain => "has_domain"@,
        SynsetRelType::HasFeminine => "has_feminine"@,
        SynsetRelType::HasMasculine => "has_masculine"@,
        SynsetRelType::HasYoung => "has_young"@,
        SynsetRelType::HoloLocation => "holo_location"@,
        SynsetRelType::HoloPortion => "holo_portion"@,
        SynsetRelType::Holonym => "holonym"@,
        SynsetRelType::InManner => "in_manner"@,
        SynsetRelType::Instrument => "instrument"@,
        SynsetRelType::Involved => "involved"@,
        SynsetRelType::InvolvedAgent => "involved_agent"@,
        SynsetRelType::InvolvedDirection => "involved_direction"@,
        SynsetRelType::InvolvedInstrument => "involved_instrument"@,
        SynsetRelType::InvolvedLocation => "involved_location"@,
        SynsetRelType::InvolvedPatient => "involved_patient"@,
        SynsetRelType::InvolvedResult => "involved_result"@,
        SynsetRelType::InvolvedSourceDirection => "involved_source_direction"@,
        SynsetRelType::InvolvedTargetDirection => "involved_target_direction"@,
        SynsetRelType::IrSynonym => "ir_synonym"@,
        SynsetRelType::IsCausedBy => "is_caused_by"@,
        SynsetRelType::IsEntailedBy => "is_entailed_by"@,
        SynsetRelType::IsSubeventOf => "is_subevent_of"@,
        SynsetRelType::Location => "location"@,
        SynsetRelType::MannerOf => "manner_of"@,
        SynsetRelType::Masculine => "masculine"@,
        SynsetRelType::MeroLocation => "mero_location"@,
        SynsetRelType::MeroPortion => "mero_portion"@,
        SynsetRelType::Meronym => "meronym"@,
        SynsetRelType::Other => "other"@,
        SynsetRelType::Participle => "participle"@,
        SynsetRelType::Patient => "patient"@,
        SynsetRelType::Pertainym => "pertainym"@,
        SynsetRelType::RestrictedBy => "restricted_by"@,
        SynsetRelType::Restricts => "restricts"@,
        SynsetRelType::Result => "result"@,
        SynsetRelType::Role => "role"@,
        SynsetRelType::SecondaryAspectIp => "secondary_aspect_ip"@,
        SynsetRelType::SecondaryAspectPi => "secondary_aspect_pi"@,
        SynsetRelType::SimpleAspectIp => "simple_aspect_ip"@,
        SynsetRelType::SimpleAspectPi => "simple_aspect_pi"@,
        SynsetRelType::SourceDirection => "source_direction"@,
        SynsetRelType::StateOf => "state_of"@,
        SynsetRelType::Subevent => "subevent"@,
        SynsetRelType::TargetDirection => "target_direction"@,
        SynsetRelType::Young => "young"@,
        SynsetRelType::Unknown => "unknown"@,
    }
}

/// One slice of the synset-relation tag table.
pub open spec fn spec_decode_synset_rel_part1(s: Seq<char>) -> Option<SynsetRelType> {
    if s == spec_synset_rel_string(SynsetRelType::Hypernym) { Some(SynsetRelType::Hypernym) }
    else
    if s == spec_synset_rel_string(SynsetRelType::Hyponym) { Some(SynsetRelType::Hyponym) }
    else
    if s == spec_synset_rel_string(SynsetRelType::InstanceHypernym) { Some(SynsetRelType::InstanceHypernym) }
    else
    if s == spec_synset_rel_string(SynsetRelType::InstanceHyponym) { Some(SynsetRelType::InstanceHyponym) }
    else
    if s == spec_synset_rel_string(SynsetRelType::MeroMember) { Some(SynsetRelType::MeroMember) }
    else
    if s == spec_synset_rel_string(SynsetRelType::MeroPart) { Some(SynsetRelType::MeroPart) }
    else
    if s == spec_synset_rel_string(SynsetRelType::MeroSubstance) { Some(SynsetRelType::MeroSubstance) }
    else
    if s == spec_synset_rel_string(SynsetRelType::HoloMember) { Some(SynsetRelType::HoloMember) }
    else
    if s == spec_synset_rel_string(SynsetRelType::HoloPart) { Some(SynsetRelType::HoloPart) }
    else
    if s == spec_synset_rel_string(SynsetRelType::HoloSubstance) { Some(SynsetRelType::HoloSubstance) }
    else
    if s == spec_synset_rel_string(SynsetRelType::Entails) { Some(SynsetRelType::Entails) }
    else
    if s == spec_synset_rel_string(SynsetRelType::Causes) { Some(SynsetRelType::Causes) }
    else
    if s == spec_synset_rel_string(SynsetRelType::Similar) { Some(SynsetRelType::Similar) }
    else
    if s == spec_synset_rel_string(SynsetRelType::Attribute) { Some(SynsetRelType::Attribute) }
    else
    if s == spec_synset_rel_string(SynsetRelType::DomainRegion) { Some(SynsetRelType::DomainRegion) }
    else
    if s == spec_synset_rel_string(SynsetRelType::DomainTopic) { Some(SynsetRelType::DomainTopic) }
    else
    { None }
}

/// One slice of the synset-relation tag table.
pub open spec fn spec_decode_synset_rel_part2(s: Seq<char>) -> Option<SynsetRelType> {
    if s == spec_synset_rel_string(SynsetRelType::HasDomainRegion) { Some(SynsetRelType::HasDomainRegion) }
    else
    if s == spec_synset_rel_string(SynsetRelType::HasDomainTopic) { Some(SynsetRelType::HasDomainTopic) }
    else
    if s == spec_synset_rel_string(SynsetRelType::Exemplifies) { Some(SynsetRelType::Exemplifies) }
    else
    if s == spec_synset_rel_string(SynsetRelType::IsExemplifiedBy) { Some(SynsetRelType::IsExemplifiedBy) }
    else
    if s == spec_synset_rel_string(SynsetRelType::Agent) { Some(SynsetRelType::Agent) }
    else
    if s == spec_synset_rel_string(SynsetRelType::Also) { Some(SynsetRelType::Also) }
    else
    if s == spec_synset_rel_string(SynsetRelType::AntoConverse) { Some(SynsetRelType::AntoConverse) }
    else
    if s == spec_synset_rel_string(SynsetRelType::AntoGradable) { Some(SynsetRelType::AntoGradable) }
    else
    if s == spec_synset_rel_string(SynsetRelType::AntoSimple) { Some(SynsetRelType::AntoSimple) }
    else
    if s == spec_synset_rel_string(SynsetRelType::Antonym) { Some(SynsetRelType::Antonym) }
    else
    if s == spec_synset_rel_string(SynsetRelType::Augmentative) { Some(SynsetRelType::Augmentative) }
    else
    if s == spec_synset_rel_string(SynsetRelType::BeInState) { Some(SynsetRelType::BeInState) }
    else
    if s == spec_synset_rel_string(SynsetRelType::ClassifiedBy) { Some(SynsetRelType::ClassifiedBy) }
    else
    if s == spec_synset_rel_string(SynsetRelType::Classifies) { Some(SynsetRelType::Classifies) }
    else
    if s == spec_synset_rel_string(SynsetRelType::CoAgentInstrument) { Some(SynsetRelType::CoAgentInstrument) }
    else
    if s == spec_synset_rel_string(SynsetRelType::CoAgentPatient) { Some(SynsetRelType::CoAgentPatient) }
    else
    { None }
}

/// One slice of the synset-relation tag table.
pub open spec fn spec_decode_synset_rel_part3(s: Seq<char>) -> Option<SynsetRelType> {
    if s == spec_synset_rel_string(SynsetRelType::CoAgentResult) { Some(SynsetRelType::CoAgentResult) }
    else
    if s == spec_synset_rel_string(SynsetRelType::CoInstrumentAgent) { Some(SynsetRelType::CoInstrumentAgent) }
    else
    if s == spec_synset_rel_string(SynsetRelType::CoInstrumentPatient) { Some(SynsetRelType::CoInstrumentPatient) }
    else
    if s == spec_synset_rel_string(SynsetRelType::CoInstrumentResult) { Some(SynsetRelType::CoInstrumentResult) }
    else
    if s == spec_synset_rel_string(SynsetRelType::CoPatientAgent) { Some(SynsetRelType::CoPatientAgent) }
    else
    if s == spec_synset_rel_string(SynsetRelType::CoPatientInstrument) { Some(SynsetRelType::CoPatientInstrument) }
    else
    if s == spec_synset_rel_string(SynsetRelType::CoResultAgent) { Some(SynsetRelType::CoResultAgent) }
    else
    if s == spec_synset_rel_string(SynsetRelType::CoResultInstrument) { Some(SynsetRelType::CoResultInstrument) }
    else
    if s == spec_synset_rel_string(SynsetRelType::CoRole) { Some(SynsetRelType::CoRole) }
    else
    if s == spec_synset_rel_string(SynsetRelType::Constitutive) { Some(SynsetRelType::Constitutive) }
    else
    if s == spec_synset_rel_string(SynsetRelType::Derivation) { Some(SynsetRelType::Derivation) }
    else
    if s == spec_synset_rel_string(SynsetRelType::Diminutive) { Some(SynsetRelType::Diminutive) }
    else
    if s == spec_synset_rel_string(SynsetRelType::Direction) { Some(SynsetRelType::Direction) }
    else
    if s == spec_synset_rel_string(SynsetRelType::Domain) { Some(SynsetRelType::Domain) }
    else
    if s == spec_synset_rel_string(SynsetRelType::EqSynonym) { Some(SynsetRelType::EqSynonym) }
    else
    if s == spec_synset_rel_string(SynsetRelType::Feminine) { Some(SynsetRelType::Feminine) }
    else
    { None }
}

/// One slice of the synset-relation tag table.
pub open spec fn spec_decode_synset_rel_part4(s: Seq<char>) -> Option<SynsetRelType> {
    if s == spec_synset_rel_string(SynsetRelType::HasAugmentative) { Some(SynsetRelType::HasAugmentative) }
    else
    if s == spec_synset_rel_string(SynsetRelType::HasDiminutive) { Some(SynsetRelType::HasDiminutive) }
    else
    if s == spec_synset_rel_string(SynsetRelType::HasDomain) { Some(SynsetRelType::HasDomain) }
    else
    if s == spec_synset_rel_string(SynsetRelType::HasFeminine) { Some(SynsetRelType::HasFeminine) }
    else
    if s == spec_synset_rel_string(SynsetRelType::HasMasculine) { Some(SynsetRelType::HasMasculine) }
    else
    if s == spec_synset_rel_string(SynsetRelType::HasYoung) { Some(SynsetRelType::HasYoung) }
    else
    if s == spec_synset_rel_string(SynsetRelType::HoloLocation) { Some(SynsetRelType::HoloLocation) }
    else
    if s == spec_synset_rel_string(SynsetRelType::HoloPortion) { Some(SynsetRelType::HoloPortion) }
    else
    if s == spec_synset_rel_string(SynsetRelType::Holonym) { Some(SynsetRelType::Holonym) }
    else
    if s == spec_synset_rel_string(SynsetRelType::InManner) { Some(SynsetRelType::InManner) }
    else
    if s == spec_synset_rel_string(SynsetRelType::Instrument) { Some(SynsetRelType::Instrument) }
    else
    if s == spec_synset_rel_string(SynsetRelType::Involved) { Some(SynsetRelType::Involved) }
    else
    if s == spec_synset_rel_string(SynsetRelType::InvolvedAgent) { Some(SynsetRelType::InvolvedAgent) }
    else
    if s == spec_synset_rel_string(SynsetRelType::InvolvedDirection) { Some(SynsetRelType::InvolvedDirection) }
    else
    if s == spec_synset_rel_string(SynsetRelType::InvolvedInstrument) { Some(SynsetRelType::InvolvedInstrument) }
    else
    if s == spec_synset_rel_string(SynsetRelType::InvolvedLocation) { Some(SynsetRelType::InvolvedLocation) }
    else
    { None }
}

/// One slice of the synset-relation tag table.
pub open spec fn spec_decode_synset_rel_part5(s: Seq<char>) -> Option<SynsetRelType> {
    if s == spec_synset_rel_string(SynsetRelType::InvolvedPatient) { Some(SynsetRelType::InvolvedPatient) }
    else
    if s == spec_synset_rel_string(SynsetRelType::InvolvedResult) { Some(SynsetRelType::InvolvedResult) }
    else
    if s == spec_synset_rel_string(SynsetRelType::InvolvedSourceDirection) { Some(SynsetRelType::InvolvedSourceDirection) }
    else
    if s == spec_synset_rel_string(SynsetRelType::InvolvedTargetDirection) { Some(SynsetRelType::InvolvedTargetDirection) }
    else
    if s == spec_synset_rel_string(SynsetRelType::IrSynonym) { Some(SynsetRelType::IrSynonym) }
    else
    if s == spec_synset_rel_string(SynsetRelType::IsCausedBy) { Some(SynsetRelType::IsCausedBy) }
    else
    if s == spec_synset_rel_string(SynsetRelType::IsEntailedBy) { Some(SynsetRelType::IsEntailedBy) }
    else
    if s == spec_synset_rel_string(SynsetRelType::IsSubeventOf) { Some(SynsetRelType::IsSubeventOf) }
    else
    if s == spec_synset_rel_string(SynsetRelType::Location) { Some(SynsetRelType::Location) }
    else
    if s == spec_synset_rel_string(SynsetRelType::MannerOf) { Some(SynsetRelType::MannerOf) }
    else
    if s == spec_synset_rel_string(SynsetRelType::Masculine) { Some(SynsetRelType::Masculine) }
    else
    if s == spec_synset_rel_string(SynsetRelType::MeroLocation) { Some(SynsetRelType::MeroLocation) }
    else
    if s == spec_synset_rel_string(SynsetRelType::MeroPortion) { Some(SynsetRelType::MeroPortion) }
    else
    if s == spec_synset_rel_string(SynsetRelType::Meronym) { Some(SynsetRelType::Meronym) }
    else
    if s == spec_synset_rel_string(SynsetRelType::Other) { Some(SynsetRelType::Other) }
    else
    if s == spec_synset_rel_string(SynsetRelType::Participle) { Some(SynsetRelType::Participle) }
    else
    { None }
}

/// One slice of the synset-relation tag table.
pub open spec fn spec_decode_synset_rel_part6(s: Seq<char>) -> Option<SynsetRelType> {
    if s == spec_synset_rel_string(SynsetRelType::Patient) { Some(SynsetRelType::Patient) }
    else
    if s == spec_synset_rel_string(SynsetRelType::Pertainym) { Some(SynsetRelType::Pertainym) }
    else
    if s == spec_synset_rel_string(SynsetRelType::RestrictedBy) { Some(SynsetRelType::RestrictedBy) }
    else
    if s == spec_synset_rel_string(SynsetRelType::Restricts) { Some(SynsetRelType::Restricts) }
    else
    if s == spec_synset_rel_string(SynsetRelType::Result) { Some(SynsetRelType::Result) }
    else
    if s == spec_synset_rel_string(SynsetRelType::Role) { Some(SynsetRelType::Role) }
    else
    if s == spec_synset_rel_string(SynsetRelType::SecondaryAspectIp) { Some(SynsetRelType::SecondaryAspectIp) }
    else
    if s == spec_synset_rel_string(SynsetRelType::SecondaryAspectPi) { Some(SynsetRelType::SecondaryAspectPi) }
    else
    if s == spec_synset_rel_string(SynsetRelType::SimpleAspectIp) { Some(SynsetRelType::SimpleAspectIp) }
    else
    if s == spec_synset_rel_string(SynsetRelType::SimpleAspectPi) { Some(SynsetRelType::SimpleAspectPi) }
    else
    if s == spec_synset_rel_string(SynsetRelType::SourceDirection) { Some(SynsetRelType::SourceDirection) }
    else
    if s == spec_synset_rel_string(SynsetRelType::StateOf) { Some(SynsetRelType::StateOf) }
    else
    if s == spec_synset_rel_string(SynsetRelType::Subevent) { Some(SynsetRelType::Subevent) }
    else
    if s == spec_synset_rel_string(SynsetRelType::TargetDirection) { Some(SynsetRelType::TargetDirection) }
    else
    if s == spec_synset_rel_string(SynsetRelType::Young) { Some(SynsetRelType::Young) }
    else
    if s == spec_synset_rel_string(SynsetRelType::Unknown) { Some(SynsetRelType::Unknown) }
    else
    { None }
}

/// The synset-relation kind a stored tag decodes to; unrecognized tags
/// decode to `Unknown`.
pub open spec fn spec_decode_synset_rel(s: Seq<char>) -> SynsetRelType {
    match spec_decode_synset_rel_part1(s) {
        Some(t) => t,
        None =>
        match spec_decode_synset_rel_part2(s) {
            Some(t) => t,
            None =>
            match spec_decode_synset_rel_part3(s) {
                Some(t) => t,
                None =>
                match spec_decode_synset_rel_part4(s) {
                    Some(t) => t,
                    None =>
                    match spec_decode_synset_rel_part5(s) {
                        Some(t) => t,
                        None =>
                        match spec_decode_synset_rel_part6(s) {
                            Some(t) => t,
                            None => SynsetRelType::Unknown,
                        }
                    }
                }
            }
        }
    }
}

#[verifier::rlimit(30)]
fn decode_synset_rel_part1(s: &str) -> (r: Option<SynsetRelType>)
    ensures
        r == spec_decode_synset_rel_part1(s@),
{
    if str_eq(s, "hypernym") { return Some(SynsetRelType::Hypernym); }
    if str_eq(s, "hyponym") { return Some(SynsetRelType::Hyponym); }
    if str_eq(s, "instance_hypernym") { return Some(SynsetRelType::InstanceHypernym); }
    if str_eq(s, "instance_hyponym") { return Some(SynsetRelType::InstanceHyponym); }
    if str_eq(s, "mero_member") { return Some(SynsetRelType::MeroMember); }
    if str_eq(s, "mero_part") { return Some(SynsetRelType::MeroPart); }
    if str_eq(s, "mero_substance") { return Some(SynsetRelType::MeroSubstance); }
    if str_eq(s, "holo_member") { return Some(SynsetRelType::HoloMember); }
    if str_eq(s, "holo_part") { return Some(SynsetRelType::HoloPart); }
    if str_eq(s, "holo_substance") { return Some(SynsetRelType::HoloSubstance); }
    if str_eq(s, "entails") { return Some(SynsetRelType::Entails); }
    if str_eq(s, "causes") { return Some(SynsetRelType::Causes); }
    if str_eq(s, "similar") { return Some(SynsetRelType::Similar); }
    if str_eq(s, "attribute") { return Some(SynsetRelType::Attribute); }
    if str_eq(s, "domain_region") { return Some(SynsetRelType::DomainRegion); }
    if str_eq(s, "domain_topic") { return Some(SynsetRelType::DomainTopic); }
    None
}

#[verifier::rlimit(30)]
fn decode_synset_rel_part2(s: &str) -> (r: Option<SynsetRelType>)
    ensures
        r == spec_decode_synset_rel_part2(s@),
{
    if str_eq(s, "has_domain_region") { return Some(SynsetRelType::HasDomainRegion); }
    if str_eq(s, "has_domain_topic") { return Some(SynsetRelType::HasDomainTopic); }
    if str_eq(s, "exemplifies") { return Some(SynsetRelType::Exemplifies); }
    if str_eq(s, "is_exemplified_by") { return Some(SynsetRelType::IsExemplifiedBy); }
    if str_eq(s, "agent") { return Some(SynsetRelType::Agent); }
    if str_eq(s, "also") { return Some(SynsetRelType::Also); }
    if str_eq(s, "anto_converse") { return Some(SynsetRelType::AntoConverse); }
    if str_eq(s, "anto_gradable") { return Some(SynsetRelType::AntoGradable); }
    if str_eq(s, "anto_simple") { return Some(SynsetRelType::AntoSimple); }
    if str_eq(s, "antonym") { return Some(SynsetRelType::Antonym); }
    if str_eq(s, "augmentative") { return Some(SynsetRelType::Augmentative); }
    if str_eq(s, "be_in_state") { return Some(SynsetRelType::BeInState); }
    if str_eq(s, "classified_by") { return Some(SynsetRelType::ClassifiedBy); }
    if str_eq(s, "classifies") { return Some(SynsetRelType::Classifies); }
    if str_eq(s, "co_agent_instrument") { return Some(SynsetRelType::CoAgentInstrument); }
    if str_eq(s, "co_agent_patient") { return Some(SynsetRelType::CoAgentPatient); }
    None
}

#[verifier::rlimit(30)]
fn decode_synset_rel_part3(s: &str) -> (r: Option<SynsetRelType>)
    ensures
        r == spec_decode_synset_rel_part3(s@),
{
    if str_eq(s, "co_agent_result") { return Some(SynsetRelType::CoAgentResult); }
    if str_eq(s, "co_instrument_agent") { return Some(SynsetRelType::CoInstrumentAgent); }
    if str_eq(s, "co_instrument_patient") { return Some(SynsetRelType::CoInstrumentPatient); }
    if str_eq(s, "co_instrument_result") { return Some(SynsetRelType::CoInstrumentResult); }
    if str_eq(s, "co_patient_agent") { return Some(SynsetRelType::CoPatientAgent); }
    if str_eq(s, "co_patient_instrument") { return Some(SynsetRelType::CoPatientInstrument); }
    if str_eq(s, "co_result_agent") { return Some(SynsetRelType::CoResultAgent); }
    if str_eq(s, "co_result_instrument") { return Some(SynsetRelType::CoResultInstrument); }
    if str_eq(s, "co_role") { return Some(SynsetRelType::CoRole); }
    if str_eq(s, "constitutive") { return Some(SynsetRelType::Constitutive); }
    if str_eq(s, "derivation") { return Some(SynsetRelType::Derivation); }
    if str_eq(s, "diminutive") { return Some(SynsetRelType::Diminutive); }
    if str_eq(s, "direction") { return Some(SynsetRelType::Direction); }
    if str_eq(s, "domain") { return Some(SynsetRelType::Domain); }
    if str_eq(s, "eq_synonym") { return Some(SynsetRelType::EqSynonym); }
    if str_eq(s, "feminine") { return Some(SynsetRelType::Feminine); }
    None
}

#[verifier::rlimit(30)]
fn decode_synset_rel_part4(s: &str) -> (r: Option<SynsetRelType>)
    ensures
        r == spec_decode_synset_rel_part4(s@),
{
    if str_eq(s, "has_augmentative") { return Some(SynsetRelType::HasAugmentative); }
    if str_eq(s, "has_diminutive") { return Some(SynsetRelType::HasDiminutive); }
    if str_eq(s, "has_domain") { return Some(SynsetRelType::HasDomain); }
    if str_eq(s, "has_feminine") { return Some(SynsetRelType::HasFeminine); }
    if str_eq(s, "has_masculine") { return Some(SynsetRelType::HasMasculine); }
    if str_eq(s, "has_young") { return Some(SynsetRelType::HasYoung); }
    if str_eq(s, "holo_location") { return Some(SynsetRelType::HoloLocation); }
    if str_eq(s, "holo_portion") { return Some(SynsetRelType::HoloPortion); }
    if str_eq(s, "holonym") { return Some(SynsetRelType::Holonym); }
    if str_eq(s, "in_manner") { return Some(SynsetRelType::InManner); }
    if str_eq(s, "instrument") { return Some(SynsetRelType::Instrument); }
    if str_eq(s, "involved") { return Some(SynsetRelType::Involved); }
    if str_eq(s, "involved_agent") { return Some(SynsetRelType::InvolvedAgent); }
    if str_eq(s, "involved_direction") { return Some(SynsetRelType::InvolvedDirection); }
    if str_eq(s, "involved_instrument") { return Some(SynsetRelType::InvolvedInstrument); }
    if str_eq(s, "involved_location") { return Some(SynsetRelType::InvolvedLocation); }
    None
}

#[verifier::rlimit(30)]
fn decode_synset_rel_part5(s: &str) -> (r: Option<SynsetRelType>)
    ensures
        r == spec_decode_synset_rel_part5(s@),
{
    if str_eq(s, "involved_patient") { return Some(SynsetRelType::InvolvedPatient); }
    if str_eq(s, "involved_result") { return Some(SynsetRelType::InvolvedResult); }
    if str_eq(s, "involved_source_direction") { return Some(SynsetRelType::InvolvedSourceDirection); }
    if str_eq(s, "involved_target_direction") { return Some(SynsetRelType::InvolvedTargetDirection); }
    if str_eq(s, "ir_synonym") { return Some(SynsetRelType::IrSynonym); }
    if str_eq(s, "is_caused_by") { return Some(SynsetRelType::IsCausedBy); }
    if str_eq(s, "is_entailed_by") { return Some(SynsetRelType::IsEntailedBy); }
    if str_eq(s, "is_subevent_of") { return Some(SynsetRelType::IsSubeventOf); }
    if str_eq(s, "location") { return Some(SynsetRelType::Location); }
    if str_eq(s, "manner_of") { return Some(SynsetRelType::MannerOf); }
    if str_eq(s, "masculine") { return Some(SynsetRelType::Masculine); }
    if str_eq(s, "mero_location") { return Some(SynsetRelType::MeroLocation); }
    if str_eq(s, "mero_portion") { return Some(SynsetRelType::MeroPortion); }
    if str_eq(s, "meronym") { return Some(SynsetRelType::Meronym); }
    if str_eq(s, "other") { return Some(SynsetRelType::Other); }
    if str_eq(s, "participle") { return Some(SynsetRelType::Participle); }
    None
}

#[verifier::rlimit(30)]
fn decode_synset_rel_part6(s: &str) -> (r: Option<SynsetRelType>)
    ensures
        r == spec_decode_synset_rel_part6(s@),
{
    if str_eq(s, "patient") { return Some(SynsetRelType::Patient); }
    if str_eq(s, "pertainym") { return Some(SynsetRelType::Pertainym); }
    if str_eq(s, "restricted_by") { return Some(SynsetRelType::RestrictedBy); }
    if str_eq(s, "restricts") { return Some(SynsetRelType::Restricts); }
    if str_eq(s, "result") { return Some(SynsetRelType::Result); }
    if str_eq(s, "role") { return Some(SynsetRelType::Role); }
    if str_eq(s, "secondary_aspect_ip") { return Some(SynsetRelType::SecondaryAspectIp); }
    if str_eq(s, "secondary_aspect_pi") { return Some(SynsetRelType::SecondaryAspectPi); }
    if str_eq(s, "simple_aspect_ip") { return Some(SynsetRelType::SimpleAspectIp); }
    if str_eq(s, "simple_aspect_pi") { return Some(SynsetRelType::SimpleAspectPi); }
    if str_eq(s, "source_direction") { return Some(SynsetRelType::SourceDirection); }
    if str_eq(s, "state_of") { return Some(SynsetRelType::StateOf); }
    if str_eq(s, "subevent") { return Some(SynsetRelType::Subevent); }
    if str_eq(s, "target_direction") { return Some(SynsetRelType::TargetDirection); }
    if str_eq(s, "young") { return Some(SynsetRelType::Young); }
    if str_eq(s, "unknown") { return Some(SynsetRelType::Unknown); }
    None
}

/// Converts a synset-relation kind to its storage tag.
pub fn synset_rel_type_to_string(rel_type: SynsetRelType) -> (r: &'static str)
    ensures
        r@ == spec_synset_rel_string(rel_type),
{
    match rel_type {
        SynsetRelType::Hypernym => "hypernym",
        SynsetRelType::Hyponym => "hyponym",
        SynsetRelType::InstanceHypernym => "instance_hypernym",
        SynsetRelType::InstanceHyponym => "instance_hyponym",
        SynsetRelType::MeroMember => "mero_member",
        SynsetRelType::MeroPart => "mero_part",
        SynsetRelType::MeroSubstance => "mero_substance",
        SynsetRelType::HoloMember => "holo_member",
        SynsetRelType::HoloPart => "holo_part",
        SynsetRelType::HoloSubstance => "holo_substance",
        SynsetRelType::Entails => "entails",
        SynsetRelType::Causes => "causes",
        SynsetRelType::Similar => "similar",
        SynsetRelType::Attribute => "attribute",
        SynsetRelType::DomainRegion => "domain_region",
        SynsetRelType::DomainTopic => "domain_topic",
        SynsetRelType::HasDomainRegion => "has_domain_region",
        SynsetRelType::HasDomainTopic => "has_domain_topic",
        SynsetRelType::Exemplifies => "exemplifies",
        SynsetRelType::IsExemplifiedBy => "is_exemplified_by",
        SynsetRelType::Agent => "agent",
        SynsetRelType::Also => "also",
        SynsetRelType::AntoConverse => "anto_converse",
        SynsetRelType::AntoGradable => "anto_gradable",
        SynsetRelType::AntoSimple => "anto_simple",
        SynsetRelType::Antonym => "antonym",
        SynsetRelType::Augmentative => "augmentative",
        SynsetRelType::BeInState => "be_in_state",
        SynsetRelType::ClassifiedBy => "classified_by",
        SynsetRelType::Classifies => "classifies",
        SynsetRelType::CoAgentInstrument => "co_agent_instrument",
        SynsetRelType::CoAgentPatient => "co_agent_patient",
        SynsetRelType::CoAgentResult => "co_agent_result",
        SynsetRelType::CoInstrumentAgent => "co_instrument_agent",
        SynsetRelType::CoInstrumentPatient => "co_instrument_patient",
        SynsetRelType::CoInstrumentResult => "co_instrument_result",
        SynsetRelType::CoPatientAgent => "co_patient_agent",
        SynsetRelType::CoPatientInstrument => "co_patient_instrument",
        SynsetRelType::CoResultAgent => "co_result_agent",
        SynsetRelType::CoResultInstrument => "co_result_instrument",
        SynsetRelType::CoRole => "co_role",
        SynsetRelType::Constitutive => "constitutive",
        SynsetRelType::Derivation => "derivation",
        SynsetRelType::Diminutive => "diminutive",
        SynsetRelType::Direction => "direction",
        SynsetRelType::Domain => "domain",
        SynsetRelType::EqSynonym => "eq_synonym",
        SynsetRelType::Feminine => "feminine",
        SynsetRelType::HasAugmentative => "has_augmentative",
        SynsetRelType::HasDiminutive => "has_diminutive",
        SynsetRelType::HasDomain => "has_domain",
        SynsetRelType::HasFeminine => "has_feminine",
        SynsetRelType::HasMasculine => "has_masculine",
        SynsetRelType::HasYoung => "has_young",
        SynsetRelType::HoloLocation => "holo_location",
        SynsetRelType::HoloPortion => "holo_portion",
        SynsetRelType::Holonym => "holonym",
        SynsetRelType::InManner => "in_manner",
        SynsetRelType::Instrument => "instrument",
        SynsetRelType::Involved => "involved",
        SynsetRelType::InvolvedAgent => "involved_agent",
        SynsetRelType::InvolvedDirection => "involved_direction",
        SynsetRelType::InvolvedInstrument => "involved_instrument",
        SynsetRelType::InvolvedLocation => "involved_location",
        SynsetRelType::InvolvedPatient => "involved_patient",
        SynsetRelType::InvolvedResult => "involved_result",
        SynsetRelType::InvolvedSourceDirection => "involved_source_direction",
        SynsetRelType::InvolvedTargetDirection => "involved_target_direction",
        SynsetRelType::IrSynonym => "ir_synonym",
        SynsetRelType::IsCausedBy => "is_caused_by",
        SynsetRelType::IsEntailedBy => "is_entailed_by",
        SynsetRelType::IsSubeventOf => "is_subevent_of",
        SynsetRelType::Location => "location",
        SynsetRelType::MannerOf => "manner_of",
        SynsetRelType::Masculine => "masculine",
        SynsetRelType::MeroLocation => "mero_location",
        SynsetRelType::MeroPortion => "mero_portion",
        SynsetRelType::Meronym => "meronym",
        SynsetRelType::Other => "other",
        SynsetRelType::Participle => "participle",
        SynsetRelType::Patient => "patient",
        SynsetRelType::Pertainym => "pertainym",
        SynsetRelType::RestrictedBy => "restricted_by",
        SynsetRelType::Restricts => "restricts",
        SynsetRelType::Result => "result",
        SynsetRelType::Role => "role",
        SynsetRelType::SecondaryAspectIp => "secondary_aspect_ip",
        SynsetRelType::SecondaryAspectPi => "secondary_aspect_pi",
        SynsetRelType::SimpleAspectIp => "simple_aspect_ip",
        SynsetRelType::SimpleAspectPi => "simple_aspect_pi",
        SynsetRelType::SourceDirection => "source_direction",
        SynsetRelType::StateOf => "state_of",
        SynsetRelType::Subevent => "subevent",
        SynsetRelType::TargetDirection => "target_direction",
        SynsetRelType::Young => "young",
        SynsetRelType::Unknown => "unknown",
    }
}

/// Decodes a stored tag back to a synset-relation kind, `Unknown` for any
/// unrecognized tag.
pub fn string_to_synset_rel_type(s: &str) -> (r: Result<SynsetRelType, OewnError>)
    ensures
        r == Ok::<SynsetRelType, OewnError>(spec_decode_synset_rel(s@)),
{
    if let Some(t) = decode_synset_rel_part1(s) {
        return Ok(t);
    }
    if let Some(t) = decode_synset_rel_part2(s) {
        return Ok(t);
    }
    if let Some(t) = decode_synset_rel_part3(s) {
        return Ok(t);
    }
    if let Some(t) = decode_synset_rel_part4(s) {
        return Ok(t);
    }
    if let Some(t) = decode_synset_rel_part5(s) {
        return Ok(t);
    }
    if let Some(t) = decode_synset_rel_part6(s) {
        return Ok(t);
    }
    Ok(SynsetRelType::Unknown)
}

#[verifier::rlimit(100)]
#[verifier::spinoff_prover]
proof fn lemma_synset_rel_round_trip_part1(t: SynsetRelType)
    requires
        t == SynsetRelType::Hypernym || t == SynsetRelType::Hyponym || t == SynsetRelType::InstanceHypernym || t == SynsetRelType::InstanceHyponym || t == SynsetRelType::MeroMember || t == SynsetRelType::MeroPart || t == SynsetRelType::MeroSubstance || t == SynsetRelType::HoloMember || t == SynsetRelType::HoloPart || t == SynsetRelType::HoloSubstance || t == SynsetRelType::Entails || t == SynsetRelType::Causes || t == SynsetRelType::Similar || t == SynsetRelType::Attribute || t == SynsetRelType::DomainRegion || t == SynsetRelType::DomainTopic,
    ensures
        spec_decode_synset_rel(spec_synset_rel_string(t)) == t,
{
    reveal_strlit("hypernym");
    reveal_strlit("hyponym");
    reveal_strlit("instance_hypernym");
    reveal_strlit("instance_hyponym");
    reveal_strlit("mero_member");
    reveal_strlit("mero_part");
    reveal_strlit("mero_substance");
    reveal_strlit("holo_member");
    reveal_strlit("holo_part");
    reveal_strlit("holo_substance");
    reveal_strlit("entails");
    reveal_strlit("causes");
    reveal_strlit("similar");
    reveal_strlit("attribute");
    reveal_strlit("domain_region");
    reveal_strlit("domain_topic");
    reveal_strlit("has_domain_region");
    reveal_strlit("has_domain_topic");
    reveal_strlit("exemplifies");
    reveal_strlit("is_exemplified_by");
    reveal_strlit("agent");
    reveal_strlit("also");
    reveal_strlit("anto_converse");
    reveal_strlit("anto_gradable");
    reveal_strlit("anto_simple");
    reveal_strlit("antonym");
    reveal_strlit("augmentative");
    reveal_strlit("be_in_state");
    reveal_strlit("classified_by");
    reveal_strlit("classifies");
    reveal_strlit("co_agent_instrument");
    reveal_strlit("co_agent_patient");
    reveal_strlit("co_agent_result");
    reveal_strlit("co_instrument_agent");
    reveal_strlit("co_instrument_patient");
    reveal_strlit("co_instrument_result");
    reveal_strlit("co_patient_agent");
    reveal_strlit("co_patient_instrument");
    reveal_strlit("co_result_agent");
    reveal_strlit("co_result_instrument");
    reveal_strlit("co_role");
    reveal_strlit("constitutive");
    reveal_strlit("derivation");
    reveal_strlit("diminutive");
    reveal_strlit("direction");
    reveal_strlit("domain");
    reveal_strlit("eq_synonym");
    reveal_strlit("feminine");
    reveal_strlit("has_augmentative");
    reveal_strlit("has_diminutive");
    reveal_strlit("has_domain");
    reveal_strlit("has_feminine");
    reveal_strlit("has_masculine");
    reveal_strlit("has_young");
    reveal_strlit("holo_location");
    reveal_strlit("holo_portion");
    reveal_strlit("holonym");
    reveal_strlit("in_manner");
    reveal_strlit("instrument");
    reveal_strlit("involved");
    reveal_strlit("involved_agent");
    reveal_strlit("involved_direction");
    reveal_strlit("involved_instrument");
    reveal_strlit("involved_location");
    reveal_strlit("involved_patient");
    reveal_strlit("involved_result");
    reveal_strlit("involved_source_direction");
    reveal_strlit("involved_target_direction");
    reveal_strlit("ir_synonym");
    reveal_strlit("is_caused_by");
    reveal_strlit("is_entailed_by");
    reveal_strlit("is_subevent_of");
    reveal_strlit("location");
    reveal_strlit("manner_of");
    reveal_strlit("masculine");
    reveal_strlit("mero_location");
    reveal_strlit("mero_portion");
    reveal_strlit("meronym");
    reveal_strlit("other");
    reveal_strlit("participle");
    reveal_strlit("patient");
    reveal_strlit("pertainym");
    reveal_strlit("restricted_by");
    reveal_strlit("restricts");
    reveal_strlit("result");
    reveal_strlit("role");
    reveal_strlit("secondary_aspect_ip");
    reveal_strlit("secondary_aspect_pi");
    reveal_strlit("simple_aspect_ip");
    reveal_strlit("simple_aspect_pi");
    reveal_strlit("source_direction");
    reveal_strlit("state_of");
    reveal_strlit("subevent");
    reveal_strlit("target_direction");
    reveal_strlit("young");
    reveal_strlit("unknown");
    assert("hypernym"@.len() == 8);
    assert("hyponym"@.len() == 7);
    assert("instance_hypernym"@.len() == 17);
    assert("instance_hyponym"@.len() == 16);
    assert("mero_member"@.len() == 11);
    assert("mero_part"@.len() == 9);
    assert("mero_substance"@.len() == 14);
    assert("holo_member"@.len() == 11);
    assert("holo_part"@.len() == 9);
    assert("holo_substance"@.len() == 14);
    assert("entails"@.len() == 7);
    assert("causes"@.len() == 6);
    assert("similar"@.len() == 7);
    assert("attribute"@.len() == 9);
    assert("domain_region"@.len() == 13);
    assert("domain_topic"@.len() == 12);
    assert("has_domain_region"@.len() == 17);
    assert("has_domain_topic"@.len() == 16);
    assert("exemplifies"@.len() == 11);
    assert("is_exemplified_by"@.len() == 17);
    assert("agent"@.len() == 5);
    assert("also"@.len() == 4);
    assert("anto_converse"@.len() == 13);
    assert("anto_gradable"@.len() == 13);
    assert("anto_simple"@.len() == 11);
    assert("antonym"@.len() == 7);
    assert("augmentative"@.len() == 12);
    assert("be_in_state"@.len() == 11);
    assert("classified_by"@.len() == 13);
    assert("classifies"@.len() == 10);
    assert("co_agent_instrument"@.len() == 19);
    assert("co_agent_patient"@.len() == 16);
    assert("co_agent_result"@.len() == 15);
    assert("co_instrument_agent"@.len() == 19);
    assert("co_instrument_patient"@.len() == 21);
    assert("co_instrument_result"@.len() == 20);
    assert("co_patient_agent"@.len() == 16);
    assert("co_patient_instrument"@.len() == 21);
    assert("co_result_agent"@.len() == 15);
    assert("co_result_instrument"@.len() == 20);
    assert("co_role"@.len() == 7);
    assert("constitutive"@.len() == 12);
    assert("derivation"@.len() == 10);
    assert("diminutive"@.len() == 10);
    assert("direction"@.len() == 9);
    assert("domain"@.len() == 6);
    assert("eq_synonym"@.len() == 10);
    assert("feminine"@.len() == 8);
    assert("has_augmentative"@.len() == 16);
    assert("has_diminutive"@.len() == 14);
    assert("has_domain"@.len() == 10);
    assert("has_feminine"@.len() == 12);
    assert("has_masculine"@.len() == 13);
    assert("has_young"@.len() == 9);
    assert("holo_location"@.len() == 13);
    assert("holo_portion"@.len() == 12);
    assert("holonym"@.len() == 7);
    assert("in_manner"@.len() == 9);
    assert("instrument"@.len() == 10);
    assert("involved"@.len() == 8);
    assert("involved_agent"@.len() == 14);
    assert("involved_direction"@.len() == 18);
    assert("involved_instrument"@.len() == 19);
    assert("involved_location"@.len() == 17);
    assert("involved_patient"@.len() == 16);
    assert("involved_result"@.len() == 15);
    assert("involved_source_direction"@.len() == 25);
    assert("involved_target_direction"@.len() == 25);
    assert("ir_synonym"@.len() == 10);
    assert("is_caused_by"@.len() == 12);
    assert("is_entailed_by"@.len() == 14);
    assert("is_subevent_of"@.len() == 14);
    assert("location"@.len() == 8);
    assert("manner_of"@.len() == 9);
    assert("masculine"@.len() == 9);
    assert("mero_location"@.len() == 13);
    assert("mero_portion"@.len() == 12);
    assert("meronym"@.len() == 7);
    assert("other"@.len() == 5);
    assert("participle"@.len() == 10);
    assert("patient"@.len() == 7);
    assert("pertainym"@.len() == 9);
    assert("restricted_by"@.len() == 13);
    assert("restricts"@.len() == 9);
    assert("result"@.len() == 6);
    assert("role"@.len() == 4);
    assert("secondary_aspect_ip"@.len() == 19);
    assert("secondary_aspect_pi"@.len() == 19);
    assert("simple_aspect_ip"@.len() == 16);
    assert("simple_aspect_pi"@.len() == 16);
    assert("source_direction"@.len() == 16);
    assert("state_of"@.len() == 8);
    assert("subevent"@.len() == 8);
    assert("target_direction"@.len() == 16);
    assert("young"@.len() == 5);
    assert("unknown"@.len() == 7);
    assert("agent"@[0] == 'a');
    assert("also"@[0] == 'a');
    assert("anto_converse"@[0] == 'a');
    assert("anto_converse"@[5] == 'c');
    assert("anto_gradable"@[0] == 'a');
    assert("anto_gradable"@[5] == 'g');
    assert("anto_simple"@[0] == 'a');
    assert("antonym"@[0] == 'a');
    assert("attribute"@[0] == 'a');
    assert("augmentative"@[0] == 'a');
    assert("be_in_state"@[0] == 'b');
    assert("causes"@[0] == 'c');
    assert("classified_by"@[0] == 'c');
    assert("classifies"@[0] == 'c');
    assert("co_agent_instrument"@[0] == 'c');
    assert("co_agent_instrument"@[3] == 'a');
    assert("co_agent_patient"@[0] == 'c');
    assert("co_agent_patient"@[3] == 'a');
    assert("co_agent_result"@[0] == 'c');
    assert("co_agent_result"@[3] == 'a');
    assert("co_instrument_agent"@[0] == 'c');
    assert("co_instrument_agent"@[3] == 'i');
    assert("co_instrument_patient"@[3] == 'i');
    assert("co_instrument_result"@[3] == 'i');
    assert("co_patient_agent"@[0] == 'c');
    assert("co_patient_agent"@[3] == 'p');
    assert("co_patient_instrument"@[3] == 'p');
    assert("co_result_agent"@[0] == 'c');
    assert("co_result_agent"@[3] == 'r');
    assert("co_result_instrument"@[3] == 'r');
    assert("co_role"@[0] == 'c');
    assert("constitutive"@[0] == 'c');
    assert("derivation"@[0] == 'd');
    assert("derivation"@[1] == 'e');
    assert("diminutive"@[0] == 'd');
    assert("diminutive"@[1] == 'i');
    assert("direction"@[0] == 'd');
    assert("domain"@[0] == 'd');
    assert("domain_region"@[0] == 'd');
    assert("domain_topic"@[0] == 'd');
    assert("entails"@[0] == 'e');
    assert("eq_synonym"@[0] == 'e');
    assert("exemplifies"@[0] == 'e');
    assert("feminine"@[0] == 'f');
    assert("has_augmentative"@[0] == 'h');
    assert("has_augmentative"@[4] == 'a');
    assert("has_diminutive"@[0] == 'h');
    assert("has_diminutive"@[1] == 'a');
    assert("has_domain"@[0] == 'h');
    assert("has_domain_region"@[0] == 'h');
    assert("has_domain_topic"@[0] == 'h');
    assert("has_domain_topic"@[4] == 'd');
    assert("has_feminine"@[0] == 'h');
    assert("has_feminine"@[1] == 'a');
    assert("has_masculine"@[0] == 'h');
    assert("has_masculine"@[1] == 'a');
    assert("has_young"@[0] == 'h');
    assert("has_young"@[1] == 'a');
    assert("holo_location"@[0] == 'h');
    assert("holo_location"@[1] == 'o');
    assert("holo_member"@[0] == 'h');
    assert("holo_part"@[0] == 'h');
    assert("holo_part"@[1] == 'o');
    assert("holo_portion"@[0] == 'h');
    assert("holo_portion"@[1] == 'o');
    assert("holo_substance"@[0] == 'h');
    assert("holo_substance"@[1] == 'o');
    assert("holonym"@[0] == 'h');
    assert("holonym"@[1] == 'o');
    assert("hypernym"@[0] == 'h');
    assert("hyponym"@[0] == 'h');
    assert("hyponym"@[1] == 'y');
    assert("in_manner"@[0] == 'i');
    assert("instance_hypernym"@[0] == 'i');
    assert("instance_hypernym"@[1] == 'n');
    assert("instance_hypernym"@[2] == 's');
    assert("instance_hyponym"@[0] == 'i');
    assert("instance_hyponym"@[2] == 's');
    assert("instrument"@[0] == 'i');
    assert("instrument"@[1] == 'n');
    assert("involved"@[0] == 'i');
    assert("involved_agent"@[0] == 'i');
    assert("involved_agent"@[1] == 'n');
    assert("involved_instrument"@[0] == 'i');
    assert("involved_location"@[0] == 'i');
    assert("involved_location"@[1] == 'n');
    assert("involved_location"@[2] == 'v');
    assert("involved_patient"@[0] == 'i');
    assert("involved_patient"@[2] == 'v');
    assert("involved_result"@[0] == 'i');
    assert("involved_source_direction"@[9] == 's');
    assert("involved_target_direction"@[9] == 't');
    assert("ir_synonym"@[0] == 'i');
    assert("ir_synonym"@[1] == 'r');
    assert("is_caused_by"@[0] == 'i');
    assert("is_entailed_by"@[0] == 'i');
    assert("is_entailed_by"@[1] == 's');
    assert("is_entailed_by"@[3] == 'e');
    assert("is_exemplified_by"@[0] == 'i');
    assert("is_exemplified_by"@[1] == 's');
    assert("is_subevent_of"@[0] == 'i');
    assert("is_subevent_of"@[1] == 's');
    assert("is_subevent_of"@[3] == 's');
    assert("location"@[0] == 'l');
    assert("manner_of"@[0] == 'm');
    assert("manner_of"@[1] == 'a');
    assert("manner_of"@[2] == 'n');
    assert("masculine"@[0] == 'm');
    assert("masculine"@[1] == 'a');
    assert("masculine"@[2] == 's');
    assert("mero_location"@[0] == 'm');
    assert("mero_member"@[0] == 'm');
    assert("mero_part"@[0] == 'm');
    assert("mero_part"@[1] == 'e');
    assert("mero_portion"@[0] == 'm');
    assert("mero_substance"@[0] == 'm');
    assert("meronym"@[0] == 'm');
    assert("other"@[0] == 'o');
    assert("participle"@[0] == 'p');
    assert("patient"@[0] == 'p');
    assert("pertainym"@[0] == 'p');
    assert("restricted_by"@[0] == 'r');
    assert("restricts"@[0] == 'r');
    assert("result"@[0] == 'r');
    assert("role"@[0] == 'r');
    assert("secondary_aspect_ip"@[0] == 's');
    assert("secondary_aspect_ip"@[17] == 'i');
    assert("secondary_aspect_pi"@[0] == 's');
    assert("secondary_aspect_pi"@[17] == 'p');
    assert("similar"@[0] == 's');
    assert("simple_aspect_ip"@[0] == 's');
    assert("simple_aspect_ip"@[1] == 'i');
    assert("simple_aspect_ip"@[14] == 'i');
    assert("simple_aspect_pi"@[0] == 's');
    assert("simple_aspect_pi"@[1] == 'i');
    assert("simple_aspect_pi"@[14] == 'p');
    assert("source_direction"@[0] == 's');
    assert("source_direction"@[1] == 'o');
    assert("state_of"@[0] == 's');
    assert("state_of"@[1] == 't');
    assert("subevent"@[0] == 's');
    assert("subevent"@[1] == 'u');
    assert("target_direction"@[0] == 't');
    assert("unknown"@[0] == 'u');
    assert("young"@[0] == 'y');
    match t {
        SynsetRelType::Hypernym => {
            assert(spec_decode_synset_rel_part1("hypernym"@) == Some(SynsetRelType::Hypernym));
        },
        SynsetRelType::Hyponym => {
            assert(spec_decode_synset_rel_part1("hyponym"@) == Some(SynsetRelType::Hyponym));
        },
        SynsetRelType::InstanceHypernym => {
            assert(spec_decode_synset_rel_part1("instance_hypernym"@) == Some(SynsetRelType::InstanceHypernym));
        },
        SynsetRelType::InstanceHyponym => {
            assert(spec_decode_synset_rel_part1("instance_hyponym"@) == Some(SynsetRelType::InstanceHyponym));
        },
        SynsetRelType::MeroMember => {
            assert(spec_decode_synset_rel_part1("mero_member"@) == Some(SynsetRelType::MeroMember));
        },
        SynsetRelType::MeroPart => {
            assert(spec_decode_synset_rel_part1("mero_part"@) == Some(SynsetRelType::MeroPart));
        },
        SynsetRelType::MeroSubstance => {
            assert(spec_decode_synset_rel_part1("mero_substance"@) == Some(SynsetRelType::MeroSubstance));
        },
        SynsetRelType::HoloMember => {
            assert(spec_decode_synset_rel_part1("holo_member"@) == Some(SynsetRelType::HoloMember));
        },
        SynsetRelType::HoloPart => {
            assert(spec_decode_synset_rel_part1("holo_part"@) == Some(SynsetRelType::HoloPart));
        },
        SynsetRelType::HoloSubstance => {
            assert(spec_decode_synset_rel_part1("holo_substance"@) == Some(SynsetRelType::HoloSubstance));
        },
        SynsetRelType::Entails => {
            assert(spec_decode_synset_rel_part1("entails"@) == Some(SynsetRelType::Entails));
        },
        SynsetRelType::Causes => {
            assert(spec_decode_synset_rel_part1("causes"@) == Some(SynsetRelType::Causes));
        },
        SynsetRelType::Similar => {
            assert(spec_decode_synset_rel_part1("similar"@) == Some(SynsetRelType::Similar));
        },
        SynsetRelType::Attribute => {
            assert(spec_decode_synset_rel_part1("attribute"@) == Some(SynsetRelType::Attribute));
        },
        SynsetRelType::DomainRegion => {
            assert(spec_decode_synset_rel_part1("domain_region"@) == Some(SynsetRelType::DomainRegion));
        },
        SynsetRelType::DomainTopic => {
            assert(spec_decode_synset_rel_part1("domain_topic"@) == Some(SynsetRelType::DomainTopic));
        },
        _ => {},
    }
}

#[verifier::rlimit(100)]
#[verifier::spinoff_prover]
proof fn lemma_synset_rel_round_trip_part2(t: SynsetRelType)
    requires
        t == SynsetRelType::HasDomainRegion || t == SynsetRelType::HasDomainTopic || t == SynsetRelType::Exemplifies || t == SynsetRelType::IsExemplifiedBy || t == SynsetRelType::Agent || t == SynsetRelType::Also || t == SynsetRelType::AntoConverse || t == SynsetRelType::AntoGradable || t == SynsetRelType::AntoSimple || t == SynsetRelType::Antonym || t == SynsetRelType::Augmentative || t == SynsetRelType::BeInState || t == SynsetRelType::ClassifiedBy || t == SynsetRelType::Classifies || t == SynsetRelType::CoAgentInstrument || t == SynsetRelType::CoAgentPatient,
    ensures
        spec_decode_synset_rel(spec_synset_rel_string(t)) == t,
{
    reveal_strlit("hypernym");
    reveal_strlit("hyponym");
    reveal_strlit("instance_hypernym");
    reveal_strlit("instance_hyponym");
    reveal_strlit("mero_member");
    reveal_strlit("mero_part");
    reveal_strlit("mero_substance");
    reveal_strlit("holo_member");
    reveal_strlit("holo_part");
    reveal_strlit("holo_substance");
    reveal_strlit("entails");
    reveal_strlit("causes");
    reveal_strlit("similar");
    reveal_strlit("attribute");
    reveal_strlit("domain_region");
    reveal_strlit("domain_topic");
    reveal_strlit("has_domain_region");
    reveal_strlit("has_domain_topic");
    reveal_strlit("exemplifies");
    reveal_strlit("is_exemplified_by");
    reveal_strlit("agent");
    reveal_strlit("also");
    reveal_strlit("anto_converse");
    reveal_strlit("anto_gradable");
    reveal_strlit("anto_simple");
    reveal_strlit("antonym");
    reveal_strlit("augmentative");
    reveal_strlit("be_in_state");
    reveal_strlit("classified_by");
    reveal_strlit("classifies");
    reveal_strlit("co_agent_instrument");
    reveal_strlit("co_agent_patient");
    reveal_strlit("co_agent_result");
    reveal_strlit("co_instrument_agent");
    reveal_strlit("co_instrument_patient");
    reveal_strlit("co_instrument_result");
    reveal_strlit("co_patient_agent");
    reveal_strlit("co_patient_instrument");
    reveal_strlit("co_result_agent");
    reveal_strlit("co_result_instrument");
    reveal_strlit("co_role");
    reveal_strlit("constitutive");
    reveal_strlit("derivation");
    reveal_strlit("diminutive");
    reveal_strlit("direction");
    reveal_strlit("domain");
    reveal_strlit("eq_synonym");
    reveal_strlit("feminine");
    reveal_strlit("has_augmentative");
    reveal_strlit("has_diminutive");
    reveal_strlit("has_domain");
    reveal_strlit("has_feminine");
    reveal_strlit("has_masculine");
    reveal_strlit("has_young");
    reveal_strlit("holo_location");
    reveal_strlit("holo_portion");
    reveal_strlit("holonym");
    reveal_strlit("in_manner");
    reveal_strlit("instrument");
    reveal_strlit("involved");
    reveal_strlit("involved_agent");
    reveal_strlit("involved_direction");
    reveal_strlit("involved_instrument");
    reveal_strlit("involved_location");
    reveal_strlit("involved_patient");
    reveal_strlit("involved_result");
    reveal_strlit("involved_source_direction");
    reveal_strlit("involved_target_direction");
    reveal_strlit("ir_synonym");
    reveal_strlit("is_caused_by");
    reveal_strlit("is_entailed_by");
    reveal_strlit("is_subevent_of");
    reveal_strlit("location");
    reveal_strlit("manner_of");
    reveal_strlit("masculine");
    reveal_strlit("mero_location");
    reveal_strlit("mero_portion");
    reveal_strlit("meronym");
    reveal_strlit("other");
    reveal_strlit("participle");
    reveal_strlit("patient");
    reveal_strlit("pertainym");
    reveal_strlit("restricted_by");
    reveal_strlit("restricts");
    reveal_strlit("result");
    reveal_strlit("role");
    reveal_strlit("secondary_aspect_ip");
    reveal_strlit("secondary_aspect_pi");
    reveal_strlit("simple_aspect_ip");
    reveal_strlit("simple_aspect_pi");
    reveal_strlit("source_direction");
    reveal_strlit("state_of");
    reveal_strlit("subevent");
    reveal_strlit("target_direction");
    reveal_strlit("young");
    reveal_strlit("unknown");
    assert("hypernym"@.len() == 8);
    assert("hyponym"@.len() == 7);
    assert("instance_hypernym"@.len() == 17);
    assert("instance_hyponym"@.len() == 16);
    assert("mero_member"@.len() == 11);
    assert("mero_part"@.len() == 9);
    assert("mero_substance"@.len() == 14);
    assert("holo_member"@.len() == 11);
    assert("holo_part"@.len() == 9);
    assert("holo_substance"@.len() == 14);
    assert("entails"@.len() == 7);
    assert("causes"@.len() == 6);
    assert("similar"@.len() == 7);
    assert("attribute"@.len() == 9);
    assert("domain_region"@.len() == 13);
    assert("domain_topic"@.len() == 12);
    assert("has_domain_region"@.len() == 17);
    assert("has_domain_topic"@.len() == 16);
    assert("exemplifies"@.len() == 11);
    assert("is_exemplified_by"@.len() == 17);
    assert("agent"@.len() == 5);
    assert("also"@.len() == 4);
    assert("anto_converse"@.len() == 13);
    assert("anto_gradable"@.len() == 13);
    assert("anto_simple"@.len() == 11);
    assert("antonym"@.len() == 7);
    assert("augmentative"@.len() == 12);
    assert("be_in_state"@.len() == 11);
    assert("classified_by"@.len() == 13);
    assert("classifies"@.len() == 10);
    assert("co_agent_instrument"@.len() == 19);
    assert("co_agent_patient"@.len() == 16);
    assert("co_agent_result"@.len() == 15);
    assert("co_instrument_agent"@.len() == 19);
    assert("co_instrument_patient"@.len() == 21);
    assert("co_instrument_result"@.len() == 20);
    assert("co_patient_agent"@.len() == 16);
    assert("co_patient_instrument"@.len() == 21);
    assert("co_result_agent"@.len() == 15);
    assert("co_result_instrument"@.len() == 20);
    assert("co_role"@.len() == 7);
    assert("constitutive"@.len() == 12);
    assert("derivation"@.len() == 10);
    assert("diminutive"@.len() == 10);
    assert("direction"@.len() == 9);
    assert("domain"@.len() == 6);
    assert("eq_synonym"@.len() == 10);
    assert("feminine"@.len() == 8);
    assert("has_augmentative"@.len() == 16);
    assert("has_diminutive"@.len() == 14);
    assert("has_domain"@.len() == 10);
    assert("has_feminine"@.len() == 12);
    assert("has_masculine"@.len() == 13);
    assert("has_young"@.len() == 9);
    assert("holo_location"@.len() == 13);
    assert("holo_portion"@.len() == 12);
    assert("holonym"@.len() == 7);
    assert("in_manner"@.len() == 9);
    assert("instrument"@.len() == 10);
    assert("involved"@.len() == 8);
    assert("involved_agent"@.len() == 14);
    assert("involved_direction"@.len() == 18);
    assert("involved_instrument"@.len() == 19);
    assert("involved_location"@.len() == 17);
    assert("involved_patient"@.len() == 16);
    assert("involved_result"@.len() == 15);
    assert("involved_source_direction"@.len() == 25);
    assert("involved_target_direction"@.len() == 25);
    assert("ir_synonym"@.len() == 10);
    assert("is_caused_by"@.len() == 12);
    assert("is_entailed_by"@.len() == 14);
    assert("is_subevent_of"@.len() == 14);
    assert("location"@.len() == 8);
    assert("manner_of"@.len() == 9);
    assert("masculine"@.len() == 9);
    assert("mero_location"@.len() == 13);
    assert("mero_portion"@.len() == 12);
    assert("meronym"@.len() == 7);
    assert("other"@.len() == 5);
    assert("participle"@.len() == 10);
    assert("patient"@.len() == 7);
    assert("pertainym"@.len() == 9);
    assert("restricted_by"@.len() == 13);
    assert("restricts"@.len() == 9);
    assert("result"@.len() == 6);
    assert("role"@.len() == 4);
    assert("secondary_aspect_ip"@.len() == 19);
    assert("secondary_aspect_pi"@.len() == 19);
    assert("simple_aspect_ip"@.len() == 16);
    assert("simple_aspect_pi"@.len() == 16);
    assert("source_direction"@.len() == 16);
    assert("state_of"@.len() == 8);
    assert("subevent"@.len() == 8);
    assert("target_direction"@.len() == 16);
    assert("young"@.len() == 5);
    assert("unknown"@.len() == 7);
    assert("agent"@[0] == 'a');
    assert("also"@[0] == 'a');
    assert("anto_converse"@[0] == 'a');
    assert("anto_converse"@[5] == 'c');
    assert("anto_gradable"@[0] == 'a');
    assert("anto_gradable"@[5] == 'g');
    assert("anto_simple"@[0] == 'a');
    assert("antonym"@[0] == 'a');
    assert("attribute"@[0] == 'a');
    assert("augmentative"@[0] == 'a');
    assert("be_in_state"@[0] == 'b');
    assert("causes"@[0] == 'c');
    assert("classified_by"@[0] == 'c');
    assert("classifies"@[0] == 'c');
    assert("co_agent_instrument"@[0] == 'c');
    assert("co_agent_instrument"@[3] == 'a');
    assert("co_agent_patient"@[0] == 'c');
    assert("co_agent_patient"@[3] == 'a');
    assert("co_agent_result"@[0] == 'c');
    assert("co_agent_result"@[3] == 'a');
    assert("co_instrument_agent"@[0] == 'c');
    assert("co_instrument_agent"@[3] == 'i');
    assert("co_instrument_patient"@[3] == 'i');
    assert("co_instrument_result"@[3] == 'i');
    assert("co_patient_agent"@[0] == 'c');
    assert("co_patient_agent"@[3] == 'p');
    assert("co_patient_instrument"@[3] == 'p');
    assert("co_result_agent"@[0] == 'c');
    assert("co_result_agent"@[3] == 'r');
    assert("co_result_instrument"@[3] == 'r');
    assert("co_role"@[0] == 'c');
    assert("constitutive"@[0] == 'c');
    assert("derivation"@[0] == 'd');
    assert("derivation"@[1] == 'e');
    assert("diminutive"@[0] == 'd');
    assert("diminutive"@[1] == 'i');
    assert("direction"@[0] == 'd');
    assert("domain"@[0] == 'd');
    assert("domain_region"@[0] == 'd');
    assert("domain_topic"@[0] == 'd');
    assert("entails"@[0] == 'e');
    assert("eq_synonym"@[0] == 'e');
    assert("exemplifies"@[0] == 'e');
    assert("feminine"@[0] == 'f');
    assert("has_augmentative"@[0] == 'h');
    assert("has_augmentative"@[4] == 'a');
    assert("has_diminutive"@[0] == 'h');
    assert("has_diminutive"@[1] == 'a');
    assert("has_domain"@[0] == 'h');
    assert("has_domain_region"@[0] == 'h');
    assert("has_domain_topic"@[0] == 'h');
    assert("has_domain_topic"@[4] == 'd');
    assert("has_feminine"@[0] == 'h');
    assert("has_feminine"@[1] == 'a');
    assert("has_masculine"@[0] == 'h');
    assert("has_masculine"@[1] == 'a');
    assert("has_young"@[0] == 'h');
    assert("has_young"@[1] == 'a');
    assert("holo_location"@[0] == 'h');
    assert("holo_location"@[1] == 'o');
    assert("holo_member"@[0] == 'h');
    assert("holo_part"@[0] == 'h');
    assert("holo_part"@[1] == 'o');
    assert("holo_portion"@[0] == 'h');
    assert("holo_portion"@[1] == 'o');
    assert("holo_substance"@[0] == 'h');
    assert("holo_substance"@[1] == 'o');
    assert("holonym"@[0] == 'h');
    assert("holonym"@[1] == 'o');
    assert("hypernym"@[0] == 'h');
    assert("hyponym"@[0] == 'h');
    assert("hyponym"@[1] == 'y');
    assert("in_manner"@[0] == 'i');
    assert("instance_hypernym"@[0] == 'i');
    assert("instance_hypernym"@[1] == 'n');
    assert("instance_hypernym"@[2] == 's');
    assert("instance_hyponym"@[0] == 'i');
    assert("instance_hyponym"@[2] == 's');
    assert("instrument"@[0] == 'i');
    assert("instrument"@[1] == 'n');
    assert("involved"@[0] == 'i');
    assert("involved_agent"@[0] == 'i');
    assert("involved_agent"@[1] == 'n');
    assert("involved_instrument"@[0] == 'i');
    assert("involved_location"@[0] == 'i');
    assert("involved_location"@[1] == 'n');
    assert("involved_location"@[2] == 'v');
    assert("involved_patient"@[0] == 'i');
    assert("involved_patient"@[2] == 'v');
    assert("involved_result"@[0] == 'i');
    assert("involved_source_direction"@[9] == 's');
    assert("involved_target_direction"@[9] == 't');
    assert("ir_synonym"@[0] == 'i');
    assert("ir_synonym"@[1] == 'r');
    assert("is_caused_by"@[0] == 'i');
    assert("is_entailed_by"@[0] == 'i');
    assert("is_entailed_by"@[1] == 's');
    assert("is_entailed_by"@[3] == 'e');
    assert("is_exemplified_by"@[0] == 'i');
    assert("is_exemplified_by"@[1] == 's');
    assert("is_subevent_of"@[0] == 'i');
    assert("is_subevent_of"@[1] == 's');
    assert("is_subevent_of"@[3] == 's');
    assert("location"@[0] == 'l');
    assert("manner_of"@[0] == 'm');
    assert("manner_of"@[1] == 'a');
    assert("manner_of"@[2] == 'n');
    assert("masculine"@[0] == 'm');
    assert("masculine"@[1] == 'a');
    assert("masculine"@[2] == 's');
    assert("mero_location"@[0] == 'm');
    assert("mero_member"@[0] == 'm');
    assert("mero_part"@[0] == 'm');
    assert("mero_part"@[1] == 'e');
    assert("mero_portion"@[0] == 'm');
    assert("mero_substance"@[0] == 'm');
    assert("meronym"@[0] == 'm');
    assert("other"@[0] == 'o');
    assert("participle"@[0] == 'p');
    assert("patient"@[0] == 'p');
    assert("pertainym"@[0] == 'p');
    assert("restricted_by"@[0] == 'r');
    assert("restricts"@[0] == 'r');
    assert("result"@[0] == 'r');
    assert("role"@[0] == 'r');
    assert("secondary_aspect_ip"@[0] == 's');
    assert("secondary_aspect_ip"@[17] == 'i');
    assert("secondary_aspect_pi"@[0] == 's');
    assert("secondary_aspect_pi"@[17] == 'p');
    assert("similar"@[0] == 's');
    assert("simple_aspect_ip"@[0] == 's');
    assert("simple_aspect_ip"@[1] == 'i');
    assert("simple_aspect_ip"@[14] == 'i');
    assert("simple_aspect_pi"@[0] == 's');
    assert("simple_aspect_pi"@[1] == 'i');
    assert("simple_aspect_pi"@[14] == 'p');
    assert("source_direction"@[0] == 's');
    assert("source_direction"@[1] == 'o');
    assert("state_of"@[0] == 's');
    assert("state_of"@[1] == 't');
    assert("subevent"@[0] == 's');
    assert("subevent"@[1] == 'u');
    assert("target_direction"@[0] == 't');
    assert("unknown"@[0] == 'u');
    assert("young"@[0] == 'y');
    match t {
        SynsetRelType::HasDomainRegion => {
            assert(spec_decode_synset_rel_part1("has_domain_region"@) == None::<SynsetRelType>);
            assert(spec_decode_synset_rel_part2("has_domain_region"@) == Some(SynsetRelType::HasDomainRegion));
        },
        SynsetRelType::HasDomainTopic => {
            assert(spec_decode_synset_rel_part1("has_domain_topic"@) == None::<SynsetRelType>);
            assert(spec_decode_synset_rel_part2("has_domain_topic"@) == Some(SynsetRelType::HasDomainTopic));
        },
        SynsetRelType::Exemplifies => {
            assert(spec_decode_synset_rel_part1("exemplifies"@) == None::<SynsetRelType>);
            assert(spec_decode_synset_rel_part2("exemplifies"@) == Some(SynsetRelType::Exemplifies));
        },
        SynsetRelType::IsExemplifiedBy => {
            assert(spec_decode_synset_rel_part1("is_exemplified_by"@) == None::<SynsetRelType>);
            assert(spec_decode_synset_rel_part2("is_exemplified_by"@) == Some(SynsetRelType::IsExemplifiedBy));
        },
        SynsetRelType::Agent => {
            assert(spec_decode_synset_rel_part1("agent"@) == None::<SynsetRelType>);
            assert(spec_decode_synset_rel_part2("agent"@) == Some(SynsetRelType::Agent));
        },
        SynsetRelType::Also => {
            assert(spec_decode_synset_rel_part1("also"@) == None::<SynsetRelType>);
            assert(spec_decode_synset_rel_part2("also"@) == Some(SynsetRelType::Also));
        },
        SynsetRelType::AntoConverse => {
            assert(spec_decode_synset_rel_part1("anto_converse"@) == None::<SynsetRelType>);
            assert(spec_decode_synset_rel_part2("anto_converse"@) == Some(SynsetRelType::AntoConverse));
        },
        SynsetRelType::AntoGradable => {
            assert(spec_decode_synset_rel_part1("anto_gradable"@) == None::<SynsetRelType>);
            assert(spec_decode_synset_rel_part2("anto_gradable"@) == Some(SynsetRelType::AntoGradable));
        },
        SynsetRelType::AntoSimple => {
            assert(spec_decode_synset_rel_part1("anto_simple"@) == None::<SynsetRelType>);
            assert(spec_decode_synset_rel_part2("anto_simple"@) == Some(SynsetRelType::AntoSimple));
        },
        SynsetRelType::Antonym => {
            assert(spec_decode_synset_rel_part1("antonym"@) == None::<SynsetRelType>);
            assert(spec_decode_synset_rel_part2("antonym"@) == Some(SynsetRelType::Antonym));
        },
        SynsetRelType::Augmentative => {
            assert(spec_decode_synset_rel_part1("augmentative"@) == None::<SynsetRelType>);
            assert(spec_decode_synset_rel_part2("augmentative"@) == Some(SynsetRelType::Augmentative));
        },
        SynsetRelType::BeInState => {
            assert(spec_decode_synset_rel_part1("be_in_state"@) == None::<SynsetRelType>);
            assert(spec_decode_synset_rel_part2("be_in_state"@) == Some(SynsetRelType::BeInState));
        },
        SynsetRelType::ClassifiedBy => {
            assert(spec_decode_synset_rel_part1("classified_by"@) == None::<SynsetRelType>);
            assert(spec_decode_synset_rel_part2("classified_by"@) == Some(SynsetRelType::ClassifiedBy));
        },
        SynsetRelType::Classifies => {
            assert(spec_decode_synset_rel_part1("classifies"@) == None::<SynsetRelType>);
            assert(spec_decode_synset_rel_part2("classifies"@) == Some(SynsetRelType::Classifies));
        },
        SynsetRelType::CoAgentInstrument => {
            assert(spec_decode_synset_rel_part1("co_agent_instrument"@) == None::<SynsetRelType>);
            assert(spec_decode_synset_rel_part2("co_agent_instrument"@) == Some(SynsetRelType::CoAgentInstrument));
        },
        SynsetRelType::CoAgentPatient => {
            assert(spec_decode_synset_rel_part1("co_agent_patient"@) == None::<SynsetRelType>);
            assert(spec_decode_synset_rel_part2("co_agent_patient"@) == Some(SynsetRelType::CoAgentPatient));
        },
        _ => {},
    }
}

#[verifier::rlimit(100)]
#[verifier::spinoff_prover]
proof fn lemma_synset_rel_round_trip_part3(t: SynsetRelType)
    requires
        t == SynsetRelType::CoAgentResult || t == SynsetRelType::CoInstrumentAgent || t == SynsetRelType::CoInstrumentPatient || t == SynsetRelType::CoInstrumentResult || t == SynsetRelType::CoPatientAgent || t == SynsetRelType::CoPatientInstrument || t == SynsetRelType::CoResultAgent || t == SynsetRelType::CoResultInstrument || t == SynsetRelType::CoRole || t == SynsetRelType::Constitutive || t == SynsetRelType::Derivation || t == SynsetRelType::Diminutive || t == SynsetRelType::Direction || t == SynsetRelType::Domain || t == SynsetRelType::EqSynonym || t == SynsetRelType::Feminine,
    ensures
        spec_decode_synset_rel(spec_synset_rel_string(t)) == t,
{
    reveal_strlit("hypernym");
    reveal_strlit("hyponym");
    reveal_strlit("instance_hypernym");
    reveal_strlit("instance_hyponym");
    reveal_strlit("mero_member");
    reveal_strlit("mero_part");
    reveal_strlit("mero_substance");
    reveal_strlit("holo_member");
    reveal_strlit("holo_part");
    reveal_strlit("holo_substance");
    reveal_strlit("entails");
    reveal_strlit("causes");
    reveal_strlit("similar");
    reveal_strlit("attribute");
    reveal_strlit("domain_region");
    reveal_strlit("domain_topic");
    reveal_strlit("has_domain_region");
    reveal_strlit("has_domain_topic");
    reveal_strlit("exemplifies");
    reveal_strlit("is_exemplified_by");
    reveal_strlit("agent");
    reveal_strlit("also");
    reveal_strlit("anto_converse");
    reveal_strlit("anto_gradable");
    reveal_strlit("anto_simple");
    reveal_strlit("antonym");
    reveal_strlit("augmentative");
    reveal_strlit("be_in_state");
    reveal_strlit("classified_by");
    reveal_strlit("classifies");
    reveal_strlit("co_agent_instrument");
    reveal_strlit("co_agent_patient");
    reveal_strlit("co_agent_result");
    reveal_strlit("co_instrument_agent");
    reveal_strlit("co_instrument_patient");
    reveal_strlit("co_instrument_result");
    reveal_strlit("co_patient_agent");
    reveal_strlit("co_patient_instrument");
    reveal_strlit("co_result_agent");
    reveal_strlit("co_result_instrument");
    reveal_strlit("co_role");
    reveal_strlit("constitutive");
    reveal_strlit("derivation");
    reveal_strlit("diminutive");
    reveal_strlit("direction");
    reveal_strlit("domain");
    reveal_strlit("eq_synonym");
    reveal_strlit("feminine");
    reveal_strlit("has_augmentative");
    reveal_strlit("has_diminutive");
    reveal_strlit("has_domain");
    reveal_strlit("has_feminine");
    reveal_strlit("has_masculine");
    reveal_strlit("has_young");
    reveal_strlit("holo_location");
    reveal_strlit("holo_portion");
    reveal_strlit("holonym");
    reveal_strlit("in_manner");
    reveal_strlit("instrument");
    reveal_strlit("involved");
    reveal_strlit("involved_agent");
    reveal_strlit("involved_direction");
    reveal_strlit("involved_instrument");
    reveal_strlit("involved_location");
    reveal_strlit("involved_patient");
    reveal_strlit("involved_result");
    reveal_strlit("involved_source_direction");
    reveal_strlit("involved_target_direction");
    reveal_strlit("ir_synonym");
    reveal_strlit("is_caused_by");
    reveal_strlit("is_entailed_by");
    reveal_strlit("is_subevent_of");
    reveal_strlit("location");
    reveal_strlit("manner_of");
    reveal_strlit("masculine");
    reveal_strlit("mero_location");
    reveal_strlit("mero_portion");
    reveal_strlit("meronym");
    reveal_strlit("other");
    reveal_strlit("participle");
    reveal_strlit("patient");
    reveal_strlit("pertainym");
    reveal_strlit("restricted_by");
    reveal_strlit("restricts");
    reveal_strlit("result");
    reveal_strlit("role");
    reveal_strlit("secondary_aspect_ip");
    reveal_strlit("secondary_aspect_pi");
    reveal_strlit("simple_aspect_ip");
    reveal_strlit("simple_aspect_pi");
    reveal_strlit("source_direction");
    reveal_strlit("state_of");
    reveal_strlit("subevent");
    reveal_strlit("target_direction");
    reveal_strlit("young");
    reveal_strlit("unknown");
    assert("hypernym"@.len() == 8);
    assert("hyponym"@.len() == 7);
    assert("instance_hypernym"@.len() == 17);
    assert("instance_hyponym"@.len() == 16);
    assert("mero_member"@.len() == 11);
    assert("mero_part"@.len() == 9);
    assert("mero_substance"@.len() == 14);
    assert("holo_member"@.len() == 11);
    assert("holo_part"@.len() == 9);
    assert("holo_substance"@.len() == 14);
    assert("entails"@.len() == 7);
    assert("causes"@.len() == 6);
    assert("similar"@.len() == 7);
    assert("attribute"@.len() == 9);
    assert("domain_region"@.len() == 13);
    assert("domain_topic"@.len() == 12);
    assert("has_domain_region"@.len() == 17);
    assert("has_domain_topic"@.len() == 16);
    assert("exemplifies"@.len() == 11);
    assert("is_exemplified_by"@.len() == 17);
    assert("agent"@.len() == 5);
    assert("also"@.len() == 4);
    assert("anto_converse"@.len() == 13);
    assert("anto_gradable"@.len() == 13);
    assert("anto_simple"@.len() == 11);
    assert("antonym"@.len() == 7);
    assert("augmentative"@.len() == 12);
    assert("be_in_state"@.len() == 11);
    assert("classified_by"@.len() == 13);
    assert("classifies"@.len() == 10);
    assert("co_agent_instrument"@.len() == 19);
    assert("co_agent_patient"@.len() == 16);
    assert("co_agent_result"@.len() == 15);
    assert("co_instrument_agent"@.len() == 19);
    assert("co_instrument_patient"@.len() == 21);
    assert("co_instrument_result"@.len() == 20);
    assert("co_patient_agent"@.len() == 16);
    assert("co_patient_instrument"@.len() == 21);
    assert("co_result_agent"@.len() == 15);
    assert("co_result_instrument"@.len() == 20);
    assert("co_role"@.len() == 7);
    assert("constitutive"@.len() == 12);
    assert("derivation"@.len() == 10);
    assert("diminutive"@.len() == 10);
    assert("direction"@.len() == 9);
    assert("domain"@.len() == 6);
    assert("eq_synonym"@.len() == 10);
    assert("feminine"@.len() == 8);
    assert("has_augmentative"@.len() == 16);
    assert("has_diminutive"@.len() == 14);
    assert("has_domain"@.len() == 10);
    assert("has_feminine"@.len() == 12);
    assert("has_masculine"@.len() == 13);
    assert("has_young"@.len() == 9);
    assert("holo_location"@.len() == 13);
    assert("holo_portion"@.len() == 12);
    assert("holonym"@.len() == 7);
    assert("in_manner"@.len() == 9);
    assert("instrument"@.len() == 10);
    assert("involved"@.len() == 8);
    assert("involved_agent"@.len() == 14);
    assert("involved_direction"@.len() == 18);
    assert("involved_instrument"@.len() == 19);
    assert("involved_location"@.len() == 17);
    assert("involved_patient"@.len() == 16);
    assert("involved_result"@.len() == 15);
    assert("involved_source_direction"@.len() == 25);
    assert("involved_target_direction"@.len() == 25);
    assert("ir_synonym"@.len() == 10);
    assert("is_caused_by"@.len() == 12);
    assert("is_entailed_by"@.len() == 14);
    assert("is_subevent_of"@.len() == 14);
    assert("location"@.len() == 8);
    assert("manner_of"@.len() == 9);
    assert("masculine"@.len() == 9);
    assert("mero_location"@.len() == 13);
    assert("mero_portion"@.len() == 12);
    assert("meronym"@.len() == 7);
    assert("other"@.len() == 5);
    assert("participle"@.len() == 10);
    assert("patient"@.len() == 7);
    assert("pertainym"@.len() == 9);
    assert("restricted_by"@.len() == 13);
    assert("restricts"@.len() == 9);
    assert("result"@.len() == 6);
    assert("role"@.len() == 4);
    assert("secondary_aspect_ip"@.len() == 19);
    assert("secondary_aspect_pi"@.len() == 19);
    assert("simple_aspect_ip"@.len() == 16);
    assert("simple_aspect_pi"@.len() == 16);
    assert("source_direction"@.len() == 16);
    assert("state_of"@.len() == 8);
    assert("subevent"@.len() == 8);
    assert("target_direction"@.len() == 16);
    assert("young"@.len() == 5);
    assert("unknown"@.len() == 7);
    assert("agent"@[0] == 'a');
    assert("also"@[0] == 'a');
    assert("anto_converse"@[0] == 'a');
    assert("anto_converse"@[5] == 'c');
    assert("anto_gradable"@[0] == 'a');
    assert("anto_gradable"@[5] == 'g');
    assert("anto_simple"@[0] == 'a');
    assert("antonym"@[0] == 'a');
    assert("attribute"@[0] == 'a');
    assert("augmentative"@[0] == 'a');
    assert("be_in_state"@[0] == 'b');
    assert("causes"@[0] == 'c');
    assert("classified_by"@[0] == 'c');
    assert("classifies"@[0] == 'c');
    assert("co_agent_instrument"@[0] == 'c');
    assert("co_agent_instrument"@[3] == 'a');
    assert("co_agent_patient"@[0] == 'c');
    assert("co_agent_patient"@[3] == 'a');
    assert("co_agent_result"@[0] == 'c');
    assert("co_agent_result"@[3] == 'a');
    assert("co_instrument_agent"@[0] == 'c');
    assert("co_instrument_agent"@[3] == 'i');
    assert("co_instrument_patient"@[3] == 'i');
    assert("co_instrument_result"@[3] == 'i');
    assert("co_patient_agent"@[0] == 'c');
    assert("co_patient_agent"@[3] == 'p');
    assert("co_patient_instrument"@[3] == 'p');
    assert("co_result_agent"@[0] == 'c');
    assert("co_result_agent"@[3] == 'r');
    assert("co_result_instrument"@[3] == 'r');
    assert("co_role"@[0] == 'c');
    assert("constitutive"@[0] == 'c');
    assert("derivation"@[0] == 'd');
    assert("derivation"@[1] == 'e');
    assert("diminutive"@[0] == 'd');
    assert("diminutive"@[1] == 'i');
    assert("direction"@[0] == 'd');
    assert("domain"@[0] == 'd');
    assert("domain_region"@[0] == 'd');
    assert("domain_topic"@[0] == 'd');
    assert("entails"@[0] == 'e');
    assert("eq_synonym"@[0] == 'e');
    assert("exemplifies"@[0] == 'e');
    assert("feminine"@[0] == 'f');
    assert("has_augmentative"@[0] == 'h');
    assert("has_augmentative"@[4] == 'a');
    assert("has_diminutive"@[0] == 'h');
    assert("has_diminutive"@[1] == 'a');
    assert("has_domain"@[0] == 'h');
    assert("has_domain_region"@[0] == 'h');
    assert("has_domain_topic"@[0] == 'h');
    assert("has_domain_topic"@[4] == 'd');
    assert("has_feminine"@[0] == 'h');
    assert("has_feminine"@[1] == 'a');
    assert("has_masculine"@[0] == 'h');
    assert("has_masculine"@[1] == 'a');
    assert("has_young"@[0] == 'h');
    assert("has_young"@[1] == 'a');
    assert("holo_location"@[0] == 'h');
    assert("holo_location"@[1] == 'o');
    assert("holo_member"@[0] == 'h');
    assert("holo_part"@[0] == 'h');
    assert("holo_part"@[1] == 'o');
    assert("holo_portion"@[0] == 'h');
    assert("holo_portion"@[1] == 'o');
    assert("holo_substance"@[0] == 'h');
    assert("holo_substance"@[1] == 'o');
    assert("holonym"@[0] == 'h');
    assert("holonym"@[1] == 'o');
    assert("hypernym"@[0] == 'h');
    assert("hyponym"@[0] == 'h');
    assert("hyponym"@[1] == 'y');
    assert("in_manner"@[0] == 'i');
    assert("instance_hypernym"@[0] == 'i');
    assert("instance_hypernym"@[1] == 'n');
    assert("instance_hypernym"@[2] == 's');
    assert("instance_hyponym"@[0] == 'i');
    assert("instance_hyponym"@[2] == 's');
    assert("instrument"@[0] == 'i');
    assert("instrument"@[1] == 'n');
    assert("involved"@[0] == 'i');
    assert("involved_agent"@[0] == 'i');
    assert("involved_agent"@[1] == 'n');
    assert("involved_instrument"@[0] == 'i');
    assert("involved_location"@[0] == 'i');
    assert("involved_location"@[1] == 'n');
    assert("involved_location"@[2] == 'v');
    assert("involved_patient"@[0] == 'i');
    assert("involved_patient"@[2] == 'v');
    assert("involved_result"@[0] == 'i');
    assert("involved_source_direction"@[9] == 's');
    assert("involved_target_direction"@[9] == 't');
    assert("ir_synonym"@[0] == 'i');
    assert("ir_synonym"@[1] == 'r');
    assert("is_caused_by"@[0] == 'i');
    assert("is_entailed_by"@[0] == 'i');
    assert("is_entailed_by"@[1] == 's');
    assert("is_entailed_by"@[3] == 'e');
    assert("is_exemplified_by"@[0] == 'i');
    assert("is_exemplified_by"@[1] == 's');
    assert("is_subevent_of"@[0] == 'i');
    assert("is_subevent_of"@[1] == 's');
    assert("is_subevent_of"@[3] == 's');
    assert("location"@[0] == 'l');
    assert("manner_of"@[0] == 'm');
    assert("manner_of"@[1] == 'a');
    assert("manner_of"@[2] == 'n');
    assert("masculine"@[0] == 'm');
    assert("masculine"@[1] == 'a');
    assert("masculine"@[2] == 's');
    assert("mero_location"@[0] == 'm');
    assert("mero_member"@[0] == 'm');
    assert("mero_part"@[0] == 'm');
    assert("mero_part"@[1] == 'e');
    assert("mero_portion"@[0] == 'm');
    assert("mero_substance"@[0] == 'm');
    assert("meronym"@[0] == 'm');
    assert("other"@[0] == 'o');
    assert("participle"@[0] == 'p');
    assert("patient"@[0] == 'p');
    assert("pertainym"@[0] == 'p');
    assert("restricted_by"@[0] == 'r');
    assert("restricts"@[0] == 'r');
    assert("result"@[0] == 'r');
    assert("role"@[0] == 'r');
    assert("secondary_aspect_ip"@[0] == 's');
    assert("secondary_aspect_ip"@[17] == 'i');
    assert("secondary_aspect_pi"@[0] == 's');
    assert("secondary_aspect_pi"@[17] == 'p');
    assert("similar"@[0] == 's');
    assert("simple_aspect_ip"@[0] == 's');
    assert("simple_aspect_ip"@[1] == 'i');
    assert("simple_aspect_ip"@[14] == 'i');
    assert("simple_aspect_pi"@[0] == 's');
    assert("simple_aspect_pi"@[1] == 'i');
    assert("simple_aspect_pi"@[14] == 'p');
    assert("source_direction"@[0] == 's');
    assert("source_direction"@[1] == 'o');
    assert("state_of"@[0] == 's');
    assert("state_of"@[1] == 't');
    assert("subevent"@[0] == 's');
    assert("subevent"@[1] == 'u');
    assert("target_direction"@[0] == 't');
    assert("unknown"@[0] == 'u');
    assert("young"@[0] == 'y');
    match t {
        SynsetRelType::CoAgentResult => {
            assert(spec_decode_synset_rel_part1("co_agent_result"@) == None::<SynsetRelType>);
            assert(spec_decode_synset_rel_part2("co_agent_result"@) == None::<SynsetRelType>);
            assert(spec_decode_synset_rel_part3("co_agent_result"@) == Some(SynsetRelType::CoAgentResult));
        },
        SynsetRelType::CoInstrumentAgent => {
            assert(spec_decode_synset_rel_part1("co_instrument_agent"@) == None::<SynsetRelType>);
            assert(spec_decode_synset_rel_part2("co_instrument_agent"@) == None::<SynsetRelType>);
            assert(spec_decode_synset_rel_part3("co_instrument_agent"@) == Some(SynsetRelType::CoInstrumentAgent));
        },
        SynsetRelType::CoInstrumentPatient => {
            assert(spec_decode_synset_rel_part1("co_instrument_patient"@) == None::<SynsetRelType>);
            assert(spec_decode_synset_rel_part2("co_instrument_patient"@) == None::<SynsetRelType>);
            assert(spec_decode_synset_rel_part3("co_instrument_patient"@) == Some(SynsetRelType::CoInstrumentPatient));
        },
        SynsetRelType::CoInstrumentResult => {
            assert(spec_decode_synset_rel_part1("co_instrument_result"@) == None::<SynsetRelType>);
            assert(spec_decode_synset_rel_part2("co_instrument_result"@) == None::<SynsetRelType>);
            assert(spec_decode_synset_rel_part3("co_instrument_result"@) == Some(SynsetRelType::CoInstrumentResult));
        },
        SynsetRelType::CoPatientAgent => {
            assert(spec_decode_synset_rel_part1("co_patient_agent"@) == None::<SynsetRelType>);
            assert(spec_decode_synset_rel_part2("co_patient_agent"@) == None::<SynsetRelType>);
            assert(spec_decode_synset_rel_part3("co_patient_agent"@) == Some(SynsetRelType::CoPatientAgent));
        },
        SynsetRelType::CoPatientInstrument => {
            assert(spec_decode_synset_rel_part1("co_patient_instrument"@) == None::<SynsetRelType>);
            assert(spec_decode_synset_rel_part2("co_patient_instrument"@) == None::<SynsetRelType>);
            assert(spec_decode_synset_rel_part3("co_patient_instrument"@) == Some(SynsetRelType::CoPatientInstrument));
        },
        SynsetRelType::CoResultAgent => {
            assert(spec_decode_synset_rel_part1("co_result_agent"@) == None::<SynsetRelType>);
            assert(spec_decode_synset_rel_part2("co_result_agent"@) == None::<SynsetRelType>);
            assert(spec_decode_synset_rel_part3("co_result_agent"@) == Some(SynsetRelType::CoResultAgent));
        },
        SynsetRelType::CoResultInstrument => {
            assert(spec_decode_synset_rel_part1("co_result_instrument"@) == None::<SynsetRelType>);
            assert(spec_decode_synset_rel_part2("co_result_instrument"@) == None::<SynsetRelType>);
            assert(spec_decode_synset_rel_part3("co_result_instrument"@) == Some(SynsetRelType::CoResultInstrument));
        },
        SynsetRelType::CoRole => {
            assert(spec_decode_synset_rel_part1("co_role"@) == None::<SynsetRelType>);
            assert(spec_decode_synset_rel_part2("co_role"@) == None::<SynsetRelType>);
            assert(spec_decode_synset_rel_part3("co_role"@) == Some(SynsetRelType::CoRole));
        },
        SynsetRelType::Constitutive => {
            assert(spec_decode_synset_rel_part1("constitutive"@) == None::<SynsetRelType>);
            assert(spec_decode_synset_rel_part2("constitutive"@) == None::<SynsetRelType>);
            assert(spec_decode_synset_rel_part3("constitutive"@) == Some(SynsetRelType::Constitutive));
        },
        SynsetRelType::Derivation => {
            assert(spec_decode_synset_rel_part1("derivation"@) == None::<SynsetRelType>);
            assert(spec_decode_synset_rel_part2("derivation"@) == None::<SynsetRelType>);
            assert(spec_decode_synset_rel_part3("derivation"@) == Some(SynsetRelType::Derivation));
        },
        SynsetRelType::Diminutive => {
            assert(spec_decode_synset_rel_part1("diminutive"@) == None::<SynsetRelType>);
            assert(spec_decode_synset_rel_part2("diminutive"@) == None::<SynsetRelType>);
            assert(spec_decode_synset_rel_part3("diminutive"@) == Some(SynsetRelType::Diminutive));
        },
        SynsetRelType::Direction => {
            assert(spec_decode_synset_rel_part1("direction"@) == None::<SynsetRelType>);
            assert(spec_decode_synset_rel_part2("direction"@) == None::<SynsetRelType>);
            assert(spec_decode_synset_rel_part3("direction"@) == Some(SynsetRelType::Direction));
        },
        SynsetRelType::Domain => {
            assert(spec_decode_synset_rel_part1("domain"@) == None::<SynsetRelType>);
            assert(spec_decode_synset_rel_part2("domain"@) == None::<SynsetRelType>);
            assert(spec_decode_synset_rel_part3("domain"@) == Some(SynsetRelType::Domain));
        },
        SynsetRelType::EqSynonym => {
            assert(spec_decode_synset_rel_part1("eq_synonym"@) == None::<SynsetRelType>);
            assert(spec_decode_synset_rel_part2("eq_synonym"@) == None::<SynsetRelType>);
            assert(spec_decode_synset_rel_part3("eq_synonym"@) == Some(SynsetRelType::EqSynonym));
        },
        SynsetRelType::Feminine => {
            assert(spec_decode_synset_rel_part1("feminine"@) == None::<SynsetRelType>);
            assert(spec_decode_synset_rel_part2("feminine"@) == None::<SynsetRelType>);
            assert(spec_decode_synset_rel_part3("feminine"@) == Some(SynsetRelType::Feminine));
        },
        _ => {},
    }
}

#[verifier::rlimit(100)]
#[verifier::spinoff_prover]
proof fn lemma_synset_rel_round_trip_part4(t: SynsetRelType)
    requires
        t == SynsetRelType::HasAugmentative || t == SynsetRelType::HasDiminutive || t == SynsetRelType::HasDomain || t == SynsetRelType::HasFeminine || t == SynsetRelType::HasMasculine || t == SynsetRelType::HasYoung || t == SynsetRelType::HoloLocation || t == SynsetRelType::HoloPortion || t == SynsetRelType::Holonym || t == SynsetRelType::InManner || t == SynsetRelType::Instrument || t == SynsetRelType::Involved || t == SynsetRelType::InvolvedAgent || t == SynsetRelType::InvolvedDirection || t == SynsetRelType::InvolvedInstrument || t == SynsetRelType::InvolvedLocation,
    ensures
        spec_decode_synset_rel(spec_synset_rel_string(t)) == t,
{
    reveal_strlit("hypernym");
    reveal_strlit("hyponym");
    reveal_strlit("instance_hypernym");
    reveal_strlit("instance_hyponym");
    reveal_strlit("mero_member");
    reveal_strlit("mero_part");
    reveal_strlit("mero_substance");
    reveal_strlit("holo_member");
    reveal_strlit("holo_part");
    reveal_strlit("holo_substance");
    reveal_strlit("entails");
    reveal_strlit("causes");
    reveal_strlit("similar");
    reveal_strlit("attribute");
    reveal_strlit("domain_region");
    reveal_strlit("domain_topic");
    reveal_strlit("has_domain_region");
    reveal_strlit("has_domain_topic");
    reveal_strlit("exemplifies");
    reveal_strlit("is_exemplified_by");
    reveal_strlit("agent");
    reveal_strlit("also");
    reveal_strlit("anto_converse");
    reveal_strlit("anto_gradable");
    reveal_strlit("anto_simple");
    reveal_strlit("antonym");
    reveal_strlit("augmentative");
    reveal_strlit("be_in_state");
    reveal_strlit("classified_by");
    reveal_strlit("classifies");
    reveal_strlit("co_agent_instrument");
    reveal_strlit("co_agent_patient");
    reveal_strlit("co_agent_result");
    reveal_strlit("co_instrument_agent");
    reveal_strlit("co_instrument_patient");
    reveal_strlit("co_instrument_result");
    reveal_strlit("co_patient_agent");
    reveal_strlit("co_patient_instrument");
    reveal_strlit("co_result_agent");
    reveal_strlit("co_result_instrument");
    reveal_strlit("co_role");
    reveal_strlit("constitutive");
    reveal_strlit("derivation");
    reveal_strlit("diminutive");
    reveal_strlit("direction");
    reveal_strlit("domain");
    reveal_strlit("eq_synonym");
    reveal_strlit("feminine");
    reveal_strlit("has_augmentative");
    reveal_strlit("has_diminutive");
    reveal_strlit("has_domain");
    reveal_strlit("has_feminine");
    reveal_strlit("has_masculine");
    reveal_strlit("has_young");
    reveal_strlit("holo_location");
    reveal_strlit("holo_portion");
    reveal_strlit("holonym");
    reveal_strlit("in_manner");
    reveal_strlit("instrument");
    reveal_strlit("involved");
    reveal_strlit("involved_agent");
    reveal_strlit("involved_direction");
    reveal_strlit("involved_instrument");
    reveal_strlit("involved_location");
    reveal_strlit("involved_patient");
    reveal_strlit("involved_result");
    reveal_strlit("involved_source_direction");
    reveal_strlit("involved_target_direction");
    reveal_strlit("ir_synonym");
    reveal_strlit("is_caused_by");
    reveal_strlit("is_entailed_by");
    reveal_strlit("is_subevent_of");
    reveal_strlit("location");
    reveal_strlit("manner_of");
    reveal_strlit("masculine");
    reveal_strlit("mero_location");
    reveal_strlit("mero_portion");
    reveal_strlit("meronym");
    reveal_strlit("other");
    reveal_strlit("participle");
    reveal_strlit("patient");
    reveal_strlit("pertainym");
    reveal_strlit("restricted_by");
    reveal_strlit("restricts");
    reveal_strlit("result");
    reveal_strlit("role");
    reveal_strlit("secondary_aspect_ip");
    reveal_strlit("secondary_aspect_pi");
    reveal_strlit("simple_aspect_ip");
    reveal_strlit("simple_aspect_pi");
    reveal_strlit("source_direction");
    reveal_strlit("state_of");
    reveal_strlit("subevent");
    reveal_strlit("target_direction");
    reveal_strlit("young");
    reveal_strlit("unknown");
    assert("hypernym"@.len() == 8);
    assert("hyponym"@.len() == 7);
    assert("instance_hypernym"@.len() == 17);
    assert("instance_hyponym"@.len() == 16);
    assert("mero_member"@.len() == 11);
    assert("mero_part"@.len() == 9);
    assert("mero_substance"@.len() == 14);
    assert("holo_member"@.len() == 11);
    assert("holo_part"@.len() == 9);
    assert("holo_substance"@.len() == 14);
    assert("entails"@.len() == 7);
    assert("causes"@.len() == 6);
    assert("similar"@.len() == 7);
    assert("attribute"@.len() == 9);
    assert("domain_region"@.len() == 13);
    assert("domain_topic"@.len() == 12);
    assert("has_domain_region"@.len() == 17);
    assert("has_domain_topic"@.len() == 16);
    assert("exemplifies"@.len() == 11);
    assert("is_exemplified_by"@.len() == 17);
    assert("agent"@.len() == 5);
    assert("also"@.len() == 4);
    assert("anto_converse"@.len() == 13);
    assert("anto_gradable"@.len() == 13);
    assert("anto_simple"@.len() == 11);
    assert("antonym"@.len() == 7);
    assert("augmentative"@.len() == 12);
    assert("be_in_state"@.len() == 11);
    assert("classified_by"@.len() == 13);
    assert("classifies"@.len() == 10);
    assert("co_agent_instrument"@.len() == 19);
    assert("co_agent_patient"@.len() == 16);
    assert("co_agent_result"@.len() == 15);
    assert("co_instrument_agent"@.len() == 19);
    assert("co_instrument_patient"@.len() == 21);
    assert("co_instrument_result"@.len() == 20);
    assert("co_patient_agent"@.len() == 16);
    assert("co_patient_instrument"@.len() == 21);
    assert("co_result_agent"@.len() == 15);
    assert("co_result_instrument"@.len() == 20);
    assert("co_role"@.len() == 7);
    assert("constitutive"@.len() == 12);
    assert("derivation"@.len() == 10);
    assert("diminutive"@.len() == 10);
    assert("direction"@.len() == 9);
    assert("domain"@.len() == 6);
    assert("eq_synonym"@.len() == 10);
    assert("feminine"@.len() == 8);
    assert("has_augmentative"@.len() == 16);
    assert("has_diminutive"@.len() == 14);
    assert("has_domain"@.len() == 10);
    assert("has_feminine"@.len() == 12);
    assert("has_masculine"@.len() == 13);
    assert("has_young"@.len() == 9);
    assert("holo_location"@.len() == 13);
    assert("holo_portion"@.len() == 12);
    assert("holonym"@.len() == 7);
    assert("in_manner"@.len() == 9);
    assert("instrument"@.len() == 10);
    assert("involved"@.len() == 8);
    assert("involved_agent"@.len() == 14);
    assert("involved_direction"@.len() == 18);
    assert("involved_instrument"@.len() == 19);
    assert("involved_location"@.len() == 17);
    assert("involved_patient"@.len() == 16);
    assert("involved_result"@.len() == 15);
    assert("involved_source_direction"@.len() == 25);
    assert("involved_target_direction"@.len() == 25);
    assert("ir_synonym"@.len() == 10);
    assert("is_caused_by"@.len() == 12);
    assert("is_entailed_by"@.len() == 14);
    assert("is_subevent_of"@.len() == 14);
    assert("location"@.len() == 8);
    assert("manner_of"@.len() == 9);
    assert("masculine"@.len() == 9);
    assert("mero_location"@.len() == 13);
    assert("mero_portion"@.len() == 12);
    assert("meronym"@.len() == 7);
    assert("other"@.len() == 5);
    assert("participle"@.len() == 10);
    assert("patient"@.len() == 7);
    assert("pertainym"@.len() == 9);
    assert("restricted_by"@.len() == 13);
    assert("restricts"@.len() == 9);
    assert("result"@.len() == 6);
    assert("role"@.len() == 4);
    assert("secondary_aspect_ip"@.len() == 19);
    assert("secondary_aspect_pi"@.len() == 19);
    assert("simple_aspect_ip"@.len() == 16);
    assert("simple_aspect_pi"@.len() == 16);
    assert("source_direction"@.len() == 16);
    assert("state_of"@.len() == 8);
    assert("subevent"@.len() == 8);
    assert("target_direction"@.len() == 16);
    assert("young"@.len() == 5);
    assert("unknown"@.len() == 7);
    assert("agent"@[0] == 'a');
    assert("also"@[0] == 'a');
    assert("anto_converse"@[0] == 'a');
    assert("anto_converse"@[5] == 'c');
    assert("anto_gradable"@[0] == 'a');
    assert("anto_gradable"@[5] == 'g');
    assert("anto_simple"@[0] == 'a');
    assert("antonym"@[0] == 'a');
    assert("attribute"@[0] == 'a');
    assert("augmentative"@[0] == 'a');
    assert("be_in_state"@[0] == 'b');
    assert("causes"@[0] == 'c');
    assert("classified_by"@[0] == 'c');
    assert("classifies"@[0] == 'c');
    assert("co_agent_instrument"@[0] == 'c');
    assert("co_agent_instrument"@[3] == 'a');
    assert("co_agent_patient"@[0] == 'c');
    assert("co_agent_patient"@[3] == 'a');
    assert("co_agent_result"@[0] == 'c');
    assert("co_agent_result"@[3] == 'a');
    assert("co_instrument_agent"@[0] == 'c');
    assert("co_instrument_agent"@[3] == 'i');
    assert("co_instrument_patient"@[3] == 'i');
    assert("co_instrument_result"@[3] == 'i');
    assert("co_patient_agent"@[0] == 'c');
    assert("co_patient_agent"@[3] == 'p');
    assert("co_patient_instrument"@[3] == 'p');
    assert("co_result_agent"@[0] == 'c');
    assert("co_result_agent"@[3] == 'r');
    assert("co_result_instrument"@[3] == 'r');
    assert("co_role"@[0] == 'c');
    assert("constitutive"@[0] == 'c');
    assert("derivation"@[0] == 'd');
    assert("derivation"@[1] == 'e');
    assert("diminutive"@[0] == 'd');
    assert("diminutive"@[1] == 'i');
    assert("direction"@[0] == 'd');
    assert("domain"@[0] == 'd');
    assert("domain_region"@[0] == 'd');
    assert("domain_topic"@[0] == 'd');
    assert("entails"@[0] == 'e');
    assert("eq_synonym"@[0] == 'e');
    assert("exemplifies"@[0] == 'e');
    assert("feminine"@[0] == 'f');
    assert("has_augmentative"@[0] == 'h');
    assert("has_augmentative"@[4] == 'a');
    assert("has_diminutive"@[0] == 'h');
    assert("has_diminutive"@[1] == 'a');
    assert("has_domain"@[0] == 'h');
    assert("has_domain_region"@[0] == 'h');
    assert("has_domain_topic"@[0] == 'h');
    assert("has_domain_topic"@[4] == 'd');
    assert("has_feminine"@[0] == 'h');
    assert("has_feminine"@[1] == 'a');
    assert("has_masculine"@[0] == 'h');
    assert("has_masculine"@[1] == 'a');
    assert("has_young"@[0] == 'h');
    assert("has_young"@[1] == 'a');
    assert("holo_location"@[0] == 'h');
    assert("holo_location"@[1] == 'o');
    assert("holo_member"@[0] == 'h');
    assert("holo_part"@[0] == 'h');
    assert("holo_part"@[1] == 'o');
    assert("holo_portion"@[0] == 'h');
    assert("holo_portion"@[1] == 'o');
    assert("holo_substance"@[0] == 'h');
    assert("holo_substance"@[1] == 'o');
    assert("holonym"@[0] == 'h');
    assert("holonym"@[1] == 'o');
    assert("hypernym"@[0] == 'h');
    assert("hyponym"@[0] == 'h');
    assert("hyponym"@[1] == 'y');
    assert("in_manner"@[0] == 'i');
    assert("instance_hypernym"@[0] == 'i');
    assert("instance_hypernym"@[1] == 'n');
    assert("instance_hypernym"@[2] == 's');
    assert("instance_hyponym"@[0] == 'i');
    assert("instance_hyponym"@[2] == 's');
    assert("instrument"@[0] == 'i');
    assert("instrument"@[1] == 'n');
    assert("involved"@[0] == 'i');
    assert("involved_agent"@[0] == 'i');
    assert("involved_agent"@[1] == 'n');
    assert("involved_instrument"@[0] == 'i');
    assert("involved_location"@[0] == 'i');
    assert("involved_location"@[1] == 'n');
    assert("involved_location"@[2] == 'v');
    assert("involved_patient"@[0] == 'i');
    assert("involved_patient"@[2] == 'v');
    assert("involved_result"@[0] == 'i');
    assert("involved_source_direction"@[9] == 's');
    assert("involved_target_direction"@[9] == 't');
    assert("ir_synonym"@[0] == 'i');
    assert("ir_synonym"@[1] == 'r');
    assert("is_caused_by"@[0] == 'i');
    assert("is_entailed_by"@[0] == 'i');
    assert("is_entailed_by"@[1] == 's');
    assert("is_entailed_by"@[3] == 'e');
    assert("is_exemplified_by"@[0] == 'i');
    assert("is_exemplified_by"@[1] == 's');
    assert("is_subevent_of"@[0] == 'i');
    assert("is_subevent_of"@[1] == 's');
    assert("is_subevent_of"@[3] == 's');
    assert("location"@[0] == 'l');
    assert("manner_of"@[0] == 'm');
    assert("manner_of"@[1] == 'a');
    assert("manner_of"@[2] == 'n');
    assert("masculine"@[0] == 'm');
    assert("masculine"@[1] == 'a');
    assert("masculine"@[2] == 's');
    assert("mero_location"@[0] == 'm');
    assert("mero_member"@[0] == 'm');
    assert("mero_part"@[0] == 'm');
    assert("mero_part"@[1] == 'e');
    assert("mero_portion"@[0] == 'm');
    assert("mero_substance"@[0] == 'm');
    assert("meronym"@[0] == 'm');
    assert("other"@[0] == 'o');
    assert("participle"@[0] == 'p');
    assert("patient"@[0] == 'p');
    assert("pertainym"@[0] == 'p');
    assert("restricted_by"@[0] == 'r');
    assert("restricts"@[0] == 'r');
    assert("result"@[0] == 'r');
    assert("role"@[0] == 'r');
    assert("secondary_aspect_ip"@[0] == 's');
    assert("secondary_aspect_ip"@[17] == 'i');
    assert("secondary_aspect_pi"@[0] == 's');
    assert("secondary_aspect_pi"@[17] == 'p');
    assert("similar"@[0] == 's');
    assert("simple_aspect_ip"@[0] == 's');
    assert("simple_aspect_ip"@[1] == 'i');
    assert("simple_aspect_ip"@[14] == 'i');
    assert("simple_aspect_pi"@[0] == 's');
    assert("simple_aspect_pi"@[1] == 'i');
    assert("simple_aspect_pi"@[14] == 'p');
    assert("source_direction"@[0] == 's');
    assert("source_direction"@[1] == 'o');
    assert("state_of"@[0] == 's');
    assert("state_of"@[1] == 't');
    assert("subevent"@[0] == 's');
    assert("subevent"@[1] == 'u');
    assert("target_direction"@[0] == 't');
    assert("unknown"@[0] == 'u');
    assert("young"@[0] == 'y');
    match t {
        SynsetRelType::HasAugmentative => {
            assert(spec_decode_synset_rel_part1("has_augmentative"@) == None::<SynsetRelType>);
            assert(spec_decode_synset_rel_part2("has_augmentative"@) == None::<SynsetRelType>);
            assert(spec_decode_synset_rel_part3("has_augmentative"@) == None::<SynsetRelType>);
            assert(spec_decode_synset_rel_part4("has_augmentative"@) == Some(SynsetRelType::HasAugmentative));
        },
        SynsetRelType::HasDiminutive => {
            assert(spec_decode_synset_rel_part1("has_diminutive"@) == None::<SynsetRelType>);
            assert(spec_decode_synset_rel_part2("has_diminutive"@) == None::<SynsetRelType>);
            assert(spec_decode_synset_rel_part3("has_diminutive"@) == None::<SynsetRelType>);
            assert(spec_decode_synset_rel_part4("has_diminutive"@) == Some(SynsetRelType::HasDiminutive));
        },
        SynsetRelType::HasDomain => {
            assert(spec_decode_synset_rel_part1("has_domain"@) == None::<SynsetRelType>);
            assert(spec_decode_synset_rel_part2("has_domain"@) == None::<SynsetRelType>);
            assert(spec_decode_synset_rel_part3("has_domain"@) == None::<SynsetRelType>);
            assert(spec_decode_synset_rel_part4("has_domain"@) == Some(SynsetRelType::HasDomain));
        },
        SynsetRelType::HasFeminine => {
            assert(spec_decode_synset_rel_part1("has_feminine"@) == None::<SynsetRelType>);
            assert(spec_decode_synset_rel_part2("has_feminine"@) == None::<SynsetRelType>);
            assert(spec_decode_synset_rel_part3("has_feminine"@) == None::<SynsetRelType>);
            assert(spec_decode_synset_rel_part4("has_feminine"@) == Some(SynsetRelType::HasFeminine));
        },
        SynsetRelType::HasMasculine => {
            assert(spec_decode_synset_rel_part1("has_masculine"@) == None::<SynsetRelType>);
            assert(spec_decode_synset_rel_part2("has_masculine"@) == None::<SynsetRelType>);
            assert(spec_decode_synset_rel_part3("has_masculine"@) == None::<SynsetRelType>);
            assert(spec_decode_synset_rel_part4("has_masculine"@) == Some(SynsetRelType::HasMasculine));
        },
        SynsetRelType::HasYoung => {
            assert(spec_decode_synset_rel_part1("has_young"@) == None::<SynsetRelType>);
            assert(spec_decode_synset_rel_part2("has_young"@) == None::<SynsetRelType>);
            assert(spec_decode_synset_rel_part3("has_young"@) == None::<SynsetRelType>);
            assert(spec_decode_synset_rel_part4("has_young"@) == Some(SynsetRelType::HasYoung));
        },
        SynsetRelType::HoloLocation => {
            assert(spec_decode_synset_rel_part1("holo_location"@) == None::<SynsetRelType>);
            assert(spec_decode_synset_rel_part2("holo_location"@) == None::<SynsetRelType>);
            assert(spec_decode_synset_rel_part3("holo_location"@) == None::<SynsetRelType>);
            assert(spec_decode_synset_rel_part4("holo_location"@) == Some(SynsetRelType::HoloLocation));
        },
        SynsetRelType::HoloPortion => {
            assert(spec_decode_synset_rel_part1("holo_portion"@) == None::<SynsetRelType>);
            assert(spec_decode_synset_rel_part2("holo_portion"@) == None::<SynsetRelType>);
            assert(spec_decode_synset_rel_part3("holo_portion"@) == None::<SynsetRelType>);
            assert(spec_decode_synset_rel_part4("holo_portion"@) == Some(SynsetRelType::HoloPortion));
        },
        SynsetRelType::Holonym => {
            assert(spec_decode_synset_rel_part1("holonym"@) == None::<SynsetRelType>);
            assert(spec_decode_synset_rel_part2("holonym"@) == None::<SynsetRelType>);
            assert(spec_decode_synset_rel_part3("holonym"@) == None::<SynsetRelType>);
            assert(spec_decode_synset_rel_part4("holonym"@) == Some(SynsetRelType::Holonym));
        },
        SynsetRelType::InManner => {
            assert(spec_decode_synset_rel_part1("in_manner"@) == None::<SynsetRelType>);
            assert(spec_decode_synset_rel_part2("in_manner"@) == None::<SynsetRelType>);
            assert(spec_decode_synset_rel_part3("in_manner"@) == None::<SynsetRelType>);
            assert(spec_decode_synset_rel_part4("in_manner"@) == Some(SynsetRelType::InManner));
        },
        SynsetRelType::Instrument => {
            assert(spec_decode_synset_rel_part1("instrument"@) == None::<SynsetRelType>);
            assert(spec_decode_synset_rel_part2("instrument"@) == None::<SynsetRelType>);
            assert(spec_decode_synset_rel_part3("instrument"@) == None::<SynsetRelType>);
            assert(spec_decode_synset_rel_part4("instrument"@) == Some(SynsetRelType::Instrument));
        },
        SynsetRelType::Involved => {
            assert(spec_decode_synset_rel_part1("involved"@) == None::<SynsetRelType>);
            assert(spec_decode_synset_rel_part2("involved"@) == None::<SynsetRelType>);
            assert(spec_decode_synset_rel_part3("involved"@) == None::<SynsetRelType>);
            assert(spec_decode_synset_rel_part4("involved"@) == Some(SynsetRelType::Involved));
        },
        SynsetRelType::InvolvedAgent => {
            assert(spec_decode_synset_rel_part1("involved_agent"@) == None::<SynsetRelType>);
            assert(spec_decode_synset_rel_part2("involved_agent"@) == None::<SynsetRelType>);
            assert(spec_decode_synset_rel_part3("involved_agent"@) == None::<SynsetRelType>);
            assert(spec_decode_synset_rel_part4("involved_agent"@) == Some(SynsetRelType::InvolvedAgent));
        },
        SynsetRelType::InvolvedDirection => {
            assert(spec_decode_synset_rel_part1("involved_direction"@) == None::<SynsetRelType>);
            assert(spec_decode_synset_rel_part2("involved_direction"@) == None::<SynsetRelType>);
            assert(spec_decode_synset_rel_part3("involved_direction"@) == None::<SynsetRelType>);
            assert(spec_decode_synset_rel_part4("involved_direction"@) == Some(SynsetRelType::InvolvedDirection));
        },
        SynsetRelType::InvolvedInstrument => {
            assert(spec_decode_synset_rel_part1("involved_instrument"@) == None::<SynsetRelType>);
            assert(spec_decode_synset_rel_part2("involved_instrument"@) == None::<SynsetRelType>);
            assert(spec_decode_synset_rel_part3("involved_instrument"@) == None::<SynsetRelType>);
            assert(spec_decode_synset_rel_part4("involved_instrument"@) == Some(SynsetRelType::InvolvedInstrument));
        },
        SynsetRelType::InvolvedLocation => {
            assert(spec_decode_synset_rel_part1("involved_location"@) == None::<SynsetRelType>);
            assert(spec_decode_synset_rel_part2("involved_location"@) == None::<SynsetRelType>);
            assert(spec_decode_synset_rel_part3("involved_location"@) == None::<SynsetRelType>);
            assert(spec_decode_synset_rel_part4("involved_location"@) == Some(SynsetRelType::InvolvedLocation));
        },
        _ => {},
    }
}

#[verifier::rlimit(100)]
#[verifier::spinoff_prover]
proof fn lemma_synset_rel_round_trip_part5(t: SynsetRelType)
    requires
        t == SynsetRelType::InvolvedPatient || t == SynsetRelType::InvolvedResult || t == SynsetRelType::InvolvedSourceDirection || t == SynsetRelType::InvolvedTargetDirection || t == SynsetRelType::IrSynonym || t == SynsetRelType::IsCausedBy || t == SynsetRelType::IsEntailedBy || t == SynsetRelType::IsSubeventOf || t == SynsetRelType::Location || t == SynsetRelType::MannerOf || t == SynsetRelType::Masculine || t == SynsetRelType::MeroLocation || t == SynsetRelType::MeroPortion || t == SynsetRelType::Meronym || t == SynsetRelType::Other || t == SynsetRelType::Participle,
    ensures
        spec_decode_synset_rel(spec_synset_rel_string(t)) == t,
{
    reveal_strlit("hypernym");
    reveal_strlit("hyponym");
    reveal_strlit("instance_hypernym");
    reveal_strlit("instance_hyponym");
    reveal_strlit("mero_member");
    reveal_strlit("mero_part");
    reveal_strlit("mero_substance");
    reveal_strlit("holo_member");
    reveal_strlit("holo_part");
    reveal_strlit("holo_substance");
    reveal_strlit("entails");
    reveal_strlit("causes");
    reveal_strlit("similar");
    reveal_strlit("attribute");
    reveal_strlit("domain_region");
    reveal_strlit("domain_topic");
    reveal_strlit("has_domain_region");
    reveal_strlit("has_domain_topic");
    reveal_strlit("exemplifies");
    reveal_strlit("is_exemplified_by");
    reveal_strlit("agent");
    reveal_strlit("also");
    reveal_strlit("anto_converse");
    reveal_strlit("anto_gradable");
    reveal_strlit("anto_simple");
    reveal_strlit("antonym");
    reveal_strlit("augmentative");
    reveal_strlit("be_in_state");
    reveal_strlit("classified_by");
    reveal_strlit("classifies");
    reveal_strlit("co_agent_instrument");
    reveal_strlit("co_agent_patient");
    reveal_strlit("co_agent_result");
    reveal_strlit("co_instrument_agent");
    reveal_strlit("co_instrument_patient");
    reveal_strlit("co_instrument_result");
    reveal_strlit("co_patient_agent");
    reveal_strlit("co_patient_instrument");
    reveal_strlit("co_result_agent");
    reveal_strlit("co_result_instrument");
    reveal_strlit("co_role");
    reveal_strlit("constitutive");
    reveal_strlit("derivation");
    reveal_strlit("diminutive");
    reveal_strlit("direction");
    reveal_strlit("domain");
    reveal_strlit("eq_synonym");
    reveal_strlit("feminine");
    reveal_strlit("has_augmentative");
    reveal_strlit("has_diminutive");
    reveal_strlit("has_domain");
    reveal_strlit("has_feminine");
    reveal_strlit("has_masculine");
    reveal_strlit("has_young");
    reveal_strlit("holo_location");
    reveal_strlit("holo_portion");
    reveal_strlit("holonym");
    reveal_strlit("in_manner");
    reveal_strlit("instrument");
    reveal_strlit("involved");
    reveal_strlit("involved_agent");
    reveal_strlit("involved_direction");
    reveal_strlit("involved_instrument");
    reveal_strlit("involved_location");
    reveal_strlit("involved_patient");
    reveal_strlit("involved_result");
    reveal_strlit("involved_source_direction");
    reveal_strlit("involved_target_direction");
    reveal_strlit("ir_synonym");
    reveal_strlit("is_caused_by");
    reveal_strlit("is_entailed_by");
    reveal_strlit("is_subevent_of");
    reveal_strlit("location");
    reveal_strlit("manner_of");
    reveal_strlit("masculine");
    reveal_strlit("mero_location");
    reveal_strlit("mero_portion");
    reveal_strlit("meronym");
    reveal_strlit("other");
    reveal_strlit("participle");
    reveal_strlit("patient");
    reveal_strlit("pertainym");
    reveal_strlit("restricted_by");
    reveal_strlit("restricts");
    reveal_strlit("result");
    reveal_strlit("role");
    reveal_strlit("secondary_aspect_ip");
    reveal_strlit("secondary_aspect_pi");
    reveal_strlit("simple_aspect_ip");
    reveal_strlit("simple_aspect_pi");
    reveal_strlit("source_direction");
    reveal_strlit("state_of");
    reveal_strlit("subevent");
    reveal_strlit("target_direction");
    reveal_strlit("young");
    reveal_strlit("unknown");
    assert("hypernym"@.len() == 8);
    assert("hyponym"@.len() == 7);
    assert("instance_hypernym"@.len() == 17);
    assert("instance_hyponym"@.len() == 16);
    assert("mero_member"@.len() == 11);
    assert("mero_part"@.len() == 9);
    assert("mero_substance"@.len() == 14);
    assert("holo_member"@.len() == 11);
    assert("holo_part"@.len() == 9);
    assert("holo_substance"@.len() == 14);
    assert("entails"@.len() == 7);
    assert("causes"@.len() == 6);
    assert("similar"@.len() == 7);
    assert("attribute"@.len() == 9);
    assert("domain_region"@.len() == 13);
    assert("domain_topic"@.len() == 12);
    assert("has_domain_region"@.len() == 17);
    assert("has_domain_topic"@.len() == 16);
    assert("exemplifies"@.len() == 11);
    assert("is_exemplified_by"@.len() == 17);
    assert("agent"@.len() == 5);
    assert("also"@.len() == 4);
    assert("anto_converse"@.len() == 13);
    assert("anto_gradable"@.len() == 13);
    assert("anto_simple"@.len() == 11);
    assert("antonym"@.len() == 7);
    assert("augmentative"@.len() == 12);
    assert("be_in_state"@.len() == 11);
    assert("classified_by"@.len() == 13);
    assert("classifies"@.len() == 10);
    assert("co_agent_instrument"@.len() == 19);
    assert("co_agent_patient"@.len() == 16);
    assert("co_agent_result"@.len() == 15);
    assert("co_instrument_agent"@.len() == 19);
    assert("co_instrument_patient"@.len() == 21);
    assert("co_instrument_result"@.len() == 20);
    assert("co_patient_agent"@.len() == 16);
    assert("co_patient_instrument"@.len() == 21);
    assert("co_result_agent"@.len() == 15);
    assert("co_result_instrument"@.len() == 20);
    assert("co_role"@.len() == 7);
    assert("constitutive"@.len() == 12);
    assert("derivation"@.len() == 10);
    assert("diminutive"@.len() == 10);
    assert("direction"@.len() == 9);
    assert("domain"@.len() == 6);
    assert("eq_synonym"@.len() == 10);
    assert("feminine"@.len() == 8);
    assert("has_augmentative"@.len() == 16);
    assert("has_diminutive"@.len() == 14);
    assert("has_domain"@.len() == 10);
    assert("has_feminine"@.len() == 12);
    assert("has_masculine"@.len() == 13);
    assert("has_young"@.len() == 9);
    assert("holo_location"@.len() == 13);
    assert("holo_portion"@.len() == 12);
    assert("holonym"@.len() == 7);
    assert("in_manner"@.len() == 9);
    assert("instrument"@.len() == 10);
    assert("involved"@.len() == 8);
    assert("involved_agent"@.len() == 14);
    assert("involved_direction"@.len() == 18);
    assert("involved_instrument"@.len() == 19);
    assert("involved_location"@.len() == 17);
    assert("involved_patient"@.len() == 16);
    assert("involved_result"@.len() == 15);
    assert("involved_source_direction"@.len() == 25);
    assert("involved_target_direction"@.len() == 25);
    assert("ir_synonym"@.len() == 10);
    assert("is_caused_by"@.len() == 12);
    assert("is_entailed_by"@.len() == 14);
    assert("is_subevent_of"@.len() == 14);
    assert("location"@.len() == 8);
    assert("manner_of"@.len() == 9);
    assert("masculine"@.len() == 9);
    assert("mero_location"@.len() == 13);
    assert("mero_portion"@.len() == 12);
    assert("meronym"@.len() == 7);
    assert("other"@.len() == 5);
    assert("participle"@.len() == 10);
    assert("patient"@.len() == 7);
    assert("pertainym"@.len() == 9);
    assert("restricted_by"@.len() == 13);
    assert("restricts"@.len() == 9);
    assert("result"@.len() == 6);
    assert("role"@.len() == 4);
    assert("secondary_aspect_ip"@.len() == 19);
    assert("secondary_aspect_pi"@.len() == 19);
    assert("simple_aspect_ip"@.len() == 16);
    assert("simple_aspect_pi"@.len() == 16);
    assert("source_direction"@.len() == 16);
    assert("state_of"@.len() == 8);
    assert("subevent"@.len() == 8);
    assert("target_direction"@.len() == 16);
    assert("young"@.len() == 5);
    assert("unknown"@.len() == 7);
    assert("agent"@[0] == 'a');
    assert("also"@[0] == 'a');
    assert("anto_converse"@[0] == 'a');
    assert("anto_converse"@[5] == 'c');
    assert("anto_gradable"@[0] == 'a');
    assert("anto_gradable"@[5] == 'g');
    assert("anto_simple"@[0] == 'a');
    assert("antonym"@[0] == 'a');
    assert("attribute"@[0] == 'a');
    assert("augmentative"@[0] == 'a');
    assert("be_in_state"@[0] == 'b');
    assert("causes"@[0] == 'c');
    assert("classified_by"@[0] == 'c');
    assert("classifies"@[0] == 'c');
    assert("co_agent_instrument"@[0] == 'c');
    assert("co_agent_instrument"@[3] == 'a');
    assert("co_agent_patient"@[0] == 'c');
    assert("co_agent_patient"@[3] == 'a');
    assert("co_agent_result"@[0] == 'c');
    assert("co_agent_result"@[3] == 'a');
    assert("co_instrument_agent"@[0] == 'c');
    assert("co_instrument_agent"@[3] == 'i');
    assert("co_instrument_patient"@[3] == 'i');
    assert("co_instrument_result"@[3] == 'i');
    assert("co_patient_agent"@[0] == 'c');
    assert("co_patient_agent"@[3] == 'p');
    assert("co_patient_instrument"@[3] == 'p');
    assert("co_result_agent"@[0] == 'c');
    assert("co_result_agent"@[3] == 'r');
    assert("co_result_instrument"@[3] == 'r');
    assert("co_role"@[0] == 'c');
    assert("constitutive"@[0] == 'c');
    assert("derivation"@[0] == 'd');
    assert("derivation"@[1] == 'e');
    assert("diminutive"@[0] == 'd');
    assert("diminutive"@[1] == 'i');
    assert("direction"@[0] == 'd');
    assert("domain"@[0] == 'd');
    assert("domain_region"@[0] == 'd');
    assert("domain_topic"@[0] == 'd');
    assert("entails"@[0] == 'e');
    assert("eq_synonym"@[0] == 'e');
    assert("exemplifies"@[0] == 'e');
    assert("feminine"@[0] == 'f');
    assert("has_augmentative"@[0] == 'h');
    assert("has_augmentative"@[4] == 'a');
    assert("has_diminutive"@[0] == 'h');
    assert("has_diminutive"@[1] == 'a');
    assert("has_domain"@[0] == 'h');
    assert("has_domain_region"@[0] == 'h');
    assert("has_domain_topic"@[0] == 'h');
    assert("has_domain_topic"@[4] == 'd');
    assert("has_feminine"@[0] == 'h');
    assert("has_feminine"@[1] == 'a');
    assert("has_masculine"@[0] == 'h');
    assert("has_masculine"@[1] == 'a');
    assert("has_young"@[0] == 'h');
    assert("has_young"@[1] == 'a');
    assert("holo_location"@[0] == 'h');
    assert("holo_location"@[1] == 'o');
    assert("holo_member"@[0] == 'h');
    assert("holo_part"@[0] == 'h');
    assert("holo_part"@[1] == 'o');
    assert("holo_portion"@[0] == 'h');
    assert("holo_portion"@[1] == 'o');
    assert("holo_substance"@[0] == 'h');
    assert("holo_substance"@[1] == 'o');
    assert("holonym"@[0] == 'h');
    assert("holonym"@[1] == 'o');
    assert("hypernym"@[0] == 'h');
    assert("hyponym"@[0] == 'h');
    assert("hyponym"@[1] == 'y');
    assert("in_manner"@[0] == 'i');
    assert("instance_hypernym"@[0] == 'i');
    assert("instance_hypernym"@[1] == 'n');
    assert("instance_hypernym"@[2] == 's');
    assert("instance_hyponym"@[0] == 'i');
    assert("instance_hyponym"@[2] == 's');
    assert("instrument"@[0] == 'i');
    assert("instrument"@[1] == 'n');
    assert("involved"@[0] == 'i');
    assert("involved_agent"@[0] == 'i');
    assert("involved_agent"@[1] == 'n');
    assert("involved_instrument"@[0] == 'i');
    assert("involved_location"@[0] == 'i');
    assert("involved_location"@[1] == 'n');
    assert("involved_location"@[2] == 'v');
    assert("involved_patient"@[0] == 'i');
    assert("involved_patient"@[2] == 'v');
    assert("involved_result"@[0] == 'i');
    assert("involved_source_direction"@[9] == 's');
    assert("involved_target_direction"@[9] == 't');
    assert("ir_synonym"@[0] == 'i');
    assert("ir_synonym"@[1] == 'r');
    assert("is_caused_by"@[0] == 'i');
    assert("is_entailed_by"@[0] == 'i');
    assert("is_entailed_by"@[1] == 's');
    assert("is_entailed_by"@[3] == 'e');
    assert("is_exemplified_by"@[0] == 'i');
    assert("is_exemplified_by"@[1] == 's');
    assert("is_subevent_of"@[0] == 'i');
    assert("is_subevent_of"@[1] == 's');
    assert("is_subevent_of"@[3] == 's');
    assert("location"@[0] == 'l');
    assert("manner_of"@[0] == 'm');
    assert("manner_of"@[1] == 'a');
    assert("manner_of"@[2] == 'n');
    assert("masculine"@[0] == 'm');
    assert("masculine"@[1] == 'a');
    assert("masculine"@[2] == 's');
    assert("mero_location"@[0] == 'm');
    assert("mero_member"@[0] == 'm');
    assert("mero_part"@[0] == 'm');
    assert("mero_part"@[1] == 'e');
    assert("mero_portion"@[0] == 'm');
    assert("mero_substance"@[0] == 'm');
    assert("meronym"@[0] == 'm');
    assert("other"@[0] == 'o');
    assert("participle"@[0] == 'p');
    assert("patient"@[0] == 'p');
    assert("pertainym"@[0] == 'p');
    assert("restricted_by"@[0] == 'r');
    assert("restricts"@[0] == 'r');
    assert("result"@[0] == 'r');
    assert("role"@[0] == 'r');
    assert("secondary_aspect_ip"@[0] == 's');
    assert("secondary_aspect_ip"@[17] == 'i');
    assert("secondary_aspect_pi"@[0] == 's');
    assert("secondary_aspect_pi"@[17] == 'p');
    assert("similar"@[0] == 's');
    assert("simple_aspect_ip"@[0] == 's');
    assert("simple_aspect_ip"@[1] == 'i');
    assert("simple_aspect_ip"@[14] == 'i');
    assert("simple_aspect_pi"@[0] == 's');
    assert("simple_aspect_pi"@[1] == 'i');
    assert("simple_aspect_pi"@[14] == 'p');
    assert("source_direction"@[0] == 's');
    assert("source_direction"@[1] == 'o');
    assert("state_of"@[0] == 's');
    assert("state_of"@[1] == 't');
    assert("subevent"@[0] == 's');
    assert("subevent"@[1] == 'u');
    assert("target_direction"@[0] == 't');
    assert("unknown"@[0] == 'u');
    assert("young"@[0] == 'y');
    match t {
        SynsetRelType::InvolvedPatient => {
            assert(spec_decode_synset_rel_part1("involved_patient"@) == None::<SynsetRelType>);
            assert(spec_decode_synset_rel_part2("involved_patient"@) == None::<SynsetRelType>);
            assert(spec_decode_synset_rel_part3("involved_patient"@) == None::<SynsetRelType>);
            assert(spec_decode_synset_rel_part4("involved_patient"@) == None::<SynsetRelType>);
            assert(spec_decode_synset_rel_part5("involved_patient"@) == Some(SynsetRelType::InvolvedPatient));
        },
        SynsetRelType::InvolvedResult => {
            assert(spec_decode_synset_rel_part1("involved_result"@) == None::<SynsetRelType>);
            assert(spec_decode_synset_rel_part2("involved_result"@) == None::<SynsetRelType>);
            assert(spec_decode_synset_rel_part3("involved_result"@) == None::<SynsetRelType>);
            assert(spec_decode_synset_rel_part4("involved_result"@) == None::<SynsetRelType>);
            assert(spec_decode_synset_rel_part5("involved_result"@) == Some(SynsetRelType::InvolvedResult));
        },
        SynsetRelType::InvolvedSourceDirection => {
            assert(spec_decode_synset_rel_part1("involved_source_direction"@) == None::<SynsetRelType>);
            assert(spec_decode_synset_rel_part2("involved_source_direction"@) == None::<SynsetRelType>);
            assert(spec_decode_synset_rel_part3("involved_source_direction"@) == None::<SynsetRelType>);
            assert(spec_decode_synset_rel_part4("involved_source_direction"@) == None::<SynsetRelType>);
            assert(spec_decode_synset_rel_part5("involved_source_direction"@) == Some(SynsetRelType::InvolvedSourceDirection));
        },
        SynsetRelType::InvolvedTargetDirection => {
            assert(spec_decode_synset_rel_part1("involved_target_direction"@) == None::<SynsetRelType>);
            assert(spec_decode_synset_rel_part2("involved_target_direction"@) == None::<SynsetRelType>);
            assert(spec_decode_synset_rel_part3("involved_target_direction"@) == None::<SynsetRelType>);
            assert(spec_decode_synset_rel_part4("involved_target_direction"@) == None::<SynsetRelType>);
            assert(spec_decode_synset_rel_part5("involved_target_direction"@) == Some(SynsetRelType::InvolvedTargetDirection));
        },
        SynsetRelType::IrSynonym => {
            assert(spec_decode_synset_rel_part1("ir_synonym"@) == None::<SynsetRelType>);
            assert(spec_decode_synset_rel_part2("ir_synonym"@) == None::<SynsetRelType>);
            assert(spec_decode_synset_rel_part3("ir_synonym"@) == None::<SynsetRelType>);
            assert(spec_decode_synset_rel_part4("ir_synonym"@) == None::<SynsetRelType>);
            assert(spec_decode_synset_rel_part5("ir_synonym"@) == Some(SynsetRelType::IrSynonym));
        },
        SynsetRelType::IsCausedBy => {
            assert(spec_decode_synset_rel_part1("is_caused_by"@) == None::<SynsetRelType>);
            assert(spec_decode_synset_rel_part2("is_caused_by"@) == None::<SynsetRelType>);
            assert(spec_decode_synset_rel_part3("is_caused_by"@) == None::<SynsetRelType>);
            assert(spec_decode_synset_rel_part4("is_caused_by"@) == None::<SynsetRelType>);
            assert(spec_decode_synset_rel_part5("is_caused_by"@) == Some(SynsetRelType::IsCausedBy));
        },
        SynsetRelType::IsEntailedBy => {
            assert(spec_decode_synset_rel_part1("is_entailed_by"@) == None::<SynsetRelType>);
            assert(spec_decode_synset_rel_part2("is_entailed_by"@) == None::<SynsetRelType>);
            assert(spec_decode_synset_rel_part3("is_entailed_by"@) == None::<SynsetRelType>);
            assert(spec_decode_synset_rel_part4("is_entailed_by"@) == None::<SynsetRelType>);
            assert(spec_decode_synset_rel_part5("is_entailed_by"@) == Some(SynsetRelType::IsEntailedBy));
        },
        SynsetRelType::IsSubeventOf => {
            assert(spec_decode_synset_rel_part1("is_subevent_of"@) == None::<SynsetRelType>);
            assert(spec_decode_synset_rel_part2("is_subevent_of"@) == None::<SynsetRelType>);
            assert(spec_decode_synset_rel_part3("is_subevent_of"@) == None::<SynsetRelType>);
            assert(spec_decode_synset_rel_part4("is_subevent_of"@) == None::<SynsetRelType>);
            assert(spec_decode_synset_rel_part5("is_subevent_of"@) == Some(SynsetRelType::IsSubeventOf));
        },
        SynsetRelType::Location => {
            assert(spec_decode_synset_rel_part1("location"@) == None::<SynsetRelType>);
            assert(spec_decode_synset_rel_part2("location"@) == None::<SynsetRelType>);
            assert(spec_decode_synset_rel_part3("location"@) == None::<SynsetRelType>);
            assert(spec_decode_synset_rel_part4("location"@) == None::<SynsetRelType>);
            assert(spec_decode_synset_rel_part5("location"@) == Some(SynsetRelType::Location));
        },
        SynsetRelType::MannerOf => {
            assert(spec_decode_synset_rel_part1("manner_of"@) == None::<SynsetRelType>);
            assert(spec_decode_synset_rel_part2("manner_of"@) == None::<SynsetRelType>);
            assert(spec_decode_synset_rel_part3("manner_of"@) == None::<SynsetRelType>);
            assert(spec_decode_synset_rel_part4("manner_of"@) == None::<SynsetRelType>);
            assert(spec_decode_synset_rel_part5("manner_of"@) == Some(SynsetRelType::MannerOf));
        },
        SynsetRelType::Masculine => {
            assert(spec_decode_synset_rel_part1("masculine"@) == None::<SynsetRelType>);
            assert(spec_decode_synset_rel_part2("masculine"@) == None::<SynsetRelType>);
            assert(spec_decode_synset_rel_part3("masculine"@) == None::<SynsetRelType>);
            assert(spec_decode_synset_rel_part4("masculine"@) == None::<SynsetRelType>);
            assert(spec_decode_synset_rel_part5("masculine"@) == Some(SynsetRelType::Masculine));
        },
        SynsetRelType::MeroLocation => {
            assert(spec_decode_synset_rel_part1("mero_location"@) == None::<SynsetRelType>);
            assert(spec_decode_synset_rel_part2("mero_location"@) == None::<SynsetRelType>);
            assert(spec_decode_synset_rel_part3("mero_location"@) == None::<SynsetRelType>);
            assert(spec_decode_synset_rel_part4("mero_location"@) == None::<SynsetRelType>);
            assert(spec_decode_synset_rel_part5("mero_location"@) == Some(SynsetRelType::MeroLocation));
        },
        SynsetRelType::MeroPortion => {
            assert(spec_decode_synset_rel_part1("mero_portion"@) == None::<SynsetRelType>);
            assert(spec_decode_synset_rel_part2("mero_portion"@) == None::<SynsetRelType>);
            assert(spec_decode_synset_rel_part3("mero_portion"@) == None::<SynsetRelType>);
            assert(spec_decode_synset_rel_part4("mero_portion"@) == None::<SynsetRelType>);
            assert(spec_decode_synset_rel_part5("mero_portion"@) == Some(SynsetRelType::MeroPortion));
        },
        SynsetRelType::Meronym => {
            assert(spec_decode_synset_rel_part1("meronym"@) == None::<SynsetRelType>);
            assert(spec_decode_synset_rel_part2("meronym"@) == None::<SynsetRelType>);
            assert(spec_decode_synset_rel_part3("meronym"@) == None::<SynsetRelType>);
            assert(spec_decode_synset_rel_part4("meronym"@) == None::<SynsetRelType>);
            assert(spec_decode_synset_rel_part5("meronym"@) == Some(SynsetRelType::Meronym));
        },
        SynsetRelType::Other => {
            assert(spec_decode_synset_rel_part1("other"@) == None::<SynsetRelType>);
            assert(spec_decode_synset_rel_part2("other"@) == None::<SynsetRelType>);
            assert(spec_decode_synset_rel_part3("other"@) == None::<SynsetRelType>);
            assert(spec_decode_synset_rel_part4("other"@) == None::<SynsetRelType>);
            assert(spec_decode_synset_rel_part5("other"@) == Some(SynsetRelType::Other));
        },
        SynsetRelType::Participle => {
            assert(spec_decode_synset_rel_part1("participle"@) == None::<SynsetRelType>);
            assert(spec_decode_synset_rel_part2("participle"@) == None::<SynsetRelType>);
            assert(spec_decode_synset_rel_part3("participle"@) == None::<SynsetRelType>);
            assert(spec_decode_synset_rel_part4("participle"@) == None::<SynsetRelType>);
            assert(spec_decode_synset_rel_part5("participle"@) == Some(SynsetRelType::Participle));
        },
        _ => {},
    }
}

#[verifier::rlimit(100)]
#[verifier::spinoff_prover]
proof fn lemma_synset_rel_round_trip_part6(t: SynsetRelType)
    requires
        t == SynsetRelType::Patient || t == SynsetRelType::Pertainym || t == SynsetRelType::RestrictedBy || t == SynsetRelType::Restricts || t == SynsetRelType::Result || t == SynsetRelType::Role || t == SynsetRelType::SecondaryAspectIp || t == SynsetRelType::SecondaryAspectPi || t == SynsetRelType::SimpleAspectIp || t == SynsetRelType::SimpleAspectPi || t == SynsetRelType::SourceDirection || t == SynsetRelType::StateOf || t == SynsetRelType::Subevent || t == SynsetRelType::TargetDirection || t == SynsetRelType::Young || t == SynsetRelType::Unknown,
    ensures
        spec_decode_synset_rel(spec_synset_rel_string(t)) == t,
{
    reveal_strlit("hypernym");
    reveal_strlit("hyponym");
    reveal_strlit("instance_hypernym");
    reveal_strlit("instance_hyponym");
    reveal_strlit("mero_member");
    reveal_strlit("mero_part");
    reveal_strlit("mero_substance");
    reveal_strlit("holo_member");
    reveal_strlit("holo_part");
    reveal_strlit("holo_substance");
    reveal_strlit("entails");
    reveal_strlit("causes");
    reveal_strlit("similar");
    reveal_strlit("attribute");
    reveal_strlit("domain_region");
    reveal_strlit("domain_topic");
    reveal_strlit("has_domain_region");
    reveal_strlit("has_domain_topic");
    reveal_strlit("exemplifies");
    reveal_strlit("is_exemplified_by");
    reveal_strlit("agent");
    reveal_strlit("also");
    reveal_strlit("anto_converse");
    reveal_strlit("anto_gradable");
    reveal_strlit("anto_simple");
    reveal_strlit("antonym");
    reveal_strlit("augmentative");
    reveal_strlit("be_in_state");
    reveal_strlit("classified_by");
    reveal_strlit("classifies");
    reveal_strlit("co_agent_instrument");
    reveal_strlit("co_agent_patient");
    reveal_strlit("co_agent_result");
    reveal_strlit("co_instrument_agent");
    reveal_strlit("co_instrument_patient");
    reveal_strlit("co_instrument_result");
    reveal_strlit("co_patient_agent");
    reveal_strlit("co_patient_instrument");
    reveal_strlit("co_result_agent");
    reveal_strlit("co_result_instrument");
    reveal_strlit("co_role");
    reveal_strlit("constitutive");
    reveal_strlit("derivation");
    reveal_strlit("diminutive");
    reveal_strlit("direction");
    reveal_strlit("domain");
    reveal_strlit("eq_synonym");
    reveal_strlit("feminine");
    reveal_strlit("has_augmentative");
    reveal_strlit("has_diminutive");
    reveal_strlit("has_domain");
    reveal_strlit("has_feminine");
    reveal_strlit("has_masculine");
    reveal_strlit("has_young");
    reveal_strlit("holo_location");
    reveal_strlit("holo_portion");
    reveal_strlit("holonym");
    reveal_strlit("in_manner");
    reveal_strlit("instrument");
    reveal_strlit("involved");
    reveal_strlit("involved_agent");
    reveal_strlit("involved_direction");
    reveal_strlit("involved_instrument");
    reveal_strlit("involved_location");
    reveal_strlit("involved_patient");
    reveal_strlit("involved_result");
    reveal_strlit("involved_source_direction");
    reveal_strlit("involved_target_direction");
    reveal_strlit("ir_synonym");
    reveal_strlit("is_caused_by");
    reveal_strlit("is_entailed_by");
    reveal_strlit("is_subevent_of");
    reveal_strlit("location");
    reveal_strlit("manner_of");
    reveal_strlit("masculine");
    reveal_strlit("mero_location");
    reveal_strlit("mero_portion");
    reveal_strlit("meronym");
    reveal_strlit("other");
    reveal_strlit("participle");
    reveal_strlit("patient");
    reveal_strlit("pertainym");
    reveal_strlit("restricted_by");
    reveal_strlit("restricts");
    reveal_strlit("result");
    reveal_strlit("role");
    reveal_strlit("secondary_aspect_ip");
    reveal_strlit("secondary_aspect_pi");
    reveal_strlit("simple_aspect_ip");
    reveal_strlit("simple_aspect_pi");
    reveal_strlit("source_direction");
    reveal_strlit("state_of");
    reveal_strlit("subevent");
    reveal_strlit("target_direction");
    reveal_strlit("young");
    reveal_strlit("unknown");
    assert("hypernym"@.len() == 8);
    assert("hyponym"@.len() == 7);
    assert("instance_hypernym"@.len() == 17);
    assert("instance_hyponym"@.len() == 16);
    assert("mero_member"@.len() == 11);
    assert("mero_part"@.len() == 9);
    assert("mero_substance"@.len() == 14);
    assert("holo_member"@.len() == 11);
    assert("holo_part"@.len() == 9);
    assert("holo_substance"@.len() == 14);
    assert("entails"@.len() == 7);
    assert("causes"@.len() == 6);
    assert("similar"@.len() == 7);
    assert("attribute"@.len() == 9);
    assert("domain_region"@.len() == 13);
    assert("domain_topic"@.len() == 12);
    assert("has_domain_region"@.len() == 17);
    assert("has_domain_topic"@.len() == 16);
    assert("exemplifies"@.len() == 11);
    assert("is_exemplified_by"@.len() == 17);
    assert("agent"@.len() == 5);
    assert("also"@.len() == 4);
    assert("anto_converse"@.len() == 13);
    assert("anto_gradable"@.len() == 13);
    assert("anto_simple"@.len() == 11);
    assert("antonym"@.len() == 7);
    assert("augmentative"@.len() == 12);
    assert("be_in_state"@.len() == 11);
    assert("classified_by"@.len() == 13);
    assert("classifies"@.len() == 10);
    assert("co_agent_instrument"@.len() == 19);
    assert("co_agent_patient"@.len() == 16);
    assert("co_agent_result"@.len() == 15);
    assert("co_instrument_agent"@.len() == 19);
    assert("co_instrument_patient"@.len() == 21);
    assert("co_instrument_result"@.len() == 20);
    assert("co_patient_agent"@.len() == 16);
    assert("co_patient_instrument"@.len() == 21);
    assert("co_result_agent"@.len() == 15);
    assert("co_result_instrument"@.len() == 20);
    assert("co_role"@.len() == 7);
    assert("constitutive"@.len() == 12);
    assert("derivation"@.len() == 10);
    assert("diminutive"@.len() == 10);
    assert("direction"@.len() == 9);
    assert("domain"@.len() == 6);
    assert("eq_synonym"@.len() == 10);
    assert("feminine"@.len() == 8);
    assert("has_augmentative"@.len() == 16);
    assert("has_diminutive"@.len() == 14);
    assert("has_domain"@.len() == 10);
    assert("has_feminine"@.len() == 12);
    assert("has_masculine"@.len() == 13);
    assert("has_young"@.len() == 9);
    assert("holo_location"@.len() == 13);
    assert("holo_portion"@.len() == 12);
    assert("holonym"@.len() == 7);
    assert("in_manner"@.len() == 9);
    assert("instrument"@.len() == 10);
    assert("involved"@.len() == 8);
    assert("involved_agent"@.len() == 14);
    assert("involved_direction"@.len() == 18);
    assert("involved_instrument"@.len() == 19);
    assert("involved_location"@.len() == 17);
    assert("involved_patient"@.len() == 16);
    assert("involved_result"@.len() == 15);
    assert("involved_source_direction"@.len() == 25);
    assert("involved_target_direction"@.len() == 25);
    assert("ir_synonym"@.len() == 10);
    assert("is_caused_by"@.len() == 12);
    assert("is_entailed_by"@.len() == 14);
    assert("is_subevent_of"@.len() == 14);
    assert("location"@.len() == 8);
    assert("manner_of"@.len() == 9);
    assert("masculine"@.len() == 9);
    assert("mero_location"@.len() == 13);
    assert("mero_portion"@.len() == 12);
    assert("meronym"@.len() == 7);
    assert("other"@.len() == 5);
    assert("participle"@.len() == 10);
    assert("patient"@.len() == 7);
    assert("pertainym"@.len() == 9);
    assert("restricted_by"@.len() == 13);
    assert("restricts"@.len() == 9);
    assert("result"@.len() == 6);
    assert("role"@.len() == 4);
    assert("secondary_aspect_ip"@.len() == 19);
    assert("secondary_aspect_pi"@.len() == 19);
    assert("simple_aspect_ip"@.len() == 16);
    assert("simple_aspect_pi"@.len() == 16);
    assert("source_direction"@.len() == 16);
    assert("state_of"@.len() == 8);
    assert("subevent"@.len() == 8);
    assert("target_direction"@.len() == 16);
    assert("young"@.len() == 5);
    assert("unknown"@.len() == 7);
    assert("agent"@[0] == 'a');
    assert("also"@[0] == 'a');
    assert("anto_converse"@[0] == 'a');
    assert("anto_converse"@[5] == 'c');
    assert("anto_gradable"@[0] == 'a');
    assert("anto_gradable"@[5] == 'g');
    assert("anto_simple"@[0] == 'a');
    assert("antonym"@[0] == 'a');
    assert("attribute"@[0] == 'a');
    assert("augmentative"@[0] == 'a');
    assert("be_in_state"@[0] == 'b');
    assert("causes"@[0] == 'c');
    assert("classified_by"@[0] == 'c');
    assert("classifies"@[0] == 'c');
    assert("co_agent_instrument"@[0] == 'c');
    assert("co_agent_instrument"@[3] == 'a');
    assert("co_agent_patient"@[0] == 'c');
    assert("co_agent_patient"@[3] == 'a');
    assert("co_agent_result"@[0] == 'c');
    assert("co_agent_result"@[3] == 'a');
    assert("co_instrument_agent"@[0] == 'c');
    assert("co_instrument_agent"@[3] == 'i');
    assert("co_instrument_patient"@[3] == 'i');
    assert("co_instrument_result"@[3] == 'i');
    assert("co_patient_agent"@[0] == 'c');
    assert("co_patient_agent"@[3] == 'p');
    assert("co_patient_instrument"@[3] == 'p');
    assert("co_result_agent"@[0] == 'c');
    assert("co_result_agent"@[3] == 'r');
    assert("co_result_instrument"@[3] == 'r');
    assert("co_role"@[0] == 'c');
    assert("constitutive"@[0] == 'c');
    assert("derivation"@[0] == 'd');
    assert("derivation"@[1] == 'e');
    assert("diminutive"@[0] == 'd');
    assert("diminutive"@[1] == 'i');
    assert("direction"@[0] == 'd');
    assert("domain"@[0] == 'd');
    assert("domain_region"@[0] == 'd');
    assert("domain_topic"@[0] == 'd');
    assert("entails"@[0] == 'e');
    assert("eq_synonym"@[0] == 'e');
    assert("exemplifies"@[0] == 'e');
    assert("feminine"@[0] == 'f');
    assert("has_augmentative"@[0] == 'h');
    assert("has_augmentative"@[4] == 'a');
    assert("has_diminutive"@[0] == 'h');
    assert("has_diminutive"@[1] == 'a');
    assert("has_domain"@[0] == 'h');
    assert("has_domain_region"@[0] == 'h');
    assert("has_domain_topic"@[0] == 'h');
    assert("has_domain_topic"@[4] == 'd');
    assert("has_feminine"@[0] == 'h');
    assert("has_feminine"@[1] == 'a');
    assert("has_masculine"@[0] == 'h');
    assert("has_masculine"@[1] == 'a');
    assert("has_young"@[0] == 'h');
    assert("has_young"@[1] == 'a');
    assert("holo_location"@[0] == 'h');
    assert("holo_location"@[1] == 'o');
    assert("holo_member"@[0] == 'h');
    assert("holo_part"@[0] == 'h');
    assert("holo_part"@[1] == 'o');
    assert("holo_portion"@[0] == 'h');
    assert("holo_portion"@[1] == 'o');
    assert("holo_substance"@[0] == 'h');
    assert("holo_substance"@[1] == 'o');
    assert("holonym"@[0] == 'h');
    assert("holonym"@[1] == 'o');
    assert("hypernym"@[0] == 'h');
    assert("hyponym"@[0] == 'h');
    assert("hyponym"@[1] == 'y');
    assert("in_manner"@[0] == 'i');
    assert("instance_hypernym"@[0] == 'i');
    assert("instance_hypernym"@[1] == 'n');
    assert("instance_hypernym"@[2] == 's');
    assert("instance_hyponym"@[0] == 'i');
    assert("instance_hyponym"@[2] == 's');
    assert("instrument"@[0] == 'i');
    assert("instrument"@[1] == 'n');
    assert("involved"@[0] == 'i');
    assert("involved_agent"@[0] == 'i');
    assert("involved_agent"@[1] == 'n');
    assert("involved_instrument"@[0] == 'i');
    assert("involved_location"@[0] == 'i');
    assert("involved_location"@[1] == 'n');
    assert("involved_location"@[2] == 'v');
    assert("involved_patient"@[0] == 'i');
    assert("involved_patient"@[2] == 'v');
    assert("involved_result"@[0] == 'i');
    assert("involved_source_direction"@[9] == 's');
    assert("involved_target_direction"@[9] == 't');
    assert("ir_synonym"@[0] == 'i');
    assert("ir_synonym"@[1] == 'r');
    assert("is_caused_by"@[0] == 'i');
    assert("is_entailed_by"@[0] == 'i');
    assert("is_entailed_by"@[1] == 's');
    assert("is_entailed_by"@[3] == 'e');
    assert("is_exemplified_by"@[0] == 'i');
    assert("is_exemplified_by"@[1] == 's');
    assert("is_subevent_of"@[0] == 'i');
    assert("is_subevent_of"@[1] == 's');
    assert("is_subevent_of"@[3] == 's');
    assert("location"@[0] == 'l');
    assert("manner_of"@[0] == 'm');
    assert("manner_of"@[1] == 'a');
    assert("manner_of"@[2] == 'n');
    assert("masculine"@[0] == 'm');
    assert("masculine"@[1] == 'a');
    assert("masculine"@[2] == 's');
    assert("mero_location"@[0] == 'm');
    assert("mero_member"@[0] == 'm');
    assert("mero_part"@[0] == 'm');
    assert("mero_part"@[1] == 'e');
    assert("mero_portion"@[0] == 'm');
    assert("mero_substance"@[0] == 'm');
    assert("meronym"@[0] == 'm');
    assert("other"@[0] == 'o');
    assert("participle"@[0] == 'p');
    assert("patient"@[0] == 'p');
    assert("pertainym"@[0] == 'p');
    assert("restricted_by"@[0] == 'r');
    assert("restricts"@[0] == 'r');
    assert("result"@[0] == 'r');
    assert("role"@[0] == 'r');
    assert("secondary_aspect_ip"@[0] == 's');
    assert("secondary_aspect_ip"@[17] == 'i');
    assert("secondary_aspect_pi"@[0] == 's');
    assert("secondary_aspect_pi"@[17] == 'p');
    assert("similar"@[0] == 's');
    assert("simple_aspect_ip"@[0] == 's');
    assert("simple_aspect_ip"@[1] == 'i');
    assert("simple_aspect_ip"@[14] == 'i');
    assert("simple_aspect_pi"@[0] == 's');
    assert("simple_aspect_pi"@[1] == 'i');
    assert("simple_aspect_pi"@[14] == 'p');
    assert("source_direction"@[0] == 's');
    assert("source_direction"@[1] == 'o');
    assert("state_of"@[0] == 's');
    assert("state_of"@[1] == 't');
    assert("subevent"@[0] == 's');
    assert("subevent"@[1] == 'u');
    assert("target_direction"@[0] == 't');
    assert("unknown"@[0] == 'u');
    assert("young"@[0] == 'y');
    match t {
        SynsetRelType::Patient => {
            assert(spec_decode_synset_rel_part1("patient"@) == None::<SynsetRelType>);
            assert(spec_decode_synset_rel_part2("patient"@) == None::<SynsetRelType>);
            assert(spec_decode_synset_rel_part3("patient"@) == None::<SynsetRelType>);
            assert(spec_decode_synset_rel_part4("patient"@) == None::<SynsetRelType>);
            assert(spec_decode_synset_rel_part5("patient"@) == None::<SynsetRelType>);
            assert(spec_decode_synset_rel_part6("patient"@) == Some(SynsetRelType::Patient));
        },
        SynsetRelType::Pertainym => {
            assert(spec_decode_synset_rel_part1("pertainym"@) == None::<SynsetRelType>);
            assert(spec_decode_synset_rel_part2("pertainym"@) == None::<SynsetRelType>);
            assert(spec_decode_synset_rel_part3("pertainym"@) == None::<SynsetRelType>);
            assert(spec_decode_synset_rel_part4("pertainym"@) == None::<SynsetRelType>);
            assert(spec_decode_synset_rel_part5("pertainym"@) == None::<SynsetRelType>);
            assert(spec_decode_synset_rel_part6("pertainym"@) == Some(SynsetRelType::Pertainym));
        },
        SynsetRelType::RestrictedBy => {
            assert(spec_decode_synset_rel_part1("restricted_by"@) == None::<SynsetRelType>);
            assert(spec_decode_synset_rel_part2("restricted_by"@) == None::<SynsetRelType>);
            assert(spec_decode_synset_rel_part3("restricted_by"@) == None::<SynsetRelType>);
            assert(spec_decode_synset_rel_part4("restricted_by"@) == None::<SynsetRelType>);
            assert(spec_decode_synset_rel_part5("restricted_by"@) == None::<SynsetRelType>);
            assert(spec_decode_synset_rel_part6("restricted_by"@) == Some(SynsetRelType::RestrictedBy));
        },
        SynsetRelType::Restricts => {
            assert(spec_decode_synset_rel_part1("restricts"@) == None::<SynsetRelType>);
            assert(spec_decode_synset_rel_part2("restricts"@) == None::<SynsetRelType>);
            assert(spec_decode_synset_rel_part3("restricts"@) == None::<SynsetRelType>);
            assert(spec_decode_synset_rel_part4("restricts"@) == None::<SynsetRelType>);
            assert(spec_decode_synset_rel_part5("restricts"@) == None::<SynsetRelType>);
            assert(spec_decode_synset_rel_part6("restricts"@) == Some(SynsetRelType::Restricts));
        },
        SynsetRelType::Result => {
            assert(spec_decode_synset_rel_part1("result"@) == None::<SynsetRelType>);
            assert(spec_decode_synset_rel_part2("result"@) == None::<SynsetRelType>);
            assert(spec_decode_synset_rel_part3("result"@) == None::<SynsetRelType>);
            assert(spec_decode_synset_rel_part4("result"@) == None::<SynsetRelType>);
            assert(spec_decode_synset_rel_part5("result"@) == None::<SynsetRelType>);
            assert(spec_decode_synset_rel_part6("result"@) == Some(SynsetRelType::Result));
        },
        SynsetRelType::Role => {
            assert(spec_decode_synset_rel_part1("role"@) == None::<SynsetRelType>);
            assert(spec_decode_synset_rel_part2("role"@) == None::<SynsetRelType>);
            assert(spec_decode_synset_rel_part3("role"@) == None::<SynsetRelType>);
            assert(spec_decode_synset_rel_part4("role"@) == None::<SynsetRelType>);
            assert(spec_decode_synset_rel_part5("role"@) == None::<SynsetRelType>);
            assert(spec_decode_synset_rel_part6("role"@) == Some(SynsetRelType::Role));
        },
        SynsetRelType::SecondaryAspectIp => {
            assert(spec_decode_synset_rel_part1("secondary_aspect_ip"@) == None::<SynsetRelType>);
            assert(spec_decode_synset_rel_part2("secondary_aspect_ip"@) == None::<SynsetRelType>);
            assert(spec_decode_synset_rel_part3("secondary_aspect_ip"@) == None::<SynsetRelType>);
            assert(spec_decode_synset_rel_part4("secondary_aspect_ip"@) == None::<SynsetRelType>);
            assert(spec_decode_synset_rel_part5("secondary_aspect_ip"@) == None::<SynsetRelType>);
            assert(spec_decode_synset_rel_part6("secondary_aspect_ip"@) == Some(SynsetRelType::SecondaryAspectIp));
        },
        SynsetRelType::SecondaryAspectPi => {
            assert(spec_decode_synset_rel_part1("secondary_aspect_pi"@) == None::<SynsetRelType>);
            assert(spec_decode_synset_rel_part2("secondary_aspect_pi"@) == None::<SynsetRelType>);
            assert(spec_decode_synset_rel_part3("secondary_aspect_pi"@) == None::<SynsetRelType>);
            assert(spec_decode_synset_rel_part4("secondary_aspect_pi"@) == None::<SynsetRelType>);
            assert(spec_decode_synset_rel_part5("secondary_aspect_pi"@) == None::<SynsetRelType>);
            assert(spec_decode_synset_rel_part6("secondary_aspect_pi"@) == Some(SynsetRelType::SecondaryAspectPi));
        },
        SynsetRelType::SimpleAspectIp => {
            assert(spec_decode_synset_rel_part1("simple_aspect_ip"@) == None::<SynsetRelType>);
            assert(spec_decode_synset_rel_part2("simple_aspect_ip"@) == None::<SynsetRelType>);
            assert(spec_decode_synset_rel_part3("simple_aspect_ip"@) == None::<SynsetRelType>);
            assert(spec_decode_synset_rel_part4("simple_aspect_ip"@) == None::<SynsetRelType>);
            assert(spec_decode_synset_rel_part5("simple_aspect_ip"@) == None::<SynsetRelType>);
            assert(spec_decode_synset_rel_part6("simple_aspect_ip"@) == Some(SynsetRelType::SimpleAspectIp));
        },
        SynsetRelType::SimpleAspectPi => {
            assert(spec_decode_synset_rel_part1("simple_aspect_pi"@) == None::<SynsetRelType>);
            assert(spec_decode_synset_rel_part2("simple_aspect_pi"@) == None::<SynsetRelType>);
            assert(spec_decode_synset_rel_part3("simple_aspect_pi"@) == None::<SynsetRelType>);
            assert(spec_decode_synset_rel_part4("simple_aspect_pi"@) == None::<SynsetRelType>);
            assert(spec_decode_synset_rel_part5("simple_aspect_pi"@) == None::<SynsetRelType>);
            assert(spec_decode_synset_rel_part6("simple_aspect_pi"@) == Some(SynsetRelType::SimpleAspectPi));
        },
        SynsetRelType::SourceDirection => {
            assert(spec_decode_synset_rel_part1("source_direction"@) == None::<SynsetRelType>);
            assert(spec_decode_synset_rel_part2("source_direction"@) == None::<SynsetRelType>);
            assert(spec_decode_synset_rel_part3("source_direction"@) == None::<SynsetRelType>);
            assert(spec_decode_synset_rel_part4("source_direction"@) == None::<SynsetRelType>);
            assert(spec_decode_synset_rel_part5("source_direction"@) == None::<SynsetRelType>);
            assert(spec_decode_synset_rel_part6("source_direction"@) == Some(SynsetRelType::SourceDirection));
        },
        SynsetRelType::StateOf => {
            assert(spec_decode_synset_rel_part1("state_of"@) == None::<SynsetRelType>);
            assert(spec_decode_synset_rel_part2("state_of"@) == None::<SynsetRelType>);
            assert(spec_decode_synset_rel_part3("state_of"@) == None::<SynsetRelType>);
            assert(spec_decode_synset_rel_part4("state_of"@) == None::<SynsetRelType>);
            assert(spec_decode_synset_rel_part5("state_of"@) == None::<SynsetRelType>);
            assert(spec_decode_synset_rel_part6("state_of"@) == Some(SynsetRelType::StateOf));
        },
        SynsetRelType::Subevent => {
            assert(spec_decode_synset_rel_part1("subevent"@) == None::<SynsetRelType>);
            assert(spec_decode_synset_rel_part2("subevent"@) == None::<SynsetRelType>);
            assert(spec_decode_synset_rel_part3("subevent"@) == None::<SynsetRelType>);
            assert(spec_decode_synset_rel_part4("subevent"@) == None::<SynsetRelType>);
            assert(spec_decode_synset_rel_part5("subevent"@) == None::<SynsetRelType>);
            assert(spec_decode_synset_rel_part6("subevent"@) == Some(SynsetRelType::Subevent));
        },
        SynsetRelType::TargetDirection => {
            assert(spec_decode_synset_rel_part1("target_direction"@) == None::<SynsetRelType>);
            assert(spec_decode_synset_rel_part2("target_direction"@) == None::<SynsetRelType>);
            assert(spec_decode_synset_rel_part3("target_direction"@) == None::<SynsetRelType>);
            assert(spec_decode_synset_rel_part4("target_direction"@) == None::<SynsetRelType>);
            assert(spec_decode_synset_rel_part5("target_direction"@) == None::<SynsetRelType>);
            assert(spec_decode_synset_rel_part6("target_direction"@) == Some(SynsetRelType::TargetDirection));
        },
        SynsetRelType::Young => {
            assert(spec_decode_synset_rel_part1("young"@) == None::<SynsetRelType>);
            assert(spec_decode_synset_rel_part2("young"@) == None::<SynsetRelType>);
            assert(spec_decode_synset_rel_part3("young"@) == None::<SynsetRelType>);
            assert(spec_decode_synset_rel_part4("young"@) == None::<SynsetRelType>);
            assert(spec_decode_synset_rel_part5("young"@) == None::<SynsetRelType>);
            assert(spec_decode_synset_rel_part6("young"@) == Some(SynsetRelType::Young));
        },
        SynsetRelType::Unknown => {
            assert(spec_decode_synset_rel_part1("unknown"@) == None::<SynsetRelType>);
            assert(spec_decode_synset_rel_part2("unknown"@) == None::<SynsetRelType>);
            assert(spec_decode_synset_rel_part3("unknown"@) == None::<SynsetRelType>);
            assert(spec_decode_synset_rel_part4("unknown"@) == None::<SynsetRelType>);
            assert(spec_decode_synset_rel_part5("unknown"@) == None::<SynsetRelType>);
            assert(spec_decode_synset_rel_part6("unknown"@) == Some(SynsetRelType::Unknown));
        },
        _ => {},
    }
}

/// Encoding a synset-relation kind and decoding the tag gives the kind back:
/// the storage tags are lossless.
pub proof fn lemma_synset_rel_round_trip(t: SynsetRelType)
    ensures
        spec_decode_synset_rel(spec_synset_rel_string(t)) == t,
{
    match t {
        SynsetRelType::Hypernym => lemma_synset_rel_round_trip_part1(t),
        SynsetRelType::Hyponym => lemma_synset_rel_round_trip_part1(t),
        SynsetRelType::InstanceHypernym => lemma_synset_rel_round_trip_part1(t),
        SynsetRelType::InstanceHyponym => lemma_synset_rel_round_trip_part1(t),
        SynsetRelType::MeroMember => lemma_synset_rel_round_trip_part1(t),
        SynsetRelType::MeroPart => lemma_synset_rel_round_trip_part1(t),
        SynsetRelType::MeroSubstance => lemma_synset_rel_round_trip_part1(t),
        SynsetRelType::HoloMember => lemma_synset_rel_round_trip_part1(t),
        SynsetRelType::HoloPart => lemma_synset_rel_round_trip_part1(t),
        SynsetRelType::HoloSubstance => lemma_synset_rel_round_trip_part1(t),
        SynsetRelType::Entails => lemma_synset_rel_round_trip_part1(t),
        SynsetRelType::Causes => lemma_synset_rel_round_trip_part1(t),
        SynsetRelType::Similar => lemma_synset_rel_round_trip_part1(t),
        SynsetRelType::Attribute => lemma_synset_rel_round_trip_part1(t),
        SynsetRelType::DomainRegion => lemma_synset_rel_round_trip_part1(t),
        SynsetRelType::DomainTopic => lemma_synset_rel_round_trip_part1(t),
        SynsetRelType::HasDomainRegion => lemma_synset_rel_round_trip_part2(t),
        SynsetRelType::HasDomainTopic => lemma_synset_rel_round_trip_part2(t),
        SynsetRelType::Exemplifies => lemma_synset_rel_round_trip_part2(t),
        SynsetRelType::IsExemplifiedBy => lemma_synset_rel_round_trip_part2(t),
        SynsetRelType::Agent => lemma_synset_rel_round_trip_part2(t),
        SynsetRelType::Also => lemma_synset_rel_round_trip_part2(t),
        SynsetRelType::AntoConverse => lemma_synset_rel_round_trip_part2(t),
        SynsetRelType::AntoGradable => lemma_synset_rel_round_trip_part2(t),
        SynsetRelType::AntoSimple => lemma_synset_rel_round_trip_part2(t),
        SynsetRelType::Antonym => lemma_synset_rel_round_trip_part2(t),
        SynsetRelType::Augmentative => lemma_synset_rel_round_trip_part2(t),
        SynsetRelType::BeInState => lemma_synset_rel_round_trip_part2(t),
        SynsetRelType::ClassifiedBy => lemma_synset_rel_round_trip_part2(t),
        SynsetRelType::Classifies => lemma_synset_rel_round_trip_part2(t),
        SynsetRelType::CoAgentInstrument => lemma_synset_rel_round_trip_part2(t),
        SynsetRelType::CoAgentPatient => lemma_synset_rel_round_trip_part2(t),
        SynsetRelType::CoAgentResult => lemma_synset_rel_round_trip_part3(t),
        SynsetRelType::CoInstrumentAgent => lemma_synset_rel_round_trip_part3(t),
        SynsetRelType::CoInstrumentPatient => lemma_synset_rel_round_trip_part3(t),
        SynsetRelType::CoInstrumentResult => lemma_synset_rel_round_trip_part3(t),
        SynsetRelType::CoPatientAgent => lemma_synset_rel_round_trip_part3(t),
        SynsetRelType::CoPatientInstrument => lemma_synset_rel_round_trip_part3(t),
        SynsetRelType::CoResultAgent => lemma_synset_rel_round_trip_part3(t),
        SynsetRelType::CoResultInstrument => lemma_synset_rel_round_trip_part3(t),
        SynsetRelType::CoRole => lemma_synset_rel_round_trip_part3(t),
        SynsetRelType::Constitutive => lemma_synset_rel_round_trip_part3(t),
        SynsetRelType::Derivation => lemma_synset_rel_round_trip_part3(t),
        SynsetRelType::Diminutive => lemma_synset_rel_round_trip_part3(t),
        SynsetRelType::Direction => lemma_synset_rel_round_trip_part3(t),
        SynsetRelType::Domain => lemma_synset_rel_round_trip_part3(t),
        SynsetRelType::EqSynonym => lemma_synset_rel_round_trip_part3(t),
        SynsetRelType::Feminine => lemma_synset_rel_round_trip_part3(t),
        SynsetRelType::HasAugmentative => lemma_synset_rel_round_trip_part4(t),
        SynsetRelType::HasDiminutive => lemma_synset_rel_round_trip_part4(t),
        SynsetRelType::HasDomain => lemma_synset_rel_round_trip_part4(t),
        SynsetRelType::HasFeminine => lemma_synset_rel_round_trip_part4(t),
        SynsetRelType::HasMasculine => lemma_synset_rel_round_trip_part4(t),
        SynsetRelType::HasYoung => lemma_synset_rel_round_trip_part4(t),
        SynsetRelType::HoloLocation => lemma_synset_rel_round_trip_part4(t),
        SynsetRelType::HoloPortion => lemma_synset_rel_round_trip_part4(t),
        SynsetRelType::Holonym => lemma_synset_rel_round_trip_part4(t),
        SynsetRelType::InManner => lemma_synset_rel_round_trip_part4(t),
        SynsetRelType::Instrument => lemma_synset_rel_round_trip_part4(t),
        SynsetRelType::Involved => lemma_synset_rel_round_trip_part4(t),
        SynsetRelType::InvolvedAgent => lemma_synset_rel_round_trip_part4(t),
        SynsetRelType::InvolvedDirection => lemma_synset_rel_round_trip_part4(t),
        SynsetRelType::InvolvedInstrument => lemma_synset_rel_round_trip_part4(t),
        SynsetRelType::InvolvedLocation => lemma_synset_rel_round_trip_part4(t),
        SynsetRelType::InvolvedPatient => lemma_synset_rel_round_trip_part5(t),
        SynsetRelType::InvolvedResult => lemma_synset_rel_round_trip_part5(t),
        SynsetRelType::InvolvedSourceDirection => lemma_synset_rel_round_trip_part5(t),
        SynsetRelType::InvolvedTargetDirection => lemma_synset_rel_round_trip_part5(t),
        SynsetRelType::IrSynonym => lemma_synset_rel_round_trip_part5(t),
        SynsetRelType::IsCausedBy => lemma_synset_rel_round_trip_part5(t),
        SynsetRelType::IsEntailedBy => lemma_synset_rel_round_trip_part5(t),
        SynsetRelType::IsSubeventOf => lemma_synset_rel_round_trip_part5(t),
        SynsetRelType::Location => lemma_synset_rel_round_trip_part5(t),
        SynsetRelType::MannerOf => lemma_synset_rel_round_trip_part5(t),
        SynsetRelType::Masculine => lemma_synset_rel_round_trip_part5(t),
        SynsetRelType::MeroLocation => lemma_synset_rel_round_trip_part5(t),
        SynsetRelType::MeroPortion => lemma_synset_rel_round_trip_part5(t),
        SynsetRelType::Meronym => lemma_synset_rel_round_trip_part5(t),
        SynsetRelType::Other => lemma_synset_rel_round_trip_part5(t),
        SynsetRelType::Participle => lemma_synset_rel_round_trip_part5(t),
        SynsetRelType::Patient => lemma_synset_rel_round_trip_part6(t),
        SynsetRelType::Pertainym => lemma_synset_rel_round_trip_part6(t),
        SynsetRelType::RestrictedBy => lemma_synset_rel_round_trip_part6(t),
        SynsetRelType::Restricts => lemma_synset_rel_round_trip_part6(t),
        SynsetRelType::Result => lemma_synset_rel_round_trip_part6(t),
        SynsetRelType::Role => lemma_synset_rel_round_trip_part6(t),
        SynsetRelType::SecondaryAspectIp => lemma_synset_rel_round_trip_part6(t),
        SynsetRelType::SecondaryAspectPi => lemma_synset_rel_round_trip_part6(t),
        SynsetRelType::SimpleAspectIp => lemma_synset_rel_round_trip_part6(t),
        SynsetRelType::SimpleAspectPi => lemma_synset_rel_round_trip_part6(t),
        SynsetRelType::SourceDirection => lemma_synset_rel_round_trip_part6(t),
        SynsetRelType::StateOf => lemma_synset_rel_round_trip_part6(t),
        SynsetRelType::Subevent => lemma_synset_rel_round_trip_part6(t),
        SynsetRelType::TargetDirection => lemma_synset_rel_round_trip_part6(t),
        SynsetRelType::Young => lemma_synset_rel_round_trip_part6(t),
        SynsetRelType::Unknown => lemma_synset_rel_round_trip_part6(t),
    }
}

// --- Record types ---

/// Pronunciation information for a lexical entry.
#[derive(Debug, Clone)]
pub struct Pronunciation {
    /// Language or dialect variety, such as an IPA locale tag.
    pub variety: String,
    /// Notation system or dialect information.
    pub notation: Option<String>,
    /// Whether this is a phonemic transcription.
    pub phonemic: bool,
    /// Audio file URL.
    pub audio: Option<String>,
    /// The transcription text.
    pub text: String,
}

/// The view of a pronunciation.
pub ghost struct PronunciationV {
    pub variety: Seq<char>,
    pub notation: Option<Seq<char>>,
    pub phonemic: bool,
    pub audio: Option<Seq<char>>,
    pub text: Seq<char>,
}

impl View for Pronunciation {
    type V = PronunciationV;

    open spec fn view(&self) -> PronunciationV {
        PronunciationV {
            variety: self.variety@,
            notation: opt_str_view(self.notation),
            phonemic: self.phonemic,
            audio: opt_str_view(self.audio),
            text: self.text@,
        }
    }
}

impl Dup for Pronunciation {
    fn duplicate(&self) -> (r: Self) {
        Pronunciation {
            variety: self.variety.clone(),
            notation: dup_opt_string(&self.notation),
            phonemic: self.phonemic,
            audio: dup_opt_string(&self.audio),
            text: self.text.clone(),
        }
    }
}

/// The canonical written form of a lexical entry, with its part of speech.
#[derive(Debug, Clone)]
pub struct Lemma {
    pub written_form: String,
    pub part_of_speech: PartOfSpeech,
}

/// The view of a lemma.
pub ghost struct LemmaV {
    pub written_form: Seq<char>,
    pub part_of_speech: PartOfSpeech,
}

impl View for Lemma {
    type V = LemmaV;

    open spec fn view(&self) -> LemmaV {
        LemmaV { written_form: self.written_form@, part_of_speech: self.part_of_speech }
    }
}

impl Dup for Lemma {
    fn duplicate(&self) -> (r: Self) {
        Lemma { written_form: self.written_form.clone(), part_of_speech: self.part_of_speech }
    }
}

/// A typed, directed edge from one sense to another.
#[derive(Debug, Clone)]
pub struct SenseRelation {
    pub rel_type: SenseRelType,
    /// The id of the target sense.
    pub target: String,
}

/// The view of a sense relation.
pub ghost struct SenseRelationV {
    pub rel_type: SenseRelType,
    pub target: Seq<char>,
}

impl View for SenseRelation {
    type V = SenseRelationV;

    open spec fn view(&self) -> SenseRelationV {
        SenseRelationV { rel_type: self.rel_type, target: self.target@ }
    }
}

impl Dup for SenseRelation {
    fn duplicate(&self) -> (r: Self) {
        SenseRelation { rel_type: self.rel_type, target: self.target.clone() }
    }
}

/// A sense connecting a lexical entry to the one synset it targets.
#[derive(Debug, Clone)]
pub struct Sense {
    pub id: String,
    /// The id of the synset this sense targets.
    pub synset: String,
    /// Outgoing relations to other senses.
    pub sense_relations: Vec<SenseRelation>,
}

/// The view of a sense.
pub ghost struct SenseV {
    pub id: Seq<char>,
    pub synset: Seq<char>,
    pub sense_relations: Seq<SenseRelationV>,
}

impl View for Sense {
    type V = SenseV;

    open spec fn view(&self) -> SenseV {
        SenseV {
            id: self.id@,
            synset: self.synset@,
            sense_relations: views_of(self.sense_relations@),
        }
    }
}

impl Dup for Sense {
    fn duplicate(&self) -> (r: Self) {
        Sense {
            id: self.id.clone(),
            synset: self.synset.clone(),
            sense_relations: dup_vec(&self.sense_relations),
        }
    }
}

/// A lexical entry: one word form with its senses.
#[derive(Debug, Clone)]
pub struct LexicalEntry {
    pub id: String,
    pub lemma: Lemma,
    /// Pronunciation variants for this entry.
    pub pronunciations: Vec<Pronunciation>,
    /// The senses this entry owns.
    pub senses: Vec<Sense>,
}

/// The view of a lexical entry.
pub ghost struct LexicalEntryV {
    pub id: Seq<char>,
    pub lemma: LemmaV,
    pub pronunciations: Seq<PronunciationV>,
    pub senses: Seq<SenseV>,
}

impl View for LexicalEntry {
    type V = LexicalEntryV;

    open spec fn view(&self) -> LexicalEntryV {
        LexicalEntryV {
            id: self.id@,
            lemma: self.lemma@,
            pronunciations: views_of(self.pronunciations@),
            senses: views_of(self.senses@),
        }
    }
}

impl Dup for LexicalEntry {
    fn duplicate(&self) -> (r: Self) {
        LexicalEntry {
            id: self.id.clone(),
            lemma: self.lemma.duplicate(),
            pronunciations: dup_vec(&self.pronunciations),
            senses: dup_vec(&self.senses),
        }
    }
}

/// A textual definition of a synset.
#[derive(Debug, Clone)]
pub struct Definition {
    /// Dublin Core source attribution.
    pub dc_source: Option<String>,
    pub text: String,
}

/// The view of a definition.
pub ghost struct DefinitionV {
    pub dc_source: Option<Seq<char>>,
    pub text: Seq<char>,
}

impl View for Definition {
    type V = DefinitionV;

    open spec fn view(&self) -> DefinitionV {
        DefinitionV { dc_source: opt_str_view(self.dc_source), text: self.text@ }
    }
}

impl Dup for Definition {
    fn duplicate(&self) -> (r: Self) {
        Definition { dc_source: dup_opt_string(&self.dc_source), text: self.text.clone() }
    }
}

/// An inter-lingual-index definition of a synset.
#[derive(Debug, Clone)]
pub struct ILIDefinition {
    /// Dublin Core source attribution.
    pub dc_source: Option<String>,
    pub text: String,
}

/// The view of an ILI definition.
pub ghost struct ILIDefinitionV {
    pub dc_source: Option<Seq<char>>,
    pub text: Seq<char>,
}

impl View for ILIDefinition {
    type V = ILIDefinitionV;

    open spec fn view(&self) -> ILIDefinitionV {
        ILIDefinitionV { dc_source: opt_str_view(self.dc_source), text: self.text@ }
    }
}

impl Dup for ILIDefinition {
    fn duplicate(&self) -> (r: Self) {
        ILIDefinition { dc_source: dup_opt_string(&self.dc_source), text: self.text.clone() }
    }
}

/// A usage example attached to a synset.
#[derive(Debug, Clone)]
pub struct Example {
    /// Dublin Core source attribution.
    pub dc_source: Option<String>,
    pub text: String,
}

/// The view of an example.
pub ghost struct ExampleV {
    pub dc_source: Option<Seq<char>>,
    pub text: Seq<char>,
}

impl View for Example {
    type V = ExampleV;

    open spec fn view(&self) -> ExampleV {
        ExampleV { dc_source: opt_str_view(self.dc_source), text: self.text@ }
    }
}

impl Dup for Example {
    fn duplicate(&self) -> (r: Self) {
        Example { dc_source: dup_opt_string(&self.dc_source), text: self.text.clone() }
    }
}

/// A typed, directed edge from one synset to another.
#[derive(Debug, Clone)]
pub struct SynsetRelation {
    pub rel_type: SynsetRelType,
    /// The id of the target synset.
    pub target: String,
}

/// The view of a synset relation.
pub ghost struct SynsetRelationV {
    pub rel_type: SynsetRelType,
    pub target: Seq<char>,
}

impl View for SynsetRelation {
    type V = SynsetRelationV;

    open spec fn view(&self) -> SynsetRelationV {
        SynsetRelationV { rel_type: self.rel_type, target: self.target@ }
    }
}

impl Dup for SynsetRelation {
    fn duplicate(&self) -> (r: Self) {
        SynsetRelation { rel_type: self.rel_type, target: self.target.clone() }
    }
}

/// A synset: one concept shared by a set of senses.
///
/// The `members` attribute is the raw whitespace-separated list of entry ids
/// the source document declares; the senses that actually belong to the
/// synset are derived from it by the index builder.
#[derive(Debug, Clone)]
pub struct Synset {
    pub id: String,
    /// Optional inter-lingual-index identifier.
    pub ili: Option<String>,
    pub part_of_speech: PartOfSpeech,
    /// Raw whitespace-separated list of entry ids.
    pub members: String,
    pub definitions: Vec<Definition>,
    pub ili_definition: Option<ILIDefinition>,
    /// Outgoing relations to other synsets.
    pub synset_relations: Vec<SynsetRelation>,
    pub examples: Vec<Example>,
}

/// The view of a synset.
pub ghost struct SynsetV {
    pub id: Seq<char>,
    pub ili: Option<Seq<char>>,
    pub part_of_speech: PartOfSpeech,
    pub members: Seq<char>,
    pub definitions: Seq<DefinitionV>,
    pub ili_definition: Option<ILIDefinitionV>,
    pub synset_relations: Seq<SynsetRelationV>,
    pub examples: Seq<ExampleV>,
}

/// The view of an optional ILI definition.
pub open spec fn opt_ili_view(o: Option<ILIDefinition>) -> Option<ILIDefinitionV> {
    match o {
        Some(d) => Some(d@),
        None => None,
    }
}

impl View for Synset {
    type V = SynsetV;

    open spec fn view(&self) -> SynsetV {
        SynsetV {
            id: self.id@,
            ili: opt_str_view(self.ili),
            part_of_speech: self.part_of_speech,
            members: self.members@,
            definitions: views_of(self.definitions@),
            ili_definition: opt_ili_view(self.ili_definition),
            synset_relations: views_of(self.synset_relations@),
            examples: views_of(self.examples@),
        }
    }
}

impl Dup for Synset {
    fn duplicate(&self) -> (r: Self) {
        let ili_definition = match &self.ili_definition {
            Some(d) => Some(d.duplicate()),
            None => None,
        };
        Synset {
            id: self.id.clone(),
            ili: dup_opt_string(&self.ili),
            part_of_speech: self.part_of_speech,
            members: self.members.clone(),
            definitions: dup_vec(&self.definitions),
            ili_definition,
            synset_relations: dup_vec(&self.synset_relations),
            examples: dup_vec(&self.examples),
        }
    }
}

/// A dependency requirement declared by a lexicon.
#[derive(Debug, Clone)]
pub struct Requires {
    pub id: String,
    pub version: String,
}

/// The view of a dependency requirement.
pub ghost struct RequiresV {
    pub id: Seq<char>,
    pub version: Seq<char>,
}

impl View for Requires {
    type V = RequiresV;

    open spec fn view(&self) -> RequiresV {
        RequiresV { id: self.id@, version: self.version@ }
    }
}

impl Dup for Requires {
    fn duplicate(&self) -> (r: Self) {
        Requires { id: self.id.clone(), version: self.version.clone() }
    }
}

/// A lexicon: metadata plus the lexical entries and synsets it owns, for one
/// language.
#[derive(Debug, Clone)]
pub struct Lexicon {
    pub id: String,
    pub label: String,
    pub language: String,
    pub email: String,
    pub license: String,
    pub version: String,
    pub url: Option<String>,
    pub citation: Option<String>,
    pub logo: Option<String>,
    pub status: Option<String>,
    /// Dublin Core publisher information.
    pub dc_publisher: Option<String>,
    /// Dublin Core contributor information.
    pub dc_contributor: Option<String>,
    /// Dependencies required by this lexicon.
    pub requires: Vec<Requires>,
    /// Lexical entries contained in this lexicon.
    pub lexical_entries: Vec<LexicalEntry>,
    /// Synsets contained in this lexicon.
    pub synsets: Vec<Synset>,
}

/// The view of a lexicon.
pub ghost struct LexiconV {
    pub id: Seq<char>,
    pub label: Seq<char>,
    pub language: Seq<char>,
    pub email: Seq<char>,
    pub license: Seq<char>,
    pub version: Seq<char>,
    pub url: Option<Seq<char>>,
    pub citation: Option<Seq<char>>,
    pub logo: Option<Seq<char>>,
    pub status: Option<Seq<char>>,
    pub dc_publisher: Option<Seq<char>>,
    pub dc_contributor: Option<Seq<char>>,
    pub requires: Seq<RequiresV>,
    pub lexical_entries: Seq<LexicalEntryV>,
    pub synsets: Seq<SynsetV>,
}

impl View for Lexicon {
    type V = LexiconV;

    open spec fn view(&self) -> LexiconV {
        LexiconV {
            id: self.id@,
            label: self.label@,
            language: self.language@,
            email: self.email@,
            license: self.license@,
            version: self.version@,
            url: opt_str_view(self.url),
            citation: opt_str_view(self.citation),
            logo: opt_str_view(self.logo),
            status: opt_str_view(self.status),
            dc_publisher: opt_str_view(self.dc_publisher),
            dc_contributor: opt_str_view(self.dc_contributor),
            requires: views_of(self.requires@),
            lexical_entries: views_of(self.lexical_entries@),
            synsets: views_of(self.synsets@),
        }
    }
}

impl Dup for Lexicon {
    fn duplicate(&self) -> (r: Self) {
        Lexicon {
            id: self.id.clone(),
            label: self.label.clone(),
            language: self.language.clone(),
            email: self.email.clone(),
            license: self.license.clone(),
            version: self.version.clone(),
            url: dup_opt_string(&self.url),
            citation: dup_opt_string(&self.citation),
            logo: dup_opt_string(&self.logo),
            status: dup_opt_string(&self.status),
            dc_publisher: dup_opt_string(&self.dc_publisher),
            dc_contributor: dup_opt_string(&self.dc_contributor),
            requires: dup_vec(&self.requires),
            lexical_entries: dup_vec(&self.lexical_entries),
            synsets: dup_vec(&self.synsets),
        }
    }
}

/// Root structure of a parsed WordNet-LMF document.
#[derive(Debug, Clone)]
pub struct LexicalResource {
    pub lexicons: Vec<Lexicon>,
}

/// The view of a lexical resource.
pub ghost struct LexicalResourceV {
    pub lexicons: Seq<LexiconV>,
}

impl View for LexicalResource {
    type V = LexicalResourceV;

    open spec fn view(&self) -> LexicalResourceV {
        LexicalResourceV { lexicons: views_of(self.lexicons@) }
    }
}

impl Dup for LexicalResource {
    fn duplicate(&self) -> (r: Self) {
        LexicalResource { lexicons: dup_vec(&self.lexicons) }
    }
}

// --- Whitespace splitting for synset member lists ---

/// Whether a character separates tokens in a member list: the Unicode
/// white-space characters, the same set `str::split_whitespace` splits on.
pub open spec fn spec_is_space(c: char) -> bool {
    let u = c as u32;
    ||| u == 0x20
    ||| (0x09 <= u && u <= 0x0D)
    ||| u == 0x85
    ||| u == 0xA0
    ||| u == 0x1680
    ||| (0x2000 <= u && u <= 0x200A)
    ||| u == 0x2028
    ||| u == 0x2029
    ||| u == 0x202F
    ||| u == 0x205F
    ||| u == 0x3000
}

/// The executable white-space test, equal to [`spec_is_space`].
pub fn is_space_char(c: char) -> (r: bool)
    ensures
        r == spec_is_space(c),
{
    let u = c as u32;
    u == 0x20 || (0x09 <= u && u <= 0x0D) || u == 0x85 || u == 0xA0 || u == 0x1680 || (0x2000 <= u
        && u <= 0x200A) || u == 0x2028 || u == 0x2029 || u == 0x202F || u == 0x205F || u == 0x3000
}

/// Splitting from position `i`, with `cur` the token accumulated so far and
/// `acc` the tokens already produced.
pub open spec fn spec_split_from(
    s: Seq<char>,
    i: int,
    cur: Seq<char>,
    acc: Seq<Seq<char>>,
) -> Seq<Seq<char>>
    decreases s.len() - i,
{
    if i < 0 || i >= s.len() {
        if cur.len() > 0 {
            acc.push(cur)
        } else {
            acc
        }
    } else if spec_is_space(s[i]) {
        if cur.len() > 0 {
            spec_split_from(s, i + 1, Seq::empty(), acc.push(cur))
        } else {
            spec_split_from(s, i + 1, cur, acc)
        }
    } else {
        spec_split_from(s, i + 1, cur.push(s[i]), acc)
    }
}

/// The whitespace-separated tokens of a string, in order.
pub open spec fn spec_split_ws(s: Seq<char>) -> Seq<Seq<char>> {
    spec_split_from(s, 0, Seq::empty(), Seq::empty())
}

/// Splits a whitespace-separated member list into its tokens.
pub fn parse_members(members_str: &str) -> (r: Vec<String>)
    ensures
        strs_view(r@) == spec_split_ws(members_str@),
{
    let ghost s = members_str@;
    let n = members_str.unicode_len();
    let mut acc: Vec<String> = Vec::new();
    let mut i: usize = 0;
    // Start index of the token currently being scanned, if any.
    let mut start: Option<usize> = None;
    proof {
        assert(strs_view(acc@) =~= Seq::<Seq<char>>::empty());
    }
    while i < n
        invariant
            n == s.len(),
            members_str@ == s,
            i <= n,
            match start {
                Some(st) => {
                    &&& st < i <= n
                    &&& spec_split_ws(s) == spec_split_from(
                        s,
                        i as int,
                        s.subrange(st as int, i as int),
                        strs_view(acc@),
                    )
                    &&& forall|k: int| st <= k < i ==> !spec_is_space(s[k])
                },
                None => spec_split_ws(s) == spec_split_from(
                    s,
                    i as int,
                    Seq::empty(),
                    strs_view(acc@),
                ),
            },
        decreases n - i,
    {
        let c = members_str.get_char(i);
        if is_space_char(c) {
            if let Some(st) = start {
                let token = members_str.substring_char(st, i).to_owned();
                proof {
                    assert(strs_view(acc@.push(token)) =~= strs_view(acc@).push(
                        s.subrange(st as int, i as int),
                    ));
                }
                acc.push(token);
                start = None;
            }
        } else {
            if start.is_none() {
                start = Some(i);
            }
            proof {
                let st = start.unwrap();
                assert(s.subrange(i as int, i as int) =~= Seq::<char>::empty());
                assert(s.subrange(st as int, i as int).push(s[i as int]) =~= s.subrange(
                    st as int,
                    (i + 1) as int,
                ));
                assert(!spec_is_space(s[i as int]));
            }
        }
        i = i + 1;
    }
    if let Some(st) = start {
        let token = members_str.substring_char(st, n).to_owned();
        proof {
            assert(s.subrange(st as int, n as int).len() > 0);
            assert(strs_view(acc@.push(token)) =~= strs_view(acc@).push(
                s.subrange(st as int, n as int),
            ));
        }
        acc.push(token);
    }
    proof {
        assert(strs_view(acc@) == spec_split_ws(s));
    }
    acc
}

} // verus!
