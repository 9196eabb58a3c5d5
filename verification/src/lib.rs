//! Open English WordNet lexical data, indexed and queryable.
//!
//! The crate ingests a parsed WordNet-LMF lexical resource and exposes it as a
//! queryable, graph-shaped dataset: look a word up to find its senses, follow
//! a sense to its synset, enumerate synonyms, and traverse typed semantic
//! relations.

use vstd::prelude::*;

pub mod alist;
pub mod error;
pub mod index;
pub mod laws;
pub mod models;
pub mod progress;
pub mod query;
pub mod snapshot;
pub mod store;
pub mod synonyms;
pub mod wordnet;

pub use error::OewnError;
pub use models::Definition;
pub use models::Example;
pub use models::ILIDefinition;
pub use models::Lemma;
pub use models::LexicalEntry;
pub use models::LexicalResource;
pub use models::Lexicon;
pub use models::PartOfSpeech;
pub use models::Pronunciation;
pub use models::Requires;
pub use models::Sense;
pub use models::SenseRelType;
pub use models::SenseRelation;
pub use models::Synset;
pub use models::SynsetRelType;
pub use models::SynsetRelation;
pub use store::WordNetDb;
pub use wordnet::LoadOptions;
pub use wordnet::WordNet;

