//! Inflection of Latin nouns, adjectives and verbs for botanical names.
//!
//! A [`Latin`] value owns three dictionaries of fully inflected words. A word
//! that a dictionary does not hold is inflected by matching its ending
//! against a fixed, ordered list of declension patterns.

pub mod categories;
pub mod endings;
pub mod guess;
pub mod laws;
pub mod lexicon;
pub mod patterns;
pub mod records;
pub mod text;

pub use categories::{Case, Gender, Mood, Number, Person, Tense, UnknownCode, Voice};
pub use endings::CaseEndings;
pub use lexicon::{
    Adjective, AdjectiveMap, ComplexNoun, Latin, NotImplemented, Noun, NounMap, Verb, VerbMap,
};
pub use records::{AdjectiveRecord, Entry, NounRecord, VerbRecord};
