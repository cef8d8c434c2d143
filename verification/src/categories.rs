//! The grammatical categories by which a word form is selected.

use vstd::prelude::*;

use crate::text::same_text;

verus! {

/// Grammatical gender: a noun has one, an adjective takes that of its noun.
#[derive(Clone, Copy, Debug, PartialEq, Eq, Structural)]
pub enum Gender {
    Masculine,
    Feminine,
    Neuter,
}

/// The role that a word form expresses.
#[derive(Clone, Copy, Debug, PartialEq, Eq, Structural)]
pub enum Case {
    Nom,
    Gen,
    Dat,
    Acc,
    Abl,
    Loc,
    Voc,
}

#[derive(Clone, Copy, Debug, PartialEq, Eq, Structural)]
pub enum Number {
    Singular,
    Plural,
}

#[derive(Clone, Copy, Debug, PartialEq, Eq, Structural)]
pub enum Person {
    First,
    Second,
    Third,
}

#[derive(Clone, Copy, Debug, PartialEq, Eq, Structural)]
pub enum Mood {
    Indicative,
    Subjunctive,
    Imperative,
    Infinitive,
    Participle,
    VerbalNoun,
}

#[derive(Clone, Copy, Debug, PartialEq, Eq, Structural)]
pub enum Voice {
    Active,
    Passive,
}

#[derive(Clone, Copy, Debug, PartialEq, Eq, Structural)]
pub enum Tense {
    Present,
    Imperfect,
    Future,
    Perfect,
    Pluperfect,
    FuturePerfect,
}

/// A code in a dictionary record that stands for no value of its column.
#[derive(Clone, Copy, Debug, PartialEq, Eq, Structural)]
pub enum UnknownCode {
    Gender,
    Pluralia,
}

impl UnknownCode {
    pub fn message(&self) -> (r: &'static str)
        ensures
            r == match *self {
                UnknownCode::Gender => "unknown gender",
                UnknownCode::Pluralia => "unknown pluralia",
            },
    {
        match self {
            UnknownCode::Gender => "unknown gender",
            UnknownCode::Pluralia => "unknown pluralia",
        }
    }
}

impl Default for Gender {
    fn default() -> (r: Gender)
        ensures
            r == Gender::Masculine,
    {
        Gender::Masculine
    }
}

/// The gender that a dictionary code stands for: `m`, `f` or `n`.
pub open spec fn gender_of_code(code: Seq<char>) -> Option<Gender> {
    if code == "m"@ {
        Some(Gender::Masculine)
    } else if code == "f"@ {
        Some(Gender::Feminine)
    } else if code == "n"@ {
        Some(Gender::Neuter)
    } else {
        None
    }
}

/// The truth value that a dictionary code stands for: `tr` or `fa`.
pub open spec fn pluralia_of_code(code: Seq<char>) -> Option<bool> {
    if code == "fa"@ {
        Some(false)
    } else if code == "tr"@ {
        Some(true)
    } else {
        None
    }
}

impl Gender {
    /// Reads the gender column of a noun record. Any code but `m`, `f` and
    /// `n` is refused.
    pub fn from_code(code: &str) -> (r: Result<Gender, UnknownCode>)
        ensures
            r == match gender_of_code(code@) {
                Some(g) => Ok::<Gender, UnknownCode>(g),
                None => Err::<Gender, UnknownCode>(UnknownCode::Gender),
            },
    {
        if same_text(code, "m") {
            Ok(Gender::Masculine)
        } else if same_text(code, "f") {
            Ok(Gender::Feminine)
        } else if same_text(code, "n") {
            Ok(Gender::Neuter)
        } else {
            Err(UnknownCode::Gender)
        }
    }
}

/// Reads a column that tells whether a noun has plural forms only. Any code
/// but `tr` and `fa` is refused.
pub fn pluralia_from_code(code: &str) -> (r: Result<bool, UnknownCode>)
    ensures
        r == match pluralia_of_code(code@) {
            Some(b) => Ok::<bool, UnknownCode>(b),
            None => Err::<bool, UnknownCode>(UnknownCode::Pluralia),
        },
{
    if same_text(code, "fa") {
        Ok(false)
    } else if same_text(code, "tr") {
        Ok(true)
    } else {
        Err(UnknownCode::Pluralia)
    }
}

} // verus!
