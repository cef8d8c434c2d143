//! Inflection without a dictionary: the ending of a word decides its
//! declension pattern.

use vstd::prelude::*;
use vstd::string::*;

use crate::categories::{Case, Gender, Number};
use crate::endings::CaseEndings;
use crate::lexicon::{Adjective, Latin, Noun};
use crate::patterns;
use crate::text::{ends_with, is_suffix, keep_last, last_chars, strip_last, without_last};

verus! {

/// The place in `patterns`, at `from` or after it, of the first pattern whose
/// nominative singular ends `word`.
pub open spec fn first_fit(patterns: Seq<CaseEndings>, word: Seq<char>, from: int) -> Option<int>
    decreases patterns.len() - from,
{
    if from < 0 || from >= patterns.len() {
        None
    } else if is_suffix(word, patterns[from].nom_sg@) {
        Some(from)
    } else {
        first_fit(patterns, word, from + 1)
    }
}

/// The form of a noun for `case` and `number`, and its gender, by the first
/// pattern of [`patterns::noun_patterns`] that fits: the nominative ending gives way to
/// the ending asked for. A word that no pattern fits stays as it is and
/// counts as masculine.
pub open spec fn spec_guess_noun(word: Seq<char>, case: Case, number: Number) -> (
    Seq<char>,
    Gender,
) {
    match first_fit(patterns::noun_patterns(), word, 0) {
        Some(at) => {
            let pattern = patterns::noun_patterns()[at];
            (
                without_last(word, pattern.nom_sg@.len()) + pattern.spec_ending(case, number)@,
                pattern.gender,
            )
        },
        None => (word, Gender::Masculine),
    }
}

/// How an adjective declines: how many characters its stem drops from the
/// word, and the pattern for each gender.
#[derive(Clone, Copy, Debug)]
pub struct AdjectiveParadigm {
    pub dropped: usize,
    pub masculine: CaseEndings,
    pub feminine: CaseEndings,
    pub neuter: CaseEndings,
}

impl AdjectiveParadigm {
    pub open spec fn spec_endings(self, gender: Gender) -> CaseEndings {
        match gender {
            Gender::Masculine => self.masculine,
            Gender::Feminine => self.feminine,
            Gender::Neuter => self.neuter,
        }
    }

    /// The pattern for `gender`.
    pub fn endings(&self, gender: &Gender) -> (r: CaseEndings)
        ensures
            r == self.spec_endings(*gender),
    {
        match gender {
            Gender::Masculine => self.masculine,
            Gender::Feminine => self.feminine,
            Gender::Neuter => self.neuter,
        }
    }
}

/// The paradigm of an adjective by its ending. The endings are tried in this
/// order: -us, -er, -is, -ex, -or, -des, -s. A word with none of them
/// declines like one in -us.
pub open spec fn adjective_paradigm(word: Seq<char>) -> AdjectiveParadigm {
    if is_suffix(word, "us"@) {
        AdjectiveParadigm {
            dropped: 2,
            masculine: patterns::us_declension(),
            feminine: patterns::a_declension(),
            neuter: patterns::um_declension(),
        }
    } else if is_suffix(word, "er"@) {
        AdjectiveParadigm {
            dropped: 0,
            masculine: patterns::er_adjective_masc(),
            feminine: patterns::a_declension(),
            neuter: patterns::um_declension(),
        }
    } else if is_suffix(word, "is"@) {
        AdjectiveParadigm {
            dropped: 2,
            masculine: patterns::is_adjective_masc(),
            feminine: patterns::is_adjective_masc(),
            neuter: patterns::e_declension(),
        }
    } else if is_suffix(word, "ex"@) {
        AdjectiveParadigm {
            dropped: 2,
            masculine: patterns::ex_adjective_masc(),
            feminine: patterns::ex_adjective_masc(),
            neuter: patterns::ex_adjective_neut(),
        }
    } else if is_suffix(word, "or"@) {
        AdjectiveParadigm {
            dropped: 2,
            masculine: patterns::or_declension(),
            feminine: patterns::or_declension(),
            neuter: patterns::or_adj_neuter(),
        }
    } else if is_suffix(word, "des"@) {
        AdjectiveParadigm {
            dropped: 2,
            masculine: patterns::es_adj_masc(),
            feminine: patterns::es_adj_masc(),
            neuter: patterns::es_adj_neut(),
        }
    } else if is_suffix(word, "s"@) {
        AdjectiveParadigm {
            dropped: 1,
            masculine: patterns::s_declension(),
            feminine: patterns::s_declension(),
            neuter: patterns::s_adj_neuter(),
        }
    } else {
        AdjectiveParadigm {
            dropped: 2,
            masculine: patterns::us_declension(),
            feminine: patterns::a_declension(),
            neuter: patterns::um_declension(),
        }
    }
}

/// The form of an adjective for `case`, `number` and `gender`: the word
/// without the characters that its paradigm drops (as many as it has, where
/// it has fewer), then the ending of the pattern for `gender`.
pub open spec fn spec_guess_adjective(
    word: Seq<char>,
    case: Case,
    number: Number,
    gender: Gender,
) -> Seq<char> {
    let paradigm = adjective_paradigm(word);
    without_last(word, paradigm.dropped as nat) + paradigm.spec_endings(gender).spec_ending(
        case,
        number,
    )@
}

/// Finds the paradigm of an adjective by its ending.
pub fn classify_adjective(word: &str) -> (r: AdjectiveParadigm)
    ensures
        r == adjective_paradigm(word@),
{
    if ends_with(word, "us") {
        AdjectiveParadigm {
            dropped: 2,
            masculine: patterns::us_declension_endings(),
            feminine: patterns::a_declension_endings(),
            neuter: patterns::um_declension_endings(),
        }
    } else if ends_with(word, "er") {
        AdjectiveParadigm {
            dropped: 0,
            masculine: patterns::er_adjective_masc_endings(),
            feminine: patterns::a_declension_endings(),
            neuter: patterns::um_declension_endings(),
        }
    } else if ends_with(word, "is") {
        AdjectiveParadigm {
            dropped: 2,
            masculine: patterns::is_adjective_masc_endings(),
            feminine: patterns::is_adjective_masc_endings(),
            neuter: patterns::e_declension_endings(),
        }
    } else if ends_with(word, "ex") {
        AdjectiveParadigm {
            dropped: 2,
            masculine: patterns::ex_adjective_masc_endings(),
            feminine: patterns::ex_adjective_masc_endings(),
            neuter: patterns::ex_adjective_neut_endings(),
        }
    } else if ends_with(word, "or") {
        AdjectiveParadigm {
            dropped: 2,
            masculine: patterns::or_declension_endings(),
            feminine: patterns::or_declension_endings(),
            neuter: patterns::or_adj_neuter_endings(),
        }
    } else if ends_with(word, "des") {
        AdjectiveParadigm {
            dropped: 2,
            masculine: patterns::es_adj_masc_endings(),
            feminine: patterns::es_adj_masc_endings(),
            neuter: patterns::es_adj_neut_endings(),
        }
    } else if ends_with(word, "s") {
        AdjectiveParadigm {
            dropped: 1,
            masculine: patterns::s_declension_endings(),
            feminine: patterns::s_declension_endings(),
            neuter: patterns::s_adj_neuter_endings(),
        }
    } else {
        AdjectiveParadigm {
            dropped: 2,
            masculine: patterns::us_declension_endings(),
            feminine: patterns::a_declension_endings(),
            neuter: patterns::um_declension_endings(),
        }
    }
}

/// Looks for the first of `patterns` whose nominative singular ends `word`.
pub fn find_pattern(patterns: &Vec<CaseEndings>, word: &str) -> (r: Option<usize>)
    ensures
        match r {
            Some(at) => first_fit(patterns@, word@, 0) == Some(at as int) && at < patterns.len(),
            None => first_fit(patterns@, word@, 0).is_none(),
        },
{
    let mut i: usize = 0;
    while i < patterns.len()
        invariant
            i <= patterns.len(),
            first_fit(patterns@, word@, 0) == first_fit(patterns@, word@, i as int),
        decreases patterns.len() - i,
    {
        if ends_with(word, patterns[i].nom_sg) {
            return Some(i);
        }
        i += 1;
    }
    None
}

impl Latin {
    /// Inflects a noun that no dictionary is asked about. The result is
    /// that of [`spec_guess_noun`].
    pub fn guess_noun(word: &str, case: &Case, number: &Number) -> (r: Noun)
        ensures
            r.0@ == spec_guess_noun(word@, *case, *number).0,
            r.1 == spec_guess_noun(word@, *case, *number).1,
    {
        let catalog = patterns::noun_endings();
        match find_pattern(&catalog, word) {
            Some(at) => {
                let pattern = catalog[at];
                let stem = strip_last(word, pattern.nom_sg.unicode_len());
                (stem.concat(pattern.ending(case, number)), pattern.gender)
            },
            None => (word.to_owned(), Gender::Masculine),
        }
    }

    /// Inflects an adjective that no dictionary is asked about. The result
    /// is that of [`spec_guess_adjective`].
    pub fn guess_adjective(
        word: &str,
        case: &Case,
        number: &Number,
        gender: &Gender,
    ) -> (r: Adjective)
        ensures
            r@ == spec_guess_adjective(word@, *case, *number, *gender),
    {
        let paradigm = classify_adjective(word);
        let stem = strip_last(word, paradigm.dropped);
        stem.concat(paradigm.endings(gender).ending(case, number))
    }

    /// The last `n` characters of `word`, or the whole word where it has
    /// fewer. `n` is at least 1.
    pub fn last_n_chars(word: &str, n: usize) -> (r: String)
        requires
            n >= 1,
        ensures
            r@ == last_chars(word@, n as nat),
    {
        keep_last(word, n)
    }
}

} // verus!
