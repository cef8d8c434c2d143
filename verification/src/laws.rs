//! What holds of inflection whatever the dictionaries contain.

use vstd::prelude::*;

use crate::categories::{Case, Gender, Mood, Number, Person, Tense, Voice};
use crate::endings::CaseEndings;
use crate::guess::{adjective_paradigm, first_fit, spec_guess_adjective, spec_guess_noun};
use crate::lexicon::{index_of, ComplexNoun, Latin};
use crate::patterns::{noun_patterns, one_letter_patterns, two_letter_patterns};
use crate::records::Entry;
use crate::text::{is_blank, is_suffix, lemma_stem_and_ending, without_last};

verus! {

/// The pattern that `first_fit` finds fits the word, and no pattern before
/// it does; where it finds none, none fits.
pub proof fn lemma_first_fit_is_first(patterns: Seq<CaseEndings>, word: Seq<char>, from: int)
    requires
        0 <= from,
    ensures
        match first_fit(patterns, word, from) {
            Some(at) => {
                &&& from <= at < patterns.len()
                &&& is_suffix(word, patterns[at].nom_sg@)
                &&& forall|k: int| from <= k < at ==> !is_suffix(word, #[trigger] patterns[k].nom_sg@)
            },
            None => forall|k: int|
                from <= k < patterns.len() ==> !is_suffix(word, #[trigger] patterns[k].nom_sg@),
        },
    decreases patterns.len() - from,
{
    if from < patterns.len() && !is_suffix(word, patterns[from].nom_sg@) {
        lemma_first_fit_is_first(patterns, word, from + 1);
    }
}

/// The order of the patterns: every pattern with a nominative ending of two
/// letters is tried before every pattern with one of a single letter.
pub proof fn lemma_longer_endings_come_first()
    ensures
        forall|i: int|
            0 <= i < two_letter_patterns().len() ==> (#[trigger] two_letter_patterns()[i]).nom_sg@.len()
                == 2,
        forall|i: int|
            0 <= i < one_letter_patterns().len() ==> (#[trigger] one_letter_patterns()[i]).nom_sg@.len()
                == 1,
        forall|i: int, j: int|
            0 <= i < j < noun_patterns().len() ==> (#[trigger] noun_patterns()[i]).nom_sg@.len() >= (
            #[trigger] noun_patterns()[j]).nom_sg@.len(),
{
    reveal_strlit("a");
    reveal_strlit("al");
    reveal_strlit("ar");
    reveal_strlit("as");
    reveal_strlit("ax");
    reveal_strlit("e");
    reveal_strlit("en");
    reveal_strlit("er");
    reveal_strlit("es");
    reveal_strlit("ex");
    reveal_strlit("is");
    reveal_strlit("ix");
    reveal_strlit("ma");
    reveal_strlit("nx");
    reveal_strlit("o");
    reveal_strlit("on");
    reveal_strlit("or");
    reveal_strlit("os");
    reveal_strlit("u");
    reveal_strlit("um");
    reveal_strlit("us");
    reveal_strlit("ut");
    reveal_strlit("ux");
    reveal_strlit("ys");
    reveal_strlit("yx");
}

/// A guessed noun in the nominative singular is the word itself.
pub proof fn lemma_guessed_nominative_is_the_word(word: Seq<char>)
    ensures
        spec_guess_noun(word, Case::Nom, Number::Singular).0 == word,
{
    lemma_first_fit_is_first(noun_patterns(), word, 0);
    match first_fit(noun_patterns(), word, 0) {
        Some(at) => {
            lemma_stem_and_ending(word, noun_patterns()[at].nom_sg@);
        },
        None => {},
    }
}

/// An adjective with one of the endings -us, -er, -is, -ex, -or, -des and -s
/// is its own masculine nominative singular.
pub proof fn lemma_guessed_masculine_nominative_is_the_word(word: Seq<char>)
    requires
        is_suffix(word, "us"@) || is_suffix(word, "er"@) || is_suffix(word, "is"@) || is_suffix(
            word,
            "ex"@,
        ) || is_suffix(word, "or"@) || is_suffix(word, "des"@) || is_suffix(word, "s"@),
    ensures
        spec_guess_adjective(word, Case::Nom, Number::Singular, Gender::Masculine) == word,
{
    reveal_strlit("us");
    reveal_strlit("er");
    reveal_strlit("is");
    reveal_strlit("ex");
    reveal_strlit("or");
    reveal_strlit("des");
    reveal_strlit("es");
    reveal_strlit("s");
    reveal_strlit("");
    let paradigm = adjective_paradigm(word);
    let ending = paradigm.masculine.nom_sg@;
    let stem = without_last(word, paradigm.dropped as nat);
    if is_suffix(word, "us"@) {
        lemma_stem_and_ending(word, "us"@);
    } else if is_suffix(word, "er"@) {
        assert(stem + ending =~= word);
    } else if is_suffix(word, "is"@) {
        lemma_stem_and_ending(word, "is"@);
    } else if is_suffix(word, "ex"@) {
        lemma_stem_and_ending(word, "ex"@);
    } else if is_suffix(word, "or"@) {
        lemma_stem_and_ending(word, "or"@);
    } else if is_suffix(word, "des"@) {
        let tail = word.subrange(word.len() - 3, word.len() as int);
        assert(tail[1] == 'e' && tail[2] == 's');
        assert(is_suffix(word, "es"@)) by {
            assert(word.subrange(word.len() - 2, word.len() as int) =~= "es"@);
        }
        lemma_stem_and_ending(word, "es"@);
    } else {
        lemma_stem_and_ending(word, "s"@);
    }
}

/// A guessed noun has the same form and gender in the locative as in the
/// ablative, and in the vocative as in the nominative.
pub proof fn lemma_guessed_locative_and_vocative(word: Seq<char>, number: Number)
    ensures
        spec_guess_noun(word, Case::Loc, number) == spec_guess_noun(word, Case::Abl, number),
        spec_guess_noun(word, Case::Voc, number) == spec_guess_noun(word, Case::Nom, number),
{
}

/// A word is in the dictionary exactly where one of the records has it.
pub proof fn lemma_index_holds_the_words<R: Entry>(records: Seq<R>, word: Seq<char>)
    ensures
        index_of(records).contains_key(word) <==> exists|i: int|
            0 <= i < records.len() && #[trigger] records[i].key() == word,
    decreases records.len(),
{
    if records.len() > 0 {
        let before = records.drop_last();
        lemma_index_holds_the_words(before, word);
        if index_of(records).contains_key(word) {
            if records.last().key() == word {
                assert(records[records.len() - 1].key() == word);
            } else {
                let i = choose|i: int| 0 <= i < before.len() && #[trigger] before[i].key() == word;
                assert(records[i].key() == word);
            }
        } else {
            assert forall|i: int| 0 <= i < records.len() implies #[trigger] records[i].key()
                != word by {
                if i < before.len() {
                    assert(before[i].key() == records[i].key());
                }
            }
        }
    }
}

/// A record after which no record has the same word is the one that the
/// dictionary holds for that word.
pub proof fn lemma_index_holds_the_last_record<R: Entry>(records: Seq<R>, at: int)
    requires
        0 <= at < records.len(),
        forall|later: int|
            at < later < records.len() ==> #[trigger] records[later].key() != records[at].key(),
    ensures
        index_of(records).contains_key(records[at].key()),
        index_of(records)[records[at].key()] == records[at],
    decreases records.len(),
{
    if at < records.len() - 1 {
        let before = records.drop_last();
        assert(records[records.len() - 1].key() != records[at].key());
        assert forall|later: int| at < later < before.len() implies #[trigger] before[later].key()
            != before[at].key() by {
            assert(before[later].key() == records[later].key());
        }
        lemma_index_holds_the_last_record(before, at);
    }
}

/// Every record in the dictionary is filed under its own word.
pub proof fn lemma_index_files_by_word<R: Entry>(records: Seq<R>, word: Seq<char>)
    requires
        index_of(records).contains_key(word),
    ensures
        index_of(records)[word].key() == word,
    decreases records.len(),
{
    if records.len() > 0 && records.last().key() != word {
        lemma_index_files_by_word(records.drop_last(), word);
    }
}

/// The dictionary comes before the guess: a noun whose record stores a form
/// for the case and number, neither empty nor a hyphen, gets that form as it
/// stands, with the record's gender.
pub proof fn lemma_stored_noun_wins(latin: &Latin, word: Seq<char>, case: Case, number: Number)
    requires
        latin.noun_map@.contains_key(word),
        !is_blank(latin.noun_map@[word].spec_form(case, number)),
    ensures
        latin.spec_noun(word, case, number) == (
            latin.noun_map@[word].spec_form(case, number),
            latin.noun_map@[word].gender,
        ),
{
}

/// The dictionary comes before the guess: an adjective with a record gets
/// what the record stores, as it stands.
pub proof fn lemma_stored_adjective_wins(
    latin: &Latin,
    word: Seq<char>,
    case: Case,
    number: Number,
    gender: Gender,
)
    requires
        latin.adj_map@.contains_key(word),
    ensures
        latin.spec_adjective(word, case, number, gender) == latin.adj_map@[word].spec_form(
            case,
            number,
            gender,
        ),
{
}

/// A noun whose record has no locative singular has, in the locative
/// singular, the form and gender that it has in the ablative singular.
pub proof fn lemma_locative_falls_back_to_ablative(latin: &Latin, word: Seq<char>)
    requires
        latin.noun_map@.contains_key(word),
        is_blank(latin.noun_map@[word].loc_sg@),
    ensures
        latin.spec_noun(word, Case::Loc, Number::Singular) == latin.spec_noun(
            word,
            Case::Abl,
            Number::Singular,
        ),
{
}

/// An adjective has the same form in the locative as in the ablative,
/// whether it has a record or not.
pub proof fn lemma_adjective_locative_is_ablative(
    latin: &Latin,
    word: Seq<char>,
    number: Number,
    gender: Gender,
)
    ensures
        latin.spec_adjective(word, Case::Loc, number, gender) == latin.spec_adjective(
            word,
            Case::Abl,
            number,
            gender,
        ),
{
}

/// An adjective with a record has the same form in the vocative as in the
/// ablative.
pub proof fn lemma_stored_adjective_vocative_is_ablative(
    latin: &Latin,
    word: Seq<char>,
    number: Number,
    gender: Gender,
)
    requires
        latin.adj_map@.contains_key(word),
    ensures
        latin.spec_adjective(word, Case::Voc, number, gender) == latin.spec_adjective(
            word,
            Case::Abl,
            number,
            gender,
        ),
{
}

/// Nouns added to a phrase depend on the noun dictionary alone.
pub proof fn lemma_same_nouns_same_phrase(
    a: &Latin,
    b: &Latin,
    phrase: Seq<char>,
    words: Seq<String>,
    case: Case,
    number: Number,
)
    requires
        a.noun_map@ == b.noun_map@,
    ensures
        a.with_nouns(phrase, words, case, number) == b.with_nouns(phrase, words, case, number),
    decreases words.len(),
{
    if words.len() > 0 {
        lemma_same_nouns_same_phrase(a, b, phrase, words.drop_last(), case, number);
    }
}

/// Adjectives added to a phrase depend on the adjective dictionary alone.
pub proof fn lemma_same_adjectives_same_phrase(
    a: &Latin,
    b: &Latin,
    phrase: Seq<char>,
    words: Seq<String>,
    case: Case,
    number: Number,
    gender: Gender,
)
    requires
        a.adj_map@ == b.adj_map@,
    ensures
        a.with_adjectives(phrase, words, case, number, gender) == b.with_adjectives(
            phrase,
            words,
            case,
            number,
            gender,
        ),
    decreases words.len(),
{
    if words.len() > 0 {
        lemma_same_adjectives_same_phrase(a, b, phrase, words.drop_last(), case, number, gender);
    }
}

/// The same request to the same dictionaries has the same answer: what a
/// noun, an adjective, a verb or a phrase becomes depends on nothing but the
/// request and what the dictionaries hold.
pub proof fn lemma_same_dictionaries_same_forms(
    a: &Latin,
    b: &Latin,
    word: Seq<char>,
    request: &ComplexNoun,
    case: Case,
    number: Number,
    gender: Gender,
    mood: Mood,
    voice: Voice,
    tense: Tense,
    person: Person,
)
    requires
        a.noun_map@ == b.noun_map@,
        a.adj_map@ == b.adj_map@,
        a.verb_map@ == b.verb_map@,
    ensures
        a.spec_noun(word, case, number) == b.spec_noun(word, case, number),
        a.spec_adjective(word, case, number, gender) == b.spec_adjective(
            word,
            case,
            number,
            gender,
        ),
        a.spec_verb(word, mood, voice, tense, number, person) == b.spec_verb(
            word,
            mood,
            voice,
            tense,
            number,
            person,
        ),
        a.spec_complex_noun(request, case, number) == b.spec_complex_noun(request, case, number),
{
    let head = a.spec_noun(request.head_noun@, case, number);
    lemma_same_nouns_same_phrase(a, b, head.0, request.adposition_noun@, case, number);
    lemma_same_adjectives_same_phrase(
        a,
        b,
        a.with_nouns(head.0, request.adposition_noun@, case, number),
        request.adjective@,
        case,
        number,
        head.1,
    );
}

/// A verb has a form exactly in the indicative active from the present to
/// the pluperfect. Any other request is refused, whatever the dictionary
/// holds.
pub proof fn lemma_verb_refusals(
    latin: &Latin,
    word: Seq<char>,
    mood: Mood,
    voice: Voice,
    tense: Tense,
    number: Number,
    person: Person,
)
    ensures
        latin.spec_verb(word, mood, voice, tense, number, person).is_err() <==> (mood
            != Mood::Indicative || voice != Voice::Active || tense == Tense::FuturePerfect),
{
}

} // verus!
