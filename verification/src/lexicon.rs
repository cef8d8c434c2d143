//! The dictionaries, and inflection that asks them first.

use vstd::hash_map::StringHashMap;
use vstd::prelude::*;

use crate::categories::{Case, Gender, Mood, Number, Person, Tense, Voice};
use crate::guess::{spec_guess_adjective, spec_guess_noun};
use crate::records::{AdjectiveRecord, Entry, NounRecord, VerbRecord};
use crate::text::{join_spaced, spaced};

verus! {

pub type NounMap = StringHashMap<NounRecord>;

pub type AdjectiveMap = StringHashMap<AdjectiveRecord>;

pub type VerbMap = StringHashMap<VerbRecord>;

/// An inflected noun with its gender.
pub type Noun = (String, Gender);

pub type Adjective = String;

pub type Verb = String;

/// The three dictionaries, each from a word in its dictionary form to its
/// record.
pub struct Latin {
    pub noun_map: NounMap,
    pub adj_map: AdjectiveMap,
    pub verb_map: VerbMap,
}

/// A noun phrase to inflect: a head noun, the adjectives that agree with it,
/// and the nouns set beside it.
pub struct ComplexNoun {
    pub head_noun: String,
    pub adjective: Vec<String>,
    pub adposition_noun: Vec<String>,
}

impl Default for Latin {
    /// Three empty dictionaries: every noun and adjective is guessed.
    fn default() -> (r: Latin)
        ensures
            r.noun_map@ == Map::<Seq<char>, NounRecord>::empty(),
            r.adj_map@ == Map::<Seq<char>, AdjectiveRecord>::empty(),
            r.verb_map@ == Map::<Seq<char>, VerbRecord>::empty(),
    {
        Latin {
            noun_map: StringHashMap::new(),
            adj_map: StringHashMap::new(),
            verb_map: StringHashMap::new(),
        }
    }
}

impl Default for ComplexNoun {
    fn default() -> (r: ComplexNoun)
        ensures
            r.head_noun@ == "exemplum"@,
            r.adjective@.len() == 0,
            r.adposition_noun@.len() == 0,
    {
        ComplexNoun {
            head_noun: "exemplum".to_owned(),
            adjective: Vec::new(),
            adposition_noun: Vec::new(),
        }
    }
}

/// A part of the verb that has no forms here.
#[derive(Clone, Copy, Debug, PartialEq, Eq, Structural)]
pub enum NotImplemented {
    /// Every mood but the indicative.
    OtherMoods,
    /// The passive voice.
    PassiveVoice,
    /// The future perfect.
    FuturePerfect,
}

impl NotImplemented {
    pub fn message(&self) -> (r: &'static str)
        ensures
            r == match *self {
                NotImplemented::OtherMoods => "other moods are not implemented",
                NotImplemented::PassiveVoice => "the passive voice is not implemented",
                NotImplemented::FuturePerfect => "the future perfect is not implemented",
            },
    {
        match self {
            NotImplemented::OtherMoods => "other moods are not implemented",
            NotImplemented::PassiveVoice => "the passive voice is not implemented",
            NotImplemented::FuturePerfect => "the future perfect is not implemented",
        }
    }
}

/// The dictionary that `records` make: each record under its word, a later
/// record in place of an earlier one for the same word.
pub open spec fn index_of<R: Entry>(records: Seq<R>) -> Map<Seq<char>, R>
    decreases records.len(),
{
    if records.len() == 0 {
        Map::empty()
    } else {
        index_of(records.drop_last()).insert(records.last().key(), records.last())
    }
}

/// Files each of `records` under its word.
pub fn index_records<R: Entry>(records: &Vec<R>) -> (r: StringHashMap<R>)
    ensures
        r@ == index_of(records@),
{
    let mut index = StringHashMap::new();
    let mut i: usize = 0;
    while i < records.len()
        invariant
            i <= records.len(),
            index@ == index_of(records@.subrange(0, i as int)),
        decreases records.len() - i,
    {
        let record = records[i].duplicate();
        let word = record.word().clone();
        index.insert(word, record);
        proof {
            let taken = records@.subrange(0, i + 1);
            assert(taken.drop_last() =~= records@.subrange(0, i as int));
        }
        i += 1;
    }
    assert(records@.subrange(0, records.len() as int) =~= records@);
    index
}

impl Latin {
    /// The form of a noun and its gender: what its record offers, else what
    /// its ending gives.
    pub open spec fn spec_noun(&self, word: Seq<char>, case: Case, number: Number) -> (
        Seq<char>,
        Gender,
    ) {
        if self.noun_map@.contains_key(word) {
            let record = self.noun_map@[word];
            match record.spec_lookup(case, number) {
                Some(form) => (form, record.gender),
                None => spec_guess_noun(word, case, number),
            }
        } else {
            spec_guess_noun(word, case, number)
        }
    }

    /// The form of an adjective: what its record stores, as it stands, else
    /// what its ending gives.
    pub open spec fn spec_adjective(
        &self,
        word: Seq<char>,
        case: Case,
        number: Number,
        gender: Gender,
    ) -> Seq<char> {
        if self.adj_map@.contains_key(word) {
            self.adj_map@[word].spec_form(case, number, gender)
        } else {
            spec_guess_adjective(word, case, number, gender)
        }
    }

    /// The form of a verb. Only the indicative active has forms, from the
    /// present to the pluperfect; the mood is looked at first, then the
    /// voice, then the tense. A verb without a record has empty forms.
    pub open spec fn spec_verb(
        &self,
        word: Seq<char>,
        mood: Mood,
        voice: Voice,
        tense: Tense,
        number: Number,
        person: Person,
    ) -> Result<Seq<char>, NotImplemented> {
        if mood != Mood::Indicative {
            Err(NotImplemented::OtherMoods)
        } else if voice != Voice::Active {
            Err(NotImplemented::PassiveVoice)
        } else if tense == Tense::FuturePerfect {
            Err(NotImplemented::FuturePerfect)
        } else if self.verb_map@.contains_key(word) {
            Ok(self.verb_map@[word].spec_form(tense, number, person).unwrap())
        } else {
            Ok(Seq::empty())
        }
    }

    /// `phrase`, followed by the forms of `words` as nouns, in their order,
    /// each after a space. A word whose form is empty adds nothing.
    pub open spec fn with_nouns(
        &self,
        phrase: Seq<char>,
        words: Seq<String>,
        case: Case,
        number: Number,
    ) -> Seq<char>
        decreases words.len(),
    {
        if words.len() == 0 {
            phrase
        } else {
            let before = self.with_nouns(phrase, words.drop_last(), case, number);
            let form = self.spec_noun(words.last()@, case, number).0;
            if form.len() == 0 {
                before
            } else {
                spaced(before, form)
            }
        }
    }

    /// `phrase`, followed by the forms of `words` as adjectives of `gender`,
    /// in their order, each after a space. A word whose form is empty adds
    /// nothing.
    pub open spec fn with_adjectives(
        &self,
        phrase: Seq<char>,
        words: Seq<String>,
        case: Case,
        number: Number,
        gender: Gender,
    ) -> Seq<char>
        decreases words.len(),
    {
        if words.len() == 0 {
            phrase
        } else {
            let before = self.with_adjectives(phrase, words.drop_last(), case, number, gender);
            let form = self.spec_adjective(words.last()@, case, number, gender);
            if form.len() == 0 {
                before
            } else {
                spaced(before, form)
            }
        }
    }

    /// The phrase: the head noun, then the nouns beside it, then the
    /// adjectives in the head noun's gender.
    pub open spec fn spec_complex_noun(
        &self,
        request: &ComplexNoun,
        case: Case,
        number: Number,
    ) -> Seq<char> {
        let head = self.spec_noun(request.head_noun@, case, number);
        self.with_adjectives(
            self.with_nouns(head.0, request.adposition_noun@, case, number),
            request.adjective@,
            case,
            number,
            head.1,
        )
    }

    /// Builds the dictionaries from their records. Where two records of one
    /// kind have the same word, the later one stays.
    pub fn new(
        nouns: Vec<NounRecord>,
        adjectives: Vec<AdjectiveRecord>,
        verbs: Vec<VerbRecord>,
    ) -> (r: Latin)
        ensures
            r.noun_map@ == index_of(nouns@),
            r.adj_map@ == index_of(adjectives@),
            r.verb_map@ == index_of(verbs@),
    {
        Latin {
            noun_map: index_records(&nouns),
            adj_map: index_records(&adjectives),
            verb_map: index_records(&verbs),
        }
    }

    /// Inflects a noun and tells its gender.
    pub fn noun(&self, word: &str, case: &Case, number: &Number) -> (r: Noun)
        ensures
            r.0@ == self.spec_noun(word@, *case, *number).0,
            r.1 == self.spec_noun(word@, *case, *number).1,
    {
        match self.noun_map.get(word) {
            Some(record) => match record.lookup(case, number) {
                Some(form) => (form.clone(), record.gender),
                None => Latin::guess_noun(word, case, number),
            },
            None => Latin::guess_noun(word, case, number),
        }
    }

    /// Inflects an adjective to agree with a noun of `gender`.
    pub fn adjective(
        &self,
        word: &str,
        case: &Case,
        number: &Number,
        gender: &Gender,
    ) -> (r: Adjective)
        ensures
            r@ == self.spec_adjective(word@, *case, *number, *gender),
    {
        match self.adj_map.get(word) {
            Some(record) => record.form(case, number, gender).clone(),
            None => Latin::guess_adjective(word, case, number, gender),
        }
    }

    /// Conjugates a verb, or tells which part of the request has no forms.
    pub fn verb(
        &self,
        word: &str,
        mood: &Mood,
        voice: &Voice,
        tense: &Tense,
        number: &Number,
        person: &Person,
    ) -> (r: Result<Verb, NotImplemented>)
        ensures
            match r {
                Ok(form) => self.spec_verb(word@, *mood, *voice, *tense, *number, *person) == Ok::<
                    Seq<char>,
                    NotImplemented,
                >(form@),
                Err(e) => self.spec_verb(word@, *mood, *voice, *tense, *number, *person) == Err::<
                    Seq<char>,
                    NotImplemented,
                >(e),
            },
            r.is_err() <==> (*mood != Mood::Indicative || *voice != Voice::Active || *tense
                == Tense::FuturePerfect),
    {
        match mood {
            Mood::Indicative => {},
            _ => {
                return Err(NotImplemented::OtherMoods);
            },
        }
        match voice {
            Voice::Active => {},
            Voice::Passive => {
                return Err(NotImplemented::PassiveVoice);
            },
        }
        match self.verb_map.get(word) {
            Some(record) => match record.form(tense, number, person) {
                Some(form) => Ok(form.clone()),
                None => Err(NotImplemented::FuturePerfect),
            },
            None => match tense {
                Tense::FuturePerfect => Err(NotImplemented::FuturePerfect),
                _ => Ok(String::new()),
            },
        }
    }

    /// Inflects a noun phrase: the head noun first, then the nouns beside
    /// it, then the adjectives, which take the head noun's gender.
    pub fn complex_noun(
        &self,
        complex_nomen: &ComplexNoun,
        case: &Case,
        number: &Number,
    ) -> (r: String)
        ensures
            r@ == self.spec_complex_noun(complex_nomen, *case, *number),
    {
        let head = self.noun(complex_nomen.head_noun.as_str(), case, number);
        let gender = head.1;
        let mut response = head.0;
        let ghost start = response@;
        let mut i: usize = 0;
        while i < complex_nomen.adposition_noun.len()
            invariant
                i <= complex_nomen.adposition_noun.len(),
                response@ == self.with_nouns(
                    start,
                    complex_nomen.adposition_noun@.subrange(0, i as int),
                    *case,
                    *number,
                ),
            decreases complex_nomen.adposition_noun.len() - i,
        {
            let beside = self.noun(complex_nomen.adposition_noun[i].as_str(), case, number);
            proof {
                let taken = complex_nomen.adposition_noun@.subrange(0, i + 1);
                assert(taken.drop_last() =~= complex_nomen.adposition_noun@.subrange(0, i as int));
            }
            if !beside.0.as_str().is_empty() {
                response = join_spaced(response, beside.0.as_str());
            }
            i += 1;
        }
        assert(complex_nomen.adposition_noun@.subrange(
            0,
            complex_nomen.adposition_noun.len() as int,
        ) =~= complex_nomen.adposition_noun@);
        let ghost with_beside = response@;
        let mut j: usize = 0;
        while j < complex_nomen.adjective.len()
            invariant
                j <= complex_nomen.adjective.len(),
                response@ == self.with_adjectives(
                    with_beside,
                    complex_nomen.adjective@.subrange(0, j as int),
                    *case,
                    *number,
                    gender,
                ),
            decreases complex_nomen.adjective.len() - j,
        {
            let agreeing = self.adjective(complex_nomen.adjective[j].as_str(), case, number, &gender);
            proof {
                let taken = complex_nomen.adjective@.subrange(0, j + 1);
                assert(taken.drop_last() =~= complex_nomen.adjective@.subrange(0, j as int));
            }
            if !agreeing.as_str().is_empty() {
                response = join_spaced(response, agreeing.as_str());
            }
            j += 1;
        }
        assert(complex_nomen.adjective@.subrange(0, complex_nomen.adjective.len() as int)
            =~= complex_nomen.adjective@);
        response
    }
}

} // verus!
