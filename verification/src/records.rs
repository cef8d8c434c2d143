//! The records of the three dictionaries. Each holds the written forms of
//! one word, one for each place in its paradigm.

use vstd::prelude::*;

use crate::categories::{Case, Gender, Number, Person, Tense};
use crate::text::{blank, is_blank};

verus! {

/// A record of a dictionary. It is filed under its word.
pub trait Entry: Sized {
    /// The word under which the record is filed.
    spec fn key(&self) -> Seq<char>;

    /// The word under which the record is filed.
    fn word(&self) -> (r: &String)
        ensures
            r@ == self.key(),
    ;

    /// A copy of the record, to file.
    fn duplicate(&self) -> (r: Self)
        ensures
            r == *self,
    ;
}

/// A noun: its form for each case and number, and its gender. A form that
/// is empty or a lone hyphen stands for one that the dictionary lacks.
#[derive(Debug, Default)]
pub struct NounRecord {
    pub word: String,
    pub nom_sg: String,
    pub gen_sg: String,
    pub dat_sg: String,
    pub acc_sg: String,
    pub abl_sg: String,
    pub voc_sg: String,
    pub loc_sg: String,
    pub nom_pl: String,
    pub gen_pl: String,
    pub dat_pl: String,
    pub acc_pl: String,
    pub abl_pl: String,
    pub voc_pl: String,
    pub loc_pl: String,
    pub gender: Gender,
}

impl Clone for NounRecord {
    fn clone(&self) -> (r: Self)
        ensures
            r == *self,
    {
        NounRecord {
            word: self.word.clone(),
            nom_sg: self.nom_sg.clone(),
            gen_sg: self.gen_sg.clone(),
            dat_sg: self.dat_sg.clone(),
            acc_sg: self.acc_sg.clone(),
            abl_sg: self.abl_sg.clone(),
            voc_sg: self.voc_sg.clone(),
            loc_sg: self.loc_sg.clone(),
            nom_pl: self.nom_pl.clone(),
            gen_pl: self.gen_pl.clone(),
            dat_pl: self.dat_pl.clone(),
            acc_pl: self.acc_pl.clone(),
            abl_pl: self.abl_pl.clone(),
            voc_pl: self.voc_pl.clone(),
            loc_pl: self.loc_pl.clone(),
            gender: self.gender,
        }
    }
}

impl Entry for NounRecord {
    open spec fn key(&self) -> Seq<char> {
        self.word@
    }

    fn word(&self) -> (r: &String) {
        &self.word
    }

    fn duplicate(&self) -> (r: Self) {
        self.clone()
    }
}

impl NounRecord {
    /// What the record stores for `case` and `number`.
    pub open spec fn spec_form(self, case: Case, number: Number) -> Seq<char> {
        match number {
            Number::Singular => match case {
                Case::Nom => self.nom_sg@,
                Case::Gen => self.gen_sg@,
                Case::Dat => self.dat_sg@,
                Case::Acc => self.acc_sg@,
                Case::Abl => self.abl_sg@,
                Case::Voc => self.voc_sg@,
                Case::Loc => self.loc_sg@,
            },
            Number::Plural => match case {
                Case::Nom => self.nom_pl@,
                Case::Gen => self.gen_pl@,
                Case::Dat => self.dat_pl@,
                Case::Acc => self.acc_pl@,
                Case::Abl => self.abl_pl@,
                Case::Voc => self.voc_pl@,
                Case::Loc => self.loc_pl@,
            },
        }
    }

    /// What the record offers for `case` and `number`, if anything. A locative
    /// that the record lacks is replaced by the ablative singular. A form
    /// that is then still empty or a hyphen is lacking.
    pub open spec fn spec_lookup(self, case: Case, number: Number) -> Option<Seq<char>> {
        let stored = self.spec_form(case, number);
        let form = if case == Case::Loc && is_blank(stored) {
            self.abl_sg@
        } else {
            stored
        };
        if is_blank(form) {
            None
        } else {
            Some(form)
        }
    }

    /// The stored form for `case` and `number`, as it stands.
    pub fn form(&self, case: &Case, number: &Number) -> (r: &String)
        ensures
            r@ == self.spec_form(*case, *number),
    {
        match number {
            Number::Singular => match case {
                Case::Nom => &self.nom_sg,
                Case::Gen => &self.gen_sg,
                Case::Dat => &self.dat_sg,
                Case::Acc => &self.acc_sg,
                Case::Abl => &self.abl_sg,
                Case::Voc => &self.voc_sg,
                Case::Loc => &self.loc_sg,
            },
            Number::Plural => match case {
                Case::Nom => &self.nom_pl,
                Case::Gen => &self.gen_pl,
                Case::Dat => &self.dat_pl,
                Case::Acc => &self.acc_pl,
                Case::Abl => &self.abl_pl,
                Case::Voc => &self.voc_pl,
                Case::Loc => &self.loc_pl,
            },
        }
    }

    /// The form that the record offers for `case` and `number`, or `None`
    /// where it lacks one.
    pub fn lookup(&self, case: &Case, number: &Number) -> (r: Option<&String>)
        ensures
            match r {
                Some(form) => self.spec_lookup(*case, *number) == Some(form@),
                None => self.spec_lookup(*case, *number).is_none(),
            },
    {
        let stored = self.form(case, number);
        let form = match case {
            Case::Loc => if blank(stored.as_str()) {
                &self.abl_sg
            } else {
                stored
            },
            _ => stored,
        };
        if blank(form.as_str()) {
            None
        } else {
            Some(form)
        }
    }
}

/// An adjective: its degrees and adverb, and its form for each gender,
/// number and case from the nominative to the ablative.
#[derive(Debug, Default)]
pub struct AdjectiveRecord {
    pub word: String,
    pub comparative: String,
    pub superlative: String,
    pub adverb: String,
    pub nom_sg_masc: String,
    pub gen_sg_masc: String,
    pub dat_sg_masc: String,
    pub acc_sg_masc: String,
    pub abl_sg_masc: String,
    pub nom_sg_fem: String,
    pub gen_sg_fem: String,
    pub dat_sg_fem: String,
    pub acc_sg_fem: String,
    pub abl_sg_fem: String,
    pub nom_sg_neut: String,
    pub gen_sg_neut: String,
    pub dat_sg_neut: String,
    pub acc_sg_neut: String,
    pub abl_sg_neut: String,
    pub nom_pl_masc: String,
    pub gen_pl_masc: String,
    pub dat_pl_masc: String,
    pub acc_pl_masc: String,
    pub abl_pl_masc: String,
    pub nom_pl_fem: String,
    pub gen_pl_fem: String,
    pub dat_pl_fem: String,
    pub acc_pl_fem: String,
    pub abl_pl_fem: String,
    pub nom_pl_neut: String,
    pub gen_pl_neut: String,
    pub dat_pl_neut: String,
    pub acc_pl_neut: String,
    pub abl_pl_neut: String,
}

impl Clone for AdjectiveRecord {
    fn clone(&self) -> (r: Self)
        ensures
            r == *self,
    {
        AdjectiveRecord {
            word: self.word.clone(),
            comparative: self.comparative.clone(),
            superlative: self.superlative.clone(),
            adverb: self.adverb.clone(),
            nom_sg_masc: self.nom_sg_masc.clone(),
            gen_sg_masc: self.gen_sg_masc.clone(),
            dat_sg_masc: self.dat_sg_masc.clone(),
            acc_sg_masc: self.acc_sg_masc.clone(),
            abl_sg_masc: self.abl_sg_masc.clone(),
            nom_sg_fem: self.nom_sg_fem.clone(),
            gen_sg_fem: self.gen_sg_fem.clone(),
            dat_sg_fem: self.dat_sg_fem.clone(),
            acc_sg_fem: self.acc_sg_fem.clone(),
            abl_sg_fem: self.abl_sg_fem.clone(),
            nom_sg_neut: self.nom_sg_neut.clone(),
            gen_sg_neut: self.gen_sg_neut.clone(),
            dat_sg_neut: self.dat_sg_neut.clone(),
            acc_sg_neut: self.acc_sg_neut.clone(),
            abl_sg_neut: self.abl_sg_neut.clone(),
            nom_pl_masc: self.nom_pl_masc.clone(),
            gen_pl_masc: self.gen_pl_masc.clone(),
            dat_pl_masc: self.dat_pl_masc.clone(),
            acc_pl_masc: self.acc_pl_masc.clone(),
            abl_pl_masc: self.abl_pl_masc.clone(),
            nom_pl_fem: self.nom_pl_fem.clone(),
            gen_pl_fem: self.gen_pl_fem.clone(),
            dat_pl_fem: self.dat_pl_fem.clone(),
            acc_pl_fem: self.acc_pl_fem.clone(),
            abl_pl_fem: self.abl_pl_fem.clone(),
            nom_pl_neut: self.nom_pl_neut.clone(),
            gen_pl_neut: self.gen_pl_neut.clone(),
            dat_pl_neut: self.dat_pl_neut.clone(),
            acc_pl_neut: self.acc_pl_neut.clone(),
            abl_pl_neut: self.abl_pl_neut.clone(),
        }
    }
}

impl Entry for AdjectiveRecord {
    open spec fn key(&self) -> Seq<char> {
        self.word@
    }

    fn word(&self) -> (r: &String) {
        &self.word
    }

    fn duplicate(&self) -> (r: Self) {
        self.clone()
    }
}

impl AdjectiveRecord {
    /// What the record stores for `case`, `number` and `gender`. It has no
    /// locative and no vocative: both take the ablative.
    pub open spec fn spec_form(self, case: Case, number: Number, gender: Gender) -> Seq<char> {
        match gender {
            Gender::Masculine => match number {
                Number::Singular => match case {
                    Case::Nom => self.nom_sg_masc@,
                    Case::Gen => self.gen_sg_masc@,
                    Case::Dat => self.dat_sg_masc@,
                    Case::Acc => self.acc_sg_masc@,
                    _ => self.abl_sg_masc@,
                },
                Number::Plural => match case {
                    Case::Nom => self.nom_pl_masc@,
                    Case::Gen => self.gen_pl_masc@,
                    Case::Dat => self.dat_pl_masc@,
                    Case::Acc => self.acc_pl_masc@,
                    _ => self.abl_pl_masc@,
                },
            },
            Gender::Feminine => match number {
                Number::Singular => match case {
                    Case::Nom => self.nom_sg_fem@,
                    Case::Gen => self.gen_sg_fem@,
                    Case::Dat => self.dat_sg_fem@,
                    Case::Acc => self.acc_sg_fem@,
                    _ => self.abl_sg_fem@,
                },
                Number::Plural => match case {
                    Case::Nom => self.nom_pl_fem@,
                    Case::Gen => self.gen_pl_fem@,
                    Case::Dat => self.dat_pl_fem@,
                    Case::Acc => self.acc_pl_fem@,
                    _ => self.abl_pl_fem@,
                },
            },
            Gender::Neuter => match number {
                Number::Singular => match case {
                    Case::Nom => self.nom_sg_neut@,
                    Case::Gen => self.gen_sg_neut@,
                    Case::Dat => self.dat_sg_neut@,
                    Case::Acc => self.acc_sg_neut@,
                    _ => self.abl_sg_neut@,
                },
                Number::Plural => match case {
                    Case::Nom => self.nom_pl_neut@,
                    Case::Gen => self.gen_pl_neut@,
                    Case::Dat => self.dat_pl_neut@,
                    Case::Acc => self.acc_pl_neut@,
                    _ => self.abl_pl_neut@,
                },
            },
        }
    }

    /// The stored form for `case`, `number` and `gender`, as it stands.
    pub fn form(&self, case: &Case, number: &Number, gender: &Gender) -> (r: &String)
        ensures
            r@ == self.spec_form(*case, *number, *gender),
    {
        match gender {
            Gender::Masculine => match number {
                Number::Singular => match case {
                    Case::Nom => &self.nom_sg_masc,
                    Case::Gen => &self.gen_sg_masc,
                    Case::Dat => &self.dat_sg_masc,
                    Case::Acc => &self.acc_sg_masc,
                    _ => &self.abl_sg_masc,
                },
                Number::Plural => match case {
                    Case::Nom => &self.nom_pl_masc,
                    Case::Gen => &self.gen_pl_masc,
                    Case::Dat => &self.dat_pl_masc,
                    Case::Acc => &self.acc_pl_masc,
                    _ => &self.abl_pl_masc,
                },
            },
            Gender::Feminine => match number {
                Number::Singular => match case {
                    Case::Nom => &self.nom_sg_fem,
                    Case::Gen => &self.gen_sg_fem,
                    Case::Dat => &self.dat_sg_fem,
                    Case::Acc => &self.acc_sg_fem,
                    _ => &self.abl_sg_fem,
                },
                Number::Plural => match case {
                    Case::Nom => &self.nom_pl_fem,
                    Case::Gen => &self.gen_pl_fem,
                    Case::Dat => &self.dat_pl_fem,
                    Case::Acc => &self.acc_pl_fem,
                    _ => &self.abl_pl_fem,
                },
            },
            Gender::Neuter => match number {
                Number::Singular => match case {
                    Case::Nom => &self.nom_sg_neut,
                    Case::Gen => &self.gen_sg_neut,
                    Case::Dat => &self.dat_sg_neut,
                    Case::Acc => &self.acc_sg_neut,
                    _ => &self.abl_sg_neut,
                },
                Number::Plural => match case {
                    Case::Nom => &self.nom_pl_neut,
                    Case::Gen => &self.gen_pl_neut,
                    Case::Dat => &self.dat_pl_neut,
                    Case::Acc => &self.acc_pl_neut,
                    _ => &self.abl_pl_neut,
                },
            },
        }
    }
}

/// A verb: its principal parts, and its indicative active forms for each
/// tense from the present to the pluperfect, number and person.
#[derive(Debug, Default)]
pub struct VerbRecord {
    pub word: String,
    pub canonical: String,
    pub present_infinitive: String,
    pub perfect_active: String,
    pub supine: String,
    pub indicative_active_present_singular_first: String,
    pub indicative_active_present_singular_second: String,
    pub indicative_active_present_singular_third: String,
    pub indicative_active_present_plural_first: String,
    pub indicative_active_present_plural_second: String,
    pub indicative_active_present_plural_third: String,
    pub indicative_active_imperfect_singular_first: String,
    pub indicative_active_imperfect_singular_second: String,
    pub indicative_active_imperfect_singular_third: String,
    pub indicative_active_imperfect_plural_first: String,
    pub indicative_active_imperfect_plural_second: String,
    pub indicative_active_imperfect_plural_third: String,
    pub indicative_active_future_singular_first: String,
    pub indicative_active_future_singular_second: String,
    pub indicative_active_future_singular_third: String,
    pub indicative_active_future_plural_first: String,
    pub indicative_active_future_plural_second: String,
    pub indicative_active_future_plural_third: String,
    pub indicative_active_perfect_singular_first: String,
    pub indicative_active_perfect_singular_second: String,
    pub indicative_active_perfect_singular_third: String,
    pub indicative_active_perfect_plural_first: String,
    pub indicative_active_perfect_plural_second: String,
    pub indicative_active_perfect_plural_third: String,
    pub indicative_active_pluperfect_singular_first: String,
    pub indicative_active_pluperfect_singular_second: String,
    pub indicative_active_pluperfect_singular_third: String,
    pub indicative_active_pluperfect_plural_first: String,
    pub indicative_active_pluperfect_plural_second: String,
    pub indicative_active_pluperfect_plural_third: String,
}

impl Clone for VerbRecord {
    fn clone(&self) -> (r: Self)
        ensures
            r == *self,
    {
        VerbRecord {
            word: self.word.clone(),
            canonical: self.canonical.clone(),
            present_infinitive: self.present_infinitive.clone(),
            perfect_active: self.perfect_active.clone(),
            supine: self.supine.clone(),
            indicative_active_present_singular_first: self.indicative_active_present_singular_first.clone(),
            indicative_active_present_singular_second: self.indicative_active_present_singular_second.clone(),
            indicative_active_present_singular_third: self.indicative_active_present_singular_third.clone(),
            indicative_active_present_plural_first: self.indicative_active_present_plural_first.clone(),
            indicative_active_present_plural_second: self.indicative_active_present_plural_second.clone(),
            indicative_active_present_plural_third: self.indicative_active_present_plural_third.clone(),
            indicative_active_imperfect_singular_first: self.indicative_active_imperfect_singular_first.clone(),
            indicative_active_imperfect_singular_second: self.indicative_active_imperfect_singular_second.clone(),
            indicative_active_imperfect_singular_third: self.indicative_active_imperfect_singular_third.clone(),
            indicative_active_imperfect_plural_first: self.indicative_active_imperfect_plural_first.clone(),
            indicative_active_imperfect_plural_second: self.indicative_active_imperfect_plural_second.clone(),
            indicative_active_imperfect_plural_third: self.indicative_active_imperfect_plural_third.clone(),
            indicative_active_future_singular_first: self.indicative_active_future_singular_first.clone(),
            indicative_active_future_singular_second: self.indicative_active_future_singular_second.clone(),
            indicative_active_future_singular_third: self.indicative_active_future_singular_third.clone(),
            indicative_active_future_plural_first: self.indicative_active_future_plural_first.clone(),
            indicative_active_future_plural_second: self.indicative_active_future_plural_second.clone(),
            indicative_active_future_plural_third: self.indicative_active_future_plural_third.clone(),
            indicative_active_perfect_singular_first: self.indicative_active_perfect_singular_first.clone(),
            indicative_active_perfect_singular_second: self.indicative_active_perfect_singular_second.clone(),
            indicative_active_perfect_singular_third: self.indicative_active_perfect_singular_third.clone(),
            indicative_active_perfect_plural_first: self.indicative_active_perfect_plural_first.clone(),
            indicative_active_perfect_plural_second: self.indicative_active_perfect_plural_second.clone(),
            indicative_active_perfect_plural_third: self.indicative_active_perfect_plural_third.clone(),
            indicative_active_pluperfect_singular_first: self.indicative_active_pluperfect_singular_first.clone(),
            indicative_active_pluperfect_singular_second: self.indicative_active_pluperfect_singular_second.clone(),
            indicative_active_pluperfect_singular_third: self.indicative_active_pluperfect_singular_third.clone(),
            indicative_active_pluperfect_plural_first: self.indicative_active_pluperfect_plural_first.clone(),
            indicative_active_pluperfect_plural_second: self.indicative_active_pluperfect_plural_second.clone(),
            indicative_active_pluperfect_plural_third: self.indicative_active_pluperfect_plural_third.clone(),
        }
    }
}

impl Entry for VerbRecord {
    open spec fn key(&self) -> Seq<char> {
        self.word@
    }

    fn word(&self) -> (r: &String) {
        &self.word
    }

    fn duplicate(&self) -> (r: Self) {
        self.clone()
    }
}

impl VerbRecord {
    /// What the record stores for `tense`, `number` and `person` in the
    /// indicative active. It has no future perfect.
    pub open spec fn spec_form(self, tense: Tense, number: Number, person: Person) -> Option<Seq<char>> {
        match tense {
            Tense::Present => match number {
                Number::Singular => match person {
                    Person::First => Some(self.indicative_active_present_singular_first@),
                    Person::Second => Some(self.indicative_active_present_singular_second@),
                    Person::Third => Some(self.indicative_active_present_singular_third@),
                },
                Number::Plural => match person {
                    Person::First => Some(self.indicative_active_present_plural_first@),
                    Person::Second => Some(self.indicative_active_present_plural_second@),
                    Person::Third => Some(self.indicative_active_present_plural_third@),
                },
            },
            Tense::Imperfect => match number {
                Number::Singular => match person {
                    Person::First => Some(self.indicative_active_imperfect_singular_first@),
                    Person::Second => Some(self.indicative_active_imperfect_singular_second@),
                    Person::Third => Some(self.indicative_active_imperfect_singular_third@),
                },
                Number::Plural => match person {
                    Person::First => Some(self.indicative_active_imperfect_plural_first@),
                    Person::Second => Some(self.indicative_active_imperfect_plural_second@),
                    Person::Third => Some(self.indicative_active_imperfect_plural_third@),
                },
            },
            Tense::Future => match number {
                Number::Singular => match person {
                    Person::First => Some(self.indicative_active_future_singular_first@),
                    Person::Second => Some(self.indicative_active_future_singular_second@),
                    Person::Third => Some(self.indicative_active_future_singular_third@),
                },
                Number::Plural => match person {
                    Person::First => Some(self.indicative_active_future_plural_first@),
                    Person::Second => Some(self.indicative_active_future_plural_second@),
                    Person::Third => Some(self.indicative_active_future_plural_third@),
                },
            },
            Tense::Perfect => match number {
                Number::Singular => match person {
                    Person::First => Some(self.indicative_active_perfect_singular_first@),
                    Person::Second => Some(self.indicative_active_perfect_singular_second@),
                    Person::Third => Some(self.indicative_active_perfect_singular_third@),
                },
                Number::Plural => match person {
                    Person::First => Some(self.indicative_active_perfect_plural_first@),
                    Person::Second => Some(self.indicative_active_perfect_plural_second@),
                    Person::Third => Some(self.indicative_active_perfect_plural_third@),
                },
            },
            Tense::Pluperfect => match number {
                Number::Singular => match person {
                    Person::First => Some(self.indicative_active_pluperfect_singular_first@),
                    Person::Second => Some(self.indicative_active_pluperfect_singular_second@),
                    Person::Third => Some(self.indicative_active_pluperfect_singular_third@),
                },
                Number::Plural => match person {
                    Person::First => Some(self.indicative_active_pluperfect_plural_first@),
                    Person::Second => Some(self.indicative_active_pluperfect_plural_second@),
                    Person::Third => Some(self.indicative_active_pluperfect_plural_third@),
                },
            },
            Tense::FuturePerfect => None,
        }
    }

    /// The stored form for `tense`, `number` and `person`, or `None` for
    /// the future perfect.
    pub fn form(&self, tense: &Tense, number: &Number, person: &Person) -> (r: Option<&String>)
        ensures
            match r {
                Some(form) => self.spec_form(*tense, *number, *person) == Some(form@),
                None => self.spec_form(*tense, *number, *person).is_none(),
            },
    {
        match tense {
            Tense::Present => match number {
                Number::Singular => match person {
                    Person::First => Some(&self.indicative_active_present_singular_first),
                    Person::Second => Some(&self.indicative_active_present_singular_second),
                    Person::Third => Some(&self.indicative_active_present_singular_third),
                },
                Number::Plural => match person {
                    Person::First => Some(&self.indicative_active_present_plural_first),
                    Person::Second => Some(&self.indicative_active_present_plural_second),
                    Person::Third => Some(&self.indicative_active_present_plural_third),
                },
            },
            Tense::Imperfect => match number {
                Number::Singular => match person {
                    Person::First => Some(&self.indicative_active_imperfect_singular_first),
                    Person::Second => Some(&self.indicative_active_imperfect_singular_second),
                    Person::Third => Some(&self.indicative_active_imperfect_singular_third),
                },
                Number::Plural => match person {
                    Person::First => Some(&self.indicative_active_imperfect_plural_first),
                    Person::Second => Some(&self.indicative_active_imperfect_plural_second),
                    Person::Third => Some(&self.indicative_active_imperfect_plural_third),
                },
            },
            Tense::Future => match number {
                Number::Singular => match person {
                    Person::First => Some(&self.indicative_active_future_singular_first),
                    Person::Second => Some(&self.indicative_active_future_singular_second),
                    Person::Third => Some(&self.indicative_active_future_singular_third),
                },
                Number::Plural => match person {
                    Person::First => Some(&self.indicative_active_future_plural_first),
                    Person::Second => Some(&self.indicative_active_future_plural_second),
                    Person::Third => Some(&self.indicative_active_future_plural_third),
                },
            },
            Tense::Perfect => match number {
                Number::Singular => match person {
                    Person::First => Some(&self.indicative_active_perfect_singular_first),
                    Person::Second => Some(&self.indicative_active_perfect_singular_second),
                    Person::Third => Some(&self.indicative_active_perfect_singular_third),
                },
                Number::Plural => match person {
                    Person::First => Some(&self.indicative_active_perfect_plural_first),
                    Person::Second => Some(&self.indicative_active_perfect_plural_second),
                    Person::Third => Some(&self.indicative_active_perfect_plural_third),
                },
            },
            Tense::Pluperfect => match number {
                Number::Singular => match person {
                    Person::First => Some(&self.indicative_active_pluperfect_singular_first),
                    Person::Second => Some(&self.indicative_active_pluperfect_singular_second),
                    Person::Third => Some(&self.indicative_active_pluperfect_singular_third),
                },
                Number::Plural => match person {
                    Person::First => Some(&self.indicative_active_pluperfect_plural_first),
                    Person::Second => Some(&self.indicative_active_pluperfect_plural_second),
                    Person::Third => Some(&self.indicative_active_pluperfect_plural_third),
                },
            },
            Tense::FuturePerfect => None,
        }
    }
}

} // verus!
