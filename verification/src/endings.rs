//! A declension pattern: one ending for each case and number.

use vstd::prelude::*;

use crate::categories::{Case, Gender, Number};

verus! {

/// The endings of one declension pattern, with the gender that a noun of
/// this pattern is taken to have. An ending may be empty.
#[derive(Clone, Copy, Debug, PartialEq)]
pub struct CaseEndings {
    pub gender: Gender,
    pub nom_sg: &'static str,
    pub acc_sg: &'static str,
    pub gen_sg: &'static str,
    pub dat_sg: &'static str,
    pub abl_sg: &'static str,
    pub nom_pl: &'static str,
    pub acc_pl: &'static str,
    pub gen_pl: &'static str,
    pub dat_pl: &'static str,
    pub abl_pl: &'static str,
}

/// The case whose ending a pattern stores for `case`: the locative takes the
/// ablative's, the vocative the nominative's.
pub open spec fn stored_case(case: Case) -> Case {
    match case {
        Case::Loc => Case::Abl,
        Case::Voc => Case::Nom,
        other => other,
    }
}

impl CaseEndings {
    /// The ending for `case` and `number`.
    pub open spec fn spec_ending(self, case: Case, number: Number) -> &'static str {
        match number {
            Number::Singular => match stored_case(case) {
                Case::Nom => self.nom_sg,
                Case::Acc => self.acc_sg,
                Case::Gen => self.gen_sg,
                Case::Dat => self.dat_sg,
                _ => self.abl_sg,
            },
            Number::Plural => match stored_case(case) {
                Case::Nom => self.nom_pl,
                Case::Acc => self.acc_pl,
                Case::Gen => self.gen_pl,
                Case::Dat => self.dat_pl,
                _ => self.abl_pl,
            },
        }
    }

    /// The ending for `case` and `number`. Every pair has one.
    pub fn ending(&self, case: &Case, number: &Number) -> (r: &'static str)
        ensures
            r == self.spec_ending(*case, *number),
    {
        match number {
            Number::Singular => match case {
                Case::Nom => self.nom_sg,
                Case::Acc => self.acc_sg,
                Case::Gen => self.gen_sg,
                Case::Dat => self.dat_sg,
                Case::Abl => self.abl_sg,
                Case::Loc => self.abl_sg,
                Case::Voc => self.nom_sg,
            },
            Number::Plural => match case {
                Case::Nom => self.nom_pl,
                Case::Acc => self.acc_pl,
                Case::Gen => self.gen_pl,
                Case::Dat => self.dat_pl,
                Case::Abl => self.abl_pl,
                Case::Loc => self.abl_pl,
                Case::Voc => self.nom_pl,
            },
        }
    }
}

/// In every pattern the locative has the ablative's ending and the vocative
/// the nominative's.
pub proof fn lemma_locative_and_vocative_endings(table: CaseEndings, number: Number)
    ensures
        table.spec_ending(Case::Loc, number) == table.spec_ending(Case::Abl, number),
        table.spec_ending(Case::Voc, number) == table.spec_ending(Case::Nom, number),
{
}

} // verus!
