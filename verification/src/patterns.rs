//! The declension patterns, and the order in which a noun is held against
//! them.
//!
//! Each pattern is written twice: as a `spec` function, which the contracts of
//! this crate speak of, and as the value that the program uses. The second
//! is proved equal to the first.

use vstd::prelude::*;

use crate::categories::Gender;
use crate::endings::CaseEndings;

verus! {

/// First declension: nouns in -a, and the feminine of adjectives in -us.
pub open spec fn a_declension() -> CaseEndings {
    CaseEndings {
        gender: Gender::Feminine,
        nom_sg: "a", acc_sg: "am", gen_sg: "ae", dat_sg: "ae", abl_sg: "a",
        nom_pl: "ae", acc_pl: "as", gen_pl: "arum", dat_pl: "is", abl_pl: "is",
    }
}

/// The pattern [`a_declension`] as a value.
pub fn a_declension_endings() -> (r: CaseEndings)
    ensures
        r == a_declension(),
{
    CaseEndings {
        gender: Gender::Feminine,
        nom_sg: "a", acc_sg: "am", gen_sg: "ae", dat_sg: "ae", abl_sg: "a",
        nom_pl: "ae", acc_pl: "as", gen_pl: "arum", dat_pl: "is", abl_pl: "is",
    }
}

/// Second declension masculine: nouns and adjectives in -us.
pub open spec fn us_declension() -> CaseEndings {
    CaseEndings {
        gender: Gender::Masculine,
        nom_sg: "us", acc_sg: "um", gen_sg: "i", dat_sg: "o", abl_sg: "o",
        nom_pl: "i", acc_pl: "os", gen_pl: "orum", dat_pl: "is", abl_pl: "is",
    }
}

/// The pattern [`us_declension`] as a value.
pub fn us_declension_endings() -> (r: CaseEndings)
    ensures
        r == us_declension(),
{
    CaseEndings {
        gender: Gender::Masculine,
        nom_sg: "us", acc_sg: "um", gen_sg: "i", dat_sg: "o", abl_sg: "o",
        nom_pl: "i", acc_pl: "os", gen_pl: "orum", dat_pl: "is", abl_pl: "is",
    }
}

/// Third declension nouns in -o, -onis.
pub open spec fn o_declension() -> CaseEndings {
    CaseEndings {
        gender: Gender::Masculine,
        nom_sg: "o", acc_sg: "onem", gen_sg: "onis", dat_sg: "oni", abl_sg: "one",
        nom_pl: "ones", acc_pl: "ones", gen_pl: "onum", dat_pl: "onibus", abl_pl: "onibus",
    }
}

/// The pattern [`o_declension`] as a value.
pub fn o_declension_endings() -> (r: CaseEndings)
    ensures
        r == o_declension(),
{
    CaseEndings {
        gender: Gender::Masculine,
        nom_sg: "o", acc_sg: "onem", gen_sg: "onis", dat_sg: "oni", abl_sg: "one",
        nom_pl: "ones", acc_pl: "ones", gen_pl: "onum", dat_pl: "onibus", abl_pl: "onibus",
    }
}

/// Nouns in -on, -ontis.
pub open spec fn on_declension() -> CaseEndings {
    CaseEndings {
        gender: Gender::Masculine,
        nom_sg: "on", acc_sg: "ontem", gen_sg: "ontis", dat_sg: "onti", abl_sg: "onte",
        nom_pl: "ontes", acc_pl: "ontes", gen_pl: "ontum", dat_pl: "ontibus", abl_pl: "ontibus",
    }
}

/// The pattern [`on_declension`] as a value.
pub fn on_declension_endings() -> (r: CaseEndings)
    ensures
        r == on_declension(),
{
    CaseEndings {
        gender: Gender::Masculine,
        nom_sg: "on", acc_sg: "ontem", gen_sg: "ontis", dat_sg: "onti", abl_sg: "onte",
        nom_pl: "ontes", acc_pl: "ontes", gen_pl: "ontum", dat_pl: "ontibus", abl_pl: "ontibus",
    }
}

/// Neuter nouns in -ut, -itis.
pub open spec fn ut_declension() -> CaseEndings {
    CaseEndings {
        gender: Gender::Neuter,
        nom_sg: "ut", acc_sg: "ut", gen_sg: "itis", dat_sg: "iti", abl_sg: "ite",
        nom_pl: "ita", acc_pl: "ita", gen_pl: "itum", dat_pl: "itibus", abl_pl: "itibus",
    }
}

/// The pattern [`ut_declension`] as a value.
pub fn ut_declension_endings() -> (r: CaseEndings)
    ensures
        r == ut_declension(),
{
    CaseEndings {
        gender: Gender::Neuter,
        nom_sg: "ut", acc_sg: "ut", gen_sg: "itis", dat_sg: "iti", abl_sg: "ite",
        nom_pl: "ita", acc_pl: "ita", gen_pl: "itum", dat_pl: "itibus", abl_pl: "itibus",
    }
}

/// Nouns in -or, -oris, and the masculine and feminine of adjectives in -or.
pub open spec fn or_declension() -> CaseEndings {
    CaseEndings {
        gender: Gender::Masculine,
        nom_sg: "or", acc_sg: "orem", gen_sg: "oris", dat_sg: "ori", abl_sg: "ore",
        nom_pl: "ores", acc_pl: "ores", gen_pl: "orum", dat_pl: "oribus", abl_pl: "oribus",
    }
}

/// The pattern [`or_declension`] as a value.
pub fn or_declension_endings() -> (r: CaseEndings)
    ensures
        r == or_declension(),
{
    CaseEndings {
        gender: Gender::Masculine,
        nom_sg: "or", acc_sg: "orem", gen_sg: "oris", dat_sg: "ori", abl_sg: "ore",
        nom_pl: "ores", acc_pl: "ores", gen_pl: "orum", dat_pl: "oribus", abl_pl: "oribus",
    }
}

/// The neuter of adjectives in -or.
pub open spec fn or_adj_neuter() -> CaseEndings {
    CaseEndings {
        gender: Gender::Masculine,
        nom_sg: "or", acc_sg: "or", gen_sg: "oris", dat_sg: "ori", abl_sg: "ori",
        nom_pl: "oria", acc_pl: "oria", gen_pl: "orium", dat_pl: "oribus", abl_pl: "oribus",
    }
}

/// The pattern [`or_adj_neuter`] as a value.
pub fn or_adj_neuter_endings() -> (r: CaseEndings)
    ensures
        r == or_adj_neuter(),
{
    CaseEndings {
        gender: Gender::Masculine,
        nom_sg: "or", acc_sg: "or", gen_sg: "oris", dat_sg: "ori", abl_sg: "ori",
        nom_pl: "oria", acc_pl: "oria", gen_pl: "orium", dat_pl: "oribus", abl_pl: "oribus",
    }
}

/// Nouns in -os, -oris.
pub open spec fn os_declension() -> CaseEndings {
    CaseEndings {
        gender: Gender::Masculine,
        nom_sg: "os", acc_sg: "orem", gen_sg: "oris", dat_sg: "ori", abl_sg: "ore",
        nom_pl: "ores", acc_pl: "ores", gen_pl: "orum", dat_pl: "oribus", abl_pl: "oribus",
    }
}

/// The pattern [`os_declension`] as a value.
pub fn os_declension_endings() -> (r: CaseEndings)
    ensures
        r == os_declension(),
{
    CaseEndings {
        gender: Gender::Masculine,
        nom_sg: "os", acc_sg: "orem", gen_sg: "oris", dat_sg: "ori", abl_sg: "ore",
        nom_pl: "ores", acc_pl: "ores", gen_pl: "orum", dat_pl: "oribus", abl_pl: "oribus",
    }
}

/// The masculine and feminine of adjectives in -s with a stem in -t.
pub open spec fn s_declension() -> CaseEndings {
    CaseEndings {
        gender: Gender::Masculine,
        nom_sg: "s", acc_sg: "tem", gen_sg: "tis", dat_sg: "ti", abl_sg: "te",
        nom_pl: "tes", acc_pl: "tes", gen_pl: "tium", dat_pl: "tibus", abl_pl: "tibus",
    }
}

/// The pattern [`s_declension`] as a value.
pub fn s_declension_endings() -> (r: CaseEndings)
    ensures
        r == s_declension(),
{
    CaseEndings {
        gender: Gender::Masculine,
        nom_sg: "s", acc_sg: "tem", gen_sg: "tis", dat_sg: "ti", abl_sg: "te",
        nom_pl: "tes", acc_pl: "tes", gen_pl: "tium", dat_pl: "tibus", abl_pl: "tibus",
    }
}

/// The neuter of adjectives in -s with a stem in -t.
pub open spec fn s_adj_neuter() -> CaseEndings {
    CaseEndings {
        gender: Gender::Masculine,
        nom_sg: "s", acc_sg: "s", gen_sg: "tis", dat_sg: "ti", abl_sg: "te",
        nom_pl: "tia", acc_pl: "tia", gen_pl: "tium", dat_pl: "tibus", abl_pl: "tibus",
    }
}

/// The pattern [`s_adj_neuter`] as a value.
pub fn s_adj_neuter_endings() -> (r: CaseEndings)
    ensures
        r == s_adj_neuter(),
{
    CaseEndings {
        gender: Gender::Masculine,
        nom_sg: "s", acc_sg: "s", gen_sg: "tis", dat_sg: "ti", abl_sg: "te",
        nom_pl: "tia", acc_pl: "tia", gen_pl: "tium", dat_pl: "tibus", abl_pl: "tibus",
    }
}

/// Second declension neuter: nouns in -um, and the neuter of adjectives in -us.
pub open spec fn um_declension() -> CaseEndings {
    CaseEndings {
        gender: Gender::Neuter,
        nom_sg: "um", acc_sg: "um", gen_sg: "i", dat_sg: "o", abl_sg: "o",
        nom_pl: "a", acc_pl: "a", gen_pl: "orum", dat_pl: "is", abl_pl: "is",
    }
}

/// The pattern [`um_declension`] as a value.
pub fn um_declension_endings() -> (r: CaseEndings)
    ensures
        r == um_declension(),
{
    CaseEndings {
        gender: Gender::Neuter,
        nom_sg: "um", acc_sg: "um", gen_sg: "i", dat_sg: "o", abl_sg: "o",
        nom_pl: "a", acc_pl: "a", gen_pl: "orum", dat_pl: "is", abl_pl: "is",
    }
}

/// Fourth declension neuter nouns in -u.
pub open spec fn u_declension() -> CaseEndings {
    CaseEndings {
        gender: Gender::Neuter,
        nom_sg: "u", acc_sg: "u", gen_sg: "us", dat_sg: "ui", abl_sg: "u",
        nom_pl: "ua", acc_pl: "ua", gen_pl: "uum", dat_pl: "uibus", abl_pl: "uibus",
    }
}

/// The pattern [`u_declension`] as a value.
pub fn u_declension_endings() -> (r: CaseEndings)
    ensures
        r == u_declension(),
{
    CaseEndings {
        gender: Gender::Neuter,
        nom_sg: "u", acc_sg: "u", gen_sg: "us", dat_sg: "ui", abl_sg: "u",
        nom_pl: "ua", acc_pl: "ua", gen_pl: "uum", dat_pl: "uibus", abl_pl: "uibus",
    }
}

/// Nouns in -er, -eris.
pub open spec fn er_declension() -> CaseEndings {
    CaseEndings {
        gender: Gender::Masculine,
        nom_sg: "er", acc_sg: "er", gen_sg: "eris", dat_sg: "eri", abl_sg: "ere",
        nom_pl: "era", acc_pl: "era", gen_pl: "erum", dat_pl: "eribus", abl_pl: "eribus",
    }
}

/// The pattern [`er_declension`] as a value.
pub fn er_declension_endings() -> (r: CaseEndings)
    ensures
        r == er_declension(),
{
    CaseEndings {
        gender: Gender::Masculine,
        nom_sg: "er", acc_sg: "er", gen_sg: "eris", dat_sg: "eri", abl_sg: "ere",
        nom_pl: "era", acc_pl: "era", gen_pl: "erum", dat_pl: "eribus", abl_pl: "eribus",
    }
}

/// The masculine of adjectives in -er, whose endings follow the whole word.
pub open spec fn er_adjective_masc() -> CaseEndings {
    CaseEndings {
        gender: Gender::Masculine,
        nom_sg: "", acc_sg: "um", gen_sg: "i", dat_sg: "o", abl_sg: "o",
        nom_pl: "i", acc_pl: "os", gen_pl: "orum", dat_pl: "is", abl_pl: "is",
    }
}

/// The pattern [`er_adjective_masc`] as a value.
pub fn er_adjective_masc_endings() -> (r: CaseEndings)
    ensures
        r == er_adjective_masc(),
{
    CaseEndings {
        gender: Gender::Masculine,
        nom_sg: "", acc_sg: "um", gen_sg: "i", dat_sg: "o", abl_sg: "o",
        nom_pl: "i", acc_pl: "os", gen_pl: "orum", dat_pl: "is", abl_pl: "is",
    }
}

/// Neuter nouns in -al, -alis.
pub open spec fn al_declension() -> CaseEndings {
    CaseEndings {
        gender: Gender::Neuter,
        nom_sg: "al", acc_sg: "al", gen_sg: "alis", dat_sg: "ali", abl_sg: "ali",
        nom_pl: "alia", acc_pl: "alia", gen_pl: "alium", dat_pl: "alibus", abl_pl: "alibus",
    }
}

/// The pattern [`al_declension`] as a value.
pub fn al_declension_endings() -> (r: CaseEndings)
    ensures
        r == al_declension(),
{
    CaseEndings {
        gender: Gender::Neuter,
        nom_sg: "al", acc_sg: "al", gen_sg: "alis", dat_sg: "ali", abl_sg: "ali",
        nom_pl: "alia", acc_pl: "alia", gen_pl: "alium", dat_pl: "alibus", abl_pl: "alibus",
    }
}

/// Neuter nouns in -ar, -aris.
pub open spec fn ar_declension() -> CaseEndings {
    CaseEndings {
        gender: Gender::Neuter,
        nom_sg: "ar", acc_sg: "ar", gen_sg: "aris", dat_sg: "ari", abl_sg: "ari",
        nom_pl: "aria", acc_pl: "aria", gen_pl: "arium", dat_pl: "aribus", abl_pl: "aribus",
    }
}

/// The pattern [`ar_declension`] as a value.
pub fn ar_declension_endings() -> (r: CaseEndings)
    ensures
        r == ar_declension(),
{
    CaseEndings {
        gender: Gender::Neuter,
        nom_sg: "ar", acc_sg: "ar", gen_sg: "aris", dat_sg: "ari", abl_sg: "ari",
        nom_pl: "aria", acc_pl: "aria", gen_pl: "arium", dat_pl: "aribus", abl_pl: "aribus",
    }
}

/// Feminine nouns in -as, -atis.
pub open spec fn as_declension() -> CaseEndings {
    CaseEndings {
        gender: Gender::Feminine,
        nom_sg: "as", acc_sg: "atem", gen_sg: "atis", dat_sg: "ati", abl_sg: "ate",
        nom_pl: "ates", acc_pl: "ates", gen_pl: "atum", dat_pl: "atibus", abl_pl: "atibus",
    }
}

/// The pattern [`as_declension`] as a value.
pub fn as_declension_endings() -> (r: CaseEndings)
    ensures
        r == as_declension(),
{
    CaseEndings {
        gender: Gender::Feminine,
        nom_sg: "as", acc_sg: "atem", gen_sg: "atis", dat_sg: "ati", abl_sg: "ate",
        nom_pl: "ates", acc_pl: "ates", gen_pl: "atum", dat_pl: "atibus", abl_pl: "atibus",
    }
}

/// Feminine nouns in -ax, -acis.
pub open spec fn ax_declension() -> CaseEndings {
    CaseEndings {
        gender: Gender::Feminine,
        nom_sg: "ax", acc_sg: "acem", gen_sg: "acis", dat_sg: "aci", abl_sg: "ace",
        nom_pl: "aces", acc_pl: "aces", gen_pl: "acum", dat_pl: "acibus", abl_pl: "acibus",
    }
}

/// The pattern [`ax_declension`] as a value.
pub fn ax_declension_endings() -> (r: CaseEndings)
    ensures
        r == ax_declension(),
{
    CaseEndings {
        gender: Gender::Feminine,
        nom_sg: "ax", acc_sg: "acem", gen_sg: "acis", dat_sg: "aci", abl_sg: "ace",
        nom_pl: "aces", acc_pl: "aces", gen_pl: "acum", dat_pl: "acibus", abl_pl: "acibus",
    }
}

/// Feminine nouns in -ix, -icis.
pub open spec fn ix_declension() -> CaseEndings {
    CaseEndings {
        gender: Gender::Feminine,
        nom_sg: "ix", acc_sg: "icem", gen_sg: "icis", dat_sg: "ici", abl_sg: "ice",
        nom_pl: "ices", acc_pl: "ices", gen_pl: "icum", dat_pl: "icibus", abl_pl: "icibus",
    }
}

/// The pattern [`ix_declension`] as a value.
pub fn ix_declension_endings() -> (r: CaseEndings)
    ensures
        r == ix_declension(),
{
    CaseEndings {
        gender: Gender::Feminine,
        nom_sg: "ix", acc_sg: "icem", gen_sg: "icis", dat_sg: "ici", abl_sg: "ice",
        nom_pl: "ices", acc_pl: "ices", gen_pl: "icum", dat_pl: "icibus", abl_pl: "icibus",
    }
}

/// Feminine nouns in -yx, -ycis.
pub open spec fn yx_declension() -> CaseEndings {
    CaseEndings {
        gender: Gender::Feminine,
        nom_sg: "yx", acc_sg: "ycem", gen_sg: "ycis", dat_sg: "yci", abl_sg: "yce",
        nom_pl: "yces", acc_pl: "yces", gen_pl: "ycum", dat_pl: "ycibus", abl_pl: "ycibus",
    }
}

/// The pattern [`yx_declension`] as a value.
pub fn yx_declension_endings() -> (r: CaseEndings)
    ensures
        r == yx_declension(),
{
    CaseEndings {
        gender: Gender::Feminine,
        nom_sg: "yx", acc_sg: "ycem", gen_sg: "ycis", dat_sg: "yci", abl_sg: "yce",
        nom_pl: "yces", acc_pl: "yces", gen_pl: "ycum", dat_pl: "ycibus", abl_pl: "ycibus",
    }
}

/// Nouns in -ys, -ydis.
pub open spec fn ys_declension() -> CaseEndings {
    CaseEndings {
        gender: Gender::Masculine,
        nom_sg: "ys", acc_sg: "ydem", gen_sg: "ydis", dat_sg: "ydi", abl_sg: "yde",
        nom_pl: "ydes", acc_pl: "ydes", gen_pl: "ydum", dat_pl: "ydibus", abl_pl: "ydibus",
    }
}

/// The pattern [`ys_declension`] as a value.
pub fn ys_declension_endings() -> (r: CaseEndings)
    ensures
        r == ys_declension(),
{
    CaseEndings {
        gender: Gender::Masculine,
        nom_sg: "ys", acc_sg: "ydem", gen_sg: "ydis", dat_sg: "ydi", abl_sg: "yde",
        nom_pl: "ydes", acc_pl: "ydes", gen_pl: "ydum", dat_pl: "ydibus", abl_pl: "ydibus",
    }
}

/// Feminine nouns in -ux, -ucis.
pub open spec fn ux_declension() -> CaseEndings {
    CaseEndings {
        gender: Gender::Feminine,
        nom_sg: "ux", acc_sg: "ucem", gen_sg: "ucis", dat_sg: "uci", abl_sg: "uce",
        nom_pl: "uces", acc_pl: "uces", gen_pl: "ucum", dat_pl: "ucibus", abl_pl: "ucibus",
    }
}

/// The pattern [`ux_declension`] as a value.
pub fn ux_declension_endings() -> (r: CaseEndings)
    ensures
        r == ux_declension(),
{
    CaseEndings {
        gender: Gender::Feminine,
        nom_sg: "ux", acc_sg: "ucem", gen_sg: "ucis", dat_sg: "uci", abl_sg: "uce",
        nom_pl: "uces", acc_pl: "uces", gen_pl: "ucum", dat_pl: "ucibus", abl_pl: "ucibus",
    }
}

/// Feminine nouns in -nx, -ngis.
pub open spec fn nx_declension() -> CaseEndings {
    CaseEndings {
        gender: Gender::Feminine,
        nom_sg: "nx", acc_sg: "ngem", gen_sg: "ngis", dat_sg: "ngi", abl_sg: "nge",
        nom_pl: "nges", acc_pl: "nges", gen_pl: "ngium", dat_pl: "ngibus", abl_pl: "ngibus",
    }
}

/// The pattern [`nx_declension`] as a value.
pub fn nx_declension_endings() -> (r: CaseEndings)
    ensures
        r == nx_declension(),
{
    CaseEndings {
        gender: Gender::Feminine,
        nom_sg: "nx", acc_sg: "ngem", gen_sg: "ngis", dat_sg: "ngi", abl_sg: "nge",
        nom_pl: "nges", acc_pl: "nges", gen_pl: "ngium", dat_pl: "ngibus", abl_pl: "ngibus",
    }
}

/// Third declension nouns in -is.
pub open spec fn is_declension() -> CaseEndings {
    CaseEndings {
        gender: Gender::Masculine,
        nom_sg: "is", acc_sg: "em", gen_sg: "is", dat_sg: "i", abl_sg: "e",
        nom_pl: "es", acc_pl: "es", gen_pl: "ium", dat_pl: "ibus", abl_pl: "ibus",
    }
}

/// The pattern [`is_declension`] as a value.
pub fn is_declension_endings() -> (r: CaseEndings)
    ensures
        r == is_declension(),
{
    CaseEndings {
        gender: Gender::Masculine,
        nom_sg: "is", acc_sg: "em", gen_sg: "is", dat_sg: "i", abl_sg: "e",
        nom_pl: "es", acc_pl: "es", gen_pl: "ium", dat_pl: "ibus", abl_pl: "ibus",
    }
}

/// The masculine and feminine of adjectives in -is.
pub open spec fn is_adjective_masc() -> CaseEndings {
    CaseEndings {
        gender: Gender::Masculine,
        nom_sg: "is", acc_sg: "em", gen_sg: "is", dat_sg: "i", abl_sg: "i",
        nom_pl: "es", acc_pl: "es", gen_pl: "ium", dat_pl: "ibus", abl_pl: "ibus",
    }
}

/// The pattern [`is_adjective_masc`] as a value.
pub fn is_adjective_masc_endings() -> (r: CaseEndings)
    ensures
        r == is_adjective_masc(),
{
    CaseEndings {
        gender: Gender::Masculine,
        nom_sg: "is", acc_sg: "em", gen_sg: "is", dat_sg: "i", abl_sg: "i",
        nom_pl: "es", acc_pl: "es", gen_pl: "ium", dat_pl: "ibus", abl_pl: "ibus",
    }
}

/// Nouns in -ex, -icis.
pub open spec fn ex_declension() -> CaseEndings {
    CaseEndings {
        gender: Gender::Masculine,
        nom_sg: "ex", acc_sg: "icem", gen_sg: "icis", dat_sg: "ici", abl_sg: "ice",
        nom_pl: "ices", acc_pl: "ices", gen_pl: "icum", dat_pl: "icibus", abl_pl: "icibus",
    }
}

/// The pattern [`ex_declension`] as a value.
pub fn ex_declension_endings() -> (r: CaseEndings)
    ensures
        r == ex_declension(),
{
    CaseEndings {
        gender: Gender::Masculine,
        nom_sg: "ex", acc_sg: "icem", gen_sg: "icis", dat_sg: "ici", abl_sg: "ice",
        nom_pl: "ices", acc_pl: "ices", gen_pl: "icum", dat_pl: "icibus", abl_pl: "icibus",
    }
}

/// The masculine and feminine of adjectives in -ex.
pub open spec fn ex_adjective_masc() -> CaseEndings {
    CaseEndings {
        gender: Gender::Masculine,
        nom_sg: "ex", acc_sg: "icem", gen_sg: "icis", dat_sg: "ici", abl_sg: "ici",
        nom_pl: "ices", acc_pl: "ices", gen_pl: "icium", dat_pl: "icibus", abl_pl: "icibus",
    }
}

/// The pattern [`ex_adjective_masc`] as a value.
pub fn ex_adjective_masc_endings() -> (r: CaseEndings)
    ensures
        r == ex_adjective_masc(),
{
    CaseEndings {
        gender: Gender::Masculine,
        nom_sg: "ex", acc_sg: "icem", gen_sg: "icis", dat_sg: "ici", abl_sg: "ici",
        nom_pl: "ices", acc_pl: "ices", gen_pl: "icium", dat_pl: "icibus", abl_pl: "icibus",
    }
}

/// The neuter of adjectives in -ex.
pub open spec fn ex_adjective_neut() -> CaseEndings {
    CaseEndings {
        gender: Gender::Masculine,
        nom_sg: "ex", acc_sg: "ex", gen_sg: "icis", dat_sg: "ici", abl_sg: "ici",
        nom_pl: "icia", acc_pl: "icia", gen_pl: "icium", dat_pl: "icibus", abl_pl: "icibus",
    }
}

/// The pattern [`ex_adjective_neut`] as a value.
pub fn ex_adjective_neut_endings() -> (r: CaseEndings)
    ensures
        r == ex_adjective_neut(),
{
    CaseEndings {
        gender: Gender::Masculine,
        nom_sg: "ex", acc_sg: "ex", gen_sg: "icis", dat_sg: "ici", abl_sg: "ici",
        nom_pl: "icia", acc_pl: "icia", gen_pl: "icium", dat_pl: "icibus", abl_pl: "icibus",
    }
}

/// Neuter nouns in -e, and the neuter of adjectives in -is.
pub open spec fn e_declension() -> CaseEndings {
    CaseEndings {
        gender: Gender::Neuter,
        nom_sg: "e", acc_sg: "e", gen_sg: "is", dat_sg: "i", abl_sg: "i",
        nom_pl: "ia", acc_pl: "ia", gen_pl: "ium", dat_pl: "ibus", abl_pl: "ibus",
    }
}

/// The pattern [`e_declension`] as a value.
pub fn e_declension_endings() -> (r: CaseEndings)
    ensures
        r == e_declension(),
{
    CaseEndings {
        gender: Gender::Neuter,
        nom_sg: "e", acc_sg: "e", gen_sg: "is", dat_sg: "i", abl_sg: "i",
        nom_pl: "ia", acc_pl: "ia", gen_pl: "ium", dat_pl: "ibus", abl_pl: "ibus",
    }
}

/// Neuter nouns in -en, -inis.
pub open spec fn en_declension() -> CaseEndings {
    CaseEndings {
        gender: Gender::Neuter,
        nom_sg: "en", acc_sg: "en", gen_sg: "inis", dat_sg: "ini", abl_sg: "ine",
        nom_pl: "ina", acc_pl: "ina", gen_pl: "inum", dat_pl: "inibus", abl_pl: "inibus",
    }
}

/// The pattern [`en_declension`] as a value.
pub fn en_declension_endings() -> (r: CaseEndings)
    ensures
        r == en_declension(),
{
    CaseEndings {
        gender: Gender::Neuter,
        nom_sg: "en", acc_sg: "en", gen_sg: "inis", dat_sg: "ini", abl_sg: "ine",
        nom_pl: "ina", acc_pl: "ina", gen_pl: "inum", dat_pl: "inibus", abl_pl: "inibus",
    }
}

/// Fifth declension nouns in -es.
pub open spec fn es_declension() -> CaseEndings {
    CaseEndings {
        gender: Gender::Feminine,
        nom_sg: "es", acc_sg: "em", gen_sg: "ei", dat_sg: "ei", abl_sg: "e",
        nom_pl: "es", acc_pl: "es", gen_pl: "erum", dat_pl: "ebus", abl_pl: "ebus",
    }
}

/// The pattern [`es_declension`] as a value.
pub fn es_declension_endings() -> (r: CaseEndings)
    ensures
        r == es_declension(),
{
    CaseEndings {
        gender: Gender::Feminine,
        nom_sg: "es", acc_sg: "em", gen_sg: "ei", dat_sg: "ei", abl_sg: "e",
        nom_pl: "es", acc_pl: "es", gen_pl: "erum", dat_pl: "ebus", abl_pl: "ebus",
    }
}

/// The masculine and feminine of adjectives in -des.
pub open spec fn es_adj_masc() -> CaseEndings {
    CaseEndings {
        gender: Gender::Feminine,
        nom_sg: "es", acc_sg: "em", gen_sg: "is", dat_sg: "i", abl_sg: "e",
        nom_pl: "es", acc_pl: "es", gen_pl: "um", dat_pl: "ibus", abl_pl: "ibus",
    }
}

/// The pattern [`es_adj_masc`] as a value.
pub fn es_adj_masc_endings() -> (r: CaseEndings)
    ensures
        r == es_adj_masc(),
{
    CaseEndings {
        gender: Gender::Feminine,
        nom_sg: "es", acc_sg: "em", gen_sg: "is", dat_sg: "i", abl_sg: "e",
        nom_pl: "es", acc_pl: "es", gen_pl: "um", dat_pl: "ibus", abl_pl: "ibus",
    }
}

/// The neuter of adjectives in -des.
pub open spec fn es_adj_neut() -> CaseEndings {
    CaseEndings {
        gender: Gender::Feminine,
        nom_sg: "es", acc_sg: "em", gen_sg: "is", dat_sg: "i", abl_sg: "e",
        nom_pl: "es", acc_pl: "es", gen_pl: "um", dat_pl: "ibus", abl_pl: "ibus",
    }
}

/// The pattern [`es_adj_neut`] as a value.
pub fn es_adj_neut_endings() -> (r: CaseEndings)
    ensures
        r == es_adj_neut(),
{
    CaseEndings {
        gender: Gender::Feminine,
        nom_sg: "es", acc_sg: "em", gen_sg: "is", dat_sg: "i", abl_sg: "e",
        nom_pl: "es", acc_pl: "es", gen_pl: "um", dat_pl: "ibus", abl_pl: "ibus",
    }
}

/// Neuter nouns in -ma, -matis.
pub open spec fn ma_declension() -> CaseEndings {
    CaseEndings {
        gender: Gender::Neuter,
        nom_sg: "ma", acc_sg: "ma", gen_sg: "matis", dat_sg: "mati", abl_sg: "mate",
        nom_pl: "mata", acc_pl: "mata", gen_pl: "matum", dat_pl: "matibus", abl_pl: "matibus",
    }
}

/// The pattern [`ma_declension`] as a value.
pub fn ma_declension_endings() -> (r: CaseEndings)
    ensures
        r == ma_declension(),
{
    CaseEndings {
        gender: Gender::Neuter,
        nom_sg: "ma", acc_sg: "ma", gen_sg: "matis", dat_sg: "mati", abl_sg: "mate",
        nom_pl: "mata", acc_pl: "mata", gen_pl: "matum", dat_pl: "matibus", abl_pl: "matibus",
    }
}

/// The patterns with an ending of two letters, in the order in which a noun
/// is held against them. They come before those of one letter.
pub open spec fn two_letter_patterns() -> Seq<CaseEndings> {
    seq![
        al_declension(),
        ar_declension(),
        ar_declension(),
        as_declension(),
        ax_declension(),
        en_declension(),
        er_declension(),
        es_declension(),
        ex_declension(),
        on_declension(),
        or_declension(),
        os_declension(),
        um_declension(),
        us_declension(),
        ut_declension(),
        ux_declension(),
        ma_declension(),
        yx_declension(),
        ys_declension(),
        nx_declension(),
        ma_declension(),
        is_declension(),
        ix_declension(),
    ]
}

/// The patterns with an ending of one letter, in the order in which a noun
/// is held against them.
pub open spec fn one_letter_patterns() -> Seq<CaseEndings> {
    seq![
        a_declension(),
        e_declension(),
        o_declension(),
        u_declension(),
    ]
}

/// Every pattern that a noun is held against: the first that fits decides.
pub open spec fn noun_patterns() -> Seq<CaseEndings> {
    two_letter_patterns() + one_letter_patterns()
}

/// The patterns of [`two_letter_patterns`], in their order.
pub fn two_letter_endings() -> (r: Vec<CaseEndings>)
    ensures
        r@ == two_letter_patterns(),
{
    let r = vec![
        al_declension_endings(),
        ar_declension_endings(),
        ar_declension_endings(),
        as_declension_endings(),
        ax_declension_endings(),
        en_declension_endings(),
        er_declension_endings(),
        es_declension_endings(),
        ex_declension_endings(),
        on_declension_endings(),
        or_declension_endings(),
        os_declension_endings(),
        um_declension_endings(),
        us_declension_endings(),
        ut_declension_endings(),
        ux_declension_endings(),
        ma_declension_endings(),
        yx_declension_endings(),
        ys_declension_endings(),
        nx_declension_endings(),
        ma_declension_endings(),
        is_declension_endings(),
        ix_declension_endings(),
    ];
    assert(r@ =~= two_letter_patterns());
    r
}

/// The patterns of [`one_letter_patterns`], in their order.
pub fn one_letter_endings() -> (r: Vec<CaseEndings>)
    ensures
        r@ == one_letter_patterns(),
{
    let r = vec![
        a_declension_endings(),
        e_declension_endings(),
        o_declension_endings(),
        u_declension_endings(),
    ];
    assert(r@ =~= one_letter_patterns());
    r
}

/// The patterns of [`noun_patterns`], in their order.
pub fn noun_endings() -> (r: Vec<CaseEndings>)
    ensures
        r@ == noun_patterns(),
{
    let mut r = two_letter_endings();
    let mut rest = one_letter_endings();
    r.append(&mut rest);
    r
}

} // verus!
