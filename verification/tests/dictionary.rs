use botanical_latin::categories::pluralia_from_code;
use botanical_latin::lexicon::index_records;
use botanical_latin::{
    AdjectiveRecord, Case, ComplexNoun, Gender, Latin, Mood, NotImplemented, NounRecord, Number,
    Person, Tense, UnknownCode, VerbRecord, Voice,
};

fn lorica() -> NounRecord {
    NounRecord {
        word: "lorica".into(),
        nom_sg: "lorica".into(),
        gen_sg: "loricae".into(),
        dat_sg: "loricae".into(),
        acc_sg: "loricam".into(),
        abl_sg: "lorica".into(),
        voc_sg: "lorica".into(),
        loc_sg: "-".into(),
        nom_pl: "loricae".into(),
        gen_pl: "loricarum".into(),
        dat_pl: "loricis".into(),
        acc_pl: "loricas".into(),
        abl_pl: "loricis".into(),
        voc_pl: "loricae".into(),
        loc_pl: "".into(),
        gender: Gender::Feminine,
    }
}

fn manica() -> NounRecord {
    NounRecord {
        word: "manica".into(),
        nom_sg: "manica".into(),
        gen_sg: "manicae".into(),
        abl_sg: "manica".into(),
        gen_pl: "manicarum".into(),
        gender: Gender::Feminine,
        ..Default::default()
    }
}

/// A record that disagrees with what the ending of the word would give.
fn vulgus() -> NounRecord {
    NounRecord {
        word: "vulgus".into(),
        nom_sg: "vulgus".into(),
        gen_sg: "vulgi".into(),
        acc_sg: "vulgus".into(),
        abl_sg: "vulgo".into(),
        loc_sg: "vulgi".into(),
        gen_pl: "-".into(),
        gender: Gender::Neuter,
        ..Default::default()
    }
}

fn nihil() -> NounRecord {
    NounRecord { word: "nihil".into(), nom_sg: "nihil".into(), gender: Gender::Neuter, ..Default::default() }
}

fn hamatus() -> AdjectiveRecord {
    AdjectiveRecord {
        word: "hamatus".into(),
        nom_sg_masc: "hamatus".into(),
        gen_sg_masc: "hamati".into(),
        dat_sg_masc: "hamato".into(),
        acc_sg_masc: "hamatum".into(),
        abl_sg_masc: "hamato".into(),
        nom_sg_fem: "hamata".into(),
        gen_sg_fem: "hamatae".into(),
        dat_sg_fem: "hamatae".into(),
        acc_sg_fem: "hamatam".into(),
        abl_sg_fem: "hamata".into(),
        nom_sg_neut: "hamatum".into(),
        gen_sg_neut: "hamati".into(),
        dat_sg_neut: "hamato".into(),
        acc_sg_neut: "hamatum".into(),
        abl_sg_neut: "hamato".into(),
        nom_pl_masc: "hamati".into(),
        gen_pl_masc: "hamatorum".into(),
        dat_pl_masc: "hamatis".into(),
        acc_pl_masc: "hamatos".into(),
        abl_pl_masc: "hamatis m".into(),
        nom_pl_fem: "hamatae".into(),
        gen_pl_fem: "hamatarum".into(),
        dat_pl_fem: "hamatis".into(),
        acc_pl_fem: "hamatas".into(),
        abl_pl_fem: "hamatis f".into(),
        nom_pl_neut: "hamata".into(),
        gen_pl_neut: "hamatorum".into(),
        dat_pl_neut: "hamatis".into(),
        acc_pl_neut: "hamata".into(),
        abl_pl_neut: "hamatis n".into(),
        ..Default::default()
    }
}

fn grandis() -> AdjectiveRecord {
    AdjectiveRecord {
        word: "grandis".into(),
        nom_sg_fem: "grandis".into(),
        abl_sg_fem: "grandi".into(),
        abl_sg_neut: "grandi n".into(),
        gen_pl_fem: "grandium".into(),
        ..Default::default()
    }
}

fn amo() -> VerbRecord {
    VerbRecord {
        word: "amo".into(),
        canonical: "amo".into(),
        present_infinitive: "amare".into(),
        perfect_active: "amavi".into(),
        supine: "amatum".into(),
        indicative_active_present_singular_first: "amo".into(),
        indicative_active_present_singular_second: "amas".into(),
        indicative_active_present_singular_third: "amat".into(),
        indicative_active_present_plural_first: "amamus".into(),
        indicative_active_present_plural_second: "amatis".into(),
        indicative_active_present_plural_third: "amant".into(),
        indicative_active_imperfect_singular_first: "amabam".into(),
        indicative_active_imperfect_plural_third: "amabant".into(),
        indicative_active_future_singular_second: "amabis".into(),
        indicative_active_future_plural_first: "amabimus".into(),
        indicative_active_perfect_singular_third: "amavit".into(),
        indicative_active_perfect_plural_second: "amavistis".into(),
        indicative_active_pluperfect_singular_first: "amaveram".into(),
        indicative_active_pluperfect_plural_third: "amaverant".into(),
        ..Default::default()
    }
}

fn latin() -> Latin {
    Latin::new(
        vec![lorica(), manica(), vulgus(), nihil()],
        vec![hamatus(), grandis()],
        vec![amo()],
    )
}

#[test]
fn noun_from_the_dictionary() {
    let l = latin();
    assert_eq!(l.noun("lorica", &Case::Gen, &Number::Plural), ("loricarum".to_string(), Gender::Feminine));
    assert_eq!(l.noun("lorica", &Case::Acc, &Number::Singular), ("loricam".to_string(), Gender::Feminine));
    assert_eq!(l.noun("lorica", &Case::Voc, &Number::Plural), ("loricae".to_string(), Gender::Feminine));
    assert_eq!(l.noun("lorica", &Case::Dat, &Number::Plural), ("loricis".to_string(), Gender::Feminine));
}

#[test]
fn noun_dictionary_comes_before_guess() {
    let l = latin();
    let stored = l.noun("vulgus", &Case::Acc, &Number::Singular);
    let guessed = Latin::guess_noun("vulgus", &Case::Acc, &Number::Singular);
    assert_eq!(stored, ("vulgus".to_string(), Gender::Neuter));
    assert_eq!(guessed, ("vulgum".to_string(), Gender::Masculine));
}

#[test]
fn noun_blank_form_is_guessed() {
    let l = latin();
    assert_eq!(l.noun("vulgus", &Case::Gen, &Number::Plural), ("vulgorum".to_string(), Gender::Masculine));
    assert_eq!(l.noun("vulgus", &Case::Dat, &Number::Singular), ("vulgo".to_string(), Gender::Masculine));
    assert_eq!(l.noun("manica", &Case::Acc, &Number::Plural), ("manicas".to_string(), Gender::Feminine));
}

#[test]
fn noun_absent_word_is_guessed() {
    let l = latin();
    assert_eq!(l.noun("hibiscus", &Case::Gen, &Number::Plural), ("hibiscorum".to_string(), Gender::Masculine));
    assert_eq!(l.noun("xyz", &Case::Gen, &Number::Plural), ("xyz".to_string(), Gender::Masculine));
}

#[test]
fn noun_locative_falls_back_to_ablative_singular() {
    let l = latin();
    assert_eq!(l.noun("lorica", &Case::Loc, &Number::Singular), l.noun("lorica", &Case::Abl, &Number::Singular));
    assert_eq!(l.noun("lorica", &Case::Loc, &Number::Singular), ("lorica".to_string(), Gender::Feminine));
    assert_eq!(l.noun("manica", &Case::Loc, &Number::Singular), l.noun("manica", &Case::Abl, &Number::Singular));
    assert_eq!(l.noun("nihil", &Case::Loc, &Number::Singular), l.noun("nihil", &Case::Abl, &Number::Singular));
    assert_eq!(l.noun("nihil", &Case::Loc, &Number::Singular), ("nihil".to_string(), Gender::Masculine));
}

#[test]
fn noun_locative_plural_takes_the_ablative_singular() {
    let l = latin();
    assert_eq!(l.noun("lorica", &Case::Loc, &Number::Plural), ("lorica".to_string(), Gender::Feminine));
}

#[test]
fn noun_stored_locative_is_kept() {
    let l = latin();
    assert_eq!(l.noun("vulgus", &Case::Loc, &Number::Singular), ("vulgi".to_string(), Gender::Neuter));
}

#[test]
fn adjective_from_the_dictionary() {
    let l = latin();
    assert_eq!(l.adjective("hamatus", &Case::Abl, &Number::Singular, &Gender::Feminine), "hamata");
    assert_eq!(l.adjective("hamatus", &Case::Acc, &Number::Plural, &Gender::Masculine), "hamatos");
    assert_eq!(l.adjective("hamatus", &Case::Nom, &Number::Plural, &Gender::Neuter), "hamata");
    assert_eq!(l.adjective("hamatus", &Case::Gen, &Number::Singular, &Gender::Neuter), "hamati");
    assert_eq!(l.adjective("hamatus", &Case::Dat, &Number::Singular, &Gender::Feminine), "hamatae");
}

#[test]
fn adjective_empty_form_is_not_guessed() {
    let l = latin();
    assert_eq!(l.adjective("grandis", &Case::Nom, &Number::Singular, &Gender::Masculine), "");
}

#[test]
fn adjective_locative_and_vocative_take_the_ablative() {
    let l = latin();
    for number in [Number::Singular, Number::Plural] {
        for gender in [Gender::Masculine, Gender::Feminine, Gender::Neuter] {
            for word in ["hamatus", "grandis", "laevis"] {
                assert_eq!(
                    l.adjective(word, &Case::Loc, &number, &gender),
                    l.adjective(word, &Case::Abl, &number, &gender)
                );
            }
            for word in ["hamatus", "grandis"] {
                assert_eq!(
                    l.adjective(word, &Case::Voc, &number, &gender),
                    l.adjective(word, &Case::Abl, &number, &gender)
                );
            }
        }
    }
    assert_eq!(l.adjective("hamatus", &Case::Loc, &Number::Plural, &Gender::Feminine), "hamatis f");
    assert_eq!(l.adjective("hamatus", &Case::Voc, &Number::Plural, &Gender::Neuter), "hamatis n");
    assert_eq!(l.adjective("hamatus", &Case::Voc, &Number::Plural, &Gender::Masculine), "hamatis m");
}

#[test]
fn adjective_absent_word_is_guessed() {
    let l = latin();
    assert_eq!(l.adjective("laevis", &Case::Gen, &Number::Plural, &Gender::Feminine), "laevium");
    assert_eq!(l.adjective("laevis", &Case::Voc, &Number::Singular, &Gender::Feminine), "laevis");
}

#[test]
fn complex_noun_orders_head_then_adjectives() {
    let l = latin();
    let request = ComplexNoun {
        head_noun: "lorica".into(),
        adjective: vec!["hamatus".into(), "grandis".into()],
        adposition_noun: vec![],
    };
    assert_eq!(l.complex_noun(&request, &Case::Abl, &Number::Singular), "lorica hamata grandi");
}

#[test]
fn complex_noun_puts_nouns_before_adjectives() {
    let l = latin();
    let request = ComplexNoun {
        head_noun: "lorica".into(),
        adjective: vec!["hamatus".into(), "grandis".into()],
        adposition_noun: vec!["manica".into()],
    };
    assert_eq!(l.complex_noun(&request, &Case::Abl, &Number::Singular), "lorica manica hamata grandi");
    assert_eq!(
        l.complex_noun(&request, &Case::Gen, &Number::Plural),
        "loricarum manicarum hamatarum grandium"
    );
}

#[test]
fn complex_noun_adjectives_take_the_gender_of_the_head() {
    let l = latin();
    let request = ComplexNoun {
        head_noun: "vulgus".into(),
        adjective: vec!["grandis".into(), "hirsutus".into()],
        adposition_noun: vec!["lorica".into()],
    };
    assert_eq!(
        l.complex_noun(&request, &Case::Abl, &Number::Singular),
        "vulgo lorica grandi n hirsuto"
    );
}

#[test]
fn complex_noun_skips_empty_forms() {
    let l = latin();
    let request = ComplexNoun {
        head_noun: "lorica".into(),
        adjective: vec!["grandis".into(), "hamatus".into()],
        adposition_noun: vec!["".into(), "manica".into()],
    };
    assert_eq!(l.complex_noun(&request, &Case::Nom, &Number::Plural), "loricae manicae hamatae");
}

#[test]
fn complex_noun_head_alone() {
    let l = latin();
    let request = ComplexNoun { head_noun: "hibiscus".into(), adjective: vec![], adposition_noun: vec![] };
    assert_eq!(l.complex_noun(&request, &Case::Gen, &Number::Plural), "hibiscorum");
    let request = ComplexNoun::default();
    assert_eq!(request.head_noun, "exemplum");
    assert!(request.adjective.is_empty());
    assert!(request.adposition_noun.is_empty());
    assert_eq!(l.complex_noun(&request, &Case::Nom, &Number::Plural), "exempla");
}

#[test]
fn complex_noun_without_dictionaries() {
    let l = Latin::new(vec![], vec![], vec![]);
    let request = ComplexNoun {
        head_noun: "lorica".into(),
        adjective: vec!["hamatus".into(), "segmentus".into()],
        adposition_noun: vec!["manica".into()],
    };
    assert_eq!(
        l.complex_noun(&request, &Case::Gen, &Number::Plural),
        "loricarum manicarum hamatarum segmentarum"
    );
}

#[test]
fn verb_from_the_dictionary() {
    let l = latin();
    let ask = |tense: Tense, number: Number, person: Person| {
        l.verb("amo", &Mood::Indicative, &Voice::Active, &tense, &number, &person)
    };
    assert_eq!(ask(Tense::Present, Number::Singular, Person::First), Ok("amo".to_string()));
    assert_eq!(ask(Tense::Present, Number::Singular, Person::Second), Ok("amas".to_string()));
    assert_eq!(ask(Tense::Present, Number::Singular, Person::Third), Ok("amat".to_string()));
    assert_eq!(ask(Tense::Present, Number::Plural, Person::First), Ok("amamus".to_string()));
    assert_eq!(ask(Tense::Present, Number::Plural, Person::Second), Ok("amatis".to_string()));
    assert_eq!(ask(Tense::Present, Number::Plural, Person::Third), Ok("amant".to_string()));
    assert_eq!(ask(Tense::Imperfect, Number::Singular, Person::First), Ok("amabam".to_string()));
    assert_eq!(ask(Tense::Imperfect, Number::Plural, Person::Third), Ok("amabant".to_string()));
    assert_eq!(ask(Tense::Future, Number::Singular, Person::Second), Ok("amabis".to_string()));
    assert_eq!(ask(Tense::Future, Number::Plural, Person::First), Ok("amabimus".to_string()));
    assert_eq!(ask(Tense::Perfect, Number::Singular, Person::Third), Ok("amavit".to_string()));
    assert_eq!(ask(Tense::Perfect, Number::Plural, Person::Second), Ok("amavistis".to_string()));
    assert_eq!(ask(Tense::Pluperfect, Number::Singular, Person::First), Ok("amaveram".to_string()));
    assert_eq!(ask(Tense::Pluperfect, Number::Plural, Person::Third), Ok("amaverant".to_string()));
    assert_eq!(ask(Tense::Pluperfect, Number::Plural, Person::First), Ok(String::new()));
}

#[test]
fn verb_absent_word_has_empty_forms() {
    let l = latin();
    let r = l.verb("moneo", &Mood::Indicative, &Voice::Active, &Tense::Perfect, &Number::Plural, &Person::Second);
    assert_eq!(r, Ok(String::new()));
}

#[test]
fn verb_refuses_future_perfect() {
    let l = latin();
    for word in ["amo", "moneo"] {
        let r = l.verb(word, &Mood::Indicative, &Voice::Active, &Tense::FuturePerfect, &Number::Singular, &Person::First);
        assert_eq!(r, Err(NotImplemented::FuturePerfect));
    }
}

#[test]
fn verb_refuses_passive_voice() {
    let l = latin();
    for word in ["amo", "moneo"] {
        let r = l.verb(word, &Mood::Indicative, &Voice::Passive, &Tense::Present, &Number::Singular, &Person::First);
        assert_eq!(r, Err(NotImplemented::PassiveVoice));
        let r = l.verb(word, &Mood::Indicative, &Voice::Passive, &Tense::FuturePerfect, &Number::Singular, &Person::First);
        assert_eq!(r, Err(NotImplemented::PassiveVoice));
    }
}

#[test]
fn verb_refuses_other_moods() {
    let l = latin();
    for mood in [Mood::Subjunctive, Mood::Imperative, Mood::Infinitive, Mood::Participle, Mood::VerbalNoun] {
        for voice in [Voice::Active, Voice::Passive] {
            for tense in [Tense::Present, Tense::FuturePerfect] {
                let r = l.verb("amo", &mood, &voice, &tense, &Number::Plural, &Person::Third);
                assert_eq!(r, Err(NotImplemented::OtherMoods));
            }
        }
    }
}

#[test]
fn not_implemented_messages() {
    assert_eq!(NotImplemented::OtherMoods.message(), "other moods are not implemented");
    assert_eq!(NotImplemented::PassiveVoice.message(), "the passive voice is not implemented");
    assert_eq!(NotImplemented::FuturePerfect.message(), "the future perfect is not implemented");
    assert_eq!(UnknownCode::Gender.message(), "unknown gender");
    assert_eq!(UnknownCode::Pluralia.message(), "unknown pluralia");
}

#[test]
fn same_request_same_answer() {
    let l = latin();
    let request = ComplexNoun {
        head_noun: "lorica".into(),
        adjective: vec!["hamatus".into(), "laevis".into()],
        adposition_noun: vec!["manica".into(), "hibiscus".into()],
    };
    let first = l.complex_noun(&request, &Case::Acc, &Number::Plural);
    let second = l.complex_noun(&request, &Case::Acc, &Number::Plural);
    assert_eq!(first, second);
    assert_eq!(first, "loricas manicas hibiscos hamatas laeves");
    assert_eq!(l.noun("vulgus", &Case::Gen, &Number::Singular), l.noun("vulgus", &Case::Gen, &Number::Singular));
    let other = latin();
    assert_eq!(other.complex_noun(&request, &Case::Acc, &Number::Plural), first);
    assert_eq!(
        l.verb("amo", &Mood::Indicative, &Voice::Active, &Tense::Present, &Number::Plural, &Person::First),
        other.verb("amo", &Mood::Indicative, &Voice::Active, &Tense::Present, &Number::Plural, &Person::First)
    );
}

#[test]
fn new_keeps_the_later_record_of_a_word() {
    let mut second = lorica();
    second.gen_sg = "loricai".into();
    second.gender = Gender::Neuter;
    let l = Latin::new(vec![lorica(), manica(), second], vec![], vec![]);
    assert_eq!(l.noun_map.len(), 2);
    assert_eq!(l.noun("lorica", &Case::Gen, &Number::Singular), ("loricai".to_string(), Gender::Neuter));
    assert_eq!(l.noun("manica", &Case::Gen, &Number::Singular), ("manicae".to_string(), Gender::Feminine));
    assert!(l.adj_map.is_empty());
    assert!(l.verb_map.is_empty());
}

#[test]
fn default_latin_guesses_everything() {
    let l = Latin::default();
    assert!(l.noun_map.is_empty());
    assert!(l.adj_map.is_empty());
    assert!(l.verb_map.is_empty());
    assert_eq!(l.noun("lorica", &Case::Gen, &Number::Plural), ("loricarum".to_string(), Gender::Feminine));
    assert_eq!(l.adjective("hamatus", &Case::Abl, &Number::Singular, &Gender::Feminine), "hamata");
    let r = l.verb("amo", &Mood::Indicative, &Voice::Active, &Tense::Present, &Number::Singular, &Person::First);
    assert_eq!(r, Ok(String::new()));
}

#[test]
fn index_by_word() {
    let nouns = index_records(&vec![lorica(), manica()]);
    assert!(nouns.contains_key("lorica"));
    assert!(nouns.contains_key("manica"));
    assert!(!nouns.contains_key("loricae"));
    assert_eq!(nouns.get("manica").map(|r| r.gen_sg.clone()), Some("manicae".to_string()));
    let adjectives = index_records(&vec![hamatus(), grandis(), hamatus()]);
    assert_eq!(adjectives.len(), 2);
    assert_eq!(adjectives.get("grandis").map(|r| r.abl_sg_fem.clone()), Some("grandi".to_string()));
    let verbs = index_records(&vec![amo()]);
    assert_eq!(verbs.len(), 1);
    assert_eq!(verbs.get("amo").map(|r| r.supine.clone()), Some("amatum".to_string()));
    assert!(index_records::<VerbRecord>(&vec![]).is_empty());
}

#[test]
fn record_forms() {
    let n = vulgus();
    assert_eq!(n.form(&Case::Gen, &Number::Plural), "-");
    assert_eq!(n.lookup(&Case::Gen, &Number::Plural), None);
    assert_eq!(n.lookup(&Case::Dat, &Number::Plural), None);
    assert_eq!(n.lookup(&Case::Loc, &Number::Plural), Some(&"vulgo".to_string()));
    assert_eq!(n.lookup(&Case::Loc, &Number::Singular), Some(&"vulgi".to_string()));
    assert_eq!(n.lookup(&Case::Abl, &Number::Singular), Some(&"vulgo".to_string()));
    let copy = n.clone();
    assert_eq!(copy.word, "vulgus");
    assert_eq!(copy.loc_sg, "vulgi");
    assert_eq!(copy.gender, Gender::Neuter);
    let a = hamatus();
    assert_eq!(a.form(&Case::Acc, &Number::Singular, &Gender::Feminine), "hamatam");
    assert_eq!(a.clone().acc_pl_neut, "hamata");
    let v = amo();
    assert_eq!(v.form(&Tense::Future, &Number::Plural, &Person::First), Some(&"amabimus".to_string()));
    assert_eq!(v.form(&Tense::FuturePerfect, &Number::Plural, &Person::First), None);
    assert_eq!(v.clone().perfect_active, "amavi");
}

#[test]
fn gender_from_code() {
    assert_eq!(Gender::from_code("m"), Ok(Gender::Masculine));
    assert_eq!(Gender::from_code("f"), Ok(Gender::Feminine));
    assert_eq!(Gender::from_code("n"), Ok(Gender::Neuter));
    assert_eq!(Gender::from_code("x"), Err(UnknownCode::Gender));
    assert_eq!(Gender::from_code(""), Err(UnknownCode::Gender));
    assert_eq!(Gender::from_code("M"), Err(UnknownCode::Gender));
    assert_eq!(Gender::from_code("mf"), Err(UnknownCode::Gender));
    assert_eq!(Gender::default(), Gender::Masculine);
}

#[test]
fn pluralia_from_its_code() {
    assert_eq!(pluralia_from_code("fa"), Ok(false));
    assert_eq!(pluralia_from_code("tr"), Ok(true));
    assert_eq!(pluralia_from_code("true"), Err(UnknownCode::Pluralia));
    assert_eq!(pluralia_from_code(""), Err(UnknownCode::Pluralia));
}
