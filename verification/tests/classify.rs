use grammar_api::classify::classify_kind;

#[test]
fn spell_kind_classifies_spelling() {
    assert_eq!(classify_kind("spell"), "spelling");
}

#[test]
fn capitalized_spell_kind_classifies_spelling() {
    assert_eq!(classify_kind("Spelling"), "spelling");
}

#[test]
fn upper_case_spell_kind_classifies_spelling() {
    assert_eq!(classify_kind("SPELLCHECK"), "spelling");
}

#[test]
fn mixed_case_spell_kind_classifies_spelling() {
    assert_eq!(classify_kind("sPeLl"), "spelling");
}

#[test]
fn embedded_spell_kind_classifies_spelling() {
    assert_eq!(classify_kind("MisSpelledWord"), "spelling");
}

#[test]
fn grammar_kind_classifies_grammar() {
    assert_eq!(classify_kind("Grammar"), "grammar");
}

#[test]
fn unrelated_kind_classifies_grammar() {
    assert_eq!(classify_kind("WrongQuotes"), "grammar");
}

#[test]
fn empty_kind_classifies_grammar() {
    assert_eq!(classify_kind(""), "grammar");
}

#[test]
fn truncated_spell_kind_classifies_grammar() {
    assert_eq!(classify_kind("spel"), "grammar");
}

#[test]
fn interrupted_spell_kind_classifies_grammar() {
    assert_eq!(classify_kind("spe-ll"), "grammar");
}

#[test]
fn unicode_kind_classifies_grammar() {
    assert_eq!(classify_kind("ſpell"), "grammar");
}
