use adlib::hallucination::{is_hallucination, is_hallucination_counted, is_hallucination_lowered};

#[test]
fn rejects_bracketed_markers() {
    assert!(is_hallucination("[music playing]"));
    assert!(is_hallucination("[MUSIC]"));
    assert!(is_hallucination("(Laughter) okay then"));
    assert!(is_hallucination("  [BLANK_AUDIO]  "));
    assert!(is_hallucination("[silence]"));
}

#[test]
fn accepts_ordinary_sentences() {
    assert!(!is_hallucination("The weather today is sunny and clear"));
    assert!(!is_hallucination("hello world"));
    assert!(!is_hallucination("  Let us meet at noon.  "));
}

#[test]
fn rejects_repeated_and() {
    assert!(is_hallucination("and and and"));
    assert!(is_hallucination("cats and dogs and birds and fish"));
    assert!(!is_hallucination("cats and dogs"));
}

#[test]
fn rejects_short_text() {
    assert!(is_hallucination("ok"));
    assert!(is_hallucination("  a "));
    assert!(is_hallucination(""));
}

#[test]
fn rejects_text_with_few_letters() {
    assert!(is_hallucination("1 2 3 4 5"));
    assert!(is_hallucination("?! x7"));
}

#[test]
fn rejects_garbage_tokens() {
    assert!(is_hallucination("Hmm, well"));
    assert!(is_hallucination("wait..."));
    assert!(is_hallucination("Thank you."));
}

#[test]
fn rejects_filler_only_utterances() {
    assert!(is_hallucination("the it is"));
    assert!(is_hallucination("You"));
    assert!(!is_hallucination("the big dog"));
    assert!(!is_hallucination("it is the end"));
}

#[test]
fn lowered_variant_does_not_lower() {
    assert!(is_hallucination_lowered("[music]"));
    assert!(!is_hallucination_lowered("[MUSIC] plays on"));
    assert!(is_hallucination("[MUSIC] plays on"));
}

#[test]
fn two_ands_are_not_repetition() {
    assert!(!is_hallucination("Bread and butter and jam"));
    assert!(is_hallucination("bread and butter and jam and tea"));
}

#[test]
fn letter_count_decides_with_the_given_count() {
    assert!(is_hallucination_counted("hello world", 2));
    assert!(!is_hallucination_counted("hello world", 10));
    assert!(is_hallucination_counted("[music] now", 10));
}
