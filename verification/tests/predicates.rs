use wasm_typing_core::WasmTypingCore;

#[test]
fn match_succeeds_on_any_candidate_prefix() {
    let core = WasmTypingCore::new();
    let alternatives = vec!["shi".to_string(), "si".to_string()];
    assert!(core.match_character('s', &alternatives));
}

#[test]
fn match_fails_when_no_candidate_starts_with_the_character() {
    let core = WasmTypingCore::new();
    let alternatives = vec!["shi".to_string(), "si".to_string()];
    assert!(!core.match_character('z', &alternatives));
}

#[test]
fn match_fails_on_empty_candidate_list() {
    let core = WasmTypingCore::new();
    let alternatives: Vec<String> = Vec::new();
    assert!(!core.match_character('a', &alternatives));
    assert!(!core.match_character('z', &alternatives));
}

#[test]
fn match_ignores_empty_candidate_spellings() {
    let core = WasmTypingCore::new();
    let alternatives = vec![String::new(), "ka".to_string()];
    assert!(core.match_character('k', &alternatives));
    assert!(!core.match_character('a', &alternatives));
}

#[test]
fn match_is_case_sensitive() {
    let core = WasmTypingCore::new();
    let alternatives = vec!["shi".to_string()];
    assert!(!core.match_character('S', &alternatives));
}

#[test]
fn n_patterns_without_following_character_give_all_three_forms() {
    let core = WasmTypingCore::new();
    let patterns = core.get_n_patterns(None);
    assert_eq!(patterns, vec!["nn", "xn", "n"]);
}

#[test]
fn n_patterns_before_vowel_syllable_drop_single_n() {
    let core = WasmTypingCore::new();
    assert_eq!(core.get_n_patterns(Some('あ')), vec!["nn", "xn"]);
    assert_eq!(core.get_n_patterns(Some('う')), vec!["nn", "xn"]);
}

#[test]
fn n_patterns_before_semivowel_syllable_drop_single_n() {
    let core = WasmTypingCore::new();
    assert_eq!(core.get_n_patterns(Some('や')), vec!["nn", "xn"]);
    assert_eq!(core.get_n_patterns(Some('わ')), vec!["nn", "xn"]);
    assert_eq!(core.get_n_patterns(Some('を')), vec!["nn", "xn"]);
}

#[test]
fn n_patterns_before_consonant_syllable_keep_single_n() {
    let core = WasmTypingCore::new();
    assert_eq!(core.get_n_patterns(Some('か')), vec!["nn", "xn", "n"]);
    assert_eq!(core.get_n_patterns(Some('ざ')), vec!["nn", "xn", "n"]);
}

#[test]
fn n_patterns_before_unknown_character_keep_single_n() {
    let core = WasmTypingCore::new();
    assert_eq!(core.get_n_patterns(Some('A')), vec!["nn", "xn", "n"]);
    assert_eq!(core.get_n_patterns(Some('ゃ')), vec!["nn", "xn", "n"]);
}
