use wasm_typing_core::WasmTypingCore;

#[test]
fn empty_input_yields_empty_output() {
    let core = WasmTypingCore::new();
    let records = core.convert_to_romaji("");
    assert_eq!(records.len(), 0);
}

#[test]
fn single_vowel_converts_to_its_spelling() {
    let core = WasmTypingCore::new();
    let records = core.convert_to_romaji("あ");
    assert_eq!(records.len(), 1);
    assert_eq!(records[0].kana, "あ");
    assert_eq!(records[0].alternatives, vec!["a"]);
}

#[test]
fn two_character_syllable_wins_over_single_characters() {
    let core = WasmTypingCore::new();
    let records = core.convert_to_romaji("きゃ");
    assert_eq!(records.len(), 1);
    assert_eq!(records[0].kana, "きゃ");
    assert_eq!(records[0].alternatives, vec!["kya"]);
}

#[test]
fn two_character_syllable_keeps_all_alternatives_in_order() {
    let core = WasmTypingCore::new();
    let records = core.convert_to_romaji("しゃ");
    assert_eq!(records.len(), 1);
    assert_eq!(records[0].kana, "しゃ");
    assert_eq!(records[0].alternatives, vec!["sya", "sha"]);
}

#[test]
fn adjacent_plain_characters_are_not_merged() {
    let core = WasmTypingCore::new();
    let records = core.convert_to_romaji("きい");
    assert_eq!(records.len(), 2);
    assert_eq!(records[0].kana, "き");
    assert_eq!(records[0].alternatives, vec!["ki"]);
    assert_eq!(records[1].kana, "い");
    assert_eq!(records[1].alternatives, vec!["i", "yi"]);
}

#[test]
fn geminate_marker_borrows_following_consonant() {
    let core = WasmTypingCore::new();
    let records = core.convert_to_romaji("った");
    assert_eq!(records.len(), 2);
    assert_eq!(records[0].kana, "っ");
    assert_eq!(records[0].alternatives, vec!["t", "xtu", "ltu"]);
    assert_eq!(records[1].kana, "た");
    assert_eq!(records[1].alternatives, vec!["ta"]);
}

#[test]
fn geminate_marker_before_two_character_syllable() {
    let core = WasmTypingCore::new();
    let records = core.convert_to_romaji("っきゃ");
    assert_eq!(records.len(), 2);
    assert_eq!(records[0].kana, "っ");
    assert_eq!(records[0].alternatives, vec!["k", "xtu", "ltu"]);
    assert_eq!(records[1].kana, "きゃ");
    assert_eq!(records[1].alternatives, vec!["kya"]);
}

#[test]
fn geminate_marker_at_end_uses_escape_spellings() {
    let core = WasmTypingCore::new();
    let records = core.convert_to_romaji("っ");
    assert_eq!(records.len(), 1);
    assert_eq!(records[0].kana, "っ");
    assert_eq!(records[0].alternatives, vec!["xtu", "ltu", "xtsu", "ltsu"]);
}

#[test]
fn geminate_marker_before_unknown_character_falls_back_to_escapes() {
    let core = WasmTypingCore::new();
    let records = core.convert_to_romaji("っA");
    assert_eq!(records.len(), 2);
    assert_eq!(records[0].kana, "っ");
    assert_eq!(records[0].alternatives, vec!["xtu", "ltu", "xtsu", "ltsu"]);
    assert_eq!(records[1].kana, "A");
    assert_eq!(records[1].alternatives, vec!["A"]);
}

#[test]
fn nasal_before_vowel_syllable_restricts_single_n() {
    let core = WasmTypingCore::new();
    let records = core.convert_to_romaji("んあ");
    assert_eq!(records.len(), 2);
    assert_eq!(records[0].kana, "ん");
    assert_eq!(records[0].alternatives, vec!["nn", "xn"]);
    assert_eq!(records[1].kana, "あ");
    assert_eq!(records[1].alternatives, vec!["a"]);
}

#[test]
fn nasal_before_consonant_syllable_keeps_single_n() {
    let core = WasmTypingCore::new();
    let records = core.convert_to_romaji("んか");
    assert_eq!(records.len(), 2);
    assert_eq!(records[0].kana, "ん");
    assert_eq!(records[0].alternatives, vec!["nn", "xn", "n"]);
}

#[test]
fn nasal_at_end_of_input_keeps_single_n() {
    let core = WasmTypingCore::new();
    let records = core.convert_to_romaji("ん");
    assert_eq!(records.len(), 1);
    assert_eq!(records[0].kana, "ん");
    assert_eq!(records[0].alternatives, vec!["nn", "xn", "n"]);
}

#[test]
fn nasal_before_semivowel_syllable_restricts_single_n() {
    let core = WasmTypingCore::new();
    let records = core.convert_to_romaji("んや");
    assert_eq!(records[0].alternatives, vec!["nn", "xn"]);
    let records = core.convert_to_romaji("んわ");
    assert_eq!(records[0].alternatives, vec!["nn", "xn"]);
}

#[test]
fn nasal_looks_only_at_first_following_character() {
    let core = WasmTypingCore::new();
    let records = core.convert_to_romaji("んきゃ");
    assert_eq!(records.len(), 2);
    assert_eq!(records[0].kana, "ん");
    assert_eq!(records[0].alternatives, vec!["nn", "xn", "n"]);
    assert_eq!(records[1].kana, "きゃ");
}

#[test]
fn unknown_character_passes_through_verbatim() {
    let core = WasmTypingCore::new();
    let records = core.convert_to_romaji("A");
    assert_eq!(records.len(), 1);
    assert_eq!(records[0].kana, "A");
    assert_eq!(records[0].alternatives, vec!["A"]);
}

#[test]
fn katakana_vu_syllables_convert() {
    let core = WasmTypingCore::new();
    let records = core.convert_to_romaji("ヴぁヴ");
    assert_eq!(records.len(), 2);
    assert_eq!(records[0].kana, "ヴぁ");
    assert_eq!(records[0].alternatives, vec!["va"]);
    assert_eq!(records[1].kana, "ヴ");
    assert_eq!(records[1].alternatives, vec!["vu"]);
}

#[test]
fn extended_ku_syllable_keeps_both_spellings() {
    let core = WasmTypingCore::new();
    let records = core.convert_to_romaji("くぁ");
    assert_eq!(records.len(), 1);
    assert_eq!(records[0].kana, "くぁ");
    assert_eq!(records[0].alternatives, vec!["qa", "qwa"]);
}

#[test]
fn first_alternative_is_the_canonical_spelling() {
    let core = WasmTypingCore::new();
    let records = core.convert_to_romaji("しちつふ");
    assert_eq!(records[0].alternatives[0], "si");
    assert_eq!(records[1].alternatives[0], "ti");
    assert_eq!(records[2].alternatives[0], "tu");
    assert_eq!(records[3].alternatives[0], "fu");
}

#[test]
fn kana_concatenation_reconstructs_the_input() {
    let core = WasmTypingCore::new();
    let text = "こんにちは、せかい!っきゃんヴぁしょっA んっ";
    let records = core.convert_to_romaji(text);
    let mut joined = String::new();
    for record in &records {
        joined.push_str(&record.kana);
    }
    assert_eq!(joined, text);
}

#[test]
fn batch_convert_applies_conversion_independently() {
    let core = WasmTypingCore::new();
    let texts = vec!["あ".to_string(), "".to_string(), "きゃ".to_string()];
    let results = core.batch_convert(&texts);
    assert_eq!(results.len(), 3);
    assert_eq!(results[0].len(), 1);
    assert_eq!(results[0][0].kana, "あ");
    assert_eq!(results[0][0].alternatives, vec!["a"]);
    assert_eq!(results[1].len(), 0);
    assert_eq!(results[2].len(), 1);
    assert_eq!(results[2][0].kana, "きゃ");
    assert_eq!(results[2][0].alternatives, vec!["kya"]);
}
