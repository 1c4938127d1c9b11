//! The conversion engine: a single left-to-right scan that resolves
//! two-character syllables greedily and applies the positional rules for the
//! geminate marker and the moraic nasal.
//!
//! The spec function [`convert_model`] is the reference meaning of a
//! conversion; every executable entry point is proved to return exactly what
//! the model says.

use vstd::prelude::*;
use vstd::string::*;
use crate::record::{RecordModel, RomajiData};
use crate::table::{pair_alternatives, pair_table, single_alternatives, single_table};

verus! {

/// Builds a record model from a syllable and its spellings.
pub open spec fn rec(kana: Seq<char>, alternatives: Seq<Seq<char>>) -> RecordModel {
    RecordModel { kana, alternatives }
}

/// The full spelling set for the moraic nasal: doubled n, escape, single n.
pub open spec fn nasal_fallback() -> Seq<Seq<char>> {
    seq!["nn"@, "xn"@, "n"@]
}

/// The restricted spelling set for the moraic nasal, used where a bare
/// single n would be ambiguous with the start of the next syllable.
pub open spec fn nasal_restricted() -> Seq<Seq<char>> {
    seq!["nn"@, "xn"@]
}

/// Whether a leading letter of the following syllable forbids the bare
/// single-n spelling of the nasal: the semivowel letters and the vowels.
pub open spec fn vowel_or_semivowel(l: char) -> bool {
    l == 'y' || l == 'w' || l == 'a' || l == 'i' || l == 'u' || l == 'e' || l == 'o'
}

/// The accepted spellings of the moraic nasal, chosen by the character that
/// follows it: the full set at end of input or before an unknown character,
/// the restricted set before a syllable whose preferred spelling starts with
/// a vowel or semivowel letter.
pub open spec fn nasal_model(next: Option<char>) -> Seq<Seq<char>> {
    match next {
        None => nasal_fallback(),
        Some(c) => match single_table(c) {
            None => nasal_fallback(),
            Some(alts) => if alts.len() == 0 || alts[0].len() == 0 {
                nasal_fallback()
            } else if vowel_or_semivowel(alts[0][0]) {
                nasal_restricted()
            } else {
                nasal_fallback()
            },
        },
    }
}

/// The spellings of the geminate marker where no following consonant can be
/// borrowed, at end of input or before a character without a usable table
/// entry: the two escape spellings in both forms.
pub open spec fn geminate_fallback() -> Seq<Seq<char>> {
    seq!["xtu"@, "ltu"@, "xtsu"@, "ltsu"@]
}

/// The spellings of the geminate marker before a known syllable: the leading
/// consonant of that syllable's preferred spelling, then the two escapes.
pub open spec fn geminate_model(consonant: char) -> Seq<Seq<char>> {
    seq![seq![consonant], "xtu"@, "ltu"@]
}

/// Whether the geminate marker can borrow a leading consonant from the
/// character after it: that character must have a table entry whose
/// preferred spelling is non-empty.
pub open spec fn geminate_resolvable(c: char) -> bool {
    match single_table(c) {
        Some(alts) => alts.len() > 0 && alts[0].len() > 0,
        None => false,
    }
}

/// The meaning of a conversion: one record per consumed syllable unit, in
/// input order. The scan resolves, in priority order: the geminate marker,
/// the moraic nasal, a two-character table syllable, a single-character
/// table syllable, and finally the identity passthrough for an unknown
/// character. A geminate marker always yields a record: where its follower
/// offers no consonant to borrow, the escape spellings stand alone.
pub open spec fn convert_model(text: Seq<char>) -> Seq<RecordModel>
    decreases text.len(),
{
    if text.len() == 0 {
        Seq::empty()
    } else {
        let c = text[0];
        if c == 'っ' {
            if text.len() > 1 && geminate_resolvable(text[1]) {
                seq![rec(seq![c], geminate_model(single_table(text[1]).unwrap()[0][0]))]
                    + convert_model(text.skip(1))
            } else {
                seq![rec(seq![c], geminate_fallback())] + convert_model(text.skip(1))
            }
        } else if c == 'ん' {
            let next = if text.len() > 1 { Some(text[1]) } else { None };
            seq![rec(seq![c], nasal_model(next))] + convert_model(text.skip(1))
        } else if text.len() > 1 && pair_table(c, text[1]) is Some {
            seq![rec(seq![c, text[1]], pair_table(c, text[1]).unwrap())] + convert_model(text.skip(2))
        } else if single_table(c) is Some {
            seq![rec(seq![c], single_table(c).unwrap())] + convert_model(text.skip(1))
        } else {
            seq![rec(seq![c], seq![seq![c]])] + convert_model(text.skip(1))
        }
    }
}

/// Whether a spelling begins with the typed character.
pub open spec fn alt_begins_with(alt: Seq<char>, c: char) -> bool {
    alt.len() > 0 && alt[0] == c
}

/// The match predicate: some candidate spelling begins with the typed
/// character.
pub open spec fn matches_model(c: char, alts: Seq<Seq<char>>) -> bool {
    exists|j: int| 0 <= j < alts.len() && #[trigger] alt_begins_with(alts[j], c)
}

/// The conversion engine. It holds no state beyond the fixed romaji table,
/// so every call is independent and reentrant.
pub struct WasmTypingCore {
}

impl WasmTypingCore {
    /// Produces an engine instance with the table pre-populated; the table
    /// content is fixed and internal, and never mutated afterwards.
    pub fn new() -> (r: WasmTypingCore) {
        WasmTypingCore {  }
    }

    /// Converts a kana text into one record per consumed syllable unit,
    /// exactly as [`convert_model`] describes.
    pub fn convert_to_romaji(&self, hiragana: &str) -> (result: Vec<RomajiData>)
        ensures
            result.deep_view() == convert_model(hiragana@),
    {
        let n = hiragana.unicode_len();
        let mut result: Vec<RomajiData> = Vec::new();
        let mut i: usize = 0;
        proof {
            assert(hiragana@.skip(0) =~= hiragana@);
            assert(result.deep_view() =~= Seq::<RecordModel>::empty());
            assert(result.deep_view() + convert_model(hiragana@) =~= convert_model(hiragana@));
        }
        while i < n
            invariant
                n == hiragana@.len(),
                i <= n,
                result.deep_view() + convert_model(hiragana@.skip(i as int))
                    == convert_model(hiragana@),
            decreases n - i,
        {
            let ghost prev = result.deep_view();
            let ghost rest = hiragana@.skip(i as int);
            proof {
                assert(rest.len() == n - i);
                assert(rest[0] == hiragana@[i as int]);
                assert(rest.skip(1) =~= hiragana@.skip(i + 1));
            }
            let c = hiragana.get_char(i);
            if c == 'っ' {
                let mut emitted = false;
                if i + 1 < n {
                    proof {
                        assert(rest[1] == hiragana@[i + 1]);
                    }
                    let next = hiragana.get_char(i + 1);
                    match single_alternatives(next) {
                        Some(v) => {
                            if v.len() > 0 {
                                let first = &v[0];
                                if first.unicode_len() > 0 {
                                    let consonant = first.as_str().substring_char(0, 1);
                                    let mut alts: Vec<String> = Vec::new();
                                    alts.push(String::from_str(consonant));
                                    alts.push(String::from_str("xtu"));
                                    alts.push(String::from_str("ltu"));
                                    let kana = String::from_str(hiragana.substring_char(i, i + 1));
                                    proof {
                                        let a0 = single_table(next).unwrap()[0];
                                        assert(v.deep_view()[0] == a0);
                                        assert(consonant@ =~= seq![a0[0]]);
                                        assert(alts.deep_view() =~= geminate_model(a0[0]));
                                        assert(kana@ =~= seq![rest[0]]);
                                    }
                                    result.push(RomajiData { kana, alternatives: alts });
                                    emitted = true;
                                    proof {
                                        assert(result.deep_view() =~= prev.push(rec(seq![rest[0]], geminate_model(single_table(rest[1]).unwrap()[0][0]))));
                                        assert(result.deep_view() + convert_model(rest.skip(1)) =~= prev + convert_model(rest));
                                    }
                                }
                            }
                        },
                        None => {},
                    }
                }
                if !emitted {
                    let mut alts: Vec<String> = Vec::new();
                    alts.push(String::from_str("xtu"));
                    alts.push(String::from_str("ltu"));
                    alts.push(String::from_str("xtsu"));
                    alts.push(String::from_str("ltsu"));
                    let kana = String::from_str(hiragana.substring_char(i, i + 1));
                    proof {
                        assert(alts.deep_view() =~= geminate_fallback());
                        assert(kana@ =~= seq![rest[0]]);
                        if i + 1 < n {
                            assert(!geminate_resolvable(rest[1]));
                        }
                    }
                    result.push(RomajiData { kana, alternatives: alts });
                    proof {
                        assert(result.deep_view() =~= prev.push(rec(seq![rest[0]], geminate_fallback())));
                        assert(result.deep_view() + convert_model(rest.skip(1)) =~= prev + convert_model(rest));
                    }
                }
                i = i + 1;
            } else if c == 'ん' {
                let next: Option<char> = if i + 1 < n {
                    proof {
                        assert(rest[1] == hiragana@[i + 1]);
                    }
                    Some(hiragana.get_char(i + 1))
                } else {
                    None
                };
                let alts = self.get_n_patterns(next);
                let kana = String::from_str(hiragana.substring_char(i, i + 1));
                proof {
                    assert(kana@ =~= seq![rest[0]]);
                }
                result.push(RomajiData { kana, alternatives: alts });
                proof {
                    let ghost snext = if rest.len() > 1 { Some(rest[1]) } else { None };
                    assert(next == snext);
                    assert(result.deep_view() =~= prev.push(rec(seq![rest[0]], nasal_model(snext))));
                    assert(result.deep_view() + convert_model(rest.skip(1)) =~= prev + convert_model(rest));
                }
                i = i + 1;
            } else {
                let paired: Option<Vec<String>> = if i + 1 < n {
                    proof {
                        assert(rest[1] == hiragana@[i + 1]);
                    }
                    pair_alternatives(c, hiragana.get_char(i + 1))
                } else {
                    None
                };
                match paired {
                    Some(v) => {
                        let kana = String::from_str(hiragana.substring_char(i, i + 2));
                        proof {
                            assert(kana@ =~= seq![rest[0], rest[1]]);
                            assert(rest.skip(2) =~= hiragana@.skip(i + 2));
                        }
                        result.push(RomajiData { kana, alternatives: v });
                        proof {
                            assert(result.deep_view() =~= prev.push(rec(seq![rest[0], rest[1]], pair_table(rest[0], rest[1]).unwrap())));
                            assert(result.deep_view() + convert_model(rest.skip(2)) =~= prev + convert_model(rest));
                        }
                        i = i + 2;
                    },
                    None => {
                        let kana = String::from_str(hiragana.substring_char(i, i + 1));
                        proof {
                            assert(kana@ =~= seq![rest[0]]);
                        }
                        match single_alternatives(c) {
                            Some(v) => {
                                result.push(RomajiData { kana, alternatives: v });
                                proof {
                                    assert(result.deep_view() =~= prev.push(rec(seq![rest[0]], single_table(rest[0]).unwrap())));
                                    assert(result.deep_view() + convert_model(rest.skip(1)) =~= prev + convert_model(rest));
                                }
                            },
                            None => {
                                let mut alts: Vec<String> = Vec::new();
                                alts.push(kana.clone());
                                proof {
                                    assert(alts.deep_view() =~= seq![seq![rest[0]]]);
                                }
                                result.push(RomajiData { kana, alternatives: alts });
                                proof {
                                    assert(result.deep_view() =~= prev.push(rec(seq![rest[0]], seq![seq![rest[0]]])));
                                    assert(result.deep_view() + convert_model(rest.skip(1)) =~= prev + convert_model(rest));
                                }
                            },
                        }
                        i = i + 1;
                    },
                }
            }
        }
        proof {
            assert(hiragana@.skip(n as int) =~= Seq::<char>::empty());
            assert(result.deep_view() =~= result.deep_view() + convert_model(hiragana@.skip(n as int)));
        }
        result
    }

    /// Tests whether the typed character is a valid start of any candidate
    /// spelling. An empty candidate list never matches.
    pub fn match_character(&self, input_char: char, target_alternatives: &Vec<String>) -> (r: bool)
        ensures
            r == matches_model(input_char, target_alternatives.deep_view()),
    {
        let n = target_alternatives.len();
        let mut k: usize = 0;
        while k < n
            invariant
                n == target_alternatives.len(),
                k <= n,
                forall|j: int| 0 <= j < k
                    ==> !alt_begins_with(target_alternatives.deep_view()[j], input_char),
            decreases n - k,
        {
            let alt = &target_alternatives[k];
            if alt.unicode_len() > 0 {
                if alt.as_str().get_char(0) == input_char {
                    proof {
                        assert(alt_begins_with(target_alternatives.deep_view()[k as int], input_char));
                    }
                    return true;
                }
            }
            proof {
                assert(!alt_begins_with(target_alternatives.deep_view()[k as int], input_char));
            }
            k = k + 1;
        }
        false
    }

    /// Returns the accepted spellings of the moraic nasal given the
    /// character that follows it, or none at end of input, exactly as
    /// [`nasal_model`] describes.
    pub fn get_n_patterns(&self, next_char: Option<char>) -> (r: Vec<String>)
        ensures
            r.deep_view() == nasal_model(next_char),
    {
        let restricted: bool = match next_char {
            None => false,
            Some(c) => match single_alternatives(c) {
                None => false,
                Some(v) => {
                    if v.len() == 0 {
                        false
                    } else {
                        let first = &v[0];
                        if first.unicode_len() == 0 {
                            false
                        } else {
                            let l = first.as_str().get_char(0);
                            l == 'y' || l == 'w' || l == 'a' || l == 'i' || l == 'u' || l == 'e'
                                || l == 'o'
                        }
                    }
                },
            },
        };
        let mut r: Vec<String> = Vec::new();
        r.push(String::from_str("nn"));
        r.push(String::from_str("xn"));
        if restricted {
            proof {
                assert(r.deep_view() =~= nasal_restricted());
            }
        } else {
            r.push(String::from_str("n"));
            proof {
                assert(r.deep_view() =~= nasal_fallback());
            }
        }
        r
    }

    /// Converts each text of the list independently, in order, with no state
    /// shared between them.
    pub fn batch_convert(&self, hiragana_list: &Vec<String>) -> (r: Vec<Vec<RomajiData>>)
        ensures
            r.deep_view().len() == hiragana_list@.len(),
            forall|j: int| 0 <= j < hiragana_list@.len()
                ==> #[trigger] r.deep_view()[j] == convert_model(hiragana_list.deep_view()[j]),
    {
        let n = hiragana_list.len();
        let mut r: Vec<Vec<RomajiData>> = Vec::new();
        let mut k: usize = 0;
        while k < n
            invariant
                n == hiragana_list@.len(),
                k <= n,
                r.deep_view().len() == k,
                forall|j: int| 0 <= j < k
                    ==> #[trigger] r.deep_view()[j] == convert_model(hiragana_list.deep_view()[j]),
            decreases n - k,
        {
            let converted = self.convert_to_romaji(hiragana_list[k].as_str());
            let ghost prev = r.deep_view();
            r.push(converted);
            proof {
                assert(r.deep_view() =~= prev.push(convert_model(hiragana_list.deep_view()[k as int])));
            }
            k = k + 1;
        }
        r
    }
}

} // verus!
