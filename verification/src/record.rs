//! The output unit of a conversion: one resolved syllable together with the
//! ordered list of accepted Latin spellings for it.

use vstd::prelude::*;

verus! {

/// Mathematical model of a conversion record: the resolved syllable as a
/// sequence of characters, and its accepted spellings in priority order.
pub ghost struct RecordModel {
    pub kana: Seq<char>,
    pub alternatives: Seq<Seq<char>>,
}

/// One conversion result: the consumed syllable (one or two characters) and
/// the ordered, non-reordered list of accepted spellings; the first entry is
/// the canonical one.
#[derive(Clone, Debug, PartialEq, Eq)]
pub struct RomajiData {
    pub kana: String,
    pub alternatives: Vec<String>,
}

impl View for RomajiData {
    type V = RecordModel;

    open spec fn view(&self) -> RecordModel {
        RecordModel { kana: self.kana@, alternatives: self.alternatives.deep_view() }
    }
}

impl DeepView for RomajiData {
    type V = RecordModel;

    open spec fn deep_view(&self) -> RecordModel {
        self.view()
    }
}

} // verus!
