//! Laws of the conversion engine, stated and proved over the spec-level
//! model that the executable entry points are verified against.

use vstd::prelude::*;
use crate::engine::{convert_model, rec};
use crate::record::RecordModel;
use crate::table::{lemma_pair_table_wf, lemma_single_table_wf, pair_table, table_alts};

verus! {

/// The syllables of a record sequence, concatenated in order.
pub open spec fn kana_concat(records: Seq<RecordModel>) -> Seq<char>
    decreases records.len(),
{
    if records.len() == 0 {
        Seq::empty()
    } else {
        records[0].kana + kana_concat(records.skip(1))
    }
}

proof fn lemma_kana_concat_cons(r: RecordModel, rest: Seq<RecordModel>)
    ensures
        kana_concat(seq![r] + rest) == r.kana + kana_concat(rest),
{
    assert((seq![r] + rest)[0] == r);
    assert((seq![r] + rest).skip(1) =~= rest);
}

/// Concatenating the syllable fields of all records of a conversion
/// reconstructs the input exactly, for any input.
pub proof fn lemma_convert_reconstructs_input(text: Seq<char>)
    ensures
        kana_concat(convert_model(text)) == text,
    decreases text.len(),
{
    if text.len() == 0 {
        assert(kana_concat(convert_model(text)) =~= text);
    } else {
        let c = text[0];
        if c != 'っ' && c != 'ん' && text.len() > 1 && pair_table(c, text[1]) is Some {
            lemma_convert_reconstructs_input(text.skip(2));
            lemma_kana_concat_cons(
                rec(seq![c, text[1]], pair_table(c, text[1]).unwrap()),
                convert_model(text.skip(2)),
            );
            assert(seq![c, text[1]] + text.skip(2) =~= text);
        } else {
            lemma_convert_reconstructs_input(text.skip(1));
            lemma_kana_concat_cons(
                rec(seq![c], convert_model(text)[0].alternatives),
                convert_model(text.skip(1)),
            );
            assert(seq![c] + text.skip(1) =~= text);
        }
    }
}

/// Whenever a conversion emits a record with a non-empty alternatives list
/// for a syllable that the table defines, the first alternative is the
/// table's canonical spelling for that syllable: the scan never reorders a
/// spelling list.
pub proof fn lemma_first_alternative_canonical(text: Seq<char>, k: int)
    requires
        0 <= k < convert_model(text).len(),
    ensures
        ({
            let r = convert_model(text)[k];
            (r.alternatives.len() > 0 && table_alts(r.kana) is Some) ==> (table_alts(
                r.kana,
            ).unwrap().len() > 0 && r.alternatives[0] == table_alts(r.kana).unwrap()[0])
        }),
    decreases text.len(),
{
    if text.len() == 0 {
    } else {
        let c = text[0];
        if c == 'っ' {
            if k == 0 {
                assert(convert_model(text)[0].kana =~= seq!['っ']);
            } else {
                assert(convert_model(text)[k] == convert_model(text.skip(1))[k - 1]);
                lemma_first_alternative_canonical(text.skip(1), k - 1);
            }
        } else if c == 'ん' {
            if k == 0 {
                assert(convert_model(text)[0].kana =~= seq!['ん']);
            } else {
                assert(convert_model(text)[k] == convert_model(text.skip(1))[k - 1]);
                lemma_first_alternative_canonical(text.skip(1), k - 1);
            }
        } else if text.len() > 1 && pair_table(c, text[1]) is Some {
            if k == 0 {
                assert(convert_model(text)[0].kana =~= seq![c, text[1]]);
            } else {
                assert(convert_model(text)[k] == convert_model(text.skip(2))[k - 1]);
                lemma_first_alternative_canonical(text.skip(2), k - 1);
            }
        } else {
            if k == 0 {
                assert(convert_model(text)[0].kana =~= seq![c]);
            } else {
                assert(convert_model(text)[k] == convert_model(text.skip(1))[k - 1]);
                lemma_first_alternative_canonical(text.skip(1), k - 1);
            }
        }
    }
}

/// Every record a conversion emits covers one or two input characters and
/// offers at least one accepted spelling.
pub proof fn lemma_emitted_record_wf(text: Seq<char>, k: int)
    requires
        0 <= k < convert_model(text).len(),
    ensures
        1 <= convert_model(text)[k].kana.len() <= 2,
        convert_model(text)[k].alternatives.len() > 0,
    decreases text.len(),
{
    if text.len() == 0 {
    } else {
        let c = text[0];
        if c == 'っ' || c == 'ん' {
            if k > 0 {
                assert(convert_model(text)[k] == convert_model(text.skip(1))[k - 1]);
                lemma_emitted_record_wf(text.skip(1), k - 1);
            }
        } else if text.len() > 1 && pair_table(c, text[1]) is Some {
            if k == 0 {
                lemma_pair_table_wf(c, text[1]);
            } else {
                assert(convert_model(text)[k] == convert_model(text.skip(2))[k - 1]);
                lemma_emitted_record_wf(text.skip(2), k - 1);
            }
        } else {
            if k == 0 {
                lemma_single_table_wf(c);
            } else {
                assert(convert_model(text)[k] == convert_model(text.skip(1))[k - 1]);
                lemma_emitted_record_wf(text.skip(1), k - 1);
            }
        }
    }
}

} // verus!
