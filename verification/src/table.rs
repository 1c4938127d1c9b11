//! The romaji table: an immutable mapping from a syllable (one or two kana
//! characters) to the ordered list of accepted Latin spellings, the first
//! entry being the canonical one.
//!
//! The table is fixed data. It is stated once as the spec functions
//! [`single_table`] and [`pair_table`], and the executable lookups
//! [`single_alternatives`] and [`pair_alternatives`] are proved to agree with
//! them entry for entry.

use vstd::prelude::*;
use vstd::string::*;

verus! {

/// The table entries whose key is a single character.
pub open spec fn single_table(c: char) -> Option<Seq<Seq<char>>> {
    if c == 'あ' { Some(seq!["a"@]) }
    else if c == 'い' { Some(seq!["i"@, "yi"@]) }
    else if c == 'う' { Some(seq!["u"@, "wu"@]) }
    else if c == 'え' { Some(seq!["e"@]) }
    else if c == 'お' { Some(seq!["o"@]) }
    else if c == 'か' { Some(seq!["ka"@, "ca"@]) }
    else if c == 'き' { Some(seq!["ki"@]) }
    else if c == 'く' { Some(seq!["ku"@, "cu"@, "qu"@]) }
    else if c == 'け' { Some(seq!["ke"@]) }
    else if c == 'こ' { Some(seq!["ko"@, "co"@]) }
    else if c == 'が' { Some(seq!["ga"@]) }
    else if c == 'ぎ' { Some(seq!["gi"@]) }
    else if c == 'ぐ' { Some(seq!["gu"@]) }
    else if c == 'げ' { Some(seq!["ge"@]) }
    else if c == 'ご' { Some(seq!["go"@]) }
    else if c == 'さ' { Some(seq!["sa"@]) }
    else if c == 'し' { Some(seq!["si"@, "shi"@, "ci"@]) }
    else if c == 'す' { Some(seq!["su"@]) }
    else if c == 'せ' { Some(seq!["se"@, "ce"@]) }
    else if c == 'そ' { Some(seq!["so"@]) }
    else if c == 'ざ' { Some(seq!["za"@]) }
    else if c == 'じ' { Some(seq!["ji"@, "zi"@]) }
    else if c == 'ず' { Some(seq!["zu"@]) }
    else if c == 'ぜ' { Some(seq!["ze"@]) }
    else if c == 'ぞ' { Some(seq!["zo"@]) }
    else if c == 'た' { Some(seq!["ta"@]) }
    else if c == 'ち' { Some(seq!["ti"@, "chi"@]) }
    else if c == 'つ' { Some(seq!["tu"@, "tsu"@]) }
    else if c == 'て' { Some(seq!["te"@]) }
    else if c == 'と' { Some(seq!["to"@]) }
    else if c == 'だ' { Some(seq!["da"@]) }
    else if c == 'ぢ' { Some(seq!["di"@]) }
    else if c == 'づ' { Some(seq!["du"@]) }
    else if c == 'で' { Some(seq!["de"@]) }
    else if c == 'ど' { Some(seq!["do"@]) }
    else if c == 'な' { Some(seq!["na"@]) }
    else if c == 'に' { Some(seq!["ni"@]) }
    else if c == 'ぬ' { Some(seq!["nu"@]) }
    else if c == 'ね' { Some(seq!["ne"@]) }
    else if c == 'の' { Some(seq!["no"@]) }
    else if c == 'は' { Some(seq!["ha"@]) }
    else if c == 'ひ' { Some(seq!["hi"@]) }
    else if c == 'ふ' { Some(seq!["fu"@, "hu"@]) }
    else if c == 'へ' { Some(seq!["he"@]) }
    else if c == 'ほ' { Some(seq!["ho"@]) }
    else if c == 'ば' { Some(seq!["ba"@]) }
    else if c == 'び' { Some(seq!["bi"@]) }
    else if c == 'ぶ' { Some(seq!["bu"@]) }
    else if c == 'べ' { Some(seq!["be"@]) }
    else if c == 'ぼ' { Some(seq!["bo"@]) }
    else if c == 'ぱ' { Some(seq!["pa"@]) }
    else if c == 'ぴ' { Some(seq!["pi"@]) }
    else if c == 'ぷ' { Some(seq!["pu"@]) }
    else if c == 'ぺ' { Some(seq!["pe"@]) }
    else if c == 'ぽ' { Some(seq!["po"@]) }
    else if c == 'ま' { Some(seq!["ma"@]) }
    else if c == 'み' { Some(seq!["mi"@]) }
    else if c == 'む' { Some(seq!["mu"@]) }
    else if c == 'め' { Some(seq!["me"@]) }
    else if c == 'も' { Some(seq!["mo"@]) }
    else if c == 'や' { Some(seq!["ya"@]) }
    else if c == 'ゆ' { Some(seq!["yu"@]) }
    else if c == 'よ' { Some(seq!["yo"@]) }
    else if c == 'ら' { Some(seq!["ra"@]) }
    else if c == 'り' { Some(seq!["ri"@]) }
    else if c == 'る' { Some(seq!["ru"@]) }
    else if c == 'れ' { Some(seq!["re"@]) }
    else if c == 'ろ' { Some(seq!["ro"@]) }
    else if c == 'わ' { Some(seq!["wa"@]) }
    else if c == 'ゐ' { Some(seq!["wyi"@]) }
    else if c == 'ゑ' { Some(seq!["wye"@]) }
    else if c == 'を' { Some(seq!["wo"@]) }
    else if c == 'ん' { Some(seq!["nn"@, "xn"@, "n"@]) }
    else if c == 'ヴ' { Some(seq!["vu"@]) }
    else { None }
}

/// The table entries whose key is a two-character contracted or extended
/// syllable: a consonant base followed by a small vowel or small "y" vowel.
pub open spec fn pair_table(c1: char, c2: char) -> Option<Seq<Seq<char>>> {
    if c1 == 'き' {
        if c2 == 'ゃ' { Some(seq!["kya"@]) }
        else if c2 == 'ぃ' { Some(seq!["kyi"@]) }
        else if c2 == 'ゅ' { Some(seq!["kyu"@]) }
        else if c2 == 'ぇ' { Some(seq!["kye"@]) }
        else if c2 == 'ょ' { Some(seq!["kyo"@]) }
        else { None }
    } else if c1 == 'し' {
        if c2 == 'ゃ' { Some(seq!["sya"@, "sha"@]) }
        else if c2 == 'ぃ' { Some(seq!["syi"@]) }
        else if c2 == 'ゅ' { Some(seq!["syu"@, "shu"@]) }
        else if c2 == 'ぇ' { Some(seq!["sye"@, "she"@]) }
        else if c2 == 'ょ' { Some(seq!["syo"@, "sho"@]) }
        else { None }
    } else if c1 == 'ち' {
        if c2 == 'ゃ' { Some(seq!["tya"@, "cha"@]) }
        else if c2 == 'ぃ' { Some(seq!["tyi"@]) }
        else if c2 == 'ゅ' { Some(seq!["tyu"@, "chu"@]) }
        else if c2 == 'ぇ' { Some(seq!["tye"@, "che"@]) }
        else if c2 == 'ょ' { Some(seq!["tyo"@, "cho"@]) }
        else { None }
    } else if c1 == 'に' {
        if c2 == 'ゃ' { Some(seq!["nya"@]) }
        else if c2 == 'ぃ' { Some(seq!["nyi"@]) }
        else if c2 == 'ゅ' { Some(seq!["nyu"@]) }
        else if c2 == 'ぇ' { Some(seq!["nye"@]) }
        else if c2 == 'ょ' { Some(seq!["nyo"@]) }
        else { None }
    } else if c1 == 'ひ' {
        if c2 == 'ゃ' { Some(seq!["hya"@]) }
        else if c2 == 'ぃ' { Some(seq!["hyi"@]) }
        else if c2 == 'ゅ' { Some(seq!["hyu"@]) }
        else if c2 == 'ぇ' { Some(seq!["hye"@]) }
        else if c2 == 'ょ' { Some(seq!["hyo"@]) }
        else { None }
    } else if c1 == 'み' {
        if c2 == 'ゃ' { Some(seq!["mya"@]) }
        else if c2 == 'ぃ' { Some(seq!["myi"@]) }
        else if c2 == 'ゅ' { Some(seq!["myu"@]) }
        else if c2 == 'ぇ' { Some(seq!["mye"@]) }
        else if c2 == 'ょ' { Some(seq!["myo"@]) }
        else { None }
    } else if c1 == 'り' {
        if c2 == 'ゃ' { Some(seq!["rya"@]) }
        else if c2 == 'ぃ' { Some(seq!["ryi"@]) }
        else if c2 == 'ゅ' { Some(seq!["ryu"@]) }
        else if c2 == 'ぇ' { Some(seq!["rye"@]) }
        else if c2 == 'ょ' { Some(seq!["ryo"@]) }
        else { None }
    } else if c1 == 'ふ' {
        if c2 == 'ぁ' { Some(seq!["fa"@]) }
        else if c2 == 'ぃ' { Some(seq!["fi"@]) }
        else if c2 == 'ぇ' { Some(seq!["fe"@]) }
        else if c2 == 'ぉ' { Some(seq!["fo"@]) }
        else { None }
    } else if c1 == 'ヴ' {
        if c2 == 'ぁ' { Some(seq!["va"@]) }
        else if c2 == 'ぃ' { Some(seq!["vi"@]) }
        else if c2 == 'ぇ' { Some(seq!["ve"@]) }
        else if c2 == 'ぉ' { Some(seq!["vo"@]) }
        else { None }
    } else if c1 == 'く' {
        if c2 == 'ぁ' { Some(seq!["qa"@, "qwa"@]) }
        else if c2 == 'ぃ' { Some(seq!["qi"@, "qwi"@]) }
        else if c2 == 'ぇ' { Some(seq!["qe"@, "qwe"@]) }
        else if c2 == 'ぉ' { Some(seq!["qo"@, "qwo"@]) }
        else { None }
    } else {
        None
    }
}

/// The whole table as a mapping on syllables. Only one- and two-character
/// syllables are ever defined.
pub open spec fn table_alts(key: Seq<char>) -> Option<Seq<Seq<char>>> {
    if key.len() == 1 {
        single_table(key[0])
    } else if key.len() == 2 {
        pair_table(key[0], key[1])
    } else {
        None
    }
}

fn alts1(a: &str) -> (r: Vec<String>)
    ensures
        r.deep_view() == seq![a@],
{
    let mut v: Vec<String> = Vec::new();
    v.push(String::from_str(a));
    proof {
        assert(v.deep_view() =~= seq![a@]);
    }
    v
}

fn alts2(a: &str, b: &str) -> (r: Vec<String>)
    ensures
        r.deep_view() == seq![a@, b@],
{
    let mut v: Vec<String> = Vec::new();
    v.push(String::from_str(a));
    v.push(String::from_str(b));
    proof {
        assert(v.deep_view() =~= seq![a@, b@]);
    }
    v
}

fn alts3(a: &str, b: &str, c: &str) -> (r: Vec<String>)
    ensures
        r.deep_view() == seq![a@, b@, c@],
{
    let mut v: Vec<String> = Vec::new();
    v.push(String::from_str(a));
    v.push(String::from_str(b));
    v.push(String::from_str(c));
    proof {
        assert(v.deep_view() =~= seq![a@, b@, c@]);
    }
    v
}

/// Looks up a single-character syllable; agrees with [`single_table`] on
/// every character.
pub fn single_alternatives(c: char) -> (r: Option<Vec<String>>)
    ensures
        match r {
            Some(v) => single_table(c) == Some(v.deep_view()),
            None => single_table(c) is None,
        },
{
    if c == 'あ' { Some(alts1("a")) }
    else if c == 'い' { Some(alts2("i", "yi")) }
    else if c == 'う' { Some(alts2("u", "wu")) }
    else if c == 'え' { Some(alts1("e")) }
    else if c == 'お' { Some(alts1("o")) }
    else if c == 'か' { Some(alts2("ka", "ca")) }
    else if c == 'き' { Some(alts1("ki")) }
    else if c == 'く' { Some(alts3("ku", "cu", "qu")) }
    else if c == 'け' { Some(alts1("ke")) }
    else if c == 'こ' { Some(alts2("ko", "co")) }
    else if c == 'が' { Some(alts1("ga")) }
    else if c == 'ぎ' { Some(alts1("gi")) }
    else if c == 'ぐ' { Some(alts1("gu")) }
    else if c == 'げ' { Some(alts1("ge")) }
    else if c == 'ご' { Some(alts1("go")) }
    else if c == 'さ' { Some(alts1("sa")) }
    else if c == 'し' { Some(alts3("si", "shi", "ci")) }
    else if c == 'す' { Some(alts1("su")) }
    else if c == 'せ' { Some(alts2("se", "ce")) }
    else if c == 'そ' { Some(alts1("so")) }
    else if c == 'ざ' { Some(alts1("za")) }
    else if c == 'じ' { Some(alts2("ji", "zi")) }
    else if c == 'ず' { Some(alts1("zu")) }
    else if c == 'ぜ' { Some(alts1("ze")) }
    else if c == 'ぞ' { Some(alts1("zo")) }
    else if c == 'た' { Some(alts1("ta")) }
    else if c == 'ち' { Some(alts2("ti", "chi")) }
    else if c == 'つ' { Some(alts2("tu", "tsu")) }
    else if c == 'て' { Some(alts1("te")) }
    else if c == 'と' { Some(alts1("to")) }
    else if c == 'だ' { Some(alts1("da")) }
    else if c == 'ぢ' { Some(alts1("di")) }
    else if c == 'づ' { Some(alts1("du")) }
    else if c == 'で' { Some(alts1("de")) }
    else if c == 'ど' { Some(alts1("do")) }
    else if c == 'な' { Some(alts1("na")) }
    else if c == 'に' { Some(alts1("ni")) }
    else if c == 'ぬ' { Some(alts1("nu")) }
    else if c == 'ね' { Some(alts1("ne")) }
    else if c == 'の' { Some(alts1("no")) }
    else if c == 'は' { Some(alts1("ha")) }
    else if c == 'ひ' { Some(alts1("hi")) }
    else if c == 'ふ' { Some(alts2("fu", "hu")) }
    else if c == 'へ' { Some(alts1("he")) }
    else if c == 'ほ' { Some(alts1("ho")) }
    else if c == 'ば' { Some(alts1("ba")) }
    else if c == 'び' { Some(alts1("bi")) }
    else if c == 'ぶ' { Some(alts1("bu")) }
    else if c == 'べ' { Some(alts1("be")) }
    else if c == 'ぼ' { Some(alts1("bo")) }
    else if c == 'ぱ' { Some(alts1("pa")) }
    else if c == 'ぴ' { Some(alts1("pi")) }
    else if c == 'ぷ' { Some(alts1("pu")) }
    else if c == 'ぺ' { Some(alts1("pe")) }
    else if c == 'ぽ' { Some(alts1("po")) }
    else if c == 'ま' { Some(alts1("ma")) }
    else if c == 'み' { Some(alts1("mi")) }
    else if c == 'む' { Some(alts1("mu")) }
    else if c == 'め' { Some(alts1("me")) }
    else if c == 'も' { Some(alts1("mo")) }
    else if c == 'や' { Some(alts1("ya")) }
    else if c == 'ゆ' { Some(alts1("yu")) }
    else if c == 'よ' { Some(alts1("yo")) }
    else if c == 'ら' { Some(alts1("ra")) }
    else if c == 'り' { Some(alts1("ri")) }
    else if c == 'る' { Some(alts1("ru")) }
    else if c == 'れ' { Some(alts1("re")) }
    else if c == 'ろ' { Some(alts1("ro")) }
    else if c == 'わ' { Some(alts1("wa")) }
    else if c == 'ゐ' { Some(alts1("wyi")) }
    else if c == 'ゑ' { Some(alts1("wye")) }
    else if c == 'を' { Some(alts1("wo")) }
    else if c == 'ん' { Some(alts3("nn", "xn", "n")) }
    else if c == 'ヴ' { Some(alts1("vu")) }
    else { None }
}

/// Looks up a two-character syllable; agrees with [`pair_table`] on every
/// pair of characters.
pub fn pair_alternatives(c1: char, c2: char) -> (r: Option<Vec<String>>)
    ensures
        match r {
            Some(v) => pair_table(c1, c2) == Some(v.deep_view()),
            None => pair_table(c1, c2) is None,
        },
{
    if c1 == 'き' {
        if c2 == 'ゃ' { Some(alts1("kya")) }
        else if c2 == 'ぃ' { Some(alts1("kyi")) }
        else if c2 == 'ゅ' { Some(alts1("kyu")) }
        else if c2 == 'ぇ' { Some(alts1("kye")) }
        else if c2 == 'ょ' { Some(alts1("kyo")) }
        else { None }
    } else if c1 == 'し' {
        if c2 == 'ゃ' { Some(alts2("sya", "sha")) }
        else if c2 == 'ぃ' { Some(alts1("syi")) }
        else if c2 == 'ゅ' { Some(alts2("syu", "shu")) }
        else if c2 == 'ぇ' { Some(alts2("sye", "she")) }
        else if c2 == 'ょ' { Some(alts2("syo", "sho")) }
        else { None }
    } else if c1 == 'ち' {
        if c2 == 'ゃ' { Some(alts2("tya", "cha")) }
        else if c2 == 'ぃ' { Some(alts1("tyi")) }
        else if c2 == 'ゅ' { Some(alts2("tyu", "chu")) }
        else if c2 == 'ぇ' { Some(alts2("tye", "che")) }
        else if c2 == 'ょ' { Some(alts2("tyo", "cho")) }
        else { None }
    } else if c1 == 'に' {
        if c2 == 'ゃ' { Some(alts1("nya")) }
        else if c2 == 'ぃ' { Some(alts1("nyi")) }
        else if c2 == 'ゅ' { Some(alts1("nyu")) }
        else if c2 == 'ぇ' { Some(alts1("nye")) }
        else if c2 == 'ょ' { Some(alts1("nyo")) }
        else { None }
    } else if c1 == 'ひ' {
        if c2 == 'ゃ' { Some(alts1("hya")) }
        else if c2 == 'ぃ' { Some(alts1("hyi")) }
        else if c2 == 'ゅ' { Some(alts1("hyu")) }
        else if c2 == 'ぇ' { Some(alts1("hye")) }
        else if c2 == 'ょ' { Some(alts1("hyo")) }
        else { None }
    } else if c1 == 'み' {
        if c2 == 'ゃ' { Some(alts1("mya")) }
        else if c2 == 'ぃ' { Some(alts1("myi")) }
        else if c2 == 'ゅ' { Some(alts1("myu")) }
        else if c2 == 'ぇ' { Some(alts1("mye")) }
        else if c2 == 'ょ' { Some(alts1("myo")) }
        else { None }
    } else if c1 == 'り' {
        if c2 == 'ゃ' { Some(alts1("rya")) }
        else if c2 == 'ぃ' { Some(alts1("ryi")) }
        else if c2 == 'ゅ' { Some(alts1("ryu")) }
        else if c2 == 'ぇ' { Some(alts1("rye")) }
        else if c2 == 'ょ' { Some(alts1("ryo")) }
        else { None }
    } else if c1 == 'ふ' {
        if c2 == 'ぁ' { Some(alts1("fa")) }
        else if c2 == 'ぃ' { Some(alts1("fi")) }
        else if c2 == 'ぇ' { Some(alts1("fe")) }
        else if c2 == 'ぉ' { Some(alts1("fo")) }
        else { None }
    } else if c1 == 'ヴ' {
        if c2 == 'ぁ' { Some(alts1("va")) }
        else if c2 == 'ぃ' { Some(alts1("vi")) }
        else if c2 == 'ぇ' { Some(alts1("ve")) }
        else if c2 == 'ぉ' { Some(alts1("vo")) }
        else { None }
    } else if c1 == 'く' {
        if c2 == 'ぁ' { Some(alts2("qa", "qwa")) }
        else if c2 == 'ぃ' { Some(alts2("qi", "qwi")) }
        else if c2 == 'ぇ' { Some(alts2("qe", "qwe")) }
        else if c2 == 'ぉ' { Some(alts2("qo", "qwo")) }
        else { None }
    } else {
        None
    }
}


/// Every entry of the single-character table offers at least one spelling,
/// and none of its spellings is the empty string.
pub proof fn lemma_single_table_wf(c: char)
    ensures
        single_table(c) matches Some(a) ==> a.len() > 0 && (forall|j: int|
            0 <= j < a.len() ==> #[trigger] a[j].len() > 0),
{
        reveal_strlit("a");
        reveal_strlit("ba");
        reveal_strlit("be");
        reveal_strlit("bi");
        reveal_strlit("bo");
        reveal_strlit("bu");
        reveal_strlit("ca");
        reveal_strlit("ce");
        reveal_strlit("chi");
        reveal_strlit("ci");
        reveal_strlit("co");
        reveal_strlit("cu");
        reveal_strlit("da");
        reveal_strlit("de");
        reveal_strlit("di");
        reveal_strlit("do");
        reveal_strlit("du");
        reveal_strlit("e");
        reveal_strlit("fu");
        reveal_strlit("ga");
        reveal_strlit("ge");
        reveal_strlit("gi");
        reveal_strlit("go");
        reveal_strlit("gu");
        reveal_strlit("ha");
        reveal_strlit("he");
        reveal_strlit("hi");
        reveal_strlit("ho");
        reveal_strlit("hu");
        reveal_strlit("i");
        reveal_strlit("ji");
        reveal_strlit("ka");
        reveal_strlit("ke");
        reveal_strlit("ki");
        reveal_strlit("ko");
        reveal_strlit("ku");
        reveal_strlit("ma");
        reveal_strlit("me");
        reveal_strlit("mi");
        reveal_strlit("mo");
        reveal_strlit("mu");
        reveal_strlit("n");
        reveal_strlit("na");
        reveal_strlit("ne");
        reveal_strlit("ni");
        reveal_strlit("nn");
        reveal_strlit("no");
        reveal_strlit("nu");
        reveal_strlit("o");
        reveal_strlit("pa");
        reveal_strlit("pe");
        reveal_strlit("pi");
        reveal_strlit("po");
        reveal_strlit("pu");
        reveal_strlit("qu");
        reveal_strlit("ra");
        reveal_strlit("re");
        reveal_strlit("ri");
        reveal_strlit("ro");
        reveal_strlit("ru");
        reveal_strlit("sa");
        reveal_strlit("se");
        reveal_strlit("shi");
        reveal_strlit("si");
        reveal_strlit("so");
        reveal_strlit("su");
        reveal_strlit("ta");
        reveal_strlit("te");
        reveal_strlit("ti");
        reveal_strlit("to");
        reveal_strlit("tsu");
        reveal_strlit("tu");
        reveal_strlit("u");
        reveal_strlit("vu");
        reveal_strlit("wa");
        reveal_strlit("wo");
        reveal_strlit("wu");
        reveal_strlit("wye");
        reveal_strlit("wyi");
        reveal_strlit("xn");
        reveal_strlit("ya");
        reveal_strlit("yi");
        reveal_strlit("yo");
        reveal_strlit("yu");
        reveal_strlit("za");
        reveal_strlit("ze");
        reveal_strlit("zi");
        reveal_strlit("zo");
        reveal_strlit("zu");
}

/// Every entry of the two-character table offers at least one spelling, and
/// none of its spellings is the empty string.
pub proof fn lemma_pair_table_wf(c1: char, c2: char)
    ensures
        pair_table(c1, c2) matches Some(a) ==> a.len() > 0 && (forall|j: int|
            0 <= j < a.len() ==> #[trigger] a[j].len() > 0),
{
        reveal_strlit("cha");
        reveal_strlit("che");
        reveal_strlit("cho");
        reveal_strlit("chu");
        reveal_strlit("fa");
        reveal_strlit("fe");
        reveal_strlit("fi");
        reveal_strlit("fo");
        reveal_strlit("hya");
        reveal_strlit("hye");
        reveal_strlit("hyi");
        reveal_strlit("hyo");
        reveal_strlit("hyu");
        reveal_strlit("kya");
        reveal_strlit("kye");
        reveal_strlit("kyi");
        reveal_strlit("kyo");
        reveal_strlit("kyu");
        reveal_strlit("mya");
        reveal_strlit("mye");
        reveal_strlit("myi");
        reveal_strlit("myo");
        reveal_strlit("myu");
        reveal_strlit("nya");
        reveal_strlit("nye");
        reveal_strlit("nyi");
        reveal_strlit("nyo");
        reveal_strlit("nyu");
        reveal_strlit("qa");
        reveal_strlit("qe");
        reveal_strlit("qi");
        reveal_strlit("qo");
        reveal_strlit("qwa");
        reveal_strlit("qwe");
        reveal_strlit("qwi");
        reveal_strlit("qwo");
        reveal_strlit("rya");
        reveal_strlit("rye");
        reveal_strlit("ryi");
        reveal_strlit("ryo");
        reveal_strlit("ryu");
        reveal_strlit("sha");
        reveal_strlit("she");
        reveal_strlit("sho");
        reveal_strlit("shu");
        reveal_strlit("sya");
        reveal_strlit("sye");
        reveal_strlit("syi");
        reveal_strlit("syo");
        reveal_strlit("syu");
        reveal_strlit("tya");
        reveal_strlit("tye");
        reveal_strlit("tyi");
        reveal_strlit("tyo");
        reveal_strlit("tyu");
        reveal_strlit("va");
        reveal_strlit("ve");
        reveal_strlit("vi");
        reveal_strlit("vo");
}

} // verus!
