use vstd::prelude::*;
use vstd::string::StringExecFns;
use cmudict_fast::{Cmudict, Rule};

verus! {

/// The mapping from dictionary phone symbols to IPA glyphs. A vowel's key keeps
/// its primary (`1`) or secondary (`2`) stress digit; the unstressed digit `0` is
/// removed before lookup, so an unstressed vowel is found under its bare symbol.
pub open spec fn ipa_table() -> Seq<(Seq<char>, Seq<char>)> {
    seq![
        ("AA"@, "ɑ"@),
        ("AA1"@, "ɑː"@),
        ("AA2"@, "ɑː"@),
        ("AE"@, "æ"@),
        ("AE1"@, "æ"@),
        ("AE2"@, "æ"@),
        ("AH"@, "ə"@),
        ("AH1"@, "ʌ"@),
        ("AH2"@, "ə"@),
        ("AO"@, "ɔ"@),
        ("AO1"@, "ɔː"@),
        ("AO2"@, "ɔː"@),
        ("AW"@, "aʊ"@),
        ("AW1"@, "aʊ"@),
        ("AW2"@, "aʊ"@),
        ("AY"@, "aɪ"@),
        ("AY1"@, "aɪ"@),
        ("AY2"@, "aɪ"@),
        ("EH"@, "ɛ"@),
        ("EH1"@, "ɛ"@),
        ("EH2"@, "ɛ"@),
        ("ER"@, "ɝ"@),
        ("ER1"@, "ɝː"@),
        ("ER2"@, "ɝː"@),
        ("EY"@, "eɪ"@),
        ("EY1"@, "eɪ"@),
        ("EY2"@, "eɪ"@),
        ("IH"@, "ᵻ"@),
        ("IH1"@, "ɪ"@),
        ("IH2"@, "ɪ"@),
        ("IY"@, "i"@),
        ("IY1"@, "iː"@),
        ("IY2"@, "iː"@),
        ("OW"@, "oʊ"@),
        ("OW1"@, "oʊ"@),
        ("OW2"@, "oʊ"@),
        ("OY"@, "ɔɪ"@),
        ("OY1"@, "ɔɪ"@),
        ("OY2"@, "ɔɪ"@),
        ("UH"@, "ʊ"@),
        ("UH1"@, "ʊ"@),
        ("UH2"@, "ʊ"@),
        ("UW"@, "u"@),
        ("UW1"@, "uː"@),
        ("UW2"@, "uː"@),
        ("B"@, "b"@),
        ("CH"@, "tʃ"@),
        ("D"@, "d"@),
        ("DH"@, "ð"@),
        ("F"@, "f"@),
        ("G"@, "ɡ"@),
        ("HH"@, "h"@),
        ("JH"@, "dʒ"@),
        ("K"@, "k"@),
        ("L"@, "l"@),
        ("M"@, "m"@),
        ("N"@, "n"@),
        ("NG"@, "ŋ"@),
        ("P"@, "p"@),
        ("R"@, "ɹ"@),
        ("S"@, "s"@),
        ("SH"@, "ʃ"@),
        ("T"@, "t"@),
        ("TH"@, "θ"@),
        ("V"@, "v"@),
        ("W"@, "w"@),
        ("Y"@, "j"@),
        ("Z"@, "z"@),
        ("ZH"@, "ʒ"@),
    ]
}

/// The views of a table of string pairs.
pub open spec fn pairs_view(t: Seq<(&str, &str)>) -> Seq<(Seq<char>, Seq<char>)> {
    t.map_values(|p: (&str, &str)| (p.0@, p.1@))
}

/// Builds the phone-to-IPA table, in the order of `ipa_table`.
pub fn get_ipa() -> (r: Vec<(&'static str, &'static str)>)
    ensures
        pairs_view(r@) == ipa_table(),
{
    let r = vec![
        ("AA", "ɑ"),
        ("AA1", "ɑː"),
        ("AA2", "ɑː"),
        ("AE", "æ"),
        ("AE1", "æ"),
        ("AE2", "æ"),
        ("AH", "ə"),
        ("AH1", "ʌ"),
        ("AH2", "ə"),
        ("AO", "ɔ"),
        ("AO1", "ɔː"),
        ("AO2", "ɔː"),
        ("AW", "aʊ"),
        ("AW1", "aʊ"),
        ("AW2", "aʊ"),
        ("AY", "aɪ"),
        ("AY1", "aɪ"),
        ("AY2", "aɪ"),
        ("EH", "ɛ"),
        ("EH1", "ɛ"),
        ("EH2", "ɛ"),
        ("ER", "ɝ"),
        ("ER1", "ɝː"),
        ("ER2", "ɝː"),
        ("EY", "eɪ"),
        ("EY1", "eɪ"),
        ("EY2", "eɪ"),
        ("IH", "ᵻ"),
        ("IH1", "ɪ"),
        ("IH2", "ɪ"),
        ("IY", "i"),
        ("IY1", "iː"),
        ("IY2", "iː"),
        ("OW", "oʊ"),
        ("OW1", "oʊ"),
        ("OW2", "oʊ"),
        ("OY", "ɔɪ"),
        ("OY1", "ɔɪ"),
        ("OY2", "ɔɪ"),
        ("UH", "ʊ"),
        ("UH1", "ʊ"),
        ("UH2", "ʊ"),
        ("UW", "u"),
        ("UW1", "uː"),
        ("UW2", "uː"),
        ("B", "b"),
        ("CH", "tʃ"),
        ("D", "d"),
        ("DH", "ð"),
        ("F", "f"),
        ("G", "ɡ"),
        ("HH", "h"),
        ("JH", "dʒ"),
        ("K", "k"),
        ("L", "l"),
        ("M", "m"),
        ("N", "n"),
        ("NG", "ŋ"),
        ("P", "p"),
        ("R", "ɹ"),
        ("S", "s"),
        ("SH", "ʃ"),
        ("T", "t"),
        ("TH", "θ"),
        ("V", "v"),
        ("W", "w"),
        ("Y", "j"),
        ("Z", "z"),
        ("ZH", "ʒ"),
    ];
    assert(pairs_view(r@) =~= ipa_table());
    r
}

/// The glyphs of the first entry of `table` whose key is `key`.
pub open spec fn ipa_lookup(table: Seq<(Seq<char>, Seq<char>)>, key: Seq<char>) -> Option<Seq<char>>
    decreases table.len(),
{
    if table.len() == 0 {
        None
    } else if table[0].0 == key {
        Some(table[0].1)
    } else {
        ipa_lookup(table.drop_first(), key)
    }
}

/// `s` without its `0` characters: the key of a phone symbol in the IPA table.
pub open spec fn without_zeros(s: Seq<char>) -> Seq<char>
    decreases s.len(),
{
    if s.len() == 0 {
        s
    } else if s.last() == '0' {
        without_zeros(s.drop_last())
    } else {
        without_zeros(s.drop_last()).push(s.last())
    }
}

/// Relies on `String::push`, which appends one character.
#[verifier::external_body]
pub(crate) fn push_char(s: &mut String, c: char)
    ensures
        final(s)@ == old(s)@.push(c),
{
    s.push(c);
}

fn str_eq(a: &str, b: &str) -> (r: bool)
    ensures
        r == (a@ == b@),
{
    let n = a.unicode_len();
    if n != b.unicode_len() {
        return false;
    }
    let mut i: usize = 0;
    while i < n
        invariant
            n == a@.len(),
            n == b@.len(),
            i <= n,
            forall|j: int| 0 <= j < i ==> a@[j] == b@[j],
        decreases n - i,
    {
        if a.get_char(i) != b.get_char(i) {
            return false;
        }
        i = i + 1;
    }
    assert(a@ =~= b@);
    true
}

/// The key under which `phone` is found in the IPA table.
pub fn phone_key(phone: &str) -> (r: String)
    ensures
        r@ == without_zeros(phone@),
{
    let mut out = String::new();
    let n = phone.unicode_len();
    let mut i: usize = 0;
    while i < n
        invariant
            n == phone@.len(),
            i <= n,
            out@ == without_zeros(phone@.subrange(0, i as int)),
        decreases n - i,
    {
        let c = phone.get_char(i);
        proof {
            let s = phone@.subrange(0, i + 1);
            assert(s.drop_last() =~= phone@.subrange(0, i as int));
        }
        if c != '0' {
            push_char(&mut out, c);
        }
        i = i + 1;
    }
    assert(phone@.subrange(0, n as int) =~= phone@);
    out
}

/// Finds the glyphs of the first entry of `table` whose key is `key`.
pub fn lookup_ipa<'a>(table: &Vec<(&'a str, &'a str)>, key: &str) -> (r: Option<&'a str>)
    ensures
        match r {
            Some(g) => ipa_lookup(pairs_view(table@), key@) == Some(g@),
            None => ipa_lookup(pairs_view(table@), key@) is None,
        },
{
    let mut i: usize = 0;
    assert(pairs_view(table@).subrange(0, table@.len() as int) =~= pairs_view(table@));
    while i < table.len()
        invariant
            i <= table@.len(),
            ipa_lookup(pairs_view(table@), key@) == ipa_lookup(
                pairs_view(table@).subrange(i as int, table@.len() as int),
                key@,
            ),
        decreases table@.len() - i,
    {
        let ghost rest = pairs_view(table@).subrange(i as int, table@.len() as int);
        assert(rest[0] == (table@[i as int].0@, table@[i as int].1@));
        if str_eq(table[i].0, key) {
            return Some(table[i].1);
        }
        assert(rest.drop_first() =~= pairs_view(table@).subrange(i + 1, table@.len() as int));
        i = i + 1;
    }
    None
}

#[verifier::external_type_specification]
#[verifier::external_body]
pub struct ExCmudict(Cmudict);

/// The rules that a dictionary lists for each word, in the order of its text;
/// each rule is the text of its phone symbols (`"K"`, `"AE1"`, `"AH0"`).
pub uninterp spec fn dictionary_entries(d: Cmudict) -> Map<Seq<char>, Seq<Seq<Seq<char>>>>;

/// The entries that `Cmudict`'s `FromStr` builds from a dictionary text, or `None`
/// where the text is malformed.
pub uninterp spec fn parsed_dictionary(text: Seq<char>) -> Option<
    Map<Seq<char>, Seq<Seq<Seq<char>>>>,
>;

/// The phone symbols, as text, that `Rule`'s `FromStr` reads from a line, or `None`
/// where the line does not parse.
pub uninterp spec fn rule_symbols(line: Seq<char>) -> Option<Seq<Seq<char>>>;

/// What `str::to_lowercase` gives for `s`.
pub uninterp spec fn lower_of(s: Seq<char>) -> Seq<char>;

/// What `str::to_uppercase` gives for `s`.
pub uninterp spec fn upper_of(s: Seq<char>) -> Seq<char>;

/// The views of a sequence of strings.
pub open spec fn strings_view(v: Seq<String>) -> Seq<Seq<char>> {
    v.map_values(|s: String| s@)
}

/// The views of a sequence of rules.
pub open spec fn rules_view(v: Seq<Vec<String>>) -> Seq<Seq<Seq<char>>> {
    v.map_values(|r: Vec<String>| strings_view(r@))
}

/// Whether every phone of `phones` is a dictionary symbol text.
pub open spec fn all_cmu_symbols(phones: Seq<Seq<char>>) -> bool {
    forall|j: int| 0 <= j < phones.len() ==> is_cmu_symbol(#[trigger] phones[j])
}

/// Whether every word of `entries` has at least one rule, and every rule is made
/// of dictionary symbol texts.
pub open spec fn valid_entries(entries: Map<Seq<char>, Seq<Seq<Seq<char>>>>) -> bool {
    forall|w: Seq<char>|
        #[trigger] entries.contains_key(w) ==> entries[w].len() >= 1 && forall|i: int|
            0 <= i < entries[w].len() ==> all_cmu_symbols(#[trigger] entries[w][i])
}

/// Relies on `Cmudict`'s `FromStr` (through `str::parse`): builds a dictionary
/// from its text; an error is kept as its message. Each word it holds gets a rule
/// as it is first met, and each rule's symbols are `cmudict_fast::Symbol`s.
#[verifier::external_body]
fn parse_dictionary(text: &str) -> (r: Result<Cmudict, String>)
    ensures
        match r {
            Ok(d) => parsed_dictionary(text@) == Some(dictionary_entries(d)) && valid_entries(
                dictionary_entries(d),
            ),
            Err(_) => parsed_dictionary(text@) is None,
        },
{
    text.parse::<Cmudict>().map_err(|e| e.to_string())
}

/// Relies on `Cmudict::get` and on the `Display` of `cmudict_fast::Symbol`: every
/// rule that the dictionary lists for `word`, in order, as the text of its symbols.
#[verifier::external_body]
fn lookup_rules(d: &Cmudict, word: &str) -> (r: Option<Vec<Vec<String>>>)
    ensures
        match r {
            Some(v) => dictionary_entries(*d).contains_key(word@) && rules_view(v@)
                == dictionary_entries(*d)[word@] && v@.len() >= 1,
            None => !dictionary_entries(*d).contains_key(word@),
        },
{
    match d.get(word) {
        Some(rules) => Some(
            rules.iter().map(|r| r.pronunciation().iter().map(|s| s.to_string()).collect()).collect(),
        ),
        None => None,
    }
}

/// Relies on `Rule`'s `FromStr` (through `str::parse`) and on the `Display` of
/// `cmudict_fast::Symbol`: the symbols that follow the label of `line`, as text.
#[verifier::external_body]
fn parse_rule(line: &str) -> (r: Option<Vec<String>>)
    ensures
        match r {
            Some(v) => rule_symbols(line@) == Some(strings_view(v@)) && all_cmu_symbols(
                strings_view(v@),
            ),
            None => rule_symbols(line@) is None,
        },
{
    match line.parse::<Rule>() {
        Ok(rule) => Some(rule.pronunciation().iter().map(|s| s.to_string()).collect()),
        Err(_) => None,
    }
}

/// Whether every character of `s` is ASCII.
pub open spec fn is_ascii_text(s: Seq<char>) -> bool {
    forall|i: int| 0 <= i < s.len() ==> #[trigger] s[i] <= '\u{7f}'
}

/// The upper case of an ASCII character: letters map from `a`-`z` to `A`-`Z`,
/// other characters stay.
pub open spec fn ascii_upper(c: char) -> char {
    match c {
        'a' => 'A',
        'b' => 'B',
        'c' => 'C',
        'd' => 'D',
        'e' => 'E',
        'f' => 'F',
        'g' => 'G',
        'h' => 'H',
        'i' => 'I',
        'j' => 'J',
        'k' => 'K',
        'l' => 'L',
        'm' => 'M',
        'n' => 'N',
        'o' => 'O',
        'p' => 'P',
        'q' => 'Q',
        'r' => 'R',
        's' => 'S',
        't' => 'T',
        'u' => 'U',
        'v' => 'V',
        'w' => 'W',
        'x' => 'X',
        'y' => 'Y',
        'z' => 'Z',
        _ => c,
    }
}

/// The lower case of an ASCII character: letters map from `A`-`Z` to `a`-`z`,
/// other characters stay.
pub open spec fn ascii_lower(c: char) -> char {
    match c {
        'A' => 'a',
        'B' => 'b',
        'C' => 'c',
        'D' => 'd',
        'E' => 'e',
        'F' => 'f',
        'G' => 'g',
        'H' => 'h',
        'I' => 'i',
        'J' => 'j',
        'K' => 'k',
        'L' => 'l',
        'M' => 'm',
        'N' => 'n',
        'O' => 'o',
        'P' => 'p',
        'Q' => 'q',
        'R' => 'r',
        'S' => 's',
        'T' => 't',
        'U' => 'u',
        'V' => 'v',
        'W' => 'w',
        'X' => 'x',
        'Y' => 'y',
        'Z' => 'z',
        _ => c,
    }
}

/// Relies on `str::to_lowercase`, which maps ASCII text letter by letter.
#[verifier::external_body]
fn lowercase(s: &str) -> (r: String)
    ensures
        r@ == lower_of(s@),
        is_ascii_text(s@) ==> r@ == s@.map_values(|c: char| ascii_lower(c)),
{
    s.to_lowercase()
}

/// Relies on `str::to_uppercase`, which maps ASCII text letter by letter.
#[verifier::external_body]
fn uppercase(s: &str) -> (r: String)
    ensures
        r@ == upper_of(s@),
        is_ascii_text(s@) ==> r@ == s@.map_values(|c: char| ascii_upper(c)),
{
    s.to_uppercase()
}

/// Failure to build a phonemizer.
#[derive(Debug)]
pub enum PhonemizerError {
    /// The dictionary text is malformed; holds the parser's message.
    DictLoad(String),
}

pub open spec fn phonemizer_error_message(e: PhonemizerError) -> Seq<char> {
    match e {
        PhonemizerError::DictLoad(m) => "failed to load dictionary: "@ + m@,
    }
}

impl PhonemizerError {
    /// The error's message, with the parser's own.
    pub fn message(&self) -> (r: String)
        ensures
            r@ == phonemizer_error_message(*self),
    {
        match self {
            PhonemizerError::DictLoad(m) => {
                let mut r = String::from_str("failed to load dictionary: ");
                r.append(m.as_str());
                r
            },
        }
    }
}

/// The phone sequence for `word`: the first rule that the dictionary lists under
/// the lowercased word (its preferred pronunciation), else the symbols read from
/// the uppercased word taken as a rule line.
pub open spec fn resolved_phones(entries: Map<Seq<char>, Seq<Seq<Seq<char>>>>, word: Seq<char>) -> Option<
    Seq<Seq<char>>,
> {
    if entries.contains_key(lower_of(word)) {
        Some(entries[lower_of(word)][0])
    } else {
        rule_symbols(upper_of(word))
    }
}

/// Whether the IPA table has an entry for `phone`.
pub open spec fn has_glyph(phone: Seq<char>) -> bool {
    ipa_lookup(ipa_table(), without_zeros(phone)) is Some
}

/// The IPA glyphs of `phone`.
pub open spec fn glyph(phone: Seq<char>) -> Seq<char> {
    match ipa_lookup(ipa_table(), without_zeros(phone)) {
        Some(g) => g,
        None => Seq::empty(),
    }
}

/// The glyphs of `phones`, concatenated in order with no separator.
pub open spec fn concat_glyphs(phones: Seq<Seq<char>>) -> Seq<char>
    decreases phones.len(),
{
    if phones.len() == 0 {
        Seq::empty()
    } else {
        concat_glyphs(phones.drop_last()) + glyph(phones.last())
    }
}

/// The phonemization of `word`. A word that neither the dictionary nor the rule
/// reading resolves has none. An empty phone sequence spells the word out in
/// upper case. A phone without an IPA entry would leave the word without one;
/// no dictionary symbol lacks one (`lemma_cmu_symbols_have_glyphs`).
pub open spec fn phonemize_spec(entries: Map<Seq<char>, Seq<Seq<Seq<char>>>>, word: Seq<char>) -> Option<
    Seq<char>,
> {
    match resolved_phones(entries, word) {
        None => None,
        Some(phones) => if phones.len() == 0 {
            Some(upper_of(word))
        } else if forall|i: int| 0 <= i < phones.len() ==> has_glyph(#[trigger] phones[i]) {
            Some(concat_glyphs(phones))
        } else {
            None
        },
    }
}

/// Grapheme-to-phoneme resolution over a pronunciation dictionary.
#[derive(Debug)]
pub struct Phonemizer {
    dict: Cmudict,
    ipa: Vec<(&'static str, &'static str)>,
}

impl Phonemizer {
    /// The rules that the dictionary lists for each word.
    pub closed spec fn entries(&self) -> Map<Seq<char>, Seq<Seq<Seq<char>>>> {
        dictionary_entries(self.dict)
    }

    /// The IPA table is the one of `ipa_table`, and every word of the dictionary
    /// has at least one rule made of dictionary symbol texts.
    pub closed spec fn wf(&self) -> bool {
        &&& pairs_view(self.ipa@) == ipa_table()
        &&& valid_entries(self.entries())
    }

    /// Builds a phonemizer from the text of a pronunciation dictionary (one word
    /// per line, then its phone symbols). Fails exactly where the text does not parse.
    pub fn new(dictionary: &str) -> (r: Result<Phonemizer, PhonemizerError>)
        ensures
            match r {
                Ok(p) => p.wf() && parsed_dictionary(dictionary@) == Some(p.entries())
                    && valid_entries(p.entries()),
                Err(_) => parsed_dictionary(dictionary@) is None,
            },
    {
        match parse_dictionary(dictionary) {
            Ok(dict) => Ok(Phonemizer { dict, ipa: get_ipa() }),
            Err(msg) => Err(PhonemizerError::DictLoad(msg)),
        }
    }

    /// The IPA phonemization of one word, as `phonemize_spec` describes it. A word
    /// that the dictionary or the rule reading resolves always has one.
    pub fn phonemize(&self, word: &str) -> (r: Option<String>)
        requires
            self.wf(),
        ensures
            match r {
                Some(s) => phonemize_spec(self.entries(), word@) == Some(s@),
                None => phonemize_spec(self.entries(), word@) is None,
            },
            resolved_phones(self.entries(), word@) is Some ==> r is Some,
    {
        let lower = lowercase(word);
        let upper = uppercase(word);
        let phones = match lookup_rules(&self.dict, lower.as_str()) {
            Some(rules) => {
                let mut rules = rules;
                let ghost all = rules@;
                let first = rules.remove(0);
                proof {
                    assert(rules_view(all)[0] == strings_view(first@));
                    assert(all_cmu_symbols(self.entries()[lower@][0]));
                }
                first
            },
            None => match parse_rule(upper.as_str()) {
                Some(p) => p,
                None => {
                    return None;
                },
            },
        };
        let ghost ps = strings_view(phones@);
        assert(resolved_phones(self.entries(), word@) == Some(ps));
        assert(all_cmu_symbols(ps));
        proof {
            lemma_cmu_symbols_have_glyphs();
        }
        if phones.len() == 0 {
            return Some(upper);
        }
        let mut out = String::new();
        let mut i: usize = 0;
        while i < phones.len()
            invariant
                self.wf(),
                ps == strings_view(phones@),
                resolved_phones(self.entries(), word@) == Some(ps),
                all_cmu_symbols(ps),
                forall|t: Seq<char>| #[trigger] is_cmu_symbol(t) ==> has_glyph(t),
                i <= phones@.len(),
                out@ == concat_glyphs(ps.subrange(0, i as int)),
                forall|j: int| 0 <= j < i ==> has_glyph(#[trigger] ps[j]),
            decreases phones@.len() - i,
        {
            let key = phone_key(phones[i].as_str());
            assert(ps[i as int] == phones@[i as int]@);
            match lookup_ipa(&self.ipa, key.as_str()) {
                Some(g) => {
                    out.append(g);
                    proof {
                        let s = ps.subrange(0, i + 1);
                        assert(s.drop_last() =~= ps.subrange(0, i as int));
                    }
                },
                None => {
                    assert(has_glyph(ps[i as int]));
                    return None;
                },
            }
            i = i + 1;
        }
        assert(ps.subrange(0, phones@.len() as int) =~= ps);
        Some(out)
    }
}

/// The texts that the `Display` of `cmudict_fast::Symbol` writes: a vowel with
/// its stress digit (`0`, `1` or `2`), or a bare consonant.
pub open spec fn is_cmu_symbol(t: Seq<char>) -> bool {
    t == "AA0"@ || t == "AA1"@ || t == "AA2"@ || t == "AE0"@ || t == "AE1"@ || t == "AE2"@
        || t == "AH0"@ || t == "AH1"@ || t == "AH2"@ || t == "AO0"@ || t == "AO1"@
        || t == "AO2"@ || t == "AW0"@ || t == "AW1"@ || t == "AW2"@ || t == "AY0"@
        || t == "AY1"@ || t == "AY2"@ || t == "EH0"@ || t == "EH1"@ || t == "EH2"@
        || t == "ER0"@ || t == "ER1"@ || t == "ER2"@ || t == "EY0"@ || t == "EY1"@
        || t == "EY2"@ || t == "IH0"@ || t == "IH1"@ || t == "IH2"@ || t == "IY0"@
        || t == "IY1"@ || t == "IY2"@ || t == "OW0"@ || t == "OW1"@ || t == "OW2"@
        || t == "OY0"@ || t == "OY1"@ || t == "OY2"@ || t == "UH0"@ || t == "UH1"@
        || t == "UH2"@ || t == "UW0"@ || t == "UW1"@ || t == "UW2"@ || t == "B"@ || t == "CH"@
        || t == "D"@ || t == "DH"@ || t == "F"@ || t == "G"@ || t == "HH"@ || t == "JH"@
        || t == "K"@ || t == "L"@ || t == "M"@ || t == "N"@ || t == "NG"@ || t == "P"@
        || t == "R"@ || t == "S"@ || t == "SH"@ || t == "T"@ || t == "TH"@ || t == "V"@
        || t == "W"@ || t == "Y"@ || t == "Z"@ || t == "ZH"@
}

proof fn lemma_lookup_at(t: Seq<(Seq<char>, Seq<char>)>, key: Seq<char>, i: int)
    requires
        0 <= i < t.len(),
        t[i].0 == key,
    ensures
        ipa_lookup(t, key) is Some,
    decreases i,
{
    if i > 0 && t[0].0 != key {
        lemma_lookup_at(t.drop_first(), key, i - 1);
    }
}

proof fn lemma_without_zeros_plain(s: Seq<char>)
    requires
        forall|j: int| 0 <= j < s.len() ==> s[j] != '0',
    ensures
        without_zeros(s) == s,
    decreases s.len(),
{
    if s.len() > 0 {
        lemma_without_zeros_plain(s.drop_last());
        assert(s.drop_last().push(s.last()) =~= s);
    }
}

proof fn lemma_key_glyph(s: Seq<char>, i: int)
    requires
        0 <= i < ipa_table().len(),
        s == ipa_table()[i].0,
        forall|j: int| 0 <= j < s.len() ==> s[j] != '0',
    ensures
        has_glyph(s),
{
    lemma_without_zeros_plain(s);
    lemma_lookup_at(ipa_table(), s, i);
}

proof fn lemma_unstressed_glyph(s: Seq<char>, i: int)
    requires
        0 <= i < ipa_table().len(),
        s == ipa_table()[i].0.push('0'),
        forall|j: int| 0 <= j < ipa_table()[i].0.len() ==> ipa_table()[i].0[j] != '0',
    ensures
        has_glyph(s),
{
    let k = ipa_table()[i].0;
    lemma_without_zeros_plain(k);
    assert(s.drop_last() =~= k);
    lemma_lookup_at(ipa_table(), k, i);
}

proof fn lemma_vowels_have_glyphs()
    ensures
        has_glyph("AA0"@),
        has_glyph("AA1"@),
        has_glyph("AA2"@),
        has_glyph("AE0"@),
        has_glyph("AE1"@),
        has_glyph("AE2"@),
        has_glyph("AH0"@),
        has_glyph("AH1"@),
        has_glyph("AH2"@),
        has_glyph("AO0"@),
        has_glyph("AO1"@),
        has_glyph("AO2"@),
        has_glyph("AW0"@),
        has_glyph("AW1"@),
        has_glyph("AW2"@),
        has_glyph("AY0"@),
        has_glyph("AY1"@),
        has_glyph("AY2"@),
        has_glyph("EH0"@),
        has_glyph("EH1"@),
        has_glyph("EH2"@),
        has_glyph("ER0"@),
        has_glyph("ER1"@),
        has_glyph("ER2"@),
        has_glyph("EY0"@),
        has_glyph("EY1"@),
        has_glyph("EY2"@),
        has_glyph("IH0"@),
        has_glyph("IH1"@),
        has_glyph("IH2"@),
        has_glyph("IY0"@),
        has_glyph("IY1"@),
        has_glyph("IY2"@),
        has_glyph("OW0"@),
        has_glyph("OW1"@),
        has_glyph("OW2"@),
        has_glyph("OY0"@),
        has_glyph("OY1"@),
        has_glyph("OY2"@),
        has_glyph("UH0"@),
        has_glyph("UH1"@),
        has_glyph("UH2"@),
        has_glyph("UW0"@),
        has_glyph("UW1"@),
        has_glyph("UW2"@),
{
    reveal_strlit("AA");
    reveal_strlit("AA0");
    reveal_strlit("AA1");
    reveal_strlit("AA2");
    assert("AA0"@ =~= "AA"@.push('0'));
    lemma_unstressed_glyph("AA0"@, 0);
    lemma_key_glyph("AA1"@, 1);
    lemma_key_glyph("AA2"@, 2);
    reveal_strlit("AE");
    reveal_strlit("AE0");
    reveal_strlit("AE1");
    reveal_strlit("AE2");
    assert("AE0"@ =~= "AE"@.push('0'));
    lemma_unstressed_glyph("AE0"@, 3);
    lemma_key_glyph("AE1"@, 4);
    lemma_key_glyph("AE2"@, 5);
    reveal_strlit("AH");
    reveal_strlit("AH0");
    reveal_strlit("AH1");
    reveal_strlit("AH2");
    assert("AH0"@ =~= "AH"@.push('0'));
    lemma_unstressed_glyph("AH0"@, 6);
    lemma_key_glyph("AH1"@, 7);
    lemma_key_glyph("AH2"@, 8);
    reveal_strlit("AO");
    reveal_strlit("AO0");
    reveal_strlit("AO1");
    reveal_strlit("AO2");
    assert("AO0"@ =~= "AO"@.push('0'));
    lemma_unstressed_glyph("AO0"@, 9);
    lemma_key_glyph("AO1"@, 10);
    lemma_key_glyph("AO2"@, 11);
    reveal_strlit("AW");
    reveal_strlit("AW0");
    reveal_strlit("AW1");
    reveal_strlit("AW2");
    assert("AW0"@ =~= "AW"@.push('0'));
    lemma_unstressed_glyph("AW0"@, 12);
    lemma_key_glyph("AW1"@, 13);
    lemma_key_glyph("AW2"@, 14);
    reveal_strlit("AY");
    reveal_strlit("AY0");
    reveal_strlit("AY1");
    reveal_strlit("AY2");
    assert("AY0"@ =~= "AY"@.push('0'));
    lemma_unstressed_glyph("AY0"@, 15);
    lemma_key_glyph("AY1"@, 16);
    lemma_key_glyph("AY2"@, 17);
    reveal_strlit("EH");
    reveal_strlit("EH0");
    reveal_strlit("EH1");
    reveal_strlit("EH2");
    assert("EH0"@ =~= "EH"@.push('0'));
    lemma_unstressed_glyph("EH0"@, 18);
    lemma_key_glyph("EH1"@, 19);
    lemma_key_glyph("EH2"@, 20);
    reveal_strlit("ER");
    reveal_strlit("ER0");
    reveal_strlit("ER1");
    reveal_strlit("ER2");
    assert("ER0"@ =~= "ER"@.push('0'));
    lemma_unstressed_glyph("ER0"@, 21);
    lemma_key_glyph("ER1"@, 22);
    lemma_key_glyph("ER2"@, 23);
    reveal_strlit("EY");
    reveal_strlit("EY0");
    reveal_strlit("EY1");
    reveal_strlit("EY2");
    assert("EY0"@ =~= "EY"@.push('0'));
    lemma_unstressed_glyph("EY0"@, 24);
    lemma_key_glyph("EY1"@, 25);
    lemma_key_glyph("EY2"@, 26);
    reveal_strlit("IH");
    reveal_strlit("IH0");
    reveal_strlit("IH1");
    reveal_strlit("IH2");
    assert("IH0"@ =~= "IH"@.push('0'));
    lemma_unstressed_glyph("IH0"@, 27);
    lemma_key_glyph("IH1"@, 28);
    lemma_key_glyph("IH2"@, 29);
    reveal_strlit("IY");
    reveal_strlit("IY0");
    reveal_strlit("IY1");
    reveal_strlit("IY2");
    assert("IY0"@ =~= "IY"@.push('0'));
    lemma_unstressed_glyph("IY0"@, 30);
    lemma_key_glyph("IY1"@, 31);
    lemma_key_glyph("IY2"@, 32);
    reveal_strlit("OW");
    reveal_strlit("OW0");
    reveal_strlit("OW1");
    reveal_strlit("OW2");
    assert("OW0"@ =~= "OW"@.push('0'));
    lemma_unstressed_glyph("OW0"@, 33);
    lemma_key_glyph("OW1"@, 34);
    lemma_key_glyph("OW2"@, 35);
    reveal_strlit("OY");
    reveal_strlit("OY0");
    reveal_strlit("OY1");
    reveal_strlit("OY2");
    assert("OY0"@ =~= "OY"@.push('0'));
    lemma_unstressed_glyph("OY0"@, 36);
    lemma_key_glyph("OY1"@, 37);
    lemma_key_glyph("OY2"@, 38);
    reveal_strlit("UH");
    reveal_strlit("UH0");
    reveal_strlit("UH1");
    reveal_strlit("UH2");
    assert("UH0"@ =~= "UH"@.push('0'));
    lemma_unstressed_glyph("UH0"@, 39);
    lemma_key_glyph("UH1"@, 40);
    lemma_key_glyph("UH2"@, 41);
    reveal_strlit("UW");
    reveal_strlit("UW0");
    reveal_strlit("UW1");
    reveal_strlit("UW2");
    assert("UW0"@ =~= "UW"@.push('0'));
    lemma_unstressed_glyph("UW0"@, 42);
    lemma_key_glyph("UW1"@, 43);
    lemma_key_glyph("UW2"@, 44);
}

proof fn lemma_consonants_have_glyphs()
    ensures
        has_glyph("B"@),
        has_glyph("CH"@),
        has_glyph("D"@),
        has_glyph("DH"@),
        has_glyph("F"@),
        has_glyph("G"@),
        has_glyph("HH"@),
        has_glyph("JH"@),
        has_glyph("K"@),
        has_glyph("L"@),
        has_glyph("M"@),
        has_glyph("N"@),
        has_glyph("NG"@),
        has_glyph("P"@),
        has_glyph("R"@),
        has_glyph("S"@),
        has_glyph("SH"@),
        has_glyph("T"@),
        has_glyph("TH"@),
        has_glyph("V"@),
        has_glyph("W"@),
        has_glyph("Y"@),
        has_glyph("Z"@),
        has_glyph("ZH"@),
{
    reveal_strlit("B");
    lemma_key_glyph("B"@, 45);
    reveal_strlit("CH");
    lemma_key_glyph("CH"@, 46);
    reveal_strlit("D");
    lemma_key_glyph("D"@, 47);
    reveal_strlit("DH");
    lemma_key_glyph("DH"@, 48);
    reveal_strlit("F");
    lemma_key_glyph("F"@, 49);
    reveal_strlit("G");
    lemma_key_glyph("G"@, 50);
    reveal_strlit("HH");
    lemma_key_glyph("HH"@, 51);
    reveal_strlit("JH");
    lemma_key_glyph("JH"@, 52);
    reveal_strlit("K");
    lemma_key_glyph("K"@, 53);
    reveal_strlit("L");
    lemma_key_glyph("L"@, 54);
    reveal_strlit("M");
    lemma_key_glyph("M"@, 55);
    reveal_strlit("N");
    lemma_key_glyph("N"@, 56);
    reveal_strlit("NG");
    lemma_key_glyph("NG"@, 57);
    reveal_strlit("P");
    lemma_key_glyph("P"@, 58);
    reveal_strlit("R");
    lemma_key_glyph("R"@, 59);
    reveal_strlit("S");
    lemma_key_glyph("S"@, 60);
    reveal_strlit("SH");
    lemma_key_glyph("SH"@, 61);
    reveal_strlit("T");
    lemma_key_glyph("T"@, 62);
    reveal_strlit("TH");
    lemma_key_glyph("TH"@, 63);
    reveal_strlit("V");
    lemma_key_glyph("V"@, 64);
    reveal_strlit("W");
    lemma_key_glyph("W"@, 65);
    reveal_strlit("Y");
    lemma_key_glyph("Y"@, 66);
    reveal_strlit("Z");
    lemma_key_glyph("Z"@, 67);
    reveal_strlit("ZH");
    lemma_key_glyph("ZH"@, 68);
}

/// Every symbol text that the dictionary can hold has an entry in the IPA table
/// once its unstressed digit is removed.
pub proof fn lemma_cmu_symbols_have_glyphs()
    ensures
        forall|t: Seq<char>| #[trigger] is_cmu_symbol(t) ==> has_glyph(t),
{
    lemma_vowels_have_glyphs();
    lemma_consonants_have_glyphs();
}

/// Whether `c` is a character of some glyph of the IPA table.
pub open spec fn in_glyph_alphabet(c: char) -> bool {
    exists|i: int, j: int|
        0 <= i < ipa_table().len() && 0 <= j < ipa_table()[i].1.len() && #[trigger] ipa_table()[i].1[j]
            == c
}

proof fn lemma_lookup_found(t: Seq<(Seq<char>, Seq<char>)>, key: Seq<char>, g: Seq<char>)
    requires
        ipa_lookup(t, key) == Some(g),
    ensures
        exists|i: int| 0 <= i < t.len() && #[trigger] t[i].1 == g,
    decreases t.len(),
{
    if t[0].0 != key {
        lemma_lookup_found(t.drop_first(), key, g);
        let i = choose|i: int| 0 <= i < t.drop_first().len() && #[trigger] t.drop_first()[i].1 == g;
        assert(t[i + 1].1 == g);
    } else {
        assert(t[0].1 == g);
    }
}

proof fn lemma_glyphs_nonempty()
    ensures
        forall|i: int| 0 <= i < ipa_table().len() ==> #[trigger] ipa_table()[i].1.len() > 0,
{
        reveal_strlit("aɪ");
        reveal_strlit("aʊ");
        reveal_strlit("b");
        reveal_strlit("d");
        reveal_strlit("dʒ");
        reveal_strlit("eɪ");
        reveal_strlit("f");
        reveal_strlit("h");
        reveal_strlit("i");
        reveal_strlit("iː");
        reveal_strlit("j");
        reveal_strlit("k");
        reveal_strlit("l");
        reveal_strlit("m");
        reveal_strlit("n");
        reveal_strlit("oʊ");
        reveal_strlit("p");
        reveal_strlit("s");
        reveal_strlit("t");
        reveal_strlit("tʃ");
        reveal_strlit("u");
        reveal_strlit("uː");
        reveal_strlit("v");
        reveal_strlit("w");
        reveal_strlit("z");
        reveal_strlit("æ");
        reveal_strlit("ð");
        reveal_strlit("ŋ");
        reveal_strlit("ɑ");
        reveal_strlit("ɑː");
        reveal_strlit("ɔ");
        reveal_strlit("ɔɪ");
        reveal_strlit("ɔː");
        reveal_strlit("ə");
        reveal_strlit("ɛ");
        reveal_strlit("ɝ");
        reveal_strlit("ɝː");
        reveal_strlit("ɡ");
        reveal_strlit("ɪ");
        reveal_strlit("ɹ");
        reveal_strlit("ʃ");
        reveal_strlit("ʊ");
        reveal_strlit("ʌ");
        reveal_strlit("ʒ");
        reveal_strlit("θ");
        reveal_strlit("ᵻ");
    assert forall|i: int| 0 <= i < ipa_table().len() implies #[trigger] ipa_table()[i].1.len() > 0 by {
        if i == 0 {
        } else if i == 1 {
        } else if i == 2 {
        } else if i == 3 {
        } else if i == 4 {
        } else if i == 5 {
        } else if i == 6 {
        } else if i == 7 {
        } else if i == 8 {
        } else if i == 9 {
        } else if i == 10 {
        } else if i == 11 {
        } else if i == 12 {
        } else if i == 13 {
        } else if i == 14 {
        } else if i == 15 {
        } else if i == 16 {
        } else if i == 17 {
        } else if i == 18 {
        } else if i == 19 {
        } else if i == 20 {
        } else if i == 21 {
        } else if i == 22 {
        } else if i == 23 {
        } else if i == 24 {
        } else if i == 25 {
        } else if i == 26 {
        } else if i == 27 {
        } else if i == 28 {
        } else if i == 29 {
        } else if i == 30 {
        } else if i == 31 {
        } else if i == 32 {
        } else if i == 33 {
        } else if i == 34 {
        } else if i == 35 {
        } else if i == 36 {
        } else if i == 37 {
        } else if i == 38 {
        } else if i == 39 {
        } else if i == 40 {
        } else if i == 41 {
        } else if i == 42 {
        } else if i == 43 {
        } else if i == 44 {
        } else if i == 45 {
        } else if i == 46 {
        } else if i == 47 {
        } else if i == 48 {
        } else if i == 49 {
        } else if i == 50 {
        } else if i == 51 {
        } else if i == 52 {
        } else if i == 53 {
        } else if i == 54 {
        } else if i == 55 {
        } else if i == 56 {
        } else if i == 57 {
        } else if i == 58 {
        } else if i == 59 {
        } else if i == 60 {
        } else if i == 61 {
        } else if i == 62 {
        } else if i == 63 {
        } else if i == 64 {
        } else if i == 65 {
        } else if i == 66 {
        } else if i == 67 {
        } else if i == 68 {
        }
    }
}

proof fn lemma_concat_glyphs(phones: Seq<Seq<char>>)
    requires
        forall|i: int| 0 <= i < phones.len() ==> has_glyph(#[trigger] phones[i]),
    ensures
        phones.len() > 0 ==> concat_glyphs(phones).len() > 0,
        forall|k: int|
            0 <= k < concat_glyphs(phones).len() ==> in_glyph_alphabet(
                #[trigger] concat_glyphs(phones)[k],
            ),
    decreases phones.len(),
{
    if phones.len() > 0 {
        let prev = phones.drop_last();
        assert forall|i: int| 0 <= i < prev.len() implies has_glyph(#[trigger] prev[i]) by {
            assert(prev[i] == phones[i]);
        }
        lemma_concat_glyphs(prev);
        let last = phones.last();
        assert(has_glyph(phones[phones.len() - 1]));
        let g = glyph(last);
        lemma_lookup_found(ipa_table(), without_zeros(last), g);
        let gi = choose|i: int| 0 <= i < ipa_table().len() && #[trigger] ipa_table()[i].1 == g;
        lemma_glyphs_nonempty();
        assert(ipa_table()[gi].1.len() > 0);
        let whole = concat_glyphs(phones);
        assert(whole == concat_glyphs(prev) + g);
        assert forall|k: int| 0 <= k < whole.len() implies in_glyph_alphabet(#[trigger] whole[k]) by {
            if k >= concat_glyphs(prev).len() {
                let j = k - concat_glyphs(prev).len();
                assert(ipa_table()[gi].1[j] == whole[k]);
            } else {
                assert(whole[k] == concat_glyphs(prev)[k]);
            }
        }
    }
}

/// A word that the dictionary lacks, and whose upper-case form reads as a rule
/// line with no phone symbols (a lone word does), is spelled out in upper case.
pub proof fn lemma_unknown_word_spelled_out(
    entries: Map<Seq<char>, Seq<Seq<Seq<char>>>>,
    word: Seq<char>,
)
    requires
        !entries.contains_key(lower_of(word)),
        rule_symbols(upper_of(word)) == Some(Seq::<Seq<char>>::empty()),
    ensures
        phonemize_spec(entries, word) == Some(upper_of(word)),
{
}

/// A word of a dictionary whose preferred (first) pronunciation is not empty is
/// phonemized as the glyphs of that pronunciation's phones, concatenated in order.
/// The result is not empty, and every character of it is a character of a glyph
/// of the IPA table.
pub proof fn lemma_dictionary_word_phonemization(
    entries: Map<Seq<char>, Seq<Seq<Seq<char>>>>,
    word: Seq<char>,
)
    requires
        valid_entries(entries),
        entries.contains_key(lower_of(word)),
        entries[lower_of(word)][0].len() > 0,
    ensures
        phonemize_spec(entries, word) == Some(concat_glyphs(entries[lower_of(word)][0])),
        phonemize_spec(entries, word) matches Some(s) && s.len() > 0 && forall|k: int|
            0 <= k < s.len() ==> in_glyph_alphabet(#[trigger] s[k]),
{
    let first = entries[lower_of(word)][0];
    assert(all_cmu_symbols(first));
    lemma_cmu_symbols_have_glyphs();
    assert forall|i: int| 0 <= i < first.len() implies has_glyph(#[trigger] first[i]) by {
        assert(is_cmu_symbol(first[i]));
    }
    lemma_concat_glyphs(first);
}

} // verus!
