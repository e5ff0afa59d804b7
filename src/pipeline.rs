use vstd::prelude::*;
use vstd::string::StringExecFns;
use crate::phonemize::{phonemize_spec, push_char, strings_view, Phonemizer};
use crate::tokens::encode_spec;

verus! {

/// Whether `c` has the Unicode `White_Space` property.
pub open spec fn is_white(c: char) -> bool {
    ('\u{9}' <= c && c <= '\u{d}') || c == ' ' || c == '\u{85}' || c == '\u{a0}' || c
        == '\u{1680}' || ('\u{2000}' <= c && c <= '\u{200a}') || c == '\u{2028}' || c
        == '\u{2029}' || c == '\u{202f}' || c == '\u{205f}' || c == '\u{3000}'
}

/// Tells whether `c` is a whitespace character.
pub fn is_whitespace_char(c: char) -> (r: bool)
    ensures
        r == is_white(c),
{
    ('\u{9}' <= c && c <= '\u{d}') || c == ' ' || c == '\u{85}' || c == '\u{a0}' || c
        == '\u{1680}' || ('\u{2000}' <= c && c <= '\u{200a}') || c == '\u{2028}' || c
        == '\u{2029}' || c == '\u{202f}' || c == '\u{205f}' || c == '\u{3000}'
}

/// The maximal runs of non-whitespace characters of `s`, in order.
pub open spec fn words_of(s: Seq<char>) -> Seq<Seq<char>>
    decreases s.len(),
{
    if s.len() == 0 {
        Seq::empty()
    } else {
        let prev = words_of(s.drop_last());
        if is_white(s.last()) {
            prev
        } else if s.len() >= 2 && !is_white(s[s.len() - 2]) {
            prev.update(prev.len() - 1, prev.last().push(s.last()))
        } else {
            prev.push(seq![s.last()])
        }
    }
}

/// Splits `text` into its whitespace-separated words.
pub fn split_words(text: &str) -> (r: Vec<String>)
    ensures
        strings_view(r@) == words_of(text@),
{
    let mut words: Vec<String> = Vec::new();
    let mut cur = String::new();
    let n = text.unicode_len();
    let mut i: usize = 0;
    while i < n
        invariant
            n == text@.len(),
            i <= n,
            cur@.len() > 0 <==> (i > 0 && !is_white(text@[i - 1])),
            cur@.len() == 0 ==> strings_view(words@) == words_of(text@.subrange(0, i as int)),
            cur@.len() > 0 ==> strings_view(words@).push(cur@) == words_of(
                text@.subrange(0, i as int),
            ),
        decreases n - i,
    {
        let c = text.get_char(i);
        let ghost prefix = text@.subrange(0, i + 1);
        assert(prefix.drop_last() =~= text@.subrange(0, i as int));
        assert(prefix.last() == c);
        if is_whitespace_char(c) {
            if cur.unicode_len() > 0 {
                let ghost ws = words@;
                let ghost done = cur@;
                words.push(cur);
                cur = String::new();
                assert(strings_view(words@) =~= strings_view(ws).push(done));
            }
        } else {
            let ghost before = cur@;
            push_char(&mut cur, c);
            proof {
                if before.len() > 0 {
                    assert(prefix[prefix.len() - 2] == text@[i - 1]);
                    assert(strings_view(words@).push(cur@) =~= words_of(prefix));
                } else {
                    assert(cur@ =~= seq![c]);
                    assert(strings_view(words@).push(cur@) =~= words_of(prefix));
                }
            }
        }
        i = i + 1;
    }
    assert(text@.subrange(0, n as int) =~= text@);
    if cur.unicode_len() > 0 {
        let ghost ws = words@;
        words.push(cur);
        assert(strings_view(words@) =~= strings_view(ws).push(words@.last()@));
    }
    words
}

/// The phonemizations of `words` that exist, in order; a word without one
/// contributes nothing.
pub open spec fn phonemized_words(
    entries: Map<Seq<char>, Seq<Seq<Seq<char>>>>,
    words: Seq<Seq<char>>,
) -> Seq<Seq<char>>
    decreases words.len(),
{
    if words.len() == 0 {
        Seq::empty()
    } else {
        let prev = phonemized_words(entries, words.drop_last());
        match phonemize_spec(entries, words.last()) {
            Some(p) => prev.push(p),
            None => prev,
        }
    }
}

/// `parts` joined with one space between neighbours.
pub open spec fn join_with_spaces(parts: Seq<Seq<char>>) -> Seq<char>
    decreases parts.len(),
{
    if parts.len() == 0 {
        Seq::empty()
    } else if parts.len() == 1 {
        parts[0]
    } else {
        join_with_spaces(parts.drop_last()) + seq![' '] + parts.last()
    }
}

/// The phoneme string of a text: the phonemizations of its words joined by spaces.
pub open spec fn text_phonemes(entries: Map<Seq<char>, Seq<Seq<Seq<char>>>>, text: Seq<char>) -> Seq<
    char,
> {
    join_with_spaces(phonemized_words(entries, words_of(text)))
}

/// Splits `text` into words, phonemizes each and joins the phonemizations that
/// exist with single spaces. Words without a phonemization are left out, with no
/// separator of their own.
pub fn phonemize_text(phonemizer: &Phonemizer, text: &str) -> (r: String)
    requires
        phonemizer.wf(),
    ensures
        r@ == text_phonemes(phonemizer.entries(), text@),
{
    let words = split_words(text);
    let ghost ws = strings_view(words@);
    let ghost entries = phonemizer.entries();
    let ghost mut parts: Seq<Seq<char>> = Seq::empty();
    let mut out = String::new();
    let mut first = true;
    let mut i: usize = 0;
    proof {
        reveal_strlit(" ");
    }
    while i < words.len()
        invariant
            phonemizer.wf(),
            entries == phonemizer.entries(),
            ws == strings_view(words@),
            i <= words@.len(),
            parts == phonemized_words(entries, ws.subrange(0, i as int)),
            out@ == join_with_spaces(parts),
            first == (parts.len() == 0),
            " "@ == seq![' '],
        decreases words@.len() - i,
    {
        let ghost prefix = ws.subrange(0, i + 1);
        assert(prefix.drop_last() =~= ws.subrange(0, i as int));
        assert(prefix.last() == words@[i as int]@);
        match phonemizer.phonemize(words[i].as_str()) {
            Some(p) => {
                if !first {
                    out.append(" ");
                }
                out.append(p.as_str());
                proof {
                    let old_parts = parts;
                    parts = parts.push(p@);
                    assert(parts.drop_last() =~= old_parts);
                    if old_parts.len() == 0 {
                        assert(out@ =~= join_with_spaces(parts));
                    }
                }
                first = false;
            },
            None => {},
        }
        i = i + 1;
    }
    assert(ws.subrange(0, words@.len() as int) =~= ws);
    out
}

/// Adds one `silence` sample before and one after `samples`.
pub fn pad_waveform<T: Copy>(samples: &Vec<T>, silence: T) -> (r: Vec<T>)
    ensures
        r@ == seq![silence] + samples@ + seq![silence],
{
    let mut out: Vec<T> = Vec::new();
    out.push(silence);
    let mut i: usize = 0;
    while i < samples.len()
        invariant
            i <= samples@.len(),
            out@ == seq![silence] + samples@.subrange(0, i as int),
        decreases samples@.len() - i,
    {
        out.push(samples[i]);
        assert(out@ =~= seq![silence] + samples@.subrange(0, i + 1));
        i = i + 1;
    }
    out.push(silence);
    assert(out@ =~= seq![silence] + samples@ + seq![silence]);
    out
}

proof fn lemma_white_text_no_words(s: Seq<char>)
    requires
        forall|i: int| 0 <= i < s.len() ==> is_white(#[trigger] s[i]),
    ensures
        words_of(s).len() == 0,
    decreases s.len(),
{
    if s.len() > 0 {
        let prev = s.drop_last();
        assert forall|i: int| 0 <= i < prev.len() implies is_white(#[trigger] prev[i]) by {
            assert(prev[i] == s[i]);
        }
        lemma_white_text_no_words(prev);
        assert(is_white(s[s.len() - 1]));
    }
}

/// A text that is empty, or holds only whitespace, has an empty phoneme string and
/// so encodes to no token ids at all.
pub proof fn lemma_blank_text_no_tokens(
    entries: Map<Seq<char>, Seq<Seq<Seq<char>>>>,
    table: Map<u32, i64>,
    text: Seq<char>,
)
    requires
        forall|i: int| 0 <= i < text.len() ==> is_white(#[trigger] text[i]),
    ensures
        text_phonemes(entries, text).len() == 0,
        encode_spec(table, text_phonemes(entries, text)).len() == 0,
{
    lemma_white_text_no_words(text);
    assert(phonemized_words(entries, words_of(text)).len() == 0);
    assert(text_phonemes(entries, text) =~= Seq::<char>::empty());
}

} // verus!
