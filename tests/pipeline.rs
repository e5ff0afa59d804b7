use kittentts::phonemize::Phonemizer;
use kittentts::pipeline::{is_whitespace_char, pad_waveform, phonemize_text, split_words};
use kittentts::tokens::{encode_phonemes, get_tokens};

const DICT: &str = "cat K AE1 T\nthe DH AH0\n";

#[test]
fn split_on_whitespace() {
    assert_eq!(split_words("  hello   world\tfoo\n"), vec!["hello", "world", "foo"]);
    assert_eq!(split_words("a\u{3000}b\u{a0}c"), vec!["a", "b", "c"]);
    assert!(split_words("").is_empty());
    assert!(split_words(" \t\n ").is_empty());
}

#[test]
fn whitespace_characters() {
    for c in [' ', '\t', '\n', '\r', '\u{b}', '\u{c}', '\u{85}', '\u{a0}', '\u{2003}', '\u{3000}'] {
        assert!(is_whitespace_char(c));
        assert!(c.is_whitespace());
    }
    for c in ['a', 'ə', '\u{200b}', '-'] {
        assert!(!is_whitespace_char(c));
        assert!(!c.is_whitespace());
    }
}

#[test]
fn text_is_joined_with_single_spaces() {
    let p = Phonemizer::new(DICT).unwrap();
    assert_eq!(phonemize_text(&p, "The  cat"), "ðə kæt");
    assert_eq!(phonemize_text(&p, "the xyzzy cat"), "ðə XYZZY kæt");
}

#[test]
fn empty_text_gives_no_tokens() {
    let p = Phonemizer::new(DICT).unwrap();
    let t = get_tokens();
    let ph = phonemize_text(&p, "");
    assert_eq!(ph, "");
    assert!(encode_phonemes(&t, &ph).is_empty());
    assert!(encode_phonemes(&t, &phonemize_text(&p, "  \n ")).is_empty());
}

#[test]
fn cat_tokens() {
    let p = Phonemizer::new(DICT).unwrap();
    let t = get_tokens();
    let ph = phonemize_text(&p, "cat");
    assert_eq!(ph, "kæt");
    assert_eq!(encode_phonemes(&t, &ph), encode_phonemes(&t, "kæt"));
    assert_eq!(encode_phonemes(&t, &ph).len(), 3);
}

#[test]
fn padding_adds_silence_at_both_ends() {
    let w = pad_waveform(&vec![0.5f32, -0.5, 0.25], 0.0);
    assert_eq!(w, vec![0.0, 0.5, -0.5, 0.25, 0.0]);
    assert_eq!(pad_waveform(&Vec::<f32>::new(), 0.0), vec![0.0, 0.0]);
}
