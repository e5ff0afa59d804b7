use kittentts::phonemize::{get_ipa, lookup_ipa, phone_key, Phonemizer, PhonemizerError};

const DICT: &str = "cat K AE1 T\nthe DH AH0\nhmm\nread R EH1 D\nread(2) R IY1 D\nchurch CH ER1 CH\n";

fn phonemizer() -> Phonemizer {
    Phonemizer::new(DICT).expect("the dictionary text parses")
}

#[test]
fn dictionary_word_the() {
    assert_eq!(phonemizer().phonemize("the"), Some("ðə".to_string()));
}

#[test]
fn dictionary_word_cat() {
    assert_eq!(phonemizer().phonemize("cat"), Some("kæt".to_string()));
}

#[test]
fn lookup_ignores_case() {
    assert_eq!(phonemizer().phonemize("CaT"), Some("kæt".to_string()));
}

#[test]
fn stress_digits_select_glyphs() {
    assert_eq!(phonemizer().phonemize("church"), Some("tʃɝːtʃ".to_string()));
}

#[test]
fn first_pronunciation_is_preferred() {
    assert_eq!(phonemizer().phonemize("read"), Some("ɹɛd".to_string()));
}

#[test]
fn unknown_word_is_spelled_out() {
    assert_eq!(phonemizer().phonemize("xyzzy"), Some("XYZZY".to_string()));
}

#[test]
fn empty_pronunciation_is_spelled_out() {
    assert_eq!(phonemizer().phonemize("hmm"), Some("HMM".to_string()));
}

#[test]
fn empty_word_has_no_phonemization() {
    assert_eq!(phonemizer().phonemize(""), None);
}

#[test]
fn unknown_line_with_symbols_is_read_as_rule() {
    assert_eq!(phonemizer().phonemize("zz k"), Some("k".to_string()));
}

#[test]
fn unknown_line_with_bad_symbol_has_none() {
    assert_eq!(phonemizer().phonemize("zz qq"), None);
}

#[test]
fn repeated_calls_agree() {
    let p = phonemizer();
    let first = p.phonemize("cat");
    let second = p.phonemize("cat");
    assert_eq!(first, second);
    assert_eq!(p.phonemize("xyzzy"), p.phonemize("xyzzy"));
}

#[test]
fn dictionary_output_uses_table_glyphs() {
    let p = phonemizer();
    let table = get_ipa();
    for word in ["cat", "the", "read", "church"] {
        let s = p.phonemize(word).unwrap();
        assert!(!s.is_empty());
        for c in s.chars() {
            assert!(table.iter().any(|(_, g)| g.contains(c)), "{c} of {word}");
        }
    }
}

#[test]
fn malformed_dictionary_is_rejected() {
    let r = Phonemizer::new("cat K AE1 XX\n");
    match r {
        Err(e) => {
            let PhonemizerError::DictLoad(m) = &e;
            assert!(!m.is_empty());
            assert!(e.message().starts_with("failed to load dictionary: "));
        }
        Ok(_) => panic!("a bad symbol must be refused"),
    }
}

#[test]
fn ipa_table_contents() {
    let table = get_ipa();
    assert_eq!(table.len(), 69);
    assert!(table.contains(&("CH", "tʃ")));
    assert!(table.contains(&("AA1", "ɑː")));
    assert!(table.contains(&("IH", "ᵻ")));
    for (i, (k, _)) in table.iter().enumerate() {
        assert!(table[i + 1..].iter().all(|(k2, _)| k2 != k));
    }
}

#[test]
fn phone_keys_drop_unstressed_digit() {
    assert_eq!(phone_key("AH0"), "AH");
    assert_eq!(phone_key("AH1"), "AH1");
    assert_eq!(phone_key("ER2"), "ER2");
    assert_eq!(phone_key("CH"), "CH");
}

#[test]
fn ipa_lookup_by_key() {
    let table = get_ipa();
    assert_eq!(lookup_ipa(&table, "CH"), Some("tʃ"));
    assert_eq!(lookup_ipa(&table, "AH"), Some("ə"));
    assert_eq!(lookup_ipa(&table, "AH1"), Some("ʌ"));
    assert_eq!(lookup_ipa(&table, "AH0"), None);
    assert_eq!(lookup_ipa(&table, ""), None);
}

#[test]
fn dictionary_words_use_only_table_glyphs() {
    let p = Phonemizer::new("ago AH0 G OW1\nbeige B EY1 ZH\njudge JH AH1 JH\nsing S IH1 NG\n").unwrap();
    assert_eq!(p.phonemize("ago"), Some("əɡoʊ".to_string()));
    assert_eq!(p.phonemize("beige"), Some("beɪʒ".to_string()));
    assert_eq!(p.phonemize("judge"), Some("dʒʌdʒ".to_string()));
    assert_eq!(p.phonemize("sing"), Some("sɪŋ".to_string()));
}
