use kittentts::tokens::{encode_phonemes, get_tokens, token_id_of, MAX_TOKEN_CODE};

#[test]
fn token_table_ids() {
    let t = get_tokens();
    assert_eq!(t.len(), 175);
    assert_eq!(t[&('$' as u32)], 0);
    assert_eq!(t[&(' ' as u32)], 16);
    assert_eq!(t[&('"' as u32)], 15);
    assert_eq!(t[&('\'' as u32)], 176);
    assert_eq!(t[&('ᵻ' as u32)], 177);
    assert_eq!(t[&('\u{329}' as u32)], 175);
}

#[test]
fn encode_known_characters() {
    let t = get_tokens();
    assert_eq!(encode_phonemes(&t, "kæt"), vec![53, 72, 62]);
    assert_eq!(encode_phonemes(&t, "ðə kæt"), vec![81, 83, 16, 53, 72, 62]);
}

#[test]
fn encode_drops_unknown_characters() {
    let t = get_tokens();
    assert_eq!(encode_phonemes(&t, "k#æ€t"), vec![53, 72, 62]);
    assert_eq!(encode_phonemes(&t, "#€"), Vec::<i64>::new());
}

#[test]
fn encode_length_counts_recognized_characters() {
    let t = get_tokens();
    let s = "ðɪs haɪ kwɔlᵻɾi tiːtiːɛs mɑːdəl wɜːks wɪðaʊt ɐ dʒiːpiːjuː ";
    let known = s.chars().filter(|c| t.contains_key(&(*c as u32))).count();
    assert_eq!(known, s.chars().count());
    assert_eq!(encode_phonemes(&t, s).len(), known);
}

#[test]
fn encode_empty() {
    let t = get_tokens();
    assert!(encode_phonemes(&t, "").is_empty());
}

#[test]
fn token_ids_by_scalar_value() {
    assert_eq!(token_id_of('k' as u32), Some(53));
    assert_eq!(token_id_of('ⱱ' as u32), Some(137));
    assert_eq!(MAX_TOKEN_CODE, 'ⱱ' as u32);
    assert_eq!(token_id_of('#' as u32), None);
    assert_eq!(token_id_of(MAX_TOKEN_CODE + 1), None);
}
