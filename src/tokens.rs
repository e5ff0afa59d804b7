use vstd::prelude::*;
use std::collections::HashMap;

verus! {

broadcast use vstd::std_specs::hash::group_hash_axioms;

/// The character-to-id table of the synthesis network, keyed by Unicode scalar value.
pub type KittenTokens = HashMap<u32, i64>;

/// The id of the character with scalar value `code` in the fixed vocabulary:
/// punctuation, space, ASCII letters, the IPA inventory and the suprasegmental
/// marks. The straight double quote and the apostrophe each have one id, so ids
/// 11, 14 and 174 name no character.
pub open spec fn token_id(code: u32) -> Option<i64> {
    match code {
        0x0024 => Some(0i64), // $
        0x003b => Some(1i64), // ;
        0x003a => Some(2i64), // :
        0x002c => Some(3i64), // ,
        0x002e => Some(4i64), // .
        0x0021 => Some(5i64), // !
        0x003f => Some(6i64), // ?
        0x00a1 => Some(7i64), // ¡
        0x00bf => Some(8i64), // ¿
        0x2014 => Some(9i64), // —
        0x2026 => Some(10i64), // …
        0x00ab => Some(12i64), // «
        0x00bb => Some(13i64), // »
        0x0022 => Some(15i64), // "
        0x0020 => Some(16i64), // space
        0x0041 => Some(17i64), // A
        0x0042 => Some(18i64), // B
        0x0043 => Some(19i64), // C
        0x0044 => Some(20i64), // D
        0x0045 => Some(21i64), // E
        0x0046 => Some(22i64), // F
        0x0047 => Some(23i64), // G
        0x0048 => Some(24i64), // H
        0x0049 => Some(25i64), // I
        0x004a => Some(26i64), // J
        0x004b => Some(27i64), // K
        0x004c => Some(28i64), // L
        0x004d => Some(29i64), // M
        0x004e => Some(30i64), // N
        0x004f => Some(31i64), // O
        0x0050 => Some(32i64), // P
        0x0051 => Some(33i64), // Q
        0x0052 => Some(34i64), // R
        0x0053 => Some(35i64), // S
        0x0054 => Some(36i64), // T
        0x0055 => Some(37i64), // U
        0x0056 => Some(38i64), // V
        0x0057 => Some(39i64), // W
        0x0058 => Some(40i64), // X
        0x0059 => Some(41i64), // Y
        0x005a => Some(42i64), // Z
        0x0061 => Some(43i64), // a
        0x0062 => Some(44i64), // b
        0x0063 => Some(45i64), // c
        0x0064 => Some(46i64), // d
        0x0065 => Some(47i64), // e
        0x0066 => Some(48i64), // f
        0x0067 => Some(49i64), // g
        0x0068 => Some(50i64), // h
        0x0069 => Some(51i64), // i
        0x006a => Some(52i64), // j
        0x006b => Some(53i64), // k
        0x006c => Some(54i64), // l
        0x006d => Some(55i64), // m
        0x006e => Some(56i64), // n
        0x006f => Some(57i64), // o
        0x0070 => Some(58i64), // p
        0x0071 => Some(59i64), // q
        0x0072 => Some(60i64), // r
        0x0073 => Some(61i64), // s
        0x0074 => Some(62i64), // t
        0x0075 => Some(63i64), // u
        0x0076 => Some(64i64), // v
        0x0077 => Some(65i64), // w
        0x0078 => Some(66i64), // x
        0x0079 => Some(67i64), // y
        0x007a => Some(68i64), // z
        0x0251 => Some(69i64), // ɑ
        0x0250 => Some(70i64), // ɐ
        0x0252 => Some(71i64), // ɒ
        0x00e6 => Some(72i64), // æ
        0x0253 => Some(73i64), // ɓ
        0x0299 => Some(74i64), // ʙ
        0x03b2 => Some(75i64), // β
        0x0254 => Some(76i64), // ɔ
        0x0255 => Some(77i64), // ɕ
        0x00e7 => Some(78i64), // ç
        0x0257 => Some(79i64), // ɗ
        0x0256 => Some(80i64), // ɖ
        0x00f0 => Some(81i64), // ð
        0x02a4 => Some(82i64), // ʤ
        0x0259 => Some(83i64), // ə
        0x0258 => Some(84i64), // ɘ
        0x025a => Some(85i64), // ɚ
        0x025b => Some(86i64), // ɛ
        0x025c => Some(87i64), // ɜ
        0x025d => Some(88i64), // ɝ
        0x025e => Some(89i64), // ɞ
        0x025f => Some(90i64), // ɟ
        0x0284 => Some(91i64), // ʄ
        0x0261 => Some(92i64), // ɡ
        0x0260 => Some(93i64), // ɠ
        0x0262 => Some(94i64), // ɢ
        0x029b => Some(95i64), // ʛ
        0x0266 => Some(96i64), // ɦ
        0x0267 => Some(97i64), // ɧ
        0x0127 => Some(98i64), // ħ
        0x0265 => Some(99i64), // ɥ
        0x029c => Some(100i64), // ʜ
        0x0268 => Some(101i64), // ɨ
        0x026a => Some(102i64), // ɪ
        0x029d => Some(103i64), // ʝ
        0x026d => Some(104i64), // ɭ
        0x026c => Some(105i64), // ɬ
        0x026b => Some(106i64), // ɫ
        0x026e => Some(107i64), // ɮ
        0x029f => Some(108i64), // ʟ
        0x0271 => Some(109i64), // ɱ
        0x026f => Some(110i64), // ɯ
        0x0270 => Some(111i64), // ɰ
        0x014b => Some(112i64), // ŋ
        0x0273 => Some(113i64), // ɳ
        0x0272 => Some(114i64), // ɲ
        0x0274 => Some(115i64), // ɴ
        0x00f8 => Some(116i64), // ø
        0x0275 => Some(117i64), // ɵ
        0x0278 => Some(118i64), // ɸ
        0x03b8 => Some(119i64), // θ
        0x0153 => Some(120i64), // œ
        0x0276 => Some(121i64), // ɶ
        0x0298 => Some(122i64), // ʘ
        0x0279 => Some(123i64), // ɹ
        0x027a => Some(124i64), // ɺ
        0x027e => Some(125i64), // ɾ
        0x027b => Some(126i64), // ɻ
        0x0280 => Some(127i64), // ʀ
        0x0281 => Some(128i64), // ʁ
        0x027d => Some(129i64), // ɽ
        0x0282 => Some(130i64), // ʂ
        0x0283 => Some(131i64), // ʃ
        0x0288 => Some(132i64), // ʈ
        0x02a7 => Some(133i64), // ʧ
        0x0289 => Some(134i64), // ʉ
        0x028a => Some(135i64), // ʊ
        0x028b => Some(136i64), // ʋ
        0x2c71 => Some(137i64), // ⱱ
        0x028c => Some(138i64), // ʌ
        0x0263 => Some(139i64), // ɣ
        0x0264 => Some(140i64), // ɤ
        0x028d => Some(141i64), // ʍ
        0x03c7 => Some(142i64), // χ
        0x028e => Some(143i64), // ʎ
        0x028f => Some(144i64), // ʏ
        0x0291 => Some(145i64), // ʑ
        0x0290 => Some(146i64), // ʐ
        0x0292 => Some(147i64), // ʒ
        0x0294 => Some(148i64), // ʔ
        0x02a1 => Some(149i64), // ʡ
        0x0295 => Some(150i64), // ʕ
        0x02a2 => Some(151i64), // ʢ
        0x01c0 => Some(152i64), // ǀ
        0x01c1 => Some(153i64), // ǁ
        0x01c2 => Some(154i64), // ǂ
        0x01c3 => Some(155i64), // ǃ
        0x02c8 => Some(156i64), // ˈ
        0x02cc => Some(157i64), // ˌ
        0x02d0 => Some(158i64), // ː
        0x02d1 => Some(159i64), // ˑ
        0x02bc => Some(160i64), // ʼ
        0x02b4 => Some(161i64), // ʴ
        0x02b0 => Some(162i64), // ʰ
        0x02b1 => Some(163i64), // ʱ
        0x02b2 => Some(164i64), // ʲ
        0x02b7 => Some(165i64), // ʷ
        0x02e0 => Some(166i64), // ˠ
        0x02e4 => Some(167i64), // ˤ
        0x02de => Some(168i64), // ˞
        0x2193 => Some(169i64), // ↓
        0x2191 => Some(170i64), // ↑
        0x2192 => Some(171i64), // →
        0x2197 => Some(172i64), // ↗
        0x2198 => Some(173i64), // ↘
        0x0329 => Some(175i64), // combining vertical line below
        0x0027 => Some(176i64), // '
        0x1d7b => Some(177i64), // ᵻ
        _ => None,
    }
}

/// The largest scalar value that has an id.
pub const MAX_TOKEN_CODE: u32 = 0x2c71;

/// The vocabulary as a map from scalar values to ids.
pub open spec fn token_table() -> Map<u32, i64> {
    Map::new(
        |code: u32| token_id(code) is Some,
        |code: u32|
            match token_id(code) {
                Some(id) => id,
                None => 0,
            },
    )
}

/// Looks up the id of the character with scalar value `code`.
pub fn token_id_of(code: u32) -> (r: Option<i64>)
    ensures
        r == token_id(code),
{
    match code {
        0x0024 => Some(0),
        0x003b => Some(1),
        0x003a => Some(2),
        0x002c => Some(3),
        0x002e => Some(4),
        0x0021 => Some(5),
        0x003f => Some(6),
        0x00a1 => Some(7),
        0x00bf => Some(8),
        0x2014 => Some(9),
        0x2026 => Some(10),
        0x00ab => Some(12),
        0x00bb => Some(13),
        0x0022 => Some(15),
        0x0020 => Some(16),
        0x0041 => Some(17),
        0x0042 => Some(18),
        0x0043 => Some(19),
        0x0044 => Some(20),
        0x0045 => Some(21),
        0x0046 => Some(22),
        0x0047 => Some(23),
        0x0048 => Some(24),
        0x0049 => Some(25),
        0x004a => Some(26),
        0x004b => Some(27),
        0x004c => Some(28),
        0x004d => Some(29),
        0x004e => Some(30),
        0x004f => Some(31),
        0x0050 => Some(32),
        0x0051 => Some(33),
        0x0052 => Some(34),
        0x0053 => Some(35),
        0x0054 => Some(36),
        0x0055 => Some(37),
        0x0056 => Some(38),
        0x0057 => Some(39),
        0x0058 => Some(40),
        0x0059 => Some(41),
        0x005a => Some(42),
        0x0061 => Some(43),
        0x0062 => Some(44),
        0x0063 => Some(45),
        0x0064 => Some(46),
        0x0065 => Some(47),
        0x0066 => Some(48),
        0x0067 => Some(49),
        0x0068 => Some(50),
        0x0069 => Some(51),
        0x006a => Some(52),
        0x006b => Some(53),
        0x006c => Some(54),
        0x006d => Some(55),
        0x006e => Some(56),
        0x006f => Some(57),
        0x0070 => Some(58),
        0x0071 => Some(59),
        0x0072 => Some(60),
        0x0073 => Some(61),
        0x0074 => Some(62),
        0x0075 => Some(63),
        0x0076 => Some(64),
        0x0077 => Some(65),
        0x0078 => Some(66),
        0x0079 => Some(67),
        0x007a => Some(68),
        0x0251 => Some(69),
        0x0250 => Some(70),
        0x0252 => Some(71),
        0x00e6 => Some(72),
        0x0253 => Some(73),
        0x0299 => Some(74),
        0x03b2 => Some(75),
        0x0254 => Some(76),
        0x0255 => Some(77),
        0x00e7 => Some(78),
        0x0257 => Some(79),
        0x0256 => Some(80),
        0x00f0 => Some(81),
        0x02a4 => Some(82),
        0x0259 => Some(83),
        0x0258 => Some(84),
        0x025a => Some(85),
        0x025b => Some(86),
        0x025c => Some(87),
        0x025d => Some(88),
        0x025e => Some(89),
        0x025f => Some(90),
        0x0284 => Some(91),
        0x0261 => Some(92),
        0x0260 => Some(93),
        0x0262 => Some(94),
        0x029b => Some(95),
        0x0266 => Some(96),
        0x0267 => Some(97),
        0x0127 => Some(98),
        0x0265 => Some(99),
        0x029c => Some(100),
        0x0268 => Some(101),
        0x026a => Some(102),
        0x029d => Some(103),
        0x026d => Some(104),
        0x026c => Some(105),
        0x026b => Some(106),
        0x026e => Some(107),
        0x029f => Some(108),
        0x0271 => Some(109),
        0x026f => Some(110),
        0x0270 => Some(111),
        0x014b => Some(112),
        0x0273 => Some(113),
        0x0272 => Some(114),
        0x0274 => Some(115),
        0x00f8 => Some(116),
        0x0275 => Some(117),
        0x0278 => Some(118),
        0x03b8 => Some(119),
        0x0153 => Some(120),
        0x0276 => Some(121),
        0x0298 => Some(122),
        0x0279 => Some(123),
        0x027a => Some(124),
        0x027e => Some(125),
        0x027b => Some(126),
        0x0280 => Some(127),
        0x0281 => Some(128),
        0x027d => Some(129),
        0x0282 => Some(130),
        0x0283 => Some(131),
        0x0288 => Some(132),
        0x02a7 => Some(133),
        0x0289 => Some(134),
        0x028a => Some(135),
        0x028b => Some(136),
        0x2c71 => Some(137),
        0x028c => Some(138),
        0x0263 => Some(139),
        0x0264 => Some(140),
        0x028d => Some(141),
        0x03c7 => Some(142),
        0x028e => Some(143),
        0x028f => Some(144),
        0x0291 => Some(145),
        0x0290 => Some(146),
        0x0292 => Some(147),
        0x0294 => Some(148),
        0x02a1 => Some(149),
        0x0295 => Some(150),
        0x02a2 => Some(151),
        0x01c0 => Some(152),
        0x01c1 => Some(153),
        0x01c2 => Some(154),
        0x01c3 => Some(155),
        0x02c8 => Some(156),
        0x02cc => Some(157),
        0x02d0 => Some(158),
        0x02d1 => Some(159),
        0x02bc => Some(160),
        0x02b4 => Some(161),
        0x02b0 => Some(162),
        0x02b1 => Some(163),
        0x02b2 => Some(164),
        0x02b7 => Some(165),
        0x02e0 => Some(166),
        0x02e4 => Some(167),
        0x02de => Some(168),
        0x2193 => Some(169),
        0x2191 => Some(170),
        0x2192 => Some(171),
        0x2197 => Some(172),
        0x2198 => Some(173),
        0x0329 => Some(175),
        0x0027 => Some(176),
        0x1d7b => Some(177),
        _ => None,
    }
}

proof fn lemma_no_token_above_max()
    ensures
        forall|code: u32| code > MAX_TOKEN_CODE ==> #[trigger] token_id(code) is None,
{
}

/// Builds the vocabulary table, with one entry for each character that has an id.
pub fn get_tokens() -> (r: KittenTokens)
    ensures
        r@ == token_table(),
{
    let mut m: KittenTokens = HashMap::new();
    let mut code: u32 = 0;
    while code <= MAX_TOKEN_CODE
        invariant
            code <= MAX_TOKEN_CODE + 1,
            forall|k: u32| #[trigger] m@.contains_key(k) ==> k < code,
            forall|k: u32|
                k < code ==> (#[trigger] m@.contains_key(k) <==> token_id(k) is Some),
            forall|k: u32| #[trigger] m@.contains_key(k) ==> token_id(k) == Some(m@[k]),
        decreases MAX_TOKEN_CODE + 1 - code,
    {
        match token_id_of(code) {
            Some(id) => {
                m.insert(code, id);
            },
            None => {},
        }
        code = code + 1;
    }
    proof {
        lemma_no_token_above_max();
    }
    assert(m@ =~= token_table());
    m
}

/// Whether `c` has an id in `table`.
pub open spec fn is_recognized(table: Map<u32, i64>, c: char) -> bool {
    table.contains_key(c as u32)
}

/// The ids of the recognised characters of `s`, in order; other characters are dropped.
pub open spec fn encode_spec(table: Map<u32, i64>, s: Seq<char>) -> Seq<i64>
    decreases s.len(),
{
    if s.len() == 0 {
        Seq::empty()
    } else {
        let prefix = encode_spec(table, s.drop_last());
        if is_recognized(table, s.last()) {
            prefix.push(table[s.last() as u32])
        } else {
            prefix
        }
    }
}

/// Maps each character of a phoneme string to its id in `tokens`, in order, and
/// drops the characters that have none.
pub fn encode_phonemes(tokens: &KittenTokens, phonemes: &str) -> (r: Vec<i64>)
    ensures
        r@ == encode_spec(tokens@, phonemes@),
{
    let mut out: Vec<i64> = Vec::new();
    let n = phonemes.unicode_len();
    let mut i: usize = 0;
    while i < n
        invariant
            n == phonemes@.len(),
            i <= n,
            out@ == encode_spec(tokens@, phonemes@.subrange(0, i as int)),
        decreases n - i,
    {
        let c = phonemes.get_char(i);
        let key: u32 = c as u32;
        proof {
            let s = phonemes@.subrange(0, i + 1);
            assert(s.drop_last() =~= phonemes@.subrange(0, i as int));
            assert(s.last() == c);
        }
        match tokens.get(&key) {
            Some(id) => {
                out.push(*id);
            },
            None => {},
        }
        i = i + 1;
    }
    assert(phonemes@.subrange(0, n as int) =~= phonemes@);
    out
}

/// The number of ids is the number of recognised characters of the input; where
/// every character is recognised, it is the input's length.
pub proof fn lemma_encode_len(table: Map<u32, i64>, s: Seq<char>)
    ensures
        encode_spec(table, s).len() == s.filter(|c: char| is_recognized(table, c)).len(),
        (forall|i: int| 0 <= i < s.len() ==> is_recognized(table, #[trigger] s[i]))
            ==> encode_spec(table, s).len() == s.len(),
    decreases s.len(),
{
    reveal(Seq::filter);
    if s.len() > 0 {
        lemma_encode_len(table, s.drop_last());
        assert(forall|i: int| 0 <= i < s.len() - 1 ==> s.drop_last()[i] == s[i]);
    }
}

} // verus!
