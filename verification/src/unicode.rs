//! Hangul code-point arithmetic: syllable composition and decomposition,
//! compatibility-jamo and positional-jamo conversion tables, cluster split
//! tables, and classification predicates.
//!
//! Jamo are addressed by three index spaces: initial consonants L (0..19),
//! vowels V (0..21) and final consonants T (0..28, where 0 means "no final").
//! A precomposed syllable sits at `S_BASE + L*588 + V*28 + T`. Compatibility
//! jamo (U+3131..U+3163) are the forms shown for isolated jamo; positional
//! jamo (U+1100.., U+1161.., U+11A8..) name a jamo by its syllable role.

use vstd::prelude::*;

verus! {

/// First precomposed Hangul syllable (U+AC00).
pub const S_BASE: u32 = 0xAC00;
/// First positional initial consonant (U+1100).
pub const L_BASE: u32 = 0x1100;
/// First positional vowel (U+1161).
pub const V_BASE: u32 = 0x1161;
/// Base for positional final consonants (U+11A7); index 0 means "no final".
pub const T_BASE: u32 = 0x11A7;

pub const L_COUNT: u32 = 19;
pub const V_COUNT: u32 = 21;
pub const T_COUNT: u32 = 28;
/// Syllables per initial consonant: `V_COUNT * T_COUNT`.
pub const N_COUNT: u32 = 588;
/// Total number of precomposed syllables: `L_COUNT * N_COUNT`.
pub const S_COUNT: u32 = 11172;

/// First compatibility consonant, 'ㄱ' (U+3131).
pub const COMPAT_CONSONANT_START: u32 = 0x3131;
/// Last compatibility consonant, 'ㅎ' (U+314E).
pub const COMPAT_CONSONANT_END: u32 = 0x314E;
/// First compatibility vowel, 'ㅏ' (U+314F).
pub const COMPAT_VOWEL_START: u32 = 0x314F;
/// Last compatibility vowel, 'ㅣ' (U+3163).
pub const COMPAT_VOWEL_END: u32 = 0x3163;

/// Relies on `char::from_u32` of std: `Some` exactly on Unicode scalar
/// values (not a surrogate, at most U+10FFFF), and the returned `char` has
/// the given code point.
#[verifier::external_body]
pub(crate) fn char_from_u32(code: u32) -> (r: Option<char>)
    ensures
        r is Some <==> (code < 0xD800 || (0xE000 <= code && code < 0x110000)),
        r matches Some(c) ==> c as u32 == code,
{
    char::from_u32(code)
}

// ── Syllable composition and decomposition ──

/// The syllable character with jamo indices `(l, v, t)`.
pub open spec fn syllable_char(l: u32, v: u32, t: u32) -> char {
    (((S_BASE + l * N_COUNT + v * T_COUNT + t) as u32) as char)
}

/// Whether `(l, v, t)` are in-range jamo indices for a syllable.
pub open spec fn valid_lvt(l: u32, v: u32, t: u32) -> bool {
    l < L_COUNT && v < V_COUNT && t < T_COUNT
}

/// What `compose_syllable` returns.
pub open spec fn spec_compose(l: u32, v: u32, t: u32) -> Option<char> {
    if valid_lvt(l, v, t) {
        Some(syllable_char(l, v, t))
    } else {
        None
    }
}

/// Composes jamo indices into the precomposed syllable, or `None` when an
/// index is out of range.
pub fn compose_syllable(l: u32, v: u32, t: u32) -> (r: Option<char>)
    ensures
        r == spec_compose(l, v, t),
{
    if l >= L_COUNT || v >= V_COUNT || t >= T_COUNT {
        return None;
    }
    let code: u32 = S_BASE + l * N_COUNT + v * T_COUNT + t;
    let r = char_from_u32(code);
    proof {
        vstd::utf8::char_u32_cast(r.unwrap(), code);
    }
    r
}

/// `compose_syllable` with the final given as an option; `None` means no
/// final consonant.
pub fn compose_syllable_char(l: u32, v: u32, t: Option<u32>) -> (r: Option<char>)
    ensures
        r == spec_compose(l, v, t.unwrap_or(0)),
{
    compose_syllable(l, v, t.unwrap_or(0))
}

/// What `decompose_syllable` returns, as a function of the code point.
pub open spec fn spec_decompose(code: u32) -> Option<(u32, u32, u32)> {
    if S_BASE <= code < S_BASE + S_COUNT {
        let off = (code - S_BASE) as u32;
        Some(((off / N_COUNT) as u32, ((off % N_COUNT) / T_COUNT) as u32, (off % T_COUNT) as u32))
    } else {
        None
    }
}

/// Splits a precomposed syllable into its jamo indices `(l, v, t)`; `t` is 0
/// when the syllable has no final. `None` for any other character.
pub fn decompose_syllable(ch: char) -> (r: Option<(u32, u32, u32)>)
    ensures
        r == spec_decompose(ch as u32),
{
    let code: u32 = ch as u32;
    if code < S_BASE || code >= S_BASE + S_COUNT {
        return None;
    }
    let off: u32 = code - S_BASE;
    Some((off / N_COUNT, (off % N_COUNT) / T_COUNT, off % T_COUNT))
}

/// Composition followed by decomposition recovers the indices: for every
/// in-range `(l, v, t)`, decomposing the syllable composed of them gives
/// `(l, v, t)` back.
pub proof fn lemma_compose_decompose(l: u32, v: u32, t: u32)
    requires
        valid_lvt(l, v, t),
    ensures
        spec_decompose(syllable_char(l, v, t) as u32) == Some((l, v, t)),
{
    assert((l * 588 + v * 28 + t) / 588 == l && (l * 588 + v * 28 + t) % 588 == v * 28 + t)
        by (nonlinear_arith)
        requires
            l < 19 && v < 21 && t < 28,
    ;
    assert((v * 28 + t) / 28 == v && (v * 28 + t) % 28 == t) by (nonlinear_arith)
        requires
            v < 21 && t < 28,
    ;
    assert(l * 588 + v * 28 + t < 11172) by (nonlinear_arith)
        requires
            l < 19 && v < 21 && t < 28,
    ;
}

/// Decomposition followed by composition recovers the syllable: for every
/// character that decomposes, the indices are in range and compose back to
/// the same character.
pub proof fn lemma_decompose_compose(ch: char)
    requires
        spec_decompose(ch as u32) is Some,
    ensures
        ({
            let (l, v, t) = spec_decompose(ch as u32)->Some_0;
            valid_lvt(l, v, t) && syllable_char(l, v, t) == ch
        }),
{
    let code = ch as u32;
    let off = (code - S_BASE) as u32;
    let l = (off / N_COUNT) as u32;
    let v = ((off % N_COUNT) / T_COUNT) as u32;
    let t = (off % T_COUNT) as u32;
    assert(off < 11172 ==> off / 588 < 19 && (off % 588) / 28 < 21 && off % 28 < 28
        && off / 588 * 588 + (off % 588) / 28 * 28 + off % 28 == off) by (nonlinear_arith);
    assert(l * N_COUNT + v * T_COUNT + t == off);
    vstd::utf8::char_u32_cast(ch, code);
}

// ── Classification predicates ──

/// Whether `c` is a compatibility consonant (ㄱ..ㅎ, clusters included).
pub open spec fn spec_is_compat_consonant(c: u32) -> bool {
    COMPAT_CONSONANT_START <= c <= COMPAT_CONSONANT_END
}

pub fn is_compat_consonant(ch: char) -> (r: bool)
    ensures
        r == spec_is_compat_consonant(ch as u32),
{
    let c: u32 = ch as u32;
    COMPAT_CONSONANT_START <= c && c <= COMPAT_CONSONANT_END
}

/// Whether `c` is a compatibility vowel (ㅏ..ㅣ).
pub open spec fn spec_is_compat_vowel(c: u32) -> bool {
    COMPAT_VOWEL_START <= c <= COMPAT_VOWEL_END
}

pub fn is_compat_vowel(ch: char) -> (r: bool)
    ensures
        r == spec_is_compat_vowel(ch as u32),
{
    let c: u32 = ch as u32;
    COMPAT_VOWEL_START <= c && c <= COMPAT_VOWEL_END
}

/// Whether `c` is a positional initial consonant (U+1100..U+1112).
pub open spec fn spec_is_choseong(c: u32) -> bool {
    L_BASE <= c < L_BASE + L_COUNT
}

pub fn is_choseong(ch: char) -> (r: bool)
    ensures
        r == spec_is_choseong(ch as u32),
{
    let c: u32 = ch as u32;
    L_BASE <= c && c < L_BASE + L_COUNT
}

/// Whether `c` is a positional vowel (U+1161..U+1175).
pub open spec fn spec_is_jungseong(c: u32) -> bool {
    V_BASE <= c < V_BASE + V_COUNT
}

pub fn is_jungseong(ch: char) -> (r: bool)
    ensures
        r == spec_is_jungseong(ch as u32),
{
    let c: u32 = ch as u32;
    V_BASE <= c && c < V_BASE + V_COUNT
}

/// Whether `c` is a positional final consonant (U+11A8..U+11C2).
pub open spec fn spec_is_jongseong(c: u32) -> bool {
    T_BASE + 1 <= c < T_BASE + T_COUNT
}

pub fn is_jongseong(ch: char) -> (r: bool)
    ensures
        r == spec_is_jongseong(ch as u32),
{
    let c: u32 = ch as u32;
    T_BASE + 1 <= c && c < T_BASE + T_COUNT
}

/// Whether `c` is any Hangul jamo this engine interprets: a positional
/// initial, vowel or final, or a compatibility consonant or vowel.
pub open spec fn spec_is_korean_jamo(c: u32) -> bool {
    spec_is_choseong(c) || spec_is_jungseong(c) || spec_is_jongseong(c)
        || spec_is_compat_consonant(c) || spec_is_compat_vowel(c)
}

pub fn is_korean_jamo(ch: char) -> (r: bool)
    ensures
        r == spec_is_korean_jamo(ch as u32),
{
    is_choseong(ch) || is_jungseong(ch) || is_jongseong(ch) || is_compat_consonant(ch)
        || is_compat_vowel(ch)
}

/// Whether `c` is a precomposed syllable (가..힣).
pub open spec fn spec_is_syllable(c: u32) -> bool {
    S_BASE <= c < S_BASE + S_COUNT
}

pub fn is_syllable(ch: char) -> (r: bool)
    ensures
        r == spec_is_syllable(ch as u32),
{
    let c: u32 = ch as u32;
    S_BASE <= c && c < S_BASE + S_COUNT
}

// ── Positional jamo to index ──

pub fn choseong_to_index(ch: char) -> (r: Option<u32>)
    ensures
        r == if spec_is_choseong(ch as u32) {
            Some((ch as u32 - L_BASE) as u32)
        } else {
            None::<u32>
        },
{
    if is_choseong(ch) {
        Some(ch as u32 - L_BASE)
    } else {
        None
    }
}

pub fn jungseong_to_index(ch: char) -> (r: Option<u32>)
    ensures
        r == if spec_is_jungseong(ch as u32) {
            Some((ch as u32 - V_BASE) as u32)
        } else {
            None::<u32>
        },
{
    if is_jungseong(ch) {
        Some(ch as u32 - V_BASE)
    } else {
        None
    }
}

pub fn jongseong_to_index(ch: char) -> (r: Option<u32>)
    ensures
        r == if spec_is_jongseong(ch as u32) {
            Some((ch as u32 - T_BASE) as u32)
        } else {
            None::<u32>
        },
{
    if is_jongseong(ch) {
        Some(ch as u32 - T_BASE)
    } else {
        None
    }
}

// ── Compatibility jamo to index ──

/// The L index of a compatibility consonant, when it can stand as an
/// initial. The 19 initials, in index order:
/// ㄱ ㄲ ㄴ ㄷ ㄸ ㄹ ㅁ ㅂ ㅃ ㅅ ㅆ ㅇ ㅈ ㅉ ㅊ ㅋ ㅌ ㅍ ㅎ.
pub open spec fn spec_compat_to_l(c: u32) -> Option<u32> {
    if c == 0x3131 {
        Some(0u32)
    } else if c == 0x3132 {
        Some(1u32)
    } else if c == 0x3134 {
        Some(2u32)
    } else if c == 0x3137 {
        Some(3u32)
    } else if c == 0x3138 {
        Some(4u32)
    } else if c == 0x3139 {
        Some(5u32)
    } else if c == 0x3141 {
        Some(6u32)
    } else if c == 0x3142 {
        Some(7u32)
    } else if c == 0x3143 {
        Some(8u32)
    } else if c == 0x3145 {
        Some(9u32)
    } else if c == 0x3146 {
        Some(10u32)
    } else if c == 0x3147 {
        Some(11u32)
    } else if c == 0x3148 {
        Some(12u32)
    } else if c == 0x3149 {
        Some(13u32)
    } else if c == 0x314A {
        Some(14u32)
    } else if c == 0x314B {
        Some(15u32)
    } else if c == 0x314C {
        Some(16u32)
    } else if c == 0x314D {
        Some(17u32)
    } else if c == 0x314E {
        Some(18u32)
    } else {
        None
    }
}

pub fn compat_to_choseong(ch: char) -> (r: Option<u32>)
    ensures
        r == spec_compat_to_l(ch as u32),
{
    match ch as u32 {
        0x3131 => Some(0),
        0x3132 => Some(1),
        0x3134 => Some(2),
        0x3137 => Some(3),
        0x3138 => Some(4),
        0x3139 => Some(5),
        0x3141 => Some(6),
        0x3142 => Some(7),
        0x3143 => Some(8),
        0x3145 => Some(9),
        0x3146 => Some(10),
        0x3147 => Some(11),
        0x3148 => Some(12),
        0x3149 => Some(13),
        0x314A => Some(14),
        0x314B => Some(15),
        0x314C => Some(16),
        0x314D => Some(17),
        0x314E => Some(18),
        _ => None,
    }
}

/// The V index of a compatibility vowel: they are contiguous from ㅏ.
pub open spec fn spec_compat_to_v(c: u32) -> Option<u32> {
    if COMPAT_VOWEL_START <= c <= COMPAT_VOWEL_END {
        Some((c - COMPAT_VOWEL_START) as u32)
    } else {
        None
    }
}

pub fn compat_to_jungseong(ch: char) -> (r: Option<u32>)
    ensures
        r == spec_compat_to_v(ch as u32),
{
    let c: u32 = ch as u32;
    if COMPAT_VOWEL_START <= c && c <= COMPAT_VOWEL_END {
        Some(c - COMPAT_VOWEL_START)
    } else {
        None
    }
}

/// The T index of a compatibility consonant, when it can stand as a final.
/// The 27 finals, in index order 1..=27:
/// ㄱ ㄲ ㄳ ㄴ ㄵ ㄶ ㄷ ㄹ ㄺ ㄻ ㄼ ㄽ ㄾ ㄿ ㅀ ㅁ ㅂ ㅄ ㅅ ㅆ ㅇ ㅈ ㅊ ㅋ ㅌ ㅍ ㅎ.
/// ㄸ, ㅃ and ㅉ have no final position, so they map to `None`.
pub open spec fn spec_compat_to_t(c: u32) -> Option<u32> {
    if c == 0x3131 {
        Some(1u32)
    } else if c == 0x3132 {
        Some(2u32)
    } else if c == 0x3133 {
        Some(3u32)
    } else if c == 0x3134 {
        Some(4u32)
    } else if c == 0x3135 {
        Some(5u32)
    } else if c == 0x3136 {
        Some(6u32)
    } else if c == 0x3137 {
        Some(7u32)
    } else if c == 0x3139 {
        Some(8u32)
    } else if c == 0x313A {
        Some(9u32)
    } else if c == 0x313B {
        Some(10u32)
    } else if c == 0x313C {
        Some(11u32)
    } else if c == 0x313D {
        Some(12u32)
    } else if c == 0x313E {
        Some(13u32)
    } else if c == 0x313F {
        Some(14u32)
    } else if c == 0x3140 {
        Some(15u32)
    } else if c == 0x3141 {
        Some(16u32)
    } else if c == 0x3142 {
        Some(17u32)
    } else if c == 0x3144 {
        Some(18u32)
    } else if c == 0x3145 {
        Some(19u32)
    } else if c == 0x3146 {
        Some(20u32)
    } else if c == 0x3147 {
        Some(21u32)
    } else if c == 0x3148 {
        Some(22u32)
    } else if c == 0x314A {
        Some(23u32)
    } else if c == 0x314B {
        Some(24u32)
    } else if c == 0x314C {
        Some(25u32)
    } else if c == 0x314D {
        Some(26u32)
    } else if c == 0x314E {
        Some(27u32)
    } else {
        None
    }
}

pub fn compat_to_jongseong(ch: char) -> (r: Option<u32>)
    ensures
        r == spec_compat_to_t(ch as u32),
{
    match ch as u32 {
        0x3131 => Some(1),
        0x3132 => Some(2),
        0x3133 => Some(3),
        0x3134 => Some(4),
        0x3135 => Some(5),
        0x3136 => Some(6),
        0x3137 => Some(7),
        0x3139 => Some(8),
        0x313A => Some(9),
        0x313B => Some(10),
        0x313C => Some(11),
        0x313D => Some(12),
        0x313E => Some(13),
        0x313F => Some(14),
        0x3140 => Some(15),
        0x3141 => Some(16),
        0x3142 => Some(17),
        0x3144 => Some(18),
        0x3145 => Some(19),
        0x3146 => Some(20),
        0x3147 => Some(21),
        0x3148 => Some(22),
        0x314A => Some(23),
        0x314B => Some(24),
        0x314C => Some(25),
        0x314D => Some(26),
        0x314E => Some(27),
        _ => None,
    }
}

// ── Index to compatibility jamo ──

/// The compatibility code point of an L index.
pub open spec fn spec_l_to_compat(l: u32) -> Option<u32> {
    if l == 0 {
        Some(0x3131u32)
    } else if l == 1 {
        Some(0x3132u32)
    } else if l == 2 {
        Some(0x3134u32)
    } else if l == 3 {
        Some(0x3137u32)
    } else if l == 4 {
        Some(0x3138u32)
    } else if l == 5 {
        Some(0x3139u32)
    } else if l == 6 {
        Some(0x3141u32)
    } else if l == 7 {
        Some(0x3142u32)
    } else if l == 8 {
        Some(0x3143u32)
    } else if l == 9 {
        Some(0x3145u32)
    } else if l == 10 {
        Some(0x3146u32)
    } else if l == 11 {
        Some(0x3147u32)
    } else if l == 12 {
        Some(0x3148u32)
    } else if l == 13 {
        Some(0x3149u32)
    } else if l == 14 {
        Some(0x314Au32)
    } else if l == 15 {
        Some(0x314Bu32)
    } else if l == 16 {
        Some(0x314Cu32)
    } else if l == 17 {
        Some(0x314Du32)
    } else if l == 18 {
        Some(0x314Eu32)
    } else {
        None
    }
}

/// The compatibility character of an L index, as `spec_l_to_compat` gives it.
pub open spec fn spec_l_compat_char(l: u32) -> Option<char> {
    match spec_l_to_compat(l) {
        Some(c) => Some((c as char)),
        None => None,
    }
}

pub fn choseong_to_compat(l: u32) -> (r: Option<char>)
    ensures
        r == spec_l_compat_char(l),
{
    let code: Option<u32> = match l {
        0 => Some(0x3131),
        1 => Some(0x3132),
        2 => Some(0x3134),
        3 => Some(0x3137),
        4 => Some(0x3138),
        5 => Some(0x3139),
        6 => Some(0x3141),
        7 => Some(0x3142),
        8 => Some(0x3143),
        9 => Some(0x3145),
        10 => Some(0x3146),
        11 => Some(0x3147),
        12 => Some(0x3148),
        13 => Some(0x3149),
        14 => Some(0x314A),
        15 => Some(0x314B),
        16 => Some(0x314C),
        17 => Some(0x314D),
        18 => Some(0x314E),
        _ => None,
    };
    match code {
        Some(c) => {
            let r = char_from_u32(c);
            proof {
                vstd::utf8::char_u32_cast(r.unwrap(), c);
            }
            r
        },
        None => None,
    }
}

/// The compatibility code point of a V index: contiguous from ㅏ.
pub open spec fn spec_v_to_compat(v: u32) -> Option<u32> {
    if v < V_COUNT {
        Some((COMPAT_VOWEL_START + v) as u32)
    } else {
        None
    }
}

/// The compatibility character of a V index.
pub open spec fn spec_v_compat_char(v: u32) -> Option<char> {
    match spec_v_to_compat(v) {
        Some(c) => Some((c as char)),
        None => None,
    }
}

pub fn jungseong_to_compat(v: u32) -> (r: Option<char>)
    ensures
        r == spec_v_compat_char(v),
{
    if v < V_COUNT {
        let c: u32 = COMPAT_VOWEL_START + v;
        let r = char_from_u32(c);
        proof {
            vstd::utf8::char_u32_cast(r.unwrap(), c);
        }
        r
    } else {
        None
    }
}

/// The compatibility code point of a T index; index 0 ("no final") has none.
pub open spec fn spec_t_to_compat(t: u32) -> Option<u32> {
    if t == 1 {
        Some(0x3131u32)
    } else if t == 2 {
        Some(0x3132u32)
    } else if t == 3 {
        Some(0x3133u32)
    } else if t == 4 {
        Some(0x3134u32)
    } else if t == 5 {
        Some(0x3135u32)
    } else if t == 6 {
        Some(0x3136u32)
    } else if t == 7 {
        Some(0x3137u32)
    } else if t == 8 {
        Some(0x3139u32)
    } else if t == 9 {
        Some(0x313Au32)
    } else if t == 10 {
        Some(0x313Bu32)
    } else if t == 11 {
        Some(0x313Cu32)
    } else if t == 12 {
        Some(0x313Du32)
    } else if t == 13 {
        Some(0x313Eu32)
    } else if t == 14 {
        Some(0x313Fu32)
    } else if t == 15 {
        Some(0x3140u32)
    } else if t == 16 {
        Some(0x3141u32)
    } else if t == 17 {
        Some(0x3142u32)
    } else if t == 18 {
        Some(0x3144u32)
    } else if t == 19 {
        Some(0x3145u32)
    } else if t == 20 {
        Some(0x3146u32)
    } else if t == 21 {
        Some(0x3147u32)
    } else if t == 22 {
        Some(0x3148u32)
    } else if t == 23 {
        Some(0x314Au32)
    } else if t == 24 {
        Some(0x314Bu32)
    } else if t == 25 {
        Some(0x314Cu32)
    } else if t == 26 {
        Some(0x314Du32)
    } else if t == 27 {
        Some(0x314Eu32)
    } else {
        None
    }
}

/// The compatibility character of a T index.
pub open spec fn spec_t_compat_char(t: u32) -> Option<char> {
    match spec_t_to_compat(t) {
        Some(c) => Some((c as char)),
        None => None,
    }
}

pub fn jongseong_to_compat(t: u32) -> (r: Option<char>)
    ensures
        r == spec_t_compat_char(t),
{
    let code: Option<u32> = match t {
        1 => Some(0x3131),
        2 => Some(0x3132),
        3 => Some(0x3133),
        4 => Some(0x3134),
        5 => Some(0x3135),
        6 => Some(0x3136),
        7 => Some(0x3137),
        8 => Some(0x3139),
        9 => Some(0x313A),
        10 => Some(0x313B),
        11 => Some(0x313C),
        12 => Some(0x313D),
        13 => Some(0x313E),
        14 => Some(0x313F),
        15 => Some(0x3140),
        16 => Some(0x3141),
        17 => Some(0x3142),
        18 => Some(0x3144),
        19 => Some(0x3145),
        20 => Some(0x3146),
        21 => Some(0x3147),
        22 => Some(0x3148),
        23 => Some(0x314A),
        24 => Some(0x314B),
        25 => Some(0x314C),
        26 => Some(0x314D),
        27 => Some(0x314E),
        _ => None,
    };
    match code {
        Some(c) => {
            let r = char_from_u32(c);
            proof {
                vstd::utf8::char_u32_cast(r.unwrap(), c);
            }
            r
        },
        None => None,
    }
}

// ── Bridges between the L and T index spaces ──

/// The L index that renders as the same consonant as the T index `t`:
/// the final's compatibility form read back as an initial. Used when a
/// final consonant is stolen into the next syllable as its initial.
pub open spec fn spec_t_to_l(t: u32) -> Option<u32> {
    match spec_t_to_compat(t) {
        Some(c) => spec_compat_to_l(c),
        None => None,
    }
}

pub fn jongseong_to_choseong(t: u32) -> (r: Option<u32>)
    ensures
        r == spec_t_to_l(t),
{
    match jongseong_to_compat(t) {
        Some(compat) => compat_to_choseong(compat),
        None => None,
    }
}

/// The T index that renders as the same consonant as the L index `l`, when
/// that consonant can stand as a final.
pub open spec fn spec_l_to_t(l: u32) -> Option<u32> {
    match spec_l_to_compat(l) {
        Some(c) => spec_compat_to_t(c),
        None => None,
    }
}

pub fn choseong_to_jongseong(l: u32) -> (r: Option<u32>)
    ensures
        r == spec_l_to_t(l),
{
    match choseong_to_compat(l) {
        Some(compat) => compat_to_jongseong(compat),
        None => None,
    }
}

// ── Finals that cannot exist ──

/// Whether `c` is one of the compatibility consonants that can never stand
/// in final position: ㄸ, ㅃ, ㅉ.
pub open spec fn spec_is_jongseong_impossible(c: u32) -> bool {
    c == 0x3138 || c == 0x3143 || c == 0x3149
}

pub fn is_jongseong_impossible(ch: char) -> (r: bool)
    ensures
        r == spec_is_jongseong_impossible(ch as u32),
{
    let c: u32 = ch as u32;
    c == 0x3138 || c == 0x3143 || c == 0x3149
}

// ── Cluster split tables ──

/// Splits a cluster final into its first part (a T index, kept in the
/// current syllable) and its second part (a compatibility code point, which
/// becomes the next syllable's initial). The eleven cluster finals:
/// ㄳ ㄵ ㄶ ㄺ ㄻ ㄼ ㄽ ㄾ ㄿ ㅀ ㅄ.
pub open spec fn spec_split_t(t: u32) -> Option<(u32, u32)> {
    if t == 3 {
        Some((1u32, 0x3145u32))
    } else if t == 5 {
        Some((4u32, 0x3148u32))
    } else if t == 6 {
        Some((4u32, 0x314Eu32))
    } else if t == 9 {
        Some((8u32, 0x3131u32))
    } else if t == 10 {
        Some((8u32, 0x3141u32))
    } else if t == 11 {
        Some((8u32, 0x3142u32))
    } else if t == 12 {
        Some((8u32, 0x3145u32))
    } else if t == 13 {
        Some((8u32, 0x314Cu32))
    } else if t == 14 {
        Some((8u32, 0x314Du32))
    } else if t == 15 {
        Some((8u32, 0x314Eu32))
    } else if t == 18 {
        Some((17u32, 0x3145u32))
    } else {
        None
    }
}

pub fn split_double_jongseong(t: u32) -> (r: Option<(u32, char)>)
    ensures
        r is Some <==> spec_split_t(t) is Some,
        r matches Some((first, second)) ==> spec_split_t(t) == Some((first, second as u32)),
{
    let pair: Option<(u32, u32)> = match t {
        3 => Some((1, 0x3145)),
        5 => Some((4, 0x3148)),
        6 => Some((4, 0x314E)),
        9 => Some((8, 0x3131)),
        10 => Some((8, 0x3141)),
        11 => Some((8, 0x3142)),
        12 => Some((8, 0x3145)),
        13 => Some((8, 0x314C)),
        14 => Some((8, 0x314D)),
        15 => Some((8, 0x314E)),
        18 => Some((17, 0x3145)),
        _ => None,
    };
    match pair {
        Some((first, second)) => {
            match char_from_u32(second) {
                Some(ch) => Some((first, ch)),
                None => None,
            }
        },
        None => None,
    }
}

pub fn is_double_jongseong(t: u32) -> (r: bool)
    ensures
        r == (spec_split_t(t) is Some),
{
    match t {
        3 | 5 | 6 | 9 | 10 | 11 | 12 | 13 | 14 | 15 | 18 => true,
        _ => false,
    }
}

/// Splits a cluster vowel into its two V indices. The seven cluster vowels:
/// ㅘ ㅙ ㅚ ㅝ ㅞ ㅟ ㅢ.
pub open spec fn spec_split_v(v: u32) -> Option<(u32, u32)> {
    if v == 9 {
        Some((8u32, 0u32))
    } else if v == 10 {
        Some((8u32, 1u32))
    } else if v == 11 {
        Some((8u32, 20u32))
    } else if v == 14 {
        Some((13u32, 4u32))
    } else if v == 15 {
        Some((13u32, 5u32))
    } else if v == 16 {
        Some((13u32, 20u32))
    } else if v == 19 {
        Some((18u32, 20u32))
    } else {
        None
    }
}

pub fn split_double_jungseong(v: u32) -> (r: Option<(u32, u32)>)
    ensures
        r == spec_split_v(v),
{
    match v {
        9 => Some((8, 0)),
        10 => Some((8, 1)),
        11 => Some((8, 20)),
        14 => Some((13, 4)),
        15 => Some((13, 5)),
        16 => Some((13, 20)),
        19 => Some((18, 20)),
        _ => None,
    }
}

pub fn is_double_jungseong(v: u32) -> (r: bool)
    ensures
        r == (spec_split_v(v) is Some),
{
    match v {
        9 | 10 | 11 | 14 | 15 | 16 | 19 => true,
        _ => false,
    }
}

/// Every cluster final splits into parts the steal move can use: the first
/// part is again a T index with an L reading, and the second part is a
/// compatibility consonant with an L index.
pub proof fn lemma_cluster_split_steal(t: u32)
    requires
        spec_split_t(t) is Some,
    ensures
        ({
            let (first, second) = spec_split_t(t)->Some_0;
            spec_t_to_l(first) is Some && spec_compat_to_l(second) is Some
        }),
{
}

} // verus!
