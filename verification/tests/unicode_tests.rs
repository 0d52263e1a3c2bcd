//! Tests of the Hangul code-point tables: composition, decomposition,
//! classification, compatibility conversions and cluster splits.

use ongeul::unicode::{
    choseong_to_compat, choseong_to_jongseong, compat_to_choseong, compat_to_jongseong,
    compat_to_jungseong, compose_syllable, compose_syllable_char, decompose_syllable, is_choseong,
    is_compat_consonant, is_compat_vowel, is_double_jungseong, is_jongseong,
    is_jongseong_impossible, is_jungseong, is_korean_jamo, is_syllable, jongseong_to_choseong,
    jungseong_to_compat, split_double_jongseong, split_double_jungseong, L_COUNT, T_COUNT, V_COUNT,
};

#[test]
fn test_compose_syllable() {
    assert_eq!(compose_syllable(0, 0, 0), Some('가'));
    assert_eq!(compose_syllable(18, 20, 27), Some('힣'));
    assert_eq!(compose_syllable(18, 0, 4), Some('한'));
    assert_eq!(compose_syllable(0, 18, 8), Some('글'));
    assert_eq!(compose_syllable(19, 0, 0), None);
}

#[test]
fn test_decompose_syllable() {
    assert_eq!(decompose_syllable('가'), Some((0, 0, 0)));
    assert_eq!(decompose_syllable('힣'), Some((18, 20, 27)));
    assert_eq!(decompose_syllable('한'), Some((18, 0, 4)));
    assert_eq!(decompose_syllable('글'), Some((0, 18, 8)));
    assert_eq!(decompose_syllable('A'), None);
}

#[test]
fn test_roundtrip() {
    for l in 0..L_COUNT {
        for v in 0..V_COUNT {
            for t in 0..T_COUNT {
                let ch = compose_syllable(l, v, t).unwrap();
                let (dl, dv, dt) = decompose_syllable(ch).unwrap();
                assert_eq!((l, v, t), (dl, dv, dt));
            }
        }
    }
}

#[test]
fn test_compat_consonant_classification() {
    assert!(is_compat_consonant('ㄱ'));
    assert!(is_compat_consonant('ㅎ'));
    assert!(is_compat_consonant('ㄲ'));
    assert!(!is_compat_consonant('ㅏ'));
    assert!(!is_compat_consonant('A'));
}

#[test]
fn test_compat_vowel_classification() {
    assert!(is_compat_vowel('ㅏ'));
    assert!(is_compat_vowel('ㅣ'));
    assert!(!is_compat_vowel('ㄱ'));
    assert!(!is_compat_vowel('A'));
}

#[test]
fn test_compat_to_choseong() {
    assert_eq!(compat_to_choseong('ㄱ'), Some(0));
    assert_eq!(compat_to_choseong('ㅎ'), Some(18));
    assert_eq!(compat_to_choseong('ㄲ'), Some(1));
    assert_eq!(compat_to_choseong('ㅏ'), None);
}

#[test]
fn test_compat_to_jungseong() {
    assert_eq!(compat_to_jungseong('ㅏ'), Some(0));
    assert_eq!(compat_to_jungseong('ㅣ'), Some(20));
    assert_eq!(compat_to_jungseong('ㄱ'), None);
}

#[test]
fn test_compat_to_jongseong() {
    assert_eq!(compat_to_jongseong('ㄱ'), Some(1));
    assert_eq!(compat_to_jongseong('ㅎ'), Some(27));
    assert_eq!(compat_to_jongseong('ㄸ'), None);
    assert_eq!(compat_to_jongseong('ㅃ'), None);
    assert_eq!(compat_to_jongseong('ㅉ'), None);
}

#[test]
fn test_index_to_compat_roundtrip() {
    let choseong_pairs: [(u32, u32); 19] = [
        (0x3131, 0),
        (0x3132, 1),
        (0x3134, 2),
        (0x3137, 3),
        (0x3138, 4),
        (0x3139, 5),
        (0x3141, 6),
        (0x3142, 7),
        (0x3143, 8),
        (0x3145, 9),
        (0x3146, 10),
        (0x3147, 11),
        (0x3148, 12),
        (0x3149, 13),
        (0x314A, 14),
        (0x314B, 15),
        (0x314C, 16),
        (0x314D, 17),
        (0x314E, 18),
    ];
    for (compat, idx) in choseong_pairs {
        let ch = char::from_u32(compat).unwrap();
        assert_eq!(compat_to_choseong(ch), Some(idx));
        assert_eq!(choseong_to_compat(idx), Some(ch));
    }
    for v in 0..V_COUNT {
        let ch = char::from_u32(0x314F + v).unwrap();
        assert_eq!(compat_to_jungseong(ch), Some(v));
        assert_eq!(jungseong_to_compat(v), Some(ch));
    }
}

#[test]
fn test_jongseong_impossible() {
    assert!(is_jongseong_impossible('ㄸ'));
    assert!(is_jongseong_impossible('ㅃ'));
    assert!(is_jongseong_impossible('ㅉ'));
    assert!(!is_jongseong_impossible('ㄱ'));
    assert!(!is_jongseong_impossible('ㅎ'));
}

#[test]
fn test_split_double_jongseong() {
    assert_eq!(split_double_jongseong(3), Some((1, 'ㅅ')));
    assert_eq!(split_double_jongseong(5), Some((4, 'ㅈ')));
    assert_eq!(split_double_jongseong(18), Some((17, 'ㅅ')));
    assert_eq!(split_double_jongseong(1), None);
}

#[test]
fn test_split_double_jungseong() {
    assert_eq!(split_double_jungseong(9), Some((8, 0)));
    assert_eq!(split_double_jungseong(19), Some((18, 20)));
    assert_eq!(split_double_jungseong(0), None);
}

#[test]
fn test_jongseong_choseong_conversion() {
    assert_eq!(jongseong_to_choseong(1), Some(0));
    assert_eq!(jongseong_to_choseong(4), Some(2));
    assert_eq!(jongseong_to_choseong(27), Some(18));
}

#[test]
fn test_positional_jamo_classification() {
    assert!(is_choseong('\u{1100}'));
    assert!(is_choseong('\u{1112}'));
    assert!(!is_choseong('\u{1161}'));

    assert!(is_jungseong('\u{1161}'));
    assert!(is_jungseong('\u{1175}'));
    assert!(!is_jungseong('\u{1100}'));

    assert!(is_jongseong('\u{11A8}'));
    assert!(is_jongseong('\u{11C2}'));
    assert!(!is_jongseong('\u{1100}'));
}

#[test]
fn test_is_syllable() {
    assert!(is_syllable('가'));
    assert!(is_syllable('힣'));
    assert!(is_syllable('한'));
    assert!(!is_syllable('ㄱ'));
    assert!(!is_syllable('A'));
}

#[test]
fn test_compose_syllable_char_optional_final() {
    assert_eq!(compose_syllable_char(18, 0, None), Some('하'));
    assert_eq!(compose_syllable_char(18, 0, Some(4)), Some('한'));
    assert_eq!(compose_syllable_char(0, 21, None), None);
}

#[test]
fn test_choseong_jongseong_conversion() {
    // ㄱ initial (0) reads as final index 1.
    assert_eq!(choseong_to_jongseong(0), Some(1));
    // ㄸ (4) has no final position.
    assert_eq!(choseong_to_jongseong(4), None);
    // ㅎ initial (18) reads as final index 27.
    assert_eq!(choseong_to_jongseong(18), Some(27));
}

#[test]
fn test_is_korean_jamo() {
    assert!(is_korean_jamo('ㄱ'));
    assert!(is_korean_jamo('ㅏ'));
    assert!(is_korean_jamo('\u{1100}'));
    assert!(is_korean_jamo('\u{1161}'));
    assert!(is_korean_jamo('\u{11A8}'));
    assert!(!is_korean_jamo('가'));
    assert!(!is_korean_jamo('7'));
}

#[test]
fn test_is_double_jungseong() {
    for v in [9, 10, 11, 14, 15, 16, 19] {
        assert!(is_double_jungseong(v));
    }
    for v in [0, 1, 8, 13, 18, 20, 21] {
        assert!(!is_double_jungseong(v));
    }
}
