//! Tests of the two-set automaton against a standard two-set keymap.

use ongeul::buffer::AutomataState;
use ongeul::jamo::JamoAutomata;
use ongeul::layout::KeyboardLayout;

/// A standard two-set keymap with the usual vowel and final combinations.
const TEST_LAYOUT_JSON: &str = r#"{
    id: "2-standard-test",
    name: "두벌식 테스트",
    type: "jamo",
    keymap: {
        "r": "0x3131",  // ㄱ
        "R": "0x3132",  // ㄲ
        "s": "0x3134",  // ㄴ
        "e": "0x3137",  // ㄷ
        "E": "0x3138",  // ㄸ
        "f": "0x3139",  // ㄹ
        "a": "0x3141",  // ㅁ
        "q": "0x3142",  // ㅂ
        "Q": "0x3143",  // ㅃ
        "t": "0x3145",  // ㅅ
        "T": "0x3146",  // ㅆ
        "d": "0x3147",  // ㅇ
        "w": "0x3148",  // ㅈ
        "W": "0x3149",  // ㅉ
        "c": "0x314A",  // ㅊ
        "z": "0x314B",  // ㅋ
        "x": "0x314C",  // ㅌ
        "v": "0x314D",  // ㅍ
        "g": "0x314E",  // ㅎ

        "k": "0x314F",  // ㅏ
        "o": "0x3150",  // ㅐ
        "i": "0x3151",  // ㅑ
        "O": "0x3152",  // ㅒ
        "j": "0x3153",  // ㅓ
        "p": "0x3154",  // ㅔ
        "u": "0x3155",  // ㅕ
        "P": "0x3156",  // ㅖ
        "h": "0x3157",  // ㅗ
        "y": "0x315B",  // ㅛ
        "n": "0x315C",  // ㅜ
        "b": "0x3160",  // ㅠ
        "m": "0x3161",  // ㅡ
        "l": "0x3163",  // ㅣ
    },
    combinations: [
        { first: "0x3157", second: "0x314F", result: "0x3158" },  // ㅗ + ㅏ = ㅘ
        { first: "0x3157", second: "0x3150", result: "0x3159" },  // ㅗ + ㅐ = ㅙ
        { first: "0x3157", second: "0x3163", result: "0x315A" },  // ㅗ + ㅣ = ㅚ
        { first: "0x315C", second: "0x3153", result: "0x315D" },  // ㅜ + ㅓ = ㅝ
        { first: "0x315C", second: "0x3154", result: "0x315E" },  // ㅜ + ㅔ = ㅞ
        { first: "0x315C", second: "0x3163", result: "0x315F" },  // ㅜ + ㅣ = ㅟ
        { first: "0x3161", second: "0x3163", result: "0x3162" },  // ㅡ + ㅣ = ㅢ
        { first: "0x3131", second: "0x3145", result: "0x3133" },  // ㄱ + ㅅ = ㄳ
        { first: "0x3134", second: "0x3148", result: "0x3135" },  // ㄴ + ㅈ = ㄵ
        { first: "0x3134", second: "0x314E", result: "0x3136" },  // ㄴ + ㅎ = ㄶ
        { first: "0x3139", second: "0x3131", result: "0x313A" },  // ㄹ + ㄱ = ㄺ
        { first: "0x3139", second: "0x3141", result: "0x313B" },  // ㄹ + ㅁ = ㄻ
        { first: "0x3139", second: "0x3142", result: "0x313C" },  // ㄹ + ㅂ = ㄼ
        { first: "0x3139", second: "0x3145", result: "0x313D" },  // ㄹ + ㅅ = ㄽ
        { first: "0x3139", second: "0x314C", result: "0x313E" },  // ㄹ + ㅌ = ㄾ
        { first: "0x3139", second: "0x314D", result: "0x313F" },  // ㄹ + ㅍ = ㄿ
        { first: "0x3139", second: "0x314E", result: "0x3140" },  // ㄹ + ㅎ = ㅀ
        { first: "0x3142", second: "0x3145", result: "0x3144" },  // ㅂ + ㅅ = ㅄ
    ],
}"#;

fn make_layout() -> KeyboardLayout {
    KeyboardLayout::from_json(TEST_LAYOUT_JSON).unwrap()
}

fn process_keys(
    automata: &mut JamoAutomata,
    layout: &KeyboardLayout,
    keys: &[&str],
) -> (String, Option<String>) {
    let mut committed = String::new();
    let mut composing = None;
    for key in keys {
        let ch = layout.map_key(key).unwrap();
        let result = automata.process(ch, layout);
        if let Some(c) = &result.committed {
            committed.push_str(c);
        }
        composing = result.composing;
    }
    (committed, composing)
}

#[test]
fn test_single_consonant() {
    let layout = make_layout();
    let mut automata = JamoAutomata::new();
    let ch = layout.map_key("r").unwrap(); // ㄱ
    let result = automata.process(ch, &layout);
    assert_eq!(result.composing, Some("ㄱ".to_string()));
    assert_eq!(result.committed, None);
    assert_eq!(automata.state(), AutomataState::Choseong);
}

#[test]
fn test_consonant_vowel() {
    let layout = make_layout();
    let mut automata = JamoAutomata::new();
    let (committed, composing) = process_keys(&mut automata, &layout, &["r", "k"]);
    assert_eq!(committed, "");
    assert_eq!(composing, Some("가".to_string()));
    assert_eq!(automata.state(), AutomataState::Jungseong);
}

#[test]
fn test_full_syllable_han() {
    // ㅎ ㅏ ㄴ → 한
    let layout = make_layout();
    let mut automata = JamoAutomata::new();
    let (committed, composing) = process_keys(&mut automata, &layout, &["g", "k", "s"]);
    assert_eq!(committed, "");
    assert_eq!(composing, Some("한".to_string()));
    assert_eq!(automata.state(), AutomataState::Jongseong);
}

#[test]
fn jamo_test_hangul_word() {
    // ㅎ ㅏ ㄴ ㄱ ㅡ ㄹ → "한" committed, "글" composing
    let layout = make_layout();
    let mut automata = JamoAutomata::new();
    let (committed, composing) =
        process_keys(&mut automata, &layout, &["g", "k", "s", "r", "m", "f"]);
    assert_eq!(committed, "한");
    assert_eq!(composing, Some("글".to_string()));
}

#[test]
fn jamo_test_jongseong_split() {
    // ㄱ ㅏ ㄴ ㅕ → "가" committed, "녀" composing (the steal)
    let layout = make_layout();
    let mut automata = JamoAutomata::new();
    let (committed, composing) = process_keys(&mut automata, &layout, &["r", "k", "s", "u"]);
    assert_eq!(committed, "가");
    assert_eq!(composing, Some("녀".to_string()));
}

#[test]
fn jamo_test_double_jongseong_split() {
    // ㄱ ㅏ ㅂ ㅅ ㅣ → "갑" committed, "시" composing (the cluster steal)
    let layout = make_layout();
    let mut automata = JamoAutomata::new();
    let (committed, composing) = process_keys(&mut automata, &layout, &["r", "k", "q", "t", "l"]);
    assert_eq!(committed, "갑");
    assert_eq!(composing, Some("시".to_string()));
}

#[test]
fn jamo_test_double_vowel() {
    // ㄱ ㅗ ㅏ → "과" (cluster vowel ㅘ)
    let layout = make_layout();
    let mut automata = JamoAutomata::new();
    let (committed, composing) = process_keys(&mut automata, &layout, &["r", "h", "k"]);
    assert_eq!(committed, "");
    assert_eq!(composing, Some("과".to_string()));
    assert_eq!(automata.state(), AutomataState::Jungseong2);
}

#[test]
fn test_double_vowel_with_jongseong() {
    // ㄱ ㅗ ㅏ ㄴ → "관"
    let layout = make_layout();
    let mut automata = JamoAutomata::new();
    let (committed, composing) = process_keys(&mut automata, &layout, &["r", "h", "k", "s"]);
    assert_eq!(committed, "");
    assert_eq!(composing, Some("관".to_string()));
}

#[test]
fn jamo_test_backspace_from_jongseong() {
    // ㅎ ㅏ ㄴ then backspace → "하"
    let layout = make_layout();
    let mut automata = JamoAutomata::new();
    process_keys(&mut automata, &layout, &["g", "k", "s"]);
    let result = automata.backspace();
    assert_eq!(result.composing, Some("하".to_string()));
    assert_eq!(automata.state(), AutomataState::Jungseong);
}

#[test]
fn test_backspace_from_jungseong() {
    // ㅎ ㅏ then backspace → "ㅎ"
    let layout = make_layout();
    let mut automata = JamoAutomata::new();
    process_keys(&mut automata, &layout, &["g", "k"]);
    let result = automata.backspace();
    assert_eq!(result.composing, Some("ㅎ".to_string()));
    assert_eq!(automata.state(), AutomataState::Choseong);
}

#[test]
fn test_backspace_from_choseong() {
    let layout = make_layout();
    let mut automata = JamoAutomata::new();
    process_keys(&mut automata, &layout, &["g"]);
    let result = automata.backspace();
    assert_eq!(result.composing, None);
    assert_eq!(automata.state(), AutomataState::Empty);
}

#[test]
fn test_backspace_from_empty() {
    let mut automata = JamoAutomata::new();
    let result = automata.backspace();
    assert!(!result.handled);
}

#[test]
fn jamo_test_backspace_from_double_jongseong() {
    // ㄱ ㅏ ㅂ ㅅ then backspace → "갑" (ㅅ removed from ㅄ)
    let layout = make_layout();
    let mut automata = JamoAutomata::new();
    process_keys(&mut automata, &layout, &["r", "k", "q", "t"]);
    assert_eq!(automata.state(), AutomataState::Jongseong2);
    let result = automata.backspace();
    assert_eq!(result.composing, Some("갑".to_string()));
    assert_eq!(automata.state(), AutomataState::Jongseong);
}

#[test]
fn jamo_test_backspace_from_double_vowel() {
    // ㄱ ㅗ ㅏ then backspace → "고" (ㅏ removed from ㅘ)
    let layout = make_layout();
    let mut automata = JamoAutomata::new();
    process_keys(&mut automata, &layout, &["r", "h", "k"]);
    assert_eq!(automata.state(), AutomataState::Jungseong2);
    let result = automata.backspace();
    assert_eq!(result.composing, Some("고".to_string()));
    assert_eq!(automata.state(), AutomataState::Jungseong);
}

#[test]
fn jamo_test_flush() {
    let layout = make_layout();
    let mut automata = JamoAutomata::new();
    process_keys(&mut automata, &layout, &["g", "k", "s"]);
    let result = automata.flush();
    assert_eq!(result.committed, Some("한".to_string()));
    assert_eq!(result.composing, None);
    assert_eq!(automata.state(), AutomataState::Empty);
}

#[test]
fn test_jongseong_impossible_ddikkut() {
    // ㄱ ㅏ then ㄸ → "가" committed, "ㄸ" composing (ㄸ never a final)
    let layout = make_layout();
    let mut automata = JamoAutomata::new();
    let (committed, composing) = process_keys(&mut automata, &layout, &["r", "k", "E"]);
    assert_eq!(committed, "가");
    assert_eq!(composing, Some("ㄸ".to_string()));
}

#[test]
fn test_vowel_only() {
    let layout = make_layout();
    let mut automata = JamoAutomata::new();
    let ch = layout.map_key("k").unwrap();
    let result = automata.process(ch, &layout);
    assert_eq!(result.composing, Some("ㅏ".to_string()));
    assert_eq!(automata.state(), AutomataState::Jungseong);
}

#[test]
fn test_vowel_then_consonant_commits_vowel() {
    // ㅏ then ㄱ → "ㅏ" committed, "ㄱ" composing
    let layout = make_layout();
    let mut automata = JamoAutomata::new();
    let (committed, composing) = process_keys(&mut automata, &layout, &["k", "r"]);
    assert_eq!(committed, "ㅏ");
    assert_eq!(composing, Some("ㄱ".to_string()));
}

#[test]
fn test_backspace_through_double_vowel_with_jongseong() {
    // ㄱ ㅗ ㅏ ㄴ (관), then backspace twice: "과" then "고"
    let layout = make_layout();
    let mut automata = JamoAutomata::new();
    process_keys(&mut automata, &layout, &["r", "h", "k", "s"]);
    assert_eq!(automata.state(), AutomataState::Jongseong);

    let result = automata.backspace();
    assert_eq!(result.composing, Some("과".to_string()));
    assert_eq!(automata.state(), AutomataState::Jungseong2);

    let result = automata.backspace();
    assert_eq!(result.composing, Some("고".to_string()));
    assert_eq!(automata.state(), AutomataState::Jungseong);
}

#[test]
fn test_consecutive_consonants() {
    // ㄱ then ㄴ → "ㄱ" committed, "ㄴ" composing
    let layout = make_layout();
    let mut automata = JamoAutomata::new();
    let (committed, composing) = process_keys(&mut automata, &layout, &["r", "s"]);
    assert_eq!(committed, "ㄱ");
    assert_eq!(composing, Some("ㄴ".to_string()));
}
