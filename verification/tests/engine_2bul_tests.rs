//! Engine tests with a standard two-set layout: the core composition
//! scenarios, backspace, and mode switching.

use ongeul::{HangulEngine, InputMode};

/// A standard two-set layout with the usual combinations.
const LAYOUT_2BUL: &str = r#"{
    id: "2-standard",
    name: "두벌식 표준",
    type: "jamo",
    keymap: {
        "r": "0x3131",  // ㄱ
        "R": "0x3132",  // ㄲ
        "s": "0x3134",  // ㄴ
        "e": "0x3137",  // ㄷ
        "E": "0x3138",  // ㄸ
        "f": "0x3139",  // ㄹ
        "a": "0x3141",  // ㅁ
        "q": "0x3142",  // ㅂ
        "Q": "0x3143",  // ㅃ
        "t": "0x3145",  // ㅅ
        "T": "0x3146",  // ㅆ
        "d": "0x3147",  // ㅇ
        "w": "0x3148",  // ㅈ
        "W": "0x3149",  // ㅉ
        "c": "0x314A",  // ㅊ
        "z": "0x314B",  // ㅋ
        "x": "0x314C",  // ㅌ
        "v": "0x314D",  // ㅍ
        "g": "0x314E",  // ㅎ

        "k": "0x314F",  // ㅏ
        "o": "0x3150",  // ㅐ
        "i": "0x3151",  // ㅑ
        "O": "0x3152",  // ㅒ
        "j": "0x3153",  // ㅓ
        "p": "0x3154",  // ㅔ
        "u": "0x3155",  // ㅕ
        "P": "0x3156",  // ㅖ
        "h": "0x3157",  // ㅗ
        "y": "0x315B",  // ㅛ
        "n": "0x315C",  // ㅜ
        "b": "0x3160",  // ㅠ
        "m": "0x3161",  // ㅡ
        "l": "0x3163",  // ㅣ
    },
    combinations: [
        { first: "0x3157", second: "0x314F", result: "0x3158" },  // ㅗ + ㅏ = ㅘ
        { first: "0x3157", second: "0x3150", result: "0x3159" },  // ㅗ + ㅐ = ㅙ
        { first: "0x3157", second: "0x3163", result: "0x315A" },  // ㅗ + ㅣ = ㅚ
        { first: "0x315C", second: "0x3153", result: "0x315D" },  // ㅜ + ㅓ = ㅝ
        { first: "0x315C", second: "0x3154", result: "0x315E" },  // ㅜ + ㅔ = ㅞ
        { first: "0x315C", second: "0x3163", result: "0x315F" },  // ㅜ + ㅣ = ㅟ
        { first: "0x3161", second: "0x3163", result: "0x3162" },  // ㅡ + ㅣ = ㅢ
        { first: "0x3131", second: "0x3145", result: "0x3133" },  // ㄱ + ㅅ = ㄳ
        { first: "0x3134", second: "0x3148", result: "0x3135" },  // ㄴ + ㅈ = ㄵ
        { first: "0x3134", second: "0x314E", result: "0x3136" },  // ㄴ + ㅎ = ㄶ
        { first: "0x3139", second: "0x3131", result: "0x313A" },  // ㄹ + ㄱ = ㄺ
        { first: "0x3139", second: "0x3141", result: "0x313B" },  // ㄹ + ㅁ = ㄻ
        { first: "0x3139", second: "0x3142", result: "0x313C" },  // ㄹ + ㅂ = ㄼ
        { first: "0x3139", second: "0x3145", result: "0x313D" },  // ㄹ + ㅅ = ㄽ
        { first: "0x3139", second: "0x314C", result: "0x313E" },  // ㄹ + ㅌ = ㄾ
        { first: "0x3139", second: "0x314D", result: "0x313F" },  // ㄹ + ㅍ = ㄿ
        { first: "0x3139", second: "0x314E", result: "0x3140" },  // ㄹ + ㅎ = ㅀ
        { first: "0x3142", second: "0x3145", result: "0x3144" },  // ㅂ + ㅅ = ㅄ
    ],
}"#;

fn create_engine() -> HangulEngine {
    let mut engine = HangulEngine::new();
    engine.load_layout(LAYOUT_2BUL.to_string()).unwrap();
    engine.set_mode(InputMode::Korean);
    engine
}

fn process_keys(engine: &mut HangulEngine, keys: &[&str]) -> (String, Option<String>) {
    let mut committed = String::new();
    let mut composing = None;
    for key in keys {
        let result = engine.process_key(key.to_string());
        if let Some(c) = &result.committed {
            committed.push_str(c);
        }
        composing = result.composing;
    }
    (committed, composing)
}

#[test]
fn test_hangul_word() {
    // ㅎ ㅏ ㄴ ㄱ ㅡ ㄹ → "한글"
    let mut engine = create_engine();
    let (committed, composing) = process_keys(&mut engine, &["g", "k", "s", "r", "m", "f"]);
    assert_eq!(committed, "한");
    assert_eq!(composing, Some("글".to_string()));

    let result = engine.flush();
    assert_eq!(result.committed, Some("글".to_string()));
}

#[test]
fn test_double_jongseong_split() {
    // ㄱ ㅏ ㅂ ㅅ ㅣ → "갑" + "시"
    let mut engine = create_engine();
    let (committed, composing) = process_keys(&mut engine, &["r", "k", "q", "t", "l"]);
    assert_eq!(committed, "갑");
    assert_eq!(composing, Some("시".to_string()));
}

#[test]
fn test_double_vowel() {
    // ㄱ ㅗ ㅏ → "과"
    let mut engine = create_engine();
    let (committed, composing) = process_keys(&mut engine, &["r", "h", "k"]);
    assert_eq!(committed, "");
    assert_eq!(composing, Some("과".to_string()));
}

#[test]
fn test_jongseong_split() {
    // ㄱ ㅏ ㄴ ㅕ → "가" + "녀"
    let mut engine = create_engine();
    let (committed, composing) = process_keys(&mut engine, &["r", "k", "s", "u"]);
    assert_eq!(committed, "가");
    assert_eq!(composing, Some("녀".to_string()));
}

#[test]
fn test_backspace_jongseong() {
    // ㅎ ㅏ ㄴ then backspace → "하"
    let mut engine = create_engine();
    process_keys(&mut engine, &["g", "k", "s"]);
    let result = engine.backspace();
    assert_eq!(result.composing, Some("하".to_string()));
}

#[test]
fn test_backspace_double_jongseong() {
    // ㄱ ㅏ ㅂ ㅅ then backspace → "갑"
    let mut engine = create_engine();
    process_keys(&mut engine, &["r", "k", "q", "t"]);
    let result = engine.backspace();
    assert_eq!(result.composing, Some("갑".to_string()));
}

#[test]
fn test_backspace_double_vowel() {
    // ㄱ ㅗ ㅏ then backspace → "고"
    let mut engine = create_engine();
    process_keys(&mut engine, &["r", "h", "k"]);
    let result = engine.backspace();
    assert_eq!(result.composing, Some("고".to_string()));
}

#[test]
fn test_backspace_to_empty() {
    // ㄱ then backspace → empty
    let mut engine = create_engine();
    process_keys(&mut engine, &["r"]);
    let result = engine.backspace();
    assert_eq!(result.composing, None);
    assert!(result.handled);

    // Backspace on an empty buffer → not handled.
    let result = engine.backspace();
    assert!(!result.handled);
}

#[test]
fn test_mode_toggle() {
    let mut engine = create_engine();
    assert_eq!(engine.get_mode(), InputMode::Korean);

    let result = engine.toggle_mode();
    assert!(result.handled);
    assert_eq!(engine.get_mode(), InputMode::English);

    // English mode returns the key itself as committed.
    let result = engine.process_key("r".to_string());
    assert!(result.handled);
    assert_eq!(result.committed, Some("r".to_string()));
    assert_eq!(result.composing, None);
}

#[test]
fn test_mode_toggle_flushes_composing() {
    // Toggling while composing returns the composition as committed.
    let mut engine = create_engine();
    process_keys(&mut engine, &["g", "k"]); // composing "하"

    let result = engine.toggle_mode();
    assert_eq!(result.committed, Some("하".to_string()));
    assert_eq!(result.composing, None);
    assert!(result.handled);
    assert_eq!(engine.get_mode(), InputMode::English);
}

#[test]
fn test_mode_switch_flushes() {
    // Switching to English while composing flushes the composition.
    let mut engine = create_engine();
    process_keys(&mut engine, &["g", "k"]); // composing "하"

    engine.set_mode(InputMode::English);
    engine.set_mode(InputMode::Korean);
    let result = engine.backspace();
    assert!(!result.handled); // nothing left to compose
}

#[test]
fn test_sentence_dangeul() {
    // "단글" = ㄷ ㅏ ㄴ ㄱ ㅡ ㄹ
    let mut engine = create_engine();
    let (committed, composing) = process_keys(&mut engine, &["e", "k", "s", "r", "m", "f"]);
    assert_eq!(committed, "단");
    assert_eq!(composing, Some("글".to_string()));
}

#[test]
fn test_double_jongseong_no_split() {
    // ㄱ ㅏ ㄹ ㄱ → cluster final ㄺ; the next vowel splits it.
    let mut engine = create_engine();
    let (committed, composing) = process_keys(&mut engine, &["r", "k", "f", "r"]);
    assert_eq!(committed, "");
    assert_eq!(composing, Some("갉".to_string()));
    let result = engine.process_key("k".to_string()); // ㅏ
    assert_eq!(result.committed, Some("갈".to_string()));
    assert_eq!(result.composing, Some("가".to_string()));
}

#[test]
fn test_ssangbieup_cannot_be_jongseong() {
    // ㄱ ㅏ then ㅃ → "가" committed, "ㅃ" composing
    let mut engine = create_engine();
    let (committed, composing) = process_keys(&mut engine, &["r", "k", "Q"]);
    assert_eq!(committed, "가");
    assert_eq!(composing, Some("ㅃ".to_string()));
}

#[test]
fn test_flush_and_continue() {
    let mut engine = create_engine();
    process_keys(&mut engine, &["g", "k", "s"]); // "한"
    let result = engine.flush();
    assert_eq!(result.committed, Some("한".to_string()));

    let (committed, composing) = process_keys(&mut engine, &["r", "m", "f"]);
    assert_eq!(committed, "");
    assert_eq!(composing, Some("글".to_string()));
}

#[test]
fn test_vowel_only_input() {
    let mut engine = create_engine();
    let result = engine.process_key("k".to_string());
    assert_eq!(result.composing, Some("ㅏ".to_string()));
    assert!(result.handled);
}

#[test]
fn test_auto_reorder_vowel_then_consonant() {
    // The two-set automaton never reorders (that correction belongs to the
    // three-set dialect): ㅏ then ㄱ commits the lone vowel.
    let mut engine = create_engine();
    let (committed, composing) = process_keys(&mut engine, &["k", "r"]);
    assert_eq!(committed, "ㅏ");
    assert_eq!(composing, Some("ㄱ".to_string()));
}

#[test]
fn test_auto_reorder_vowel_consonant_jongseong() {
    // Likewise over three keys: each lone jamo is committed in turn.
    let mut engine = create_engine();
    let (committed, composing) = process_keys(&mut engine, &["k", "r", "s"]);
    assert_eq!(committed, "ㅏㄱ");
    assert_eq!(composing, Some("ㄴ".to_string()));
}

#[test]
fn test_eui_combination() {
    // ㅇ ㅡ ㅣ → "의" (cluster ㅢ)
    let mut engine = create_engine();
    let (committed, composing) = process_keys(&mut engine, &["d", "m", "l"]);
    assert_eq!(committed, "");
    assert_eq!(composing, Some("의".to_string()));
}
