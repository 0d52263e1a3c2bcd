//! Tests of the library-wide guarantees on concrete values: the steal
//! bridge for every cluster final, flush and backspace always reaching the
//! empty state, the process/backspace round trip, commit monotonicity over
//! a session, and unmapped-key pass-through.

use ongeul::buffer::{AutomataState, ComposeBuffer};
use ongeul::jamo::JamoAutomata;
use ongeul::jaso::JasoAutomata;
use ongeul::layout::KeyboardLayout;
use ongeul::unicode::{
    compat_to_choseong, is_double_jongseong, jongseong_to_choseong, split_double_jongseong,
    T_COUNT,
};
use ongeul::automata::{create_automata, Automata};
use ongeul::{EngineState, HangulEngine, InputMode};

const LAYOUT_2BUL: &str = r#"{
    id: "2-standard",
    name: "두벌식 표준",
    type: "jamo",
    keymap: {
        "r": "0x3131", "s": "0x3134", "e": "0x3137", "f": "0x3139", "a": "0x3141",
        "q": "0x3142", "t": "0x3145", "d": "0x3147", "w": "0x3148", "g": "0x314E",
        "k": "0x314F", "j": "0x3153", "u": "0x3155", "h": "0x3157", "n": "0x315C",
        "m": "0x3161", "l": "0x3163",
    },
    combinations: [
        { first: "0x3157", second: "0x314F", result: "0x3158" },
        { first: "0x3161", second: "0x3163", result: "0x3162" },
        { first: "0x3142", second: "0x3145", result: "0x3144" },
        { first: "0x3139", second: "0x3131", result: "0x313A" },
    ],
}"#;

const LAYOUT_390: &str = r#"{
    id: "3-390",
    name: "세벌식 390",
    type: "jaso",
    keymap: {
        "k": "0x1100", "m": "0x1112", "u": "0x1103",
        "f": "0x1161", "v": "0x1169", "d": "0x1175",
        "s": "0x11AB", "w": "0x11AF", "x": "0x11A8", "q": "0x11BA",
        "U": "0x37",
    },
    combinations: [
        { first: "0x1100", second: "0x1100", result: "0x1101" },
        { first: "0x1169", second: "0x1161", result: "0x116A" },
        { first: "0x11AF", second: "0x11A8", result: "0x11B0" },
    ],
    options: { auto_reorder: true },
}"#;

fn two_set() -> (JamoAutomata, KeyboardLayout) {
    (JamoAutomata::new(), KeyboardLayout::from_json(LAYOUT_2BUL).unwrap())
}

fn feed(a: &mut JamoAutomata, layout: &KeyboardLayout, keys: &[&str]) -> String {
    let mut committed = String::new();
    for key in keys {
        let ch = layout.map_key(key).unwrap();
        if let Some(c) = a.process(ch, layout).committed {
            committed.push_str(&c);
        }
    }
    committed
}

#[test]
fn test_every_cluster_final_supports_the_steal() {
    // Every cluster final splits into a first part with an initial
    // reading and a second part with an initial reading.
    let mut seen = 0;
    for t in 0..T_COUNT {
        if is_double_jongseong(t) {
            let (first, second) = split_double_jongseong(t).unwrap();
            assert!(jongseong_to_choseong(first).is_some());
            assert!(compat_to_choseong(second).is_some());
            seen += 1;
        } else {
            assert!(split_double_jongseong(t).is_none());
        }
    }
    assert_eq!(seen, 11);
}

#[test]
fn test_flush_always_empties_two_set() {
    let (mut a, layout) = two_set();
    for keys in [&["g"][..], &["g", "k"][..], &["g", "k", "s"][..], &["r", "h", "k"][..]] {
        feed(&mut a, &layout, keys);
        let r = a.flush();
        assert_eq!(a.state(), AutomataState::Empty);
        assert_eq!(r.composing, None);
        assert!(a.composing_text().is_none());
    }
}

#[test]
fn test_flush_always_empties_three_set() {
    let layout = KeyboardLayout::from_json(LAYOUT_390).unwrap();
    let mut a = JasoAutomata::new();
    for keys in [&["k"][..], &["k", "f"][..], &["k", "s"][..], &["k", "f", "w", "x"][..]] {
        for key in keys {
            let ch = layout.map_key(key).unwrap();
            a.process(ch, &layout);
        }
        let r = a.flush();
        assert_eq!(a.state(), AutomataState::Empty);
        assert_eq!(r.composing, None);
        assert!(a.composing_text().is_none());
    }
}

#[test]
fn test_backspace_until_unhandled_reaches_empty() {
    // Two-set: from the deepest state (a cluster final over a cluster
    // vowel) backspace walks down to empty and then reports unhandled.
    let (mut a, layout) = two_set();
    feed(&mut a, &layout, &["r", "h", "k", "q", "t"]);
    assert_eq!(a.state(), AutomataState::Jongseong2);
    let mut steps = 0;
    loop {
        let r = a.backspace();
        if !r.handled {
            break;
        }
        steps += 1;
        assert!(steps <= 16, "backspace must terminate");
    }
    assert_eq!(a.state(), AutomataState::Empty);
    assert_eq!(steps, 5);

    // Three-set: a pending final and a double consonant add their own
    // backspace steps.
    let layout = KeyboardLayout::from_json(LAYOUT_390).unwrap();
    let mut a = JasoAutomata::new();
    for key in ["k", "k", "s"] {
        let ch = layout.map_key(key).unwrap();
        a.process(ch, &layout);
    }
    let mut steps = 0;
    loop {
        let r = a.backspace();
        if !r.handled {
            break;
        }
        steps += 1;
        assert!(steps <= 16, "backspace must terminate");
    }
    assert_eq!(a.state(), AutomataState::Empty);
    assert_eq!(steps, 3);
}

#[test]
fn test_process_then_backspace_restores() {
    // Every non-committing step is undone by one backspace, down to the
    // observed state and composing text.
    let (mut a, layout) = two_set();
    let sequences: [&[&str]; 5] = [
        &["g"],
        &["g", "k"],
        &["g", "k", "s"],
        &["r", "h", "k"],
        &["r", "k", "q", "t"],
    ];
    for keys in sequences {
        let mut a2 = JamoAutomata::new();
        let (prefix, last) = keys.split_at(keys.len() - 1);
        feed(&mut a2, &layout, prefix);
        let state_before = a2.state();
        let composing_before = a2.composing_text();
        let r = a2.process(layout.map_key(last[0]).unwrap(), &layout);
        assert_eq!(r.committed, None);
        a2.backspace();
        assert_eq!(a2.state(), state_before);
        assert_eq!(a2.composing_text(), composing_before);
    }
    let _ = &mut a;
}

#[test]
fn test_commits_are_monotone_across_a_session() {
    // The committed text of a session only grows, and what a prefix of the
    // session emitted stays a prefix of what the whole session emits.
    let layout = KeyboardLayout::from_json(LAYOUT_2BUL).unwrap();
    let keys = ["g", "k", "s", "r", "m", "f", "d", "k", "t", "j"];
    let mut prefix_outputs: Vec<String> = Vec::new();
    for n in 0..=keys.len() {
        let mut a = JamoAutomata::new();
        let committed = feed(&mut a, &layout, &keys[..n]);
        prefix_outputs.push(committed);
    }
    for n in 1..prefix_outputs.len() {
        assert!(
            prefix_outputs[n].starts_with(&prefix_outputs[n - 1]),
            "committed text must only be appended to"
        );
    }
}

#[test]
fn test_unmapped_key_flushes_and_passes_through() {
    // A key the layout does not map flushes the composition and reports
    // unhandled, so the host inserts the raw key itself.
    let mut engine = HangulEngine::new();
    engine.load_layout(LAYOUT_2BUL.to_string()).unwrap();
    engine.set_mode(InputMode::Korean);
    engine.process_key("g".to_string());
    engine.process_key("k".to_string());
    let r = engine.process_key("1".to_string());
    assert!(!r.handled);
    assert_eq!(r.committed, Some("하".to_string()));
    assert_eq!(r.composing, None);
}

#[test]
fn test_backspace_unhandled_without_layout_or_in_english() {
    let mut engine = HangulEngine::new();
    assert!(!engine.backspace().handled);
    engine.load_layout(LAYOUT_2BUL.to_string()).unwrap();
    // Still English mode: backspace passes through.
    assert!(!engine.backspace().handled);
    engine.set_mode(InputMode::Korean);
    assert!(!engine.backspace().handled);
}

#[test]
fn test_reset_discards_composition() {
    let mut engine = HangulEngine::new();
    engine.load_layout(LAYOUT_2BUL.to_string()).unwrap();
    engine.set_mode(InputMode::Korean);
    engine.process_key("g".to_string());
    engine.process_key("k".to_string());
    engine.reset();
    let r = engine.backspace();
    assert!(!r.handled);
}

#[test]
fn test_load_layout_failure_keeps_engine() {
    let mut engine = HangulEngine::new();
    engine.load_layout(LAYOUT_2BUL.to_string()).unwrap();
    engine.set_mode(InputMode::Korean);
    engine.process_key("g".to_string());
    let err = engine.load_layout("not a layout".to_string());
    assert!(err.is_err());
    // The old layout and the composition are still there.
    let r = engine.process_key("k".to_string());
    assert_eq!(r.composing, Some("하".to_string()));
}

#[test]
fn test_english_mode_passthrough() {
    let mut engine = HangulEngine::new();
    engine.load_layout(LAYOUT_2BUL.to_string()).unwrap();
    let r = engine.process_key("r".to_string());
    assert!(r.handled);
    assert_eq!(r.committed, Some("r".to_string()));
    assert_eq!(r.composing, None);
}

#[test]
fn test_compose_buffer_render() {
    let mut b = ComposeBuffer::new();
    assert_eq!(b.to_string(), None);
    b.choseong = Some(18);
    assert_eq!(b.to_string(), Some("ㅎ".to_string()));
    b.jungseong = Some(0);
    assert_eq!(b.to_string(), Some("하".to_string()));
    b.jongseong = Some(4);
    assert_eq!(b.to_string(), Some("한".to_string()));
    b.choseong = None;
    b.jongseong = None;
    assert_eq!(b.to_string(), Some("ㅏ".to_string()));
    b.reset();
    assert_eq!(b.to_string(), None);
}

#[test]
fn test_create_automata_follows_layout_type() {
    let two = KeyboardLayout::from_json(LAYOUT_2BUL).unwrap();
    assert!(matches!(create_automata(&two), Automata::Jamo(_)));
    let three = KeyboardLayout::from_json(LAYOUT_390).unwrap();
    assert!(matches!(create_automata(&three), Automata::Jaso(_)));
}

#[test]
fn test_engine_state_direct() {
    let mut state = EngineState::new();
    assert_eq!(state.mode, InputMode::English);
    assert!(state.composing_text().is_none());
    state.load_layout(LAYOUT_2BUL).unwrap();
    state.mode = InputMode::Korean;
    state.process_key("g");
    state.process_key("k");
    assert_eq!(state.composing_text(), Some("하".to_string()));
    let r = state.flush();
    assert_eq!(r.committed, Some("하".to_string()));
    assert!(state.composing_text().is_none());
    state.process_key("g");
    state.reset();
    assert!(state.composing_text().is_none());
}

#[test]
fn test_automaton_composing_text_matches_last_outcome() {
    let (mut a, layout) = two_set();
    for key in ["r", "h", "k", "q"] {
        let ch = layout.map_key(key).unwrap();
        let r = a.process(ch, &layout);
        assert_eq!(r.composing, a.composing_text());
    }
}

#[test]
fn test_deeply_nested_config_rejected() {
    // The loader bounds the config's bracket nesting before parsing, so a
    // pathologically nested document is rejected as a config error rather
    // than exhausting the parser's stack.
    let mut text = String::new();
    for _ in 0..100_000 {
        text.push('[');
    }
    let mut engine = HangulEngine::new();
    let r = engine.load_layout(text);
    assert!(r.is_err());
    assert!(KeyboardLayout::from_json(&"[".repeat(200)).is_err());
    // A benign config with brackets far below the bound still loads.
    assert!(KeyboardLayout::from_json(LAYOUT_2BUL).is_ok());
}

#[test]
fn test_options_must_be_object() {
    let r = KeyboardLayout::from_json(
        r#"{ id: "x", name: "x", type: "jaso", keymap: {}, options: 3 }"#,
    );
    assert!(r.is_err());
}

#[test]
fn test_set_mode_returns_flushed_text() {
    let mut engine = HangulEngine::new();
    engine.load_layout(LAYOUT_2BUL.to_string()).unwrap();
    assert_eq!(engine.set_mode(InputMode::Korean), None);
    engine.process_key("g".to_string());
    engine.process_key("k".to_string());
    // Leaving Korean flushes and hands the committed text back.
    assert_eq!(engine.set_mode(InputMode::English), Some("하".to_string()));
    assert_eq!(engine.set_mode(InputMode::Korean), None);
}

#[test]
fn test_pending_final_requires_auto_reorder() {
    // Without the auto-reorder option, a final typed on a lone initial is
    // not parked: both are committed as compatibility jamo at once.
    let plain = r#"{
        id: "3-plain",
        name: "three-set without reorder",
        type: "jaso",
        keymap: { "k": "0x1100", "s": "0x11AB", "f": "0x1161" },
    }"#;
    let mut engine = HangulEngine::new();
    engine.load_layout(plain.to_string()).unwrap();
    engine.set_mode(InputMode::Korean);
    let (committed, composing) = {
        let mut committed = String::new();
        let mut composing = None;
        for key in ["k", "s"] {
            let r = engine.process_key(key.to_string());
            if let Some(c) = &r.committed {
                committed.push_str(c);
            }
            composing = r.composing;
        }
        (committed, composing)
    };
    assert_eq!(committed, "ㄱㄴ");
    assert_eq!(composing, None);
    // And the vowel-before-initial fold-in is off too.
    let mut engine = HangulEngine::new();
    engine.load_layout(plain.to_string()).unwrap();
    engine.set_mode(InputMode::Korean);
    let r1 = engine.process_key("f".to_string());
    assert_eq!(r1.composing, Some("ㅏ".to_string()));
    let r2 = engine.process_key("k".to_string());
    assert_eq!(r2.committed, Some("ㅏ".to_string()));
    assert_eq!(r2.composing, Some("ㄱ".to_string()));
}

#[test]
fn test_backspace_clears_final_with_vowel() {
    // Dropping a vowel by backspace also drops the final beneath it, so a
    // lone initial never hides a stale final and a later pending final
    // cannot sit beside one: ㄱㅗㄴ, combine to ㅘ keeping the final, then
    // backspace twice down to the bare initial; a vowel then completes a
    // syllable without any resurfaced final.
    let layout = KeyboardLayout::from_json(LAYOUT_390).unwrap();
    let mut a = JasoAutomata::new();
    for key in ["k", "v", "s", "f"] {
        let ch = layout.map_key(key).unwrap();
        a.process(ch, &layout);
    }
    // ㄱ + ㅗ + ㄴ final + ㅏ: the vowels combine to ㅘ over the final.
    assert_eq!(a.composing_text(), Some("관".to_string()));
    let r = a.backspace();
    assert_eq!(r.composing, Some("곤".to_string()));
    let r = a.backspace();
    assert_eq!(r.composing, Some("ㄱ".to_string()));
    let ch = layout.map_key("f").unwrap();
    let r = a.process(ch, &layout);
    assert_eq!(r.composing, Some("가".to_string()));
}

#[test]
fn test_vowel_only_never_clusters_two_set() {
    // On the two-set automaton a vowel arriving on a vowel-only buffer
    // never combines, even when the layout's table could: the lone vowel
    // is committed and a fresh vowel-only syllable starts. With an initial
    // present the same pair clusters.
    let (mut a, layout) = two_set();
    let committed = feed(&mut a, &layout, &["m", "l"]); // ㅡ then ㅣ, no initial
    assert_eq!(committed, "ㅡ");
    assert_eq!(a.composing_text(), Some("ㅣ".to_string()));

    let mut b = JamoAutomata::new();
    let committed = feed(&mut b, &layout, &["d", "m", "l"]); // ㅇ ㅡ ㅣ → 의
    assert_eq!(committed, "");
    assert_eq!(b.composing_text(), Some("의".to_string()));
}

#[test]
fn test_brackets_in_strings_and_comments_load() {
    // The nesting scan counts only structural brackets: bracket characters
    // inside string literals and comments do not count, so this config is
    // far below the bound and loads.
    let mut config = String::from(
        r#"{
        // lots of brackets in a comment: ]]]]]]]]]]]]]]]]]][[[[[[[[[[
        /* and a block comment: {{{{{{{{{{ */
        id: "has ]]]]]] brackets [[[[[[ in it",
        name: '"#,
    );
    for _ in 0..500 {
        config.push_str("[[[]]]");
    }
    config.push_str(r#"', type: "jamo", keymap: { "k": "0x314F" } }"#);
    let layout = KeyboardLayout::from_json(&config).unwrap();
    assert_eq!(layout.map_key("k"), Some('ㅏ'));
}

#[test]
fn test_closing_brackets_in_strings_do_not_mask_depth() {
    // Closing brackets inside string literals do not offset real structural
    // depth: a document that opens a level per string stays at its true
    // depth and is rejected before the parser can recurse that deep.
    let mut text = String::new();
    for _ in 0..50_000 {
        text.push_str(r#"["x]]]]]]", "#);
    }
    let mut engine = HangulEngine::new();
    let r = engine.load_layout(text);
    assert!(r.is_err());
}
