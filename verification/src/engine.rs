//! The engine state: the input mode, the loaded layout and its automaton.
//! Each key label is routed to pass-through (English mode) or through the
//! layout's keymap into the automaton (Korean mode).

use vstd::prelude::*;

use crate::automata::{
    auto_bs_step, auto_flush_step, auto_step, create_automata, spec_create_automata, Automata,
    step_matches, Step,
};
use crate::buffer::{AutomataResult, AutomataState};
use crate::layout::{layout_matches_config, spec_config_ok, KeyboardLayout};
use crate::text::push_char;
use crate::unicode::{is_korean_jamo, spec_is_korean_jamo};

verus! {

/// The input mode of the engine.
#[derive(Clone, Copy, PartialEq, Eq, Structural, Debug)]
pub enum InputMode {
    English,
    Korean,
}

/// The engine's mutable state: the mode, and — once a layout was loaded —
/// the layout and the automaton built for it.
pub struct EngineState {
    pub mode: InputMode,
    pub layout: Option<KeyboardLayout>,
    pub automata: Option<Automata>,
}

impl EngineState {
    /// A loaded automaton is well formed, and the automaton exists exactly
    /// when a layout does.
    pub open spec fn wf(self) -> bool {
        &&& (self.automata matches Some(a) ==> a.wf())
        &&& (self.automata is Some <==> self.layout is Some)
    }

    /// What the loaded automaton is composing; nothing without one.
    pub open spec fn spec_composing(self) -> Option<Seq<char>> {
        match self.automata {
            Some(a) => a.spec_composing(),
            None => None,
        }
    }

    pub fn new() -> (r: EngineState)
        ensures
            r.mode == InputMode::English,
            r.layout is None,
            r.automata is None,
            r.wf(),
    {
        EngineState { mode: InputMode::English, layout: None, automata: None }
    }

    /// Parses the config text and, on success, replaces the layout and the
    /// automaton together; on failure nothing changes. Loading succeeds
    /// exactly on the configs `spec_config_ok` accepts, and the installed
    /// layout is then exactly the config's reading, with a fresh automaton
    /// of the config's dialect.
    pub fn load_layout(&mut self, json: &str) -> (r: Result<(), String>)
        requires
            old(self).wf(),
        ensures
            final(self).wf(),
            final(self).mode == old(self).mode,
            r is Ok <==> spec_config_ok(json@),
            r is Ok ==> final(self).layout is Some && layout_matches_config(
                json@,
                final(self).layout->Some_0,
            ) && final(self).automata == Some(
                spec_create_automata(final(self).layout->Some_0),
            ),
            r is Err ==> *final(self) == *old(self),
    {
        let layout = match KeyboardLayout::from_json(json) {
            Ok(l) => l,
            Err(e) => {
                return Err(e);
            },
        };
        let auto = create_automata(&layout);
        self.layout = Some(layout);
        self.automata = Some(auto);
        Ok(())
    }

    /// What processing a key does to the engine. In English mode the label
    /// itself is committed and handled. In Korean mode without a layout
    /// nothing is handled. A label the keymap misses flushes the automaton
    /// and reports unhandled, so the host inserts the raw label itself. A
    /// mapped character that is no Hangul jamo flushes the automaton and
    /// commits that character after the flushed text. A mapped jamo takes
    /// one automaton step.
    pub open spec fn spec_key_step(pre: EngineState, key: Seq<char>) -> Step<EngineState> {
        if pre.mode == InputMode::English {
            Step { post: pre, committed: Some(key), composing: None, handled: true }
        } else if !(pre.layout is Some && pre.automata is Some) {
            Step { post: pre, committed: None, composing: None, handled: false }
        } else {
            let layout = pre.layout->Some_0;
            let a = pre.automata->Some_0;
            match layout.spec_map_key(key) {
                None => {
                    let f = auto_flush_step(a);
                    Step {
                        post: EngineState { automata: Some(f.post), ..pre },
                        committed: f.committed,
                        composing: f.composing,
                        handled: false,
                    }
                },
                Some(ch) => if !spec_is_korean_jamo(ch as u32) {
                    let f = auto_flush_step(a);
                    let base = match f.committed {
                        Some(s) => s,
                        None => Seq::<char>::empty(),
                    };
                    Step {
                        post: EngineState { automata: Some(f.post), ..pre },
                        committed: Some(base.push(ch)),
                        composing: None,
                        handled: true,
                    }
                } else {
                    let s = auto_step(a, ch, layout);
                    Step {
                        post: EngineState { automata: Some(s.post), ..pre },
                        committed: s.committed,
                        composing: s.composing,
                        handled: s.handled,
                    }
                },
            }
        }
    }

    /// Processes one key label, exactly as `spec_key_step` describes.
    pub fn process_key(&mut self, key: &str) -> (r: AutomataResult)
        requires
            old(self).wf(),
        ensures
            final(self).wf(),
            step_matches(*final(self), r, Self::spec_key_step(*old(self), key@)),
    {
        if matches!(self.mode, InputMode::English) {
            return AutomataResult::handled(Some(key.to_owned()), None);
        }
        let ch: Option<char> = match &self.layout {
            Some(l) => l.map_key(key),
            None => {
                return AutomataResult::not_handled();
            },
        };
        match &mut self.automata {
            Some(a) => {
                match ch {
                    None => {
                        let mut result = a.flush();
                        result.handled = false;
                        result
                    },
                    Some(c) => {
                        if is_korean_jamo(c) {
                            a.process(c, match &self.layout {
                                Some(l) => l,
                                None => {
                                    proof {
                                        assert(false);
                                    }
                                    return AutomataResult::not_handled();
                                },
                            })
                        } else {
                            let f = a.flush();
                            let mut text: String = match f.committed {
                                Some(s) => s,
                                None => String::new(),
                            };
                            push_char(&mut text, c);
                            AutomataResult::handled(Some(text), None)
                        }
                    },
                }
            },
            None => {
                proof {
                    assert(false);
                }
                AutomataResult::not_handled()
            },
        }
    }

    /// What a backspace does to the engine: nothing in English mode or
    /// without an automaton; otherwise one automaton backspace.
    pub open spec fn spec_bs_step(pre: EngineState) -> Step<EngineState> {
        if pre.mode == InputMode::English || pre.automata is None {
            Step { post: pre, committed: None, composing: None, handled: false }
        } else {
            let s = auto_bs_step(pre.automata->Some_0);
            Step {
                post: EngineState { automata: Some(s.post), ..pre },
                committed: s.committed,
                composing: s.composing,
                handled: s.handled,
            }
        }
    }

    /// One backspace, exactly as `spec_bs_step` describes; in Korean mode
    /// it is unhandled exactly when the automaton is missing or empty.
    pub fn backspace(&mut self) -> (r: AutomataResult)
        requires
            old(self).wf(),
        ensures
            final(self).wf(),
            step_matches(*final(self), r, Self::spec_bs_step(*old(self))),
    {
        if matches!(self.mode, InputMode::English) {
            return AutomataResult::not_handled();
        }
        match &mut self.automata {
            Some(a) => a.backspace(),
            None => AutomataResult::not_handled(),
        }
    }

    /// What a flush does to the engine: the automaton's flush, or nothing
    /// (handled) without one.
    pub open spec fn spec_flush_step(pre: EngineState) -> Step<EngineState> {
        match pre.automata {
            Some(a) => {
                let s = auto_flush_step(a);
                Step {
                    post: EngineState { automata: Some(s.post), ..pre },
                    committed: s.committed,
                    composing: s.composing,
                    handled: s.handled,
                }
            },
            None => Step { post: pre, committed: None, composing: None, handled: true },
        }
    }

    /// Commits whatever is composing; afterwards nothing is composing and
    /// the automaton, if any, is empty.
    pub fn flush(&mut self) -> (r: AutomataResult)
        requires
            old(self).wf(),
        ensures
            final(self).wf(),
            step_matches(*final(self), r, Self::spec_flush_step(*old(self))),
            final(self).spec_composing() is None,
            r.composing is None,
            final(self).automata matches Some(a) ==> a.spec_state() == AutomataState::Empty,
    {
        match &mut self.automata {
            Some(a) => a.flush(),
            None => AutomataResult::handled(None, None),
        }
    }

    /// Flushes and discards the outcome.
    pub fn reset(&mut self)
        requires
            old(self).wf(),
        ensures
            final(self).wf(),
            *final(self) == Self::spec_flush_step(*old(self)).post,
            final(self).spec_composing() is None,
    {
        match &mut self.automata {
            Some(a) => {
                let _ = a.flush();
            },
            None => {},
        }
    }

    /// The current composing text.
    pub fn composing_text(&self) -> (r: Option<String>)
        ensures
            r.deep_view() == self.spec_composing(),
    {
        match &self.automata {
            Some(a) => a.composing_text(),
            None => None,
        }
    }
}

/// A whole key session at the specification level: the engine after
/// processing the key labels in order, and the concatenation of every
/// committed fragment the session emitted.
pub open spec fn engine_run(pre: EngineState, keys: Seq<Seq<char>>) -> (EngineState, Seq<char>)
    decreases keys.len(),
{
    if keys.len() == 0 {
        (pre, Seq::<char>::empty())
    } else {
        let s = EngineState::spec_key_step(pre, keys[0]);
        let emitted = match s.committed {
            Some(t) => t,
            None => Seq::<char>::empty(),
        };
        let rest = engine_run(s.post, keys.drop_first());
        (rest.0, emitted + rest.1)
    }
}

/// Commit events are monotone at the engine surface: the text a key
/// session emits is the text any prefix of it emits, followed by the text
/// the remaining keys emit from where the prefix left off — committed text
/// is only ever appended to.
pub proof fn lemma_engine_commits_monotone(
    pre: EngineState,
    keys1: Seq<Seq<char>>,
    keys2: Seq<Seq<char>>,
)
    ensures
        engine_run(pre, keys1 + keys2).1 == engine_run(pre, keys1).1 + engine_run(
            engine_run(pre, keys1).0,
            keys2,
        ).1,
    decreases keys1.len(),
{
    if keys1.len() == 0 {
        assert(keys1 + keys2 =~= keys2);
        assert(engine_run(pre, keys1).1 + engine_run(pre, keys2).1 =~= engine_run(pre, keys2).1);
    } else {
        let s = EngineState::spec_key_step(pre, keys1[0]);
        let emitted = match s.committed {
            Some(t) => t,
            None => Seq::<char>::empty(),
        };
        assert((keys1 + keys2)[0] == keys1[0]);
        assert((keys1 + keys2).drop_first() =~= keys1.drop_first() + keys2);
        lemma_engine_commits_monotone(s.post, keys1.drop_first(), keys2);
        let r1 = engine_run(s.post, keys1.drop_first());
        let r2 = engine_run(r1.0, keys2);
        assert(emitted + (r1.1 + r2.1) =~= (emitted + r1.1) + r2.1);
    }
}

} // verus!
