//! A Hangul (Korean) input-method composition engine.
//!
//! The engine consumes keyboard key labels and produces, for each key, the
//! text that is now committed and the transient composing text. The core is
//! a six-state composition automaton assembling Unicode Hangul syllables out
//! of jamo; around it sit a keymap/combination-table layout, pure Hangul
//! code-point arithmetic, and a mode-switching facade.

use vstd::prelude::*;

pub mod automata;
pub mod buffer;
pub mod engine;
pub mod jamo;
pub mod jaso;
pub mod json;
pub mod layout;
mod text;
pub mod unicode;

pub use engine::EngineState;
pub use engine::InputMode;

use crate::automata::Step;
use crate::buffer::{AutomataResult, AutomataState};

verus! {

/// What one engine call produced: text that is now committed, the current
/// composing text, and whether the key was handled; an unhandled key is
/// the host's to deal with.
#[derive(Clone, Debug)]
pub struct ProcessResult {
    /// Text committed by this call, if any.
    pub committed: Option<String>,
    /// The composing text after this call, if any.
    pub composing: Option<String>,
    /// Whether the engine consumed the input.
    pub handled: bool,
}

/// Whether an engine state and an outcome are exactly what a specification
/// step describes.
pub open spec fn pr_matches(post: EngineState, r: ProcessResult, s: Step<EngineState>) -> bool {
    &&& post == s.post
    &&& r.committed.deep_view() == s.committed
    &&& r.composing.deep_view() == s.composing
    &&& r.handled == s.handled
}

/// An engine outcome from an automaton outcome, field for field.
fn to_process_result(a: AutomataResult) -> (r: ProcessResult)
    ensures
        r.committed == a.committed,
        r.composing == a.composing,
        r.handled == a.handled,
{
    ProcessResult { committed: a.committed, composing: a.composing, handled: a.handled }
}

/// The Hangul input engine: the mode, the loaded layout and its automaton,
/// behind the operation surface an input-method host calls.
pub struct HangulEngine {
    pub state: EngineState,
}

impl HangulEngine {
    /// The held state is well formed.
    pub open spec fn wf(self) -> bool {
        self.state.wf()
    }

    /// A new engine: English mode, no layout loaded.
    pub fn new() -> (r: HangulEngine)
        ensures
            r.state.mode == InputMode::English,
            r.state.layout is None,
            r.state.automata is None,
            r.wf(),
    {
        HangulEngine { state: EngineState::new() }
    }

    /// Loads a keyboard layout from its JSON5 config text, replacing the
    /// layout and the automaton together; on failure nothing changes.
    /// Loading succeeds exactly on the configs `layout::spec_config_ok`
    /// accepts, and installs exactly the config's reading with a fresh
    /// automaton of its dialect.
    pub fn load_layout(&mut self, json: String) -> (r: Result<(), String>)
        requires
            old(self).wf(),
        ensures
            final(self).wf(),
            final(self).state.mode == old(self).state.mode,
            r is Ok <==> layout::spec_config_ok(json@),
            r is Ok ==> final(self).state.layout is Some && layout::layout_matches_config(
                json@,
                final(self).state.layout->Some_0,
            ) && final(self).state.automata == Some(
                automata::spec_create_automata(final(self).state.layout->Some_0),
            ),
            r is Err ==> *final(self) == *old(self),
    {
        self.state.load_layout(json.as_str())
    }

    /// Sets the input mode. Leaving Korean mode first flushes the
    /// automaton and hands the flushed committed text back; every other
    /// transition flushes nothing and returns `None`.
    pub fn set_mode(&mut self, mode: InputMode) -> (r: Option<String>)
        requires
            old(self).wf(),
        ensures
            final(self).wf(),
            final(self).state == ({
                let base = if old(self).state.mode == InputMode::Korean && mode
                    == InputMode::English {
                    EngineState::spec_flush_step(old(self).state).post
                } else {
                    old(self).state
                };
                EngineState { mode, ..base }
            }),
            r.deep_view() == (if old(self).state.mode == InputMode::Korean && mode
                == InputMode::English {
                EngineState::spec_flush_step(old(self).state).committed
            } else {
                None::<Seq<char>>
            }),
    {
        if matches!(self.state.mode, InputMode::Korean) && matches!(mode, InputMode::English) {
            let result = self.state.flush();
            self.state.mode = mode;
            return result.committed;
        }
        self.state.mode = mode;
        None
    }

    /// The current input mode.
    pub fn get_mode(&self) -> (r: InputMode)
        ensures
            r == self.state.mode,
    {
        self.state.mode
    }

    /// Toggles the mode. Leaving Korean mode flushes the automaton and
    /// returns the flushed text as committed; entering it commits nothing.
    pub fn toggle_mode(&mut self) -> (r: ProcessResult)
        requires
            old(self).wf(),
        ensures
            final(self).wf(),
            old(self).state.mode == InputMode::Korean ==> ({
                let f = EngineState::spec_flush_step(old(self).state);
                &&& final(self).state == (EngineState { mode: InputMode::English, ..f.post })
                &&& r.committed.deep_view() == f.committed
                &&& r.composing is None
                &&& r.handled
            }),
            old(self).state.mode == InputMode::English ==> {
                &&& final(self).state == (EngineState {
                    mode: InputMode::Korean,
                    ..old(self).state
                })
                &&& r.committed is None
                &&& r.composing is None
                &&& r.handled
            },
    {
        if matches!(self.state.mode, InputMode::Korean) {
            let result = self.state.flush();
            self.state.mode = InputMode::English;
            ProcessResult { committed: result.committed, composing: None, handled: true }
        } else {
            self.state.mode = InputMode::Korean;
            ProcessResult { committed: None, composing: None, handled: true }
        }
    }

    /// Processes one key label, exactly as `EngineState::spec_key_step`
    /// describes: pass-through in English mode, keymap lookup and one
    /// automaton step in Korean mode.
    pub fn process_key(&mut self, key: String) -> (r: ProcessResult)
        requires
            old(self).wf(),
        ensures
            final(self).wf(),
            pr_matches(final(self).state, r, EngineState::spec_key_step(old(self).state, key@)),
    {
        let result = self.state.process_key(key.as_str());
        to_process_result(result)
    }

    /// One backspace, exactly as `EngineState::spec_bs_step` describes;
    /// unhandled in English mode, without a layout, or on an empty buffer.
    pub fn backspace(&mut self) -> (r: ProcessResult)
        requires
            old(self).wf(),
        ensures
            final(self).wf(),
            pr_matches(final(self).state, r, EngineState::spec_bs_step(old(self).state)),
    {
        let result = self.state.backspace();
        to_process_result(result)
    }

    /// Commits whatever is composing; afterwards nothing is composing and
    /// the automaton, if any, is empty.
    pub fn flush(&mut self) -> (r: ProcessResult)
        requires
            old(self).wf(),
        ensures
            final(self).wf(),
            pr_matches(final(self).state, r, EngineState::spec_flush_step(old(self).state)),
            final(self).state.spec_composing() is None,
            r.composing is None,
            final(self).state.automata matches Some(a) ==> a.spec_state() == AutomataState::Empty,
    {
        let result = self.state.flush();
        to_process_result(result)
    }

    /// Discards whatever is composing.
    pub fn reset(&mut self)
        requires
            old(self).wf(),
        ensures
            final(self).wf(),
            final(self).state == EngineState::spec_flush_step(old(self).state).post,
            final(self).state.spec_composing() is None,
    {
        self.state.reset()
    }
}

} // verus!

