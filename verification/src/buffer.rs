//! The compose buffer: the jamo triple `(L?, V?, T?)` under assembly, the
//! six automaton states, and the outcome record every automaton operation
//! returns.

use vstd::prelude::*;

use crate::text::char_string;
use crate::unicode::{
    compose_syllable, choseong_to_compat, jungseong_to_compat, spec_compose, spec_l_compat_char,
    spec_v_compat_char, L_COUNT, T_COUNT, V_COUNT,
};

verus! {

/// The states of the composition automaton.
#[derive(Clone, Copy, PartialEq, Eq, Structural, Debug)]
pub enum AutomataState {
    /// Nothing is being composed.
    Empty,
    /// Only an initial consonant is set.
    Choseong,
    /// A vowel is set (the initial may or may not be).
    Jungseong,
    /// The vowel slot holds a vowel made by a combination.
    Jungseong2,
    /// A final consonant is set.
    Jongseong,
    /// The final slot holds a final made by a combination.
    Jongseong2,
}

/// The jamo under assembly: indices for the initial (L), vowel (V) and
/// final (T) slots, and the automaton state.
#[derive(Clone, Copy, PartialEq, Eq, Structural, Debug)]
pub struct ComposeBuffer {
    /// Initial consonant index (0..19).
    pub choseong: Option<u32>,
    /// Vowel index (0..21).
    pub jungseong: Option<u32>,
    /// Final consonant index (1..28); never 0, absence is `None`.
    pub jongseong: Option<u32>,
    /// Current automaton state.
    pub state: AutomataState,
}

impl ComposeBuffer {
    /// Slot indices are in range, and the state tag agrees with which
    /// slots are filled.
    pub open spec fn wf(self) -> bool {
        &&& (self.choseong matches Some(l) ==> l < L_COUNT)
        &&& (self.jungseong matches Some(v) ==> v < V_COUNT)
        &&& (self.jongseong matches Some(t) ==> 1 <= t < T_COUNT)
        &&& match self.state {
            AutomataState::Empty => self.choseong is None && self.jungseong is None
                && self.jongseong is None,
            AutomataState::Choseong => self.choseong is Some && self.jungseong is None
                && self.jongseong is None,
            AutomataState::Jungseong => self.jungseong is Some && self.jongseong is None,
            AutomataState::Jungseong2 => self.jungseong is Some && self.jongseong is None,
            AutomataState::Jongseong => self.choseong is Some && self.jungseong is Some
                && self.jongseong is Some,
            AutomataState::Jongseong2 => self.choseong is Some && self.jungseong is Some
                && self.jongseong is Some,
        }
    }

    /// The buffer with the given slots and state.
    pub open spec fn spec_make(
        l: Option<u32>,
        v: Option<u32>,
        t: Option<u32>,
        state: AutomataState,
    ) -> ComposeBuffer {
        ComposeBuffer { choseong: l, jungseong: v, jongseong: t, state }
    }

    /// The empty buffer.
    pub open spec fn spec_empty() -> ComposeBuffer {
        ComposeBuffer {
            choseong: None,
            jungseong: None,
            jongseong: None,
            state: AutomataState::Empty,
        }
    }

    pub fn new() -> (r: ComposeBuffer)
        ensures
            r == Self::spec_empty(),
    {
        ComposeBuffer { choseong: None, jungseong: None, jongseong: None, state: AutomataState::Empty }
    }

    /// Clears every slot and returns to the empty state.
    pub fn reset(&mut self)
        ensures
            *final(self) == Self::spec_empty(),
    {
        self.choseong = None;
        self.jungseong = None;
        self.jongseong = None;
        self.state = AutomataState::Empty;
    }

    /// How a buffer renders as text: with both L and V set, the composed
    /// syllable (with T if present); with only one of them set, that jamo's
    /// compatibility form; empty otherwise. `None` also when a slot index
    /// is out of range, so that rendering is total.
    pub open spec fn spec_render(self) -> Option<Seq<char>> {
        match (self.choseong, self.jungseong) {
            (Some(l), Some(v)) => match spec_compose(l, v, self.jongseong.unwrap_or(0)) {
                Some(c) => Some(seq![c]),
                None => None,
            },
            (Some(l), None) => match spec_l_compat_char(l) {
                Some(c) => Some(seq![c]),
                None => None,
            },
            (None, Some(v)) => match spec_v_compat_char(v) {
                Some(c) => Some(seq![c]),
                None => None,
            },
            (None, None) => None,
        }
    }

    /// Renders the buffer as text, as `spec_render` describes.
    #[allow(clippy::inherent_to_string)]
    pub fn to_string(&self) -> (r: Option<String>)
        ensures
            r.deep_view() == self.spec_render(),
    {
        match (self.choseong, self.jungseong) {
            (Some(l), Some(v)) => match compose_syllable(l, v, self.jongseong.unwrap_or(0)) {
                Some(c) => Some(char_string(c)),
                None => None,
            },
            (Some(l), None) => match choseong_to_compat(l) {
                Some(c) => Some(char_string(c)),
                None => None,
            },
            (None, Some(v)) => match jungseong_to_compat(v) {
                Some(c) => Some(char_string(c)),
                None => None,
            },
            (None, None) => None,
        }
    }

}

/// What one automaton operation produced: text that is now committed, the
/// current composing text, and whether the key was handled at all. An
/// unhandled key is the host's to deal with.
#[derive(Clone, Debug)]
pub struct AutomataResult {
    /// Text committed by this operation, if any.
    pub committed: Option<String>,
    /// The composing text after this operation, if any.
    pub composing: Option<String>,
    /// Whether the automaton consumed the input.
    pub handled: bool,
}

impl AutomataResult {
    /// An outcome that consumed the input.
    pub fn handled(committed: Option<String>, composing: Option<String>) -> (r: AutomataResult)
        ensures
            r.committed == committed,
            r.composing == composing,
            r.handled,
    {
        AutomataResult { committed, composing, handled: true }
    }

    /// The outcome that passes the input back to the host.
    pub fn not_handled() -> (r: AutomataResult)
        ensures
            r.committed is None,
            r.composing is None,
            !r.handled,
    {
        AutomataResult { committed: None, composing: None, handled: false }
    }
}

} // verus!
