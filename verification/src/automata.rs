//! What the two automata share: the specification-level description of one
//! transition, and the dispatching automaton value the engine holds.

use vstd::prelude::*;

use crate::buffer::{AutomataResult, AutomataState};
use crate::jamo::{jamo_bs_step, jamo_flush_step, jamo_step, JamoAutomata};
use crate::jaso::{jaso_bs_step, jaso_flush_step, jaso_step, JasoAutomata};
use crate::layout::{KeyboardLayout, LayoutType};

verus! {

/// One transition of an automaton, at the specification level: the state
/// after the step, the texts of the outcome, and whether the input was
/// handled.
pub struct Step<A> {
    pub post: A,
    pub committed: Option<Seq<char>>,
    pub composing: Option<Seq<char>>,
    pub handled: bool,
}

/// Whether an automaton state and an outcome are exactly what a
/// specification step describes.
pub open spec fn step_matches<A>(post: A, r: AutomataResult, s: Step<A>) -> bool {
    &&& post == s.post
    &&& r.committed.deep_view() == s.committed
    &&& r.composing.deep_view() == s.composing
    &&& r.handled == s.handled
}

/// A present character as a one-character text, an absent one as no text.
pub open spec fn opt_one_char(oc: Option<char>) -> Option<Seq<char>> {
    match oc {
        Some(c) => Some(seq![c]),
        None => None,
    }
}

/// The automaton of the loaded layout: one of the two dialects, chosen by
/// the layout's `type` field.
#[derive(Clone, Copy, Debug)]
pub enum Automata {
    Jamo(JamoAutomata),
    Jaso(JasoAutomata),
}

/// A two-set step lifted to the dispatching automaton.
pub open spec fn lift_jamo(s: Step<JamoAutomata>) -> Step<Automata> {
    Step {
        post: Automata::Jamo(s.post),
        committed: s.committed,
        composing: s.composing,
        handled: s.handled,
    }
}

/// A three-set step lifted to the dispatching automaton.
pub open spec fn lift_jaso(s: Step<JasoAutomata>) -> Step<Automata> {
    Step {
        post: Automata::Jaso(s.post),
        committed: s.committed,
        composing: s.composing,
        handled: s.handled,
    }
}

/// One `process` transition of whichever automaton is loaded.
pub open spec fn auto_step(pre: Automata, ch: char, layout: KeyboardLayout) -> Step<Automata> {
    match pre {
        Automata::Jamo(a) => lift_jamo(jamo_step(a, ch, layout)),
        Automata::Jaso(a) => lift_jaso(jaso_step(a, ch, layout)),
    }
}

/// One `backspace` transition of whichever automaton is loaded.
pub open spec fn auto_bs_step(pre: Automata) -> Step<Automata> {
    match pre {
        Automata::Jamo(a) => lift_jamo(jamo_bs_step(a)),
        Automata::Jaso(a) => lift_jaso(jaso_bs_step(a)),
    }
}

/// One `flush` transition of whichever automaton is loaded.
pub open spec fn auto_flush_step(pre: Automata) -> Step<Automata> {
    match pre {
        Automata::Jamo(a) => lift_jamo(jamo_flush_step(a)),
        Automata::Jaso(a) => lift_jaso(jaso_flush_step(a)),
    }
}

impl Automata {
    /// The loaded automaton is well formed.
    pub open spec fn wf(self) -> bool {
        match self {
            Automata::Jamo(a) => a.wf(),
            Automata::Jaso(a) => a.wf(),
        }
    }

    /// The state of the loaded automaton.
    pub open spec fn spec_state(self) -> AutomataState {
        match self {
            Automata::Jamo(a) => a.buffer.state,
            Automata::Jaso(a) => a.buffer.state,
        }
    }

    /// What the loaded automaton's buffer renders as.
    pub open spec fn spec_composing(self) -> Option<Seq<char>> {
        match self {
            Automata::Jamo(a) => a.spec_composing(),
            Automata::Jaso(a) => a.spec_composing(),
        }
    }

    /// How far the loaded automaton is from empty under backspace.
    pub open spec fn bs_rank(self) -> nat {
        match self {
            Automata::Jamo(a) => a.bs_rank(),
            Automata::Jaso(a) => a.bs_rank(),
        }
    }

    /// Processes one character, exactly as `auto_step` describes.
    pub fn process(&mut self, ch: char, layout: &KeyboardLayout) -> (r: AutomataResult)
        requires
            old(self).wf(),
        ensures
            final(self).wf(),
            step_matches(*final(self), r, auto_step(*old(self), ch, *layout)),
    {
        match self {
            Automata::Jamo(a) => a.process(ch, layout),
            Automata::Jaso(a) => a.process(ch, layout),
        }
    }

    /// One backspace, exactly as `auto_bs_step` describes; unhandled
    /// exactly on an empty buffer, and every handled backspace brings the
    /// automaton strictly closer to empty.
    pub fn backspace(&mut self) -> (r: AutomataResult)
        requires
            old(self).wf(),
        ensures
            final(self).wf(),
            step_matches(*final(self), r, auto_bs_step(*old(self))),
            !r.handled <==> old(self).spec_state() == AutomataState::Empty,
            old(self).spec_state() != AutomataState::Empty ==> final(self).bs_rank() < old(
                self,
            ).bs_rank(),
    {
        match self {
            Automata::Jamo(a) => a.backspace(),
            Automata::Jaso(a) => a.backspace(),
        }
    }

    /// Commits whatever is composing; afterwards the state is empty and
    /// nothing is composing.
    pub fn flush(&mut self) -> (r: AutomataResult)
        requires
            old(self).wf(),
        ensures
            final(self).wf(),
            step_matches(*final(self), r, auto_flush_step(*old(self))),
            final(self).spec_state() == AutomataState::Empty,
            final(self).spec_composing() is None,
            r.composing is None,
    {
        match self {
            Automata::Jamo(a) => a.flush(),
            Automata::Jaso(a) => a.flush(),
        }
    }

    /// The current composing text.
    pub fn composing_text(&self) -> (r: Option<String>)
        ensures
            r.deep_view() == self.spec_composing(),
    {
        match self {
            Automata::Jamo(a) => a.composing_text(),
            Automata::Jaso(a) => a.composing_text(),
        }
    }

    /// The current automaton state.
    pub fn state(&self) -> (r: AutomataState)
        ensures
            r == self.spec_state(),
    {
        match self {
            Automata::Jamo(a) => a.state(),
            Automata::Jaso(a) => a.state(),
        }
    }
}

/// The automaton a layout calls for: the dialect from its `type` field.
/// The auto-reorder option concerns the three-set automaton alone.
pub open spec fn spec_create_automata(layout: KeyboardLayout) -> Automata {
    match layout.layout_type {
        LayoutType::Jamo => Automata::Jamo(JamoAutomata::spec_new()),
        LayoutType::Jaso => Automata::Jaso(JasoAutomata::spec_new(layout.auto_reorder)),
    }
}

/// A whole session at the specification level: the automaton after
/// processing the characters in order, and the concatenation of every
/// committed fragment the session emitted.
pub open spec fn auto_run(a: Automata, chars: Seq<char>, layout: KeyboardLayout) -> (
    Automata,
    Seq<char>,
)
    decreases chars.len(),
{
    if chars.len() == 0 {
        (a, Seq::<char>::empty())
    } else {
        let s = auto_step(a, chars[0], layout);
        let emitted = match s.committed {
            Some(t) => t,
            None => Seq::<char>::empty(),
        };
        let rest = auto_run(s.post, chars.drop_first(), layout);
        (rest.0, emitted + rest.1)
    }
}

/// Commit events are monotone: once a session has emitted some committed
/// text, processing more characters only appends to it — the text emitted
/// for a session is the text emitted for any prefix followed by the text
/// the remainder emits from where the prefix left off.
pub proof fn lemma_commits_monotone(
    a: Automata,
    cs1: Seq<char>,
    cs2: Seq<char>,
    layout: KeyboardLayout,
)
    ensures
        auto_run(a, cs1 + cs2, layout).1 == auto_run(a, cs1, layout).1 + auto_run(
            auto_run(a, cs1, layout).0,
            cs2,
            layout,
        ).1,
    decreases cs1.len(),
{
    if cs1.len() == 0 {
        assert(cs1 + cs2 =~= cs2);
        assert(auto_run(a, cs1, layout).1 + auto_run(a, cs2, layout).1 =~= auto_run(
            a,
            cs2,
            layout,
        ).1);
    } else {
        let s = auto_step(a, cs1[0], layout);
        let emitted = match s.committed {
            Some(t) => t,
            None => Seq::<char>::empty(),
        };
        assert((cs1 + cs2)[0] == cs1[0]);
        assert((cs1 + cs2).drop_first() =~= cs1.drop_first() + cs2);
        lemma_commits_monotone(s.post, cs1.drop_first(), cs2, layout);
        let r1 = auto_run(s.post, cs1.drop_first(), layout);
        let r2 = auto_run(r1.0, cs2, layout);
        assert(emitted + (r1.1 + r2.1) =~= (emitted + r1.1) + r2.1);
    }
}

/// Builds the automaton a layout calls for.
pub fn create_automata(layout: &KeyboardLayout) -> (r: Automata)
    ensures
        r == spec_create_automata(*layout),
        r.wf(),
        r.spec_state() == AutomataState::Empty,
{
    match layout.layout_type {
        LayoutType::Jamo => Automata::Jamo(JamoAutomata::new()),
        LayoutType::Jaso => Automata::Jaso(JasoAutomata::with_auto_reorder(layout.auto_reorder)),
    }
}

} // verus!
