//! The two-set (two-beolsik) automaton. Keys deliver compatibility jamo;
//! the same consonant key serves the initial and the final role, so the
//! automaton decides by state. Its distinctive moves are the steal — when a
//! vowel arrives on a closed syllable, the final consonant moves into the
//! next syllable as its initial — and the cluster steal, which splits a
//! cluster final and moves only its second part.
//!
//! Every operation is specified by a transition function over the automaton
//! value (`jamo_step`, `jamo_bs_step`, `jamo_flush_step`); the executable
//! methods are verified to follow it exactly.

use vstd::prelude::*;

use crate::automata::{opt_one_char, step_matches, Step};
use crate::buffer::{AutomataResult, AutomataState, ComposeBuffer};
use crate::layout::KeyboardLayout;
use crate::unicode::{
    compat_to_choseong, compat_to_jongseong, compat_to_jungseong, is_compat_consonant,
    is_compat_vowel, is_jongseong_impossible, jongseong_to_choseong, jongseong_to_compat,
    jungseong_to_compat, spec_compat_to_l, spec_compat_to_t, spec_compat_to_v, spec_compose,
    spec_is_compat_consonant, spec_is_compat_vowel, spec_is_jongseong_impossible, spec_split_t,
    spec_t_compat_char, spec_t_to_l, spec_v_compat_char, split_double_jongseong, T_COUNT, V_COUNT,
};

verus! {

/// The two-set automaton: the compose buffer and the restore slots that
/// make backspace exactly inverse to a combination.
#[derive(Clone, Copy, Debug)]
pub struct JamoAutomata {
    /// The jamo under assembly.
    pub buffer: ComposeBuffer,
    /// The vowel that stood in the buffer before a vowel combination, so
    /// backspace can restore it.
    pub prev_jungseong: Option<u32>,
    /// The final that stood in the buffer before a final combination.
    pub prev_jongseong: Option<u32>,
}

impl JamoAutomata {
    /// The buffer is well formed, the restore slots are in range, and each
    /// restore slot is only set in the states whose backspace reads it.
    pub open spec fn wf(self) -> bool {
        &&& self.buffer.wf()
        &&& (self.prev_jungseong matches Some(v) ==> v < V_COUNT)
        &&& (self.prev_jongseong matches Some(t) ==> 1 <= t < T_COUNT)
        &&& (self.buffer.state == AutomataState::Jungseong2 ==> self.prev_jungseong is Some)
        &&& (self.prev_jungseong is Some ==> self.buffer.state == AutomataState::Jungseong2
            || self.buffer.state == AutomataState::Jongseong
            || self.buffer.state == AutomataState::Jongseong2)
        &&& (self.prev_jongseong is Some <==> self.buffer.state == AutomataState::Jongseong2)
    }

    /// A fresh, empty automaton.
    pub open spec fn spec_new() -> JamoAutomata {
        JamoAutomata {
            buffer: ComposeBuffer::spec_empty(),
            prev_jungseong: None,
            prev_jongseong: None,
        }
    }

    /// This automaton with the buffer and restore slots cleared.
    pub open spec fn spec_reset(self) -> JamoAutomata {
        JamoAutomata {
            buffer: ComposeBuffer::spec_empty(),
            prev_jungseong: None,
            prev_jongseong: None,
        }
    }

    /// This automaton with the given buffer, both restore slots cleared.
    pub open spec fn spec_with_fresh(self, b: ComposeBuffer) -> JamoAutomata {
        JamoAutomata { buffer: b, prev_jungseong: None, prev_jongseong: None }
    }

    /// What the buffer renders as.
    pub open spec fn spec_composing(self) -> Option<Seq<char>> {
        self.buffer.spec_render()
    }

    /// How many backspaces this automaton is from empty; every handled
    /// backspace strictly decreases it.
    pub open spec fn bs_rank(self) -> nat {
        match self.buffer.state {
            AutomataState::Empty => 0,
            AutomataState::Choseong => 1,
            AutomataState::Jungseong => 2,
            AutomataState::Jungseong2 => 3,
            AutomataState::Jongseong => 4,
            AutomataState::Jongseong2 => 5,
        }
    }
}

// ── The transition function ──

/// A handled step that commits the whole current composition and starts a
/// fresh buffer `b`.
pub open spec fn jamo_commit_then(pre: JamoAutomata, b: ComposeBuffer) -> Step<JamoAutomata> {
    Step {
        post: pre.spec_with_fresh(b),
        committed: pre.buffer.spec_render(),
        composing: b.spec_render(),
        handled: true,
    }
}

/// A handled step that keeps what was committed at nothing and moves to a
/// new automaton value.
pub open spec fn jamo_go(post: JamoAutomata) -> Step<JamoAutomata> {
    Step { post, committed: None, composing: post.buffer.spec_render(), handled: true }
}

/// Input that the automaton cannot interpret: a non-empty composition is
/// committed and the input reported handled; on an empty buffer the input
/// is passed back to the host.
pub open spec fn jamo_other_step(pre: JamoAutomata) -> Step<JamoAutomata> {
    if pre.buffer.state != AutomataState::Empty {
        Step {
            post: pre.spec_reset(),
            committed: pre.buffer.spec_render(),
            composing: None,
            handled: true,
        }
    } else {
        Step { post: pre, committed: None, composing: None, handled: false }
    }
}

/// A vowel `v` arriving in the empty state: start a vowel-only syllable.
pub open spec fn jamo_vow_empty(pre: JamoAutomata, v: u32) -> Step<JamoAutomata> {
    jamo_go(
        pre.spec_with_fresh(
            ComposeBuffer::spec_make(None, Some(v), None, AutomataState::Jungseong),
        ),
    )
}

/// A vowel arriving on a lone initial: the syllable gains its vowel.
pub open spec fn jamo_vow_choseong(pre: JamoAutomata, v: u32) -> Step<JamoAutomata> {
    jamo_go(
        pre.spec_with_fresh(
            ComposeBuffer::spec_make(pre.buffer.choseong, Some(v), None, AutomataState::Jungseong),
        ),
    )
}

/// A vowel arriving on a vowel: if the layout combines the two into a
/// cluster vowel, the buffer keeps it and remembers the old vowel for
/// backspace; otherwise the composition is committed and a fresh
/// vowel-only syllable starts. Without an initial, vowels never cluster:
/// the lone vowel is committed as it stands.
pub open spec fn jamo_vow_jungseong(pre: JamoAutomata, v: u32, layout: KeyboardLayout) -> Step<
    JamoAutomata,
> {
    let cur = pre.buffer.jungseong->Some_0;
    let comb = if pre.buffer.choseong is None {
        None
    } else {
        match (spec_v_compat_char(cur), spec_v_compat_char(v)) {
            (Some(c1), Some(c2)) => layout.spec_combine(c1, c2),
            _ => None,
        }
    };
    let comb_idx = match comb {
        Some(cc) => spec_compat_to_v(cc as u32),
        None => None,
    };
    match comb_idx {
        Some(nv) => jamo_go(
            JamoAutomata {
                buffer: ComposeBuffer::spec_make(
                    pre.buffer.choseong,
                    Some(nv),
                    None,
                    AutomataState::Jungseong2,
                ),
                prev_jungseong: Some(cur),
                prev_jongseong: None,
            },
        ),
        None => jamo_commit_then(
            pre,
            ComposeBuffer::spec_make(None, Some(v), None, AutomataState::Jungseong),
        ),
    }
}

/// A vowel arriving on a cluster vowel: no triple cluster; commit and
/// start a fresh vowel-only syllable.
pub open spec fn jamo_vow_jungseong2(pre: JamoAutomata, v: u32) -> Step<JamoAutomata> {
    jamo_commit_then(
        pre,
        ComposeBuffer::spec_make(None, Some(v), None, AutomataState::Jungseong),
    )
}

/// The steal: a vowel arriving on a closed syllable commits the syllable
/// without its final, and the final becomes the next syllable's initial.
/// Should the final have no initial reading (possible only with a layout
/// that maps a key straight to a cluster final), the whole composition is
/// committed instead and a vowel-only syllable starts.
pub open spec fn jamo_vow_jongseong(pre: JamoAutomata, v: u32) -> Step<JamoAutomata> {
    let l = pre.buffer.choseong->Some_0;
    let vv = pre.buffer.jungseong->Some_0;
    let t = pre.buffer.jongseong->Some_0;
    match spec_t_to_l(t) {
        Some(nl) => Step {
            post: pre.spec_with_fresh(
                ComposeBuffer::spec_make(Some(nl), Some(v), None, AutomataState::Jungseong),
            ),
            committed: opt_one_char(spec_compose(l, vv, 0)),
            composing: ComposeBuffer::spec_make(
                Some(nl),
                Some(v),
                None,
                AutomataState::Jungseong,
            ).spec_render(),
            handled: true,
        },
        None => jamo_commit_then(
            pre,
            ComposeBuffer::spec_make(None, Some(v), None, AutomataState::Jungseong),
        ),
    }
}

/// The cluster steal: a vowel arriving on a cluster final splits the
/// cluster; the syllable is committed with the first part, the second part
/// becomes the next syllable's initial. Should the final not be in the
/// split table (possible only when the layout combined something that is
/// no cluster), the whole composition is committed instead.
pub open spec fn jamo_vow_jongseong2(pre: JamoAutomata, v: u32) -> Step<JamoAutomata> {
    let l = pre.buffer.choseong->Some_0;
    let vv = pre.buffer.jungseong->Some_0;
    let t = pre.buffer.jongseong->Some_0;
    let split = spec_split_t(t);
    let next_l = match split {
        Some((first, sec)) => spec_compat_to_l(sec),
        None => None,
    };
    match (split, next_l) {
        (Some((first, sec)), Some(nl)) => Step {
            post: pre.spec_with_fresh(
                ComposeBuffer::spec_make(Some(nl), Some(v), None, AutomataState::Jungseong),
            ),
            committed: opt_one_char(spec_compose(l, vv, first)),
            composing: ComposeBuffer::spec_make(
                Some(nl),
                Some(v),
                None,
                AutomataState::Jungseong,
            ).spec_render(),
            handled: true,
        },
        _ => jamo_commit_then(
            pre,
            ComposeBuffer::spec_make(None, Some(v), None, AutomataState::Jungseong),
        ),
    }
}

/// A consonant arriving in the empty state: start a new syllable's initial.
pub open spec fn jamo_cons_empty(pre: JamoAutomata, l_new: u32) -> Step<JamoAutomata> {
    jamo_go(
        pre.spec_with_fresh(
            ComposeBuffer::spec_make(Some(l_new), None, None, AutomataState::Choseong),
        ),
    )
}

/// A consonant arriving on a lone initial: commit it, start a new initial.
pub open spec fn jamo_cons_choseong(pre: JamoAutomata, l_new: u32) -> Step<JamoAutomata> {
    jamo_commit_then(
        pre,
        ComposeBuffer::spec_make(Some(l_new), None, None, AutomataState::Choseong),
    )
}

/// A consonant arriving on a syllable with its vowel set (a plain or a
/// cluster vowel). With the initial slot empty the vowel is committed
/// alone and the consonant starts a new syllable. With an initial
/// present, the consonant becomes the final when it has a final reading
/// and is not final-impossible; otherwise the syllable is committed and
/// the consonant starts a new one.
pub open spec fn jamo_cons_vstate(pre: JamoAutomata, c: u32, l_new: u32) -> Step<JamoAutomata> {
    if pre.buffer.choseong is None {
        jamo_commit_then(
            pre,
            ComposeBuffer::spec_make(Some(l_new), None, None, AutomataState::Choseong),
        )
    } else if spec_is_jongseong_impossible(c) {
        jamo_commit_then(
            pre,
            ComposeBuffer::spec_make(Some(l_new), None, None, AutomataState::Choseong),
        )
    } else {
        match spec_compat_to_t(c) {
            Some(t) => jamo_go(
                JamoAutomata {
                    buffer: ComposeBuffer::spec_make(
                        pre.buffer.choseong,
                        pre.buffer.jungseong,
                        Some(t),
                        AutomataState::Jongseong,
                    ),
                    prev_jungseong: pre.prev_jungseong,
                    prev_jongseong: None,
                },
            ),
            None => jamo_commit_then(
                pre,
                ComposeBuffer::spec_make(Some(l_new), None, None, AutomataState::Choseong),
            ),
        }
    }
}

/// A consonant arriving on a closed syllable: if the layout combines the
/// current final with it into a cluster final, the buffer keeps it and
/// remembers the old final for backspace; otherwise commit and start a new
/// initial.
pub open spec fn jamo_cons_jongseong(
    pre: JamoAutomata,
    ch: char,
    l_new: u32,
    layout: KeyboardLayout,
) -> Step<JamoAutomata> {
    let t = pre.buffer.jongseong->Some_0;
    let comb = match spec_t_compat_char(t) {
        Some(c1) => layout.spec_combine(c1, ch),
        None => None,
    };
    let comb_idx = match comb {
        Some(cc) => spec_compat_to_t(cc as u32),
        None => None,
    };
    match comb_idx {
        Some(nt) => jamo_go(
            JamoAutomata {
                buffer: ComposeBuffer::spec_make(
                    pre.buffer.choseong,
                    pre.buffer.jungseong,
                    Some(nt),
                    AutomataState::Jongseong2,
                ),
                prev_jungseong: pre.prev_jungseong,
                prev_jongseong: Some(t),
            },
        ),
        None => jamo_commit_then(
            pre,
            ComposeBuffer::spec_make(Some(l_new), None, None, AutomataState::Choseong),
        ),
    }
}

/// A consonant arriving on a cluster final: no triple cluster; commit and
/// start a new initial.
pub open spec fn jamo_cons_jongseong2(pre: JamoAutomata, l_new: u32) -> Step<JamoAutomata> {
    jamo_commit_then(
        pre,
        ComposeBuffer::spec_make(Some(l_new), None, None, AutomataState::Choseong),
    )
}

/// One `process` transition of the two-set automaton. A compatibility
/// vowel or consonant is dispatched on the state; a consonant with no
/// initial reading (a cluster-only compatibility consonant) and any other
/// character are uninterpretable.
pub open spec fn jamo_step(pre: JamoAutomata, ch: char, layout: KeyboardLayout) -> Step<
    JamoAutomata,
> {
    let c = ch as u32;
    if spec_is_compat_vowel(c) {
        let v = (c - 0x314F) as u32;
        match pre.buffer.state {
            AutomataState::Empty => jamo_vow_empty(pre, v),
            AutomataState::Choseong => jamo_vow_choseong(pre, v),
            AutomataState::Jungseong => jamo_vow_jungseong(pre, v, layout),
            AutomataState::Jungseong2 => jamo_vow_jungseong2(pre, v),
            AutomataState::Jongseong => jamo_vow_jongseong(pre, v),
            AutomataState::Jongseong2 => jamo_vow_jongseong2(pre, v),
        }
    } else if spec_is_compat_consonant(c) && spec_compat_to_l(c) is Some {
        let l_new = spec_compat_to_l(c)->Some_0;
        match pre.buffer.state {
            AutomataState::Empty => jamo_cons_empty(pre, l_new),
            AutomataState::Choseong => jamo_cons_choseong(pre, l_new),
            AutomataState::Jungseong => jamo_cons_vstate(pre, c, l_new),
            AutomataState::Jungseong2 => jamo_cons_vstate(pre, c, l_new),
            AutomataState::Jongseong => jamo_cons_jongseong(pre, ch, l_new, layout),
            AutomataState::Jongseong2 => jamo_cons_jongseong2(pre, l_new),
        }
    } else {
        jamo_other_step(pre)
    }
}

/// One `backspace` transition: unhandled on an empty buffer; otherwise one
/// jamo, or one half of a combination, is removed, restoring the saved
/// previous value where one combination is undone.
pub open spec fn jamo_bs_step(pre: JamoAutomata) -> Step<JamoAutomata> {
    match pre.buffer.state {
        AutomataState::Empty => Step { post: pre, committed: None, composing: None, handled: false },
        AutomataState::Choseong => Step {
            post: pre.spec_reset(),
            committed: None,
            composing: None,
            handled: true,
        },
        AutomataState::Jungseong => {
            let b = if pre.buffer.choseong is Some {
                ComposeBuffer::spec_make(pre.buffer.choseong, None, None, AutomataState::Choseong)
            } else {
                ComposeBuffer::spec_empty()
            };
            jamo_go(
                JamoAutomata {
                    buffer: b,
                    prev_jungseong: None,
                    prev_jongseong: pre.prev_jongseong,
                },
            )
        },
        AutomataState::Jungseong2 => match pre.prev_jungseong {
            Some(pv) => jamo_go(
                JamoAutomata {
                    buffer: ComposeBuffer::spec_make(
                        pre.buffer.choseong,
                        Some(pv),
                        None,
                        AutomataState::Jungseong,
                    ),
                    prev_jungseong: None,
                    prev_jongseong: pre.prev_jongseong,
                },
            ),
            None => jamo_go(pre),
        },
        AutomataState::Jongseong => {
            let st = if pre.prev_jungseong is Some {
                AutomataState::Jungseong2
            } else {
                AutomataState::Jungseong
            };
            jamo_go(
                JamoAutomata {
                    buffer: ComposeBuffer::spec_make(
                        pre.buffer.choseong,
                        pre.buffer.jungseong,
                        None,
                        st,
                    ),
                    prev_jungseong: pre.prev_jungseong,
                    prev_jongseong: None,
                },
            )
        },
        AutomataState::Jongseong2 => match pre.prev_jongseong {
            Some(pt) => jamo_go(
                JamoAutomata {
                    buffer: ComposeBuffer::spec_make(
                        pre.buffer.choseong,
                        pre.buffer.jungseong,
                        Some(pt),
                        AutomataState::Jongseong,
                    ),
                    prev_jungseong: pre.prev_jungseong,
                    prev_jongseong: None,
                },
            ),
            None => jamo_go(pre),
        },
    }
}

/// One `flush` transition: commit whatever is composing and return to the
/// empty state; nothing is composing afterwards.
pub open spec fn jamo_flush_step(pre: JamoAutomata) -> Step<JamoAutomata> {
    if pre.buffer.state == AutomataState::Empty {
        Step { post: pre, committed: None, composing: None, handled: true }
    } else {
        Step {
            post: pre.spec_reset(),
            committed: pre.buffer.spec_render(),
            composing: None,
            handled: true,
        }
    }
}

// ── The executable automaton ──

impl JamoAutomata {
    pub fn new() -> (r: JamoAutomata)
        ensures
            r == Self::spec_new(),
            r.wf(),
    {
        JamoAutomata { buffer: ComposeBuffer::new(), prev_jungseong: None, prev_jongseong: None }
    }

    /// Renders the buffer, hands it out as committed text, and clears the
    /// buffer and both restore slots.
    fn commit_current(&mut self) -> (r: Option<String>)
        ensures
            *final(self) == old(self).spec_reset(),
            r.deep_view() == old(self).buffer.spec_render(),
    {
        let text = self.buffer.to_string();
        self.buffer.reset();
        self.prev_jungseong = None;
        self.prev_jongseong = None;
        text
    }

    fn process_empty_consonant(&mut self, l_idx: u32) -> (r: AutomataResult)
        requires
            old(self).wf(),
            old(self).buffer.state == AutomataState::Empty,
        ensures
            step_matches(*final(self), r, jamo_cons_empty(*old(self), l_idx)),
    {
        self.buffer.choseong = Some(l_idx);
        self.buffer.state = AutomataState::Choseong;
        self.prev_jungseong = None;
        self.prev_jongseong = None;
        AutomataResult::handled(None, self.buffer.to_string())
    }

    fn process_empty_vowel(&mut self, v_idx: u32) -> (r: AutomataResult)
        requires
            old(self).wf(),
            old(self).buffer.state == AutomataState::Empty,
        ensures
            step_matches(*final(self), r, jamo_vow_empty(*old(self), v_idx)),
    {
        self.buffer.jungseong = Some(v_idx);
        self.buffer.state = AutomataState::Jungseong;
        self.prev_jungseong = None;
        self.prev_jongseong = None;
        AutomataResult::handled(None, self.buffer.to_string())
    }

    fn process_choseong_vowel(&mut self, v_idx: u32) -> (r: AutomataResult)
        requires
            old(self).wf(),
            old(self).buffer.state == AutomataState::Choseong,
        ensures
            step_matches(*final(self), r, jamo_vow_choseong(*old(self), v_idx)),
    {
        self.buffer.jungseong = Some(v_idx);
        self.buffer.state = AutomataState::Jungseong;
        self.prev_jungseong = None;
        self.prev_jongseong = None;
        AutomataResult::handled(None, self.buffer.to_string())
    }

    fn process_choseong_consonant(&mut self, l_idx: u32) -> (r: AutomataResult)
        requires
            old(self).wf(),
            old(self).buffer.state == AutomataState::Choseong,
        ensures
            step_matches(*final(self), r, jamo_cons_choseong(*old(self), l_idx)),
    {
        let committed = self.commit_current();
        self.buffer.choseong = Some(l_idx);
        self.buffer.state = AutomataState::Choseong;
        AutomataResult::handled(committed, self.buffer.to_string())
    }

    fn process_jungseong_vowel(&mut self, v_idx: u32, layout: &KeyboardLayout) -> (r:
        AutomataResult)
        requires
            old(self).wf(),
            old(self).buffer.state == AutomataState::Jungseong,
        ensures
            step_matches(*final(self), r, jamo_vow_jungseong(*old(self), v_idx, *layout)),
    {
        if self.buffer.choseong.is_some() {
            let current_v = self.buffer.jungseong.unwrap();
            let current_v_ch = jungseong_to_compat(current_v).unwrap();
            match jungseong_to_compat(v_idx) {
                Some(new_v_ch) => {
                    if let Some(combined) = layout.combine(current_v_ch, new_v_ch) {
                        if let Some(combined_idx) = compat_to_jungseong(combined) {
                            self.prev_jungseong = Some(current_v);
                            self.buffer.jungseong = Some(combined_idx);
                            self.buffer.state = AutomataState::Jungseong2;
                            return AutomataResult::handled(None, self.buffer.to_string());
                        }
                    }
                },
                None => {},
            }
        }
        let committed = self.commit_current();
        self.buffer.jungseong = Some(v_idx);
        self.buffer.state = AutomataState::Jungseong;
        AutomataResult::handled(committed, self.buffer.to_string())
    }


    fn process_jungseong_consonant(&mut self, ch: char, l_idx: u32) -> (r: AutomataResult)
        requires
            old(self).wf(),
            old(self).buffer.state == AutomataState::Jungseong
                || old(self).buffer.state == AutomataState::Jungseong2,
        ensures
            step_matches(*final(self), r, jamo_cons_vstate(*old(self), ch as u32, l_idx)),
    {
        if self.buffer.choseong.is_none() {
            let committed = self.commit_current();
            self.buffer.choseong = Some(l_idx);
            self.buffer.state = AutomataState::Choseong;
            return AutomataResult::handled(committed, self.buffer.to_string());
        }
        if is_jongseong_impossible(ch) {
            let committed = self.commit_current();
            self.buffer.choseong = Some(l_idx);
            self.buffer.state = AutomataState::Choseong;
            return AutomataResult::handled(committed, self.buffer.to_string());
        }
        if let Some(t_idx) = compat_to_jongseong(ch) {
            self.buffer.jongseong = Some(t_idx);
            self.buffer.state = AutomataState::Jongseong;
            self.prev_jongseong = None;
            AutomataResult::handled(None, self.buffer.to_string())
        } else {
            let committed = self.commit_current();
            self.buffer.choseong = Some(l_idx);
            self.buffer.state = AutomataState::Choseong;
            AutomataResult::handled(committed, self.buffer.to_string())
        }
    }

    fn process_jongseong_consonant(&mut self, ch: char, l_idx: u32, layout: &KeyboardLayout) -> (r:
        AutomataResult)
        requires
            old(self).wf(),
            old(self).buffer.state == AutomataState::Jongseong,
        ensures
            step_matches(*final(self), r, jamo_cons_jongseong(*old(self), ch, l_idx, *layout)),
    {
        let current_t = self.buffer.jongseong.unwrap();
        let current_t_ch = jongseong_to_compat(current_t).unwrap();
        if let Some(combined) = layout.combine(current_t_ch, ch) {
            if let Some(combined_idx) = compat_to_jongseong(combined) {
                self.prev_jongseong = Some(current_t);
                self.buffer.jongseong = Some(combined_idx);
                self.buffer.state = AutomataState::Jongseong2;
                return AutomataResult::handled(None, self.buffer.to_string());
            }
        }
        let committed = self.commit_current();
        self.buffer.choseong = Some(l_idx);
        self.buffer.state = AutomataState::Choseong;
        AutomataResult::handled(committed, self.buffer.to_string())
    }

    fn process_jongseong_vowel(&mut self, v_idx: u32) -> (r: AutomataResult)
        requires
            old(self).wf(),
            old(self).buffer.state == AutomataState::Jongseong,
        ensures
            step_matches(*final(self), r, jamo_vow_jongseong(*old(self), v_idx)),
    {
        let t = self.buffer.jongseong.unwrap();
        let l = self.buffer.choseong.unwrap();
        let v = self.buffer.jungseong.unwrap();
        match jongseong_to_choseong(t) {
            Some(next_l) => {
                let committed = match crate::unicode::compose_syllable(l, v, 0) {
                    Some(c) => Some(crate::text::char_string(c)),
                    None => None,
                };
                self.buffer.reset();
                self.prev_jungseong = None;
                self.prev_jongseong = None;
                self.buffer.choseong = Some(next_l);
                self.buffer.jungseong = Some(v_idx);
                self.buffer.state = AutomataState::Jungseong;
                AutomataResult::handled(committed, self.buffer.to_string())
            },
            None => {
                let committed = self.commit_current();
                self.buffer.jungseong = Some(v_idx);
                self.buffer.state = AutomataState::Jungseong;
                AutomataResult::handled(committed, self.buffer.to_string())
            },
        }
    }

    fn process_jongseong2_vowel(&mut self, v_idx: u32) -> (r: AutomataResult)
        requires
            old(self).wf(),
            old(self).buffer.state == AutomataState::Jongseong2,
        ensures
            step_matches(*final(self), r, jamo_vow_jongseong2(*old(self), v_idx)),
    {
        let t = self.buffer.jongseong.unwrap();
        let l = self.buffer.choseong.unwrap();
        let v = self.buffer.jungseong.unwrap();
        let split = split_double_jongseong(t);
        match split {
            Some((first_t, second_ch)) => match compat_to_choseong(second_ch) {
                Some(next_l) => {
                    let committed = match crate::unicode::compose_syllable(l, v, first_t) {
                        Some(c) => Some(crate::text::char_string(c)),
                        None => None,
                    };
                    self.buffer.reset();
                    self.prev_jungseong = None;
                    self.prev_jongseong = None;
                    self.buffer.choseong = Some(next_l);
                    self.buffer.jungseong = Some(v_idx);
                    self.buffer.state = AutomataState::Jungseong;
                    AutomataResult::handled(committed, self.buffer.to_string())
                },
                None => {
                    let committed = self.commit_current();
                    self.buffer.jungseong = Some(v_idx);
                    self.buffer.state = AutomataState::Jungseong;
                    AutomataResult::handled(committed, self.buffer.to_string())
                },
            },
            None => {
                let committed = self.commit_current();
                self.buffer.jungseong = Some(v_idx);
                self.buffer.state = AutomataState::Jungseong;
                AutomataResult::handled(committed, self.buffer.to_string())
            },
        }
    }

    fn process_jongseong2_consonant(&mut self, l_idx: u32) -> (r: AutomataResult)
        requires
            old(self).wf(),
            old(self).buffer.state == AutomataState::Jongseong2,
        ensures
            step_matches(*final(self), r, jamo_cons_jongseong2(*old(self), l_idx)),
    {
        let committed = self.commit_current();
        self.buffer.choseong = Some(l_idx);
        self.buffer.state = AutomataState::Choseong;
        AutomataResult::handled(committed, self.buffer.to_string())
    }

    /// Processes one character against the loaded layout, exactly as
    /// `jamo_step` describes.
    pub fn process(&mut self, ch: char, layout: &KeyboardLayout) -> (r: AutomataResult)
        requires
            old(self).wf(),
        ensures
            final(self).wf(),
            step_matches(*final(self), r, jamo_step(*old(self), ch, *layout)),
    {
        let is_consonant = is_compat_consonant(ch);
        let is_vowel = is_compat_vowel(ch);

        if is_vowel {
            let v_idx = match compat_to_jungseong(ch) {
                Some(v) => v,
                None => {
                    proof {
                        assert(false);
                    }
                    0
                },
            };
            return match self.buffer.state {
                AutomataState::Empty => self.process_empty_vowel(v_idx),
                AutomataState::Choseong => self.process_choseong_vowel(v_idx),
                AutomataState::Jungseong => self.process_jungseong_vowel(v_idx, layout),
                AutomataState::Jungseong2 => {
                    let committed = self.commit_current();
                    self.buffer.jungseong = Some(v_idx);
                    self.buffer.state = AutomataState::Jungseong;
                    AutomataResult::handled(committed, self.buffer.to_string())
                },
                AutomataState::Jongseong => self.process_jongseong_vowel(v_idx),
                AutomataState::Jongseong2 => self.process_jongseong2_vowel(v_idx),
            };
        }

        if is_consonant {
            if let Some(l_idx) = compat_to_choseong(ch) {
                return match self.buffer.state {
                    AutomataState::Empty => self.process_empty_consonant(l_idx),
                    AutomataState::Choseong => self.process_choseong_consonant(l_idx),
                    AutomataState::Jungseong => self.process_jungseong_consonant(ch, l_idx),
                    AutomataState::Jungseong2 => self.process_jungseong_consonant(ch, l_idx),
                    AutomataState::Jongseong => self.process_jongseong_consonant(
                        ch,
                        l_idx,
                        layout,
                    ),
                    AutomataState::Jongseong2 => self.process_jongseong2_consonant(l_idx),
                };
            }
        }

        if !matches!(self.buffer.state, AutomataState::Empty) {
            let committed = self.commit_current();
            return AutomataResult::handled(committed, None);
        }
        AutomataResult::not_handled()
    }

    /// Removes one jamo, or undoes one combination, exactly as
    /// `jamo_bs_step` describes. Unhandled exactly on an empty buffer,
    /// and every handled backspace brings the automaton strictly closer
    /// to empty.
    pub fn backspace(&mut self) -> (r: AutomataResult)
        requires
            old(self).wf(),
        ensures
            final(self).wf(),
            step_matches(*final(self), r, jamo_bs_step(*old(self))),
            !r.handled <==> old(self).buffer.state == AutomataState::Empty,
            old(self).buffer.state != AutomataState::Empty ==> final(self).bs_rank() < old(
                self,
            ).bs_rank(),
    {
        match self.buffer.state {
            AutomataState::Empty => AutomataResult::not_handled(),
            AutomataState::Choseong => {
                self.buffer.reset();
                self.prev_jungseong = None;
                self.prev_jongseong = None;
                AutomataResult::handled(None, None)
            },
            AutomataState::Jungseong => {
                if self.buffer.choseong.is_some() {
                    self.buffer.jungseong = None;
                    self.buffer.state = AutomataState::Choseong;
                } else {
                    self.buffer.reset();
                }
                self.prev_jungseong = None;
                AutomataResult::handled(None, self.buffer.to_string())
            },
            AutomataState::Jungseong2 => {
                if let Some(prev_v) = self.prev_jungseong {
                    self.buffer.jungseong = Some(prev_v);
                    self.prev_jungseong = None;
                    self.buffer.state = AutomataState::Jungseong;
                }
                AutomataResult::handled(None, self.buffer.to_string())
            },
            AutomataState::Jongseong => {
                self.buffer.jongseong = None;
                self.prev_jongseong = None;
                if self.prev_jungseong.is_some() {
                    self.buffer.state = AutomataState::Jungseong2;
                } else {
                    self.buffer.state = AutomataState::Jungseong;
                }
                AutomataResult::handled(None, self.buffer.to_string())
            },
            AutomataState::Jongseong2 => {
                if let Some(prev_t) = self.prev_jongseong {
                    self.buffer.jongseong = Some(prev_t);
                    self.prev_jongseong = None;
                    self.buffer.state = AutomataState::Jongseong;
                }
                AutomataResult::handled(None, self.buffer.to_string())
            },
        }
    }

    /// Commits whatever is composing and returns to the empty state; after
    /// a flush nothing is composing and the state is empty.
    pub fn flush(&mut self) -> (r: AutomataResult)
        requires
            old(self).wf(),
        ensures
            final(self).wf(),
            step_matches(*final(self), r, jamo_flush_step(*old(self))),
            *final(self) == old(self).spec_reset(),
            r.composing is None,
    {
        if matches!(self.buffer.state, AutomataState::Empty) {
            return AutomataResult::handled(None, None);
        }
        let committed = self.commit_current();
        AutomataResult::handled(committed, None)
    }

    /// The current composing text.
    pub fn composing_text(&self) -> (r: Option<String>)
        ensures
            r.deep_view() == self.buffer.spec_render(),
    {
        self.buffer.to_string()
    }

    /// The current automaton state.
    pub fn state(&self) -> (r: AutomataState)
        ensures
            r == self.buffer.state,
    {
        self.buffer.state
    }
}

/// Processing a character and then backspacing returns the automaton to
/// the value observed before, whenever the step handled the character
/// without committing anything: the saved previous vowel and previous
/// final make every combination exactly invertible.
pub proof fn lemma_jamo_process_backspace(pre: JamoAutomata, ch: char, layout: KeyboardLayout)
    requires
        pre.wf(),
        jamo_step(pre, ch, layout).handled,
        jamo_step(pre, ch, layout).committed is None,
    ensures
        jamo_bs_step(jamo_step(pre, ch, layout).post).post == pre,
        jamo_bs_step(jamo_step(pre, ch, layout).post).composing == pre.spec_composing(),
{
}

} // verus!
