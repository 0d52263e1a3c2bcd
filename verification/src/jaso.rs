//! The three-set (three-beolsik) automaton. Keys deliver positional jamo,
//! so each character names its own role (initial, vowel or final) and the
//! automaton fills the three slots; it never steals a final into the next
//! syllable — a new initial always commits the current syllable. The
//! auto-reorder extension forgives two mis-orderings: a vowel typed before
//! its initial is kept and the initial folded in, and a final typed before
//! the vowel is parked in a pending slot until the vowel arrives.
//!
//! Every operation is specified by a transition function over the automaton
//! value (`jaso_step`, `jaso_bs_step`, `jaso_flush_step`); the executable
//! methods are verified to follow it exactly.

use vstd::prelude::*;

use crate::automata::{step_matches, Step};
use crate::buffer::{AutomataResult, AutomataState, ComposeBuffer};
use crate::layout::KeyboardLayout;
use crate::text::push_char;
use crate::unicode::{
    char_from_u32, choseong_to_index, is_choseong, is_jongseong, is_jungseong,
    jongseong_to_compat, jongseong_to_index, jungseong_to_index, spec_is_choseong,
    spec_is_jongseong, spec_is_jungseong, spec_t_compat_char, L_BASE, L_COUNT, T_BASE, T_COUNT,
    V_BASE, V_COUNT,
};

verus! {

/// The three-set automaton: the compose buffer, the restore slots that
/// make backspace exactly inverse to a combination (for the initial, the
/// vowel and the final), the pending final of the auto-reorder extension,
/// and the auto-reorder flag of the loaded layout.
#[derive(Clone, Copy, Debug)]
pub struct JasoAutomata {
    /// The jamo under assembly.
    pub buffer: ComposeBuffer,
    /// The initial before a double-consonant combination.
    pub prev_choseong: Option<u32>,
    /// The vowel before a vowel combination.
    pub prev_jungseong: Option<u32>,
    /// The final before a final combination.
    pub prev_jongseong: Option<u32>,
    /// A final typed before its vowel, waiting for the vowel; set only
    /// while the buffer holds a lone initial and no final.
    pub pending_jongseong: Option<u32>,
    /// Whether the two mis-ordering corrections are active.
    pub auto_reorder: bool,
}

impl JasoAutomata {
    /// Slot and restore indices are in range; the state tag agrees with
    /// the slots as far as the three-set transitions keep it (a vowel
    /// combination may leave a final in place, so the two vowel states do
    /// not exclude a final); the pending final exists only beside a lone
    /// initial with no buffer final — it is never an alternative encoding
    /// of the final slot.
    pub open spec fn wf(self) -> bool {
        let b = self.buffer;
        &&& (b.choseong matches Some(l) ==> l < L_COUNT)
        &&& (b.jungseong matches Some(v) ==> v < V_COUNT)
        &&& (b.jongseong matches Some(t) ==> 1 <= t < T_COUNT)
        &&& (self.prev_choseong matches Some(l) ==> l < L_COUNT)
        &&& (self.prev_jungseong matches Some(v) ==> v < V_COUNT)
        &&& (self.prev_jongseong matches Some(t) ==> 1 <= t < T_COUNT)
        &&& (self.pending_jongseong matches Some(t) ==> 1 <= t < T_COUNT)
        &&& (b.state == AutomataState::Empty ==> b.choseong is None && b.jungseong is None
            && b.jongseong is None)
        &&& (b.state == AutomataState::Choseong ==> b.choseong is Some && b.jungseong is None
            && b.jongseong is None)
        &&& (b.state == AutomataState::Jungseong || b.state == AutomataState::Jungseong2
            ==> b.jungseong is Some)
        &&& (b.state == AutomataState::Jongseong || b.state == AutomataState::Jongseong2
            ==> b.choseong is Some && b.jungseong is Some && b.jongseong is Some)
        &&& (b.state == AutomataState::Jungseong2 ==> self.prev_jungseong is Some)
        &&& (b.state == AutomataState::Jongseong2 ==> self.prev_jongseong is Some)
        &&& (b.choseong is None ==> b.jongseong is None)
        &&& (self.pending_jongseong is Some ==> b.state == AutomataState::Choseong
            && b.jongseong is None)
        &&& (self.prev_choseong is Some ==> b.choseong is Some)
        &&& (self.prev_jungseong is Some ==> b.jungseong is Some)
        &&& (self.prev_jongseong is Some ==> b.jongseong is Some)
    }

    /// A fresh automaton with the given reorder flag.
    pub open spec fn spec_new(auto_reorder: bool) -> JasoAutomata {
        JasoAutomata {
            buffer: ComposeBuffer::spec_empty(),
            prev_choseong: None,
            prev_jungseong: None,
            prev_jongseong: None,
            pending_jongseong: None,
            auto_reorder,
        }
    }

    /// This automaton with the buffer, restore slots and pending final
    /// cleared.
    pub open spec fn spec_reset(self) -> JasoAutomata {
        JasoAutomata {
            buffer: ComposeBuffer::spec_empty(),
            prev_choseong: None,
            prev_jungseong: None,
            prev_jongseong: None,
            pending_jongseong: None,
            auto_reorder: self.auto_reorder,
        }
    }

    /// This automaton with the given buffer, everything saved cleared.
    pub open spec fn spec_with_fresh(self, b: ComposeBuffer) -> JasoAutomata {
        JasoAutomata {
            buffer: b,
            prev_choseong: None,
            prev_jungseong: None,
            prev_jongseong: None,
            pending_jongseong: None,
            auto_reorder: self.auto_reorder,
        }
    }

    /// What the buffer renders as.
    pub open spec fn spec_composing(self) -> Option<Seq<char>> {
        self.buffer.spec_render()
    }

    /// Everything this automaton would commit if flushed now: the buffer's
    /// rendering followed by the pending final's compatibility form.
    pub open spec fn spec_flush_text(self) -> Seq<char> {
        let base = match self.buffer.spec_render() {
            Some(s) => s,
            None => Seq::<char>::empty(),
        };
        match self.pending_jongseong {
            Some(t) => match spec_t_compat_char(t) {
                Some(c) => base.push(c),
                None => base,
            },
            None => base,
        }
    }

    /// How many backspaces this automaton is from empty; every handled
    /// backspace strictly decreases it.
    pub open spec fn bs_rank(self) -> nat {
        let state_part: nat = match self.buffer.state {
            AutomataState::Empty => 0,
            AutomataState::Choseong => 2,
            AutomataState::Jungseong => 3,
            AutomataState::Jungseong2 => 4,
            AutomataState::Jongseong => 5,
            AutomataState::Jongseong2 => 6,
        };
        state_part + (if self.pending_jongseong is Some {
            1nat
        } else {
            0nat
        }) + (if self.prev_choseong is Some {
            1nat
        } else {
            0nat
        })
    }
}

// ── The transition function ──

/// A handled step that commits the whole current composition (pending
/// final included) and starts a fresh buffer `b`.
pub open spec fn jaso_commit_then(pre: JasoAutomata, b: ComposeBuffer) -> Step<JasoAutomata> {
    Step {
        post: pre.spec_with_fresh(b),
        committed: pre.buffer.spec_render(),
        composing: b.spec_render(),
        handled: true,
    }
}

/// A handled step that commits nothing and moves to a new automaton value.
pub open spec fn jaso_go(post: JasoAutomata) -> Step<JasoAutomata> {
    Step { post, committed: None, composing: post.buffer.spec_render(), handled: true }
}

/// A handled step that commits everything (pending final included) plus
/// the incoming final rendered as its compatibility form, leaving nothing
/// composing.
pub open spec fn jaso_commit_with_t(pre: JasoAutomata, t: u32) -> Step<JasoAutomata> {
    let text = match spec_t_compat_char(t) {
        Some(c) => pre.spec_flush_text().push(c),
        None => pre.spec_flush_text(),
    };
    Step { post: pre.spec_reset(), committed: Some(text), composing: None, handled: true }
}

/// Input that is no positional jamo: a non-empty composition (pending
/// final included) is committed; on a fully empty automaton the input is
/// passed back to the host.
pub open spec fn jaso_other_step(pre: JasoAutomata) -> Step<JasoAutomata> {
    if pre.buffer.state != AutomataState::Empty || pre.pending_jongseong is Some {
        Step {
            post: pre.spec_reset(),
            committed: Some(pre.spec_flush_text()),
            composing: None,
            handled: true,
        }
    } else {
        Step { post: pre, committed: None, composing: None, handled: false }
    }
}

/// An incoming initial. A pending final means the stash is abandoned: the
/// lone initial and the pending final are committed as compatibility jamo
/// and the new initial starts fresh. On a lone initial the layout may
/// combine the two (a double consonant), remembered for backspace. On a
/// syllable with its vowel, commit and start fresh. Into an empty initial
/// slot the initial is placed directly — with a vowel already there this
/// is the auto-reorder fold-in; without the option the vowel is committed
/// alone.
pub open spec fn jaso_l_step(pre: JasoAutomata, l: u32, layout: KeyboardLayout) -> Step<
    JasoAutomata,
> {
    if pre.pending_jongseong is Some {
        Step {
            post: pre.spec_with_fresh(
                ComposeBuffer::spec_make(Some(l), None, None, AutomataState::Choseong),
            ),
            committed: Some(pre.spec_flush_text()),
            composing: ComposeBuffer::spec_make(
                Some(l),
                None,
                None,
                AutomataState::Choseong,
            ).spec_render(),
            handled: true,
        }
    } else if pre.buffer.choseong is Some {
        let cur = pre.buffer.choseong->Some_0;
        if pre.buffer.jungseong is Some {
            jaso_commit_then(
                pre,
                ComposeBuffer::spec_make(Some(l), None, None, AutomataState::Choseong),
            )
        } else {
            let comb = layout.spec_combine(
                (((L_BASE + cur) as u32) as char),
                (((L_BASE + l) as u32) as char),
            );
            let comb_idx = match comb {
                Some(cc) => if spec_is_choseong(cc as u32) {
                    Some((cc as u32 - L_BASE) as u32)
                } else {
                    None
                },
                None => None,
            };
            match comb_idx {
                Some(nl) => jaso_go(
                    JasoAutomata {
                        buffer: ComposeBuffer::spec_make(
                            Some(nl),
                            None,
                            pre.buffer.jongseong,
                            pre.buffer.state,
                        ),
                        prev_choseong: Some(cur),
                        prev_jungseong: pre.prev_jungseong,
                        prev_jongseong: pre.prev_jongseong,
                        pending_jongseong: None,
                        auto_reorder: pre.auto_reorder,
                    },
                ),
                None => jaso_commit_then(
                    pre,
                    ComposeBuffer::spec_make(Some(l), None, None, AutomataState::Choseong),
                ),
            }
        }
    } else {
        if pre.buffer.jungseong is Some {
            if pre.auto_reorder {
                jaso_go(
                    JasoAutomata {
                        buffer: ComposeBuffer::spec_make(
                            Some(l),
                            pre.buffer.jungseong,
                            pre.buffer.jongseong,
                            AutomataState::Jungseong,
                        ),
                        prev_choseong: pre.prev_choseong,
                        prev_jungseong: pre.prev_jungseong,
                        prev_jongseong: pre.prev_jongseong,
                        pending_jongseong: None,
                        auto_reorder: pre.auto_reorder,
                    },
                )
            } else {
                jaso_commit_then(
                    pre,
                    ComposeBuffer::spec_make(Some(l), None, None, AutomataState::Choseong),
                )
            }
        } else {
            jaso_go(
                JasoAutomata {
                    buffer: ComposeBuffer::spec_make(
                        Some(l),
                        None,
                        pre.buffer.jongseong,
                        AutomataState::Choseong,
                    ),
                    prev_choseong: pre.prev_choseong,
                    prev_jungseong: pre.prev_jungseong,
                    prev_jongseong: pre.prev_jongseong,
                    pending_jongseong: None,
                    auto_reorder: pre.auto_reorder,
                },
            )
        }
    }
}

/// An incoming vowel. A pending final is resolved: the vowel takes the
/// vowel slot and the pending final the final slot, completing the
/// syllable. On a buffer that has a vowel the layout may combine the two
/// into a cluster vowel, remembered for backspace; otherwise commit and
/// start a vowel-only syllable. An empty vowel slot simply takes it.
pub open spec fn jaso_v_step(pre: JasoAutomata, v: u32, layout: KeyboardLayout) -> Step<
    JasoAutomata,
> {
    if pre.pending_jongseong is Some {
        let pt = pre.pending_jongseong->Some_0;
        jaso_go(
            JasoAutomata {
                buffer: ComposeBuffer::spec_make(
                    pre.buffer.choseong,
                    Some(v),
                    Some(pt),
                    AutomataState::Jongseong,
                ),
                prev_choseong: pre.prev_choseong,
                prev_jungseong: pre.prev_jungseong,
                prev_jongseong: pre.prev_jongseong,
                pending_jongseong: None,
                auto_reorder: pre.auto_reorder,
            },
        )
    } else if pre.buffer.jungseong is Some {
        let cur = pre.buffer.jungseong->Some_0;
        let comb = layout.spec_combine(
            (((V_BASE + cur) as u32) as char),
            (((V_BASE + v) as u32) as char),
        );
        let comb_idx = match comb {
            Some(cc) => if spec_is_jungseong(cc as u32) {
                Some((cc as u32 - V_BASE) as u32)
            } else {
                None
            },
            None => None,
        };
        match comb_idx {
            Some(nv) => jaso_go(
                JasoAutomata {
                    buffer: ComposeBuffer::spec_make(
                        pre.buffer.choseong,
                        Some(nv),
                        pre.buffer.jongseong,
                        AutomataState::Jungseong2,
                    ),
                    prev_choseong: pre.prev_choseong,
                    prev_jungseong: Some(cur),
                    prev_jongseong: pre.prev_jongseong,
                    pending_jongseong: None,
                    auto_reorder: pre.auto_reorder,
                },
            ),
            None => jaso_commit_then(
                pre,
                ComposeBuffer::spec_make(None, Some(v), None, AutomataState::Jungseong),
            ),
        }
    } else {
        jaso_go(
            JasoAutomata {
                buffer: ComposeBuffer::spec_make(
                    pre.buffer.choseong,
                    Some(v),
                    pre.buffer.jongseong,
                    AutomataState::Jungseong,
                ),
                prev_choseong: pre.prev_choseong,
                prev_jungseong: pre.prev_jungseong,
                prev_jongseong: pre.prev_jongseong,
                pending_jongseong: None,
                auto_reorder: pre.auto_reorder,
            },
        )
    }
}

/// An incoming final. On a lone initial, under auto-reorder, it is parked
/// as the pending final (a second one abandons the stash: everything is
/// committed as compatibility jamo); without the option it is committed
/// as its compatibility form at once. Without the initial or the vowel it
/// cannot stand in a syllable: everything is committed, the final as its
/// compatibility form. On a closed syllable the layout may combine the
/// finals into a cluster, remembered for backspace; otherwise everything
/// is committed. An empty final slot of a full syllable takes it.
pub open spec fn jaso_t_step(pre: JasoAutomata, t: u32, layout: KeyboardLayout) -> Step<
    JasoAutomata,
> {
    if pre.buffer.choseong is Some && pre.buffer.jungseong is None {
        if pre.auto_reorder && pre.pending_jongseong is None {
            jaso_go(
                JasoAutomata {
                    buffer: pre.buffer,
                    prev_choseong: pre.prev_choseong,
                    prev_jungseong: pre.prev_jungseong,
                    prev_jongseong: pre.prev_jongseong,
                    pending_jongseong: Some(t),
                    auto_reorder: pre.auto_reorder,
                },
            )
        } else {
            jaso_commit_with_t(pre, t)
        }
    } else if pre.buffer.choseong is None || pre.buffer.jungseong is None {
        jaso_commit_with_t(pre, t)
    } else if pre.buffer.jongseong is Some {
        let cur = pre.buffer.jongseong->Some_0;
        let comb = layout.spec_combine(
            (((T_BASE + cur) as u32) as char),
            (((T_BASE + t) as u32) as char),
        );
        let comb_idx = match comb {
            Some(cc) => if spec_is_jongseong(cc as u32) {
                Some((cc as u32 - T_BASE) as u32)
            } else {
                None
            },
            None => None,
        };
        match comb_idx {
            Some(nt) => jaso_go(
                JasoAutomata {
                    buffer: ComposeBuffer::spec_make(
                        pre.buffer.choseong,
                        pre.buffer.jungseong,
                        Some(nt),
                        AutomataState::Jongseong2,
                    ),
                    prev_choseong: pre.prev_choseong,
                    prev_jungseong: pre.prev_jungseong,
                    prev_jongseong: Some(cur),
                    pending_jongseong: None,
                    auto_reorder: pre.auto_reorder,
                },
            ),
            None => jaso_commit_with_t(pre, t),
        }
    } else {
        jaso_go(
            JasoAutomata {
                buffer: ComposeBuffer::spec_make(
                    pre.buffer.choseong,
                    pre.buffer.jungseong,
                    Some(t),
                    AutomataState::Jongseong,
                ),
                prev_choseong: pre.prev_choseong,
                prev_jungseong: pre.prev_jungseong,
                prev_jongseong: pre.prev_jongseong,
                pending_jongseong: None,
                auto_reorder: pre.auto_reorder,
            },
        )
    }
}

/// One `process` transition of the three-set automaton: a positional jamo
/// is dispatched on its role, anything else is uninterpretable.
pub open spec fn jaso_step(pre: JasoAutomata, ch: char, layout: KeyboardLayout) -> Step<
    JasoAutomata,
> {
    let c = ch as u32;
    if spec_is_choseong(c) {
        jaso_l_step(pre, ((c - L_BASE) as u32), layout)
    } else if spec_is_jungseong(c) {
        jaso_v_step(pre, ((c - V_BASE) as u32), layout)
    } else if spec_is_jongseong(c) {
        jaso_t_step(pre, ((c - T_BASE) as u32), layout)
    } else {
        jaso_other_step(pre)
    }
}

/// One `backspace` transition: unhandled on an empty buffer. A pending
/// final is dropped first; a double-consonant initial is restored to its
/// first consonant; otherwise one slot is cleared or one combination
/// undone, restoring the saved previous value.
pub open spec fn jaso_bs_step(pre: JasoAutomata) -> Step<JasoAutomata> {
    match pre.buffer.state {
        AutomataState::Empty => Step { post: pre, committed: None, composing: None, handled: false },
        AutomataState::Jongseong2 => match pre.prev_jongseong {
            Some(pt) => jaso_go(
                JasoAutomata {
                    buffer: ComposeBuffer::spec_make(
                        pre.buffer.choseong,
                        pre.buffer.jungseong,
                        Some(pt),
                        AutomataState::Jongseong,
                    ),
                    prev_choseong: pre.prev_choseong,
                    prev_jungseong: pre.prev_jungseong,
                    prev_jongseong: None,
                    pending_jongseong: pre.pending_jongseong,
                    auto_reorder: pre.auto_reorder,
                },
            ),
            None => jaso_go(pre),
        },
        AutomataState::Jongseong => {
            let st = if pre.prev_jungseong is Some {
                AutomataState::Jungseong2
            } else if pre.buffer.jungseong is Some {
                AutomataState::Jungseong
            } else if pre.buffer.choseong is Some {
                AutomataState::Choseong
            } else {
                AutomataState::Empty
            };
            jaso_go(
                JasoAutomata {
                    buffer: ComposeBuffer::spec_make(
                        pre.buffer.choseong,
                        pre.buffer.jungseong,
                        None,
                        st,
                    ),
                    prev_choseong: pre.prev_choseong,
                    prev_jungseong: pre.prev_jungseong,
                    prev_jongseong: None,
                    pending_jongseong: pre.pending_jongseong,
                    auto_reorder: pre.auto_reorder,
                },
            )
        },
        AutomataState::Jungseong2 => match pre.prev_jungseong {
            Some(pv) => jaso_go(
                JasoAutomata {
                    buffer: ComposeBuffer::spec_make(
                        pre.buffer.choseong,
                        Some(pv),
                        pre.buffer.jongseong,
                        AutomataState::Jungseong,
                    ),
                    prev_choseong: pre.prev_choseong,
                    prev_jungseong: None,
                    prev_jongseong: pre.prev_jongseong,
                    pending_jongseong: pre.pending_jongseong,
                    auto_reorder: pre.auto_reorder,
                },
            ),
            None => jaso_go(pre),
        },
        AutomataState::Jungseong => {
            let st = if pre.buffer.choseong is Some {
                AutomataState::Choseong
            } else {
                AutomataState::Empty
            };
            jaso_go(
                JasoAutomata {
                    buffer: ComposeBuffer::spec_make(pre.buffer.choseong, None, None, st),
                    prev_choseong: pre.prev_choseong,
                    prev_jungseong: None,
                    prev_jongseong: None,
                    pending_jongseong: pre.pending_jongseong,
                    auto_reorder: pre.auto_reorder,
                },
            )
        },
        AutomataState::Choseong => {
            if pre.pending_jongseong is Some {
                jaso_go(
                    JasoAutomata {
                        buffer: pre.buffer,
                        prev_choseong: pre.prev_choseong,
                        prev_jungseong: pre.prev_jungseong,
                        prev_jongseong: pre.prev_jongseong,
                        pending_jongseong: None,
                        auto_reorder: pre.auto_reorder,
                    },
                )
            } else if pre.prev_choseong is Some {
                let pl = pre.prev_choseong->Some_0;
                jaso_go(
                    JasoAutomata {
                        buffer: ComposeBuffer::spec_make(
                            Some(pl),
                            pre.buffer.jungseong,
                            pre.buffer.jongseong,
                            AutomataState::Choseong,
                        ),
                        prev_choseong: None,
                        prev_jungseong: pre.prev_jungseong,
                        prev_jongseong: pre.prev_jongseong,
                        pending_jongseong: None,
                        auto_reorder: pre.auto_reorder,
                    },
                )
            } else {
                Step {
                    post: pre.spec_reset(),
                    committed: None,
                    composing: None,
                    handled: true,
                }
            }
        },
    }
}

/// One `flush` transition: commit whatever is composing, the pending
/// final included, and return to the empty state.
pub open spec fn jaso_flush_step(pre: JasoAutomata) -> Step<JasoAutomata> {
    if pre.buffer.state == AutomataState::Empty && pre.pending_jongseong is None {
        Step { post: pre, committed: None, composing: None, handled: true }
    } else {
        Step {
            post: pre.spec_reset(),
            committed: Some(pre.spec_flush_text()),
            composing: None,
            handled: true,
        }
    }
}

// ── The executable automaton ──

impl JasoAutomata {
    pub fn new() -> (r: JasoAutomata)
        ensures
            r == Self::spec_new(true),
            r.wf(),
    {
        JasoAutomata {
            buffer: ComposeBuffer::new(),
            prev_choseong: None,
            prev_jungseong: None,
            prev_jongseong: None,
            pending_jongseong: None,
            auto_reorder: true,
        }
    }

    /// A fresh automaton with the mis-ordering corrections switched as the
    /// layout option asks.
    pub fn with_auto_reorder(auto_reorder: bool) -> (r: JasoAutomata)
        ensures
            r == Self::spec_new(auto_reorder),
            r.wf(),
    {
        JasoAutomata {
            buffer: ComposeBuffer::new(),
            prev_choseong: None,
            prev_jungseong: None,
            prev_jongseong: None,
            pending_jongseong: None,
            auto_reorder,
        }
    }

    /// Renders the buffer, hands it out as committed text, and clears the
    /// buffer, the restore slots and the pending final.
    fn commit_current(&mut self) -> (r: Option<String>)
        ensures
            *final(self) == old(self).spec_reset(),
            r.deep_view() == old(self).buffer.spec_render(),
    {
        let text = self.buffer.to_string();
        self.buffer.reset();
        self.prev_choseong = None;
        self.prev_jungseong = None;
        self.prev_jongseong = None;
        self.pending_jongseong = None;
        text
    }

    /// Everything a flush would commit now, as one string: the buffer's
    /// rendering followed by the pending final's compatibility form. The
    /// buffer and slots are cleared.
    fn commit_all(&mut self) -> (r: String)
        requires
            old(self).wf(),
        ensures
            *final(self) == old(self).spec_reset(),
            r@ == old(self).spec_flush_text(),
    {
        let pending = self.pending_jongseong;
        let mut text: String = match self.commit_current() {
            Some(s) => s,
            None => String::new(),
        };
        if let Some(t) = pending {
            if let Some(c) = jongseong_to_compat(t) {
                push_char(&mut text, c);
            }
        }
        text
    }

    /// Processes one positional jamo or other character against the loaded
    /// layout, exactly as `jaso_step` describes.
    pub fn process(&mut self, ch: char, layout: &KeyboardLayout) -> (r: AutomataResult)
        requires
            old(self).wf(),
        ensures
            final(self).wf(),
            step_matches(*final(self), r, jaso_step(*old(self), ch, *layout)),
    {
        if is_choseong(ch) {
            let l_idx: u32 = ch as u32 - L_BASE;
            return self.on_choseong(l_idx, layout);
        }
        if is_jungseong(ch) {
            let v_idx: u32 = ch as u32 - V_BASE;
            return self.on_jungseong(v_idx, layout);
        }
        if is_jongseong(ch) {
            let t_idx: u32 = ch as u32 - T_BASE;
            return self.on_jongseong(t_idx, layout);
        }
        if !matches!(self.buffer.state, AutomataState::Empty) || self.pending_jongseong.is_some() {
            let committed = self.commit_all();
            return AutomataResult::handled(Some(committed), None);
        }
        AutomataResult::not_handled()
    }

    fn on_choseong(&mut self, l_idx: u32, layout: &KeyboardLayout) -> (r: AutomataResult)
        requires
            old(self).wf(),
            l_idx < L_COUNT,
        ensures
            step_matches(*final(self), r, jaso_l_step(*old(self), l_idx, *layout)),
    {
        if self.pending_jongseong.is_some() {
            let committed = self.commit_all();
            self.buffer.choseong = Some(l_idx);
            self.buffer.state = AutomataState::Choseong;
            return AutomataResult::handled(Some(committed), self.buffer.to_string());
        }
        if let Some(current_l) = self.buffer.choseong {
            if self.buffer.jungseong.is_some() {
                let committed = self.commit_current();
                self.buffer.choseong = Some(l_idx);
                self.buffer.state = AutomataState::Choseong;
                return AutomataResult::handled(committed, self.buffer.to_string());
            }
            let current_ch = match char_from_u32(L_BASE + current_l) {
                Some(c) => c,
                None => {
                    proof {
                        assert(false);
                    }
                    return AutomataResult::not_handled();
                },
            };
            let new_ch = match char_from_u32(L_BASE + l_idx) {
                Some(c) => c,
                None => {
                    proof {
                        assert(false);
                    }
                    return AutomataResult::not_handled();
                },
            };
            proof {
                vstd::utf8::char_u32_cast(current_ch, (L_BASE + current_l) as u32);
                vstd::utf8::char_u32_cast(new_ch, (L_BASE + l_idx) as u32);
            }
            if let Some(combined) = layout.combine(current_ch, new_ch) {
                if let Some(combined_idx) = choseong_to_index(combined) {
                    self.prev_choseong = Some(current_l);
                    self.buffer.choseong = Some(combined_idx);
                    return AutomataResult::handled(None, self.buffer.to_string());
                }
            }
            let committed = self.commit_current();
            self.buffer.choseong = Some(l_idx);
            self.buffer.state = AutomataState::Choseong;
            AutomataResult::handled(committed, self.buffer.to_string())
        } else {
            if self.buffer.jungseong.is_some() && !self.auto_reorder {
                let committed = self.commit_current();
                self.buffer.choseong = Some(l_idx);
                self.buffer.state = AutomataState::Choseong;
                return AutomataResult::handled(committed, self.buffer.to_string());
            }
            self.buffer.choseong = Some(l_idx);
            if self.buffer.jungseong.is_some() {
                self.buffer.state = AutomataState::Jungseong;
            } else {
                self.buffer.state = AutomataState::Choseong;
            }
            self.pending_jongseong = None;
            AutomataResult::handled(None, self.buffer.to_string())
        }
    }

    fn on_jungseong(&mut self, v_idx: u32, layout: &KeyboardLayout) -> (r: AutomataResult)
        requires
            old(self).wf(),
            v_idx < V_COUNT,
        ensures
            step_matches(*final(self), r, jaso_v_step(*old(self), v_idx, *layout)),
    {
        if let Some(pending_t) = self.pending_jongseong {
            self.pending_jongseong = None;
            self.buffer.jungseong = Some(v_idx);
            self.buffer.jongseong = Some(pending_t);
            self.buffer.state = AutomataState::Jongseong;
            return AutomataResult::handled(None, self.buffer.to_string());
        }
        if let Some(current_v) = self.buffer.jungseong {
            let current_ch = match char_from_u32(V_BASE + current_v) {
                Some(c) => c,
                None => {
                    proof {
                        assert(false);
                    }
                    return AutomataResult::not_handled();
                },
            };
            let new_ch = match char_from_u32(V_BASE + v_idx) {
                Some(c) => c,
                None => {
                    proof {
                        assert(false);
                    }
                    return AutomataResult::not_handled();
                },
            };
            proof {
                vstd::utf8::char_u32_cast(current_ch, (V_BASE + current_v) as u32);
                vstd::utf8::char_u32_cast(new_ch, (V_BASE + v_idx) as u32);
            }
            if let Some(combined) = layout.combine(current_ch, new_ch) {
                if let Some(combined_idx) = jungseong_to_index(combined) {
                    self.prev_jungseong = Some(current_v);
                    self.buffer.jungseong = Some(combined_idx);
                    self.buffer.state = AutomataState::Jungseong2;
                    return AutomataResult::handled(None, self.buffer.to_string());
                }
            }
            let committed = self.commit_current();
            self.buffer.jungseong = Some(v_idx);
            self.buffer.state = AutomataState::Jungseong;
            AutomataResult::handled(committed, self.buffer.to_string())
        } else {
            self.buffer.jungseong = Some(v_idx);
            self.buffer.state = AutomataState::Jungseong;
            AutomataResult::handled(None, self.buffer.to_string())
        }
    }

    fn on_jongseong(&mut self, t_idx: u32, layout: &KeyboardLayout) -> (r: AutomataResult)
        requires
            old(self).wf(),
            1 <= t_idx < T_COUNT,
        ensures
            step_matches(*final(self), r, jaso_t_step(*old(self), t_idx, *layout)),
    {
        if self.buffer.choseong.is_some() && self.buffer.jungseong.is_none() {
            if self.auto_reorder && self.pending_jongseong.is_none() {
                self.pending_jongseong = Some(t_idx);
                return AutomataResult::handled(None, self.buffer.to_string());
            }
            let mut committed = self.commit_all();
            if let Some(c) = jongseong_to_compat(t_idx) {
                push_char(&mut committed, c);
            }
            return AutomataResult::handled(Some(committed), None);
        }
        if self.buffer.choseong.is_none() || self.buffer.jungseong.is_none() {
            let mut committed = self.commit_all();
            if let Some(c) = jongseong_to_compat(t_idx) {
                push_char(&mut committed, c);
            }
            return AutomataResult::handled(Some(committed), None);
        }
        if let Some(current_t) = self.buffer.jongseong {
            let current_ch = match char_from_u32(T_BASE + current_t) {
                Some(c) => c,
                None => {
                    proof {
                        assert(false);
                    }
                    return AutomataResult::not_handled();
                },
            };
            let new_ch = match char_from_u32(T_BASE + t_idx) {
                Some(c) => c,
                None => {
                    proof {
                        assert(false);
                    }
                    return AutomataResult::not_handled();
                },
            };
            proof {
                vstd::utf8::char_u32_cast(current_ch, (T_BASE + current_t) as u32);
                vstd::utf8::char_u32_cast(new_ch, (T_BASE + t_idx) as u32);
            }
            if let Some(combined) = layout.combine(current_ch, new_ch) {
                if let Some(combined_idx) = jongseong_to_index(combined) {
                    self.prev_jongseong = Some(current_t);
                    self.buffer.jongseong = Some(combined_idx);
                    self.buffer.state = AutomataState::Jongseong2;
                    return AutomataResult::handled(None, self.buffer.to_string());
                }
            }
            let mut committed = self.commit_all();
            if let Some(c) = jongseong_to_compat(t_idx) {
                push_char(&mut committed, c);
            }
            AutomataResult::handled(Some(committed), None)
        } else {
            self.buffer.jongseong = Some(t_idx);
            self.buffer.state = AutomataState::Jongseong;
            AutomataResult::handled(None, self.buffer.to_string())
        }
    }

    /// Removes one jamo, undoes one combination, or drops the pending
    /// final, exactly as `jaso_bs_step` describes. Unhandled exactly on an
    /// empty buffer, and every handled backspace brings the automaton
    /// strictly closer to empty.
    pub fn backspace(&mut self) -> (r: AutomataResult)
        requires
            old(self).wf(),
        ensures
            final(self).wf(),
            step_matches(*final(self), r, jaso_bs_step(*old(self))),
            !r.handled <==> old(self).buffer.state == AutomataState::Empty,
            old(self).buffer.state != AutomataState::Empty ==> final(self).bs_rank() < old(
                self,
            ).bs_rank(),
    {
        match self.buffer.state {
            AutomataState::Empty => AutomataResult::not_handled(),
            AutomataState::Jongseong2 => {
                if let Some(prev_t) = self.prev_jongseong {
                    self.buffer.jongseong = Some(prev_t);
                    self.prev_jongseong = None;
                    self.buffer.state = AutomataState::Jongseong;
                }
                AutomataResult::handled(None, self.buffer.to_string())
            },
            AutomataState::Jongseong => {
                self.buffer.jongseong = None;
                self.prev_jongseong = None;
                if self.prev_jungseong.is_some() {
                    self.buffer.state = AutomataState::Jungseong2;
                } else if self.buffer.jungseong.is_some() {
                    self.buffer.state = AutomataState::Jungseong;
                } else if self.buffer.choseong.is_some() {
                    self.buffer.state = AutomataState::Choseong;
                } else {
                    self.buffer.state = AutomataState::Empty;
                }
                AutomataResult::handled(None, self.buffer.to_string())
            },
            AutomataState::Jungseong2 => {
                if let Some(prev_v) = self.prev_jungseong {
                    self.buffer.jungseong = Some(prev_v);
                    self.prev_jungseong = None;
                    self.buffer.state = AutomataState::Jungseong;
                }
                AutomataResult::handled(None, self.buffer.to_string())
            },
            AutomataState::Jungseong => {
                self.buffer.jungseong = None;
                self.buffer.jongseong = None;
                self.prev_jungseong = None;
                self.prev_jongseong = None;
                if self.buffer.choseong.is_some() {
                    self.buffer.state = AutomataState::Choseong;
                } else {
                    self.buffer.state = AutomataState::Empty;
                }
                AutomataResult::handled(None, self.buffer.to_string())
            },
            AutomataState::Choseong => {
                if self.pending_jongseong.is_some() {
                    self.pending_jongseong = None;
                    return AutomataResult::handled(None, self.buffer.to_string());
                }
                if let Some(prev_l) = self.prev_choseong {
                    self.buffer.choseong = Some(prev_l);
                    self.prev_choseong = None;
                    return AutomataResult::handled(None, self.buffer.to_string());
                }
                self.buffer.reset();
                self.prev_choseong = None;
                self.prev_jungseong = None;
                self.prev_jongseong = None;
                AutomataResult::handled(None, None)
            },
        }
    }

    /// Commits whatever is composing, the pending final included, and
    /// returns to the empty state; after a flush nothing is composing,
    /// the state is empty and no pending final remains.
    pub fn flush(&mut self) -> (r: AutomataResult)
        requires
            old(self).wf(),
        ensures
            final(self).wf(),
            step_matches(*final(self), r, jaso_flush_step(*old(self))),
            *final(self) == old(self).spec_reset(),
            r.composing is None,
    {
        if matches!(self.buffer.state, AutomataState::Empty) && self.pending_jongseong.is_none() {
            return AutomataResult::handled(None, None);
        }
        let committed = self.commit_all();
        AutomataResult::handled(Some(committed), None)
    }

    /// The current composing text.
    pub fn composing_text(&self) -> (r: Option<String>)
        ensures
            r.deep_view() == self.buffer.spec_render(),
    {
        self.buffer.to_string()
    }

    /// The current automaton state.
    pub fn state(&self) -> (r: AutomataState)
        ensures
            r == self.buffer.state,
    {
        self.buffer.state
    }
}

/// Processing a character and then backspacing returns the automaton to
/// the state and composing text observed before, whenever the step handled
/// the character without committing anything — except where a correction
/// collapses information backspace does not rebuild: resolving or creating
/// state around the pending final with a vowel, the auto-reorder fold-in,
/// and a combination landing on an already-combined slot.
pub proof fn lemma_jaso_process_backspace(pre: JasoAutomata, ch: char, layout: KeyboardLayout)
    requires
        pre.wf(),
        jaso_step(pre, ch, layout).handled,
        jaso_step(pre, ch, layout).committed is None,
        spec_is_jungseong(ch as u32) ==> pre.pending_jongseong is None && (pre.buffer.state
            == AutomataState::Empty || pre.buffer.state == AutomataState::Choseong
            || pre.buffer.state == AutomataState::Jungseong),
        spec_is_choseong(ch as u32) ==> !(pre.buffer.choseong is None
            && pre.buffer.jungseong is Some),
        spec_is_jongseong(ch as u32) ==> pre.buffer.state != AutomataState::Jongseong2 && (
        pre.buffer.jongseong is Some ==> pre.buffer.state == AutomataState::Jongseong) && (
        pre.buffer.state == AutomataState::Jungseong ==> pre.prev_jungseong is None),
    ensures
        jaso_bs_step(jaso_step(pre, ch, layout).post).post.buffer.state == pre.buffer.state,
        jaso_bs_step(jaso_step(pre, ch, layout).post).composing == pre.spec_composing(),
{
}

} // verus!
