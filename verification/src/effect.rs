//! What an advance leaves for its caller to do.

use vstd::prelude::*;
use crate::entry::EntryView;
use crate::payload::{payload_of, PayloadView, RenderPayload};

verus! {

/// One thing for the caller of `advance` to do. None of them reports
/// back: a clipboard that refuses, or a window that cannot be found,
/// changes nothing.
#[derive(Debug, Clone, PartialEq, Eq)]
pub enum Effect {
    /// Put this text on the clipboard.
    SetClipboard(String),
    /// Ask for the focus to go to the game window.
    StealFocus,
    /// Show this panel.
    Render(RenderPayload),
    /// End the session.
    Quit,
}

/// An effect as plain values.
pub ghost enum EffectView {
    SetClipboard(Seq<char>),
    StealFocus,
    Render(PayloadView),
    Quit,
}

impl View for Effect {
    type V = EffectView;

    open spec fn view(&self) -> EffectView {
        match self {
            Effect::SetClipboard(text) => EffectView::SetClipboard(text@),
            Effect::StealFocus => EffectView::StealFocus,
            Effect::Render(payload) => EffectView::Render(payload@),
            Effect::Quit => EffectView::Quit,
        }
    }
}

/// A list of effects as plain values.
pub open spec fn effect_views(effects: Seq<Effect>) -> Seq<EffectView> {
    effects.map_values(|e: Effect| e@)
}

/// What a jump from `prev` to `next` asks for, in order: the name of
/// `next` on the clipboard, the focus where focus stealing is on, and the
/// panel.
pub open spec fn jump_effects(prev: EntryView, next: EntryView, focus_steal: bool) -> Seq<
    EffectView,
> {
    seq![EffectView::SetClipboard(next.system_name)] + (if focus_steal {
        seq![EffectView::StealFocus]
    } else {
        Seq::empty()
    }) + seq![EffectView::Render(payload_of(prev, next, focus_steal))]
}

/// How many of `effects` meet `pred`.
pub open spec fn count_where(effects: Seq<EffectView>, pred: spec_fn(EffectView) -> bool) -> nat {
    effects.filter(pred).len()
}

/// A jump asks for each thing once: once for the clipboard, once for the
/// panel, once for the focus where focus stealing is on and never where
/// it is off, and never to quit. The clipboard comes first and the panel
/// last.
pub proof fn lemma_jump_effects_once(prev: EntryView, next: EntryView, focus_steal: bool)
    ensures
        count_where(jump_effects(prev, next, focus_steal), |e: EffectView| e is SetClipboard) == 1,
        count_where(jump_effects(prev, next, focus_steal), |e: EffectView| e is Render) == 1,
        count_where(jump_effects(prev, next, focus_steal), |e: EffectView| e is StealFocus) == (
        if focus_steal {
            1nat
        } else {
            0nat
        }),
        count_where(jump_effects(prev, next, focus_steal), |e: EffectView| e is Quit) == 0,
        jump_effects(prev, next, focus_steal).first() == EffectView::SetClipboard(
            next.system_name,
        ),
        jump_effects(prev, next, focus_steal).last() == EffectView::Render(
            payload_of(prev, next, focus_steal),
        ),
{
    reveal_with_fuel(Seq::filter, 4);
}

} // verus!
