//! The effects that the bridge asks the window layer to carry out.

use vstd::prelude::*;

verus! {

/// One thing for the window layer to do. The bridge decides; the caller
/// performs the effects in the order in which they are listed and reports
/// nothing back.
#[derive(Debug, PartialEq, Eq)]
pub enum Effect {
    /// Run `source` in the script context of the window `window`.
    RunScript { window: String, source: String },
    /// Hand the event to the native subscriber `subscriber`.
    NotifyNative { subscriber: u64, event: String, payload: Option<String> },
    /// Hand the event to the script side of the window `window`.
    NotifyScript { window: String, event: String, payload: Option<String> },
}

/// The mathematical value of an [`Effect`].
pub enum EffectView {
    RunScript { window: Seq<char>, source: Seq<char> },
    NotifyNative { subscriber: u64, event: Seq<char>, payload: Option<Seq<char>> },
    NotifyScript { window: Seq<char>, event: Seq<char>, payload: Option<Seq<char>> },
}

/// The value of an optional text, such as a payload or a window label: an
/// absent text stays apart from the empty text.
pub open spec fn option_view(text: Option<String>) -> Option<Seq<char>> {
    match text {
        Some(text) => Some(text@),
        None => None,
    }
}

impl View for Effect {
    type V = EffectView;

    open spec fn view(&self) -> EffectView {
        match *self {
            Effect::RunScript { window, source } => EffectView::RunScript {
                window: window@,
                source: source@,
            },
            Effect::NotifyNative { subscriber, event, payload } => EffectView::NotifyNative {
                subscriber,
                event: event@,
                payload: option_view(payload),
            },
            Effect::NotifyScript { window, event, payload } => EffectView::NotifyScript {
                window: window@,
                event: event@,
                payload: option_view(payload),
            },
        }
    }
}

/// The values of a list of effects, in order.
pub open spec fn effects_view(effects: Seq<Effect>) -> Seq<EffectView> {
    effects.map_values(|e: Effect| e@)
}

/// A copy of an optional payload, character for character.
pub fn copy_payload(payload: &Option<String>) -> (copy: Option<String>)
    ensures
        option_view(copy) == option_view(*payload),
{
    match payload {
        Some(text) => Some(text.clone()),
        None => None,
    }
}

} // verus!
