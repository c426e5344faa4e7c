//! The bridge: the state that the host keeps for its windows, and the three
//! requests that script code can make of it.

use crate::effect::{copy_payload, effects_view, option_view, Effect, EffectView};
use crate::ident::next_id;
use crate::registry::{ListenerRegistry, ListenerView};
use crate::router::{native_deliveries, NativeRouter, SubscriptionView};
use crate::script::{listen_js, listen_script, unlisten_js, unlisten_script};
use vstd::prelude::*;

verus! {

/// A request, as decoded from the wire.
#[derive(Debug, PartialEq, Eq)]
pub enum Cmd {
    /// Listen to an event.
    Listen { event: String, handler: String },
    /// Stop listening: remove the listener `event_id`.
    Unlisten { event_id: u64 },
    /// Emit an event to the native subscribers, and to the script side of the
    /// window `window_label`, or of every open window where it is `None`.
    Emit { event: String, window_label: Option<String>, payload: Option<String> },
}

/// The mathematical value of a [`Cmd`].
pub enum CmdView {
    Listen { event: Seq<char>, handler: Seq<char> },
    Unlisten { event_id: u64 },
    Emit { event: Seq<char>, window_label: Option<Seq<char>>, payload: Option<Seq<char>> },
}

impl View for Cmd {
    type V = CmdView;

    open spec fn view(&self) -> CmdView {
        match *self {
            Cmd::Listen { event, handler } => CmdView::Listen { event: event@, handler: handler@ },
            Cmd::Unlisten { event_id } => CmdView::Unlisten { event_id },
            Cmd::Emit { event, window_label, payload } => CmdView::Emit {
                event: event@,
                window_label: option_view(window_label),
                payload: option_view(payload),
            },
        }
    }
}

/// What a request is answered with.
#[derive(Debug, Clone, Copy, PartialEq, Eq)]
pub enum Response {
    /// The identifier of the listener that was registered.
    ListenerId(u64),
    /// Nothing to report.
    Done,
}

/// Why a request failed.
#[derive(Debug, PartialEq, Eq)]
pub enum EventError {
    /// No open window has the label `label`.
    WindowNotFound { label: String },
}

/// The mathematical value of an [`EventError`].
pub enum EventErrorView {
    WindowNotFound { label: Seq<char> },
}

impl View for EventError {
    type V = EventErrorView;

    open spec fn view(&self) -> EventErrorView {
        match *self {
            EventError::WindowNotFound { label } => EventErrorView::WindowNotFound { label: label@ },
        }
    }
}

/// The answer to a request: the effects to carry out, in order, and the
/// response for the requester. A failed request may still have effects.
#[derive(Debug, PartialEq, Eq)]
pub struct Outcome {
    pub effects: Vec<Effect>,
    pub response: Result<Response, EventError>,
}

/// The mathematical value of an [`Outcome`].
pub struct OutcomeView {
    pub effects: Seq<EffectView>,
    pub response: Result<Response, EventErrorView>,
}

impl View for Outcome {
    type V = OutcomeView;

    open spec fn view(&self) -> OutcomeView {
        OutcomeView {
            effects: effects_view(self.effects@),
            response: match self.response {
                Ok(response) => Ok(response),
                Err(error) => Err(error@),
            },
        }
    }
}

/// The labels of a list of windows, in order.
pub open spec fn labels_view(windows: Seq<String>) -> Seq<Seq<char>> {
    windows.map_values(|w: String| w@)
}

/// Whether `label` is the label of one of `windows`.
pub fn window_is_open(windows: &Vec<String>, label: &String) -> (open: bool)
    ensures
        open == labels_view(windows@).contains(label@),
{
    let mut i: usize = 0;
    while i < windows.len()
        invariant
            i <= windows.len(),
            forall|j: int| 0 <= j < i ==> labels_view(windows@)[j] != label@,
        decreases windows.len() - i,
    {
        if windows[i] == *label {
            assert(labels_view(windows@)[i as int] == label@);
            return true;
        }
        i += 1;
    }
    false
}

/// The state that the host keeps for its windows.
pub struct EventBridge {
    /// The name of the global object that holds the listeners in each
    /// window's script context.
    pub listeners_object_name: String,
    /// The script listeners that were registered and not removed.
    pub registry: ListenerRegistry,
    /// The native subscribers.
    pub router: NativeRouter,
}

/// The mathematical value of an [`EventBridge`].
pub struct BridgeView {
    pub listeners: Seq<char>,
    pub registry: Map<u64, ListenerView>,
    pub router: Seq<SubscriptionView>,
}

impl View for EventBridge {
    type V = BridgeView;

    open spec fn view(&self) -> BridgeView {
        BridgeView {
            listeners: self.listeners_object_name@,
            registry: self.registry@,
            router: self.router@,
        }
    }
}

/// A bridge after a request, with the answer to the request.
pub struct StepView {
    pub bridge: BridgeView,
    pub outcome: OutcomeView,
}

/// Listen: the script context of the requesting window is told to register
/// the listener `id`, the registry records it, and the requester gets `id`.
pub open spec fn listen_step(
    bridge: BridgeView,
    window: Seq<char>,
    event: Seq<char>,
    handler: Seq<char>,
    id: u64,
) -> StepView {
    StepView {
        bridge: BridgeView {
            registry: bridge.registry.insert(id, ListenerView { event, window }),
            ..bridge
        },
        outcome: OutcomeView {
            effects: seq![
                EffectView::RunScript {
                    window,
                    source: listen_script(bridge.listeners, event, id, handler),
                },
            ],
            response: Ok(Response::ListenerId(id)),
        },
    }
}

/// Unlisten: the script context of the requesting window is told to remove
/// the listener `event_id`, whatever event it listens to, and the registry
/// forgets it. An identifier that the registry does not hold is no error.
pub open spec fn unlisten_step(bridge: BridgeView, window: Seq<char>, event_id: u64) -> StepView {
    StepView {
        bridge: BridgeView { registry: bridge.registry.remove(event_id), ..bridge },
        outcome: OutcomeView {
            effects: seq![
                EffectView::RunScript {
                    window,
                    source: unlisten_script(bridge.listeners, event_id),
                },
            ],
            response: Ok(Response::Done),
        },
    }
}

/// The script deliveries of a broadcast: one for each window, in order, each
/// with the event name and the payload as given.
pub open spec fn script_deliveries(
    windows: Seq<Seq<char>>,
    event: Seq<char>,
    payload: Option<Seq<char>>,
) -> Seq<EffectView> {
    windows.map_values(|window: Seq<char>| EffectView::NotifyScript { window, event, payload })
}

/// Emit: the native deliveries come first, whatever follows. Then the script
/// side: the one window that `window_label` names, or every open window
/// where it is `None`. A label that no open window has fails the request and
/// leaves the native deliveries in place.
pub open spec fn emit_outcome(
    bridge: BridgeView,
    windows: Seq<Seq<char>>,
    event: Seq<char>,
    window_label: Option<Seq<char>>,
    payload: Option<Seq<char>>,
) -> OutcomeView {
    let native = native_deliveries(bridge.router, event, payload);
    match window_label {
        Some(label) => if windows.contains(label) {
            OutcomeView {
                effects: native.push(EffectView::NotifyScript { window: label, event, payload }),
                response: Ok(Response::Done),
            }
        } else {
            OutcomeView {
                effects: native,
                response: Err(EventErrorView::WindowNotFound { label }),
            }
        },
        None => OutcomeView {
            effects: native + script_deliveries(windows, event, payload),
            response: Ok(Response::Done),
        },
    }
}

/// The bridge after the request `cmd` from the window `window`, and the
/// answer to it, where `windows` are the labels of the open windows and `id`
/// is the identifier that a Listen registers.
pub open spec fn step(
    bridge: BridgeView,
    cmd: CmdView,
    windows: Seq<Seq<char>>,
    window: Seq<char>,
    id: u64,
) -> StepView {
    match cmd {
        CmdView::Listen { event, handler } => listen_step(bridge, window, event, handler, id),
        CmdView::Unlisten { event_id } => unlisten_step(bridge, window, event_id),
        CmdView::Emit { event, window_label, payload } => StepView {
            bridge,
            outcome: emit_outcome(bridge, windows, event, window_label, payload),
        },
    }
}

impl EventBridge {
    /// A bridge without listeners or subscribers, for windows whose listener
    /// store is the global object named `listeners_object_name`.
    pub fn new(listeners_object_name: String) -> (bridge: Self)
        ensures
            bridge@ == (BridgeView {
                listeners: listeners_object_name@,
                registry: Map::empty(),
                router: Seq::empty(),
            }),
    {
        EventBridge {
            listeners_object_name,
            registry: ListenerRegistry::new(),
            router: NativeRouter::new(),
        }
    }

    /// Registers the listener `id` for `event` on behalf of the window
    /// `window`, bound to the script function named `handler`.
    ///
    /// `window` is the label of the window that made the request. The caller
    /// holds that window, so the bridge does not look it up.
    pub fn listen(&mut self, window: &String, event: String, handler: String, id: u64) -> (outcome:
        Outcome)
        ensures
            (StepView { bridge: final(self)@, outcome: outcome@ }) == listen_step(
                old(self)@,
                window@,
                event@,
                handler@,
                id,
            ),
    {
        let source = listen_js(self.listeners_object_name.as_str(), event.clone(), id, handler);
        let mut effects: Vec<Effect> = Vec::new();
        effects.push(Effect::RunScript { window: window.clone(), source });
        self.registry.register(id, event, window.clone());
        let outcome = Outcome { effects, response: Ok(Response::ListenerId(id)) };
        assert(outcome@.effects =~= seq![
            EffectView::RunScript {
                window: window@,
                source: listen_script(old(self)@.listeners, event@, id, handler@),
            },
        ]);
        outcome
    }

    /// Removes the listener `event_id` on behalf of the window `window`, the
    /// label of the window that made the request.
    pub fn unlisten(&mut self, window: &String, event_id: u64) -> (outcome: Outcome)
        ensures
            (StepView { bridge: final(self)@, outcome: outcome@ }) == unlisten_step(
                old(self)@,
                window@,
                event_id,
            ),
    {
        let source = unlisten_js(self.listeners_object_name.as_str(), event_id);
        let mut effects: Vec<Effect> = Vec::new();
        effects.push(Effect::RunScript { window: window.clone(), source });
        self.registry.unregister(event_id);
        let outcome = Outcome { effects, response: Ok(Response::Done) };
        assert(outcome@.effects =~= seq![
            EffectView::RunScript {
                window: window@,
                source: unlisten_script(old(self)@.listeners, event_id),
            },
        ]);
        outcome
    }

    /// Emits `event` with `payload`: to the native subscribers first, then to
    /// the script side of the window `window_label`, or of every window in
    /// `windows` where it is `None`.
    pub fn emit(
        &self,
        windows: &Vec<String>,
        event: &String,
        window_label: &Option<String>,
        payload: &Option<String>,
    ) -> (outcome: Outcome)
        ensures
            outcome@ == emit_outcome(
                self@,
                labels_view(windows@),
                event@,
                option_view(*window_label),
                option_view(*payload),
            ),
    {
        let mut effects = self.router.trigger(event, payload);
        let ghost native = effects_view(effects@);
        match window_label {
            Some(label) => {
                if !window_is_open(windows, label) {
                    return Outcome {
                        effects,
                        response: Err(EventError::WindowNotFound { label: label.clone() }),
                    };
                }
                effects.push(
                    Effect::NotifyScript {
                        window: label.clone(),
                        event: event.clone(),
                        payload: copy_payload(payload),
                    },
                );
                assert(effects_view(effects@) =~= native.push(
                    EffectView::NotifyScript {
                        window: label@,
                        event: event@,
                        payload: option_view(*payload),
                    },
                ));
                Outcome { effects, response: Ok(Response::Done) }
            },
            None => {
                let mut i: usize = 0;
                while i < windows.len()
                    invariant
                        i <= windows.len(),
                        effects_view(effects@) == native + script_deliveries(
                            labels_view(windows@).take(i as int),
                            event@,
                            option_view(*payload),
                        ),
                    decreases windows.len() - i,
                {
                    let ghost before = effects_view(effects@);
                    let ghost delivery = EffectView::NotifyScript {
                        window: windows[i as int]@,
                        event: event@,
                        payload: option_view(*payload),
                    };
                    effects.push(
                        Effect::NotifyScript {
                            window: windows[i].clone(),
                            event: event.clone(),
                            payload: copy_payload(payload),
                        },
                    );
                    assert(effects_view(effects@) =~= before.push(delivery));
                    assert(labels_view(windows@).take(i + 1) =~= labels_view(windows@).take(
                        i as int,
                    ).push(windows[i as int]@));
                    assert(script_deliveries(
                        labels_view(windows@).take(i + 1),
                        event@,
                        option_view(*payload),
                    ) =~= script_deliveries(
                        labels_view(windows@).take(i as int),
                        event@,
                        option_view(*payload),
                    ).push(delivery));
                    i += 1;
                }
                assert(labels_view(windows@).take(i as int) =~= labels_view(windows@));
                Outcome { effects, response: Ok(Response::Done) }
            },
        }
    }
}

impl Cmd {
    /// Carries out the request on behalf of the window `window`, where
    /// `windows` are the labels of the open windows. A Listen registers an
    /// identifier drawn at random; everything else is decided by the request
    /// and the bridge.
    pub fn run(self, bridge: &mut EventBridge, window: &String, windows: &Vec<String>) -> (outcome:
        Outcome)
        ensures
            exists|id: u64|
                (StepView { bridge: final(bridge)@, outcome: outcome@ }) == #[trigger] step(
                    old(bridge)@,
                    self@,
                    labels_view(windows@),
                    window@,
                    id,
                ),
            !(self is Listen) ==> (StepView { bridge: final(bridge)@, outcome: outcome@ }) == step(
                old(bridge)@,
                self@,
                labels_view(windows@),
                window@,
                0,
            ),
    {
        match self {
            Cmd::Listen { event, handler } => {
                let id = next_id();
                let outcome = bridge.listen(window, event, handler, id);
                assert((StepView { bridge: bridge@, outcome: outcome@ }) == step(
                    old(bridge)@,
                    self@,
                    labels_view(windows@),
                    window@,
                    id,
                ));
                outcome
            },
            Cmd::Unlisten { event_id } => {
                bridge.unlisten(window, event_id)
            },
            Cmd::Emit { event, window_label, payload } => {
                bridge.emit(windows, &event, &window_label, &payload)
            },
        }
    }
}

} // verus!
