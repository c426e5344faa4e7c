//! Laws of the bridge: what holds of every request, stated over the values
//! that the contracts of the bridge speak of.

use crate::bridge::{
    emit_outcome, listen_step, script_deliveries, unlisten_step, BridgeView, EventErrorView,
    Response,
};
use crate::effect::EffectView;
use crate::registry::ListenerView;
use crate::router::{native_deliveries, subscriptions_to};
use crate::script::{
    lemma_listen_script_names_its_listener, lemma_unlisten_script_names_its_listener,
    listen_script, unlisten_script,
};
use vstd::prelude::*;

verus! {

/// The event name and the payload that a delivery carries; `None` for an
/// effect that delivers no event.
pub open spec fn delivered(effect: EffectView) -> Option<(Seq<char>, Option<Seq<char>>)> {
    match effect {
        EffectView::RunScript { .. } => None,
        EffectView::NotifyNative { event, payload, .. } => Some((event, payload)),
        EffectView::NotifyScript { event, payload, .. } => Some((event, payload)),
    }
}

/// The identifier that a Listen returns removes that listener and no other.
///
/// Handed to an Unlisten right after, it yields one script, run in the same
/// window, which is the removal script for that identifier; the removal
/// script for any other identifier is a different text; and the registry is
/// as it was before the Listen, but for the identifier itself.
pub proof fn lemma_returned_identifier_removes_its_listener(
    bridge: BridgeView,
    window: Seq<char>,
    event: Seq<char>,
    handler: Seq<char>,
    id: u64,
)
    ensures
        ({
            let listened = listen_step(bridge, window, event, handler, id);
            let removed = unlisten_step(listened.bridge, window, id);
            &&& listened.outcome.response == Ok::<Response, EventErrorView>(
                Response::ListenerId(id),
            )
            &&& removed.outcome.effects == seq![
                EffectView::RunScript { window, source: unlisten_script(bridge.listeners, id) },
            ]
            &&& forall|other: u64|
                other != id ==> #[trigger] unlisten_script(bridge.listeners, other)
                    != unlisten_script(bridge.listeners, id)
            &&& removed.bridge.registry == bridge.registry.remove(id)
            &&& removed.bridge.listeners == bridge.listeners
            &&& removed.bridge.router == bridge.router
        }),
{
    let listened = listen_step(bridge, window, event, handler, id);
    let removed = unlisten_step(listened.bridge, window, id);
    assert forall|other: u64| other != id implies #[trigger] unlisten_script(
        bridge.listeners,
        other,
    ) != unlisten_script(bridge.listeners, id) by {
        lemma_unlisten_script_names_its_listener(bridge.listeners, other, id);
    }
    assert(removed.bridge.registry =~= bridge.registry.remove(id));
}

/// Two listeners with different identifiers do not collide, even for the same
/// event in the same window.
///
/// After both Listens the registry holds a record under each identifier, the
/// two registration scripts are different texts, no other identifier has come
/// or gone, and where neither identifier was registered before, the registry
/// has grown by two records.
pub proof fn lemma_distinct_listeners_do_not_collide(
    bridge: BridgeView,
    window: Seq<char>,
    event: Seq<char>,
    first_handler: Seq<char>,
    second_handler: Seq<char>,
    first: u64,
    second: u64,
)
    requires
        bridge.registry.dom().finite(),
        first != second,
    ensures
        ({
            let one = listen_step(bridge, window, event, first_handler, first);
            let two = listen_step(one.bridge, window, event, second_handler, second);
            let record = ListenerView { event, window };
            &&& two.bridge.registry.contains_key(first)
            &&& two.bridge.registry.contains_key(second)
            &&& two.bridge.registry[first] == record
            &&& two.bridge.registry[second] == record
            &&& one.outcome.effects[0] != two.outcome.effects[0]
            &&& forall|other: u64|
                other != first && other != second ==> (two.bridge.registry.contains_key(other)
                    <==> bridge.registry.contains_key(other))
            &&& !bridge.registry.contains_key(first) && !bridge.registry.contains_key(second)
                ==> two.bridge.registry.len() == bridge.registry.len() + 2
        }),
{
    if listen_script(bridge.listeners, event, first, first_handler) == listen_script(
        bridge.listeners,
        event,
        second,
        second_handler,
    ) {
        lemma_listen_script_names_its_listener(
            bridge.listeners,
            event,
            first_handler,
            second_handler,
            first,
            second,
        );
    }
}

/// A broadcast reaches every native subscription to the event exactly once,
/// and then every window exactly once.
///
/// The effects are one native delivery for each subscription to the event, in
/// registration order, followed by one script delivery for each window, in
/// order, and the request succeeds.
pub proof fn lemma_broadcast_reaches_subscribers_and_windows(
    bridge: BridgeView,
    windows: Seq<Seq<char>>,
    event: Seq<char>,
    payload: Option<Seq<char>>,
)
    ensures
        ({
            let outcome = emit_outcome(bridge, windows, event, None, payload);
            let subscriptions = subscriptions_to(bridge.router, event);
            &&& outcome.response == Ok::<Response, EventErrorView>(Response::Done)
            &&& outcome.effects.len() == subscriptions.len() + windows.len()
            &&& forall|k: int|
                0 <= k < subscriptions.len() ==> #[trigger] outcome.effects[k]
                    == (EffectView::NotifyNative {
                    subscriber: subscriptions[k].subscriber,
                    event,
                    payload,
                })
            &&& forall|j: int|
                0 <= j < windows.len() ==> #[trigger] outcome.effects[subscriptions.len() + j]
                    == (EffectView::NotifyScript { window: windows[j], event, payload })
        }),
{
}

/// The native deliveries of a broadcast do not depend on the windows that are
/// open: whatever the windows, the effects begin with the same native
/// deliveries.
pub proof fn lemma_native_deliveries_ignore_windows(
    bridge: BridgeView,
    windows: Seq<Seq<char>>,
    others: Seq<Seq<char>>,
    event: Seq<char>,
    payload: Option<Seq<char>>,
)
    ensures
        ({
            let native = native_deliveries(bridge.router, event, payload);
            &&& emit_outcome(bridge, windows, event, None, payload).effects.take(
                native.len() as int,
            ) == native
            &&& emit_outcome(bridge, others, event, None, payload).effects.take(
                native.len() as int,
            ) == native
        }),
{
    let native = native_deliveries(bridge.router, event, payload);
    assert((native + script_deliveries(windows, event, payload)).take(native.len() as int)
        =~= native);
    assert((native + script_deliveries(others, event, payload)).take(native.len() as int)
        =~= native);
}

/// An Emit to a window that is not open still delivers to the native side.
///
/// The request fails with the error that names the window, and its effects
/// are the native deliveries of the event, the same as those of a broadcast,
/// with no script delivery.
pub proof fn lemma_missing_window_keeps_native_deliveries(
    bridge: BridgeView,
    windows: Seq<Seq<char>>,
    event: Seq<char>,
    label: Seq<char>,
    payload: Option<Seq<char>>,
)
    requires
        !windows.contains(label),
    ensures
        ({
            let outcome = emit_outcome(bridge, windows, event, Some(label), payload);
            &&& outcome.response == Err::<Response, EventErrorView>(
                EventErrorView::WindowNotFound { label },
            )
            &&& outcome.effects == native_deliveries(bridge.router, event, payload)
            &&& outcome.effects == emit_outcome(
                bridge,
                Seq::empty(),
                event,
                None,
                payload,
            ).effects
        }),
{
    assert(script_deliveries(Seq::empty(), event, payload) =~= Seq::empty());
    assert(native_deliveries(bridge.router, event, payload) + Seq::<EffectView>::empty()
        =~= native_deliveries(bridge.router, event, payload));
}

/// An Unlisten for an identifier that is not registered is no error and
/// leaves the bridge as it is; so does a second Unlisten for an identifier
/// that was just removed.
pub proof fn lemma_unlisten_unknown_changes_nothing(
    bridge: BridgeView,
    window: Seq<char>,
    id: u64,
)
    ensures
        unlisten_step(bridge, window, id).outcome.response == Ok::<Response, EventErrorView>(
            Response::Done,
        ),
        !bridge.registry.contains_key(id) ==> unlisten_step(bridge, window, id).bridge == bridge,
        unlisten_step(unlisten_step(bridge, window, id).bridge, window, id).bridge
            == unlisten_step(bridge, window, id).bridge,
{
    if !bridge.registry.contains_key(id) {
        assert(bridge.registry.remove(id) =~= bridge.registry);
    }
    assert(bridge.registry.remove(id).remove(id) =~= bridge.registry.remove(id));
}

/// The payload of an Emit passes through unchanged.
///
/// Every effect of an Emit is a delivery of the event with exactly the
/// payload that was given, absent where it was absent. Two Emits that differ
/// in their payload only, one of them absent and the other empty included,
/// differ in every delivery.
pub proof fn lemma_payload_passes_through(
    bridge: BridgeView,
    windows: Seq<Seq<char>>,
    event: Seq<char>,
    window_label: Option<Seq<char>>,
    payload: Option<Seq<char>>,
    other: Option<Seq<char>>,
)
    ensures
        ({
            let effects = emit_outcome(bridge, windows, event, window_label, payload).effects;
            let others = emit_outcome(bridge, windows, event, window_label, other).effects;
            &&& forall|i: int|
                0 <= i < effects.len() ==> delivered(#[trigger] effects[i]) == Some(
                    (event, payload),
                )
            &&& others.len() == effects.len()
            &&& payload != other ==> forall|i: int|
                0 <= i < effects.len() ==> #[trigger] effects[i] != others[i]
        }),
{
    let effects = emit_outcome(bridge, windows, event, window_label, payload).effects;
    let others = emit_outcome(bridge, windows, event, window_label, other).effects;
    assert forall|i: int| 0 <= i < others.len() implies delivered(#[trigger] others[i]) == Some(
        (event, other),
    ) by {}
}

} // verus!
