use event_bridge::bridge::{window_is_open, Cmd, EventBridge, EventError, Outcome, Response};
use event_bridge::effect::{copy_payload, Effect};
use event_bridge::script::{listen_js, unlisten_js};

fn labels(names: &[&str]) -> Vec<String> {
    names.iter().map(|n| n.to_string()).collect()
}

fn native(subscriber: u64, event: &str, payload: Option<&str>) -> Effect {
    Effect::NotifyNative {
        subscriber,
        event: event.to_string(),
        payload: payload.map(|p| p.to_string()),
    }
}

fn script(window: &str, event: &str, payload: Option<&str>) -> Effect {
    Effect::NotifyScript {
        window: window.to_string(),
        event: event.to_string(),
        payload: payload.map(|p| p.to_string()),
    }
}

fn run_script(window: &str, source: String) -> Effect {
    Effect::RunScript { window: window.to_string(), source }
}

#[test]
fn new_bridge_has_no_listeners_and_no_subscribers() {
    let bridge = EventBridge::new("store".to_string());
    assert_eq!(bridge.listeners_object_name, "store");
    assert_eq!(bridge.registry.len(), 0);
    assert_eq!(bridge.router.len(), 0);
}

#[test]
fn window_is_open_compares_whole_labels() {
    let windows = labels(&["main", "settings"]);
    assert!(window_is_open(&windows, &"main".to_string()));
    assert!(window_is_open(&windows, &"settings".to_string()));
    assert!(!window_is_open(&windows, &"set".to_string()));
    assert!(!window_is_open(&windows, &"Main".to_string()));
    assert!(!window_is_open(&labels(&[]), &"main".to_string()));
}

#[test]
fn copy_payload_keeps_the_text() {
    assert_eq!(copy_payload(&None), None);
    assert_eq!(copy_payload(&Some(String::new())), Some(String::new()));
    assert_eq!(copy_payload(&Some("{\"pct\":50}".to_string())), Some("{\"pct\":50}".to_string()));
}

#[test]
fn listen_registers_and_asks_for_the_registration_script() {
    let mut bridge = EventBridge::new("store".to_string());
    let outcome = bridge.listen(
        &"main".to_string(),
        "download-progress".to_string(),
        "onProgress".to_string(),
        42,
    );
    assert_eq!(outcome.response, Ok(Response::ListenerId(42)));
    assert_eq!(
        outcome.effects,
        vec![run_script(
            "main",
            listen_js("store", "download-progress".to_string(), 42, "onProgress".to_string()),
        )]
    );
    assert_eq!(bridge.registry.len(), 1);
    let record = bridge.registry.get(42).unwrap();
    assert_eq!(record.event, "download-progress");
    assert_eq!(record.window, "main");
}

#[test]
fn listen_example_yields_the_script_for_identifier_42() {
    let mut bridge = EventBridge::new("store".to_string());
    let outcome = bridge.listen(
        &"main".to_string(),
        "download-progress".to_string(),
        "onProgress".to_string(),
        42,
    );
    let expected = "if (window['store'] === void 0) {\n      window['store'] = Object.create(null)\n    }\n    if (window['store']['download-progress'] === void 0) {\n      window['store']['download-progress'] = []\n    }\n    window['store']['download-progress'].push({\n      id: 42,\n      handler: window['onProgress']\n    });\n  ";
    assert_eq!(outcome.effects, vec![run_script("main", expected.to_string())]);
}

#[test]
fn emit_example_reaches_every_subscriber_and_every_window() {
    let mut bridge = EventBridge::new("store".to_string());
    bridge.router.subscribe(1, "download-progress".to_string());
    bridge.router.subscribe(2, "download-progress".to_string());
    bridge.listen(
        &"main".to_string(),
        "download-progress".to_string(),
        "onProgress".to_string(),
        42,
    );
    let outcome = bridge.emit(
        &labels(&["main", "settings"]),
        &"download-progress".to_string(),
        &None,
        &Some("{\"pct\":50}".to_string()),
    );
    assert_eq!(outcome.response, Ok(Response::Done));
    assert_eq!(
        outcome.effects,
        vec![
            native(1, "download-progress", Some("{\"pct\":50}")),
            native(2, "download-progress", Some("{\"pct\":50}")),
            script("main", "download-progress", Some("{\"pct\":50}")),
            script("settings", "download-progress", Some("{\"pct\":50}")),
        ]
    );
}

#[test]
fn two_listens_for_one_event_in_one_window_do_not_collide() {
    let mut bridge = EventBridge::new("store".to_string());
    let window = "main".to_string();
    let first = bridge.listen(&window, "tick".to_string(), "onTick".to_string(), 7);
    let second = bridge.listen(&window, "tick".to_string(), "onTick".to_string(), 8);
    assert_eq!(first.response, Ok(Response::ListenerId(7)));
    assert_eq!(second.response, Ok(Response::ListenerId(8)));
    assert_ne!(first.effects, second.effects);
    assert_eq!(bridge.registry.len(), 2);
    assert_eq!(bridge.registry.get(7).unwrap().event, "tick");
    assert_eq!(bridge.registry.get(8).unwrap().event, "tick");
}

#[test]
fn unlisten_after_listen_names_the_returned_identifier() {
    let mut bridge = EventBridge::new("store".to_string());
    let window = "main".to_string();
    bridge.listen(&window, "tock".to_string(), "onTock".to_string(), 5);
    let listened = bridge.listen(&window, "tick".to_string(), "onTick".to_string(), 77);
    let id = match listened.response {
        Ok(Response::ListenerId(id)) => id,
        other => panic!("no identifier: {:?}", other),
    };
    let removed = bridge.unlisten(&window, id);
    assert_eq!(removed.response, Ok(Response::Done));
    assert_eq!(removed.effects, vec![run_script("main", unlisten_js("store", 77))]);
    assert!(!bridge.registry.contains(77));
    assert!(bridge.registry.contains(5));
    assert_eq!(bridge.registry.len(), 1);
}

#[test]
fn unlisten_of_an_unknown_identifier_is_no_error() {
    let mut bridge = EventBridge::new("store".to_string());
    let window = "main".to_string();
    bridge.listen(&window, "tick".to_string(), "onTick".to_string(), 1);
    let outcome = bridge.unlisten(&window, 2);
    assert_eq!(outcome.response, Ok(Response::Done));
    assert_eq!(outcome.effects, vec![run_script("main", unlisten_js("store", 2))]);
    assert_eq!(bridge.registry.len(), 1);
    assert_eq!(bridge.registry.get(1).unwrap().event, "tick");
}

#[test]
fn unlisten_twice_is_no_error() {
    let mut bridge = EventBridge::new("store".to_string());
    let window = "main".to_string();
    bridge.listen(&window, "tick".to_string(), "onTick".to_string(), 1);
    assert_eq!(bridge.unlisten(&window, 1).response, Ok(Response::Done));
    assert_eq!(bridge.unlisten(&window, 1).response, Ok(Response::Done));
    assert_eq!(bridge.registry.len(), 0);
}

#[test]
fn unlisten_may_come_from_another_window() {
    let mut bridge = EventBridge::new("store".to_string());
    bridge.listen(&"main".to_string(), "tick".to_string(), "onTick".to_string(), 1);
    let outcome = bridge.unlisten(&"settings".to_string(), 1);
    assert_eq!(outcome.effects, vec![run_script("settings", unlisten_js("store", 1))]);
    assert!(!bridge.registry.contains(1));
}

#[test]
fn broadcast_delivers_once_per_subscriber_whatever_the_windows() {
    let mut bridge = EventBridge::new("store".to_string());
    bridge.router.subscribe(1, "tick".to_string());
    bridge.router.subscribe(2, "tock".to_string());
    bridge.router.subscribe(3, "tick".to_string());
    let event = "tick".to_string();
    for windows in [labels(&[]), labels(&["main"]), labels(&["main", "a", "b", "c"])] {
        let outcome = bridge.emit(&windows, &event, &None, &None);
        assert_eq!(outcome.response, Ok(Response::Done));
        assert_eq!(outcome.effects.len(), 2 + windows.len());
        assert_eq!(outcome.effects[..2], [native(1, "tick", None), native(3, "tick", None)]);
        for (j, window) in windows.iter().enumerate() {
            assert_eq!(outcome.effects[2 + j], script(window, "tick", None));
        }
    }
}

#[test]
fn broadcast_without_subscribers_and_windows_has_no_effect() {
    let bridge = EventBridge::new("store".to_string());
    let outcome = bridge.emit(&labels(&[]), &"tick".to_string(), &None, &None);
    assert_eq!(outcome, Outcome { effects: vec![], response: Ok(Response::Done) });
}

#[test]
fn emit_to_one_window_delivers_to_that_window_only() {
    let mut bridge = EventBridge::new("store".to_string());
    bridge.router.subscribe(1, "tick".to_string());
    let outcome = bridge.emit(
        &labels(&["main", "settings", "about"]),
        &"tick".to_string(),
        &Some("settings".to_string()),
        &Some("now".to_string()),
    );
    assert_eq!(outcome.response, Ok(Response::Done));
    assert_eq!(
        outcome.effects,
        vec![native(1, "tick", Some("now")), script("settings", "tick", Some("now"))]
    );
}

#[test]
fn emit_to_a_missing_window_fails_after_the_native_deliveries() {
    let mut bridge = EventBridge::new("store".to_string());
    bridge.router.subscribe(1, "tick".to_string());
    bridge.router.subscribe(2, "tick".to_string());
    let outcome = bridge.emit(
        &labels(&["main"]),
        &"tick".to_string(),
        &Some("gone".to_string()),
        &Some("now".to_string()),
    );
    assert_eq!(outcome.response, Err(EventError::WindowNotFound { label: "gone".to_string() }));
    assert_eq!(
        outcome.effects,
        vec![native(1, "tick", Some("now")), native(2, "tick", Some("now"))]
    );
}

#[test]
fn emit_to_a_missing_window_without_subscribers_has_no_effect() {
    let bridge = EventBridge::new("store".to_string());
    let outcome =
        bridge.emit(&labels(&[]), &"tick".to_string(), &Some("main".to_string()), &None);
    assert_eq!(outcome.response, Err(EventError::WindowNotFound { label: "main".to_string() }));
    assert_eq!(outcome.effects, vec![]);
}

#[test]
fn emit_passes_the_payload_through_unchanged() {
    let mut bridge = EventBridge::new("store".to_string());
    bridge.router.subscribe(1, "tick".to_string());
    let windows = labels(&["main"]);
    let event = "tick".to_string();
    for payload in ["{\"pct\":50}", "", " ", "\"quoted\" \\ \n", "\u{1f980} \u{e9}"] {
        let outcome = bridge.emit(&windows, &event, &None, &Some(payload.to_string()));
        assert_eq!(
            outcome.effects,
            vec![native(1, "tick", Some(payload)), script("main", "tick", Some(payload))]
        );
    }
}

#[test]
fn emit_keeps_no_payload_apart_from_the_empty_payload() {
    let mut bridge = EventBridge::new("store".to_string());
    bridge.router.subscribe(1, "tick".to_string());
    let windows = labels(&["main"]);
    let event = "tick".to_string();
    let absent = bridge.emit(&windows, &event, &None, &None);
    let empty = bridge.emit(&windows, &event, &None, &Some(String::new()));
    assert_eq!(absent.effects, vec![native(1, "tick", None), script("main", "tick", None)]);
    assert_eq!(empty.effects, vec![native(1, "tick", Some("")), script("main", "tick", Some(""))]);
    assert_ne!(absent.effects, empty.effects);
}

#[test]
fn emit_leaves_the_bridge_as_it_is() {
    let mut bridge = EventBridge::new("store".to_string());
    bridge.router.subscribe(1, "tick".to_string());
    bridge.listen(&"main".to_string(), "tick".to_string(), "onTick".to_string(), 3);
    bridge.emit(&labels(&["main"]), &"tick".to_string(), &None, &None);
    assert_eq!(bridge.registry.len(), 1);
    assert_eq!(bridge.router.len(), 1);
    assert_eq!(bridge.listeners_object_name, "store");
}

#[test]
fn run_listen_returns_the_identifier_that_it_registered() {
    let mut bridge = EventBridge::new("store".to_string());
    let cmd = Cmd::Listen { event: "tick".to_string(), handler: "onTick".to_string() };
    let outcome = cmd.run(&mut bridge, &"main".to_string(), &labels(&["main"]));
    let id = match outcome.response {
        Ok(Response::ListenerId(id)) => id,
        other => panic!("no identifier: {:?}", other),
    };
    assert_eq!(
        outcome.effects,
        vec![run_script("main", listen_js("store", "tick".to_string(), id, "onTick".to_string()))]
    );
    assert_eq!(bridge.registry.len(), 1);
    let record = bridge.registry.get(id).unwrap();
    assert_eq!(record.event, "tick");
    assert_eq!(record.window, "main");
}

#[test]
fn run_listen_draws_identifiers_that_differ() {
    let mut bridge = EventBridge::new("store".to_string());
    let mut ids = Vec::new();
    for _ in 0..16 {
        let cmd = Cmd::Listen { event: "tick".to_string(), handler: "onTick".to_string() };
        match cmd.run(&mut bridge, &"main".to_string(), &labels(&["main"])).response {
            Ok(Response::ListenerId(id)) => ids.push(id),
            other => panic!("no identifier: {:?}", other),
        }
    }
    assert!(ids.iter().any(|id| *id != ids[0]));
}

#[test]
fn run_unlisten_removes_the_listener() {
    let mut bridge = EventBridge::new("store".to_string());
    bridge.listen(&"main".to_string(), "tick".to_string(), "onTick".to_string(), 11);
    let outcome =
        Cmd::Unlisten { event_id: 11 }.run(&mut bridge, &"main".to_string(), &labels(&["main"]));
    assert_eq!(
        outcome,
        Outcome {
            effects: vec![run_script("main", unlisten_js("store", 11))],
            response: Ok(Response::Done),
        }
    );
    assert_eq!(bridge.registry.len(), 0);
}

#[test]
fn run_emit_broadcasts_where_no_window_is_named() {
    let mut bridge = EventBridge::new("store".to_string());
    bridge.router.subscribe(4, "tick".to_string());
    let cmd = Cmd::Emit { event: "tick".to_string(), window_label: None, payload: None };
    let outcome = cmd.run(&mut bridge, &"main".to_string(), &labels(&["main", "settings"]));
    assert_eq!(
        outcome,
        Outcome {
            effects: vec![
                native(4, "tick", None),
                script("main", "tick", None),
                script("settings", "tick", None),
            ],
            response: Ok(Response::Done),
        }
    );
}

#[test]
fn run_emit_reports_a_missing_window() {
    let mut bridge = EventBridge::new("store".to_string());
    bridge.router.subscribe(4, "tick".to_string());
    let cmd = Cmd::Emit {
        event: "tick".to_string(),
        window_label: Some("gone".to_string()),
        payload: Some("x".to_string()),
    };
    let outcome = cmd.run(&mut bridge, &"main".to_string(), &labels(&["main"]));
    assert_eq!(
        outcome,
        Outcome {
            effects: vec![native(4, "tick", Some("x"))],
            response: Err(EventError::WindowNotFound { label: "gone".to_string() }),
        }
    );
}
