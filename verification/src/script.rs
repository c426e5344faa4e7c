//! Rendering of the script fragments that register and remove a listener in a
//! window's script context.

use vstd::prelude::*;
use vstd::string::*;

verus! {

/// The character that stands for the decimal digit `d`.
pub open spec fn digit_char(d: nat) -> char {
    if d == 0 {
        '0'
    } else if d == 1 {
        '1'
    } else if d == 2 {
        '2'
    } else if d == 3 {
        '3'
    } else if d == 4 {
        '4'
    } else if d == 5 {
        '5'
    } else if d == 6 {
        '6'
    } else if d == 7 {
        '7'
    } else if d == 8 {
        '8'
    } else {
        '9'
    }
}

/// The decimal numeral of `n`: most significant digit first, no sign, no
/// leading zero except for zero itself.
pub open spec fn decimal(n: nat) -> Seq<char>
    decreases n,
{
    if n < 10 {
        seq![digit_char(n)]
    } else {
        decimal(n / 10).push(digit_char(n % 10))
    }
}

/// The one-character text of a decimal digit.
fn digit_str(d: u64) -> (s: &'static str)
    requires
        d < 10,
    ensures
        s@ == seq![digit_char(d as nat)],
{
    proof {
        reveal_strlit("0");
        reveal_strlit("1");
        reveal_strlit("2");
        reveal_strlit("3");
        reveal_strlit("4");
        reveal_strlit("5");
        reveal_strlit("6");
        reveal_strlit("7");
        reveal_strlit("8");
        reveal_strlit("9");
    }
    let s = if d == 0 {
        "0"
    } else if d == 1 {
        "1"
    } else if d == 2 {
        "2"
    } else if d == 3 {
        "3"
    } else if d == 4 {
        "4"
    } else if d == 5 {
        "5"
    } else if d == 6 {
        "6"
    } else if d == 7 {
        "7"
    } else if d == 8 {
        "8"
    } else {
        "9"
    };
    assert(s@ =~= seq![digit_char(d as nat)]);
    s
}

/// Appends the decimal numeral of `n` to `out`.
pub fn push_decimal(out: &mut String, n: u64)
    ensures
        final(out)@ == old(out)@ + decimal(n as nat),
    decreases n,
{
    if n >= 10 {
        push_decimal(out, n / 10);
    }
    out.append(digit_str(n % 10));
    assert(out@ =~= old(out)@ + decimal(n as nat));
}

/// A decimal numeral has at least one character.
pub proof fn lemma_decimal_nonempty(n: nat)
    ensures
        decimal(n).len() >= 1,
    decreases n,
{
    if n >= 10 {
        lemma_decimal_nonempty(n / 10);
    }
}

/// A decimal numeral holds decimal digits only.
pub proof fn lemma_decimal_holds_digits(n: nat)
    ensures
        forall|i: int| 0 <= i < decimal(n).len() ==> '0' <= #[trigger] decimal(n)[i] <= '9',
    decreases n,
{
    if n >= 10 {
        lemma_decimal_holds_digits(n / 10);
    }
    assert forall|i: int| 0 <= i < decimal(n).len() implies '0' <= #[trigger] decimal(n)[i]
        <= '9' by {
        if n >= 10 && i < decimal(n / 10).len() {
            assert(decimal(n)[i] == decimal(n / 10)[i]);
        } else if n >= 10 {
            assert(decimal(n)[i] == digit_char(n % 10));
        } else {
            assert(decimal(n)[i] == digit_char(n));
        }
    }
}

/// Different numbers have different decimal numerals.
pub proof fn lemma_decimal_injective(a: nat, b: nat)
    requires
        decimal(a) == decimal(b),
    ensures
        a == b,
    decreases a,
{
    if a < 10 && b < 10 {
        assert(decimal(a)[0] == digit_char(a));
        assert(decimal(b)[0] == digit_char(b));
    } else if a < 10 {
        lemma_decimal_nonempty(b / 10);
        assert(decimal(a).len() == 1);
        assert(decimal(b).len() == decimal(b / 10).len() + 1);
    } else if b < 10 {
        lemma_decimal_nonempty(a / 10);
        assert(decimal(b).len() == 1);
        assert(decimal(a).len() == decimal(a / 10).len() + 1);
    } else {
        assert(decimal(a).drop_last() =~= decimal(a / 10));
        assert(decimal(b).drop_last() =~= decimal(b / 10));
        assert(decimal(a).last() == digit_char(a % 10));
        assert(decimal(b).last() == digit_char(b % 10));
        lemma_decimal_injective(a / 10, b / 10);
        assert(a % 10 == b % 10);
    }
}

/// The removal script up to the identifier.
pub open spec fn unlisten_script_head(listeners: Seq<char>) -> Seq<char> {
    "\n      for (var event in (window['"@ + listeners
        + "'] || {})) {\n        var listeners = (window['"@ + listeners
        + "'] || {})[event]\n        if (listeners) {\n          window['"@ + listeners
        + "'][event] = window['"@ + listeners
        + "'][event].filter(function (e) { return e.id !== "@
}

/// The removal script after the identifier.
pub open spec fn unlisten_script_tail() -> Seq<char> {
    " })\n        }\n      }\n    "@
}

/// The text of the script that removes the listener `event_id` from the
/// listener store named `listeners`.
///
/// The script walks every event name present in the store and replaces its
/// array by the entries whose `id` differs from `event_id`; it does not need
/// to know under which event the listener was registered.
pub open spec fn unlisten_script(listeners: Seq<char>, event_id: u64) -> Seq<char> {
    unlisten_script_head(listeners) + decimal(event_id as nat) + unlisten_script_tail()
}

/// The registration script up to the identifier.
pub open spec fn listen_script_head(listeners: Seq<char>, event: Seq<char>) -> Seq<char> {
    "if (window['"@ + listeners + "'] === void 0) {\n      window['"@ + listeners
        + "'] = Object.create(null)\n    }\n    if (window['"@ + listeners + "']['"@ + event
        + "'] === void 0) {\n      window['"@ + listeners + "']['"@ + event
        + "'] = []\n    }\n    window['"@ + listeners + "']['"@ + event
        + "'].push({\n      id: "@
}

/// The registration script after the identifier.
pub open spec fn listen_script_tail(handler: Seq<char>) -> Seq<char> {
    ",\n      handler: window['"@ + handler + "']\n    });\n  "@
}

/// The text of the script that registers a listener in the listener store
/// named `listeners`.
///
/// The script creates the store and the array for `event` where they are
/// missing, then appends `{ id, handler }` to that array. The handler is the
/// value that the global `handler` has when the script runs, not when the
/// event fires. `listeners`, `event` and `handler` are inserted as they are.
pub open spec fn listen_script(
    listeners: Seq<char>,
    event: Seq<char>,
    event_id: u64,
    handler: Seq<char>,
) -> Seq<char> {
    listen_script_head(listeners, event) + decimal(event_id as nat) + listen_script_tail(handler)
}

/// Renders the script that removes the listener `event_id`, whatever event it
/// was registered for, from the listener store named `listeners`.
pub fn unlisten_js(listeners: &str, event_id: u64) -> (js: String)
    ensures
        js@ == unlisten_script(listeners@, event_id),
{
    let mut js = String::from_str("\n      for (var event in (window['");
    js.append(listeners);
    js.append("'] || {})) {\n        var listeners = (window['");
    js.append(listeners);
    js.append("'] || {})[event]\n        if (listeners) {\n          window['");
    js.append(listeners);
    js.append("'][event] = window['");
    js.append(listeners);
    js.append("'][event].filter(function (e) { return e.id !== ");
    push_decimal(&mut js, event_id);
    js.append(" })\n        }\n      }\n    ");
    assert(js@ =~= unlisten_script(listeners@, event_id));
    js
}

/// Renders the script that registers the listener `event_id` for `event`,
/// bound to the global function named `handler`, in the listener store named
/// `listeners`.
pub fn listen_js(listeners: &str, event: String, event_id: u64, handler: String) -> (js: String)
    ensures
        js@ == listen_script(listeners@, event@, event_id, handler@),
{
    let mut js = String::from_str("if (window['");
    js.append(listeners);
    js.append("'] === void 0) {\n      window['");
    js.append(listeners);
    js.append("'] = Object.create(null)\n    }\n    if (window['");
    js.append(listeners);
    js.append("']['");
    js.append(event.as_str());
    js.append("'] === void 0) {\n      window['");
    js.append(listeners);
    js.append("']['");
    js.append(event.as_str());
    js.append("'] = []\n    }\n    window['");
    js.append(listeners);
    js.append("']['");
    js.append(event.as_str());
    js.append("'].push({\n      id: ");
    push_decimal(&mut js, event_id);
    js.append(",\n      handler: window['");
    js.append(handler.as_str());
    js.append("']\n    });\n  ");
    assert(js@ =~= listen_script(listeners@, event@, event_id, handler@));
    js
}

/// Two texts that agree before and after a middle part agree on the middle
/// part.
proof fn lemma_middle_determined(head: Seq<char>, x: Seq<char>, y: Seq<char>, tail: Seq<char>)
    requires
        head + x + tail == head + y + tail,
    ensures
        x == y,
{
    let l = head + x + tail;
    let r = head + y + tail;
    assert(l.len() == head.len() + x.len() + tail.len());
    assert(r.len() == head.len() + y.len() + tail.len());
    assert forall|i: int| 0 <= i < x.len() implies x[i] == y[i] by {
        assert(l[head.len() + i] == x[i]);
        assert(r[head.len() + i] == y[i]);
    }
    assert(x =~= y);
}

/// The removal script names exactly the listener it was rendered for: for one
/// listener store, two removal scripts are the same text only if they carry
/// the same identifier.
pub proof fn lemma_unlisten_script_names_its_listener(listeners: Seq<char>, a: u64, b: u64)
    ensures
        unlisten_script(listeners, a) == unlisten_script(listeners, b) <==> a == b,
{
    if unlisten_script(listeners, a) == unlisten_script(listeners, b) {
        lemma_middle_determined(
            unlisten_script_head(listeners),
            decimal(a as nat),
            decimal(b as nat),
            unlisten_script_tail(),
        );
        lemma_decimal_injective(a as nat, b as nat);
    }
}

/// The registration script carries the identifier it was rendered for: for
/// one store and one event, two registration scripts are the same text only
/// if they carry the same identifier, whatever their handlers.
pub proof fn lemma_listen_script_names_its_listener(
    listeners: Seq<char>,
    event: Seq<char>,
    handler_a: Seq<char>,
    handler_b: Seq<char>,
    a: u64,
    b: u64,
)
    requires
        listen_script(listeners, event, a, handler_a) == listen_script(
            listeners,
            event,
            b,
            handler_b,
        ),
    ensures
        a == b,
{
    let head = listen_script_head(listeners, event);
    let x = decimal(a as nat);
    let y = decimal(b as nat);
    let l = head + x + listen_script_tail(handler_a);
    let r = head + y + listen_script_tail(handler_b);
    reveal_strlit(",\n      handler: window['");
    assert(listen_script_tail(handler_a)[0] == ',');
    assert(listen_script_tail(handler_b)[0] == ',');
    lemma_decimal_holds_digits(a as nat);
    lemma_decimal_holds_digits(b as nat);
    if x.len() < y.len() {
        let at = (head.len() + x.len()) as int;
        assert(l[at] == listen_script_tail(handler_a)[0]);
        assert(r[at] == y[x.len() as int]);
    } else if y.len() < x.len() {
        let at = (head.len() + y.len()) as int;
        assert(r[at] == listen_script_tail(handler_b)[0]);
        assert(l[at] == x[y.len() as int]);
    } else {
        assert forall|i: int| 0 <= i < x.len() implies x[i] == y[i] by {
            assert(l[head.len() + i] == x[i]);
            assert(r[head.len() + i] == y[i]);
        }
        assert(x =~= y);
        lemma_decimal_injective(a as nat, b as nat);
    }
}

} // verus!
