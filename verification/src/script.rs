//! Generated page-side script.
//!
//! The bridge hands three kinds of text to the embedded page: the shim that
//! routes `window.external.invoke` into the page's message-post channel,
//! the per-binding shim that turns a named host function into a
//! promise-returning page function, and the resolution script that settles
//! one pending call by id.  All three are plain string building, specified
//! exactly.

use vstd::prelude::*;
use vstd::string::StringExecFns;

verus! {

/// The shim installed on every document so page script can reach the host.
pub const INVOKE_SHIM: &'static str = "window.external = { invoke: s => window.chrome.webview.postMessage(s) };";

/// Opens the per-binding shim, up to the binding's name.
pub const BIND_PREFIX: &'static str = "(function() {\n  var name = '";

/// Closes the per-binding shim after the binding's name.
pub const BIND_SUFFIX: &'static str = "';\n  var RPC = window._rpc = (window._rpc || {nextSeq: 1});\n  window[name] = function() {\n    var seq = RPC.nextSeq++;\n    var promise = new Promise(function(resolve, reject) {\n      RPC[seq] = { resolve: resolve, reject: reject };\n    });\n    window.external.invoke({\n      id: seq,\n      method: name,\n      params: Array.prototype.slice.call(arguments),\n    });\n    return promise;\n  };\n})()";

/// The decimal digit for one value below ten.
pub open spec fn spec_digit(d: nat) -> char {
    if d == 0 {
        '0'
    } else if d == 1 {
        '1'
    } else if d == 2 {
        '2'
    } else if d == 3 {
        '3'
    } else if d == 4 {
        '4'
    } else if d == 5 {
        '5'
    } else if d == 6 {
        '6'
    } else if d == 7 {
        '7'
    } else if d == 8 {
        '8'
    } else {
        '9'
    }
}

/// The usual decimal rendering of a number, most significant digit first,
/// without leading zeroes (a single zero for zero itself).
pub open spec fn spec_decimal(n: nat) -> Seq<char>
    decreases n,
{
    if n < 10 {
        seq![spec_digit(n)]
    } else {
        spec_decimal(n / 10).push(spec_digit(n % 10))
    }
}

/// One decimal digit as text.
fn digit_str(d: u64) -> (r: &'static str)
    requires
        d < 10,
    ensures
        r@ =~= seq![spec_digit(d as nat)],
{
    proof {
        reveal_strlit("0");
        reveal_strlit("1");
        reveal_strlit("2");
        reveal_strlit("3");
        reveal_strlit("4");
        reveal_strlit("5");
        reveal_strlit("6");
        reveal_strlit("7");
        reveal_strlit("8");
        reveal_strlit("9");
    }
    if d == 0 {
        "0"
    } else if d == 1 {
        "1"
    } else if d == 2 {
        "2"
    } else if d == 3 {
        "3"
    } else if d == 4 {
        "4"
    } else if d == 5 {
        "5"
    } else if d == 6 {
        "6"
    } else if d == 7 {
        "7"
    } else if d == 8 {
        "8"
    } else {
        "9"
    }
}

/// Renders a number in decimal.
pub fn u64_to_decimal(n: u64) -> (r: String)
    ensures
        r@ == spec_decimal(n as nat),
    decreases n,
{
    if n < 10 {
        digit_str(n).to_owned()
    } else {
        let mut s = u64_to_decimal(n / 10);
        s.append(digit_str(n % 10));
        assert(s@ =~= spec_decimal(n as nat));
        s
    }
}

/// The text that settles the pending page-side call `id`: it invokes the
/// recorded `resolve` or `reject` continuation with the serialized outcome
/// and clears the table entry.
pub open spec fn spec_resolution_script(id: u64, resolve: bool, result: Seq<char>) -> Seq<char> {
    "window._rpc["@ + spec_decimal(id as nat) + "]."@ + (if resolve {
        "resolve"@
    } else {
        "reject"@
    }) + "("@ + result + ");\nwindow._rpc["@ + spec_decimal(id as nat) + "] = undefined;"@
}

/// Builds the resolution script for call `id`.  Status zero settles the
/// promise through `resolve`; any other status through `reject`.
pub fn resolution_script(id: u64, status: i32, result: &str) -> (r: String)
    ensures
        r@ == spec_resolution_script(id, status == 0, result@),
{
    let dec = u64_to_decimal(id);
    let mut s = "window._rpc[".to_owned();
    s.append(dec.as_str());
    s.append("].");
    if status == 0 {
        s.append("resolve");
    } else {
        s.append("reject");
    }
    s.append("(");
    s.append(result);
    s.append(");\nwindow._rpc[");
    s.append(dec.as_str());
    s.append("] = undefined;");
    assert(s@ =~= spec_resolution_script(id, status == 0, result@));
    s
}

/// The per-binding shim text for a binding name.
pub open spec fn spec_bind_script(name: Seq<char>) -> Seq<char> {
    BIND_PREFIX@ + name + BIND_SUFFIX@
}

/// Builds the per-binding shim: it defines `window[name]` as a function
/// that allocates a fresh call id, records the promise's continuations
/// under that id, and forwards `{id, method, params}` to the host.
pub fn bind_script(name: &str) -> (r: String)
    ensures
        r@ == spec_bind_script(name@),
{
    let mut s = BIND_PREFIX.to_owned();
    s.append(name);
    s.append(BIND_SUFFIX);
    assert(s@ =~= spec_bind_script(name@));
    s
}

} // verus!
