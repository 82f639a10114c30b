//! The RPC protocol end to end: bind, decode, invoke, resolve or reject.

use webview_bridge::error::Error;
use webview_bridge::registry::BindingCallback;
use webview_bridge::script::INVOKE_SHIM;
use webview_bridge::session::{HandleOutcome, WebView, WindowMsg, WndAction, Work};
use webview_bridge::wire::decode_invoke;

enum TestCb {
    Add,
    Fail,
}

impl BindingCallback for TestCb {
    fn invoke(&mut self, params: Vec<serde_json::Value>) -> Result<serde_json::Value, Error> {
        match self {
            TestCb::Add => {
                if params.len() == 2 {
                    if let (Some(a), Some(b)) = (params[0].as_i64(), params[1].as_i64()) {
                        return Ok(serde_json::Value::Number(serde_json::Number::from(a + b)));
                    }
                }
                Err(Error::CallbackError(String::from("Usage: Add a b")))
            }
            TestCb::Fail => Err(Error::CallbackError(String::from("boom"))),
        }
    }
}

fn session() -> WebView<TestCb> {
    WebView::<TestCb>::create(None, 41, true).unwrap()
}

#[test]
fn create_owned_window() {
    let wv = session();
    assert_eq!(wv.parent, 41);
    let frame = wv.frame.as_ref().unwrap();
    assert_eq!(frame.window, 41);
    assert_eq!(frame.width, 0);
    assert_eq!(frame.height, 0);
    assert!(wv.registered);
    assert!(!wv.terminated);
    assert_eq!(wv.init_scripts.len(), 1);
    assert_eq!(wv.init_scripts[0], INVOKE_SHIM);
    assert_eq!(wv.queue.len(), 0);
}

#[test]
fn create_embedded_in_parent() {
    let wv = WebView::<TestCb>::create(Some(7), 99, false).unwrap();
    assert_eq!(wv.parent, 7);
    assert!(wv.frame.is_none());
    assert!(!wv.registered);
    assert!(!wv.debug);
}

#[test]
fn bind_installs_shim_script() {
    let mut wv = session();
    wv.bind("Add", TestCb::Add).unwrap();
    assert_eq!(wv.init_scripts.len(), 2);
    let shim = &wv.init_scripts[1];
    assert!(shim.contains("var name = 'Add';"));
    assert!(shim.contains("window.external.invoke"));
    assert!(wv.bindings.is_bound("Add"));
    assert!(!wv.bindings.is_bound("Sub"));
}

#[test]
fn decode_well_shaped_message() {
    let m = decode_invoke(r#"{"id":1,"method":"Add","params":[2,6]}"#).unwrap();
    assert_eq!(m.id, 1);
    assert_eq!(m.method, "Add");
    assert_eq!(m.params.len(), 2);
    assert_eq!(m.params[0].as_i64(), Some(2));
    assert_eq!(m.params[1].as_i64(), Some(6));
}

#[test]
fn decode_rejects_malformed_text() {
    assert!(decode_invoke("{not json").is_none());
    assert!(decode_invoke("").is_none());
    assert!(decode_invoke("[1,2,3]").is_none());
    assert!(decode_invoke(r#"{"id":1,"method":"Add"}"#).is_none());
    assert!(decode_invoke(r#"{"id":"one","method":"Add","params":[]}"#).is_none());
    assert!(decode_invoke(r#"{"id":1.5,"method":"Add","params":[]}"#).is_none());
    assert!(decode_invoke(r#"{"id":-1,"method":"Add","params":[]}"#).is_none());
    assert!(decode_invoke(r#"{"id":1,"method":7,"params":[]}"#).is_none());
    assert!(decode_invoke(r#"{"id":1,"method":"Add","params":{}}"#).is_none());
}

#[test]
fn round_trip_add_resolves_with_sum() {
    let mut wv = session();
    wv.bind("Add", TestCb::Add).unwrap();
    let outcome = wv.handle_web_message(r#"{"id":1,"method":"Add","params":[2,6]}"#);
    assert_eq!(outcome, HandleOutcome::Resolved);
    assert_eq!(wv.queue.len(), 1);
    match wv.queue.pop_front().unwrap() {
        Work::Eval(script) => {
            assert_eq!(
                script,
                "window._rpc[1].resolve(8);\nwindow._rpc[1] = undefined;"
            );
        }
        Work::Quit => panic!("expected a script, not a quit signal"),
    }
}

#[test]
fn invoke_yields_exactly_one_resolution_with_same_id() {
    let mut wv = session();
    wv.bind("Add", TestCb::Add).unwrap();
    let outcome = wv.handle_web_message(r#"{"id":42,"method":"Add","params":[1,1]}"#);
    assert_eq!(outcome, HandleOutcome::Resolved);
    assert_eq!(wv.queue.len(), 1);
    match wv.queue.pop_front().unwrap() {
        Work::Eval(script) => {
            assert!(script.starts_with("window._rpc[42]."));
        }
        Work::Quit => panic!("expected a script"),
    }
}

#[test]
fn failing_callback_rejects_with_its_message() {
    let mut wv = session();
    wv.bind("Fail", TestCb::Fail).unwrap();
    let outcome = wv.handle_web_message(r#"{"id":2,"method":"Fail","params":[]}"#);
    assert_eq!(outcome, HandleOutcome::Rejected);
    assert_eq!(wv.queue.len(), 1);
    match wv.queue.pop_front().unwrap() {
        Work::Eval(script) => {
            assert!(script.contains("boom"));
            assert_eq!(
                script,
                "window._rpc[2].reject(\"boom\");\nwindow._rpc[2] = undefined;"
            );
        }
        Work::Quit => panic!("expected a script"),
    }
}

#[test]
fn bad_arguments_reject_with_usage() {
    let mut wv = session();
    wv.bind("Add", TestCb::Add).unwrap();
    let outcome = wv.handle_web_message(r#"{"id":3,"method":"Add","params":["x"]}"#);
    assert_eq!(outcome, HandleOutcome::Rejected);
    match wv.queue.pop_front().unwrap() {
        Work::Eval(script) => assert!(script.contains("reject")),
        Work::Quit => panic!("expected a script"),
    }
}

#[test]
fn unbound_method_produces_no_queue_entry() {
    let mut wv = session();
    wv.bind("Add", TestCb::Add).unwrap();
    let outcome = wv.handle_web_message(r#"{"id":7,"method":"Nope","params":[]}"#);
    assert_eq!(outcome, HandleOutcome::Unbound);
    assert_eq!(wv.queue.len(), 0);
}

#[test]
fn malformed_wire_json_leaves_pending_work_alone() {
    let mut wv = session();
    wv.bind("Add", TestCb::Add).unwrap();
    let ok = wv.handle_web_message(r#"{"id":1,"method":"Add","params":[2,6]}"#);
    assert_eq!(ok, HandleOutcome::Resolved);
    assert_eq!(wv.queue.len(), 1);
    let bad = wv.handle_web_message("{definitely not json");
    assert_eq!(bad, HandleOutcome::Ignored);
    assert_eq!(wv.queue.len(), 1);
    match wv.queue.pop_front().unwrap() {
        Work::Eval(script) => {
            assert_eq!(
                script,
                "window._rpc[1].resolve(8);\nwindow._rpc[1] = undefined;"
            );
        }
        Work::Quit => panic!("expected the earlier script"),
    }
}

#[test]
fn contended_registry_drops_the_message() {
    let mut wv = session();
    wv.bind("Add", TestCb::Add).unwrap();
    wv.bindings_held = true;
    let outcome = wv.handle_web_message(r#"{"id":1,"method":"Add","params":[2,6]}"#);
    assert_eq!(outcome, HandleOutcome::Dropped);
    assert_eq!(wv.queue.len(), 0);
    wv.bindings_held = false;
    let outcome = wv.handle_web_message(r#"{"id":1,"method":"Add","params":[2,6]}"#);
    assert_eq!(outcome, HandleOutcome::Resolved);
}

#[test]
fn rebind_replaces_callback_last_wins() {
    let mut wv = session();
    wv.bind("Op", TestCb::Fail).unwrap();
    wv.bind("Op", TestCb::Add).unwrap();
    let outcome = wv.handle_web_message(r#"{"id":9,"method":"Op","params":[3,4]}"#);
    assert_eq!(outcome, HandleOutcome::Resolved);
    match wv.queue.pop_front().unwrap() {
        Work::Eval(script) => assert!(script.contains("resolve(7)")),
        Work::Quit => panic!("expected a script"),
    }
}

#[test]
fn resolve_serializes_result_and_keys_by_id() {
    let mut wv = session();
    wv.resolve(5, 0, serde_json::Value::Bool(true)).unwrap();
    wv.resolve(6, 3, serde_json::Value::Null).unwrap();
    match wv.queue.pop_front().unwrap() {
        Work::Eval(script) => {
            assert_eq!(script, "window._rpc[5].resolve(true);\nwindow._rpc[5] = undefined;");
        }
        Work::Quit => panic!("expected a script"),
    }
    match wv.queue.pop_front().unwrap() {
        Work::Eval(script) => {
            assert_eq!(script, "window._rpc[6].reject(null);\nwindow._rpc[6] = undefined;");
        }
        Work::Quit => panic!("expected a script"),
    }
}

#[test]
fn terminate_is_idempotent() {
    let mut wv = session();
    wv.terminate().unwrap();
    assert!(wv.terminated);
    assert!(!wv.registered);
    assert_eq!(wv.queue.len(), 1);
    wv.terminate().unwrap();
    assert_eq!(wv.queue.len(), 1);
    match wv.queue.pop_front().unwrap() {
        Work::Quit => {}
        Work::Eval(_) => panic!("expected the quit signal"),
    }
}

#[test]
fn dispatch_after_terminate_reports_severed_channel() {
    let mut wv = session();
    wv.terminate().unwrap();
    let r = wv.dispatch(Work::Eval(String::from("x")));
    assert_eq!(r, Err(Error::SendError));
    let r = wv.resolve(1, 0, serde_json::Value::Null);
    assert_eq!(r, Err(Error::SendError));
}

#[test]
fn navigate_and_setters_update_the_model() {
    let mut wv = session();
    wv.navigate("https://example.invalid/page").unwrap();
    assert_eq!(wv.url, "https://example.invalid/page");
    wv.set_title("A Title").unwrap();
    assert_eq!(wv.frame.as_ref().unwrap().title, "A Title");
    wv.set_size(640, 480).unwrap();
    assert_eq!(wv.frame.as_ref().unwrap().width, 640);
    assert_eq!(wv.frame.as_ref().unwrap().height, 480);
    assert_eq!(wv.get_window(), 41);
    wv.init("console.log(1);").unwrap();
    assert_eq!(wv.init_scripts.last().unwrap(), "console.log(1);");
    wv.eval("console.log(2);").unwrap();
    assert_eq!(wv.evaluated.last().unwrap(), "console.log(2);");
}

#[test]
fn window_proc_routes_events() {
    let mut wv = session();
    assert_eq!(wv.window_proc(WindowMsg::Size(300, 200)), WndAction::Resize(300, 200));
    assert_eq!(wv.frame.as_ref().unwrap().width, 300);
    assert_eq!(wv.frame.as_ref().unwrap().height, 200);
    assert_eq!(wv.window_proc(WindowMsg::Close), WndAction::DestroyWindow);
    assert!(!wv.terminated);
    assert_eq!(wv.window_proc(WindowMsg::Other(0x0200)), WndAction::Default);
    assert_eq!(wv.window_proc(WindowMsg::Destroy), WndAction::Handled);
    assert!(wv.terminated);
    assert_eq!(wv.queue.len(), 1);
    assert_eq!(wv.window_proc(WindowMsg::Destroy), WndAction::Handled);
    assert_eq!(wv.queue.len(), 1);
}

#[test]
fn handling_after_terminate_cannot_queue_resolution() {
    let mut wv = session();
    wv.bind("Add", TestCb::Add).unwrap();
    wv.terminate().unwrap();
    assert_eq!(wv.queue.len(), 1);
    let outcome = wv.handle_web_message(r#"{"id":1,"method":"Add","params":[2,6]}"#);
    assert_eq!(outcome, HandleOutcome::Severed);
    assert_eq!(wv.queue.len(), 1);
    match wv.queue.pop_front().unwrap() {
        Work::Quit => {}
        Work::Eval(_) => panic!("expected only the quit signal"),
    }
}
