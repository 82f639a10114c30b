//! The components on their own: the dispatch queue, the nested pump, the
//! message loop, generated script, and the window-state registry.

use webview_bridge::error::Error;
use webview_bridge::pump::{pump_step, wait_with_pump, MsgResult, PumpTick, WAKE_MESSAGE};
use webview_bridge::queue::DispatchQueue;
use webview_bridge::registry::{BindingCallback, BindingRegistry};
use webview_bridge::script::{bind_script, resolution_script, u64_to_decimal, BIND_PREFIX, BIND_SUFFIX};
use webview_bridge::session::{client_size, settle, WebView, Work};
use webview_bridge::window_state::WindowStateRegistry;

struct Echo;

impl BindingCallback for Echo {
    fn invoke(&mut self, params: Vec<serde_json::Value>) -> Result<serde_json::Value, Error> {
        Ok(serde_json::Value::Array(params))
    }
}

#[test]
fn queue_preserves_fifo_order() {
    let mut q: DispatchQueue<&str> = DispatchQueue::new();
    q.dispatch("C1");
    q.dispatch("C2");
    q.dispatch("C3");
    assert_eq!(q.len(), 3);
    let works = q.drain();
    assert_eq!(works, vec!["C1", "C2", "C3"]);
    assert_eq!(q.len(), 0);
}

#[test]
fn queue_pop_front_is_oldest_first() {
    let mut q: DispatchQueue<u32> = DispatchQueue::new();
    assert_eq!(q.pop_front(), None);
    q.dispatch(10);
    q.dispatch(20);
    assert_eq!(q.pop_front(), Some(10));
    q.dispatch(30);
    assert_eq!(q.pop_front(), Some(20));
    assert_eq!(q.pop_front(), Some(30));
    assert_eq!(q.pop_front(), None);
}

#[test]
fn pump_returns_the_delivered_value() {
    let mut ticks = vec![
        PumpTick::Pump(MsgResult::Msg(WAKE_MESSAGE)),
        PumpTick::Pump(MsgResult::Msg(0x000F)),
        PumpTick::Ready(42u32),
    ];
    assert_eq!(wait_with_pump(&mut ticks), Ok(42));
}

#[test]
fn pump_returns_at_once_when_signaled_before_pumping() {
    let mut ticks = vec![PumpTick::Ready(9u32), PumpTick::Pump(MsgResult::Quit)];
    assert_eq!(wait_with_pump(&mut ticks), Ok(9));
}

#[test]
fn pump_reports_cancellation_on_quit() {
    let mut ticks: Vec<PumpTick<u32>> = vec![
        PumpTick::Pump(MsgResult::Msg(WAKE_MESSAGE)),
        PumpTick::Pump(MsgResult::Quit),
        PumpTick::Ready(1),
    ];
    assert_eq!(wait_with_pump(&mut ticks), Err(Error::TaskCanceled));
}

#[test]
fn pump_propagates_fatal_platform_error() {
    let mut ticks: Vec<PumpTick<u32>> = vec![PumpTick::Pump(MsgResult::Fatal(-1))];
    assert_eq!(wait_with_pump(&mut ticks), Err(Error::WindowsError(-1)));
}

#[test]
fn pump_step_decides_each_tick() {
    assert_eq!(pump_step(PumpTick::Ready(5u8)), Some(Ok(5)));
    assert_eq!(
        pump_step::<u8>(PumpTick::Pump(MsgResult::Quit)),
        Some(Err(Error::TaskCanceled))
    );
    assert_eq!(
        pump_step::<u8>(PumpTick::Pump(MsgResult::Fatal(3))),
        Some(Err(Error::WindowsError(3)))
    );
    assert_eq!(pump_step::<u8>(PumpTick::Pump(MsgResult::Msg(WAKE_MESSAGE))), None);
}

#[test]
fn run_executes_queued_work_in_order_then_exits_on_quit() {
    let mut wv = WebView::<Echo>::create(None, 11, false).unwrap();
    wv.dispatch(Work::Eval(String::from("first();"))).unwrap();
    wv.dispatch(Work::Eval(String::from("second();"))).unwrap();
    let mut nav = Vec::new();
    let mut msgs = vec![
        MsgResult::Msg(WAKE_MESSAGE),
        MsgResult::Msg(0x0005),
        MsgResult::Quit,
    ];
    let r = wv.run(&mut nav, &mut msgs);
    assert_eq!(r, Ok(()));
    assert_eq!(wv.evaluated, vec!["first();", "second();"]);
    assert_eq!(wv.queue.len(), 0);
}

#[test]
fn run_propagates_fatal_retrieval_error() {
    let mut wv = WebView::<Echo>::create(None, 11, false).unwrap();
    let mut nav = Vec::new();
    let mut msgs = vec![MsgResult::Fatal(5)];
    assert_eq!(wv.run(&mut nav, &mut msgs), Err(Error::WindowsError(5)));
}

#[test]
fn run_waits_for_navigation_and_reports_cancellation() {
    let mut wv = WebView::<Echo>::create(None, 11, false).unwrap();
    wv.navigate("https://example.invalid/").unwrap();
    let mut nav: Vec<PumpTick<()>> = vec![PumpTick::Pump(MsgResult::Quit)];
    let mut msgs = vec![MsgResult::Quit];
    assert_eq!(wv.run(&mut nav, &mut msgs), Err(Error::TaskCanceled));
}

#[test]
fn run_navigates_then_enters_the_loop() {
    let mut wv = WebView::<Echo>::create(None, 11, false).unwrap();
    wv.navigate("https://example.invalid/").unwrap();
    let mut nav: Vec<PumpTick<()>> = vec![
        PumpTick::Pump(MsgResult::Msg(0x0400)),
        PumpTick::Ready(()),
    ];
    let mut msgs = vec![MsgResult::Quit];
    assert_eq!(wv.run(&mut nav, &mut msgs), Ok(()));
}

#[test]
fn decimal_rendering_is_exact() {
    assert_eq!(u64_to_decimal(0), "0");
    assert_eq!(u64_to_decimal(7), "7");
    assert_eq!(u64_to_decimal(10), "10");
    assert_eq!(u64_to_decimal(987654321), "987654321");
    assert_eq!(u64_to_decimal(u64::MAX), "18446744073709551615");
}

#[test]
fn resolution_script_is_exact() {
    assert_eq!(
        resolution_script(1, 0, "8"),
        "window._rpc[1].resolve(8);\nwindow._rpc[1] = undefined;"
    );
    assert_eq!(
        resolution_script(2, 1, "\"boom\""),
        "window._rpc[2].reject(\"boom\");\nwindow._rpc[2] = undefined;"
    );
    assert_eq!(
        resolution_script(3, -7, "null"),
        "window._rpc[3].reject(null);\nwindow._rpc[3] = undefined;"
    );
}

#[test]
fn bind_script_wraps_the_name() {
    let s = bind_script("hostCallback");
    assert_eq!(s, format!("{}hostCallback{}", BIND_PREFIX, BIND_SUFFIX));
    assert!(s.contains("new Promise"));
    assert!(s.contains("RPC.nextSeq++"));
}

#[test]
fn registry_lookup_and_replacement() {
    let mut reg: BindingRegistry<u32> = BindingRegistry::new();
    assert_eq!(reg.len(), 0);
    assert!(!reg.is_bound("a"));
    reg.insert("a", 1);
    reg.insert("b", 2);
    assert_eq!(reg.len(), 2);
    assert!(reg.is_bound("a"));
    assert!(reg.is_bound("b"));
    reg.insert("a", 3);
    assert_eq!(reg.len(), 2);
    assert!(reg.is_bound("a"));
}

#[test]
fn window_state_holds_one_owner_per_handle() {
    let mut reg: WindowStateRegistry<&str> = WindowStateRegistry::new();
    assert_eq!(reg.set_window_webview(100, Some("alpha")), None);
    assert_eq!(reg.get_window_webview(100), Some(&"alpha"));
    assert_eq!(reg.get_window_webview(200), None);
    assert_eq!(reg.set_window_webview(100, Some("beta")), Some("alpha"));
    assert_eq!(reg.len(), 1);
    assert_eq!(reg.set_window_webview(100, None), Some("beta"));
    assert_eq!(reg.get_window_webview(100), None);
    assert_eq!(reg.set_window_webview(100, None), None);
    assert_eq!(reg.len(), 0);
}

#[test]
fn error_text_reaches_the_page_verbatim_for_callbacks() {
    assert_eq!(Error::CallbackError(String::from("boom")).text(), "boom");
    assert_eq!(Error::TaskCanceled.text(), "task canceled");
    assert_eq!(Error::SendError.text(), "send error");
    assert_eq!(Error::LockError.text(), "lock error");
    assert_eq!(Error::WindowsError(-5).text(), "windows error");
    assert_eq!(Error::JsonError(String::from("x")).text(), "json error");
}

#[test]
fn settle_maps_outcome_to_resolution_work() {
    let ok = settle(3, Ok(serde_json::Value::Bool(true)));
    assert_eq!(
        ok,
        Work::Eval(String::from(
            "window._rpc[3].resolve(true);\nwindow._rpc[3] = undefined;"
        ))
    );
    let err = settle(4, Err(Error::CallbackError(String::from("boom"))));
    assert_eq!(
        err,
        Work::Eval(String::from(
            "window._rpc[4].reject(\"boom\");\nwindow._rpc[4] = undefined;"
        ))
    );
}

#[test]
fn client_size_subtracts_the_rect() {
    assert_eq!(client_size(0, 0, 800, 600), (800, 600));
    assert_eq!(client_size(10, 20, 210, 140), (200, 120));
    assert_eq!(client_size(-5, -5, 5, 5), (10, 10));
}
