//! The session: the long-lived bridge object that owns the dispatch
//! queue, the binding registry, and the model of the native window, and
//! that drives the message loop.
//!
//! The session is a state machine over plain values.  Platform work — the
//! real window, the embedded control, COM callbacks, the blocking
//! message-retrieval call — happens outside the library; its outcomes
//! reach the session as arguments (message results, pump ticks, window
//! events), and the session's contracts pin every decision taken on them.

use vstd::prelude::*;
use crate::error::Error;
use crate::json::{json_string, json_text, json_to_string, string_value_text};
use crate::pump::{spec_pump_result, wait_with_pump, MsgResult, PumpTick};
use crate::queue::DispatchQueue;
use crate::registry::{BindingCallback, BindingRegistry};
use crate::script::{bind_script, resolution_script, spec_bind_script, spec_resolution_script, INVOKE_SHIM};
use crate::wire::{decode_invoke, spec_decode};

verus! {

/// One unit of deferred work for the owning thread: evaluate script in the
/// page, or post the quit signal that ends the message loop.
#[derive(Debug, PartialEq)]
pub enum Work {
    Eval(String),
    Quit,
}

/// The mathematical content of a unit of work.
#[verifier::ext_equal]
pub enum WorkView {
    Eval(Seq<char>),
    Quit,
}

impl View for Work {
    type V = WorkView;

    open spec fn view(&self) -> WorkView {
        match self {
            Work::Eval(s) => WorkView::Eval(s@),
            Work::Quit => WorkView::Quit,
        }
    }
}

/// The model of an owned top-level window: its native handle, its client
/// size, and its caption.
pub struct FrameWindow {
    pub window: u64,
    pub width: i32,
    pub height: i32,
    pub title: String,
}

impl FrameWindow {
    /// The model of a freshly created window: empty caption, zero size.
    pub fn new(window: u64) -> (r: FrameWindow)
        ensures
            r.window == window,
            r.width == 0,
            r.height == 0,
            r.title@ == Seq::<char>::empty(),
    {
        FrameWindow { window, width: 0, height: 0, title: String::new() }
    }
}

/// A native window-procedure event as the session sees it: a resize with
/// the new client size, a close request, the destroy notification, or any
/// other message by its identifier.
#[derive(Debug, Clone, Copy, PartialEq, Eq, Structural)]
pub enum WindowMsg {
    Size(i32, i32),
    Close,
    Destroy,
    Other(u32),
}

/// What the window procedure asks the platform to do: move the embedded
/// control to the new bounds, destroy the native window, nothing further
/// (the session handled the event), or default handling.
#[derive(Debug, Clone, Copy, PartialEq, Eq, Structural)]
pub enum WndAction {
    Resize(i32, i32),
    DestroyWindow,
    Handled,
    Default,
}

/// What handling one wire message came to: the text was not a well-shaped
/// invoke message and was ignored; the registry was contended and the
/// message was dropped; the method was unbound and nothing was done; the
/// callback ran and a resolve or reject script was enqueued; or the
/// callback ran but the session was already terminated, so its resolution
/// could not be queued.
#[derive(Debug, Clone, Copy, PartialEq, Eq, Structural)]
pub enum HandleOutcome {
    Ignored,
    Dropped,
    Unbound,
    Resolved,
    Rejected,
    Severed,
}

/// The scripts in a batch of work, in order, skipping quit signals.
pub open spec fn eval_texts(q: Seq<WorkView>) -> Seq<Seq<char>>
    decreases q.len(),
{
    if q.len() == 0 {
        Seq::<Seq<char>>::empty()
    } else {
        match q[0] {
            WorkView::Eval(s) => seq![s] + eval_texts(q.drop_first()),
            WorkView::Quit => eval_texts(q.drop_first()),
        }
    }
}

/// A batch of scripts by their text.
pub open spec fn scripts_view(v: Seq<String>) -> Seq<Seq<char>> {
    v.map_values(|s: String| s@)
}

/// What the message loop proper comes to on a sequence of retrieval
/// results: the first fatal error ends it with that platform error, the
/// first quit signal ends it cleanly, and every ordinary message —
/// including the reserved wake message — lets it continue.
pub open spec fn spec_loop_result(msgs: Seq<MsgResult>) -> Option<Result<(), Error>>
    decreases msgs.len(),
{
    if msgs.len() == 0 {
        None
    } else {
        match msgs[0] {
            MsgResult::Fatal(c) => Some(Err(Error::WindowsError(c))),
            MsgResult::Quit => Some(Ok(())),
            MsgResult::Msg(_) => spec_loop_result(msgs.drop_first()),
        }
    }
}

/// The work that settles call `id` for a callback outcome: a success
/// resolves the page-side promise with the serialized value (status zero),
/// a failure rejects it with the error rendered as a JSON string.
pub open spec fn spec_settle(id: u64, out: Result<serde_json::Value, Error>) -> WorkView {
    match out {
        Ok(v) => WorkView::Eval(spec_resolution_script(id, true, json_text(v))),
        Err(e) => WorkView::Eval(
            spec_resolution_script(id, false, string_value_text(e.spec_text())),
        ),
    }
}

/// Builds the unit of work that settles call `id` for what the callback
/// returned: `Ok` becomes a resolve instruction carrying the value's JSON
/// text, `Err` a reject instruction carrying the error's text as a JSON
/// string.
pub fn settle(id: u64, out: Result<serde_json::Value, Error>) -> (w: Work)
    ensures
        w@ == spec_settle(id, out),
{
    match out {
        Ok(v) => {
            let txt = json_to_string(&v);
            Work::Eval(resolution_script(id, 0, txt.as_str()))
        },
        Err(e) => {
            let payload = json_string(e.text());
            let txt = json_to_string(&payload);
            Work::Eval(resolution_script(id, 1, txt.as_str()))
        },
    }
}

/// The client size of a window, from the client rectangle the platform
/// reports: the width is `right - left`, the height `bottom - top`.
pub fn client_size(left: i32, top: i32, right: i32, bottom: i32) -> (r: (i32, i32))
    requires
        left <= right,
        top <= bottom,
        right - left <= i32::MAX,
        bottom - top <= i32::MAX,
    ensures
        r.0 == right - left,
        r.1 == bottom - top,
{
    (right - left, bottom - top)
}

/// The session object: the bridge between page script and host callbacks
/// for one embedded control.
pub struct WebView<C> {
    /// The native handle the control is embedded in.
    pub parent: u64,
    /// The owned top-level window, for a session that created its own.
    pub frame: Option<FrameWindow>,
    /// The pending navigation target; navigation happens when `run` starts.
    pub url: String,
    /// Scripts installed to run on every document creation, oldest first.
    pub init_scripts: Vec<String>,
    /// Scripts handed to the engine for immediate evaluation, oldest first.
    pub evaluated: Vec<String>,
    /// Work waiting for the owning thread.
    pub queue: DispatchQueue<Work>,
    /// The name-to-callback table.
    pub bindings: BindingRegistry<C>,
    /// Whether another context currently holds the binding registry; a
    /// wire message arriving while it does is dropped, never queued.
    pub bindings_held: bool,
    /// Whether the session has been terminated.
    pub terminated: bool,
    /// Whether the window-state registry still associates the owned
    /// window with this session.
    pub registered: bool,
    /// Whether developer tooling was left enabled in the control.
    pub debug: bool,
}

impl<C> WebView<C> {
    /// The session's validity: its binding registry holds at most one
    /// callback per name.
    pub open spec fn wf(self) -> bool {
        self.bindings.wf()
    }

    /// The queued work by content.
    pub open spec fn queue_view(self) -> Seq<WorkView> {
        self.queue@.map_values(|w: Work| w@)
    }

    /// Everything but the queue and the evaluation log agrees between two
    /// session states.
    pub open spec fn core_unchanged(a: WebView<C>, b: WebView<C>) -> bool {
        a.parent == b.parent && a.frame == b.frame && a.url == b.url && a.init_scripts
            == b.init_scripts && a.bindings == b.bindings && a.bindings_held == b.bindings_held
            && a.terminated == b.terminated && a.registered == b.registered && a.debug == b.debug
    }

    /// Builds a session.  With `Some(parent)` the control embeds into the
    /// caller's window and no window is owned; with `None` the session
    /// owns the fresh top-level window whose handle is `owned_window`, and
    /// the window-state registry associates that handle with the session.
    /// Either way the session starts with an empty queue, no bindings, no
    /// pending navigation, and the invoke shim as its only init script.
    pub fn create(parent: Option<u64>, owned_window: u64, debug: bool) -> (r: Result<
        WebView<C>,
        Error,
    >)
        ensures
            r matches Ok(w) ==> w.wf() && w.queue_view() == Seq::<WorkView>::empty() && w.bindings@
                == Seq::<(String, C)>::empty() && w.url@ == Seq::<char>::empty() && scripts_view(
                w.init_scripts@,
            ) == seq![INVOKE_SHIM@] && scripts_view(w.evaluated@) == Seq::<Seq<char>>::empty()
                && !w.bindings_held && !w.terminated && w.debug == debug,
            r matches Ok(w) ==> (parent matches Some(h) ==> w.parent == h && w.frame is None
                && !w.registered),
            r matches Ok(w) ==> (parent is None ==> w.parent == owned_window && (w.frame
                matches Some(f) && f.window == owned_window && f.width == 0 && f.height == 0
                && f.title@ == Seq::<char>::empty()) && w.registered),
            r is Ok,
    {
        let (parent_handle, frame) = match parent {
            Some(h) => (h, None),
            None => (owned_window, Some(FrameWindow::new(owned_window))),
        };
        let registered = frame.is_some();
        let mut w = WebView {
            parent: parent_handle,
            frame,
            url: String::new(),
            init_scripts: Vec::new(),
            evaluated: Vec::new(),
            queue: DispatchQueue::new(),
            bindings: BindingRegistry::new(),
            bindings_held: false,
            terminated: false,
            registered,
            debug,
        };
        w.init_scripts.push(INVOKE_SHIM.to_owned());
        proof {
            assert(scripts_view(w.init_scripts@) =~= seq![INVOKE_SHIM@]);
            assert(w.queue_view() =~= Seq::<WorkView>::empty());
            assert(scripts_view(w.evaluated@) =~= Seq::<Seq<char>>::empty());
        }
        Ok(w)
    }

    /// The native handle the control is embedded in.
    pub fn get_window(&self) -> (r: u64)
        ensures
            r == self.parent,
    {
        self.parent
    }

    /// Records the navigation target.  Navigation itself waits for `run`.
    pub fn navigate(&mut self, url: &str) -> (r: Result<(), Error>)
        ensures
            r == Ok::<(), Error>(()),
            final(self).url@ == url@,
            final(self).frame == old(self).frame && final(self).parent == old(self).parent
                && final(self).init_scripts == old(self).init_scripts && final(self).evaluated
                == old(self).evaluated && final(self).queue == old(self).queue && final(self).bindings == old(self).bindings && final(self).bindings_held == old(self).bindings_held && final(self).terminated == old(self).terminated && final(self).registered == old(self).registered && final(self).debug == old(self).debug,
    {
        self.url = url.to_owned();
        Ok(())
    }

    /// Sets the caption of the owned window; a session embedded in a
    /// caller's window has none to set and is left unchanged.
    pub fn set_title(&mut self, title: &str) -> (r: Result<(), Error>)
        ensures
            r == Ok::<(), Error>(()),
            old(self).frame matches Some(f) ==> final(self).frame matches Some(g) && g.title@
                == title@ && g.window == f.window && g.width == f.width && g.height == f.height,
            old(self).frame is None ==> final(self).frame is None,
            final(self).parent == old(self).parent && final(self).url == old(self).url && final(self).init_scripts == old(self).init_scripts && final(self).evaluated == old(self).evaluated && final(self).queue == old(self).queue && final(self).bindings == old(self).bindings && final(self).bindings_held == old(self).bindings_held && final(self).terminated == old(self).terminated && final(self).registered == old(self).registered
                && final(self).debug == old(self).debug,
    {
        match &mut self.frame {
            Some(f) => {
                f.title = title.to_owned();
            },
            None => {},
        }
        Ok(())
    }

    /// Sets the client size of the owned window; a session embedded in a
    /// caller's window is left unchanged.  The platform moves the real
    /// window and the embedded control to the new bounds.
    pub fn set_size(&mut self, width: i32, height: i32) -> (r: Result<(), Error>)
        ensures
            r == Ok::<(), Error>(()),
            old(self).frame matches Some(f) ==> final(self).frame matches Some(g) && g.width
                == width && g.height == height && g.window == f.window && g.title == f.title,
            old(self).frame is None ==> final(self).frame is None,
            final(self).parent == old(self).parent && final(self).url == old(self).url && final(self).init_scripts == old(self).init_scripts && final(self).evaluated == old(self).evaluated && final(self).queue == old(self).queue && final(self).bindings == old(self).bindings && final(self).bindings_held == old(self).bindings_held && final(self).terminated == old(self).terminated && final(self).registered == old(self).registered
                && final(self).debug == old(self).debug,
    {
        match &mut self.frame {
            Some(f) => {
                f.width = width;
                f.height = height;
            },
            None => {},
        }
        Ok(())
    }

    /// Installs a script to run on every document creation.
    pub fn init(&mut self, js: &str) -> (r: Result<(), Error>)
        ensures
            r == Ok::<(), Error>(()),
            scripts_view(final(self).init_scripts@) == scripts_view(old(self).init_scripts@).push(
                js@,
            ),
            final(self).parent == old(self).parent && final(self).frame == old(self).frame
                && final(self).url == old(self).url && final(self).evaluated == old(self).evaluated
                && final(self).queue == old(self).queue && final(self).bindings == old(self).bindings && final(self).bindings_held == old(self).bindings_held && final(self).terminated == old(self).terminated && final(self).registered == old(self).registered
                && final(self).debug == old(self).debug,
    {
        self.init_scripts.push(js.to_owned());
        proof {
            assert(scripts_view(self.init_scripts@) =~= scripts_view(old(self).init_scripts@).push(
                js@,
            ));
        }
        Ok(())
    }

    /// Hands a script to the engine for immediate evaluation.
    pub fn eval(&mut self, js: &str) -> (r: Result<(), Error>)
        ensures
            r == Ok::<(), Error>(()),
            scripts_view(final(self).evaluated@) == scripts_view(old(self).evaluated@).push(js@),
            Self::core_unchanged(*final(self), *old(self)),
            final(self).queue == old(self).queue,
    {
        self.evaluated.push(js.to_owned());
        proof {
            assert(scripts_view(self.evaluated@) =~= scripts_view(old(self).evaluated@).push(js@));
        }
        Ok(())
    }

    /// Schedules one unit of work for the owning thread: the work is
    /// appended behind everything already submitted, and the submitter
    /// wakes the owning thread by posting the reserved wake message.
    /// Fails only when the session is already torn down.
    pub fn dispatch(&mut self, work: Work) -> (r: Result<(), Error>)
        ensures
            old(self).terminated ==> r == Err::<(), Error>(Error::SendError) && *final(self)
                == *old(self),
            !old(self).terminated ==> r == Ok::<(), Error>(()) && final(self).queue_view() == old(self).queue_view().push(work@) && Self::core_unchanged(*final(self), *old(self)) && final(self).evaluated == old(self).evaluated,
    {
        if self.terminated {
            return Err(Error::SendError);
        }
        self.queue.dispatch(work);
        proof {
            assert(self.queue_view() =~= old(self).queue_view().push(work@));
        }
        Ok(())
    }

    /// Requests loop exit and releases window ownership: a quit signal is
    /// queued for the owning thread and the window-state association is
    /// given up.  Terminating an already-terminated session is a no-op:
    /// nothing is queued and nothing is released twice.
    pub fn terminate(&mut self) -> (r: Result<(), Error>)
        ensures
            r == Ok::<(), Error>(()),
            old(self).terminated ==> *final(self) == *old(self),
            !old(self).terminated ==> final(self).queue_view() == old(self).queue_view().push(
                WorkView::Quit,
            ) && final(self).terminated && !final(self).registered && final(self).parent == old(self).parent && final(self).frame == old(self).frame && final(self).url == old(self).url
                && final(self).init_scripts == old(self).init_scripts && final(self).evaluated
                == old(self).evaluated && final(self).bindings == old(self).bindings && final(self).bindings_held == old(self).bindings_held && final(self).debug == old(self).debug,
    {
        if self.terminated {
            return Ok(());
        }
        self.dispatch(Work::Quit)?;
        self.registered = false;
        self.terminated = true;
        Ok(())
    }

    /// Executes everything waiting on the queue, in submission order:
    /// each script reaches the engine exactly once, oldest first, and a
    /// queued quit signal reaches the platform's message queue instead.
    pub fn drain_and_execute(&mut self)
        ensures
            scripts_view(final(self).evaluated@) == scripts_view(old(self).evaluated@) + eval_texts(
                old(self).queue_view(),
            ),
            final(self).queue_view() == Seq::<WorkView>::empty(),
            Self::core_unchanged(*final(self), *old(self)),
    {
        let mut works = self.queue.drain();
        proof {
            assert(works@.map_values(|w: Work| w@) =~= old(self).queue_view());
            assert(self.queue_view() =~= Seq::<WorkView>::empty());
        }
        while works.len() > 0
            invariant
                scripts_view(self.evaluated@) + eval_texts(works@.map_values(|w: Work| w@))
                    == scripts_view(old(self).evaluated@) + eval_texts(old(self).queue_view()),
                self.queue_view() == Seq::<WorkView>::empty(),
                Self::core_unchanged(*self, *old(self)),
            decreases works@.len(),
        {
            let ghost before = works@.map_values(|w: Work| w@);
            let ghost ev_before = scripts_view(self.evaluated@);
            let w = works.remove(0);
            proof {
                assert(works@.map_values(|w: Work| w@) =~= before.drop_first());
            }
            match w {
                Work::Eval(s) => {
                    let ghost sv = s@;
                    self.evaluated.push(s);
                    proof {
                        assert(scripts_view(self.evaluated@) =~= ev_before.push(sv));
                        assert(before == seq![WorkView::Eval(sv)].add(before.drop_first()));
                        assert(eval_texts(before) =~= seq![sv] + eval_texts(before.drop_first()));
                        assert(ev_before.push(sv) + eval_texts(before.drop_first()) =~= ev_before
                            + eval_texts(before));
                    }
                },
                Work::Quit => {
                    proof {
                        assert(eval_texts(before) =~= eval_texts(before.drop_first()));
                    }
                },
            }
        }
        proof {
            assert(eval_texts(works@.map_values(|w: Work| w@)) =~= Seq::<Seq<char>>::empty());
            assert(scripts_view(self.evaluated@) =~= scripts_view(self.evaluated@) + Seq::<
                Seq<char>,
            >::empty());
        }
    }

    /// Runs the session: first the pending navigation, if one was set,
    /// waits for its completion by nested pumping over `nav_ticks`; then
    /// the message loop drains the queue, blocks for the next retrieval
    /// result in `msgs`, and repeats, until a quit signal ends it cleanly
    /// or a fatal retrieval error ends it with that error.  Work queued at
    /// entry is executed exactly once, in submission order.
    pub fn run(&mut self, nav_ticks: &mut Vec<PumpTick<()>>, msgs: &mut Vec<MsgResult>) -> (r:
        Result<(), Error>)
        requires
            old(self).url@.len() > 0 ==> spec_pump_result(old(nav_ticks)@) is Some,
            old(self).url@.len() == 0 || spec_pump_result(old(nav_ticks)@) == Some(
                Ok::<(), Error>(()),
            ) ==> spec_loop_result(old(msgs)@) is Some,
        ensures
            old(self).url@.len() > 0 ==> (spec_pump_result(old(nav_ticks)@) matches Some(Err(e))
                ==> r == Err::<(), Error>(e) && *final(self) == *old(self)),
            old(self).url@.len() == 0 || spec_pump_result(old(nav_ticks)@) == Some(
                Ok::<(), Error>(()),
            ) ==> Some(r) == spec_loop_result(old(msgs)@) && scripts_view(final(self).evaluated@)
                == scripts_view(old(self).evaluated@) + eval_texts(old(self).queue_view())
                && final(self).queue_view() == Seq::<WorkView>::empty() && Self::core_unchanged(
                *final(self),
                *old(self),
            ),
    {
        let mut nav: Vec<PumpTick<()>> = Vec::new();
        core::mem::swap(nav_ticks, &mut nav);
        proof {
            assert(nav@ == old(nav_ticks)@);
        }
        if !self.url.as_str().is_empty() {
            let got = wait_with_pump(&mut nav);
            proof {
                assert(Some(got) == spec_pump_result(old(nav_ticks)@));
            }
            match got {
                Ok(u) => {
                    proof {
                        assert(spec_pump_result(old(nav_ticks)@) == Some(Ok::<(), Error>(u)));
                        assert(spec_pump_result(old(nav_ticks)@) == Some(Ok::<(), Error>(())));
                    }
                },
                Err(e) => {
                    proof {
                        assert(spec_pump_result(old(nav_ticks)@) == Some(Err::<(), Error>(e)));
                    }
                    return Err(e);
                },
            }
        }
        self.drain_and_execute();
        proof {
            assert(old(self).url@.len() == 0 || spec_pump_result(old(nav_ticks)@) == Some(
                Ok::<(), Error>(()),
            ));
        }
        while msgs.len() > 0
            invariant
                old(self).url@.len() == 0 || spec_pump_result(old(nav_ticks)@) == Some(
                    Ok::<(), Error>(()),
                ),
                spec_loop_result(msgs@) == spec_loop_result(old(msgs)@),
                spec_loop_result(old(msgs)@) is Some,
                scripts_view(self.evaluated@) == scripts_view(old(self).evaluated@) + eval_texts(
                    old(self).queue_view(),
                ),
                self.queue_view() == Seq::<WorkView>::empty(),
                Self::core_unchanged(*self, *old(self)),
            decreases msgs@.len(),
        {
            let ghost before = msgs@;
            let m = msgs.remove(0);
            proof {
                assert(msgs@ =~= before.drop_first());
            }
            match m {
                MsgResult::Fatal(c) => { return Err(Error::WindowsError(c)) },
                MsgResult::Quit => { return Ok(()) },
                MsgResult::Msg(_) => {
                    let ghost ev = scripts_view(self.evaluated@);
                    self.drain_and_execute();
                    proof {
                        assert(eval_texts(Seq::<WorkView>::empty()) =~= Seq::<Seq<char>>::empty());
                        assert(scripts_view(self.evaluated@) =~= ev);
                    }
                },
            }
        }
        proof {
            assert(false);
        }
        Ok(())
    }

    /// Routes one native window-procedure event for the owned window.  A
    /// resize records the new client size and asks the platform to move
    /// the embedded control; a close request asks the platform to destroy
    /// the window; the destroy notification terminates the session,
    /// exactly once; anything else takes default handling.
    pub fn window_proc(&mut self, msg: WindowMsg) -> (r: WndAction)
        requires
            old(self).frame is Some,
        ensures
            msg matches WindowMsg::Size(w, h) ==> r == WndAction::Resize(w, h) && (final(self).frame matches Some(g) && old(self).frame matches Some(f) && g.width == w && g.height
                == h && g.window == f.window && g.title == f.title) && final(self).parent == old(self).parent && final(self).url == old(self).url && final(self).init_scripts == old(self).init_scripts && final(self).evaluated == old(self).evaluated && final(self).queue
                == old(self).queue && final(self).bindings == old(self).bindings && final(self).bindings_held == old(self).bindings_held && final(self).terminated == old(self).terminated && final(self).registered == old(self).registered && final(self).debug
                == old(self).debug,
            msg is Close ==> r == WndAction::DestroyWindow && *final(self) == *old(self),
            msg is Destroy ==> r == WndAction::Handled && (old(self).terminated ==> *final(self)
                == *old(self)) && (!old(self).terminated ==> final(self).queue_view() == old(self).queue_view().push(WorkView::Quit) && final(self).terminated && !final(self).registered
                && final(self).frame == old(self).frame && final(self).parent == old(self).parent
                && final(self).url == old(self).url && final(self).init_scripts == old(self).init_scripts
                && final(self).evaluated == old(self).evaluated && final(self).bindings == old(self).bindings
                && final(self).bindings_held == old(self).bindings_held && final(self).debug == old(self).debug),
            msg matches WindowMsg::Other(_) ==> r == WndAction::Default && *final(self) == *old(self),
    {
        match msg {
            WindowMsg::Size(w, h) => {
                match &mut self.frame {
                    Some(f) => {
                        f.width = w;
                        f.height = h;
                    },
                    None => {},
                }
                WndAction::Resize(w, h)
            },
            WindowMsg::Close => WndAction::DestroyWindow,
            WindowMsg::Destroy => {
                let _ = self.terminate();
                WndAction::Handled
            },
            WindowMsg::Other(_) => WndAction::Default,
        }
    }
}

impl<C: BindingCallback> WebView<C> {
    /// Registers a host function under a name, replacing any earlier
    /// callback with that name, and installs the page-side shim that makes
    /// `window[name]` a promise-returning function forwarding to the host.
    pub fn bind(&mut self, name: &str, cb: C) -> (r: Result<(), Error>)
        requires
            old(self).wf(),
        ensures
            r == Ok::<(), Error>(()),
            final(self).wf(),
            final(self).bindings.spec_get(name@) == Some(cb),
            forall|n: Seq<char>|
                n != name@ ==> final(self).bindings.spec_get(n) == old(self).bindings.spec_get(n),
            scripts_view(final(self).init_scripts@) == scripts_view(old(self).init_scripts@).push(
                spec_bind_script(name@),
            ),
            final(self).parent == old(self).parent && final(self).frame == old(self).frame
                && final(self).url == old(self).url && final(self).evaluated == old(self).evaluated
                && final(self).queue == old(self).queue && final(self).bindings_held == old(self).bindings_held && final(self).terminated == old(self).terminated && final(self).registered == old(self).registered && final(self).debug == old(self).debug,
    {
        self.bindings.insert(name, cb);
        let js = bind_script(name);
        self.init_scripts.push(js);
        proof {
            assert(scripts_view(self.init_scripts@) =~= scripts_view(old(self).init_scripts@).push(
                spec_bind_script(name@),
            ));
        }
        Ok(())
    }

    /// Settles the pending page-side call `id` by queueing the resolution
    /// script for the owning thread: status zero resolves the promise with
    /// the serialized result, any other status rejects it.  Fails only
    /// when the session is already torn down.
    pub fn resolve(&mut self, id: u64, status: i32, result: serde_json::Value) -> (r: Result<
        (),
        Error,
    >)
        ensures
            old(self).terminated ==> r == Err::<(), Error>(Error::SendError) && *final(self)
                == *old(self),
            !old(self).terminated ==> r == Ok::<(), Error>(()) && final(self).queue_view() == old(self).queue_view().push(
                WorkView::Eval(spec_resolution_script(id, status == 0, json_text(result))),
            ) && Self::core_unchanged(*final(self), *old(self)) && final(self).evaluated == old(self).evaluated,
    {
        let txt = json_to_string(&result);
        let script = resolution_script(id, status, txt.as_str());
        self.dispatch(Work::Eval(script))
    }

    /// Handles one script-originated wire message: decode it, look its
    /// method up, invoke the callback, and queue exactly one resolution
    /// script bearing the same call id — a resolve carrying the returned
    /// value's JSON text for a callback that succeeded, a reject carrying
    /// the error's text for one that failed (see `spec_settle`).  A text
    /// that is not a well-shaped invoke message is ignored without
    /// touching any state; so is a message for an unbound method; a
    /// message arriving while the binding registry is held elsewhere is
    /// dropped rather than queued; and on a session already terminated
    /// the callback still runs but its resolution cannot be queued.
    pub fn handle_web_message(&mut self, raw: &str) -> (r: HandleOutcome)
        requires
            old(self).wf(),
        ensures
            final(self).wf(),
            spec_decode(raw@) is None ==> r == HandleOutcome::Ignored && *final(self) == *old(self),
            spec_decode(raw@) is Some && old(self).bindings_held ==> r == HandleOutcome::Dropped
                && *final(self) == *old(self),
            spec_decode(raw@) matches Some(m) ==> (!old(self).bindings_held && old(self).bindings.spec_get(m.method) is None ==> r == HandleOutcome::Unbound && *final(self)
                == *old(self)),
            spec_decode(raw@) matches Some(m) ==> (!old(self).bindings_held && old(self).bindings.spec_get(m.method) is Some && !old(self).terminated ==> (r
                == HandleOutcome::Resolved || r == HandleOutcome::Rejected) && (exists|
                out: Result<serde_json::Value, Error>,
            |
                final(self).queue_view() == old(self).queue_view().push(
                    #[trigger] spec_settle(m.id, out),
                ) && ((r == HandleOutcome::Resolved) <==> out is Ok)) && final(self).bindings.names() == old(self).bindings.names() && (forall|n: Seq<char>|
                n != m.method ==> final(self).bindings.spec_get(n) == old(self).bindings.spec_get(
                    n,
                )) && final(self).bindings.spec_get(m.method) is Some && final(self).parent == old(self).parent && final(self).frame == old(self).frame && final(self).url == old(self).url
                && final(self).init_scripts == old(self).init_scripts && final(self).evaluated
                == old(self).evaluated && final(self).bindings_held == old(self).bindings_held
                && final(self).terminated == old(self).terminated && final(self).registered == old(self).registered && final(self).debug == old(self).debug),
            spec_decode(raw@) matches Some(m) ==> (!old(self).bindings_held && old(self).bindings.spec_get(m.method) is Some && old(self).terminated ==> r
                == HandleOutcome::Severed && final(self).queue_view() == old(self).queue_view()
                && final(self).bindings.names() == old(self).bindings.names() && (forall|
                n: Seq<char>,
            |
                n != m.method ==> final(self).bindings.spec_get(n) == old(self).bindings.spec_get(
                    n,
                )) && final(self).bindings.spec_get(m.method) is Some && final(self).parent == old(self).parent && final(self).frame == old(self).frame && final(self).url == old(self).url
                && final(self).init_scripts == old(self).init_scripts && final(self).evaluated
                == old(self).evaluated && final(self).bindings_held == old(self).bindings_held
                && final(self).terminated == old(self).terminated && final(self).registered == old(self).registered && final(self).debug == old(self).debug),
    {
        let msg = match decode_invoke(raw) {
            Some(m) => m,
            None => { return HandleOutcome::Ignored },
        };
        let ghost model = msg.model();
        proof {
            assert(spec_decode(raw@) == Some(model));
        }
        if self.bindings_held {
            return HandleOutcome::Dropped;
        }
        let id = msg.id;
        let method = msg.method;
        let out = self.bindings.call(method.as_str(), msg.params);
        match out {
            None => HandleOutcome::Unbound,
            Some(result) => {
                let ghost o = result;
                let ok = result.is_ok();
                let w = settle(id, result);
                let sent = self.dispatch(w);
                let severed = sent.is_err();
                if severed {
                    HandleOutcome::Severed
                } else {
                    proof {
                        assert(self.queue_view() == old(self).queue_view().push(
                            spec_settle(id, o),
                        ));
                        assert(model.id == id);
                        assert(exists|out2: Result<serde_json::Value, Error>|
                            self.queue_view() == old(self).queue_view().push(
                                #[trigger] spec_settle(model.id, out2),
                            ) && (ok <==> out2 is Ok));
                    }
                    if ok {
                        HandleOutcome::Resolved
                    } else {
                        HandleOutcome::Rejected
                    }
                }
            },
        }
    }
}

} // verus!
