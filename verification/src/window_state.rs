//! The window-state registry: which session owns which native window.
//!
//! Native window-procedure callbacks only receive a window handle; this
//! registry lets them route the event back to the owning session.  At most
//! one owner is associated with a handle at a time.  Setting an
//! association returns the previous one, and clearing an absent
//! association returns nothing and changes nothing, so an owner is
//! released at most once however often it is cleared.

use vstd::prelude::*;

verus! {

/// The owner associated with a handle: the entry carrying it, if any.
pub open spec fn assoc_get<S>(s: Seq<(u64, S)>, hwnd: u64) -> Option<S>
    decreases s.len(),
{
    if s.len() == 0 {
        None
    } else if s.last().0 == hwnd {
        Some(s.last().1)
    } else {
        assoc_get(s.drop_last(), hwnd)
    }
}

/// Associates native window handles with their owning sessions.
pub struct WindowStateRegistry<S> {
    entries: Vec<(u64, S)>,
}

impl<S> View for WindowStateRegistry<S> {
    type V = Seq<(u64, S)>;

    closed spec fn view(&self) -> Seq<(u64, S)> {
        self.entries@
    }
}

impl<S> WindowStateRegistry<S> {
    /// No two entries share a handle: at most one owner per window.
    pub open spec fn wf(self) -> bool {
        forall|i: int, j: int| 0 <= i < j < self@.len() ==> self@[i].0 != self@[j].0
    }

    /// The owner associated with a handle.
    pub open spec fn spec_get(self, hwnd: u64) -> Option<S> {
        assoc_get(self@, hwnd)
    }

    /// An empty registry.
    pub fn new() -> (r: WindowStateRegistry<S>)
        ensures
            r@ == Seq::<(u64, S)>::empty(),
            r.wf(),
    {
        WindowStateRegistry { entries: Vec::new() }
    }

    /// How many windows are owned.
    pub fn len(&self) -> (r: usize)
        ensures
            r == self@.len(),
    {
        self.entries.len()
    }

    /// The index of the entry carrying `hwnd`, if one does.
    fn position(&self, hwnd: u64) -> (r: Option<usize>)
        ensures
            r matches Some(i) ==> i < self@.len() && self@[i as int].0 == hwnd && (forall|j: int|
                i < j < self@.len() ==> self@[j].0 != hwnd),
            r is None ==> forall|j: int| 0 <= j < self@.len() ==> self@[j].0 != hwnd,
    {
        let mut k = self.entries.len();
        while k > 0
            invariant
                k <= self@.len(),
                forall|j: int| k <= j < self@.len() ==> self@[j].0 != hwnd,
            decreases k,
        {
            k = k - 1;
            if self.entries[k].0 == hwnd {
                return Some(k);
            }
        }
        None
    }

    /// Stores or clears the association for `hwnd` and returns the
    /// previous owner: `Some(s)` installs `s` as the handle's owner,
    /// `None` releases the handle.  Every other handle keeps its owner.
    pub fn set_window_webview(&mut self, hwnd: u64, s: Option<S>) -> (r: Option<S>)
        requires
            old(self).wf(),
        ensures
            final(self).wf(),
            r == old(self).spec_get(hwnd),
            final(self).spec_get(hwnd) == s,
            forall|h: u64| h != hwnd ==> final(self).spec_get(h) == old(self).spec_get(h),
    {
        let pos = self.position(hwnd);
        proof {
            match pos {
                Some(i) => lemma_assoc_get_at(self@, i as int, hwnd),
                None => lemma_assoc_get_none(self@, hwnd),
            }
        }
        match (pos, s) {
            (Some(i), Some(v)) => {
                let ghost sq = self@;
                let (_, prev) = self.entries.remove(i);
                self.entries.insert(i, (hwnd, v));
                proof {
                    assert(self@ =~= sq.update(i as int, (hwnd, v)));
                    lemma_assoc_get_update(sq, i as int, v, hwnd);
                    assert forall|h: u64| h != hwnd implies assoc_get(self@, h) == assoc_get(
                        sq,
                        h,
                    ) by {
                        lemma_assoc_get_update(sq, i as int, v, h);
                    }
                }
                Some(prev)
            },
            (Some(i), None) => {
                let ghost sq = self@;
                let (_, prev) = self.entries.remove(i);
                proof {
                    lemma_assoc_get_remove(sq, i as int, hwnd);
                    assert forall|h: u64| h != hwnd implies assoc_get(self@, h) == assoc_get(
                        sq,
                        h,
                    ) by {
                        lemma_assoc_get_remove(sq, i as int, h);
                    }
                }
                Some(prev)
            },
            (None, Some(v)) => {
                let ghost sq = self@;
                self.entries.push((hwnd, v));
                proof {
                    assert(self@.drop_last() =~= sq);
                }
                None
            },
            (None, None) => None,
        }
    }

    /// The session owning `hwnd`, or `None` for an unowned window.
    pub fn get_window_webview(&self, hwnd: u64) -> (r: Option<&S>)
        ensures
            r is Some <==> self.spec_get(hwnd) is Some,
            r matches Some(v) ==> self.spec_get(hwnd) == Some(*v),
    {
        let pos = self.position(hwnd);
        proof {
            match pos {
                Some(i) => lemma_assoc_get_at(self@, i as int, hwnd),
                None => lemma_assoc_get_none(self@, hwnd),
            }
        }
        match pos {
            Some(i) => Some(&self.entries[i].1),
            None => None,
        }
    }
}

/// Replacing the owner at the latest entry for a handle changes that
/// handle's owner and nothing else.
proof fn lemma_assoc_get_update<S>(s: Seq<(u64, S)>, i: int, v: S, h: u64)
    requires
        0 <= i < s.len(),
        forall|j: int| i < j < s.len() ==> s[j].0 != s[i].0,
    ensures
        assoc_get(s.update(i, (s[i].0, v)), s[i].0) == Some(v),
        h != s[i].0 ==> assoc_get(s.update(i, (s[i].0, v)), h) == assoc_get(s, h),
    decreases s.len(),
{
    let t = s.update(i, (s[i].0, v));
    if i == s.len() - 1 {
        assert(t.drop_last() =~= s.drop_last());
    } else {
        assert(t.last() == s.last());
        assert(t.drop_last() =~= s.drop_last().update(i, (s[i].0, v)));
        lemma_assoc_get_update(s.drop_last(), i, v, h);
    }
}

/// Removing the latest entry for a handle releases that handle's owner
/// and no other.
proof fn lemma_assoc_get_remove<S>(s: Seq<(u64, S)>, i: int, h: u64)
    requires
        0 <= i < s.len(),
        forall|j: int| 0 <= j < s.len() && j != i ==> s[j].0 != s[i].0,
    ensures
        assoc_get(s.remove(i), s[i].0) is None,
        h != s[i].0 ==> assoc_get(s.remove(i), h) == assoc_get(s, h),
    decreases s.len(),
{
    let t = s.remove(i);
    if i == s.len() - 1 {
        assert(t =~= s.drop_last());
        lemma_assoc_get_none(s.drop_last(), s[i].0);
    } else {
        assert(t.last() == s.last());
        assert(t.drop_last() =~= s.drop_last().remove(i));
        lemma_assoc_get_remove(s.drop_last(), i, h);
    }
}

/// A latest matching entry is what lookup returns.
proof fn lemma_assoc_get_at<S>(s: Seq<(u64, S)>, i: int, h: u64)
    requires
        0 <= i < s.len(),
        s[i].0 == h,
        forall|j: int| i < j < s.len() ==> s[j].0 != h,
    ensures
        assoc_get(s, h) == Some(s[i].1),
    decreases s.len(),
{
    if i < s.len() - 1 {
        lemma_assoc_get_at(s.drop_last(), i, h);
    }
}

/// A handle no entry carries has no owner.
proof fn lemma_assoc_get_none<S>(s: Seq<(u64, S)>, h: u64)
    requires
        forall|j: int| 0 <= j < s.len() ==> s[j].0 != h,
    ensures
        assoc_get(s, h) is None,
    decreases s.len(),
{
    if s.len() > 0 {
        lemma_assoc_get_none(s.drop_last(), h);
    }
}

} // verus!
