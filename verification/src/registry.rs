//! The binding registry: the name-to-callback table of host functions that
//! page script can invoke.
//!
//! Registration replaces any earlier callback under the same name, so the
//! table never holds two callbacks for one name.  In the running system the
//! registry sits behind a mutex whose acquisition during message handling
//! is non-blocking; that contention policy is modelled in the session, not
//! here.

use vstd::prelude::*;
use crate::error::Error;

verus! {

/// A host function invokable from page script.  The bridge's users
/// implement this for their own callback state; a callback may mutate that
/// state, and reports failure with an error whose text reaches the page as
/// a promise rejection.
pub trait BindingCallback {
    fn invoke(&mut self, params: Vec<serde_json::Value>) -> Result<serde_json::Value, Error>;
}

/// The callback registered under a name: the latest entry with that name,
/// or `None` when no entry carries it.
pub open spec fn seq_get<C>(s: Seq<(String, C)>, n: Seq<char>) -> Option<C>
    decreases s.len(),
{
    if s.len() == 0 {
        None
    } else if s.last().0@ == n {
        Some(s.last().1)
    } else {
        seq_get(s.drop_last(), n)
    }
}

/// A name-to-callback table; lookups see the latest registration under
/// each name.
pub struct BindingRegistry<C> {
    entries: Vec<(String, C)>,
}

impl<C> View for BindingRegistry<C> {
    type V = Seq<(String, C)>;

    closed spec fn view(&self) -> Seq<(String, C)> {
        self.entries@
    }
}

impl<C> BindingRegistry<C> {
    /// No two entries share a name.
    pub open spec fn wf(self) -> bool {
        forall|i: int, j: int| 0 <= i < j < self@.len() ==> self@[i].0@ != self@[j].0@
    }

    /// The names registered, in registration order.
    pub open spec fn names(self) -> Seq<Seq<char>> {
        self@.map_values(|e: (String, C)| e.0@)
    }

    /// The callback registered under a name.
    pub open spec fn spec_get(self, n: Seq<char>) -> Option<C> {
        seq_get(self@, n)
    }

    /// An empty registry.
    pub fn new() -> (r: BindingRegistry<C>)
        ensures
            r@ == Seq::<(String, C)>::empty(),
            r.wf(),
    {
        BindingRegistry { entries: Vec::new() }
    }

    /// How many bindings are registered.
    pub fn len(&self) -> (r: usize)
        ensures
            r == self@.len(),
    {
        self.entries.len()
    }

    /// Registers `cb` under `name`, replacing any earlier callback with
    /// that name: afterwards the name resolves to `cb` and every other
    /// name resolves as before.
    pub fn insert(&mut self, name: &str, cb: C)
        requires
            old(self).wf(),
        ensures
            final(self).wf(),
            final(self).spec_get(name@) == Some(cb),
            forall|n: Seq<char>| n != name@ ==> final(self).spec_get(n) == old(self).spec_get(n),
    {
        let owned = name.to_owned();
        match self.position(&owned) {
            Some(i) => {
                let ghost s = self@;
                let (nm, _) = self.entries.remove(i);
                self.entries.insert(i, (nm, cb));
                proof {
                    assert(self@ =~= s.update(i as int, (s[i as int].0, cb)));
                    lemma_seq_get_update(s, i as int, cb, name@);
                    assert forall|n: Seq<char>| n != name@ implies seq_get(self@, n) == seq_get(
                        s,
                        n,
                    ) by {
                        lemma_seq_get_update(s, i as int, cb, n);
                    }
                }
            },
            None => {
                let ghost s = self@;
                self.entries.push((owned, cb));
                proof {
                    assert(self@.drop_last() =~= s);
                    assert(self@.last().0@ == name@);
                }
            },
        }
    }

    /// The index of the latest entry carrying `name`, if one does.
    fn position(&self, name: &String) -> (r: Option<usize>)
        ensures
            r matches Some(i) ==> i < self@.len() && self@[i as int].0@ == name@ && (forall|j: int|
                i < j < self@.len() ==> self@[j].0@ != name@),
            r is None ==> forall|j: int| 0 <= j < self@.len() ==> self@[j].0@ != name@,
    {
        let mut k = self.entries.len();
        while k > 0
            invariant
                k <= self@.len(),
                forall|j: int| k <= j < self@.len() ==> self@[j].0@ != name@,
            decreases k,
        {
            k = k - 1;
            if self.entries[k].0 == *name {
                return Some(k);
            }
        }
        None
    }

    /// Whether a callback is registered under `name`.
    pub fn is_bound(&self, name: &str) -> (r: bool)
        ensures
            r == (self.spec_get(name@) is Some),
    {
        let owned = name.to_owned();
        let r = self.position(&owned);
        proof {
            match r {
                Some(i) => lemma_seq_get_at(self@, i as int, name@),
                None => lemma_seq_get_none(self@, name@),
            }
        }
        r.is_some()
    }
}

impl<C: BindingCallback> BindingRegistry<C> {
    /// Looks `name` up and, when it is bound, invokes its callback on
    /// `params`, yielding the callback's own result.  The callback may
    /// mutate its state, but the table's shape is untouched: the same
    /// names stay bound in the same order, and every other name resolves
    /// to the same callback as before.
    pub fn call(&mut self, name: &str, params: Vec<serde_json::Value>) -> (r: Option<
        Result<serde_json::Value, Error>,
    >)
        requires
            old(self).wf(),
        ensures
            final(self).wf(),
            r is Some <==> old(self).spec_get(name@) is Some,
            r is None ==> *final(self) == *old(self),
            final(self).names() == old(self).names(),
            final(self).spec_get(name@) is Some <==> old(self).spec_get(name@) is Some,
            forall|n: Seq<char>| n != name@ ==> final(self).spec_get(n) == old(self).spec_get(n),
    {
        let owned = name.to_owned();
        match self.position(&owned) {
            Some(i) => {
                let ghost s = self@;
                proof {
                    lemma_seq_get_at(s, i as int, name@);
                }
                let (nm, mut cb) = self.entries.remove(i);
                let out = cb.invoke(params);
                self.entries.insert(i, (nm, cb));
                proof {
                    assert(self@ =~= s.update(i as int, (s[i as int].0, cb)));
                    lemma_seq_get_update(s, i as int, cb, name@);
                    assert forall|n: Seq<char>| n != name@ implies seq_get(self@, n) == seq_get(
                        s,
                        n,
                    ) by {
                        lemma_seq_get_update(s, i as int, cb, n);
                    }
                    assert(self.names() =~= old(self).names());
                }
                Some(out)
            },
            None => {
                proof {
                    lemma_seq_get_none(self@, name@);
                }
                None
            },
        }
    }
}

/// Replacing the callback at the latest entry for a name changes what that
/// name resolves to and nothing else.
pub proof fn lemma_seq_get_update<C>(s: Seq<(String, C)>, i: int, c: C, n: Seq<char>)
    requires
        0 <= i < s.len(),
        forall|j: int| i < j < s.len() ==> s[j].0@ != s[i].0@,
    ensures
        seq_get(s.update(i, (s[i].0, c)), s[i].0@) == Some(c),
        n != s[i].0@ ==> seq_get(s.update(i, (s[i].0, c)), n) == seq_get(s, n),
    decreases s.len(),
{
    let t = s.update(i, (s[i].0, c));
    if i == s.len() - 1 {
        assert(t.drop_last() =~= s.drop_last());
    } else {
        assert(t.last() == s.last());
        assert(t.drop_last() =~= s.drop_last().update(i, (s[i].0, c)));
        lemma_seq_get_update(s.drop_last(), i, c, n);
    }
}

/// A latest matching entry is what lookup returns.
pub proof fn lemma_seq_get_at<C>(s: Seq<(String, C)>, i: int, n: Seq<char>)
    requires
        0 <= i < s.len(),
        s[i].0@ == n,
        forall|j: int| i < j < s.len() ==> s[j].0@ != n,
    ensures
        seq_get(s, n) == Some(s[i].1),
    decreases s.len(),
{
    if i < s.len() - 1 {
        lemma_seq_get_at(s.drop_last(), i, n);
    }
}

/// A name no entry carries resolves to nothing.
pub proof fn lemma_seq_get_none<C>(s: Seq<(String, C)>, n: Seq<char>)
    requires
        forall|j: int| 0 <= j < s.len() ==> s[j].0@ != n,
    ensures
        seq_get(s, n) is None,
    decreases s.len(),
{
    if s.len() > 0 {
        lemma_seq_get_none(s.drop_last(), n);
    }
}

} // verus!
