//! Context propagation for request metadata.
//!
//! Two cooperating mechanisms, selectable per call site: a scoped binding
//! (`with`, or the `push_scope`/`pop_scope` pair it is built from) visible
//! only for the dynamic extent of one call, and a weaker settable default
//! binding (`set`/`unset`) for flows that a single synchronous call cannot
//! span.  `get` prefers the innermost scoped binding and falls back to the
//! default one.

use vstd::prelude::*;

use crate::payload::opt_request_view;
use crate::payload::RequestInfo;
use crate::payload::RequestInfoV;

verus! {

/// The value `get` returns for a given stack of scoped bindings and
/// default slot: the innermost scoped binding when one is active, else the
/// default binding, else nothing.
pub open spec fn get_of(scoped: Seq<RequestInfoV>, dflt: Option<RequestInfoV>) -> Option<
    RequestInfoV,
> {
    if scoped.len() > 0 {
        Some(scoped.last())
    } else {
        dflt
    }
}

/// Holds the context bindings of one logical flow: a stack of scoped
/// bindings and one settable default slot.
#[derive(Debug)]
pub struct ContextStore {
    scoped: Vec<RequestInfo>,
    default_slot: Option<RequestInfo>,
}

impl ContextStore {
    /// The stack of scoped bindings, outermost first.
    pub closed spec fn scoped_view(&self) -> Seq<RequestInfoV> {
        self.scoped@.map_values(|r: RequestInfo| r@)
    }

    /// The default binding, when set.
    pub closed spec fn default_view(&self) -> Option<RequestInfoV> {
        opt_request_view(self.default_slot)
    }

    /// What `get` returns on this store.
    pub open spec fn get_spec(&self) -> Option<RequestInfoV> {
        get_of(self.scoped_view(), self.default_view())
    }

    /// A store with no binding at all.
    pub fn new() -> (s: ContextStore)
        ensures
            s.scoped_view().len() == 0,
            s.default_view() is None,
    {
        let s = ContextStore { scoped: Vec::new(), default_slot: None };
        proof {
            assert(s.scoped_view() =~= Seq::<RequestInfoV>::empty());
        }
        s
    }

    /// The currently visible context: the innermost scoped binding if one
    /// is active, otherwise the default binding if set, otherwise nothing.
    pub fn get(&self) -> (r: Option<RequestInfo>)
        ensures
            opt_request_view(r) == self.get_spec(),
    {
        if self.scoped.len() > 0 {
            Some(self.scoped[self.scoped.len() - 1].clone())
        } else {
            match &self.default_slot {
                Some(r) => Some(r.clone()),
                None => None,
            }
        }
    }

    /// How many scoped bindings are active.
    pub fn scope_depth(&self) -> (n: usize)
        ensures
            n == self.scoped_view().len(),
    {
        self.scoped.len()
    }

    /// Makes `r` the innermost scoped binding.
    pub fn push_scope(&mut self, r: RequestInfo)
        ensures
            final(self).scoped_view() == old(self).scoped_view().push(r@),
            final(self).default_view() == old(self).default_view(),
    {
        self.scoped.push(r);
        proof {
            assert(final(self).scoped_view() =~= old(self).scoped_view().push(r@));
        }
    }

    /// Removes the innermost scoped binding.
    pub fn pop_scope(&mut self)
        requires
            old(self).scoped_view().len() > 0,
        ensures
            final(self).scoped_view() == old(self).scoped_view().drop_last(),
            final(self).default_view() == old(self).default_view(),
    {
        let _ = self.scoped.pop();
        proof {
            assert(final(self).scoped_view() =~= old(self).scoped_view().drop_last());
        }
    }

    /// Runs `body` with `r` visible as the innermost scoped binding, and
    /// removes the binding the instant `body` returns: the store reads
    /// exactly as before, whatever `body` observed.
    pub fn with<R, F: FnOnce(&ContextStore) -> R>(&mut self, r: RequestInfo, body: F) -> (ret: R)
        requires
            forall|s: ContextStore| call_requires(body, (&s,)),
        ensures
            final(self).scoped_view() == old(self).scoped_view(),
            final(self).default_view() == old(self).default_view(),
            exists|s: ContextStore|
                s.scoped_view() == old(self).scoped_view().push(r@) && s.default_view() == old(
                    self,
                ).default_view() && call_ensures(body, (&s,), ret),
    {
        let ghost pre_scoped = self.scoped_view();
        self.push_scope(r);
        let ret = body(&*self);
        self.pop_scope();
        proof {
            assert(final(self).scoped_view() =~= pre_scoped);
        }
        ret
    }

    /// Sets the default binding; it stays visible until `unset`.
    pub fn set(&mut self, r: RequestInfo)
        ensures
            final(self).default_view() == Some(r@),
            final(self).scoped_view() == old(self).scoped_view(),
    {
        self.default_slot = Some(r);
    }

    /// Clears the default binding.
    pub fn unset(&mut self)
        ensures
            final(self).default_view() is None,
            final(self).scoped_view() == old(self).scoped_view(),
    {
        self.default_slot = None;
    }
}

/// Scoped bindings nest and never leak: while a scoped binding `v` is the
/// innermost one, `get` returns exactly `v`, whatever the default slot
/// holds; and the instant the binding is removed, `get` returns exactly
/// what it returned before the binding was made.
pub proof fn lemma_scoped_binding(
    scoped: Seq<RequestInfoV>,
    dflt: Option<RequestInfoV>,
    v: RequestInfoV,
)
    ensures
        get_of(scoped.push(v), dflt) == Some(v),
        get_of(scoped.push(v).drop_last(), dflt) == get_of(scoped, dflt),
{
    assert(scoped.push(v).last() == v);
    assert(scoped.push(v).drop_last() =~= scoped);
}

} // verus!
