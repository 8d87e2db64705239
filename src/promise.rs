use vstd::prelude::*;

verus! {

/// The state of one logical piece of remote data.
///
/// `Deferred` and `Rejected` carry the identity of the request that owns
/// the state; a completion is applied only while the cell is still deferred
/// on that very identity, so a superseded request can never overwrite the
/// state that a newer one owns.
pub enum Promise<T, E> {
    Empty,
    Deferred { def: String },
    Resolved { val: T },
    Rejected { def: String, err: E },
}

impl<T, E> Promise<T, E> {
    /// True when the cell waits on a request whose identity is `def`.
    pub open spec fn spec_is_deferred(&self, def: Seq<char>) -> bool {
        match self {
            Promise::Deferred { def: d } => d@ == def,
            _ => false,
        }
    }

    /// The cell after a completion for `def` arrives: applied when the cell
    /// waits on `def`, dropped otherwise.
    pub open spec fn spec_complete(self, def: String, result: Result<T, E>) -> Promise<T, E> {
        if self.spec_is_deferred(def@) {
            match result {
                Ok(val) => Promise::Resolved { val },
                Err(err) => Promise::Rejected { def, err },
            }
        } else {
            self
        }
    }

    /// The cell after `defer(def)`, whatever it held before.
    pub open spec fn spec_defer(self, def: String) -> Promise<T, E> {
        Promise::Deferred { def }
    }

    pub fn new() -> (r: Self)
        ensures
            r is Empty,
    {
        Promise::Empty
    }

    pub fn is_empty(&self) -> (r: bool)
        ensures
            r == self is Empty,
    {
        matches!(self, Promise::Empty)
    }

    pub fn is_resolved(&self) -> (r: bool)
        ensures
            r == self is Resolved,
    {
        matches!(self, Promise::Resolved { .. })
    }

    pub fn is_rejected(&self) -> (r: bool)
        ensures
            r == self is Rejected,
    {
        matches!(self, Promise::Rejected { .. })
    }

    /// True iff the cell waits on the request identified by `def`.
    pub fn is_deferred(&self, def: &String) -> (r: bool)
        ensures
            r == self.spec_is_deferred(def@),
    {
        match self {
            Promise::Deferred { def: d } => *d == *def,
            _ => false,
        }
    }

    /// The resolved value, if there is one.
    pub fn resolved(&self) -> (r: Option<&T>)
        ensures
            r matches Some(v) <==> self is Resolved,
            self matches Promise::Resolved { val } ==> r == Some(val),
    {
        match self {
            Promise::Resolved { val } => Some(val),
            _ => None,
        }
    }

    /// Forget whatever the cell held.
    pub fn clear(&mut self)
        ensures
            *final(self) is Empty,
    {
        *self = Promise::Empty;
    }

    /// Start waiting on the request identified by `def`, superseding any
    /// earlier request and dropping any earlier result.
    pub fn defer(&mut self, def: String)
        ensures
            *final(self) == old(self).spec_defer(def),
    {
        *self = Promise::Deferred { def };
    }

    /// Start waiting on a request with the empty identity, for cells that
    /// only ever have one request in flight.
    pub fn defer_default(&mut self)
        ensures
            final(self).spec_is_deferred(Seq::empty()),
    {
        *self = Promise::Deferred { def: String::new() };
    }

    /// Apply the completion of the request identified by `def`.
    ///
    /// Applied only when the cell still waits on `def`: the cell then holds
    /// the value, or the error under `def`, and `true` is returned. A
    /// completion for any other identity leaves the cell as it is and
    /// returns `false`.
    pub fn resolve_or_reject(&mut self, def: String, result: Result<T, E>) -> (applied: bool)
        ensures
            applied == old(self).spec_is_deferred(def@),
            *final(self) == old(self).spec_complete(def, result),
    {
        if self.is_deferred(&def) {
            match result {
                Ok(val) => {
                    *self = Promise::Resolved { val };
                },
                Err(err) => {
                    *self = Promise::Rejected { def, err };
                },
            }
            true
        } else {
            false
        }
    }

    /// Resolve with `val` the request identified by `def`, if the cell still
    /// waits on it.
    pub fn resolve(&mut self, def: String, val: T) -> (applied: bool)
        ensures
            applied == old(self).spec_is_deferred(def@),
            *final(self) == old(self).spec_complete(def, Ok(val)),
    {
        self.resolve_or_reject(def, Ok(val))
    }

    /// Reject with `err` the request identified by `def`, if the cell still
    /// waits on it.
    pub fn reject(&mut self, def: String, err: E) -> (applied: bool)
        ensures
            applied == old(self).spec_is_deferred(def@),
            *final(self) == old(self).spec_complete(def, Err(err)),
    {
        self.resolve_or_reject(def, Err(err))
    }
}

/// A completion for a superseded request never reaches the cell: after
/// `defer(a)` and then `defer(b)` for a different identity, the completion of
/// `a` leaves the cell waiting on `b`; and once `b`'s own completion has been
/// applied, a late completion of `a` leaves `b`'s outcome in place.
pub proof fn lemma_stale_completion_dropped<T, E>(
    p: Promise<T, E>,
    a: String,
    b: String,
    result_a: Result<T, E>,
    result_b: Result<T, E>,
)
    requires
        a@ != b@,
    ensures
        p.spec_defer(a).spec_defer(b).spec_complete(a, result_a) == p.spec_defer(a).spec_defer(b),
        p.spec_defer(a).spec_defer(b).spec_complete(b, result_b).spec_complete(a, result_a)
            == p.spec_defer(a).spec_defer(b).spec_complete(b, result_b),
        !(p.spec_defer(a).spec_defer(b).spec_complete(a, result_a) is Resolved),
        !(p.spec_defer(a).spec_defer(b).spec_complete(a, result_a) is Rejected),
{
}

} // verus!
