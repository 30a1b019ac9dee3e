use vstd::prelude::*;
use crate::error::UiError;

verus! {

/// One open scope: the region it draws into and the stamp it was pushed under.
pub struct Entry<R> {
    pub region: R,
    pub stamp: u64,
}

/// Names one open scope: the depth at which it was pushed and its stamp.
/// A token stays usable exactly as long as its entry is on the stack.
#[derive(Clone, Copy, Debug, PartialEq, Eq, Structural)]
pub struct ScopeToken {
    pub depth: usize,
    pub stamp: u64,
}

/// The token names an entry that is still on the stack.
pub open spec fn token_live<R>(s: Seq<Entry<R>>, t: ScopeToken) -> bool {
    t.depth < s.len() && s[t.depth as int].stamp == t.stamp
}

/// The token of the innermost open scope.
pub open spec fn top_token<R>(s: Seq<Entry<R>>) -> ScopeToken
    recommends
        s.len() > 0,
{
    ScopeToken { depth: (s.len() - 1) as usize, stamp: s.last().stamp }
}

/// The stack after a scope with the given token is closed: everything from
/// the token's depth up is gone. A stale token changes nothing.
pub open spec fn closed_at<R>(s: Seq<Entry<R>>, t: ScopeToken) -> Seq<Entry<R>> {
    if token_live(s, t) {
        s.take(t.depth as int)
    } else {
        s
    }
}

/// What closing a scope reports: the region, when the token names the
/// innermost scope; a nesting fault otherwise.
pub open spec fn close_result<R>(s: Seq<Entry<R>>, t: ScopeToken) -> Result<R, UiError> {
    if token_live(s, t) && t.depth + 1 == s.len() {
        Ok(s[t.depth as int].region)
    } else {
        Err(UiError::StackConsistency)
    }
}

/// A token whose scope has closed never names a scope again: closing makes
/// it stale, and neither a later push (whose stamp is newer than every
/// stamp handed out before) nor a later close brings it back.
pub proof fn law_closed_token_stays_stale<R>(
    s: Seq<Entry<R>>,
    next: u64,
    t: ScopeToken,
    region: R,
    other: ScopeToken,
)
    requires
        t.stamp < next,
    ensures
        !token_live(closed_at(s, t), t),
        !token_live(s, t) ==> !token_live(s.push(Entry { region, stamp: next }), t),
        !token_live(s, t) ==> !token_live(closed_at(s, other), t),
{
}

/// A last-in first-out stack of drawing regions. Each push hands out a
/// token with a fresh stamp, so a token of a closed scope is never taken
/// for a later scope at the same depth.
pub struct ScopeStack<R> {
    entries: Vec<Entry<R>>,
    next_stamp: u64,
}

impl<R> ScopeStack<R> {
    /// The open scopes, outermost first.
    pub closed spec fn entries(&self) -> Seq<Entry<R>> {
        self.entries@
    }

    /// The stamp that the next push hands out.
    pub closed spec fn next_stamp(&self) -> u64 {
        self.next_stamp
    }

    pub fn new() -> (r: Self)
        ensures
            r.entries() == Seq::<Entry<R>>::empty(),
            r.next_stamp() == 0,
    {
        ScopeStack { entries: Vec::with_capacity(32), next_stamp: 0 }
    }

    /// The number of open scopes.
    pub fn depth(&self) -> (r: usize)
        ensures
            r == self.entries().len(),
    {
        self.entries.len()
    }

    /// Opens a scope on `region`. Fails, changing nothing, only when the
    /// stamps have run out.
    pub fn push(&mut self, region: R) -> (r: Result<ScopeToken, UiError>)
        ensures
            old(self).next_stamp() < u64::MAX ==> {
                &&& r == Ok::<ScopeToken, UiError>(
                    ScopeToken { depth: old(self).entries().len() as usize, stamp: old(self).next_stamp() },
                )
                &&& final(self).entries() == old(self).entries().push(
                    Entry { region, stamp: old(self).next_stamp() },
                )
                &&& final(self).next_stamp() == old(self).next_stamp() + 1
            },
            old(self).next_stamp() == u64::MAX ==> {
                &&& r == Err::<ScopeToken, UiError>(UiError::StackConsistency)
                &&& final(self).entries() == old(self).entries()
                &&& final(self).next_stamp() == old(self).next_stamp()
            },
    {
        if self.next_stamp == u64::MAX {
            return Err(UiError::StackConsistency);
        }
        let stamp = self.next_stamp;
        let depth = self.entries.len();
        self.entries.push(Entry { region, stamp });
        self.next_stamp = stamp + 1;
        Ok(ScopeToken { depth, stamp })
    }

    /// Removes and returns the innermost region.
    pub fn pop(&mut self) -> (r: Result<R, UiError>)
        ensures
            old(self).entries().len() == 0 ==> {
                &&& r == Err::<R, UiError>(UiError::StackUnderflow)
                &&& final(self).entries() == old(self).entries()
            },
            old(self).entries().len() > 0 ==> {
                &&& r == Ok::<R, UiError>(old(self).entries().last().region)
                &&& final(self).entries() == old(self).entries().drop_last()
            },
            final(self).next_stamp() == old(self).next_stamp(),
    {
        match self.entries.pop() {
            Some(e) => Ok(e.region),
            None => Err(UiError::StackUnderflow),
        }
    }

    /// The innermost region, without removing it.
    pub fn top(&self) -> (r: Result<&R, UiError>)
        ensures
            self.entries().len() == 0 <==> r is Err,
            r matches Err(e) ==> e == UiError::NoActiveScope,
            r matches Ok(x) ==> *x == self.entries().last().region,
    {
        let n = self.entries.len();
        if n == 0 {
            Err(UiError::NoActiveScope)
        } else {
            Ok(&self.entries[n - 1].region)
        }
    }

    /// The region that `t` names, while its scope is open.
    pub fn resolve(&self, t: ScopeToken) -> (r: Result<&R, UiError>)
        ensures
            token_live(self.entries(), t) <==> r is Ok,
            r matches Err(e) ==> e == UiError::DanglingHandle,
            r matches Ok(x) ==> *x == self.entries()[t.depth as int].region,
    {
        if t.depth < self.entries.len() && self.entries[t.depth].stamp == t.stamp {
            Ok(&self.entries[t.depth].region)
        } else {
            Err(UiError::DanglingHandle)
        }
    }

    /// Closes the scope that `t` names, together with any scope opened
    /// inside it and left open, so the depth is again what it was before
    /// that scope opened. Reports a nesting fault unless `t` named the
    /// innermost scope.
    pub fn close(&mut self, t: ScopeToken) -> (r: Result<R, UiError>)
        ensures
            final(self).entries() == closed_at(old(self).entries(), t),
            r == close_result(old(self).entries(), t),
            final(self).next_stamp() == old(self).next_stamp(),
    {
        let n = self.entries.len();
        if t.depth < n && self.entries[t.depth].stamp == t.stamp {
            if t.depth + 1 == n {
                let e = self.entries.pop().unwrap();
                Ok(e.region)
            } else {
                self.entries.truncate(t.depth);
                Err(UiError::StackConsistency)
            }
        } else {
            Err(UiError::StackConsistency)
        }
    }

    /// Drops every open scope.
    pub fn clear(&mut self)
        ensures
            final(self).entries() == Seq::<Entry<R>>::empty(),
            final(self).next_stamp() == old(self).next_stamp(),
    {
        self.entries.truncate(0);
        proof {
            assert(self.entries@ =~= Seq::<Entry<R>>::empty());
        }
    }
}

} // verus!
