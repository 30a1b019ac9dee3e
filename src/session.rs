use vstd::prelude::*;
use crate::error::{ScopeOutcome, UiError};
use crate::stack::{closed_at, close_result, Entry, ScopeStack, ScopeToken};

verus! {

/// The owner after a start by `thread`: unchanged when a run is active.
pub open spec fn started(owner: Option<u64>, thread: u64) -> Option<u64> {
    if owner is Some {
        owner
    } else {
        Some(thread)
    }
}

/// What a start reports: it succeeds exactly when no run is active.
pub open spec fn start_result(owner: Option<u64>) -> Result<(), UiError> {
    if owner is Some {
        Err(UiError::AlreadyRunning)
    } else {
        Ok(())
    }
}

/// A drawing call from `thread` has a region to draw into: the thread owns
/// the run and a frame is open.
pub open spec fn frame_open<R>(owner: Option<u64>, thread: u64, s: Seq<Entry<R>>) -> bool {
    owner == Some(thread) && s.len() > 0
}

/// What opening a frame reports: a usage error for a thread that does not
/// own the run, a nesting fault when a frame is already open or the stamps
/// have run out, else the token of the root scope.
pub open spec fn frame_start_result<R>(
    owner: Option<u64>,
    thread: u64,
    s: Seq<Entry<R>>,
    next: u64,
) -> Result<ScopeToken, UiError> {
    if owner != Some(thread) {
        Err(UiError::NoActiveFrame)
    } else if s.len() > 0 || next == u64::MAX {
        Err(UiError::StackConsistency)
    } else {
        Ok(ScopeToken { depth: 0, stamp: next })
    }
}

/// What leaving a scope reports once its region is closed: how the body
/// ended, or the nesting fault that closing found.
pub open spec fn leave_result<R>(s: Seq<Entry<R>>, t: ScopeToken, body_ok: bool) -> Result<
    ScopeOutcome,
    UiError,
> {
    match close_result(s, t) {
        Ok(_) => Ok(
            if body_ok {
                ScopeOutcome::Completed
            } else {
                ScopeOutcome::BodyFailed
            },
        ),
        Err(e) => Err(e),
    }
}

/// One run of the interface: which thread owns it, if any, and the stack
/// of open scopes of the frame being drawn.
pub struct Session<R> {
    owner: Option<u64>,
    stack: ScopeStack<R>,
}

impl<R> Session<R> {
    /// The thread that owns the run; `None` while no run is active.
    pub closed spec fn owner(&self) -> Option<u64> {
        self.owner
    }

    /// The open scopes, outermost (the frame's root) first.
    pub closed spec fn entries(&self) -> Seq<Entry<R>> {
        self.stack.entries()
    }

    /// The stamp that the next opened scope gets.
    pub closed spec fn next_stamp(&self) -> u64 {
        self.stack.next_stamp()
    }

    /// A session with no run and no open scope.
    pub fn new() -> (r: Self)
        ensures
            r.owner() == None::<u64>,
            r.entries() == Seq::<Entry<R>>::empty(),
            r.next_stamp() == 0,
    {
        Session { owner: None, stack: ScopeStack::new() }
    }

    /// Whether a run is active.
    pub fn is_running(&self) -> (r: bool)
        ensures
            r == self.owner() is Some,
    {
        self.owner.is_some()
    }

    /// The number of open scopes.
    pub fn depth(&self) -> (r: usize)
        ensures
            r == self.entries().len(),
    {
        self.stack.depth()
    }

    /// Starts a run owned by `thread`. Fails at once, changing nothing, while
    /// another run is active.
    pub fn start(&mut self, thread: u64) -> (r: Result<(), UiError>)
        ensures
            r == start_result(old(self).owner()),
            final(self).owner() == started(old(self).owner(), thread),
            final(self).entries() == old(self).entries(),
            final(self).next_stamp() == old(self).next_stamp(),
    {
        if self.owner.is_some() {
            Err(UiError::AlreadyRunning)
        } else {
            self.owner = Some(thread);
            Ok(())
        }
    }

    /// Ends the run that `thread` owns, dropping any scope left open, so a
    /// later start may succeed. Any other caller gets a usage error and
    /// changes nothing.
    pub fn finish(&mut self, thread: u64) -> (r: Result<(), UiError>)
        ensures
            old(self).owner() == Some(thread) ==> {
                &&& r == Ok::<(), UiError>(())
                &&& final(self).owner() == None::<u64>
                &&& final(self).entries() == Seq::<Entry<R>>::empty()
            },
            old(self).owner() != Some(thread) ==> {
                &&& r == Err::<(), UiError>(UiError::NoActiveFrame)
                &&& final(self).owner() == old(self).owner()
                &&& final(self).entries() == old(self).entries()
            },
            final(self).next_stamp() == old(self).next_stamp(),
    {
        if self.owner == Some(thread) {
            self.stack.clear();
            self.owner = None;
            Ok(())
        } else {
            Err(UiError::NoActiveFrame)
        }
    }

    /// The region that drawing calls from `thread` draw into: the innermost
    /// open scope. Fails with a usage error outside an active frame or on a
    /// thread that does not own the run.
    pub fn current(&self, thread: u64) -> (r: Result<&R, UiError>)
        ensures
            frame_open(self.owner(), thread, self.entries()) <==> r is Ok,
            r matches Err(e) ==> e == UiError::NoActiveFrame,
            r matches Ok(x) ==> *x == self.entries().last().region,
    {
        if self.owner != Some(thread) {
            return Err(UiError::NoActiveFrame);
        }
        match self.stack.top() {
            Ok(x) => Ok(x),
            Err(_) => Err(UiError::NoActiveFrame),
        }
    }

    /// Opens a frame on `thread`, with `root` as the region for the whole
    /// visible area.
    pub fn begin_frame(&mut self, thread: u64, root: R) -> (r: Result<ScopeToken, UiError>)
        ensures
            r == frame_start_result(old(self).owner(), thread, old(self).entries(), old(self).next_stamp()),
            final(self).owner() == old(self).owner(),
            r is Ok ==> {
                &&& final(self).entries() == seq![Entry { region: root, stamp: old(self).next_stamp() }]
                &&& final(self).next_stamp() == old(self).next_stamp() + 1
            },
            r is Err ==> {
                &&& final(self).entries() == old(self).entries()
                &&& final(self).next_stamp() == old(self).next_stamp()
            },
    {
        if self.owner != Some(thread) {
            return Err(UiError::NoActiveFrame);
        }
        if self.stack.depth() > 0 {
            return Err(UiError::StackConsistency);
        }
        let r = self.stack.push(root);
        proof {
            assert(old(self).entries().push(Entry { region: root, stamp: old(self).next_stamp() })
                =~= seq![Entry { region: root, stamp: old(self).next_stamp() }]);
        }
        r
    }

    /// Opens a nested scope on `region`, inside the innermost open scope.
    /// Fails with a usage error outside an active frame or on a thread that
    /// does not own the run.
    pub fn enter_scope(&mut self, thread: u64, region: R) -> (r: Result<ScopeToken, UiError>)
        ensures
            final(self).owner() == old(self).owner(),
            !frame_open(old(self).owner(), thread, old(self).entries()) ==> {
                &&& r == Err::<ScopeToken, UiError>(UiError::NoActiveFrame)
                &&& final(self).entries() == old(self).entries()
                &&& final(self).next_stamp() == old(self).next_stamp()
            },
            frame_open(old(self).owner(), thread, old(self).entries()) && old(self).next_stamp()
                < u64::MAX ==> {
                &&& r == Ok::<ScopeToken, UiError>(
                    ScopeToken { depth: old(self).entries().len() as usize, stamp: old(self).next_stamp() },
                )
                &&& final(self).entries() == old(self).entries().push(
                    Entry { region, stamp: old(self).next_stamp() },
                )
                &&& final(self).next_stamp() == old(self).next_stamp() + 1
            },
            frame_open(old(self).owner(), thread, old(self).entries()) && old(self).next_stamp()
                == u64::MAX ==> {
                &&& r == Err::<ScopeToken, UiError>(UiError::StackConsistency)
                &&& final(self).entries() == old(self).entries()
                &&& final(self).next_stamp() == old(self).next_stamp()
            },
    {
        if self.owner != Some(thread) || self.stack.depth() == 0 {
            return Err(UiError::NoActiveFrame);
        }
        self.stack.push(region)
    }

    /// Closes the scope that `t` names, whether its body returned normally
    /// (`body_ok`) or reported an error. The close happens on every path: an
    /// error of the body is reported as an outcome, not raised. A frame's
    /// root scope is closed the same way.
    pub fn leave_scope(&mut self, thread: u64, t: ScopeToken, body_ok: bool) -> (r: Result<
        ScopeOutcome,
        UiError,
    >)
        ensures
            final(self).owner() == old(self).owner(),
            final(self).next_stamp() == old(self).next_stamp(),
            old(self).owner() != Some(thread) ==> {
                &&& r == Err::<ScopeOutcome, UiError>(UiError::NoActiveFrame)
                &&& final(self).entries() == old(self).entries()
            },
            old(self).owner() == Some(thread) ==> {
                &&& r == leave_result(old(self).entries(), t, body_ok)
                &&& final(self).entries() == closed_at(old(self).entries(), t)
            },
    {
        if self.owner != Some(thread) {
            return Err(UiError::NoActiveFrame);
        }
        match self.stack.close(t) {
            Ok(_) => {
                if body_ok {
                    Ok(ScopeOutcome::Completed)
                } else {
                    Ok(ScopeOutcome::BodyFailed)
                }
            },
            Err(e) => Err(e),
        }
    }

    /// Settles a scope call once the toolkit has returned. `ran` is what
    /// leaving the scope reported, or `None` when the toolkit did not open
    /// the region and the body never ran. The depth must be what it was
    /// before the call (`depth_before`); otherwise the call left the stack
    /// in a state it must not, and that is reported as a nesting fault.
    pub fn finish_scope(&self, depth_before: usize, ran: Option<Result<ScopeOutcome, UiError>>) -> (r:
        Result<ScopeOutcome, UiError>)
        ensures
            self.entries().len() != depth_before ==> r == Err::<ScopeOutcome, UiError>(
                UiError::StackConsistency,
            ),
            self.entries().len() == depth_before ==> r == match ran {
                None => Ok(ScopeOutcome::RegionUnavailable),
                Some(x) => x,
            },
    {
        if self.stack.depth() != depth_before {
            return Err(UiError::StackConsistency);
        }
        match ran {
            None => Ok(ScopeOutcome::RegionUnavailable),
            Some(x) => x,
        }
    }
}

} // verus!
