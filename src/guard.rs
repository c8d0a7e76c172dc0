use vstd::prelude::*;

use crate::fault::ErrorClass;

verus! {

/// One step of the history of a guard: a context (named by its number)
/// took the handle, or gave it back.
#[derive(Clone, Copy, Debug, PartialEq, Eq, Structural)]
pub enum GuardEvent {
    Acquired(u64),
    Released(u64),
}

/// The answer to an attempt to take a guard.
#[derive(Clone, Copy, Debug, PartialEq, Eq, Structural)]
pub enum Acquire {
    /// The caller now holds the handle exclusively.
    Granted,
    /// Another context holds it; the caller waits and tries again.
    Busy,
    /// A previous holder aborted inside its critical section.
    Poisoned,
}

pub open spec fn is_acquire(e: GuardEvent) -> bool {
    match e {
        GuardEvent::Acquired(_) => true,
        GuardEvent::Released(_) => false,
    }
}

pub open spec fn context_of(e: GuardEvent) -> u64 {
    match e {
        GuardEvent::Acquired(c) => c,
        GuardEvent::Released(c) => c,
    }
}

/// A history in which critical sections never interleave: it alternates
/// between taking and giving back, and each release comes from the context
/// that took the handle just before it.
pub open spec fn serialized(t: Seq<GuardEvent>) -> bool {
    forall|i: int|
        0 <= i < t.len() ==> if i % 2 == 0 {
            is_acquire(#[trigger] t[i])
        } else {
            t[i] == GuardEvent::Released(context_of(t[i - 1]))
        }
}

/// The arbitration state of the guard around one device handle: who holds
/// it, whether a holder aborted, and the history of who held it when.
pub struct Arbiter {
    holder: Option<u64>,
    poisoned: bool,
    history: Ghost<Seq<GuardEvent>>,
}

impl Arbiter {
    pub closed spec fn holder_spec(&self) -> Option<u64> {
        self.holder
    }

    pub closed spec fn poisoned_spec(&self) -> bool {
        self.poisoned
    }

    pub closed spec fn history(&self) -> Seq<GuardEvent> {
        self.history@
    }

    /// The history is serialized, and it ends with an open section exactly
    /// when someone holds the handle.
    pub open spec fn wf(&self) -> bool {
        &&& serialized(self.history())
        &&& match self.holder_spec() {
            None => self.history().len() % 2 == 0,
            Some(c) => self.history().len() % 2 == 1 && self.history().last()
                == GuardEvent::Acquired(c),
        }
    }

    /// A free, healthy guard with an empty history.
    pub fn new() -> (r: Arbiter)
        ensures
            r.wf(),
            r.holder_spec() == None::<u64>,
            !r.poisoned_spec(),
            r.history() == Seq::<GuardEvent>::empty(),
    {
        Arbiter { holder: None, poisoned: false, history: Ghost(Seq::empty()) }
    }

    pub fn holder(&self) -> (r: Option<u64>)
        ensures
            r == self.holder_spec(),
    {
        self.holder
    }

    pub fn is_poisoned(&self) -> (r: bool)
        ensures
            r == self.poisoned_spec(),
    {
        self.poisoned
    }

    /// Context `ctx` tries to take the handle. It is granted only when the
    /// guard is healthy and free; otherwise nothing changes.
    pub fn try_acquire(&mut self, ctx: u64) -> (r: Acquire)
        requires
            old(self).wf(),
        ensures
            final(self).wf(),
            final(self).poisoned_spec() == old(self).poisoned_spec(),
            old(self).poisoned_spec() ==> r == Acquire::Poisoned,
            !old(self).poisoned_spec() && old(self).holder_spec() is Some ==> r == Acquire::Busy,
            !old(self).poisoned_spec() && old(self).holder_spec() is None ==> r == Acquire::Granted,
            r == Acquire::Granted ==> final(self).holder_spec() == Some(ctx) && final(self).history()
                == old(self).history().push(GuardEvent::Acquired(ctx)),
            r != Acquire::Granted ==> final(self).holder_spec() == old(self).holder_spec()
                && final(self).history() == old(self).history(),
    {
        if self.poisoned {
            Acquire::Poisoned
        } else if self.holder.is_some() {
            Acquire::Busy
        } else {
            let ghost h = self.history@;
            self.holder = Some(ctx);
            self.history = Ghost(h.push(GuardEvent::Acquired(ctx)));
            assert(serialized(self.history@)) by {
                assert forall|i: int| 0 <= i < self.history@.len() implies if i % 2 == 0 {
                    is_acquire(#[trigger] self.history@[i])
                } else {
                    self.history@[i] == GuardEvent::Released(context_of(self.history@[i - 1]))
                } by {
                    if i < h.len() {
                        assert(self.history@[i] == h[i]);
                        if i % 2 == 1 {
                            assert(self.history@[i - 1] == h[i - 1]);
                        }
                    }
                }
            }
            Acquire::Granted
        }
    }

    /// The holder `ctx` gives the handle back. `completed` is false when the
    /// operation inside aborted; the guard is then poisoned for good.
    pub fn release(&mut self, ctx: u64, completed: bool)
        requires
            old(self).wf(),
            old(self).holder_spec() == Some(ctx),
        ensures
            final(self).wf(),
            final(self).holder_spec() == None::<u64>,
            final(self).poisoned_spec() == (old(self).poisoned_spec() || !completed),
            final(self).history() == old(self).history().push(GuardEvent::Released(ctx)),
    {
        let ghost h = self.history@;
        self.holder = None;
        self.poisoned = self.poisoned || !completed;
        self.history = Ghost(h.push(GuardEvent::Released(ctx)));
        assert(serialized(self.history@)) by {
            assert forall|i: int| 0 <= i < self.history@.len() implies if i % 2 == 0 {
                is_acquire(#[trigger] self.history@[i])
            } else {
                self.history@[i] == GuardEvent::Released(context_of(self.history@[i - 1]))
            } by {
                if i < h.len() {
                    assert(self.history@[i] == h[i]);
                    if i % 2 == 1 {
                        assert(self.history@[i - 1] == h[i - 1]);
                    }
                } else {
                    assert(self.history@[i - 1] == h.last());
                }
            }
        }
    }
}

impl Acquire {
    /// The error that an attempt surfaces: only a poisoned guard fails, and
    /// it fails fatally.
    pub fn error(&self) -> (r: Option<ErrorClass>)
        ensures
            r == (if *self == Acquire::Poisoned { Some(ErrorClass::GuardPoisoned) } else { None }),
    {
        match self {
            Acquire::Poisoned => Some(ErrorClass::GuardPoisoned),
            _ => None,
        }
    }
}

/// Operations on one handle are totally ordered: in every history a guard
/// can reach, whenever a context takes the handle, the very next event is
/// that same context giving it back, before anyone else takes it.
pub proof fn lemma_sections_do_not_overlap(a: &Arbiter, i: int, j: int)
    requires
        a.wf(),
        0 <= i < j < a.history().len(),
        is_acquire(a.history()[i]),
        is_acquire(a.history()[j]),
    ensures
        i + 1 < j,
        a.history()[i + 1] == GuardEvent::Released(context_of(a.history()[i])),
{
    let t = a.history();
    if i % 2 == 1 {
        assert(t[i] == GuardEvent::Released(context_of(t[i - 1])));
    }
    if j % 2 == 1 {
        assert(t[j] == GuardEvent::Released(context_of(t[j - 1])));
    }
    assert(is_acquire(t[i + 1]) == false) by {
        assert(t[i + 1] == GuardEvent::Released(context_of(t[i + 1 - 1])));
    }
}

} // verus!
