//! The bridge between native objects and Rust behaviours.
//!
//! A native toolkit can only call a state-free entry point on an object it
//! holds. Each behaviour is therefore kept in a table, and the native object
//! carries no more than the behaviour's handle: its position in the table.
//! The entry point looks the handle up and runs what it finds. A behaviour
//! stays in the table, and can run any number of times, until its owner
//! releases it; after that the handle finds nothing.
use vstd::prelude::*;

verus! {

/// Whether `handle` names a behaviour that is still held.
pub open spec fn is_live<B>(slots: Seq<Option<B>>, handle: int) -> bool {
    0 <= handle < slots.len() && slots[handle] is Some
}

/// The run counts after one call through `handle`: the handle's count goes
/// up by one where it is live, and nothing changes where it is not.
pub open spec fn runs_after_call<B>(slots: Seq<Option<B>>, runs: Seq<nat>, handle: int) -> Seq<
    nat,
> {
    if is_live(slots, handle) {
        runs.update(handle, runs[handle] + 1)
    } else {
        runs
    }
}

/// The run counts after `n` calls through `handle`.
pub open spec fn runs_after_calls<B>(
    slots: Seq<Option<B>>,
    runs: Seq<nat>,
    handle: int,
    n: nat,
) -> Seq<nat>
    decreases n,
{
    if n == 0 {
        runs
    } else {
        runs_after_call(slots, runs_after_calls(slots, runs, handle, (n - 1) as nat), handle)
    }
}

/// The table once `handle` is released: its slot is emptied.
pub open spec fn released<B>(slots: Seq<Option<B>>, handle: int) -> Seq<Option<B>> {
    if 0 <= handle < slots.len() {
        slots.update(handle, None)
    } else {
        slots
    }
}

/// The behaviours reachable from native objects, by handle.
#[verifier::reject_recursive_types(B)]
pub struct CallbackTable<B> {
    slots: Vec<Option<B>>,
    runs: Ghost<Seq<nat>>,
}

impl<B> CallbackTable<B> {
    /// The behaviour of each handle, `None` once released.
    pub closed spec fn slots(&self) -> Seq<Option<B>> {
        self.slots@
    }

    /// How many times the behaviour of each handle has run.
    pub closed spec fn runs(&self) -> Seq<nat> {
        self.runs@
    }

    /// One run count per handle.
    pub open spec fn wf(&self) -> bool {
        self.runs().len() == self.slots().len()
    }

    /// An empty table.
    pub fn new() -> (r: Self)
        ensures
            r.slots() == Seq::<Option<B>>::empty(),
            r.runs() == Seq::<nat>::empty(),
            r.wf(),
    {
        CallbackTable { slots: Vec::new(), runs: Ghost(Seq::empty()) }
    }

    /// Takes `cb` into the table and returns its handle, a position that no
    /// other behaviour ever had.
    pub fn register(&mut self, cb: B) -> (r: usize)
        requires
            old(self).wf(),
        ensures
            final(self).wf(),
            r == old(self).slots().len(),
            final(self).slots() == old(self).slots().push(Some(cb)),
            final(self).runs() == old(self).runs().push(0),
    {
        let handle = self.slots.len();
        self.slots.push(Some(cb));
        self.runs = Ghost(self.runs@.push(0));
        handle
    }

    /// Whether `handle` names a behaviour that is still held.
    pub fn is_registered(&self, handle: usize) -> (r: bool)
        ensures
            r == is_live(self.slots(), handle as int),
    {
        handle < self.slots.len() && self.slots[handle].is_some()
    }

    /// The behaviour of `handle`, for a caller that runs it itself; `None`
    /// for a handle that is unknown or released.
    pub fn behaviour(&self, handle: usize) -> (r: Option<&B>)
        ensures
            r is Some <==> is_live(self.slots(), handle as int),
            r matches Some(b) ==> self.slots()[handle as int] == Some(*b),
    {
        if handle < self.slots.len() {
            self.slots[handle].as_ref()
        } else {
            None
        }
    }

    /// The native entry point: runs the behaviour of `handle` once and says
    /// whether it ran. A handle that is unknown or released runs nothing.
    pub fn call(&mut self, handle: usize) -> (r: bool) where B: Fn()
        requires
            old(self).wf(),
            is_live(old(self).slots(), handle as int) ==> old(self).slots()[handle as int]->0.requires(
                (),
            ),
        ensures
            final(self).wf(),
            r == is_live(old(self).slots(), handle as int),
            is_live(old(self).slots(), handle as int) ==> old(self).slots()[handle as int]->0.ensures(
                (),
                (),
            ),
            final(self).slots() == old(self).slots(),
            final(self).runs() == runs_after_call(old(self).slots(), old(self).runs(), handle as int),
    {
        if handle < self.slots.len() {
            match &self.slots[handle] {
                Some(cb) => {
                    proof {
                        assert(is_live(self.slots(), handle as int));
                    }
                    cb();
                    self.runs = Ghost(self.runs@.update(handle as int, self.runs@[handle as int] + 1));
                    true
                },
                None => false,
            }
        } else {
            false
        }
    }

    /// Takes the behaviour of `handle` out of the table and hands it back to
    /// be dropped; `None` where it was released before or never existed.
    pub fn release(&mut self, handle: usize) -> (r: Option<B>)
        requires
            old(self).wf(),
        ensures
            final(self).wf(),
            r == (if is_live(old(self).slots(), handle as int) {
                old(self).slots()[handle as int]
            } else {
                None
            }),
            final(self).slots() == released(old(self).slots(), handle as int),
            final(self).runs() == old(self).runs(),
    {
        if handle < self.slots.len() {
            let mut slot = None;
            std::mem::swap(&mut self.slots[handle], &mut slot);
            slot
        } else {
            None
        }
    }
}

/// A behaviour called `n` times through its live handle runs exactly `n`
/// times, and no other behaviour runs; the table keeps holding it.
pub proof fn lemma_calls_run_behaviour_n_times<B>(
    slots: Seq<Option<B>>,
    runs: Seq<nat>,
    handle: int,
    n: nat,
)
    requires
        runs.len() == slots.len(),
        is_live(slots, handle),
    ensures
        runs_after_calls(slots, runs, handle, n).len() == runs.len(),
        runs_after_calls(slots, runs, handle, n)[handle] == runs[handle] + n,
        forall|h: int|
            0 <= h < runs.len() && h != handle ==> #[trigger] runs_after_calls(
                slots,
                runs,
                handle,
                n,
            )[h] == runs[h],
    decreases n,
{
    if n > 0 {
        lemma_calls_run_behaviour_n_times(slots, runs, handle, (n - 1) as nat);
    }
}

/// A behaviour is handed out for dropping once: a second release of its
/// handle finds nothing, and calls through it run nothing any more.
pub proof fn lemma_release_frees_once<B>(slots: Seq<Option<B>>, runs: Seq<nat>, handle: int)
    ensures
        !is_live(released(slots, handle), handle),
        released(released(slots, handle), handle) == released(slots, handle),
        runs_after_call(released(slots, handle), runs, handle) == runs,
{
}

/// The one-time registration of the native class that carries handles.
pub struct ClassRegistration {
    declared: bool,
}

impl ClassRegistration {
    /// Whether the class is registered.
    pub closed spec fn is_declared(&self) -> bool {
        self.declared
    }

    /// No class registered yet.
    pub fn new() -> (r: Self)
        ensures
            !r.is_declared(),
    {
        ClassRegistration { declared: false }
    }

    /// Whether the class must be declared now: true on the first call only.
    pub fn claim(&mut self) -> (r: bool)
        ensures
            r == !old(self).is_declared(),
            final(self).is_declared(),
    {
        let first = !self.declared;
        self.declared = true;
        first
    }
}

} // verus!
