use vstd::prelude::*;

verus! {

/// Milliseconds to wait after terminating the worker when the application exits.
pub const EXIT_GRACE_MS: u64 = 500;

/// An event of the host that asks for the worker to be stopped.
#[derive(Clone, Copy, Debug, PartialEq, Eq, Structural)]
pub enum Trigger {
    /// The user asked for the window to close.
    WindowClose,
    /// The application is exiting (an exit request or the exit itself).
    AppExit,
}

/// What a shutdown trigger hands back when it took the worker's handle: the
/// handle, to be sent the termination signal, and how long to wait after it.
pub struct Termination<H> {
    pub handle: H,
    pub grace_ms: u64,
}

/// The grace period that follows a termination caused by `t`.
pub open spec fn grace_for(t: Trigger) -> u64 {
    match t {
        Trigger::WindowClose => 0,
        Trigger::AppExit => EXIT_GRACE_MS,
    }
}

/// One shutdown trigger on a slot: the slot afterwards, and the handle taken
/// together with its grace period, if the slot held one.
pub open spec fn shutdown_step<H>(slot: Option<H>, t: Trigger) -> (Option<H>, Option<(H, u64)>) {
    match slot {
        Some(h) => (None, Some((h, grace_for(t)))),
        None => (None, None),
    }
}

/// The slot after a sequence of shutdown triggers.
pub open spec fn slot_after<H>(slot: Option<H>, ts: Seq<Trigger>) -> Option<H>
    decreases ts.len(),
{
    if ts.len() == 0 {
        slot
    } else {
        slot_after(shutdown_step(slot, ts[0]).0, ts.drop_first())
    }
}

/// How many of a sequence of shutdown triggers hand a handle out for termination.
pub open spec fn terminations<H>(slot: Option<H>, ts: Seq<Trigger>) -> nat
    decreases ts.len(),
{
    if ts.len() == 0 {
        0
    } else {
        let (next, taken) = shutdown_step(slot, ts[0]);
        (if taken is Some { 1nat } else { 0nat }) + terminations(next, ts.drop_first())
    }
}

/// Whatever sequence of shutdown triggers fires, window close and application
/// exit in any order and number, the worker's handle is handed out for
/// termination at most once; a started worker is handed out exactly once by
/// the first trigger, after which the slot stays empty.
pub proof fn lemma_terminated_at_most_once<H>(slot: Option<H>, ts: Seq<Trigger>)
    ensures
        terminations(slot, ts) <= 1,
        terminations(slot, ts) == (if slot is Some && ts.len() > 0 { 1nat } else { 0nat }),
        ts.len() > 0 ==> slot_after(slot, ts) is None,
    decreases ts.len(),
{
    if ts.len() > 0 {
        lemma_never_started_is_no_op::<H>(ts.drop_first());
    }
}

/// When the worker never started, every sequence of shutdown triggers is a
/// no-op: nothing is handed out and the slot stays empty.
pub proof fn lemma_never_started_is_no_op<H>(ts: Seq<Trigger>)
    ensures
        terminations(None::<H>, ts) == 0,
        slot_after(None::<H>, ts) is None,
    decreases ts.len(),
{
    if ts.len() > 0 {
        lemma_never_started_is_no_op::<H>(ts.drop_first());
    }
}

/// Once a window close has taken the handle, a following application exit
/// finds the slot empty and does nothing.
pub proof fn lemma_exit_after_close_is_no_op<H>(slot: Option<H>)
    requires
        shutdown_step(slot, Trigger::WindowClose).1 is Some,
    ensures
        shutdown_step(slot, Trigger::WindowClose).0 is None,
        shutdown_step(shutdown_step(slot, Trigger::WindowClose).0, Trigger::AppExit) == (
        None::<H>, None::<(H, u64)>),
{
}

/// The shared slot that holds the handle of the running worker, if any.
///
/// The only ways to change it are to create it holding a handle and to take
/// the handle out, so a handle leaves it at most once.
pub struct Supervisor<H> {
    slot: Option<H>,
}

impl<H> View for Supervisor<H> {
    type V = Option<H>;

    closed spec fn view(&self) -> Option<H> {
        self.slot
    }
}

impl<H> Supervisor<H> {
    /// A slot for a worker that was never started.
    pub fn empty() -> (r: Self)
        ensures
            r@ is None,
    {
        Supervisor { slot: None }
    }

    /// A slot that holds the handle of a freshly started worker.
    pub fn started(handle: H) -> (r: Self)
        ensures
            r@ == Some(handle),
    {
        Supervisor { slot: Some(handle) }
    }

    /// Whether a handle is still waiting to be taken.
    pub fn is_running(&self) -> (r: bool)
        ensures
            r == self@ is Some,
    {
        self.slot.is_some()
    }

    /// Reacts to a shutdown trigger: takes the handle out if one is present,
    /// leaving the slot empty. Without a handle this does nothing.
    pub fn on_trigger(&mut self, t: Trigger) -> (r: Option<Termination<H>>)
        ensures
            final(self)@ is None,
            match shutdown_step(old(self)@, t).1 {
                Some((h, g)) => r is Some && r->0.handle == h && r->0.grace_ms == g,
                None => r is None,
            },
    {
        match self.slot.take() {
            Some(handle) => {
                let grace_ms: u64 = match t {
                    Trigger::WindowClose => 0,
                    Trigger::AppExit => EXIT_GRACE_MS,
                };
                Some(Termination { handle, grace_ms })
            },
            None => None,
        }
    }
}

} // verus!
