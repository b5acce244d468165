//! The volume-change observer: the manually dispatched callback object the
//! audio subsystem calls back into, the worker that owns one observation
//! session, and the process-wide controller that starts and stops it.
//!
//! The shell owns the raw dispatch table, the dedicated thread and the stop
//! channel; every decision those make — what identity negotiation grants,
//! how the reference count moves, in what order a session acquires and
//! releases its resources, what start and stop do to the tracked sender —
//! is taken by calling into this module, and proved here.

use vstd::prelude::*;
use crate::audio::{AudioState, ComGuard, VolumeScalar, spec_notification_state, notification_state};

verus! {

/// The universal "any object" capability identifier, as one 128-bit value.
pub const IID_IUNKNOWN: u128 = 0x00000000_0000_0000_c000_000000000046;

/// The capability identifier of the volume-notification sink the audio
/// subsystem negotiates for.
pub const IID_VOLUME_CALLBACK: u128 = 0x657804FA_D6AD_4496_8A60_352752AF4F89;

/// Success status handed back to the subsystem.
pub const S_OK: i32 = 0;

/// "Capability not supported" status handed back to the subsystem.
pub const E_NOINTERFACE: i32 = -2147467262;

/// The capability identifiers under which identity negotiation hands the
/// object out: its own notification capability, and universal identity.
pub open spec fn supported_capability(iid: u128) -> bool {
    iid == IID_IUNKNOWN || iid == IID_VOLUME_CALLBACK
}

/// Decides identity negotiation: whether a requested capability is one the
/// callback object hands itself out under.
pub fn is_supported_capability(iid: u128) -> (b: bool)
    ensures
        b == supported_capability(iid),
{
    iid == IID_IUNKNOWN || iid == IID_VOLUME_CALLBACK
}

/// A new volume/mute state as delivered by the subsystem to the callback.
#[derive(Clone, Copy, Debug, PartialEq, Eq, Structural)]
pub struct VolumeNotification {
    pub volume_scalar: VolumeScalar,
    pub muted: bool,
}

/// The callback object registered with the audio subsystem, stripped to what
/// its dispatch entries decide on: the shared ownership count. The count
/// covers this process's own hold and every reference the subsystem has
/// acquired through the dispatch table; the object is deallocated exactly
/// when the count reaches zero.
#[derive(Debug, PartialEq, Eq, Structural)]
pub struct ComCallback {
    pub ref_count: u32,
}

impl ComCallback {
    /// A fresh object, owned once by its creator.
    pub fn new() -> (c: Self)
        ensures
            c.ref_count == 1,
    {
        ComCallback { ref_count: 1 }
    }

    /// One unconditional atomic increment; returns the new count.
    pub fn add_ref(&mut self) -> (n: u32)
        requires
            old(self).ref_count < u32::MAX,
        ensures
            final(self).ref_count == old(self).ref_count + 1,
            n == final(self).ref_count,
    {
        self.ref_count = self.ref_count + 1;
        self.ref_count
    }

    /// One atomic decrement; returns the new count. Reaching zero is the
    /// deallocation point: the caller then drops the object and must not
    /// touch it again.
    pub fn release(&mut self) -> (n: u32)
        requires
            old(self).ref_count >= 1,
        ensures
            final(self).ref_count == old(self).ref_count - 1,
            n == final(self).ref_count,
    {
        self.ref_count = self.ref_count - 1;
        self.ref_count
    }

    /// Identity negotiation: grants a reference to this object — one more
    /// hold on the count — exactly when the requested capability is
    /// supported and the caller supplied a place for the reference;
    /// otherwise reports "not supported" and changes nothing.
    pub fn query_interface(&mut self, iid: u128, out_slot_available: bool) -> (hr: i32)
        requires
            old(self).ref_count < u32::MAX,
        ensures
            hr == S_OK || hr == E_NOINTERFACE,
            (hr == S_OK) <==> (out_slot_available && supported_capability(iid)),
            hr == S_OK ==> final(self).ref_count == old(self).ref_count + 1,
            hr != S_OK ==> *final(self) == *old(self),
    {
        if !out_slot_available {
            return E_NOINTERFACE;
        }
        if is_supported_capability(iid) {
            self.add_ref();
            S_OK
        } else {
            E_NOINTERFACE
        }
    }

    /// Notification delivery: decode the payload into the snapshot to emit,
    /// unclamped. A missing payload emits nothing. Either way the subsystem
    /// is answered with success at once — emission is the shell's
    /// fire-and-forget job, never waited on here.
    pub fn on_notify(&self, payload: Option<VolumeNotification>) -> (r: (i32, Option<AudioState>))
        ensures
            r.0 == S_OK,
            payload matches Some(n) ==> r.1 == Some(spec_notification_state(n.volume_scalar, n.muted)),
            payload is None ==> r.1 is None,
    {
        match payload {
            Some(n) => (S_OK, Some(notification_state(n.volume_scalar, n.muted))),
            None => (S_OK, None),
        }
    }
}

/// What woke a worker blocked on its stop channel. A value sent on the
/// channel and the sending half having been dropped are both stop requests,
/// treated identically.
#[derive(Clone, Copy, Debug, PartialEq, Eq, Structural)]
pub enum WakeReason {
    StopRequested,
    SenderAbandoned,
}

/// The phases one observation session passes through, in order.
#[derive(Clone, Copy, Debug, PartialEq, Eq, Structural)]
pub enum WorkerPhase {
    Initializing,
    Registered,
    Unregistering,
    Terminated,
}

/// One observation session's resource ledger: its context's subsystem
/// initialization, the resolved endpoint interface, the callback object it
/// owns, and whether the subsystem currently holds a registered reference.
#[derive(Debug)]
pub struct ObserverWorker {
    pub phase: WorkerPhase,
    pub com: Option<ComGuard>,
    pub endpoint_resolved: bool,
    pub callback: Option<ComCallback>,
    pub registered: bool,
}

impl ObserverWorker {
    /// What holds of a session in every reachable state. In particular the
    /// callback object is never gone while the subsystem holds a registered
    /// reference, and a terminated session has torn down its context's
    /// subsystem initialization.
    pub open spec fn wf(self) -> bool {
        match self.phase {
            WorkerPhase::Initializing => {
                &&& !self.registered
                &&& (self.endpoint_resolved ==> self.com is Some)
                &&& (self.callback matches Some(c) ==> {
                    &&& self.com is Some
                    &&& self.endpoint_resolved
                    &&& c.ref_count == 1
                })
            },
            WorkerPhase::Registered => {
                &&& self.registered
                &&& self.com is Some
                &&& self.endpoint_resolved
                &&& self.callback matches Some(c) && c.ref_count == 2
            },
            WorkerPhase::Unregistering => {
                &&& self.com is Some
                &&& self.callback matches Some(c) && 1 <= c.ref_count <= 2
                &&& (self.registered ==> (self.callback matches Some(c) && c.ref_count == 2))
            },
            WorkerPhase::Terminated => {
                &&& !self.registered
                &&& self.com is None
                &&& (self.callback matches Some(c) ==> c.ref_count == 1)
            },
        }
    }

    /// A session before any resource is acquired.
    pub fn new() -> (w: Self)
        ensures
            w.phase is Initializing,
            w.com is None,
            !w.endpoint_resolved,
            w.callback is None,
            !w.registered,
            w.wf(),
    {
        ObserverWorker {
            phase: WorkerPhase::Initializing,
            com: None,
            endpoint_resolved: false,
            callback: None,
            registered: false,
        }
    }

    /// Record the outcome of initializing this context's subsystem threading
    /// mode. Failure is fatal: the session terminates without acquiring
    /// anything further.
    pub fn init_com(&mut self, guard: Option<ComGuard>)
        requires
            old(self).phase is Initializing,
            old(self).com is None,
            !old(self).endpoint_resolved,
            old(self).callback is None,
            !old(self).registered,
        ensures
            guard is Some ==> final(self).phase is Initializing && final(self).com is Some,
            guard is None ==> final(self).phase is Terminated && final(self).com is None,
            final(self).endpoint_resolved == old(self).endpoint_resolved,
            final(self).callback is None,
            !final(self).registered,
            final(self).wf(),
    {
        match guard {
            Some(g) => {
                self.com = Some(g);
            },
            None => {
                self.phase = WorkerPhase::Terminated;
            },
        }
    }

    /// Record the outcome of resolving the default endpoint and activating
    /// its volume interface. Failure is fatal; the context's subsystem
    /// initialization is torn down again.
    pub fn resolve_endpoint(&mut self, ok: bool)
        requires
            old(self).phase is Initializing,
            old(self).com is Some,
            !old(self).endpoint_resolved,
            old(self).callback is None,
            !old(self).registered,
        ensures
            ok ==> final(self).phase is Initializing && final(self).endpoint_resolved
                && final(self).com is Some,
            !ok ==> final(self).phase is Terminated && final(self).com is None,
            final(self).callback is None,
            !final(self).registered,
            final(self).wf(),
    {
        if ok {
            self.endpoint_resolved = true;
        } else {
            self.com = None;
            self.phase = WorkerPhase::Terminated;
        }
    }

    /// Construct the session's callback object: reference count 1, the
    /// worker's own hold.
    pub fn create_callback(&mut self)
        requires
            old(self).phase is Initializing,
            old(self).com is Some,
            old(self).endpoint_resolved,
            old(self).callback is None,
            !old(self).registered,
        ensures
            final(self).phase is Initializing,
            final(self).callback matches Some(c) && c.ref_count == 1,
            final(self).com == old(self).com,
            final(self).endpoint_resolved,
            !final(self).registered,
            final(self).wf(),
    {
        self.callback = Some(ComCallback::new());
    }

    /// Record the outcome of subscribing the callback object for
    /// notifications. Success is the subsystem's acquire: the count rises to
    /// 2 and the session is registered. Failure is fatal to starting: the
    /// worker releases its own hold — deallocating the object — and tears
    /// its context down.
    pub fn register(&mut self, ok: bool)
        requires
            old(self).phase is Initializing,
            old(self).com is Some,
            old(self).endpoint_resolved,
            old(self).callback matches Some(c) && c.ref_count == 1,
            !old(self).registered,
        ensures
            ok ==> {
                &&& final(self).phase is Registered
                &&& final(self).registered
                &&& final(self).callback matches Some(c) && c.ref_count == 2
                &&& final(self).com is Some
            },
            !ok ==> {
                &&& final(self).phase is Terminated
                &&& !final(self).registered
                &&& final(self).callback is None
                &&& final(self).com is None
            },
            final(self).wf(),
    {
        if ok {
            if let Some(c) = &mut self.callback {
                c.add_ref();
            }
            self.registered = true;
            self.phase = WorkerPhase::Registered;
        } else {
            self.callback = None;
            self.com = None;
            self.phase = WorkerPhase::Terminated;
        }
    }

    /// The session after waking from its blocking wait: unconditionally on
    /// its way to unregistration, whatever woke it.
    pub open spec fn spec_wake(self) -> ObserverWorker {
        ObserverWorker { phase: WorkerPhase::Unregistering, ..self }
    }

    /// Wake from the blocking wait on the stop channel. The reason — an
    /// explicit stop value, or the sender having been abandoned — does not
    /// appear in the outcome: both drive the same teardown.
    pub fn wake(&mut self, reason: WakeReason)
        requires
            old(self).phase is Registered,
            old(self).wf(),
        ensures
            *final(self) == old(self).spec_wake(),
            final(self).wf(),
    {
        self.phase = WorkerPhase::Unregistering;
    }

    /// The session after the unsubscription call came back: the subsystem's
    /// registration is gone either way; its reference is returned only on
    /// success.
    pub open spec fn spec_unregister(self, ok: bool) -> ObserverWorker {
        ObserverWorker {
            registered: false,
            callback: if ok {
                Some(ComCallback { ref_count: (self.callback.unwrap().ref_count - 1) as u32 })
            } else {
                self.callback
            },
            ..self
        }
    }

    /// Record the outcome of unsubscribing the callback. A failure is
    /// logged and suppressed by the shell; teardown proceeds regardless,
    /// but the subsystem's reference then stays accounted for, so the
    /// object will not be freed under it.
    pub fn unregister(&mut self, ok: bool)
        requires
            old(self).phase is Unregistering,
            old(self).registered,
            old(self).wf(),
        ensures
            *final(self) == old(self).spec_unregister(ok),
            !final(self).registered,
            final(self).wf(),
    {
        self.registered = false;
        if ok {
            if let Some(c) = &mut self.callback {
                c.release();
            }
        }
    }

    /// The session after its final step: the worker's own hold released —
    /// the object deallocated exactly if that hold was the last — and the
    /// context's subsystem initialization torn down.
    pub open spec fn spec_finish(self) -> ObserverWorker {
        let n = self.callback.unwrap().ref_count;
        ObserverWorker {
            phase: WorkerPhase::Terminated,
            com: None,
            callback: if n == 1 {
                None
            } else {
                Some(ComCallback { ref_count: (n - 1) as u32 })
            },
            ..self
        }
    }

    /// Release the worker's own hold on the callback object, deallocating it
    /// when that was the last reference, and tear down this context's
    /// subsystem initialization. The session is over.
    pub fn finish(&mut self)
        requires
            old(self).phase is Unregistering,
            !old(self).registered,
            old(self).wf(),
        ensures
            *final(self) == old(self).spec_finish(),
            final(self).phase is Terminated,
            final(self).com is None,
            final(self).wf(),
    {
        let last = if let Some(c) = &mut self.callback {
            c.release() == 0
        } else {
            false
        };
        if last {
            self.callback = None;
        }
        self.com = None;
        self.phase = WorkerPhase::Terminated;
    }

    /// The whole teardown a wake triggers, as one step.
    pub open spec fn spec_shutdown(self, unregister_ok: bool) -> ObserverWorker {
        self.spec_wake().spec_unregister(unregister_ok).spec_finish()
    }

    /// The full teardown of a registered session: wake, unsubscribe,
    /// release, tear down — run to completion unconditionally, not
    /// cancellable. With a successful unsubscription the callback object's
    /// count reaches zero and the object is gone.
    pub fn shutdown(&mut self, reason: WakeReason, unregister_ok: bool)
        requires
            old(self).phase is Registered,
            old(self).wf(),
        ensures
            *final(self) == old(self).spec_shutdown(unregister_ok),
            final(self).phase is Terminated,
            final(self).com is None,
            !final(self).registered,
            unregister_ok ==> final(self).callback is None,
            final(self).wf(),
    {
        self.wake(reason);
        self.unregister(unregister_ok);
        self.finish();
    }
}

/// Starting then stopping a session unregisters and deallocates the callback
/// object: after the teardown that a stop triggers, with the unsubscription
/// succeeding, the reference count has reached zero and the object is gone,
/// the session is terminated and nothing of its context remains.
pub proof fn lemma_stop_deallocates(w: ObserverWorker)
    requires
        w.wf(),
        w.phase is Registered,
    ensures
        w.spec_shutdown(true).callback is None,
        w.spec_shutdown(true).phase is Terminated,
        w.spec_shutdown(true).com is None,
        !w.spec_shutdown(true).registered,
{
}

/// An abandoned stop-sender drives the worker to termination exactly as an
/// explicit stop does: `spec_wake` takes no reason, so the teardown that an
/// abandonment triggers is the very teardown a stop triggers, and it always
/// terminates the session, unregisters it, and tears its context down.
pub proof fn lemma_abandonment_terminates(w: ObserverWorker, unregister_ok: bool)
    requires
        w.wf(),
        w.phase is Registered,
    ensures
        w.spec_shutdown(unregister_ok).phase is Terminated,
        w.spec_shutdown(unregister_ok).com is None,
        !w.spec_shutdown(unregister_ok).registered,
{
}

/// While the subsystem holds its registered reference, the callback object
/// is live, and holds at least that reference and the worker's own: it can
/// never be deallocated under the subsystem.
pub proof fn lemma_registered_object_live(w: ObserverWorker)
    requires
        w.wf(),
        w.registered,
    ensures
        w.callback matches Some(c) && c.ref_count >= 2,
{
}

/// Process-wide observer state: at most one session is tracked, through the
/// sending half of its stop channel. The shell serializes access under its
/// lock; the sender's type is its own, so this state is generic in it.
#[derive(Debug)]
pub struct VolumeObserverState<S> {
    pub stop_tx: Option<S>,
}

impl<S> VolumeObserverState<S> {
    /// The empty state of process start: no session tracked.
    pub fn new() -> (st: Self)
        ensures
            st.stop_tx is None,
    {
        VolumeObserverState { stop_tx: None }
    }

    /// Track a newly started session's stop sender.
    ///
    /// A second start without an intervening stop replaces the tracked
    /// sender — the documented choice. The previous sender is handed back;
    /// the shell drops it, which abandons the previous worker's channel and
    /// so stops that worker, deallocating its callback object: nothing is
    /// leaked and nothing can deadlock.
    pub fn start(&mut self, tx: S) -> (prev: Option<S>)
        ensures
            final(self).stop_tx == Some(tx),
            prev == old(self).stop_tx,
    {
        let prev = self.stop_tx.take();
        self.stop_tx = Some(tx);
        prev
    }

    /// Consume the tracked sender so the shell can signal its worker to
    /// stop. With no session tracked this is the reportable "Observer not
    /// running" error — never a crash, and the state is left empty either
    /// way.
    pub fn stop(&mut self) -> (r: Result<S, String>)
        ensures
            final(self).stop_tx is None,
            old(self).stop_tx matches Some(tx) ==> r == Ok::<S, String>(tx),
            old(self).stop_tx is None ==> (r matches Err(m) && m@ == "Observer not running"@),
    {
        match self.stop_tx.take() {
            Some(tx) => Ok(tx),
            None => Err("Observer not running".to_owned()),
        }
    }
}

impl<S> Default for VolumeObserverState<S> {
    /// Same as `new`: no session tracked.
    fn default() -> (st: Self)
        ensures
            st.stop_tx is None,
    {
        VolumeObserverState { stop_tx: None }
    }
}

} // verus!
