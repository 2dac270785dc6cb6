//! The module's entry point as the host's loader sees it: which notification
//! a reason code is, what it sets going, and what is answered to the loader.

use vstd::prelude::*;
use crate::error::ListenerError;
use crate::listener::{spawn_event_spec, step_spec, Event, Lifecycle, ListenerView, NO_THREAD};
use crate::platform::{
    process_attach, process_detach, status_false, status_true, thread_attach, thread_detach,
    NO_HANDLE, REASON_PROCESS_ATTACH, REASON_PROCESS_DETACH, REASON_THREAD_ATTACH, REASON_THREAD_DETACH,
    STATUS_FALSE, STATUS_TRUE,
};

verus! {

/// The value returned in place of a mode where the input context could not
/// be released after a backup or a restore.
pub const RELEASE_FAILED: u32 = 3;

/// The value returned in place of a mode where a restore was asked for a
/// window that has no backup.
pub const NOT_RESTORED: u32 = 2;

/// A notification from the host's loader.
#[derive(Clone, Copy, Debug, PartialEq, Eq, Structural)]
pub enum HostReason {
    /// The module was loaded.
    Load,
    /// The module is about to be unloaded.
    Unload,
    /// A thread started. Ignored.
    ThreadAttach,
    /// A thread ended. Ignored.
    ThreadDetach,
}

/// The notification that a reason code stands for, if any.
pub open spec fn reason_spec(code: u32) -> Option<HostReason> {
    if code == REASON_PROCESS_ATTACH {
        Some(HostReason::Load)
    } else if code == REASON_PROCESS_DETACH {
        Some(HostReason::Unload)
    } else if code == REASON_THREAD_ATTACH {
        Some(HostReason::ThreadAttach)
    } else if code == REASON_THREAD_DETACH {
        Some(HostReason::ThreadDetach)
    } else {
        None
    }
}

/// The event with which a notification sets the listener going: a load and
/// an unload do, the thread notifications and unknown codes do not, and
/// nothing does if the thread notifications could not be switched off.
pub open spec fn first_event_spec(threads_off: bool, code: u32, pid: u32) -> Option<Event> {
    if !threads_off {
        None
    } else {
        match reason_spec(code) {
            Some(HostReason::Load) => Some(Event::Load { pid }),
            Some(HostReason::Unload) => Some(Event::Unload),
            _ => None,
        }
    }
}

/// Whether the loader is answered with success, once the notification has
/// been served and the listener is in `state`. A load succeeded only if the
/// listener runs; an unload and the thread notifications always succeed; an
/// unknown code never does, nor does any notification if the thread
/// notifications could not be switched off.
pub open spec fn verdict_spec(threads_off: bool, code: u32, state: Lifecycle) -> bool {
    threads_off && match reason_spec(code) {
        Some(HostReason::Load) => state == Lifecycle::Running,
        Some(_) => true,
        None => false,
    }
}

/// What a remote call of backup or restore answers: the mode, or
/// [`RELEASE_FAILED`] where the input context could not be released.
pub open spec fn call_result_spec(mode: u32, released: bool) -> u32 {
    if released {
        mode
    } else {
        RELEASE_FAILED
    }
}

/// What a remote call of restore answers: [`NOT_RESTORED`] where the window
/// has no backup, and else what [`call_result_spec`] gives for the mode.
pub open spec fn recover_result_spec(restored: Result<u32, ListenerError>, released: bool) -> u32 {
    match restored {
        Ok(mode) => call_result_spec(mode, released),
        Err(_) => NOT_RESTORED,
    }
}

/// Tells which notification a reason code is. `None` is a code that the
/// loader should never send.
pub fn host_reason(code: u32) -> (reason: Option<HostReason>)
    ensures
        reason == reason_spec(code),
{
    if code == process_attach() {
        Some(HostReason::Load)
    } else if code == process_detach() {
        Some(HostReason::Unload)
    } else if code == thread_attach() {
        Some(HostReason::ThreadAttach)
    } else if code == thread_detach() {
        Some(HostReason::ThreadDetach)
    } else {
        None
    }
}

/// The event to hand to the listener for a notification in host process
/// `pid`, or `None` where the notification is not the listener's business.
/// `threads_off` says whether the thread notifications were switched off.
pub fn first_event(threads_off: bool, code: u32, pid: u32) -> (event: Option<Event>)
    ensures
        event == first_event_spec(threads_off, code, pid),
{
    if !threads_off {
        return None;
    }
    match host_reason(code) {
        Some(HostReason::Load) => Some(Event::Load { pid }),
        Some(HostReason::Unload) => Some(Event::Unload),
        _ => None,
    }
}

/// The answer to the loader, in the platform's boolean: true exactly when
/// [`verdict_spec`] holds.
pub fn verdict(threads_off: bool, code: u32, state: Lifecycle) -> (status: i32)
    ensures
        status == if verdict_spec(threads_off, code, state) {
            STATUS_TRUE
        } else {
            STATUS_FALSE
        },
{
    if !threads_off {
        return status_false();
    }
    match host_reason(code) {
        Some(HostReason::Load) => {
            if state == Lifecycle::Running {
                status_true()
            } else {
                status_false()
            }
        },
        Some(_) => status_true(),
        None => status_false(),
    }
}

/// Whether a platform boolean means success: anything but false does.
pub fn succeeded(status: i32) -> (ok: bool)
    ensures
        ok == (status != STATUS_FALSE),
{
    status != status_false()
}

/// The answer of a remote call of backup, or of a restore that found its
/// window's backup.
pub fn call_result(mode: u32, released: bool) -> (answer: u32)
    ensures
        answer == call_result_spec(mode, released),
{
    if released {
        mode
    } else {
        RELEASE_FAILED
    }
}

/// The answer of a remote call of restore, given what the store said.
pub fn recover_result(restored: Result<u32, ListenerError>, released: bool) -> (answer: u32)
    ensures
        answer == recover_result_spec(restored, released),
{
    match restored {
        Ok(mode) => call_result(mode, released),
        Err(_) => NOT_RESTORED,
    }
}

/// A load notification is answered with success exactly if the channel was
/// created and the worker spawned. A listener that is left half started is
/// never reported as loaded.
pub proof fn lemma_load_verdict(pid: u32, handle: isize, code: u32, thread: isize)
    ensures
        ({
            let fresh = ListenerView::bare(Lifecycle::Uninitialized);
            let first = first_event_spec(true, REASON_PROCESS_ATTACH, pid);
            let starting = step_spec(fresh, first->0).0;
            let created = step_spec(starting, Event::ChannelCreated { handle, code }).0;
            let spawned = step_spec(created, spawn_event_spec(thread)).0;
            &&& first == Some(Event::Load { pid })
            &&& !verdict_spec(true, REASON_PROCESS_ATTACH, fresh.state)
            &&& !verdict_spec(true, REASON_PROCESS_ATTACH, starting.state)
            &&& !verdict_spec(true, REASON_PROCESS_ATTACH, created.state)
            &&& verdict_spec(true, REASON_PROCESS_ATTACH, spawned.state) <==> (handle != NO_HANDLE
                && thread != NO_THREAD)
        }),
{
}

/// An unload is the listener's business and is answered with success in
/// whatever state it finds the listener; the thread notifications set
/// nothing going and are answered with success; any other code sets nothing
/// going and is answered with failure.
pub proof fn lemma_other_verdicts(code: u32, pid: u32, state: Lifecycle)
    requires
        code != REASON_PROCESS_ATTACH,
    ensures
        first_event_spec(true, code, pid) == if code == REASON_PROCESS_DETACH {
            Some(Event::Unload)
        } else {
            None::<Event>
        },
        first_event_spec(false, code, pid) is None,
        verdict_spec(true, code, state) <==> (code == REASON_PROCESS_DETACH || code
            == REASON_THREAD_ATTACH || code == REASON_THREAD_DETACH),
        !verdict_spec(false, code, state),
{
}

} // verus!
