//! The listener's lifecycle, as the thread that loads and unloads the module
//! drives it. That thread performs each [`Action`] and reports what came of
//! it as the next [`Event`]; every decision is taken here.

use vstd::prelude::*;
use crate::channel::{create_result, create_result_spec};
use crate::error::ListenerError;
use crate::message::{encode, encode_spec, Message, TAG_EXIT};
use crate::platform::{wait_signalled, NO_HANDLE, WAIT_SIGNALLED};

verus! {

/// How long the unloading thread waits for the worker, in milliseconds.
pub const JOIN_WAIT_MS: u32 = 1000;

/// The handle that the platform returns where it could not start a thread.
pub const NO_THREAD: isize = 0;

/// Where the listener is in its life.
#[derive(Clone, Copy, Debug, PartialEq, Eq, Structural)]
pub enum Lifecycle {
    /// Nothing has been started.
    Uninitialized,
    /// The channel is being created and the worker spawned.
    Starting,
    /// The worker reads the channel.
    Running,
    /// The exit message is on its way and the worker is awaited.
    Stopping,
    /// The worker has terminated.
    Stopped,
    /// Start-up failed. Nothing is left running.
    FailedToStart,
}

/// What the driving thread reports to the listener.
#[derive(Clone, Copy, Debug, PartialEq, Eq, Structural)]
pub enum Event {
    /// The module was loaded into the host process `pid`.
    Load { pid: u32 },
    /// Channel creation returned `handle`; `code` is the platform's error
    /// code at that moment.
    ChannelCreated { handle: isize, code: u32 },
    /// The worker was spawned; `thread` is its handle.
    WorkerSpawned { thread: isize },
    /// The worker could not be spawned.
    WorkerFailed,
    /// The module is about to be unloaded.
    Unload,
    /// The exit message was written, or the write failed.
    ExitWritten { succeeded: bool },
    /// The bounded wait for the worker returned `code`.
    WaitFinished { code: u32 },
}

/// What the driving thread is to do next.
#[derive(Clone, Copy, Debug, PartialEq, Eq, Structural)]
pub enum Action {
    /// Nothing; the notification is complete.
    Nothing,
    /// Create the channel of host process `pid`, then report `ChannelCreated`.
    CreateChannel { pid: u32 },
    /// Spawn the worker on `channel`, then report `WorkerSpawned` or `WorkerFailed`.
    SpawnWorker { channel: isize },
    /// Report the load as failed; nothing was created.
    AbortLoad { error: ListenerError },
    /// Release `channel`, which no worker will ever close, and report the
    /// load as failed.
    ReleaseChannel { channel: isize },
    /// Write `byte` to `channel`, then report `ExitWritten`.
    WriteExit { channel: isize, byte: u8 },
    /// Log `note` if there is one; then wait for `thread` for at most
    /// `timeout_ms` milliseconds and report `WaitFinished`.
    JoinWorker { thread: isize, timeout_ms: u32, note: Option<ListenerError> },
    /// Release the handle `thread`. With a `failure` the worker did not
    /// terminate in time and is given up.
    ReleaseWorker { thread: isize, failure: Option<ListenerError> },
}

/// The listener as contracts see it.
pub struct ListenerView {
    pub state: Lifecycle,
    /// Handle of the channel, from its creation until the worker has stopped.
    pub channel: Option<isize>,
    /// Handle of the worker thread, from its spawn until the wait for it ends.
    pub worker: Option<isize>,
}

impl ListenerView {
    /// What holds of every listener: which handles it has in which state.
    /// In particular a running listener has a worker to join and a channel
    /// to write to.
    pub open spec fn wf(self) -> bool {
        match self.state {
            Lifecycle::Uninitialized => self.channel is None && self.worker is None,
            Lifecycle::Starting => self.worker is None,
            Lifecycle::Running => self.channel is Some && self.worker is Some,
            Lifecycle::Stopping => self.channel is Some,
            Lifecycle::Stopped => self.channel is None && self.worker is None,
            Lifecycle::FailedToStart => self.channel is None && self.worker is None,
        }
    }

    /// A listener in `state` without handles.
    pub open spec fn bare(state: Lifecycle) -> ListenerView {
        ListenerView { state, channel: None, worker: None }
    }
}

/// The listener after `event`, and what the driving thread is to do.
/// An event that the state does not wait for changes nothing and asks for
/// nothing.
pub open spec fn step_spec(listener: ListenerView, event: Event) -> (ListenerView, Action) {
    match (listener.state, event) {
        (Lifecycle::Uninitialized, Event::Load { pid }) => (
            ListenerView::bare(Lifecycle::Starting),
            Action::CreateChannel { pid },
        ),
        (Lifecycle::Starting, Event::ChannelCreated { handle, code }) => if listener.channel is Some {
            (listener, Action::Nothing)
        } else {
            match create_result_spec(handle, code) {
                Ok(channel) => (
                    ListenerView { state: Lifecycle::Starting, channel: Some(channel), worker: None },
                    Action::SpawnWorker { channel },
                ),
                Err(error) => (
                    ListenerView::bare(Lifecycle::FailedToStart),
                    Action::AbortLoad { error },
                ),
            }
        },
        (Lifecycle::Starting, Event::WorkerSpawned { thread }) => match listener.channel {
            Some(channel) => (
                ListenerView { state: Lifecycle::Running, channel: Some(channel), worker: Some(thread) },
                Action::Nothing,
            ),
            None => (listener, Action::Nothing),
        },
        (Lifecycle::Starting, Event::WorkerFailed) => match listener.channel {
            Some(channel) => (
                ListenerView::bare(Lifecycle::FailedToStart),
                Action::ReleaseChannel { channel },
            ),
            None => (listener, Action::Nothing),
        },
        (Lifecycle::Running, Event::Unload) => match listener.channel {
            Some(channel) => (
                ListenerView { state: Lifecycle::Stopping, channel: listener.channel, worker: listener.worker },
                Action::WriteExit { channel, byte: encode_spec(Message::Exit) },
            ),
            None => (listener, Action::Nothing),
        },
        (Lifecycle::Stopping, Event::ExitWritten { succeeded }) => match listener.worker {
            Some(thread) => (
                listener,
                Action::JoinWorker {
                    thread,
                    timeout_ms: JOIN_WAIT_MS,
                    note: if succeeded {
                        None
                    } else {
                        Some(ListenerError::ChannelWriteFailed)
                    },
                },
            ),
            None => (listener, Action::Nothing),
        },
        (Lifecycle::Stopping, Event::WaitFinished { code }) => match listener.worker {
            Some(thread) => if code == WAIT_SIGNALLED {
                (ListenerView::bare(Lifecycle::Stopped), Action::ReleaseWorker { thread, failure: None })
            } else {
                (
                    ListenerView { state: Lifecycle::Stopping, channel: listener.channel, worker: None },
                    Action::ReleaseWorker { thread, failure: Some(ListenerError::JoinTimeout) },
                )
            },
            None => (listener, Action::Nothing),
        },
        _ => (listener, Action::Nothing),
    }
}

/// The one listener of a loaded module.
pub struct Listener {
    state: Lifecycle,
    channel: Option<isize>,
    worker: Option<isize>,
}

impl View for Listener {
    type V = ListenerView;

    closed spec fn view(&self) -> ListenerView {
        ListenerView { state: self.state, channel: self.channel, worker: self.worker }
    }
}

impl Listener {
    #[verifier::type_invariant]
    spec fn well_formed(self) -> bool {
        self@.wf()
    }

    /// A listener that has not been started.
    pub fn new() -> (listener: Listener)
        ensures
            listener@ == ListenerView::bare(Lifecycle::Uninitialized),
            listener@.wf(),
    {
        Listener { state: Lifecycle::Uninitialized, channel: None, worker: None }
    }

    /// The current state.
    pub fn state(&self) -> (state: Lifecycle)
        ensures
            state == self@.state,
            self@.wf(),
    {
        proof {
            use_type_invariant(self);
        }
        self.state
    }

    /// Handle of the channel, while the listener has one.
    pub fn channel(&self) -> (channel: Option<isize>)
        ensures
            channel == self@.channel,
    {
        self.channel
    }

    /// Handle of the worker thread, while the listener has one.
    pub fn worker(&self) -> (worker: Option<isize>)
        ensures
            worker == self@.worker,
    {
        self.worker
    }

    /// Takes one event, moves to the next state and says what to do.
    pub fn step(&mut self, event: Event) -> (action: Action)
        ensures
            (final(self)@, action) == step_spec(old(self)@, event),
            old(self)@.wf(),
            final(self)@.wf(),
    {
        proof {
            use_type_invariant(&*self);
        }
        match (self.state, event) {
            (Lifecycle::Uninitialized, Event::Load { pid }) => {
                self.state = Lifecycle::Starting;
                Action::CreateChannel { pid }
            },
            (Lifecycle::Starting, Event::ChannelCreated { handle, code }) => {
                if self.channel.is_some() {
                    Action::Nothing
                } else {
                    match create_result(handle, code) {
                        Ok(channel) => {
                            self.channel = Some(channel);
                            Action::SpawnWorker { channel }
                        },
                        Err(error) => {
                            self.state = Lifecycle::FailedToStart;
                            Action::AbortLoad { error }
                        },
                    }
                }
            },
            (Lifecycle::Starting, Event::WorkerSpawned { thread }) => {
                match self.channel {
                    Some(channel) => {
                        *self = Listener {
                            state: Lifecycle::Running,
                            channel: Some(channel),
                            worker: Some(thread),
                        };
                        Action::Nothing
                    },
                    None => Action::Nothing,
                }
            },
            (Lifecycle::Starting, Event::WorkerFailed) => {
                match self.channel {
                    Some(channel) => {
                        *self = Listener {
                            state: Lifecycle::FailedToStart,
                            channel: None,
                            worker: None,
                        };
                        Action::ReleaseChannel { channel }
                    },
                    None => Action::Nothing,
                }
            },
            (Lifecycle::Running, Event::Unload) => {
                match self.channel {
                    Some(channel) => {
                        self.state = Lifecycle::Stopping;
                        Action::WriteExit { channel, byte: encode(Message::Exit) }
                    },
                    None => Action::Nothing,
                }
            },
            (Lifecycle::Stopping, Event::ExitWritten { succeeded }) => {
                match self.worker {
                    Some(thread) => Action::JoinWorker {
                        thread,
                        timeout_ms: JOIN_WAIT_MS,
                        note: if succeeded {
                            None
                        } else {
                            Some(ListenerError::ChannelWriteFailed)
                        },
                    },
                    None => Action::Nothing,
                }
            },
            (Lifecycle::Stopping, Event::WaitFinished { code }) => {
                match self.worker {
                    Some(thread) => {
                        if code == wait_signalled() {
                            *self = Listener {
                                state: Lifecycle::Stopped,
                                channel: None,
                                worker: None,
                            };
                            Action::ReleaseWorker { thread, failure: None }
                        } else {
                            self.worker = None;
                            Action::ReleaseWorker {
                                thread,
                                failure: Some(ListenerError::JoinTimeout),
                            }
                        }
                    },
                    None => Action::Nothing,
                }
            },
            _ => Action::Nothing,
        }
    }
}

/// The event that reports an attempt to spawn the worker, given the thread
/// handle that the platform returned.
pub open spec fn spawn_event_spec(thread: isize) -> Event {
    if thread == NO_THREAD {
        Event::WorkerFailed
    } else {
        Event::WorkerSpawned { thread }
    }
}

/// The event that reports an attempt to spawn the worker: `WorkerFailed`
/// for the null handle, `WorkerSpawned` with the handle otherwise.
pub fn spawn_event(thread: isize) -> (event: Event)
    ensures
        event == spawn_event_spec(thread),
{
    if thread == NO_THREAD {
        Event::WorkerFailed
    } else {
        Event::WorkerSpawned { thread }
    }
}

/// The event that reports the write of the exit message.
pub fn exit_written_event(outcome: Result<(), ListenerError>) -> (event: Event)
    ensures
        event == (Event::ExitWritten { succeeded: outcome is Ok }),
{
    Event::ExitWritten { succeeded: outcome.is_ok() }
}

/// Position of a state on the way from `Uninitialized` to an end state.
pub open spec fn rank(state: Lifecycle) -> nat {
    match state {
        Lifecycle::Uninitialized => 0,
        Lifecycle::Starting => 1,
        Lifecycle::Running => 2,
        Lifecycle::Stopping => 3,
        Lifecycle::Stopped => 4,
        Lifecycle::FailedToStart => 4,
    }
}

/// Every step keeps the listener well formed: a running listener always has
/// a worker to join and a channel to write to.
pub proof fn lemma_step_keeps_wf(listener: ListenerView, event: Event)
    requires
        listener.wf(),
    ensures
        step_spec(listener, event).0.wf(),
        step_spec(listener, event).0.state == Lifecycle::Running ==> step_spec(
            listener,
            event,
        ).0.worker is Some,
{
}

/// An unload that finds the listener in any state but `Running` changes
/// nothing and asks for nothing: no write, no wait. So it is for a listener
/// that was never started.
pub proof fn lemma_unload_unstarted(listener: ListenerView)
    requires
        listener.state != Lifecycle::Running,
    ensures
        step_spec(listener, Event::Unload) == (listener, Action::Nothing),
{
}

/// `FailedToStart` is entered from `Starting` and from nowhere else, and
/// entering it asks the driving thread to report the load as failed.
pub proof fn lemma_failure_only_while_starting(listener: ListenerView, event: Event)
    requires
        listener.state != Lifecycle::FailedToStart,
        step_spec(listener, event).0.state == Lifecycle::FailedToStart,
    ensures
        listener.state == Lifecycle::Starting,
        step_spec(listener, event).1 is AbortLoad || step_spec(listener, event).1 is ReleaseChannel,
{
}

/// A running listener stays running until it is unloaded; the unload takes
/// it to `Stopping` and has the exit message written to its channel.
pub proof fn lemma_running_left_only_by_unload(listener: ListenerView, event: Event)
    requires
        listener.wf(),
        listener.state == Lifecycle::Running,
    ensures
        event != Event::Unload ==> step_spec(listener, event) == (listener, Action::Nothing),
        event == Event::Unload ==> step_spec(listener, event).0.state == Lifecycle::Stopping
            && step_spec(listener, event).1 == (Action::WriteExit {
            channel: listener.channel->0,
            byte: TAG_EXIT,
        }),
{
}

/// `Stopped` and `FailedToStart` are final: no event changes them or asks
/// for anything.
pub proof fn lemma_final_states_absorb(listener: ListenerView, event: Event)
    requires
        listener.state == Lifecycle::Stopped || listener.state == Lifecycle::FailedToStart,
    ensures
        step_spec(listener, event) == (listener, Action::Nothing),
{
}

/// The listener never goes back: every step keeps the state or advances it,
/// and by one position unless start-up fails.
pub proof fn lemma_states_advance(listener: ListenerView, event: Event)
    ensures
        rank(listener.state) <= rank(step_spec(listener, event).0.state),
        step_spec(listener, event).0.state != Lifecycle::FailedToStart ==> rank(
            step_spec(listener, event).0.state,
        ) <= rank(listener.state) + 1,
{
}

/// A load whose channel is created and whose worker is spawned brings a new
/// listener to `Running`, with both handles recorded before any message is
/// served.
pub proof fn lemma_load_reaches_running(pid: u32, handle: isize, code: u32, thread: isize)
    requires
        handle != NO_HANDLE,
    ensures
        ({
            let fresh = ListenerView::bare(Lifecycle::Uninitialized);
            let (starting, create) = step_spec(fresh, Event::Load { pid });
            let (created, spawn) = step_spec(starting, Event::ChannelCreated { handle, code });
            let (running, done) = step_spec(created, Event::WorkerSpawned { thread });
            &&& create == Action::CreateChannel { pid }
            &&& spawn == Action::SpawnWorker { channel: handle }
            &&& done == Action::Nothing
            &&& running == ListenerView {
                state: Lifecycle::Running,
                channel: Some(handle),
                worker: Some(thread),
            }
        }),
{
}

/// A load whose channel cannot be created ends in `FailedToStart` with
/// nothing left behind, and the load is reported as failed.
pub proof fn lemma_load_fails_without_channel(pid: u32, code: u32)
    ensures
        ({
            let fresh = ListenerView::bare(Lifecycle::Uninitialized);
            let starting = step_spec(fresh, Event::Load { pid }).0;
            let (failed, abort) = step_spec(
                starting,
                Event::ChannelCreated { handle: NO_HANDLE, code },
            );
            &&& failed == ListenerView::bare(Lifecycle::FailedToStart)
            &&& abort is AbortLoad
            &&& abort->AbortLoad_error.is_fatal_to_startup()
        }),
{
}

/// A load whose worker cannot be spawned ends in `FailedToStart`; the
/// channel, which no worker will close, is handed back to be released.
pub proof fn lemma_load_fails_without_worker(pid: u32, handle: isize, code: u32)
    requires
        handle != NO_HANDLE,
    ensures
        ({
            let fresh = ListenerView::bare(Lifecycle::Uninitialized);
            let starting = step_spec(fresh, Event::Load { pid }).0;
            let created = step_spec(starting, Event::ChannelCreated { handle, code }).0;
            let (failed, release) = step_spec(created, Event::WorkerFailed);
            &&& failed == ListenerView::bare(Lifecycle::FailedToStart)
            &&& release == Action::ReleaseChannel { channel: handle }
        }),
{
}

/// An unload of a running listener writes the exit message, waits for the
/// worker for a bounded time whether or not the write succeeded, and
/// releases the worker's handle whether or not the wait succeeded. The
/// listener is `Stopped` exactly if the worker terminated within the wait;
/// otherwise the worker is given up and `JoinTimeout` is reported.
pub proof fn lemma_unload_is_bounded(listener: ListenerView, written: bool, code: u32)
    requires
        listener.wf(),
        listener.state == Lifecycle::Running,
    ensures
        ({
            let (stopping, write) = step_spec(listener, Event::Unload);
            let (waiting, join) = step_spec(stopping, Event::ExitWritten { succeeded: written });
            let (ended, release) = step_spec(waiting, Event::WaitFinished { code });
            &&& write == Action::WriteExit { channel: listener.channel->0, byte: TAG_EXIT }
            &&& join == Action::JoinWorker {
                thread: listener.worker->0,
                timeout_ms: JOIN_WAIT_MS,
                note: if written {
                    None
                } else {
                    Some(ListenerError::ChannelWriteFailed)
                },
            }
            &&& release is ReleaseWorker
            &&& release->ReleaseWorker_thread == listener.worker->0
            &&& ended.worker is None
            &&& ended.state == Lifecycle::Stopped <==> code == WAIT_SIGNALLED
            &&& release->failure is None <==> code == WAIT_SIGNALLED
            &&& code != WAIT_SIGNALLED ==> ended.state == Lifecycle::Stopping && release->failure
                == Some(ListenerError::JoinTimeout)
        }),
{
}

/// The listener after `events` in order, and the actions it asked for.
pub open spec fn run_spec(listener: ListenerView, events: Seq<Event>) -> (ListenerView, Seq<Action>)
    decreases events.len(),
{
    if events.len() == 0 {
        (listener, Seq::<Action>::empty())
    } else {
        let (next, action) = step_spec(listener, events[0]);
        let (last, rest) = run_spec(next, events.subrange(1, events.len() as int));
        (last, seq![action] + rest)
    }
}

/// How often `actions` asks to create the channel.
pub open spec fn creations(actions: Seq<Action>) -> nat
    decreases actions.len(),
{
    if actions.len() == 0 {
        0
    } else {
        creations(actions.subrange(1, actions.len() as int)) + if actions[0] is CreateChannel {
            1nat
        } else {
            0nat
        }
    }
}

/// How often `actions` asks to spawn the worker.
pub open spec fn spawns(actions: Seq<Action>) -> nat
    decreases actions.len(),
{
    if actions.len() == 0 {
        0
    } else {
        spawns(actions.subrange(1, actions.len() as int)) + if actions[0] is SpawnWorker {
            1nat
        } else {
            0nat
        }
    }
}

/// How often `actions` asks to write the exit message.
pub open spec fn exit_writes(actions: Seq<Action>) -> nat
    decreases actions.len(),
{
    if actions.len() == 0 {
        0
    } else {
        exit_writes(actions.subrange(1, actions.len() as int)) + if actions[0] is WriteExit {
            1nat
        } else {
            0nat
        }
    }
}

/// How often `actions` asks the driving thread to release the channel.
pub open spec fn channel_releases(actions: Seq<Action>) -> nat
    decreases actions.len(),
{
    if actions.len() == 0 {
        0
    } else {
        channel_releases(actions.subrange(1, actions.len() as int)) + if actions[0]
            is ReleaseChannel {
            1nat
        } else {
            0nat
        }
    }
}

/// What is still ahead of a listener, whatever events come: it asks for the
/// channel only while uninitialized, for the worker only before it has a
/// channel, for the exit message only before it is stopping, and to release
/// the channel itself only while starting; each at most once. A listener that
/// released the channel itself never had a worker and never writes an exit.
pub proof fn lemma_run_is_bounded(listener: ListenerView, events: Seq<Event>)
    requires
        listener.wf(),
    ensures
        run_spec(listener, events).0.wf(),
        rank(listener.state) <= rank(run_spec(listener, events).0.state),
        creations(run_spec(listener, events).1) <= if listener.state == Lifecycle::Uninitialized {
            1nat
        } else {
            0nat
        },
        spawns(run_spec(listener, events).1) <= if rank(listener.state) <= 1 && listener.channel
            is None {
            1nat
        } else {
            0nat
        },
        exit_writes(run_spec(listener, events).1) <= if rank(listener.state) <= 2 {
            1nat
        } else {
            0nat
        },
        channel_releases(run_spec(listener, events).1) <= if rank(listener.state) <= 1 {
            1nat
        } else {
            0nat
        },
        channel_releases(run_spec(listener, events).1) + exit_writes(run_spec(listener, events).1)
            <= 1,
    decreases events.len(),
{
    if events.len() > 0 {
        let (next, action) = step_spec(listener, events[0]);
        let tail = events.subrange(1, events.len() as int);
        let rest = run_spec(next, tail).1;
        let actions = seq![action] + rest;
        lemma_step_keeps_wf(listener, events[0]);
        lemma_states_advance(listener, events[0]);
        lemma_run_is_bounded(next, tail);
        assert(actions[0] == action);
        assert(actions.subrange(1, actions.len() as int) =~= rest);
    }
}

/// From load to unload, whatever is reported in between and however often:
/// the channel is created at most once, the worker is spawned at most once
/// and the exit message is written at most once.
pub proof fn lemma_starts_and_stops_once(events: Seq<Event>)
    ensures
        creations(run_spec(ListenerView::bare(Lifecycle::Uninitialized), events).1) <= 1,
        spawns(run_spec(ListenerView::bare(Lifecycle::Uninitialized), events).1) <= 1,
        exit_writes(run_spec(ListenerView::bare(Lifecycle::Uninitialized), events).1) <= 1,
        channel_releases(run_spec(ListenerView::bare(Lifecycle::Uninitialized), events).1) <= 1,
{
    lemma_run_is_bounded(ListenerView::bare(Lifecycle::Uninitialized), events);
}

} // verus!
