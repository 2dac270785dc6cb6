//! The worker's side of the listener: what it does with each thing it reads
//! from the channel. The worker reads, asks here what to do, and does it.

use vstd::prelude::*;
use crate::channel::{Channel, ChannelView, ReadOutcome};
use crate::error::ListenerError;
use crate::message::{decode, decode_spec, Message, TAG_BACKUP, TAG_EXIT, TAG_RECOVER};
use crate::platform::{alphanumeric_mode, MODE_ALPHANUMERIC};
use crate::store::{backup_spec, recover_spec, ConversionStore};

verus! {

/// An instruction to the conversion backend: put `window` into `mode`.
#[derive(Clone, Copy, Debug, PartialEq, Eq, Structural)]
pub struct BackendCommand {
    pub window: isize,
    pub mode: u32,
}

/// What the worker is to do after one read.
#[derive(Clone, Copy, Debug, PartialEq, Eq, Structural)]
pub enum Dispatch {
    /// Read the target window's mode and hand it to [`Worker::backup`].
    Backup,
    /// Ask [`Worker::recover`] for the target window's mode.
    Recover,
    /// Release this channel handle and leave the read loop.
    Close(isize),
    /// Leave the read loop; there is nothing to release.
    Leave,
    /// Log the error and read again.
    Skip(ListenerError),
}

/// The worker as contracts see it: the store and the channel it reads.
/// The worker has finished exactly when its channel is closed.
pub struct WorkerView {
    pub store: Map<isize, u32>,
    pub channel: ChannelView,
}

impl WorkerView {
    /// Whether the read loop has ended.
    pub open spec fn finished(self) -> bool {
        !self.channel.open
    }

    /// The same worker with its channel closed.
    pub open spec fn closed(self) -> WorkerView {
        WorkerView { store: self.store, channel: ChannelView { handle: self.channel.handle, open: false } }
    }
}

/// The worker after one read, and what it is to do. A finished worker
/// reads nothing more. Only an exit message, or a channel closed under the
/// worker, ends the loop; an undefined byte and a failed read are skipped.
pub open spec fn dispatch_spec(worker: WorkerView, outcome: ReadOutcome) -> (WorkerView, Dispatch) {
    if worker.finished() {
        (worker, Dispatch::Leave)
    } else {
        match outcome {
            ReadOutcome::Byte(byte) => match decode_spec(byte) {
                Message::Backup => (worker, Dispatch::Backup),
                Message::Recover => (worker, Dispatch::Recover),
                Message::Exit => (worker.closed(), Dispatch::Close(worker.channel.handle)),
                Message::Undefined => (worker, Dispatch::Skip(ListenerError::UndefinedMessage(byte))),
            },
            ReadOutcome::Closed => (worker.closed(), Dispatch::Leave),
            ReadOutcome::Failed(code) => (worker, Dispatch::Skip(ListenerError::ChannelReadFailed(code))),
        }
    }
}

/// The command that follows a backup of `window`: force it to alphanumeric.
pub open spec fn backup_command(window: isize) -> BackendCommand {
    BackendCommand { window, mode: MODE_ALPHANUMERIC }
}

/// The command that restores `window`, or the error where it has no backup.
pub open spec fn recover_command(store: Map<isize, u32>, window: isize) -> Result<
    BackendCommand,
    ListenerError,
> {
    match recover_spec(store, window) {
        Ok(mode) => Ok(BackendCommand { window, mode }),
        Err(error) => Err(error),
    }
}

/// The worker of one listener: it owns the conversion store and the reading
/// end of the channel, and is the one that closes the channel.
pub struct Worker {
    store: ConversionStore,
    channel: Channel,
}

impl View for Worker {
    type V = WorkerView;

    closed spec fn view(&self) -> WorkerView {
        WorkerView { store: self.store@, channel: self.channel@ }
    }
}

impl Worker {
    /// A worker with an empty store that reads `channel`.
    pub fn new(channel: Channel) -> (worker: Worker)
        ensures
            worker@ == (WorkerView { store: Map::<isize, u32>::empty(), channel: channel@ }),
    {
        Worker { store: ConversionStore::new(), channel }
    }

    /// Whether the read loop has ended.
    pub fn is_finished(&self) -> (finished: bool)
        ensures
            finished == self@.finished(),
    {
        !self.channel.is_open()
    }

    /// The channel this worker reads.
    pub fn channel(&self) -> (channel: &Channel)
        ensures
            channel@ == self@.channel,
    {
        &self.channel
    }

    /// The store this worker keeps.
    pub fn store(&self) -> (store: &ConversionStore)
        ensures
            store@ == self@.store,
    {
        &self.store
    }

    /// Decides what to do after one read, and closes the channel where the
    /// read ends the loop.
    pub fn dispatch(&mut self, outcome: ReadOutcome) -> (step: Dispatch)
        ensures
            (final(self)@, step) == dispatch_spec(old(self)@, outcome),
    {
        if !self.channel.is_open() {
            return Dispatch::Leave;
        }
        match outcome {
            ReadOutcome::Byte(byte) => match decode(byte) {
                Message::Backup => Dispatch::Backup,
                Message::Recover => Dispatch::Recover,
                Message::Exit => {
                    let handle = self.channel.handle();
                    self.channel.close();
                    Dispatch::Close(handle)
                },
                Message::Undefined => Dispatch::Skip(ListenerError::UndefinedMessage(byte)),
            },
            ReadOutcome::Closed => {
                self.channel.mark_closed();
                Dispatch::Leave
            },
            ReadOutcome::Failed(code) => Dispatch::Skip(ListenerError::ChannelReadFailed(code)),
        }
    }

    /// Backs up `current` as the mode of `window`, unless the window already
    /// has a backup, and returns the command that forces the window to
    /// alphanumeric input.
    pub fn backup(&mut self, window: isize, current: u32) -> (command: BackendCommand)
        ensures
            final(self)@.store == backup_spec(old(self)@.store, window, current),
            final(self)@.channel == old(self)@.channel,
            command == backup_command(window),
    {
        self.store.backup(window, current);
        BackendCommand { window, mode: alphanumeric_mode() }
    }

    /// The command that restores the mode backed up for `window`; the store
    /// is left as it is. A window without backup is reported as
    /// `RecoverWithoutPriorBackup`.
    pub fn recover(&self, window: isize) -> (command: Result<BackendCommand, ListenerError>)
        ensures
            command == recover_command(self@.store, window),
            command is Ok <==> self@.store.contains_key(window),
    {
        match self.store.recover(window) {
            Ok(mode) => Ok(BackendCommand { window, mode }),
            Err(error) => Err(error),
        }
    }
}

/// One read, together with what the worker finds at that moment: the target
/// window and the conversion mode it is in.
#[derive(Clone, Copy, Debug, PartialEq, Eq, Structural)]
pub struct Delivery {
    pub outcome: ReadOutcome,
    pub window: isize,
    pub mode: u32,
}

/// What serving one delivery asks of the world outside.
#[derive(Clone, Copy, Debug, PartialEq, Eq, Structural)]
pub enum Effect {
    /// Hand the command to the conversion backend.
    Apply(BackendCommand),
    /// Log the error; the worker reads on.
    Report(ListenerError),
    /// Release the channel handle; the worker has ended.
    Close(isize),
    /// The worker has ended and there is nothing to release.
    Leave,
}

/// The worker after one delivery, and the effect of serving it.
pub open spec fn deliver_spec(worker: WorkerView, delivery: Delivery) -> (WorkerView, Effect) {
    let (next, step) = dispatch_spec(worker, delivery.outcome);
    match step {
        Dispatch::Backup => (
            WorkerView {
                store: backup_spec(next.store, delivery.window, delivery.mode),
                channel: next.channel,
            },
            Effect::Apply(backup_command(delivery.window)),
        ),
        Dispatch::Recover => (
            next,
            match recover_command(next.store, delivery.window) {
                Ok(command) => Effect::Apply(command),
                Err(error) => Effect::Report(error),
            },
        ),
        Dispatch::Close(handle) => (next, Effect::Close(handle)),
        Dispatch::Leave => (next, Effect::Leave),
        Dispatch::Skip(error) => (next, Effect::Report(error)),
    }
}

/// The worker after serving `deliveries` in order, and the effects in that
/// order. Serving stops with the delivery that ends the worker; what would
/// have come after it is never read.
pub open spec fn serve_spec(worker: WorkerView, deliveries: Seq<Delivery>) -> (WorkerView, Seq<Effect>)
    decreases deliveries.len(),
{
    if deliveries.len() == 0 || worker.finished() {
        (worker, Seq::<Effect>::empty())
    } else {
        let (next, effect) = deliver_spec(worker, deliveries[0]);
        let (last, rest) = serve_spec(next, deliveries.subrange(1, deliveries.len() as int));
        (last, seq![effect] + rest)
    }
}

/// How often `effects` releases a channel handle.
pub open spec fn close_count(effects: Seq<Effect>) -> nat
    decreases effects.len(),
{
    if effects.len() == 0 {
        0
    } else {
        close_count(effects.subrange(1, effects.len() as int)) + if effects[0] is Close {
            1nat
        } else {
            0nat
        }
    }
}

/// A run of commands as a controller sends them: any number of backup and
/// restore messages, then one exit message, each read without failure.
pub open spec fn is_command_run(deliveries: Seq<Delivery>) -> bool {
    &&& deliveries.len() >= 1
    &&& deliveries.last().outcome == ReadOutcome::Byte(TAG_EXIT)
    &&& forall|i: int|
        0 <= i < deliveries.len() - 1 ==> {
            ||| (#[trigger] deliveries[i]).outcome == ReadOutcome::Byte(TAG_BACKUP)
            ||| deliveries[i].outcome == ReadOutcome::Byte(TAG_RECOVER)
        }
}

impl Worker {
    /// Serves one delivery: decides on the read and, for a backup or a
    /// restore, carries it out on the store with the delivery's window and
    /// mode.
    pub fn deliver(&mut self, delivery: Delivery) -> (effect: Effect)
        ensures
            (final(self)@, effect) == deliver_spec(old(self)@, delivery),
    {
        match self.dispatch(delivery.outcome) {
            Dispatch::Backup => Effect::Apply(self.backup(delivery.window, delivery.mode)),
            Dispatch::Recover => match self.recover(delivery.window) {
                Ok(command) => Effect::Apply(command),
                Err(error) => Effect::Report(error),
            },
            Dispatch::Close(handle) => Effect::Close(handle),
            Dispatch::Leave => Effect::Leave,
            Dispatch::Skip(error) => Effect::Report(error),
        }
    }

    /// Serves `deliveries` in order until they are used up or the worker has
    /// ended, and returns the effects in that order.
    pub fn serve(&mut self, deliveries: &Vec<Delivery>) -> (effects: Vec<Effect>)
        ensures
            (final(self)@, effects@) == serve_spec(old(self)@, deliveries@),
    {
        let mut effects: Vec<Effect> = Vec::new();
        let mut served: usize = 0;
        proof {
            assert(deliveries@.subrange(0, deliveries@.len() as int) =~= deliveries@);
            assert(effects@ + serve_spec(self@, deliveries@).1 =~= serve_spec(self@, deliveries@).1);
        }
        while served < deliveries.len() && !self.is_finished()
            invariant
                served <= deliveries.len(),
                serve_spec(old(self)@, deliveries@) == ({
                    let (last, rest) = serve_spec(
                        self@,
                        deliveries@.subrange(served as int, deliveries@.len() as int),
                    );
                    (last, effects@ + rest)
                }),
            decreases deliveries.len() - served,
        {
            let ghost pending = deliveries@.subrange(served as int, deliveries@.len() as int);
            let effect = self.deliver(deliveries[served]);
            proof {
                let rest = serve_spec(self@, pending.subrange(1, pending.len() as int)).1;
                assert(pending.subrange(1, pending.len() as int) =~= deliveries@.subrange(
                    served + 1,
                    deliveries@.len() as int,
                ));
                assert(effects@ + (seq![effect] + rest) =~= effects@.push(effect) + rest);
            }
            effects.push(effect);
            served = served + 1;
        }
        proof {
            let pending = deliveries@.subrange(served as int, deliveries@.len() as int);
            assert(serve_spec(self@, pending).1 =~= Seq::<Effect>::empty());
        }
        effects
    }
}

/// Whether a read ends the worker: only an exit message and a closed
/// channel do.
pub open spec fn ends_worker(outcome: ReadOutcome) -> bool {
    outcome == ReadOutcome::Byte(TAG_EXIT) || outcome == ReadOutcome::Closed
}

/// Serving with nothing delivered changes nothing.
pub proof fn lemma_serve_nothing(worker: WorkerView)
    ensures
        serve_spec(worker, Seq::<Delivery>::empty()) == (worker, Seq::<Effect>::empty()),
{
}

/// A run of backup and restore messages that ends in one exit message ends
/// the worker and releases the channel exactly once, with the last
/// delivery. Every delivery of the run is served, none is skipped.
pub proof fn lemma_exit_ends_run(worker: WorkerView, deliveries: Seq<Delivery>)
    requires
        !worker.finished(),
        is_command_run(deliveries),
    ensures
        serve_spec(worker, deliveries).0.finished(),
        serve_spec(worker, deliveries).0.channel.handle == worker.channel.handle,
        serve_spec(worker, deliveries).1.len() == deliveries.len(),
        serve_spec(worker, deliveries).1.last() == Effect::Close(worker.channel.handle),
        close_count(serve_spec(worker, deliveries).1) == 1,
    decreases deliveries.len(),
{
    let (next, effect) = deliver_spec(worker, deliveries[0]);
    let tail = deliveries.subrange(1, deliveries.len() as int);
    let rest = serve_spec(next, tail).1;
    let effects = seq![effect] + rest;
    assert(serve_spec(worker, deliveries).1 == effects);
    assert(close_count(effects) == close_count(rest) + if effect is Close {
        1nat
    } else {
        0nat
    }) by {
        assert(effects.subrange(1, effects.len() as int) =~= rest);
    }
    if deliveries.len() == 1 {
        assert(rest =~= Seq::<Effect>::empty());
    } else {
        assert(tail.last() == deliveries.last());
        assert forall|i: int| 0 <= i < tail.len() - 1 implies {
            ||| (#[trigger] tail[i]).outcome == ReadOutcome::Byte(TAG_BACKUP)
            ||| tail[i].outcome == ReadOutcome::Byte(TAG_RECOVER)
        } by {
            assert(tail[i] == deliveries[i + 1]);
        }
        lemma_exit_ends_run(next, tail);
    }
}

/// Deliveries are served in the order in which they arrive: serving two
/// runs one after the other is serving them as one run.
pub proof fn lemma_serve_in_order(worker: WorkerView, first: Seq<Delivery>, second: Seq<Delivery>)
    ensures
        serve_spec(worker, first + second) == ({
            let (between, early) = serve_spec(worker, first);
            let (last, late) = serve_spec(between, second);
            (last, early + late)
        }),
    decreases first.len(),
{
    let (between, early) = serve_spec(worker, first);
    let (last, late) = serve_spec(between, second);
    if first.len() == 0 {
        assert(first + second =~= second);
        assert(early + late =~= late);
    } else if worker.finished() {
        assert(early + late =~= Seq::<Effect>::empty());
    } else {
        let all = first + second;
        let (next, effect) = deliver_spec(worker, first[0]);
        assert(all.subrange(1, all.len() as int) =~= first.subrange(1, first.len() as int) + second);
        lemma_serve_in_order(next, first.subrange(1, first.len() as int), second);
        let rest = serve_spec(next, first.subrange(1, first.len() as int)).1;
        assert(seq![effect] + (rest + late) =~= (seq![effect] + rest) + late);
    }
}

/// The worker never ends on its own: as long as no exit message arrives and
/// the channel is not closed under it, it serves every delivery, keeps its
/// channel open and releases nothing, whatever else it reads.
pub proof fn lemma_worker_reads_on(worker: WorkerView, deliveries: Seq<Delivery>)
    requires
        !worker.finished(),
        forall|i: int| 0 <= i < deliveries.len() ==> !ends_worker((#[trigger] deliveries[i]).outcome),
    ensures
        serve_spec(worker, deliveries).0.channel == worker.channel,
        serve_spec(worker, deliveries).1.len() == deliveries.len(),
        close_count(serve_spec(worker, deliveries).1) == 0,
    decreases deliveries.len(),
{
    if deliveries.len() > 0 {
        let (next, effect) = deliver_spec(worker, deliveries[0]);
        let tail = deliveries.subrange(1, deliveries.len() as int);
        assert forall|i: int| 0 <= i < tail.len() implies !ends_worker((#[trigger] tail[i]).outcome) by {
            assert(tail[i] == deliveries[i + 1]);
        }
        lemma_worker_reads_on(next, tail);
        let effects = seq![effect] + serve_spec(next, tail).1;
        assert(effects.subrange(1, effects.len() as int) =~= serve_spec(next, tail).1);
    }
}

/// The store changes only by a backup message for a window that has no
/// backup yet, and then gains exactly that window with the delivered mode.
/// No delivery removes or changes an entry.
pub proof fn lemma_store_grows_by_backup_only(worker: WorkerView, delivery: Delivery)
    ensures
        ({
            let after = deliver_spec(worker, delivery).0.store;
            let grows = !worker.finished() && delivery.outcome == ReadOutcome::Byte(TAG_BACKUP)
                && !worker.store.contains_key(delivery.window);
            &&& grows ==> after == worker.store.insert(delivery.window, delivery.mode)
            &&& !grows ==> after == worker.store
            &&& forall|window: isize| #[trigger]
                worker.store.contains_key(window) ==> after.contains_key(window) && after[window]
                    == worker.store[window]
        }),
{
}

/// After a backup of a window, a restore of it gives the same command
/// however often it is asked, and leaves the worker as it is. Where the
/// window had no backup before, the command restores the mode of that backup.
pub proof fn lemma_recover_repeats(
    worker: WorkerView,
    window: isize,
    mode: u32,
    later: u32,
    latest: u32,
)
    requires
        !worker.finished(),
    ensures
        ({
            let backed_up = deliver_spec(
                worker,
                Delivery { outcome: ReadOutcome::Byte(TAG_BACKUP), window, mode },
            ).0;
            let first = deliver_spec(
                backed_up,
                Delivery { outcome: ReadOutcome::Byte(TAG_RECOVER), window, mode: later },
            );
            let second = deliver_spec(
                first.0,
                Delivery { outcome: ReadOutcome::Byte(TAG_RECOVER), window, mode: latest },
            );
            &&& first.0 == backed_up
            &&& second == first
            &&& first.1 is Apply
            &&& !worker.store.contains_key(window) ==> first.1 == Effect::Apply(
                BackendCommand { window, mode },
            )
        }),
{
}

} // verus!
