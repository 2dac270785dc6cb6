use im_conversion_listener::channel::{Channel, ReadOutcome};
use im_conversion_listener::error::ListenerError;
use im_conversion_listener::store::ConversionStore;
use im_conversion_listener::worker::{BackendCommand, Delivery, Dispatch, Effect, Worker};

fn byte(tag: u8, window: isize, mode: u32) -> Delivery {
    Delivery { outcome: ReadOutcome::Byte(tag), window, mode }
}

fn open_worker(handle: isize) -> Worker {
    Worker::new(Channel::from_create(handle, 0).unwrap())
}

#[test]
fn new_store_is_empty() {
    let store = ConversionStore::new();
    assert_eq!(store.len(), 0);
    assert!(!store.contains(1));
}

#[test]
fn backup_then_recover_gives_the_mode() {
    let mut store = ConversionStore::new();
    store.backup(10, 0x409);
    assert!(store.contains(10));
    assert_eq!(store.len(), 1);
    assert_eq!(store.recover(10), Ok(0x409));
}

#[test]
fn first_backup_wins() {
    let mut store = ConversionStore::new();
    store.backup(10, 1025);
    store.backup(10, 9);
    assert_eq!(store.recover(10), Ok(1025));
    assert_eq!(store.len(), 1);
}

#[test]
fn recover_without_backup_is_an_error() {
    let store = ConversionStore::new();
    assert_eq!(store.recover(10), Err(ListenerError::RecoverWithoutPriorBackup(10)));
}

#[test]
fn recover_of_another_window_is_an_error() {
    let mut store = ConversionStore::new();
    store.backup(10, 1);
    store.backup(11, 2);
    assert_eq!(store.recover(12), Err(ListenerError::RecoverWithoutPriorBackup(12)));
    assert_eq!(store.recover(0), Err(ListenerError::RecoverWithoutPriorBackup(0)));
}

#[test]
fn recover_is_repeatable() {
    let mut store = ConversionStore::new();
    store.backup(-3, 77);
    assert_eq!(store.recover(-3), Ok(77));
    assert_eq!(store.recover(-3), Ok(77));
    assert_eq!(store.len(), 1);
}

#[test]
fn backup_of_mode_zero_is_not_a_missing_entry() {
    let mut store = ConversionStore::new();
    store.backup(5, 0);
    assert_eq!(store.recover(5), Ok(0));
    store.backup(5, 4);
    assert_eq!(store.recover(5), Ok(0));
}

#[test]
fn windows_are_kept_apart() {
    let mut store = ConversionStore::new();
    store.backup(1, 100);
    store.backup(2, 200);
    assert_eq!(store.recover(1), Ok(100));
    assert_eq!(store.recover(2), Ok(200));
    assert_eq!(store.len(), 2);
}

#[test]
fn new_worker_reads_an_open_channel() {
    let worker = open_worker(0x20);
    assert!(!worker.is_finished());
    assert!(worker.channel().is_open());
    assert_eq!(worker.channel().handle(), 0x20);
    assert_eq!(worker.store().len(), 0);
}

#[test]
fn dispatch_by_message() {
    let mut worker = open_worker(0x20);
    assert_eq!(worker.dispatch(ReadOutcome::Byte(1)), Dispatch::Backup);
    assert_eq!(worker.dispatch(ReadOutcome::Byte(2)), Dispatch::Recover);
    assert!(!worker.is_finished());
    assert_eq!(worker.dispatch(ReadOutcome::Byte(8)), Dispatch::Close(0x20));
    assert!(worker.is_finished());
}

#[test]
fn undefined_byte_is_skipped_and_worker_reads_on() {
    let mut worker = open_worker(0x20);
    assert_eq!(
        worker.dispatch(ReadOutcome::Byte(0)),
        Dispatch::Skip(ListenerError::UndefinedMessage(0))
    );
    assert_eq!(
        worker.dispatch(ReadOutcome::Byte(0x81)),
        Dispatch::Skip(ListenerError::UndefinedMessage(0x81))
    );
    assert!(!worker.is_finished());
    assert_eq!(worker.dispatch(ReadOutcome::Byte(1)), Dispatch::Backup);
}

#[test]
fn failed_read_is_skipped_and_worker_reads_on() {
    let mut worker = open_worker(0x20);
    assert_eq!(
        worker.dispatch(ReadOutcome::Failed(121)),
        Dispatch::Skip(ListenerError::ChannelReadFailed(121))
    );
    assert!(!worker.is_finished());
    assert!(worker.channel().is_open());
}

#[test]
fn closed_channel_ends_the_worker_without_release() {
    let mut worker = open_worker(0x20);
    assert_eq!(worker.dispatch(ReadOutcome::Closed), Dispatch::Leave);
    assert!(worker.is_finished());
    assert!(!worker.channel().is_open());
}

#[test]
fn finished_worker_only_leaves() {
    let mut worker = open_worker(0x20);
    assert_eq!(worker.dispatch(ReadOutcome::Byte(8)), Dispatch::Close(0x20));
    assert_eq!(worker.dispatch(ReadOutcome::Byte(8)), Dispatch::Leave);
    assert_eq!(worker.dispatch(ReadOutcome::Byte(1)), Dispatch::Leave);
    assert_eq!(worker.dispatch(ReadOutcome::Failed(5)), Dispatch::Leave);
    assert_eq!(worker.channel().write_target(), Err(ListenerError::ChannelWriteFailed));
}

#[test]
fn worker_backup_forces_alphanumeric() {
    let mut worker = open_worker(0x20);
    let command = worker.backup(0x501, 1025);
    assert_eq!(command, BackendCommand { window: 0x501, mode: 0 });
    assert_eq!(
        command.mode,
        windows_sys::Win32::UI::Input::Ime::IME_CMODE_ALPHANUMERIC
    );
    assert_eq!(worker.store().recover(0x501), Ok(1025));
}

#[test]
fn worker_recover_restores_the_backed_up_mode() {
    let mut worker = open_worker(0x20);
    worker.backup(0x501, 1025);
    worker.backup(0x501, 0);
    assert_eq!(worker.recover(0x501), Ok(BackendCommand { window: 0x501, mode: 1025 }));
    assert_eq!(worker.recover(0x501), Ok(BackendCommand { window: 0x501, mode: 1025 }));
}

#[test]
fn worker_recover_without_backup_reports_the_window() {
    let worker = open_worker(0x20);
    assert_eq!(worker.recover(0x501), Err(ListenerError::RecoverWithoutPriorBackup(0x501)));
}

#[test]
fn deliver_backup_then_recover() {
    let mut worker = open_worker(0x20);
    assert_eq!(
        worker.deliver(byte(1, 7, 1033)),
        Effect::Apply(BackendCommand { window: 7, mode: 0 })
    );
    assert_eq!(
        worker.deliver(byte(2, 7, 0)),
        Effect::Apply(BackendCommand { window: 7, mode: 1033 })
    );
    assert_eq!(
        worker.deliver(byte(2, 8, 0)),
        Effect::Report(ListenerError::RecoverWithoutPriorBackup(8))
    );
    assert_eq!(worker.deliver(byte(3, 7, 0)), Effect::Report(ListenerError::UndefinedMessage(3)));
    assert_eq!(worker.deliver(byte(8, 7, 0)), Effect::Close(0x20));
    assert_eq!(worker.deliver(byte(1, 9, 5)), Effect::Leave);
    assert!(!worker.store().contains(9));
}

#[test]
fn serve_a_command_run_closes_once() {
    let mut worker = open_worker(0x31);
    let run = vec![byte(1, 7, 1033), byte(2, 7, 0), byte(1, 7, 3), byte(2, 7, 3), byte(8, 0, 0)];
    let effects = worker.serve(&run);
    assert_eq!(
        effects,
        vec![
            Effect::Apply(BackendCommand { window: 7, mode: 0 }),
            Effect::Apply(BackendCommand { window: 7, mode: 1033 }),
            Effect::Apply(BackendCommand { window: 7, mode: 0 }),
            Effect::Apply(BackendCommand { window: 7, mode: 1033 }),
            Effect::Close(0x31),
        ]
    );
    assert_eq!(effects.iter().filter(|effect| matches!(effect, Effect::Close(_))).count(), 1);
    assert!(worker.is_finished());
}

#[test]
fn serve_only_exit() {
    let mut worker = open_worker(3);
    assert_eq!(worker.serve(&vec![byte(8, 0, 0)]), vec![Effect::Close(3)]);
    assert!(worker.is_finished());
}

#[test]
fn serve_nothing_changes_nothing() {
    let mut worker = open_worker(3);
    assert_eq!(worker.serve(&Vec::new()), Vec::new());
    assert!(!worker.is_finished());
}

#[test]
fn serve_stops_at_exit() {
    let mut worker = open_worker(3);
    let effects = worker.serve(&vec![byte(8, 0, 0), byte(1, 4, 4), byte(8, 0, 0)]);
    assert_eq!(effects, vec![Effect::Close(3)]);
    assert!(!worker.store().contains(4));
}

#[test]
fn serve_survives_failures_and_stray_bytes() {
    let mut worker = open_worker(3);
    let run = vec![
        Delivery { outcome: ReadOutcome::Failed(121), window: 1, mode: 1 },
        byte(0xff, 1, 1),
        byte(1, 1, 42),
        Delivery { outcome: ReadOutcome::Closed, window: 1, mode: 1 },
    ];
    assert_eq!(
        worker.serve(&run),
        vec![
            Effect::Report(ListenerError::ChannelReadFailed(121)),
            Effect::Report(ListenerError::UndefinedMessage(0xff)),
            Effect::Apply(BackendCommand { window: 1, mode: 0 }),
            Effect::Leave,
        ]
    );
    assert!(worker.is_finished());
    assert_eq!(worker.store().recover(1), Ok(42));
}

#[test]
fn serve_in_two_parts_is_serve_in_one() {
    let first = vec![byte(1, 7, 1033), byte(2, 8, 0), byte(0x40, 0, 0)];
    let second = vec![byte(2, 7, 0), byte(8, 0, 0), byte(1, 9, 9)];
    let mut whole = first.clone();
    whole.extend(second.iter().copied());

    let mut in_parts = open_worker(0x31);
    let mut effects = in_parts.serve(&first);
    effects.extend(in_parts.serve(&second));

    let mut in_one = open_worker(0x31);
    assert_eq!(in_one.serve(&whole), effects);
    assert_eq!(effects.len(), 5);
    assert_eq!(in_one.is_finished(), in_parts.is_finished());
    assert_eq!(in_one.store().recover(7), in_parts.store().recover(7));
    assert_eq!(in_one.store().len(), in_parts.store().len());
}

#[test]
fn worker_reads_on_without_exit() {
    let mut worker = open_worker(0x31);
    let run = vec![
        byte(1, 1, 10),
        byte(2, 1, 0),
        byte(0, 0, 0),
        Delivery { outcome: ReadOutcome::Failed(5), window: 0, mode: 0 },
        byte(4, 0, 0),
    ];
    let effects = worker.serve(&run);
    assert_eq!(effects.len(), run.len());
    assert!(effects.iter().all(|effect| !matches!(effect, Effect::Close(_) | Effect::Leave)));
    assert!(!worker.is_finished());
    assert_eq!(worker.channel().write_target(), Ok(0x31));
}
