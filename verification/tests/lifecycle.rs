use im_conversion_listener::channel::{Channel, ReadOutcome};
use im_conversion_listener::error::ListenerError;
use im_conversion_listener::hook::{
    call_result, first_event, host_reason, recover_result, succeeded, verdict, HostReason,
    NOT_RESTORED, RELEASE_FAILED,
};
use im_conversion_listener::listener::{
    exit_written_event, spawn_event, Action, Event, Lifecycle, Listener, JOIN_WAIT_MS,
};
use im_conversion_listener::platform::{
    CODE_ALREADY_EXISTS, CODE_INVALID_HANDLE, MODE_ALPHANUMERIC, NO_HANDLE, REASON_PROCESS_ATTACH,
    REASON_PROCESS_DETACH, REASON_THREAD_ATTACH, REASON_THREAD_DETACH, STATUS_FALSE, STATUS_TRUE,
    WAIT_SIGNALLED,
};
use im_conversion_listener::worker::{Dispatch, Worker};

fn running(channel: isize, thread: isize) -> Listener {
    let mut listener = Listener::new();
    listener.step(Event::Load { pid: 1 });
    listener.step(Event::ChannelCreated { handle: channel, code: 0 });
    listener.step(Event::WorkerSpawned { thread });
    assert_eq!(listener.state(), Lifecycle::Running);
    listener
}

#[test]
fn platform_values_agree_with_the_bindings() {
    assert_eq!(REASON_PROCESS_ATTACH, windows_sys::Win32::System::SystemServices::DLL_PROCESS_ATTACH);
    assert_eq!(REASON_PROCESS_DETACH, windows_sys::Win32::System::SystemServices::DLL_PROCESS_DETACH);
    assert_eq!(REASON_THREAD_ATTACH, windows_sys::Win32::System::SystemServices::DLL_THREAD_ATTACH);
    assert_eq!(REASON_THREAD_DETACH, windows_sys::Win32::System::SystemServices::DLL_THREAD_DETACH);
    assert_eq!(MODE_ALPHANUMERIC, windows_sys::Win32::UI::Input::Ime::IME_CMODE_ALPHANUMERIC);
    assert_eq!(NO_HANDLE, windows_sys::Win32::Foundation::INVALID_HANDLE_VALUE);
    assert_eq!(STATUS_FALSE, windows_sys::Win32::Foundation::FALSE);
    assert_eq!(STATUS_TRUE, windows_sys::Win32::Foundation::TRUE);
    assert_eq!(CODE_ALREADY_EXISTS, windows_sys::Win32::Foundation::ERROR_ALREADY_EXISTS);
    assert_eq!(CODE_INVALID_HANDLE, windows_sys::Win32::Foundation::ERROR_INVALID_HANDLE);
    assert_eq!(WAIT_SIGNALLED, windows_sys::Win32::Foundation::WAIT_OBJECT_0);
}

#[test]
fn new_listener_is_uninitialized() {
    let listener = Listener::new();
    assert_eq!(listener.state(), Lifecycle::Uninitialized);
    assert_eq!(listener.channel(), None);
    assert_eq!(listener.worker(), None);
}

#[test]
fn load_asks_for_the_channel() {
    let mut listener = Listener::new();
    assert_eq!(listener.step(Event::Load { pid: 0x1234 }), Action::CreateChannel { pid: 0x1234 });
    assert_eq!(listener.state(), Lifecycle::Starting);
}

#[test]
fn load_reaches_running_with_both_handles() {
    let mut listener = Listener::new();
    listener.step(Event::Load { pid: 0x1234 });
    assert_eq!(
        listener.step(Event::ChannelCreated { handle: 0x50, code: 0 }),
        Action::SpawnWorker { channel: 0x50 }
    );
    assert_eq!(listener.state(), Lifecycle::Starting);
    assert_eq!(listener.channel(), Some(0x50));
    assert_eq!(listener.step(Event::WorkerSpawned { thread: 0x60 }), Action::Nothing);
    assert_eq!(listener.state(), Lifecycle::Running);
    assert_eq!(listener.channel(), Some(0x50));
    assert_eq!(listener.worker(), Some(0x60));
}

#[test]
fn channel_creation_failure_fails_the_start() {
    let mut listener = Listener::new();
    listener.step(Event::Load { pid: 1 });
    assert_eq!(
        listener.step(Event::ChannelCreated { handle: -1, code: 5 }),
        Action::AbortLoad { error: ListenerError::ChannelCreationFailed(5) }
    );
    assert_eq!(listener.state(), Lifecycle::FailedToStart);
    assert_eq!(listener.channel(), None);
    assert_eq!(listener.worker(), None);
}

#[test]
fn taken_name_fails_the_start() {
    let mut listener = Listener::new();
    listener.step(Event::Load { pid: 1 });
    assert_eq!(
        listener.step(Event::ChannelCreated { handle: -1, code: 183 }),
        Action::AbortLoad { error: ListenerError::ChannelAlreadyExists }
    );
    assert_eq!(listener.state(), Lifecycle::FailedToStart);
}

#[test]
fn worker_failure_releases_the_channel() {
    let mut listener = Listener::new();
    listener.step(Event::Load { pid: 1 });
    listener.step(Event::ChannelCreated { handle: 0x50, code: 0 });
    assert_eq!(listener.step(Event::WorkerFailed), Action::ReleaseChannel { channel: 0x50 });
    assert_eq!(listener.state(), Lifecycle::FailedToStart);
    assert_eq!(listener.channel(), None);
}

#[test]
fn worker_events_before_the_channel_are_ignored() {
    let mut listener = Listener::new();
    listener.step(Event::Load { pid: 1 });
    assert_eq!(listener.step(Event::WorkerSpawned { thread: 9 }), Action::Nothing);
    assert_eq!(listener.step(Event::WorkerFailed), Action::Nothing);
    assert_eq!(listener.state(), Lifecycle::Starting);
    assert_eq!(listener.worker(), None);
}

#[test]
fn second_channel_is_ignored() {
    let mut listener = Listener::new();
    listener.step(Event::Load { pid: 1 });
    listener.step(Event::ChannelCreated { handle: 0x50, code: 0 });
    assert_eq!(listener.step(Event::ChannelCreated { handle: 0x51, code: 0 }), Action::Nothing);
    assert_eq!(listener.step(Event::ChannelCreated { handle: -1, code: 5 }), Action::Nothing);
    assert_eq!(listener.channel(), Some(0x50));
    assert_eq!(listener.state(), Lifecycle::Starting);
}

#[test]
fn second_load_is_ignored() {
    let mut listener = running(0x50, 0x60);
    assert_eq!(listener.step(Event::Load { pid: 2 }), Action::Nothing);
    assert_eq!(listener.state(), Lifecycle::Running);
}

#[test]
fn unload_before_start_is_a_no_op() {
    let mut listener = Listener::new();
    assert_eq!(listener.step(Event::Unload), Action::Nothing);
    assert_eq!(listener.state(), Lifecycle::Uninitialized);
    assert_eq!(listener.channel(), None);
    assert_eq!(listener.worker(), None);
}

#[test]
fn unload_while_starting_or_failed_is_a_no_op() {
    let mut listener = Listener::new();
    listener.step(Event::Load { pid: 1 });
    assert_eq!(listener.step(Event::Unload), Action::Nothing);
    assert_eq!(listener.state(), Lifecycle::Starting);
    listener.step(Event::ChannelCreated { handle: -1, code: 0 });
    assert_eq!(listener.step(Event::Unload), Action::Nothing);
    assert_eq!(listener.state(), Lifecycle::FailedToStart);
}

#[test]
fn unload_writes_exit_joins_and_stops() {
    let mut listener = running(0x50, 0x60);
    assert_eq!(listener.step(Event::Unload), Action::WriteExit { channel: 0x50, byte: 8 });
    assert_eq!(listener.state(), Lifecycle::Stopping);
    assert_eq!(
        listener.step(Event::ExitWritten { succeeded: true }),
        Action::JoinWorker { thread: 0x60, timeout_ms: 1000, note: None }
    );
    assert_eq!(JOIN_WAIT_MS, 1000);
    assert_eq!(
        listener.step(Event::WaitFinished { code: 0 }),
        Action::ReleaseWorker { thread: 0x60, failure: None }
    );
    assert_eq!(listener.state(), Lifecycle::Stopped);
    assert_eq!(listener.channel(), None);
    assert_eq!(listener.worker(), None);
}

#[test]
fn failed_exit_write_still_joins() {
    let mut listener = running(0x50, 0x60);
    listener.step(Event::Unload);
    assert_eq!(
        listener.step(Event::ExitWritten { succeeded: false }),
        Action::JoinWorker {
            thread: 0x60,
            timeout_ms: 1000,
            note: Some(ListenerError::ChannelWriteFailed)
        }
    );
    assert_eq!(listener.state(), Lifecycle::Stopping);
}

#[test]
fn join_timeout_gives_the_worker_up() {
    let mut listener = running(0x50, 0x60);
    listener.step(Event::Unload);
    listener.step(Event::ExitWritten { succeeded: true });
    let timed_out = windows_sys::Win32::Foundation::WAIT_TIMEOUT;
    assert_eq!(
        listener.step(Event::WaitFinished { code: timed_out }),
        Action::ReleaseWorker { thread: 0x60, failure: Some(ListenerError::JoinTimeout) }
    );
    assert_eq!(listener.state(), Lifecycle::Stopping);
    assert_eq!(listener.worker(), None);
    assert_eq!(listener.step(Event::WaitFinished { code: 0 }), Action::Nothing);
    assert_eq!(listener.step(Event::ExitWritten { succeeded: true }), Action::Nothing);
}

#[test]
fn stopped_listener_ignores_everything() {
    let mut listener = running(0x50, 0x60);
    listener.step(Event::Unload);
    listener.step(Event::ExitWritten { succeeded: true });
    listener.step(Event::WaitFinished { code: 0 });
    for event in [
        Event::Load { pid: 1 },
        Event::ChannelCreated { handle: 1, code: 0 },
        Event::WorkerSpawned { thread: 1 },
        Event::WorkerFailed,
        Event::Unload,
        Event::ExitWritten { succeeded: true },
        Event::WaitFinished { code: 0 },
    ] {
        assert_eq!(listener.step(event), Action::Nothing);
        assert_eq!(listener.state(), Lifecycle::Stopped);
    }
}

#[test]
fn running_listener_ignores_all_but_unload() {
    let mut listener = running(0x50, 0x60);
    for event in [
        Event::Load { pid: 1 },
        Event::ChannelCreated { handle: 1, code: 0 },
        Event::WorkerSpawned { thread: 1 },
        Event::WorkerFailed,
        Event::ExitWritten { succeeded: true },
        Event::WaitFinished { code: 0 },
    ] {
        assert_eq!(listener.step(event), Action::Nothing);
        assert_eq!(listener.state(), Lifecycle::Running);
        assert_eq!(listener.worker(), Some(0x60));
    }
}

#[test]
fn load_backup_exit_scenario() {
    let mut listener = Listener::new();
    assert_eq!(listener.step(Event::Load { pid: 0xabc }), Action::CreateChannel { pid: 0xabc });
    let channel = Channel::from_create(0x70, 0).unwrap();
    assert_eq!(
        listener.step(Event::ChannelCreated { handle: channel.handle(), code: 0 }),
        Action::SpawnWorker { channel: 0x70 }
    );
    let mut worker = Worker::new(channel);
    listener.step(Event::WorkerSpawned { thread: 0x71 });
    assert_eq!(listener.state(), Lifecycle::Running);

    assert_eq!(worker.dispatch(ReadOutcome::Byte(1)), Dispatch::Backup);
    let command = worker.backup(0x900, 1025);
    assert_eq!(command.window, 0x900);
    assert_eq!(command.mode, 0);
    assert_eq!(worker.store().recover(0x900), Ok(1025));

    let write = listener.step(Event::Unload);
    assert_eq!(write, Action::WriteExit { channel: 0x70, byte: 8 });
    assert_eq!(worker.dispatch(ReadOutcome::Byte(8)), Dispatch::Close(0x70));
    listener.step(Event::ExitWritten { succeeded: true });
    listener.step(Event::WaitFinished { code: 0 });
    assert_eq!(listener.state(), Lifecycle::Stopped);
    assert!(worker.is_finished());
    assert!(!worker.channel().is_open());
    assert_eq!(worker.channel().write_target(), Err(ListenerError::ChannelWriteFailed));
}

#[test]
fn reason_codes() {
    assert_eq!(host_reason(1), Some(HostReason::Load));
    assert_eq!(host_reason(0), Some(HostReason::Unload));
    assert_eq!(host_reason(2), Some(HostReason::ThreadAttach));
    assert_eq!(host_reason(3), Some(HostReason::ThreadDetach));
    assert_eq!(host_reason(4), None);
    assert_eq!(host_reason(u32::MAX), None);
}

#[test]
fn first_event_of_a_notification() {
    assert_eq!(first_event(true, 1, 77), Some(Event::Load { pid: 77 }));
    assert_eq!(first_event(true, 0, 77), Some(Event::Unload));
    assert_eq!(first_event(true, 2, 77), None);
    assert_eq!(first_event(true, 3, 77), None);
    assert_eq!(first_event(true, 9, 77), None);
    assert_eq!(first_event(false, 1, 77), None);
    assert_eq!(first_event(false, 0, 77), None);
}

#[test]
fn verdict_of_a_load() {
    assert_eq!(verdict(true, 1, Lifecycle::Running), 1);
    assert_eq!(verdict(true, 1, Lifecycle::FailedToStart), 0);
    assert_eq!(verdict(true, 1, Lifecycle::Starting), 0);
    assert_eq!(verdict(true, 1, Lifecycle::Uninitialized), 0);
    assert_eq!(verdict(false, 1, Lifecycle::Running), 0);
}

#[test]
fn verdict_of_the_other_notifications() {
    assert_eq!(verdict(true, 0, Lifecycle::Stopped), 1);
    assert_eq!(verdict(true, 0, Lifecycle::Uninitialized), 1);
    assert_eq!(verdict(true, 0, Lifecycle::Stopping), 1);
    assert_eq!(verdict(true, 2, Lifecycle::Running), 1);
    assert_eq!(verdict(true, 3, Lifecycle::Running), 1);
    assert_eq!(verdict(true, 7, Lifecycle::Running), 0);
    assert_eq!(verdict(false, 0, Lifecycle::Stopped), 0);
}

#[test]
fn platform_booleans() {
    assert!(succeeded(1));
    assert!(succeeded(-1));
    assert!(succeeded(2));
    assert!(!succeeded(0));
}

#[test]
fn remote_call_answers() {
    assert_eq!(call_result(1025, true), 1025);
    assert_eq!(call_result(1025, false), 3);
    assert_eq!(call_result(0, true), 0);
    assert_eq!(RELEASE_FAILED, 3);
}

#[test]
fn remote_restore_answers() {
    assert_eq!(recover_result(Ok(1025), true), 1025);
    assert_eq!(recover_result(Ok(1025), false), 3);
    assert_eq!(recover_result(Err(ListenerError::RecoverWithoutPriorBackup(5)), true), 2);
    assert_eq!(recover_result(Err(ListenerError::RecoverWithoutPriorBackup(5)), false), 2);
    assert_eq!(NOT_RESTORED, 2);
}

#[test]
fn spawn_event_of_a_thread_handle() {
    assert_eq!(spawn_event(0x60), Event::WorkerSpawned { thread: 0x60 });
    assert_eq!(spawn_event(-1), Event::WorkerSpawned { thread: -1 });
    assert_eq!(spawn_event(0), Event::WorkerFailed);
}

#[test]
fn exit_written_event_of_a_write() {
    assert_eq!(exit_written_event(Ok(())), Event::ExitWritten { succeeded: true });
    assert_eq!(
        exit_written_event(Err(ListenerError::ChannelWriteFailed)),
        Event::ExitWritten { succeeded: false }
    );
}

#[test]
fn repeated_notifications_start_and_stop_once() {
    let events = [
        Event::Unload,
        Event::Load { pid: 9 },
        Event::Load { pid: 9 },
        Event::ChannelCreated { handle: 0x50, code: 0 },
        Event::ChannelCreated { handle: 0x51, code: 0 },
        Event::Load { pid: 10 },
        Event::WorkerSpawned { thread: 0x60 },
        Event::WorkerSpawned { thread: 0x61 },
        Event::WorkerFailed,
        Event::Load { pid: 9 },
        Event::Unload,
        Event::Unload,
        Event::ExitWritten { succeeded: true },
        Event::WaitFinished { code: 0 },
        Event::Unload,
        Event::Load { pid: 9 },
        Event::ChannelCreated { handle: 0x52, code: 0 },
    ];
    let mut listener = Listener::new();
    let mut actions = Vec::new();
    for event in events {
        actions.push(listener.step(event));
    }
    let count = |wanted: fn(&Action) -> bool| actions.iter().filter(|action| wanted(action)).count();
    assert_eq!(count(|action| matches!(action, Action::CreateChannel { .. })), 1);
    assert_eq!(count(|action| matches!(action, Action::SpawnWorker { .. })), 1);
    assert_eq!(count(|action| matches!(action, Action::WriteExit { .. })), 1);
    assert_eq!(count(|action| matches!(action, Action::JoinWorker { .. })), 1);
    assert_eq!(count(|action| matches!(action, Action::ReleaseWorker { .. })), 1);
    assert_eq!(count(|action| matches!(action, Action::ReleaseChannel { .. })), 0);
    assert_eq!(listener.state(), Lifecycle::Stopped);
}
