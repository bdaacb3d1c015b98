use winptyrs::pty::base::STILL_ACTIVE;
use winptyrs::{Action, Event, Output, PTYProcess, Step};

fn wide(text: &str) -> Vec<u16> {
    text.encode_utf16().collect()
}

fn done<T>(value: T) -> Step<T> {
    Step::Finished(Ok(value))
}

fn error<T>(message: &str) -> Step<T> {
    Step::Finished(Err(String::from(message)))
}

/// A core on a pipe with a process bound under the given identifier.
fn bound(pid: u32, owning: bool) -> PTYProcess {
    let mut core = PTYProcess::new(10, 11, true);
    assert_eq!(core.set_process(12, owning), Step::Perform(Action::GetProcessId { process: 12 }));
    assert_eq!(core.resume(Event::ProcessId(pid)), done(Output::Unit));
    core
}

#[test]
fn a_new_core_knows_no_process() {
    let mut core = PTYProcess::new(10, 11, true);
    assert_eq!(core.pid(), 0);
    assert_eq!(core.process_handle(), 0);
    assert_eq!(core.get_exitstatus(), done(Output::ExitStatus(None)));
    assert_eq!(core.is_alive(), done(Output::Flag(false)));
}

#[test]
fn binding_a_process_asks_for_its_identifier() {
    let core = bound(4242, false);
    assert_eq!(core.pid(), 4242);
    assert_eq!(core.process_handle(), 12);
}

#[test]
fn blocking_read_goes_for_the_bytes_at_once() {
    let mut core = PTYProcess::new(10, 11, true);
    assert_eq!(core.read(1000, true), Step::Perform(Action::ReadFile { handle: 11, length: 1000 }));
    assert_eq!(core.resume(Event::Bytes(b"C:\\>".to_vec())), done(Output::Text(wide("C:\\>"))));
}

#[test]
fn read_of_zero_bytes_is_empty_and_issues_no_read() {
    let mut core = PTYProcess::new(10, 11, true);
    assert_eq!(core.read(0, true), done(Output::Text(Vec::new())));
    // without blocking the availability is still asked for, and then nothing is read
    assert_eq!(core.read(0, false), Step::Perform(Action::PeekNamedPipe { handle: 11 }));
    assert_eq!(core.resume(Event::Count(17)), done(Output::Text(Vec::new())));
}

#[test]
fn nonblocking_read_on_a_pipe_peeks_and_clamps() {
    let mut core = PTYProcess::new(10, 11, true);
    assert_eq!(core.read(1000, false), Step::Perform(Action::PeekNamedPipe { handle: 11 }));
    assert_eq!(
        core.resume(Event::Count(5)),
        Step::Perform(Action::ReadFile { handle: 11, length: 5 })
    );
    assert_eq!(core.resume(Event::Bytes(b"hello".to_vec())), done(Output::Text(wide("hello"))));

    assert_eq!(core.read(3, false), Step::Perform(Action::PeekNamedPipe { handle: 11 }));
    assert_eq!(
        core.resume(Event::Count(5)),
        Step::Perform(Action::ReadFile { handle: 11, length: 3 })
    );
    assert_eq!(core.resume(Event::Bytes(b"hel".to_vec())), done(Output::Text(wide("hel"))));

    assert_eq!(core.read(u32::MAX, false), Step::Perform(Action::PeekNamedPipe { handle: 11 }));
    assert_eq!(
        core.resume(Event::Count(u32::MAX)),
        Step::Perform(Action::ReadFile { handle: 11, length: u32::MAX })
    );
}

#[test]
fn nonblocking_read_with_nothing_there_returns_empty_at_once() {
    let mut core = bound(4242, false);
    assert_eq!(core.read(1000, false), Step::Perform(Action::PeekNamedPipe { handle: 11 }));
    assert_eq!(core.resume(Event::Count(0)), done(Output::Text(Vec::new())));
}

#[test]
fn nonblocking_read_on_a_file_asks_for_the_size() {
    let mut core = PTYProcess::new(10, 11, false);
    assert_eq!(core.read(1000, false), Step::Perform(Action::GetFileSize { handle: 11 }));
    assert_eq!(
        core.resume(Event::Size(7)),
        Step::Perform(Action::ReadFile { handle: 11, length: 7 })
    );
    assert_eq!(core.resume(Event::Bytes(b"prompt>".to_vec())), done(Output::Text(wide("prompt>"))));

    assert_eq!(core.read(1000, false), Step::Perform(Action::GetFileSize { handle: 11 }));
    assert_eq!(core.resume(Event::Size(0)), done(Output::Text(Vec::new())));

    assert_eq!(core.read(1000, false), Step::Perform(Action::GetFileSize { handle: 11 }));
    assert_eq!(core.resume(Event::Size(-1)), done(Output::Text(Vec::new())));

    assert_eq!(core.read(1000, false), Step::Perform(Action::GetFileSize { handle: 11 }));
    assert_eq!(
        core.resume(Event::Size(i64::MAX)),
        Step::Perform(Action::ReadFile { handle: 11, length: 1000 })
    );
}

#[test]
fn availability_of_the_wrong_kind_is_refused() {
    let mut core = PTYProcess::new(10, 11, true);
    core.read(1000, false);
    assert_eq!(
        core.resume(Event::Size(5)),
        error("the host answered with an event that the pending action does not take")
    );
    let mut core = PTYProcess::new(10, 11, false);
    core.read(1000, false);
    assert_eq!(
        core.resume(Event::Count(5)),
        error("the host answered with an event that the pending action does not take")
    );
}

#[test]
fn failures_of_the_system_surface_as_they_are() {
    let mut core = bound(4242, false);
    core.read(1000, false);
    assert_eq!(
        core.resume(Event::Failed(String::from("The pipe has been ended."))),
        error("The pipe has been ended.")
    );
    core.read(1000, true);
    assert_eq!(
        core.resume(Event::Failed(String::from("Access is denied."))),
        error("Access is denied.")
    );
    core.write(&wide("x"));
    assert_eq!(
        core.resume(Event::Failed(String::from("The pipe is being closed."))),
        error("The pipe is being closed.")
    );
    core.is_eof();
    assert_eq!(
        core.resume(Event::Failed(String::from("The handle is invalid."))),
        error("The handle is invalid.")
    );
    core.is_alive();
    assert_eq!(
        core.resume(Event::Failed(String::from("The handle is invalid."))),
        error("The handle is invalid.")
    );
    core.get_exitstatus();
    assert_eq!(
        core.resume(Event::Failed(String::from("The handle is invalid."))),
        error("The handle is invalid.")
    );
    // a failed query leaves the core believing what it believed
    assert_eq!(core.is_alive(), Step::Perform(Action::GetExitCodeProcess { process: 12 }));
}

#[test]
fn write_encodes_the_text_and_reports_what_was_written() {
    let mut core = PTYProcess::new(10, 11, true);
    assert_eq!(
        core.write(&wide("echo \"This is a test string 😁\"")),
        Step::Perform(Action::WriteFile {
            handle: 10,
            bytes: "echo \"This is a test string 😁\"".as_bytes().to_vec()
        })
    );
    // a partial write is reported as it is
    assert_eq!(core.resume(Event::Count(7)), done(Output::Count(7)));
    assert_eq!(
        core.write(&Vec::new()),
        Step::Perform(Action::WriteFile { handle: 10, bytes: Vec::new() })
    );
    assert_eq!(core.resume(Event::Count(0)), done(Output::Count(0)));
}

#[test]
fn what_is_written_is_what_is_read_back() {
    let text = wide("Größe: 90×30 😁 𝄞\r\n");
    let mut core = PTYProcess::new(10, 11, true);
    let bytes = match core.write(&text) {
        Step::Perform(Action::WriteFile { bytes, .. }) => bytes,
        other => panic!("{:?}", other),
    };
    core.resume(Event::Count(bytes.len() as u32));
    core.read(1000, true);
    assert_eq!(core.resume(Event::Bytes(bytes)), done(Output::Text(text)));
}

#[test]
fn liveness_follows_the_exit_code() {
    let mut core = bound(4242, false);
    assert_eq!(core.is_alive(), Step::Perform(Action::GetExitCodeProcess { process: 12 }));
    assert_eq!(core.resume(Event::ExitCode(STILL_ACTIVE)), done(Output::Flag(true)));
    assert_eq!(core.is_alive(), Step::Perform(Action::GetExitCodeProcess { process: 12 }));
    assert_eq!(core.resume(Event::ExitCode(3)), done(Output::Flag(false)));
}

#[test]
fn exit_code_is_cached_and_never_asked_for_again() {
    let mut core = bound(4242, false);
    core.is_alive();
    assert_eq!(core.resume(Event::ExitCode(0)), done(Output::Flag(false)));
    for _ in 0..3 {
        assert_eq!(core.is_alive(), done(Output::Flag(false)));
        assert_eq!(core.get_exitstatus(), done(Output::ExitStatus(Some(0))));
    }
    // the peek of an end-of-file query is the only thing still asked for
    assert_eq!(core.is_eof(), Step::Perform(Action::PeekNamedPipe { handle: 11 }));
    assert_eq!(core.resume(Event::Count(0)), done(Output::Flag(false)));
}

#[test]
fn exit_status_is_nothing_while_the_process_runs() {
    let mut core = bound(4242, false);
    assert_eq!(core.get_exitstatus(), Step::Perform(Action::GetExitCodeProcess { process: 12 }));
    assert_eq!(core.resume(Event::ExitCode(STILL_ACTIVE)), done(Output::ExitStatus(None)));
    assert_eq!(core.get_exitstatus(), Step::Perform(Action::GetExitCodeProcess { process: 12 }));
    assert_eq!(
        core.resume(Event::ExitCode(0xC000013A)),
        done(Output::ExitStatus(Some(0xC000013A)))
    );
    assert_eq!(core.get_exitstatus(), done(Output::ExitStatus(Some(0xC000013A))));
}

#[test]
fn end_of_file_is_true_unless_empty_and_exited() {
    // running, nothing waits
    let mut core = bound(4242, false);
    assert_eq!(core.is_eof(), Step::Perform(Action::PeekNamedPipe { handle: 11 }));
    assert_eq!(
        core.resume(Event::Count(0)),
        Step::Perform(Action::GetExitCodeProcess { process: 12 })
    );
    assert_eq!(core.resume(Event::ExitCode(STILL_ACTIVE)), done(Output::Flag(true)));
    // running, bytes wait
    core.is_eof();
    core.resume(Event::Count(9));
    assert_eq!(core.resume(Event::ExitCode(STILL_ACTIVE)), done(Output::Flag(true)));
    // exited, bytes wait
    core.is_eof();
    core.resume(Event::Count(9));
    assert_eq!(core.resume(Event::ExitCode(1)), done(Output::Flag(true)));
    // exited, nothing waits
    core.is_eof();
    assert_eq!(core.resume(Event::Count(0)), done(Output::Flag(false)));
    assert_eq!(core.get_exitstatus(), done(Output::ExitStatus(Some(1))));
}

#[test]
fn end_of_file_before_a_process_is_bound() {
    let mut core = PTYProcess::new(10, 11, true);
    assert_eq!(core.is_eof(), Step::Perform(Action::PeekNamedPipe { handle: 11 }));
    assert_eq!(core.resume(Event::Count(0)), done(Output::Flag(false)));
    core.is_eof();
    assert_eq!(core.resume(Event::Count(1)), done(Output::Flag(true)));
}

#[test]
fn end_of_file_on_a_file_goes_by_its_size() {
    let mut core = PTYProcess::new(10, 11, false);
    assert_eq!(core.is_eof(), Step::Perform(Action::GetFileSize { handle: 11 }));
    assert_eq!(core.resume(Event::Size(0)), done(Output::Flag(false)));
    core.is_eof();
    assert_eq!(core.resume(Event::Size(1)), done(Output::Flag(true)));
    core.is_eof();
    assert_eq!(core.resume(Event::Size(-1)), done(Output::Flag(false)));
    core.is_eof();
    assert_eq!(
        core.resume(Event::Count(1)),
        error("the host answered with an event that the pending action does not take")
    );
    let mut core = PTYProcess::new(10, 11, true);
    core.is_eof();
    assert_eq!(
        core.resume(Event::Size(1)),
        error("the host answered with an event that the pending action does not take")
    );
}

#[test]
fn a_borrowing_core_closes_no_process_unless_told_so() {
    let mut core = PTYProcess::borrowing(10, 11, true);
    core.set_process(12, false);
    core.resume(Event::ProcessId(7));
    assert_eq!(
        core.teardown(),
        vec![Action::CloseHandle { handle: 10 }, Action::CloseHandle { handle: 11 }]
    );
    let mut core = PTYProcess::borrowing(10, 11, true);
    core.set_process(12, true);
    core.resume(Event::ProcessId(7));
    assert_eq!(core.teardown().len(), 3);
}

#[test]
fn a_process_without_identifier_counts_as_not_started() {
    let mut core = bound(0, true);
    assert_eq!(core.pid(), 0);
    assert_eq!(core.is_alive(), done(Output::Flag(false)));
    assert_eq!(core.get_exitstatus(), done(Output::ExitStatus(None)));
}

#[test]
fn an_event_without_a_pending_action_is_refused() {
    let mut core = PTYProcess::new(10, 11, true);
    assert_eq!(core.resume(Event::Done), error("the host answered though no action is pending"));
    core.read(10, true);
    core.resume(Event::Bytes(Vec::new()));
    assert_eq!(
        core.resume(Event::Bytes(Vec::new())),
        error("the host answered though no action is pending")
    );
}

#[test]
fn an_event_of_the_wrong_kind_is_refused() {
    let mut core = bound(4242, false);
    core.read(10, true);
    assert_eq!(
        core.resume(Event::Count(3)),
        error("the host answered with an event that the pending action does not take")
    );
    core.write(&wide("x"));
    assert_eq!(
        core.resume(Event::Bytes(vec![1])),
        error("the host answered with an event that the pending action does not take")
    );
    core.is_alive();
    assert_eq!(
        core.resume(Event::Done),
        error("the host answered with an event that the pending action does not take")
    );
}

#[test]
fn teardown_closes_streams_and_an_owned_process() {
    assert_eq!(
        bound(4242, true).teardown(),
        vec![
            Action::CloseHandle { handle: 10 },
            Action::CloseHandle { handle: 11 },
            Action::CloseHandle { handle: 12 }
        ]
    );
    assert_eq!(
        bound(4242, false).teardown(),
        vec![Action::CloseHandle { handle: 10 }, Action::CloseHandle { handle: 11 }]
    );
}

#[test]
fn teardown_leaves_out_handles_that_stand_for_nothing() {
    assert_eq!(PTYProcess::new(0, -1, true).teardown(), Vec::<Action>::new());
    assert_eq!(PTYProcess::new(10, -1, true).teardown(), vec![Action::CloseHandle { handle: 10 }]);
    assert_eq!(PTYProcess::new(0, 11, false).teardown(), vec![Action::CloseHandle { handle: 11 }]);
    // no process was bound: there is none to close
    assert_eq!(
        PTYProcess::new(10, 11, true).teardown(),
        vec![Action::CloseHandle { handle: 10 }, Action::CloseHandle { handle: 11 }]
    );
}

#[test]
fn still_active_is_the_pending_status() {
    assert_eq!(STILL_ACTIVE, 259);
    assert!(winptyrs::pty::protocol::is_invalid(0));
    assert!(winptyrs::pty::protocol::is_invalid(-1));
    assert!(!winptyrs::pty::protocol::is_invalid(1));
    assert!(!winptyrs::pty::protocol::is_invalid(-2));
}

#[test]
fn an_operation_is_refused_while_another_is_under_way() {
    let busy = "another operation is under way and has to end first";
    let mut core = bound(4242, false);
    assert!(core.is_idle());
    assert_eq!(core.read(1000, false), Step::Perform(Action::PeekNamedPipe { handle: 11 }));
    assert!(!core.is_idle());
    assert_eq!(core.read(10, true), error(busy));
    assert_eq!(core.write(&wide("x")), error(busy));
    assert_eq!(core.is_eof(), error(busy));
    assert_eq!(core.is_alive(), error(busy));
    assert_eq!(core.get_exitstatus(), error(busy));
    // the read that was under way goes on as if nothing had happened
    assert_eq!(
        core.resume(Event::Count(2)),
        Step::Perform(Action::ReadFile { handle: 11, length: 2 })
    );
    assert_eq!(core.resume(Event::Bytes(b"ok".to_vec())), done(Output::Text(wide("ok"))));
    assert!(core.is_idle());
    assert_eq!(core.is_alive(), Step::Perform(Action::GetExitCodeProcess { process: 12 }));
}
