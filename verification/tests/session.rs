use std::collections::VecDeque;

use winptyrs::pty::base::STILL_ACTIVE;
use winptyrs::pty::protocol::{Access, StdStream};
use winptyrs::pty::resources::Resource;
use winptyrs::pty::winpty::bindings::{
    winpty_config_s, winpty_error_s, winpty_s, winpty_spawn_config_s,
};
use winptyrs::{
    Action, AgentConfig, ConPTY, Event, Features, MouseMode, Output, PTYArgs, PTYBackend, PTYImpl,
    PTYSetup, Step, WinPTY, PTY,
};

const BOTH: Features = Features { conpty: true, winpty: true };
const ONLY_CONPTY: Features = Features { conpty: true, winpty: false };
const ONLY_WINPTY: Features = Features { conpty: false, winpty: true };
const NEITHER: Features = Features { conpty: false, winpty: false };

fn wide(text: &str) -> Vec<u16> {
    text.encode_utf16().collect()
}

fn text_of(units: &[u16]) -> String {
    String::from_utf16(units).unwrap()
}

fn args(cols: i32, rows: i32) -> PTYArgs {
    PTYArgs {
        cols,
        rows,
        mouse_mode: MouseMode::WINPTY_MOUSE_MODE_NONE,
        timeout: 10000,
        agent_config: AgentConfig::from_bits(4).unwrap(),
    }
}

/// A system that plays the part of Windows and of the agent library: it hands
/// out handles, and it runs a small shell behind the terminal. The shell
/// echoes what is typed; at the end of a line it prints the text of an `echo`
/// command, prints the size of its window when it is asked for it, and exits
/// on `exit`.
struct System {
    next: isize,
    log: Vec<Action>,
    output: VecDeque<u8>,
    line: Vec<u8>,
    exit_code: u32,
    size: (i32, i32),
    /// What the system has handed out and not got back yet.
    live: Vec<Resource>,
    /// The position in the log of the one action that fails, if any.
    fails_at: Option<usize>,
    /// Whether that failure is one of the agent library.
    agent_failure: bool,
}

impl System {
    fn new() -> System {
        System {
            next: 100,
            log: Vec::new(),
            output: VecDeque::new(),
            line: Vec::new(),
            exit_code: STILL_ACTIVE,
            live: Vec::new(),
            size: (0, 0),
            fails_at: None,
            agent_failure: false,
        }
    }

    fn failing_at(position: usize) -> System {
        let mut system = System::new();
        system.fails_at = Some(position);
        system
    }

    fn fresh(&mut self) -> isize {
        self.next += 4;
        self.live.push(Resource::Handle(self.next));
        self.next
    }

    /// Takes a resource back. It must be one that is out, and it is out no
    /// longer: nothing comes back twice.
    fn take_back(&mut self, resource: Resource) {
        let position = self.live.iter().position(|held| *held == resource);
        match position {
            Some(position) => {
                self.live.remove(position);
            }
            None => panic!("{:?} was given back though it is not out", resource),
        }
    }

    /// Books what an action gives back and what an event hands out.
    fn book(&mut self, action: &Action, event: &Event) {
        match action {
            Action::CloseHandle { handle } => self.take_back(Resource::Handle(*handle)),
            Action::ClosePseudoConsole { console } => {
                self.take_back(Resource::Handle(*console))
            }
            Action::DeleteAttributeList { list } => self.take_back(Resource::Handle(*list)),
            Action::ConfigFree { config } => self.take_back(Resource::Config(*config)),
            Action::SpawnConfigFree { spawn_config } => {
                self.take_back(Resource::SpawnConfig(*spawn_config))
            }
            Action::Free { agent } => self.take_back(Resource::Agent(*agent)),
            Action::ErrorFree { error } => self.take_back(Resource::Error(*error)),
            // a stream that has become a standard stream belongs to the host process
            Action::SetStdHandle { stream: StdStream::Output, handle } if *event == Event::Done => {
                self.take_back(Resource::Handle(*handle))
            }
            Action::SetStdHandle { stream: StdStream::Input, handle } if *event == Event::Done => {
                self.take_back(Resource::Handle(*handle))
            }
            _ => {}
        }
        match event {
            Event::Config(config) => self.live.push(Resource::Config(*config)),
            Event::SpawnConfig(config) => self.live.push(Resource::SpawnConfig(*config)),
            Event::Agent(agent) => self.live.push(Resource::Agent(*agent)),
            Event::AgentFailed(error) => self.live.push(Resource::Error(*error)),
            _ => {}
        }
    }

    fn shell(&mut self, bytes: &[u8]) {
        for byte in bytes {
            self.output.push_back(*byte);
            self.line.push(*byte);
            if self.line.ends_with(b"\r\n") {
                let line = String::from_utf8(self.line.clone()).unwrap();
                let command = line.trim_end();
                if command == "exit" {
                    self.exit_code = 0;
                } else if let Some(text) = command.strip_prefix("echo ") {
                    self.output.extend(text.trim_matches('"').as_bytes());
                    self.output.extend(b"\r\n");
                } else if command.contains("rawui.WindowSize") {
                    let report = format!(
                        "\r\nWidth Height\r\n----- ------\r\n   {}     {}\r\n",
                        self.size.0, self.size.1
                    );
                    self.output.extend(report.as_bytes());
                } else if command == "cls" {
                    self.output.clear();
                }
                self.line.clear();
            }
        }
    }

    fn perform(&mut self, action: Action) -> Event {
        let event = self.answer(action.clone());
        self.book(&action, &event);
        event
    }

    fn answer(&mut self, action: Action) -> Event {
        let position = self.log.len();
        self.log.push(action.clone());
        if self.fails_at == Some(position) {
            // only a call of the agent library can leave an error object
            let of_agent = matches!(
                action,
                Action::ConfigNew { .. }
                    | Action::Open { .. }
                    | Action::SpawnConfigNew { .. }
                    | Action::Spawn { .. }
                    | Action::SetSize { .. }
            );
            return if self.agent_failure && of_agent {
                Event::AgentFailed(winpty_error_s { address: 0xE000 })
            } else {
                Event::Failed(format!("The system cannot perform action {}.", position))
            };
        }
        match action {
            Action::PeekNamedPipe { .. } => Event::Count(self.output.len() as u32),
            Action::GetFileSize { .. } => Event::Size(self.output.len() as i64),
            Action::ReadFile { length, .. } => {
                let n = (length as usize).min(self.output.len());
                Event::Bytes(self.output.drain(..n).collect())
            }
            Action::WriteFile { bytes, .. } => {
                self.shell(&bytes);
                Event::Count(bytes.len() as u32)
            }
            Action::GetExitCodeProcess { .. } => Event::ExitCode(self.exit_code),
            Action::GetProcessId { .. } => Event::ProcessId(4242),
            Action::OpenConsoleOutput | Action::OpenConsoleInput => Event::Handle(self.fresh()),
            Action::GetConsoleMode { .. } => Event::ConsoleMode(3),
            Action::CreatePipe => {
                let read = self.fresh();
                let write = self.fresh();
                Event::Pipe { read, write }
            }
            Action::CreatePseudoConsole { cols, rows, .. } => {
                self.size = (cols, rows);
                Event::Handle(self.fresh())
            }
            Action::ResizePseudoConsole { cols, rows, .. } | Action::SetSize { cols, rows, .. } => {
                self.size = (cols, rows);
                Event::Done
            }
            Action::ConfigSetInitialSize { cols, rows, .. } => {
                self.size = (cols, rows);
                Event::Done
            }
            Action::InitializeAttributeList => Event::Handle(self.fresh()),
            Action::CreateProcess { .. } => {
                self.output.extend(b"Microsoft Windows [Version 10.0]\r\n");
                let process = self.fresh();
                let thread = self.fresh();
                Event::Process { process, thread }
            }
            Action::ConfigNew { .. } => Event::Config(winpty_config_s { address: 0xC000 }),
            Action::Open { .. } => Event::Agent(winpty_s { address: 0xA000 }),
            Action::ConinName { .. } => Event::Name(wide("\\\\.\\pipe\\winpty-conin")),
            Action::ConoutName { .. } => Event::Name(wide("\\\\.\\pipe\\winpty-conout")),
            Action::OpenPipe { .. } => Event::Handle(self.fresh()),
            Action::SpawnConfigNew { .. } => {
                Event::SpawnConfig(winpty_spawn_config_s { address: 0x5000 })
            }
            Action::Spawn { .. } => Event::Handle(self.fresh()),
            Action::ErrorMessage { .. } => Event::Message(String::from("the agent said no")),
            _ => Event::Done,
        }
    }

    fn build(
        &mut self,
        args: PTYArgs,
        backend: PTYBackend,
        features: Features,
    ) -> Result<PTY, String> {
        self.construct(PTY::new_with_backend(&args, backend, features))
    }

    fn construct(&mut self, started: (PTYSetup, Step<PTY>)) -> Result<PTY, String> {
        let (mut setup, mut step) = started;
        loop {
            match step {
                Step::Perform(action) => step = setup.resume(self.perform(action)),
                Step::Finished(result) => return result,
            }
        }
    }

    fn run(&mut self, pty: &mut PTY, first: Step<Output>) -> Result<Output, String> {
        let mut step = first;
        loop {
            match step {
                Step::Perform(action) => step = pty.resume(self.perform(action)),
                Step::Finished(result) => return result,
            }
        }
    }

    fn spawn(&mut self, pty: &mut PTY, appname: &str) -> Result<Output, String> {
        let first = pty.spawn(wide(appname), None, None, None);
        self.run(pty, first)
    }

    fn read(&mut self, pty: &mut PTY, length: u32, blocking: bool) -> String {
        let first = pty.read(length, blocking);
        match self.run(pty, first) {
            Ok(Output::Text(units)) => text_of(&units),
            other => panic!("{:?}", other),
        }
    }

    fn write(&mut self, pty: &mut PTY, text: &str) -> u32 {
        let first = pty.write(wide(text));
        match self.run(pty, first) {
            Ok(Output::Count(count)) => count,
            other => panic!("{:?}", other),
        }
    }

    fn is_alive(&mut self, pty: &mut PTY) -> bool {
        let first = pty.is_alive();
        match self.run(pty, first) {
            Ok(Output::Flag(flag)) => flag,
            other => panic!("{:?}", other),
        }
    }

    fn is_eof(&mut self, pty: &mut PTY) -> bool {
        let first = pty.is_eof();
        match self.run(pty, first) {
            Ok(Output::Flag(flag)) => flag,
            other => panic!("{:?}", other),
        }
    }

    fn get_exitstatus(&mut self, pty: &mut PTY) -> Option<u32> {
        let first = pty.get_exitstatus();
        match self.run(pty, first) {
            Ok(Output::ExitStatus(status)) => status,
            other => panic!("{:?}", other),
        }
    }

    fn set_size(&mut self, pty: &mut PTY, cols: i32, rows: i32) -> Result<Output, String> {
        let first = pty.set_size(cols, rows);
        self.run(pty, first)
    }

    fn asked_the_agent(&self) -> bool {
        self.log.iter().any(|action| {
            matches!(
                action,
                Action::ConfigNew { .. }
                    | Action::ConfigSetInitialSize { .. }
                    | Action::ConfigSetMouseMode { .. }
                    | Action::ConfigSetAgentTimeout { .. }
                    | Action::ConfigFree { .. }
                    | Action::Open { .. }
                    | Action::ConinName { .. }
                    | Action::ConoutName { .. }
                    | Action::OpenPipe { .. }
                    | Action::SpawnConfigNew { .. }
                    | Action::Spawn { .. }
                    | Action::SpawnConfigFree { .. }
                    | Action::SetSize { .. }
                    | Action::Free { .. }
                    | Action::ErrorMessage { .. }
                    | Action::ErrorFree { .. }
            )
        })
    }

    fn exit_code_queries(&self) -> usize {
        self.log.iter().filter(|action| matches!(action, Action::GetExitCodeProcess { .. })).count()
    }
}

fn conpty() -> (System, PTY) {
    let mut system = System::new();
    let pty = system.build(args(80, 25), PTYBackend::ConPTY, BOTH).unwrap();
    (system, pty)
}

fn winpty() -> (System, PTY) {
    let mut system = System::new();
    let pty = system.build(args(80, 25), PTYBackend::WinPTY, BOTH).unwrap();
    (system, pty)
}

#[test]
fn spawn_conpty() {
    let pty_args = PTYArgs {
        cols: 80,
        rows: 25,
        mouse_mode: MouseMode::WINPTY_MOUSE_MODE_NONE,
        timeout: 10000,
        agent_config: AgentConfig::from_bits(4).unwrap(),
    };
    let mut system = System::new();
    let started = PTY::new_with_backend(&pty_args, PTYBackend::ConPTY, BOTH);
    let mut pty = system.construct(started).unwrap();
    assert_eq!(system.spawn(&mut pty, "C:\\Windows\\System32\\cmd.exe"), Ok(Output::Flag(true)));
    assert_eq!(pty.get_backend(), PTYBackend::ConPTY);
    assert_eq!(pty.get_pid(), Some(4242));
}

#[test]
fn read_write_conpty() {
    let pty_args = PTYArgs {
        cols: 80,
        rows: 25,
        mouse_mode: MouseMode::WINPTY_MOUSE_MODE_NONE,
        timeout: 10000,
        agent_config: AgentConfig::from_bits(4).unwrap(),
    };

    let mut system = System::new();
    let started = PTY::new_with_backend(&pty_args, PTYBackend::ConPTY, BOTH);
    let mut pty = system.construct(started).unwrap();
    system.spawn(&mut pty, "C:\\Windows\\System32\\cmd.exe").unwrap();

    let mut output_str = String::new();
    while !output_str.contains("Microsoft Windows") {
        output_str = system.read(&mut pty, 1000, false);
        println!("{:?}", output_str);
    }
    assert!(output_str.contains("Microsoft Windows"));

    system.write(&mut pty, "echo \"This is a test string 😁\"");
    output_str = String::new();
    while !output_str.contains("echo \"This is a test stri") {
        output_str = system.read(&mut pty, 1000, false);
        println!("{:?}", output_str);
    }
    assert!(output_str.contains("echo \"This is a test stri"));
    assert_eq!(output_str, "echo \"This is a test string 😁\"");

    system.write(&mut pty, "\r\n");
    output_str = String::new();
    while !output_str.contains("This is a test") {
        output_str = system.read(&mut pty, 1000, false);
        println!("{:?}", output_str);
    }
    println!("!!!!!!!!!!!!!!!!!");
    assert!(output_str.contains("This is a test"));
    assert_eq!(output_str, "\r\nThis is a test string 😁\r\n");
    assert_eq!(system.read(&mut pty, 1000, false), "");
}

/// The size that the shell reports in what it has printed: the two numbers
/// of the line below the heading.
fn reported_size(output: &str) -> (i32, i32) {
    let mut cols: i32 = -1;
    let mut rows: i32 = -1;
    for part in output.split("\r\n") {
        let numbers: Vec<i32> =
            part.split_whitespace().filter_map(|word| word.parse().ok()).collect();
        if numbers.len() == 2 {
            cols = numbers[0];
            rows = numbers[1];
        }
    }
    (cols, rows)
}

#[test]
fn set_size_conpty() {
    let pty_args = args(80, 25);
    let mut system = System::new();
    let started = PTY::new_with_backend(&pty_args, PTYBackend::ConPTY, BOTH);
    let mut pty = system.construct(started).unwrap();
    system.spawn(&mut pty, "C:\\Windows\\System32\\cmd.exe").unwrap();

    system.write(&mut pty, "powershell -command \"&{(get-host).ui.rawui.WindowSize;}\"\r\n");
    let mut output_str = String::new();
    while !output_str.contains("Width") {
        output_str = system.read(&mut pty, 1000, false);
    }
    let (cols, rows) = reported_size(&output_str);
    assert_eq!(rows, pty_args.rows);
    assert_eq!(cols, pty_args.cols);

    assert_eq!(system.set_size(&mut pty, 90, 30), Ok(Output::Unit));
    assert!(matches!(
        system.log.last(),
        Some(Action::ResizePseudoConsole { cols: 90, rows: 30, .. })
    ));
    system.write(&mut pty, "cls\r\n");

    system.write(&mut pty, "powershell -command \"&{(get-host).ui.rawui.WindowSize;}\"\r\n");
    let mut output_str = String::new();
    while !output_str.contains("Width") {
        output_str = system.read(&mut pty, 1000, false);
    }
    let (cols, rows) = reported_size(&output_str);
    assert_eq!(cols, 90);
    assert_eq!(rows, 30);
}

#[test]
fn is_alive_exitstatus_conpty() {
    let (mut system, mut pty) = conpty();
    system.spawn(&mut pty, "C:\\Windows\\System32\\cmd.exe").unwrap();

    system.write(&mut pty, "echo wait\r\n");
    assert!(system.is_alive(&mut pty));
    assert_eq!(system.get_exitstatus(&mut pty), None);

    system.write(&mut pty, "exit\r\n");
    while system.is_alive(&mut pty) {}
    assert!(!system.is_alive(&mut pty));
    assert_eq!(system.get_exitstatus(&mut pty), Some(0));
}

#[test]
fn winpty_it_works() {
    let pty_args = PTYArgs {
        cols: 80,
        rows: 25,
        mouse_mode: MouseMode::WINPTY_MOUSE_MODE_NONE,
        timeout: 10000,
        agent_config: AgentConfig::from_bits(4).unwrap(),
    };
    let mut system = System::new();
    match system.construct(PTY::new_with_backend(&pty_args, PTYBackend::WinPTY, BOTH)) {
        Ok(mut pty) => match system.spawn(&mut pty, "C:\\Windows\\System32\\cmd.exe") {
            Ok(_) => (),
            Err(err) => panic!("{:?}", err),
        },
        Err(err) => panic!("{:?}", err),
    }
    let result = 2 + 2;
    assert_eq!(result, 4);
}

#[test]
fn lib_it_works() {
    let pty_args = args(80, 25);
    let mut system = System::new();
    match system.construct(PTY::new_with_backend(&pty_args, PTYBackend::WinPTY, ONLY_WINPTY)) {
        Ok(mut pty) => match system.spawn(&mut pty, "C:\\Windows\\System32\\cmd.exe") {
            Ok(spawned) => assert_eq!(spawned, Output::Flag(true)),
            Err(err) => panic!("{:?}", err),
        },
        Err(err) => panic!("{:?}", err),
    }
    let result = 2 + 2;
    assert_eq!(result, 4);
}

#[test]
fn construction_fails_with_both_messages_when_no_backend_is_available() {
    let mut system = System::new();
    let error = system.construct(PTY::new(&args(80, 25), NEITHER)).unwrap_err();
    assert!(error.contains("pty_rs was compiled without ConPTY enabled"));
    assert!(error.contains("winpty_rs was compiled without WinPTY enabled"));
    assert_eq!(
        error,
        "There were some errors trying to instantiate a PTY: (ConPTY) -> pty_rs was compiled without ConPTY enabled; (WinPTY) -> winpty_rs was compiled without WinPTY enabled;"
    );
    assert!(system.log.is_empty());
    let same = system.build(args(80, 25), PTYBackend::Auto, NEITHER);
    assert_eq!(same.unwrap_err(), error);
}

#[test]
fn a_backend_that_is_not_available_fails_alone_with_its_own_message() {
    let mut system = System::new();
    assert_eq!(
        system.build(args(80, 25), PTYBackend::ConPTY, ONLY_WINPTY).unwrap_err(),
        "pty_rs was compiled without ConPTY enabled"
    );
    assert_eq!(
        system.build(args(80, 25), PTYBackend::WinPTY, ONLY_CONPTY).unwrap_err(),
        "winpty_rs was compiled without WinPTY enabled"
    );
    assert!(system.log.is_empty());
}

#[test]
fn no_backend_is_not_a_valid_option() {
    let mut system = System::new();
    assert_eq!(
        system.build(args(80, 25), PTYBackend::NoBackend, BOTH).unwrap_err(),
        "NoBackend is not a valid option"
    );
    assert!(system.log.is_empty());
}

#[test]
fn construction_with_a_bad_size_fails_before_anything_is_asked_for() {
    for (cols, rows) in [(0, 25), (80, 0), (-1, 25), (80, -25), (0, 0), (i32::MIN, i32::MIN)] {
        for backend in [PTYBackend::ConPTY, PTYBackend::WinPTY, PTYBackend::Auto] {
            for features in [BOTH, ONLY_CONPTY, ONLY_WINPTY, NEITHER] {
                let mut system = System::new();
                let result = system.build(args(cols, rows), backend, features);
                assert!(result.is_err());
                assert!(system.log.is_empty());
            }
        }
    }
    let mut system = System::new();
    assert_eq!(
        system.build(args(0, 25), PTYBackend::ConPTY, BOTH).unwrap_err(),
        "PTY cols and rows must be positive and non-zero. Got: (0, 25)"
    );
    assert_eq!(
        system.build(args(80, -3), PTYBackend::WinPTY, BOTH).unwrap_err(),
        "PTY cols and rows must be positive and non-zero. Got: (80, -3)"
    );
    assert_eq!(
        system.construct(PTY::new(&args(0, 0), BOTH)).unwrap_err(),
        "There were some errors trying to instantiate a PTY: (ConPTY) -> PTY cols and rows must be positive and non-zero. Got: (0, 0); (WinPTY) -> PTY cols and rows must be positive and non-zero. Got: (0, 0);"
    );
}

#[test]
fn resize_with_a_bad_size_fails_before_anything_is_asked_for() {
    for (mut system, mut pty) in [conpty(), winpty()] {
        let before = system.log.len();
        for (cols, rows) in [(0, 30), (90, 0), (-90, 30), (90, -30)] {
            assert_eq!(
                system.set_size(&mut pty, cols, rows),
                Err(format!(
                    "PTY cols and rows must be positive and non-zero. Got: ({}, {})",
                    cols, rows
                ))
            );
        }
        assert_eq!(system.log.len(), before);
        assert_eq!(system.size, (80, 25));
    }
}

#[test]
fn automatic_choice_takes_the_native_backend_and_never_asks_the_agent() {
    let mut system = System::new();
    let pty = system.construct(PTY::new(&args(80, 25), BOTH)).unwrap();
    assert_eq!(pty.get_backend(), PTYBackend::ConPTY);
    assert_eq!(system.log[0], Action::AllocConsole);
    assert!(!system.asked_the_agent());
}

#[test]
fn automatic_choice_falls_back_to_the_agent_when_the_native_backend_fails() {
    // the console's output stream cannot be opened
    let mut system = System::failing_at(1);
    let pty = system.construct(PTY::new(&args(80, 25), BOTH)).unwrap();
    assert_eq!(pty.get_backend(), PTYBackend::WinPTY);
    assert_eq!(system.log[0], Action::AllocConsole);
    assert_eq!(system.log[1], Action::OpenConsoleOutput);
    assert_eq!(system.log[2], Action::ConfigNew { flags: 4 });

    let mut system = System::new();
    let pty = system.construct(PTY::new(&args(80, 25), ONLY_WINPTY)).unwrap();
    assert_eq!(pty.get_backend(), PTYBackend::WinPTY);
    assert_eq!(system.log[0], Action::ConfigNew { flags: 4 });
}

#[test]
fn automatic_choice_lists_both_failures_when_both_backends_fail() {
    // the native backend fails on its first stream and the agent cannot be configured
    let mut system = System::failing_at(1);
    let (mut setup, mut step) = PTY::new(&args(80, 25), BOTH);
    let mut failed_agent = false;
    let error = loop {
        match step {
            Step::Perform(action) => {
                let event = match action {
                    Action::ConfigNew { .. } if !failed_agent => {
                        failed_agent = true;
                        system.log.push(action);
                        Event::Failed(String::from("The agent library is missing."))
                    }
                    action => system.perform(action),
                };
                step = setup.resume(event);
            }
            Step::Finished(result) => break result.unwrap_err(),
        }
    };
    assert_eq!(
        error,
        "There were some errors trying to instantiate a PTY: (ConPTY) -> The system cannot perform action 1.; (WinPTY) -> The agent library is missing.;"
    );
}

#[test]
fn explicit_backend_does_not_fall_back() {
    let mut system = System::failing_at(1);
    let error = system.build(args(80, 25), PTYBackend::ConPTY, BOTH).unwrap_err();
    assert_eq!(error, "The system cannot perform action 1.");
    assert!(!system.asked_the_agent());
}

#[test]
fn native_construction_goes_through_its_steps_in_order() {
    let mut system = System::new();
    system.build(args(80, 25), PTYBackend::ConPTY, BOTH).unwrap();
    assert_eq!(
        system.log,
        vec![
            Action::AllocConsole,
            Action::OpenConsoleOutput,
            Action::OpenConsoleInput,
            Action::GetConsoleMode { handle: 104 },
            Action::SetConsoleMode { handle: 104, mode: 7 },
            Action::SetStdHandle { stream: StdStream::Output, handle: 104 },
            Action::SetStdHandle { stream: StdStream::Error, handle: 104 },
            Action::SetStdHandle { stream: StdStream::Input, handle: 108 },
            Action::CreatePipe,
            Action::CreatePipe,
            Action::CreatePseudoConsole { cols: 80, rows: 25, input: 112, output: 124 },
            Action::CloseHandle { handle: 112 },
            Action::CloseHandle { handle: 124 },
        ]
    );
}

#[test]
fn native_construction_gives_back_what_it_holds_when_a_step_fails() {
    let releases = |position: usize| -> Vec<Action> {
        let mut system = System::failing_at(position);
        let error = system.build(args(80, 25), PTYBackend::ConPTY, BOTH).unwrap_err();
        assert_eq!(error, format!("The system cannot perform action {}.", position));
        system.log[position + 1..].to_vec()
    };
    let close = |handle: isize| Action::CloseHandle { handle };
    // the output stream cannot be opened: nothing is held
    assert_eq!(releases(1), vec![]);
    // the input stream cannot be opened: the output stream is held
    assert_eq!(releases(2), vec![close(104)]);
    // the mode cannot be read or set, or the first stream cannot be bound: both streams are held
    assert_eq!(releases(3), vec![close(108), close(104)]);
    assert_eq!(releases(4), vec![close(108), close(104)]);
    assert_eq!(releases(5), vec![close(108), close(104)]);
    // once the output stream is the standard output it belongs to the process
    assert_eq!(releases(6), vec![close(108)]);
    assert_eq!(releases(7), vec![close(108)]);
    // the pipes
    assert_eq!(releases(8), vec![]);
    assert_eq!(releases(9), vec![close(116), close(112)]);
    // the pseudoconsole cannot be created: all four pipe ends are held
    assert_eq!(releases(10), vec![close(124), close(120), close(116), close(112)]);
}

#[test]
fn agent_construction_goes_through_its_steps_in_order() {
    let mut system = System::new();
    let mut pty_args = args(80, 25);
    pty_args.mouse_mode = MouseMode::WINPTY_MOUSE_MODE_FORCE;
    pty_args.agent_config = AgentConfig::from_bits(5).unwrap();
    system.construct(PTY::new_with_backend(&pty_args, PTYBackend::WinPTY, BOTH)).unwrap();
    let config = winpty_config_s { address: 0xC000 };
    let agent = winpty_s { address: 0xA000 };
    assert_eq!(
        system.log,
        vec![
            Action::ConfigNew { flags: 5 },
            Action::ConfigSetInitialSize { config, cols: 80, rows: 25 },
            Action::ConfigSetMouseMode { config, mouse_mode: 2 },
            Action::ConfigSetAgentTimeout { config, timeout: 10000 },
            Action::Open { config },
            Action::ConfigFree { config },
            Action::ConinName { agent },
            Action::OpenPipe { name: wide("\\\\.\\pipe\\winpty-conin\0"), access: Access::Write },
            Action::ConoutName { agent },
            Action::OpenPipe { name: wide("\\\\.\\pipe\\winpty-conout\0"), access: Access::Read },
        ]
    );
}

#[test]
fn agent_construction_frees_the_configuration_when_the_agent_does_not_start() {
    let mut system = System::failing_at(4);
    system.agent_failure = true;
    let error = system.build(args(80, 25), PTYBackend::WinPTY, BOTH).unwrap_err();
    assert_eq!(error, "the agent said no");
    let config = winpty_config_s { address: 0xC000 };
    let error_object = winpty_error_s { address: 0xE000 };
    assert_eq!(
        system.log[4..].to_vec(),
        vec![
            Action::Open { config },
            Action::ErrorMessage { error: error_object },
            Action::ErrorFree { error: error_object },
            Action::ConfigFree { config },
        ]
    );
}

#[test]
fn agent_construction_gives_back_what_it_holds_when_a_pipe_cannot_be_opened() {
    let agent = winpty_s { address: 0xA000 };
    let mut system = System::failing_at(7);
    let error = system.build(args(80, 25), PTYBackend::WinPTY, BOTH).unwrap_err();
    assert_eq!(error, "The system cannot perform action 7.");
    assert_eq!(system.log[8..].to_vec(), vec![Action::Free { agent }]);

    let mut system = System::failing_at(9);
    system.build(args(80, 25), PTYBackend::WinPTY, BOTH).unwrap_err();
    assert_eq!(
        system.log[10..].to_vec(),
        vec![Action::CloseHandle { handle: 104 }, Action::Free { agent }]
    );
}

#[test]
fn agent_configuration_error_is_read_and_freed() {
    let mut system = System::failing_at(0);
    system.agent_failure = true;
    let error = system.build(args(80, 25), PTYBackend::WinPTY, BOTH).unwrap_err();
    assert_eq!(error, "the agent said no");
    let error_object = winpty_error_s { address: 0xE000 };
    assert_eq!(
        system.log,
        vec![
            Action::ConfigNew { flags: 4 },
            Action::ErrorMessage { error: error_object },
            Action::ErrorFree { error: error_object },
        ]
    );
}

#[test]
fn native_spawn_builds_the_command_line_and_the_environment() {
    let (mut system, mut pty) = conpty();
    let start = system.log.len();
    let first = pty.spawn(
        wide("C:\\Windows\\System32\\cmd.exe"),
        Some(wide("/c echo hi")),
        Some(wide("C:\\Users")),
        Some(wide("A=1\0B=2\0")),
    );
    assert_eq!(system.run(&mut pty, first), Ok(Output::Flag(true)));
    assert_eq!(
        system.log[start..].to_vec(),
        vec![
            Action::InitializeAttributeList,
            Action::UpdateAttributeList { list: 132, console: 128 },
            Action::CreateProcess {
                command_line: wide("C:\\Windows\\System32\\cmd.exe /c echo hi\0"),
                working_dir: Some(wide("C:\\Users\0")),
                environment: Some(wide("A=1\0B=2\0\0")),
                attribute_list: 132,
            },
            Action::GetProcessId { process: 136 },
        ]
    );
    assert_eq!(pty.get_pid(), Some(4242));
    assert_eq!(pty.get_fd(), Some(136));
}

#[test]
fn native_spawn_without_arguments_passes_the_path_alone() {
    let (mut system, mut pty) = conpty();
    system.spawn(&mut pty, "C:\\Windows\\System32\\cmd.exe").unwrap();
    assert!(system.log.contains(&Action::CreateProcess {
        command_line: wide("C:\\Windows\\System32\\cmd.exe\0"),
        working_dir: None,
        environment: None,
        attribute_list: 132,
    }));
}

#[test]
fn native_spawn_deletes_its_list_when_the_process_cannot_be_created() {
    let (mut system, mut pty) = conpty();
    let start = system.log.len();
    system.fails_at = Some(start + 2);
    assert_eq!(
        system.spawn(&mut pty, "C:\\nothing.exe"),
        Err(format!("The system cannot perform action {}.", start + 2))
    );
    assert_eq!(system.log.last(), Some(&Action::DeleteAttributeList { list: 132 }));
    assert_eq!(pty.get_pid(), None);
    assert_eq!(pty.get_fd(), None);
    // the pseudoterminal is ready for another spawn
    system.fails_at = None;
    assert_eq!(system.spawn(&mut pty, "C:\\Windows\\System32\\cmd.exe"), Ok(Output::Flag(true)));
}

#[test]
fn a_second_spawn_is_refused() {
    for (mut system, mut pty) in [conpty(), winpty()] {
        system.spawn(&mut pty, "C:\\Windows\\System32\\cmd.exe").unwrap();
        let before = system.log.len();
        assert_eq!(
            system.spawn(&mut pty, "C:\\Windows\\System32\\cmd.exe"),
            Err(String::from("a process was already spawned in this pseudoterminal"))
        );
        assert_eq!(system.log.len(), before);
    }
}

#[test]
fn agent_spawn_goes_through_its_steps_in_order() {
    let (mut system, mut pty) = winpty();
    let start = system.log.len();
    let first = pty.spawn(
        wide("C:\\Windows\\System32\\cmd.exe"),
        Some(wide("/c echo hi")),
        None,
        Some(wide("A=1")),
    );
    assert_eq!(system.run(&mut pty, first), Ok(Output::Flag(true)));
    let agent = winpty_s { address: 0xA000 };
    let config = winpty_spawn_config_s { address: 0x5000 };
    assert_eq!(
        system.log[start..].to_vec(),
        vec![
            Action::SpawnConfigNew {
                flags: 3,
                appname: wide("C:\\Windows\\System32\\cmd.exe\0"),
                cmdline: Some(wide("/c echo hi\0")),
                cwd: None,
                env: Some(wide("A=1\0\0")),
            },
            Action::Spawn { agent, spawn_config: config },
            Action::SpawnConfigFree { spawn_config: config },
            Action::GetProcessId { process: 112 },
        ]
    );
    assert_eq!(pty.get_backend(), PTYBackend::WinPTY);
    assert_eq!(pty.get_pid(), Some(4242));
}

#[test]
fn agent_spawn_frees_its_configuration_when_the_agent_refuses() {
    let (mut system, mut pty) = winpty();
    let start = system.log.len();
    system.fails_at = Some(start + 1);
    system.agent_failure = true;
    assert_eq!(system.spawn(&mut pty, "C:\\nothing.exe"), Err(String::from("the agent said no")));
    let agent = winpty_s { address: 0xA000 };
    let config = winpty_spawn_config_s { address: 0x5000 };
    let error = winpty_error_s { address: 0xE000 };
    assert_eq!(
        system.log[start + 1..].to_vec(),
        vec![
            Action::Spawn { agent, spawn_config: config },
            Action::ErrorMessage { error },
            Action::ErrorFree { error },
            Action::SpawnConfigFree { spawn_config: config },
        ]
    );
    assert_eq!(pty.get_pid(), None);
}

#[test]
fn agent_resize_asks_the_agent() {
    let (mut system, mut pty) = winpty();
    assert_eq!(system.set_size(&mut pty, 90, 30), Ok(Output::Unit));
    assert_eq!(
        system.log.last(),
        Some(&Action::SetSize { agent: winpty_s { address: 0xA000 }, cols: 90, rows: 30 })
    );
    assert_eq!(system.size, (90, 30));
    system.fails_at = Some(system.log.len());
    system.agent_failure = true;
    assert_eq!(system.set_size(&mut pty, 91, 31), Err(String::from("the agent said no")));
    let error = winpty_error_s { address: 0xE000 };
    assert_eq!(system.log.last(), Some(&Action::ErrorFree { error }));
}

#[test]
fn native_resize_reports_the_error_of_the_system() {
    let (mut system, mut pty) = conpty();
    system.fails_at = Some(system.log.len());
    let expected = format!("The system cannot perform action {}.", system.log.len());
    assert_eq!(system.set_size(&mut pty, 90, 30), Err(expected));
    assert_eq!(system.size, (80, 25));
}

#[test]
fn exit_status_before_spawn_is_not_available_on_either_backend() {
    for (mut system, mut pty) in [conpty(), winpty()] {
        let before = system.log.len();
        assert_eq!(system.get_exitstatus(&mut pty), None);
        assert!(!system.is_alive(&mut pty));
        assert_eq!(pty.get_pid(), None);
        assert_eq!(pty.get_fd(), None);
        assert_eq!(system.log.len(), before);
    }
}

#[test]
fn exit_code_is_not_asked_for_again_once_the_process_has_exited() {
    for (mut system, mut pty) in [conpty(), winpty()] {
        system.spawn(&mut pty, "C:\\Windows\\System32\\cmd.exe").unwrap();
        assert!(system.is_alive(&mut pty));
        assert_eq!(system.exit_code_queries(), 1);
        system.write(&mut pty, "exit\r\n");
        assert!(!system.is_alive(&mut pty));
        assert_eq!(system.exit_code_queries(), 2);
        for _ in 0..5 {
            assert!(!system.is_alive(&mut pty));
            assert_eq!(system.get_exitstatus(&mut pty), Some(0));
        }
        assert_eq!(system.exit_code_queries(), 2);
    }
}

#[test]
fn nonblocking_read_returns_empty_when_nothing_waits() {
    let (mut system, mut pty) = conpty();
    system.spawn(&mut pty, "C:\\Windows\\System32\\cmd.exe").unwrap();
    while !system.read(&mut pty, 1000, false).is_empty() {}
    let before = system.log.len();
    assert_eq!(system.read(&mut pty, 1000, false), "");
    // one peek, and no read
    assert_eq!(system.log[before..].to_vec(), vec![Action::PeekNamedPipe { handle: 120 }]);
    assert!(system.is_alive(&mut pty));
    assert!(system.is_eof(&mut pty));
}

#[test]
fn end_of_file_after_the_process_has_exited() {
    let (mut system, mut pty) = conpty();
    system.spawn(&mut pty, "C:\\Windows\\System32\\cmd.exe").unwrap();
    system.write(&mut pty, "exit\r\n");
    // bytes still wait: not yet the state in which the query answers no
    assert!(system.is_eof(&mut pty));
    while !system.read(&mut pty, 1000, false).is_empty() {}
    assert!(!system.is_eof(&mut pty));
}

#[test]
fn agent_reads_by_the_size_of_the_file() {
    let (mut system, mut pty) = winpty();
    system.spawn(&mut pty, "C:\\Windows\\System32\\cmd.exe").unwrap();
    system.write(&mut pty, "dir\r\n");
    let before = system.log.len();
    assert_eq!(system.read(&mut pty, 3, false), "dir");
    assert_eq!(
        system.log[before..].to_vec(),
        vec![Action::GetFileSize { handle: 108 }, Action::ReadFile { handle: 108, length: 3 }]
    );
}

#[test]
fn read_in_small_pieces_reproduces_what_was_written() {
    let (mut system, mut pty) = conpty();
    system.spawn(&mut pty, "C:\\Windows\\System32\\cmd.exe").unwrap();
    while !system.read(&mut pty, 1000, false).is_empty() {}
    let text = "plain ascii, read five bytes at a time\r\n";
    assert_eq!(system.write(&mut pty, text), text.len() as u32);
    let mut echoed = String::new();
    loop {
        let piece = system.read(&mut pty, 5, false);
        if piece.is_empty() {
            break;
        }
        echoed.push_str(&piece);
    }
    assert_eq!(echoed, text);
}

#[test]
fn native_teardown_gives_back_in_the_strict_order() {
    let (mut system, mut pty) = conpty();
    system.spawn(&mut pty, "C:\\Windows\\System32\\cmd.exe").unwrap();
    assert_eq!(
        pty.teardown(),
        vec![
            Action::CloseHandle { handle: 140 },
            Action::CloseHandle { handle: 136 },
            Action::DeleteAttributeList { list: 132 },
            Action::ClosePseudoConsole { console: 128 },
            Action::CloseHandle { handle: 116 },
            Action::CloseHandle { handle: 120 },
        ]
    );
}

#[test]
fn native_teardown_before_spawn_closes_the_console_and_the_pipes() {
    let (_, pty) = conpty();
    assert_eq!(
        pty.teardown(),
        vec![
            Action::ClosePseudoConsole { console: 128 },
            Action::CloseHandle { handle: 116 },
            Action::CloseHandle { handle: 120 },
        ]
    );
}

#[test]
fn agent_teardown_closes_the_handles_and_then_frees_the_agent() {
    let (mut system, mut pty) = winpty();
    system.spawn(&mut pty, "C:\\Windows\\System32\\cmd.exe").unwrap();
    assert_eq!(
        pty.teardown(),
        vec![
            Action::CloseHandle { handle: 104 },
            Action::CloseHandle { handle: 108 },
            Action::CloseHandle { handle: 112 },
            Action::Free { agent: winpty_s { address: 0xA000 } },
        ]
    );
}

#[test]
fn a_disabled_native_backend_fails_every_operation() {
    let message = Err(String::from("pty_rs was compiled without ConPTY enabled"));
    let mut pty = ConPTY::disabled();
    assert_eq!(pty.spawn(wide("cmd.exe"), None, None, None), Step::Finished(message.clone()));
    assert_eq!(pty.set_size(90, 30), Step::Finished(message.clone()));
    assert_eq!(pty.set_size(0, 0), Step::Finished(message.clone()));
    assert_eq!(pty.read(1000, false), Step::Finished(message.clone()));
    assert_eq!(pty.read(1000, true), Step::Finished(message.clone()));
    assert_eq!(pty.write(wide("x")), Step::Finished(message.clone()));
    assert_eq!(pty.is_eof(), Step::Finished(message.clone()));
    assert_eq!(pty.get_exitstatus(), Step::Finished(message.clone()));
    assert_eq!(pty.is_alive(), Step::Finished(message));
    assert_eq!(pty.teardown(), vec![]);
}

#[test]
fn a_disabled_agent_backend_fails_every_operation() {
    let message = Err(String::from("winpty_rs was compiled without WinPTY enabled"));
    let mut pty = WinPTY::disabled();
    assert_eq!(pty.spawn(wide("cmd.exe"), None, None, None), Step::Finished(message.clone()));
    assert_eq!(pty.set_size(90, 30), Step::Finished(message.clone()));
    assert_eq!(pty.set_size(0, 0), Step::Finished(message.clone()));
    assert_eq!(pty.read(1000, false), Step::Finished(message.clone()));
    assert_eq!(pty.read(1000, true), Step::Finished(message.clone()));
    assert_eq!(pty.write(wide("x")), Step::Finished(message.clone()));
    assert_eq!(pty.is_eof(), Step::Finished(message.clone()));
    assert_eq!(pty.get_exitstatus(), Step::Finished(message.clone()));
    assert_eq!(pty.is_alive(), Step::Finished(message));
    assert_eq!(pty.teardown(), vec![]);
}

#[test]
fn an_event_after_the_end_of_a_construction_is_refused() {
    let (mut setup, step) = PTY::new(&args(80, 25), NEITHER);
    assert!(matches!(step, Step::Finished(Err(_))));
    assert!(matches!(
        setup.resume(Event::Done),
        Step::Finished(Err(message)) if message == "the host answered though no action is pending"
    ));
    let (_, mut pty) = conpty();
    assert_eq!(
        pty.resume(Event::Done),
        Step::Finished(Err(String::from("the host answered though no action is pending")))
    );
}

#[test]
fn an_unexpected_event_during_construction_unwinds() {
    let (mut setup, step) = PTY::new_with_backend(&args(80, 25), PTYBackend::ConPTY, BOTH);
    assert!(matches!(step, Step::Perform(Action::AllocConsole)));
    assert!(matches!(setup.resume(Event::Done), Step::Perform(Action::OpenConsoleOutput)));
    assert!(matches!(setup.resume(Event::Handle(7)), Step::Perform(Action::OpenConsoleInput)));
    // a pipe where a handle is due
    assert!(matches!(
        setup.resume(Event::Pipe { read: 1, write: 2 }),
        Step::Perform(Action::CloseHandle { handle: 7 })
    ));
    assert!(matches!(
        setup.resume(Event::Done),
        Step::Finished(Err(message))
            if message == "the host answered with an event that the pending action does not take"
    ));
}

#[test]
fn a_backend_refuses_an_operation_while_another_is_under_way() {
    let busy: Step<Output> =
        Step::Finished(Err(String::from("another operation is under way and has to end first")));
    for (mut system, mut pty) in [conpty(), winpty()] {
        let mut step = pty.spawn(wide("C:\\Windows\\System32\\cmd.exe"), None, None, None);
        assert!(matches!(step, Step::Perform(_)));
        assert_eq!(pty.read(1000, false), busy);
        assert_eq!(pty.write(wide("x")), busy);
        assert_eq!(pty.is_eof(), busy);
        assert_eq!(pty.is_alive(), busy);
        assert_eq!(pty.get_exitstatus(), busy);
        assert_eq!(pty.set_size(90, 30), busy);
        assert_eq!(pty.spawn(wide("cmd.exe"), None, None, None), busy);
        // a bad size is refused for what it is, busy or not
        assert_eq!(
            pty.set_size(0, 30),
            Step::Finished(Err(String::from(
                "PTY cols and rows must be positive and non-zero. Got: (0, 30)"
            )))
        );
        // the spawn goes on undisturbed
        let result = loop {
            match step {
                Step::Perform(action) => step = pty.resume(system.perform(action)),
                Step::Finished(result) => break result,
            }
        };
        assert_eq!(result, Ok(Output::Flag(true)));
        assert_eq!(pty.get_pid(), Some(4242));
        assert!(system.is_alive(&mut pty));
    }
}

#[test]
fn constructions_and_operations_end_within_their_bounds() {
    // a construction in which every action fails in turn never takes more events than announced
    for position in 0..16 {
        for agent_failure in [false, true] {
            let mut system = System::failing_at(position);
            system.agent_failure = agent_failure;
            let _ = system.construct(PTY::new(&args(80, 25), BOTH));
            assert!(system.log.len() <= 31);
            let mut system = System::failing_at(position);
            system.agent_failure = agent_failure;
            let _ = system.build(args(80, 25), PTYBackend::ConPTY, BOTH);
            assert!(system.log.len() <= 15);
            let mut system = System::failing_at(position);
            system.agent_failure = agent_failure;
            let _ = system.build(args(80, 25), PTYBackend::WinPTY, BOTH);
            assert!(system.log.len() <= 15);
        }
    }
    for (mut system, mut pty) in [conpty(), winpty()] {
        let before = system.log.len();
        system.spawn(&mut pty, "C:\\Windows\\System32\\cmd.exe").unwrap();
        assert!(system.log.len() - before <= 6);
        let before = system.log.len();
        system.read(&mut pty, 1000, false);
        assert!(system.log.len() - before <= 2);
        let before = system.log.len();
        system.is_eof(&mut pty);
        assert!(system.log.len() - before <= 2);
    }
}

#[test]
fn a_failed_construction_leaves_nothing_out() {
    for backend in [PTYBackend::ConPTY, PTYBackend::WinPTY, PTYBackend::Auto] {
        for position in 0..26 {
            for agent_failure in [false, true] {
                let mut system = System::failing_at(position);
                system.agent_failure = agent_failure;
                match system.build(args(80, 25), backend, BOTH) {
                    Err(_) => assert_eq!(system.live, Vec::<Resource>::new()),
                    Ok(pty) => {
                        assert_eq!(system.live.len(), 3);
                        for action in pty.teardown() {
                            system.perform(action);
                        }
                        assert_eq!(system.live, Vec::<Resource>::new());
                    }
                }
            }
        }
    }
}

#[test]
fn a_session_gives_back_all_that_it_got() {
    for (mut system, mut pty) in [conpty(), winpty()] {
        system.spawn(&mut pty, "C:\\Windows\\System32\\cmd.exe").unwrap();
        system.write(&mut pty, "echo hello\r\n");
        system.read(&mut pty, 1000, false);
        system.set_size(&mut pty, 90, 30).unwrap();
        system.write(&mut pty, "exit\r\n");
        assert!(!system.is_alive(&mut pty));
        assert!(!system.live.is_empty());
        for action in pty.teardown() {
            system.perform(action);
        }
        assert_eq!(system.live, Vec::<Resource>::new());
    }
}

#[test]
fn a_failed_spawn_leaves_out_only_what_the_session_holds() {
    for (mut system, mut pty) in [conpty(), winpty()] {
        let held = system.live.clone();
        for offset in 0..6 {
            for agent_failure in [false, true] {
                system.fails_at = Some(system.log.len() + offset);
                system.agent_failure = agent_failure;
                let spawned = system.spawn(&mut pty, "C:\\nothing.exe");
                // as long as no process has come, the session holds what it held
                if spawned.is_err() && pty.get_fd().is_none() {
                    assert_eq!(system.live, held);
                }
            }
        }
        system.fails_at = None;
        for action in pty.teardown() {
            system.perform(action);
        }
        assert_eq!(system.live, Vec::<Resource>::new());
    }
}
