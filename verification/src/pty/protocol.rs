//! The protocol between a session and its host.
//!
//! The session never calls the operating system. An operation answers with a
//! [`Step`]: an [`Action`] for the host to perform, or the finished result. The
//! host hands what the action gave to `resume` as an [`Event`].

use vstd::prelude::*;
use vstd::string::*;

use super::winpty::bindings::{winpty_config_s, winpty_error_s, winpty_s, winpty_spawn_config_s};

verus! {

/// One of the three standard streams of a process.
#[derive(Copy, Clone, Debug, PartialEq, Eq, Structural)]
pub enum StdStream {
    Input,
    Output,
    Error,
}

/// What a pipe that is opened by its name is opened for.
#[derive(Copy, Clone, Debug, PartialEq, Eq, Structural)]
pub enum Access {
    /// Reading only, shared with nobody.
    Read,
    /// Writing only, shared with nobody.
    Write,
}

/// A request to the host: one call of the operating system or of the agent
/// library. The documentation of each says which [`Event`] answers it when it
/// succeeds; [`Event::Failed`] answers a call of the system that failed,
/// [`Event::AgentFailed`] a call of the agent library that failed.
#[derive(Clone, Debug, PartialEq, Eq)]
pub enum Action {
    /// Count the bytes that wait in a pipe, consuming none: [`Event::Count`].
    PeekNamedPipe { handle: isize },
    /// Ask for the size of a file: [`Event::Size`].
    GetFileSize { handle: isize },
    /// Read at most `length` bytes: [`Event::Bytes`].
    ReadFile { handle: isize, length: u32 },
    /// Write the bytes in one call: [`Event::Count`], the bytes written.
    WriteFile { handle: isize, bytes: Vec<u8> },
    /// Ask for the exit code of a process: [`Event::ExitCode`].
    GetExitCodeProcess { process: isize },
    /// Ask for the identifier of a process: [`Event::ProcessId`].
    GetProcessId { process: isize },
    /// Close a handle. The answer is not looked at.
    CloseHandle { handle: isize },
    /// Make sure that the host process has a console: allocate one, hidden, if
    /// it has none. The answer is not looked at.
    AllocConsole,
    /// Open the console's output device by its name, for reading and writing:
    /// [`Event::Handle`].
    OpenConsoleOutput,
    /// Open the console's input device by its name, for reading and writing:
    /// [`Event::Handle`].
    OpenConsoleInput,
    /// Ask for the mode of a console stream: [`Event::ConsoleMode`].
    GetConsoleMode { handle: isize },
    /// Set the mode of a console stream: [`Event::Done`].
    SetConsoleMode { handle: isize, mode: u32 },
    /// Make a handle a standard stream of the host process: [`Event::Done`].
    SetStdHandle { stream: StdStream, handle: isize },
    /// Create an anonymous pipe: [`Event::Pipe`].
    CreatePipe,
    /// Create a pseudoconsole of the given size on two pipe ends:
    /// [`Event::Handle`].
    CreatePseudoConsole { cols: i32, rows: i32, input: isize, output: isize },
    /// Resize a pseudoconsole: [`Event::Done`].
    ResizePseudoConsole { console: isize, cols: i32, rows: i32 },
    /// Close a pseudoconsole. The answer is not looked at.
    ClosePseudoConsole { console: isize },
    /// Allocate and initialise a list for one process attribute:
    /// [`Event::Handle`].
    InitializeAttributeList,
    /// Put a pseudoconsole into an attribute list: [`Event::Done`].
    UpdateAttributeList { list: isize, console: isize },
    /// Delete an attribute list. The answer is not looked at.
    DeleteAttributeList { list: isize },
    /// Create a process from a command line, with extended startup information
    /// and a Unicode environment: [`Event::Process`].
    CreateProcess {
        command_line: Vec<u16>,
        working_dir: Option<Vec<u16>>,
        environment: Option<Vec<u16>>,
        attribute_list: isize,
    },
    /// Allocate an agent configuration with the given flags:
    /// [`Event::Config`].
    ConfigNew { flags: u64 },
    /// Set the initial size in a configuration: [`Event::Done`].
    ConfigSetInitialSize { config: winpty_config_s, cols: i32, rows: i32 },
    /// Set the mouse mode in a configuration: [`Event::Done`].
    ConfigSetMouseMode { config: winpty_config_s, mouse_mode: i32 },
    /// Set the agent timeout in a configuration: [`Event::Done`].
    ConfigSetAgentTimeout { config: winpty_config_s, timeout: u32 },
    /// Free a configuration. The answer is not looked at.
    ConfigFree { config: winpty_config_s },
    /// Start an agent from a configuration: [`Event::Agent`].
    Open { config: winpty_config_s },
    /// Ask for the name of the agent's input pipe: [`Event::Name`].
    ConinName { agent: winpty_s },
    /// Ask for the name of the agent's output pipe: [`Event::Name`].
    ConoutName { agent: winpty_s },
    /// Open a pipe by its name: [`Event::Handle`].
    OpenPipe { name: Vec<u16>, access: Access },
    /// Allocate the configuration of a process to spawn:
    /// [`Event::SpawnConfig`].
    SpawnConfigNew {
        flags: u64,
        appname: Vec<u16>,
        cmdline: Option<Vec<u16>>,
        cwd: Option<Vec<u16>>,
        env: Option<Vec<u16>>,
    },
    /// Spawn a process in the agent's terminal: [`Event::Handle`], the handle
    /// of the process.
    Spawn { agent: winpty_s, spawn_config: winpty_spawn_config_s },
    /// Free a spawn configuration. The answer is not looked at.
    SpawnConfigFree { spawn_config: winpty_spawn_config_s },
    /// Resize the agent's terminal: [`Event::Done`].
    SetSize { agent: winpty_s, cols: i32, rows: i32 },
    /// Shut the agent down and free it. The answer is not looked at.
    Free { agent: winpty_s },
    /// Read the text of an error object: [`Event::Message`].
    ErrorMessage { error: winpty_error_s },
    /// Free an error object. The answer is not looked at.
    ErrorFree { error: winpty_error_s },
}

/// An [`Action`] in specifications: sequences in place of vectors.
pub enum ActionView {
    PeekNamedPipe { handle: isize },
    GetFileSize { handle: isize },
    ReadFile { handle: isize, length: u32 },
    WriteFile { handle: isize, bytes: Seq<u8> },
    GetExitCodeProcess { process: isize },
    GetProcessId { process: isize },
    CloseHandle { handle: isize },
    AllocConsole,
    OpenConsoleOutput,
    OpenConsoleInput,
    GetConsoleMode { handle: isize },
    SetConsoleMode { handle: isize, mode: u32 },
    SetStdHandle { stream: StdStream, handle: isize },
    CreatePipe,
    CreatePseudoConsole { cols: i32, rows: i32, input: isize, output: isize },
    ResizePseudoConsole { console: isize, cols: i32, rows: i32 },
    ClosePseudoConsole { console: isize },
    InitializeAttributeList,
    UpdateAttributeList { list: isize, console: isize },
    DeleteAttributeList { list: isize },
    CreateProcess {
        command_line: Seq<u16>,
        working_dir: Option<Seq<u16>>,
        environment: Option<Seq<u16>>,
        attribute_list: isize,
    },
    ConfigNew { flags: u64 },
    ConfigSetInitialSize { config: winpty_config_s, cols: i32, rows: i32 },
    ConfigSetMouseMode { config: winpty_config_s, mouse_mode: i32 },
    ConfigSetAgentTimeout { config: winpty_config_s, timeout: u32 },
    ConfigFree { config: winpty_config_s },
    Open { config: winpty_config_s },
    ConinName { agent: winpty_s },
    ConoutName { agent: winpty_s },
    OpenPipe { name: Seq<u16>, access: Access },
    SpawnConfigNew {
        flags: u64,
        appname: Seq<u16>,
        cmdline: Option<Seq<u16>>,
        cwd: Option<Seq<u16>>,
        env: Option<Seq<u16>>,
    },
    Spawn { agent: winpty_s, spawn_config: winpty_spawn_config_s },
    SpawnConfigFree { spawn_config: winpty_spawn_config_s },
    SetSize { agent: winpty_s, cols: i32, rows: i32 },
    Free { agent: winpty_s },
    ErrorMessage { error: winpty_error_s },
    ErrorFree { error: winpty_error_s },
}

/// The units of an optional wide string.
pub open spec fn wide_view(wide: Option<Vec<u16>>) -> Option<Seq<u16>> {
    match wide {
        Some(units) => Some(units@),
        None => None,
    }
}

impl View for Action {
    type V = ActionView;

    open spec fn view(&self) -> ActionView {
        match *self {
            Action::PeekNamedPipe { handle } => ActionView::PeekNamedPipe { handle },
            Action::GetFileSize { handle } => ActionView::GetFileSize { handle },
            Action::ReadFile { handle, length } => ActionView::ReadFile { handle, length },
            Action::WriteFile { handle, bytes } => ActionView::WriteFile { handle, bytes: bytes@ },
            Action::GetExitCodeProcess { process } => ActionView::GetExitCodeProcess { process },
            Action::GetProcessId { process } => ActionView::GetProcessId { process },
            Action::CloseHandle { handle } => ActionView::CloseHandle { handle },
            Action::AllocConsole => ActionView::AllocConsole,
            Action::OpenConsoleOutput => ActionView::OpenConsoleOutput,
            Action::OpenConsoleInput => ActionView::OpenConsoleInput,
            Action::GetConsoleMode { handle } => ActionView::GetConsoleMode { handle },
            Action::SetConsoleMode { handle, mode } => ActionView::SetConsoleMode { handle, mode },
            Action::SetStdHandle { stream, handle } => ActionView::SetStdHandle { stream, handle },
            Action::CreatePipe => ActionView::CreatePipe,
            Action::CreatePseudoConsole { cols, rows, input, output } => {
                ActionView::CreatePseudoConsole { cols, rows, input, output }
            },
            Action::ResizePseudoConsole { console, cols, rows } => {
                ActionView::ResizePseudoConsole { console, cols, rows }
            },
            Action::ClosePseudoConsole { console } => ActionView::ClosePseudoConsole { console },
            Action::InitializeAttributeList => ActionView::InitializeAttributeList,
            Action::UpdateAttributeList { list, console } => {
                ActionView::UpdateAttributeList { list, console }
            },
            Action::DeleteAttributeList { list } => ActionView::DeleteAttributeList { list },
            Action::CreateProcess { command_line, working_dir, environment, attribute_list } => {
                ActionView::CreateProcess {
                    command_line: command_line@,
                    working_dir: wide_view(working_dir),
                    environment: wide_view(environment),
                    attribute_list,
                }
            },
            Action::ConfigNew { flags } => ActionView::ConfigNew { flags },
            Action::ConfigSetInitialSize { config, cols, rows } => {
                ActionView::ConfigSetInitialSize { config, cols, rows }
            },
            Action::ConfigSetMouseMode { config, mouse_mode } => {
                ActionView::ConfigSetMouseMode { config, mouse_mode }
            },
            Action::ConfigSetAgentTimeout { config, timeout } => {
                ActionView::ConfigSetAgentTimeout { config, timeout }
            },
            Action::ConfigFree { config } => ActionView::ConfigFree { config },
            Action::Open { config } => ActionView::Open { config },
            Action::ConinName { agent } => ActionView::ConinName { agent },
            Action::ConoutName { agent } => ActionView::ConoutName { agent },
            Action::OpenPipe { name, access } => ActionView::OpenPipe { name: name@, access },
            Action::SpawnConfigNew { flags, appname, cmdline, cwd, env } => {
                ActionView::SpawnConfigNew {
                    flags,
                    appname: appname@,
                    cmdline: wide_view(cmdline),
                    cwd: wide_view(cwd),
                    env: wide_view(env),
                }
            },
            Action::Spawn { agent, spawn_config } => ActionView::Spawn { agent, spawn_config },
            Action::SpawnConfigFree { spawn_config } => {
                ActionView::SpawnConfigFree { spawn_config }
            },
            Action::SetSize { agent, cols, rows } => ActionView::SetSize { agent, cols, rows },
            Action::Free { agent } => ActionView::Free { agent },
            Action::ErrorMessage { error } => ActionView::ErrorMessage { error },
            Action::ErrorFree { error } => ActionView::ErrorFree { error },
        }
    }
}

/// What the host hands back after it has performed an [`Action`].
#[derive(Clone, Debug, PartialEq, Eq)]
pub enum Event {
    /// A call of the operating system failed; the text is the system's message.
    Failed(String),
    /// A call of the agent library failed and left an error object.
    AgentFailed(winpty_error_s),
    /// The call succeeded and gives nothing back.
    Done,
    /// A number of bytes: those that wait in a pipe, or those written.
    Count(u32),
    /// The size of a file.
    Size(i64),
    /// The bytes that were read.
    Bytes(Vec<u8>),
    /// The exit code of a process, [`STILL_ACTIVE`] while it runs.
    ExitCode(u32),
    /// The identifier of a process.
    ProcessId(u32),
    /// A handle: of a stream, a pseudoconsole, an attribute list or a process.
    Handle(isize),
    /// The two ends of a new pipe.
    Pipe { read: isize, write: isize },
    /// The mode of a console stream.
    ConsoleMode(u32),
    /// A new process and its first thread.
    Process { process: isize, thread: isize },
    /// A new agent configuration.
    Config(winpty_config_s),
    /// A running agent.
    Agent(winpty_s),
    /// A new spawn configuration.
    SpawnConfig(winpty_spawn_config_s),
    /// The name of a pipe.
    Name(Vec<u16>),
    /// The text of an error object.
    Message(String),
}

/// An [`Event`] in specifications.
pub enum EventView {
    Failed(Seq<char>),
    AgentFailed(winpty_error_s),
    Done,
    Count(u32),
    Size(i64),
    Bytes(Seq<u8>),
    ExitCode(u32),
    ProcessId(u32),
    Handle(isize),
    Pipe { read: isize, write: isize },
    ConsoleMode(u32),
    Process { process: isize, thread: isize },
    Config(winpty_config_s),
    Agent(winpty_s),
    SpawnConfig(winpty_spawn_config_s),
    Name(Seq<u16>),
    Message(Seq<char>),
}

impl View for Event {
    type V = EventView;

    open spec fn view(&self) -> EventView {
        match *self {
            Event::Failed(message) => EventView::Failed(message@),
            Event::AgentFailed(error) => EventView::AgentFailed(error),
            Event::Done => EventView::Done,
            Event::Count(count) => EventView::Count(count),
            Event::Size(size) => EventView::Size(size),
            Event::Bytes(bytes) => EventView::Bytes(bytes@),
            Event::ExitCode(code) => EventView::ExitCode(code),
            Event::ProcessId(pid) => EventView::ProcessId(pid),
            Event::Handle(handle) => EventView::Handle(handle),
            Event::Pipe { read, write } => EventView::Pipe { read, write },
            Event::ConsoleMode(mode) => EventView::ConsoleMode(mode),
            Event::Process { process, thread } => EventView::Process { process, thread },
            Event::Config(config) => EventView::Config(config),
            Event::Agent(agent) => EventView::Agent(agent),
            Event::SpawnConfig(config) => EventView::SpawnConfig(config),
            Event::Name(name) => EventView::Name(name@),
            Event::Message(message) => EventView::Message(message@),
        }
    }
}

/// What a finished operation of a session gives.
#[derive(Clone, Debug, PartialEq, Eq)]
pub enum Output {
    /// Nothing but success.
    Unit,
    /// A yes or no.
    Flag(bool),
    /// A number of bytes.
    Count(u32),
    /// Text, as a wide string.
    Text(Vec<u16>),
    /// The exit code of the process, if it has exited.
    ExitStatus(Option<u32>),
}

/// An [`Output`] in specifications.
pub enum OutputView {
    Unit,
    Flag(bool),
    Count(u32),
    Text(Seq<u16>),
    ExitStatus(Option<u32>),
}

impl View for Output {
    type V = OutputView;

    open spec fn view(&self) -> OutputView {
        match *self {
            Output::Unit => OutputView::Unit,
            Output::Flag(flag) => OutputView::Flag(flag),
            Output::Count(count) => OutputView::Count(count),
            Output::Text(text) => OutputView::Text(text@),
            Output::ExitStatus(status) => OutputView::ExitStatus(status),
        }
    }
}

/// The answer of an operation: what the host has to do next, or how the
/// operation ended.
#[derive(Debug, PartialEq, Eq)]
pub enum Step<T> {
    /// The host performs the action and hands the event to `resume`.
    Perform(Action),
    /// The operation has ended, with its result or with the text of an error.
    Finished(Result<T, String>),
}

/// A [`Step`] in specifications.
pub enum StepView<V> {
    Perform(ActionView),
    Finished(Result<V, Seq<char>>),
}

impl<T: View> View for Step<T> {
    type V = StepView<T::V>;

    open spec fn view(&self) -> StepView<T::V> {
        match *self {
            Step::Perform(action) => StepView::Perform(action@),
            Step::Finished(Ok(value)) => StepView::Finished(Ok(value@)),
            Step::Finished(Err(message)) => StepView::Finished(Err(message@)),
        }
    }
}

/// The text of the error for an event that does not answer the pending action.
pub open spec fn unexpected_reply_text() -> Seq<char> {
    "the host answered with an event that the pending action does not take"@
}

/// The text of the error for an event that comes when no action is pending.
pub open spec fn nothing_pending_text() -> Seq<char> {
    "the host answered though no action is pending"@
}

/// The text of the error for an operation that is started while another is
/// under way.
pub open spec fn busy_text() -> Seq<char> {
    "another operation is under way and has to end first"@
}

/// The error for an operation that is started while another is under way.
pub fn busy() -> (message: String)
    ensures
        message@ == busy_text(),
{
    String::from_str("another operation is under way and has to end first")
}

/// The error for an event that does not answer the pending action.
pub fn unexpected_reply() -> (message: String)
    ensures
        message@ == unexpected_reply_text(),
{
    String::from_str("the host answered with an event that the pending action does not take")
}

/// The error for an event that comes when no action is pending.
pub fn nothing_pending() -> (message: String)
    ensures
        message@ == nothing_pending_text(),
{
    String::from_str("the host answered though no action is pending")
}

/// The text of the error for a second spawn.
pub open spec fn already_spawned_text() -> Seq<char> {
    "a process was already spawned in this pseudoterminal"@
}

/// The error for a second spawn.
pub fn already_spawned() -> (message: String)
    ensures
        message@ == already_spawned_text(),
{
    String::from_str("a process was already spawned in this pseudoterminal")
}

/// The text of the error that an event brings where it is no success: the
/// message of the system, or a word on an event that does not answer the
/// action.
pub open spec fn failure_text(event: EventView) -> Seq<char> {
    match event {
        EventView::Failed(message) => message,
        _ => unexpected_reply_text(),
    }
}

/// The error that an event brings where it is no success.
pub fn failure_of(event: Event) -> (message: String)
    ensures
        message@ == failure_text(event@),
{
    match event {
        Event::Failed(message) => message,
        _ => unexpected_reply(),
    }
}

/// Whether a handle stands for nothing: zero, or the system's invalid value.
pub open spec fn handle_is_invalid(handle: isize) -> bool {
    handle == 0 || handle == -1
}

/// Whether a handle stands for nothing.
pub fn is_invalid(handle: isize) -> (invalid: bool)
    ensures
        invalid == handle_is_invalid(handle),
{
    handle == 0 || handle == -1
}

/// A step that ends an operation with a result.
pub open spec fn finished(output: OutputView) -> StepView<OutputView> {
    StepView::Finished(Ok(output))
}

/// A step that ends an operation with an error.
pub open spec fn failed<V>(message: Seq<char>) -> StepView<V> {
    StepView::Finished(Err(message))
}

/// The views of a list of actions.
pub open spec fn actions_view(actions: Seq<Action>) -> Seq<ActionView> {
    actions.map_values(|action: Action| action@)
}

} // verus!
