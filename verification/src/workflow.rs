//! The run as a state machine: each step takes the event the caller observed
//! and answers with the next state and the action to perform.

use crate::avrdude::{
    classify_exit, exit_outcome, invocation, require_min_ver, version_at_least, version_gate,
    Invocation, InvocationView, MIN_VERSION_AVRDUDE,
};
use crate::board::{
    get_board, lookup, profile_of, resolve_port, Board, KnownBoard, PortGuess, PortGuessView,
    SerialDevice,
};
use crate::console::{console_gate, prepare, ConsoleConfig, ConsoleConfigView};
use crate::error::Error;
use vstd::prelude::*;

verus! {

/// What the operator asked for.
#[derive(Clone, Debug, PartialEq, Eq)]
pub struct Request {
    /// Identifier of the board to work with.
    pub board: String,
    /// Firmware to flash; without it flashing is skipped.
    pub binary: Option<String>,
    /// Port to use instead of a detected one.
    pub port: Option<String>,
    /// Baud rate of the console.
    pub baudrate: Option<u32>,
    pub open_console: bool,
    /// Milliseconds to wait in place of the reset confirmation; 0 waits not at all.
    pub reset_delay: Option<u64>,
    /// Whether the programmer's command line is shown.
    pub debug_avrdude: bool,
}

/// Mathematical content of [`Request`].
pub struct RequestView {
    pub board: Seq<char>,
    pub binary: Option<Seq<char>>,
    pub port: Option<Seq<char>>,
    pub baudrate: Option<u32>,
    pub open_console: bool,
    pub reset_delay: Option<u64>,
    pub debug_avrdude: bool,
}

/// The characters of an optional string.
pub open spec fn text_of(text: Option<String>) -> Option<Seq<char>> {
    match text {
        Some(s) => Some(s@),
        None => None,
    }
}

impl View for Request {
    type V = RequestView;

    open spec fn view(&self) -> RequestView {
        RequestView {
            board: self.board@,
            binary: text_of(self.binary),
            port: text_of(self.port),
            baudrate: self.baudrate,
            open_console: self.open_console,
            reset_delay: self.reset_delay,
            debug_avrdude: self.debug_avrdude,
        }
    }
}

/// Where a run stands. Each waiting state names the event it waits for.
#[derive(Clone, Debug, PartialEq, Eq)]
pub enum State {
    AwaitingToolVersion,
    AwaitingReset(KnownBoard),
    AwaitingDevices(KnownBoard),
    AwaitingProgrammer { port: String },
    AwaitingConsole,
    Succeeded,
    Failed(Error),
}

/// Mathematical content of [`State`].
pub enum StateView {
    AwaitingToolVersion,
    AwaitingReset(KnownBoard),
    AwaitingDevices(KnownBoard),
    AwaitingProgrammer { port: Seq<char> },
    AwaitingConsole,
    Succeeded,
    Failed(Error),
}

impl View for State {
    type V = StateView;

    open spec fn view(&self) -> StateView {
        match self {
            State::AwaitingToolVersion => StateView::AwaitingToolVersion,
            State::AwaitingReset(board) => StateView::AwaitingReset(*board),
            State::AwaitingDevices(board) => StateView::AwaitingDevices(*board),
            State::AwaitingProgrammer { port } => StateView::AwaitingProgrammer { port: port@ },
            State::AwaitingConsole => StateView::AwaitingConsole,
            State::Succeeded => StateView::Succeeded,
            State::Failed(error) => StateView::Failed(*error),
        }
    }
}

/// What the caller observed.
#[derive(Clone, Debug, PartialEq, Eq)]
pub enum Event {
    /// The version the programmer tool reported, if it reported one.
    ToolVersion(Option<(u8, u8)>),
    /// The wait or the operator's confirmation is over.
    ResetDone,
    /// The serial devices the host shows, in enumeration order.
    Devices(Vec<SerialDevice>),
    ProgrammerNotStarted,
    ProgrammerExited(i32),
    ProgrammerKilled,
    ConsoleClosed,
    ConsoleFailed,
}

/// What the caller is to do next.
#[derive(Clone, Debug, PartialEq, Eq)]
pub enum Action {
    DetectToolVersion,
    /// Wait this many milliseconds, then report `ResetDone`.
    Sleep(u64),
    /// Show the instruction, wait for the operator, then report `ResetDone`.
    AwaitConfirmation(String),
    ListDevices,
    RunProgrammer(Invocation),
    OpenConsole(ConsoleConfig),
    /// The run is over and succeeded; the operator may have meant to ask for
    /// a console.
    Finish { suggest_console: bool },
    /// The run is over and failed.
    Fail(Error),
}

/// Mathematical content of [`Action`].
pub enum ActionView {
    DetectToolVersion,
    Sleep(u64),
    AwaitConfirmation(Seq<char>),
    ListDevices,
    RunProgrammer(InvocationView),
    OpenConsole(ConsoleConfigView),
    Finish { suggest_console: bool },
    Fail(Error),
}

impl View for Action {
    type V = ActionView;

    open spec fn view(&self) -> ActionView {
        match self {
            Action::DetectToolVersion => ActionView::DetectToolVersion,
            Action::Sleep(ms) => ActionView::Sleep(*ms),
            Action::AwaitConfirmation(text) => ActionView::AwaitConfirmation(text@),
            Action::ListDevices => ActionView::ListDevices,
            Action::RunProgrammer(call) => ActionView::RunProgrammer(call@),
            Action::OpenConsole(config) => ActionView::OpenConsole(config@),
            Action::Finish { suggest_console } => ActionView::Finish {
                suggest_console: *suggest_console,
            },
            Action::Fail(error) => ActionView::Fail(*error),
        }
    }
}

/// The failed state, with the action that reports it.
pub open spec fn failed(error: Error) -> (StateView, ActionView) {
    (StateView::Failed(error), ActionView::Fail(error))
}

/// After flashing, or when there is nothing to flash: open the console if it
/// was asked for, which needs a baud rate; otherwise the run is over.
pub open spec fn after_program(request: RequestView, port: Seq<char>) -> (StateView, ActionView) {
    if request.open_console {
        match console_gate(request.baudrate, Some(port)) {
            Ok(config) => (StateView::AwaitingConsole, ActionView::OpenConsole(config)),
            Err(error) => failed(error),
        }
    } else {
        (StateView::Succeeded, ActionView::Finish { suggest_console: request.binary is None })
    }
}

/// With the port known: flash the binary if one was given.
pub open spec fn after_port(request: RequestView, board: KnownBoard, port: Seq<char>) -> (
    StateView,
    ActionView,
) {
    match request.binary {
        Some(firmware) => (
            StateView::AwaitingProgrammer { port },
            ActionView::RunProgrammer(
                InvocationView {
                    options: profile_of(board).programmer,
                    port: Some(port),
                    firmware,
                    echo: request.debug_avrdude,
                },
            ),
        ),
        None => after_program(request, port),
    }
}

/// With the reset behind: a given port is taken as it is; otherwise the
/// devices are listed, unless the board cannot be detected at all.
pub open spec fn after_reset(request: RequestView, board: KnownBoard) -> (StateView, ActionView) {
    match request.port {
        Some(port) => after_port(request, board, port),
        None => match profile_of(board).allow_list {
            Some(_) => (StateView::AwaitingDevices(board), ActionView::ListDevices),
            None => failed(Error::PortUnsupported),
        },
    }
}

/// With the device list: the board's port is resolved from it.
pub open spec fn after_devices(
    request: RequestView,
    board: KnownBoard,
    devices: Seq<SerialDevice>,
) -> (StateView, ActionView) {
    match resolve_port(profile_of(board).allow_list, devices) {
        PortGuessView::Resolved(port) => after_port(request, board, port),
        PortGuessView::NotFound => failed(Error::PortNotFound),
        PortGuessView::Unsupported => failed(Error::PortUnsupported),
    }
}

/// With the tool's version: the version gate, the board lookup, and the
/// reset handling. A delay replaces the confirmation, and a delay of zero
/// skips the wait.
pub open spec fn after_tool_version(request: RequestView, version: Option<(u8, u8)>) -> (
    StateView,
    ActionView,
) {
    match version_gate(version, MIN_VERSION_AVRDUDE) {
        Err(error) => failed(error),
        Ok(_) => match lookup(request.board) {
            None => failed(Error::UnknownBoard),
            Some(board) => match request.reset_delay {
                Some(ms) => if ms > 0 {
                    (StateView::AwaitingReset(board), ActionView::Sleep(ms))
                } else {
                    after_reset(request, board)
                },
                None => match profile_of(board).reset_requirement {
                    Some(text) => (
                        StateView::AwaitingReset(board),
                        ActionView::AwaitConfirmation(text),
                    ),
                    None => after_reset(request, board),
                },
            },
        },
    }
}

/// The transition function. The two final states absorb every event; an
/// event that a waiting state does not wait for fails the run.
pub open spec fn next(request: RequestView, state: StateView, event: Event) -> (
    StateView,
    ActionView,
) {
    match state {
        StateView::Succeeded => (
            StateView::Succeeded,
            ActionView::Finish { suggest_console: false },
        ),
        StateView::Failed(error) => failed(error),
        StateView::AwaitingToolVersion => match event {
            Event::ToolVersion(version) => after_tool_version(request, version),
            _ => failed(Error::UnexpectedEvent),
        },
        StateView::AwaitingReset(board) => match event {
            Event::ResetDone => after_reset(request, board),
            _ => failed(Error::UnexpectedEvent),
        },
        StateView::AwaitingDevices(board) => match event {
            Event::Devices(devices) => after_devices(request, board, devices@),
            _ => failed(Error::UnexpectedEvent),
        },
        StateView::AwaitingProgrammer { port } => match event {
            Event::ProgrammerNotStarted => failed(Error::SpawnFailed),
            Event::ProgrammerKilled => failed(Error::ProgrammerKilled),
            Event::ProgrammerExited(code) => match exit_outcome(code) {
                Ok(_) => after_program(request, port),
                Err(error) => failed(error),
            },
            _ => failed(Error::UnexpectedEvent),
        },
        StateView::AwaitingConsole => match event {
            Event::ConsoleClosed => (
                StateView::Succeeded,
                ActionView::Finish { suggest_console: false },
            ),
            Event::ConsoleFailed => failed(Error::ConsoleFailed),
            _ => failed(Error::UnexpectedEvent),
        },
    }
}

/// Whether a step's result is what the transition function gives.
pub open spec fn is_step(result: (State, Action), expected: (StateView, ActionView)) -> bool {
    result.0@ == expected.0 && result.1@ == expected.1
}

fn fail(error: Error) -> (result: (State, Action))
    ensures
        is_step(result, failed(error)),
{
    (State::Failed(error), Action::Fail(error))
}

/// A run begins by asking for the programmer tool's version.
pub fn start() -> (result: (State, Action))
    ensures
        result.0@ == StateView::AwaitingToolVersion,
        result.1@ == ActionView::DetectToolVersion,
{
    (State::AwaitingToolVersion, Action::DetectToolVersion)
}

/// The console stage of a run on `port`.
pub fn console_stage(request: &Request, port: &str) -> (result: (State, Action))
    ensures
        is_step(result, after_program(request@, port@)),
{
    if request.open_console {
        match prepare(request.baudrate, Some(port)) {
            Ok(config) => (State::AwaitingConsole, Action::OpenConsole(config)),
            Err(error) => fail(error),
        }
    } else {
        (State::Succeeded, Action::Finish { suggest_console: request.binary.is_none() })
    }
}

/// The programming stage of a run on `port`.
pub fn program_stage(request: &Request, board: KnownBoard, port: &str) -> (result: (State, Action))
    ensures
        is_step(result, after_port(request@, board, port@)),
{
    match &request.binary {
        Some(firmware) => {
            let options = board.avrdude_options();
            let call = invocation(&options, Some(port), firmware.as_str(), request.debug_avrdude);
            (State::AwaitingProgrammer { port: port.to_owned() }, Action::RunProgrammer(call))
        },
        None => console_stage(request, port),
    }
}

/// The port stage of a run, before any device was listed.
pub fn port_stage(request: &Request, board: KnownBoard) -> (result: (State, Action))
    ensures
        is_step(result, after_reset(request@, board)),
{
    match &request.port {
        Some(port) => program_stage(request, board, port.as_str()),
        None => match board.allow_list() {
            Some(_) => (State::AwaitingDevices(board), Action::ListDevices),
            None => fail(Error::PortUnsupported),
        },
    }
}

/// The port stage of a run, with the listed devices.
pub fn resolve_stage(request: &Request, board: KnownBoard, devices: &[SerialDevice]) -> (result: (
    State,
    Action,
))
    ensures
        is_step(result, after_devices(request@, board, devices@)),
{
    match board.guess_port(devices) {
        PortGuess::Resolved(port) => program_stage(request, board, port.as_str()),
        PortGuess::NotFound => fail(Error::PortNotFound),
        PortGuess::Unsupported => fail(Error::PortUnsupported),
    }
}

/// The opening stage of a run: version gate, board lookup, reset handling.
pub fn opening_stage(request: &Request, version: Option<(u8, u8)>) -> (result: (State, Action))
    ensures
        is_step(result, after_tool_version(request@, version)),
{
    match require_min_ver(version, MIN_VERSION_AVRDUDE) {
        Err(error) => fail(error),
        Ok(_) => match get_board(request.board.as_str()) {
            None => fail(Error::UnknownBoard),
            Some(board) => match request.reset_delay {
                Some(ms) => {
                    if ms > 0 {
                        (State::AwaitingReset(board), Action::Sleep(ms))
                    } else {
                        port_stage(request, board)
                    }
                },
                None => match board.needs_reset() {
                    Some(text) => (
                        State::AwaitingReset(board),
                        Action::AwaitConfirmation(text.to_owned()),
                    ),
                    None => port_stage(request, board),
                },
            },
        },
    }
}

/// One step of a run: from the state and the observed event to the next state
/// and the action to perform.
pub fn step(request: &Request, state: State, event: Event) -> (result: (State, Action))
    ensures
        is_step(result, next(request@, state@, event)),
{
    match state {
        State::Succeeded => (State::Succeeded, Action::Finish { suggest_console: false }),
        State::Failed(error) => fail(error),
        State::AwaitingToolVersion => match event {
            Event::ToolVersion(version) => opening_stage(request, version),
            _ => fail(Error::UnexpectedEvent),
        },
        State::AwaitingReset(board) => match event {
            Event::ResetDone => port_stage(request, board),
            _ => fail(Error::UnexpectedEvent),
        },
        State::AwaitingDevices(board) => match event {
            Event::Devices(devices) => resolve_stage(request, board, devices.as_slice()),
            _ => fail(Error::UnexpectedEvent),
        },
        State::AwaitingProgrammer { port } => match event {
            Event::ProgrammerNotStarted => fail(Error::SpawnFailed),
            Event::ProgrammerKilled => fail(Error::ProgrammerKilled),
            Event::ProgrammerExited(code) => match classify_exit(code) {
                Ok(_) => console_stage(request, port.as_str()),
                Err(error) => fail(error),
            },
            _ => fail(Error::UnexpectedEvent),
        },
        State::AwaitingConsole => match event {
            Event::ConsoleClosed => (State::Succeeded, Action::Finish { suggest_console: false }),
            Event::ConsoleFailed => fail(Error::ConsoleFailed),
            _ => fail(Error::UnexpectedEvent),
        },
    }
}

/// The actions a run answers with, one per event, from `state` on.
pub open spec fn actions_of(request: RequestView, state: StateView, events: Seq<Event>) -> Seq<
    ActionView,
>
    decreases events.len(),
{
    if events.len() == 0 {
        Seq::empty()
    } else {
        let (after, action) = next(request, state, events[0]);
        seq![action] + actions_of(request, after, events.drop_first())
    }
}

/// A failed run stays failed: whatever events follow, every answer is the
/// same failure.
pub proof fn lemma_failure_is_final(request: RequestView, error: Error, events: Seq<Event>)
    ensures
        actions_of(request, StateView::Failed(error), events).len() == events.len(),
        forall|i: int|
            0 <= i < events.len() ==> #[trigger] actions_of(
                request,
                StateView::Failed(error),
                events,
            )[i] == ActionView::Fail(error),
    decreases events.len(),
{
    if events.len() > 0 {
        lemma_failure_is_final(request, error, events.drop_first());
    }
}

/// With a programmer tool that is missing or older than the minimum, a run
/// fails at its first step and never asks for the programmer to be run,
/// whatever the request is and whatever events follow.
pub proof fn lemma_old_tool_never_runs(
    request: RequestView,
    version: Option<(u8, u8)>,
    later: Seq<Event>,
)
    requires
        version matches Some(found) ==> !version_at_least(found, MIN_VERSION_AVRDUDE),
    ensures
        next(request, StateView::AwaitingToolVersion, Event::ToolVersion(version)).0 is Failed,
        version matches Some(found) ==> next(
            request,
            StateView::AwaitingToolVersion,
            Event::ToolVersion(version),
        ) == failed(Error::ToolVersionTooOld { major: found.0, minor: found.1 }),
        forall|i: int|
            0 <= i <= later.len() ==> !(#[trigger] actions_of(
                request,
                StateView::AwaitingToolVersion,
                seq![Event::ToolVersion(version)] + later,
            )[i] is RunProgrammer),
{
    let events = seq![Event::ToolVersion(version)] + later;
    let error = version_gate(version, MIN_VERSION_AVRDUDE)->Err_0;
    assert(events[0] == Event::ToolVersion(version));
    assert(events.drop_first() =~= later);
    lemma_failure_is_final(request, error, later);
    let all = actions_of(request, StateView::AwaitingToolVersion, events);
    assert(all == seq![ActionView::Fail(error)] + actions_of(
        request,
        StateView::Failed(error),
        later,
    ));
    assert forall|i: int| 0 <= i <= later.len() implies !(#[trigger] all[i] is RunProgrammer) by {
        if i > 0 {
            assert(all[i] == actions_of(request, StateView::Failed(error), later)[i - 1]);
        }
    }
}

/// The console is opened exactly when it was asked for and a baud rate was
/// given; asked for without one, the run fails for want of it.
pub proof fn lemma_console_opens_with_baud_rate(request: RequestView, port: Seq<char>)
    ensures
        after_program(request, port).1 is OpenConsole <==> (request.open_console
            && request.baudrate is Some),
        request.open_console && request.baudrate is None ==> after_program(request, port)
            == failed(Error::MissingBaudRate),
        request.open_console && request.baudrate is Some ==> after_program(request, port).1
            == ActionView::OpenConsole(
            ConsoleConfigView { port, baudrate: request.baudrate->0 },
        ),
{
}

/// A reset delay always takes the place of the operator's confirmation: no
/// first step with a delay asks for one, and with a delay of zero the run
/// goes on to the port at once.
pub proof fn lemma_delay_replaces_confirmation(request: RequestView, version: Option<(u8, u8)>)
    requires
        request.reset_delay is Some,
    ensures
        !(after_tool_version(request, version).1 is AwaitConfirmation),
        request.reset_delay == Some(0u64) ==> !(after_tool_version(request, version).1 is Sleep),
        (request.reset_delay == Some(0u64) && version_gate(version, MIN_VERSION_AVRDUDE) is Ok
            && lookup(request.board) is Some) ==> after_tool_version(request, version)
            == after_reset(request, lookup(request.board)->0),
{
}

/// A board without an allow-list never has the devices listed: with a given
/// port the run goes on with that port, and without one it fails at once.
pub proof fn lemma_unsupported_board_never_lists(request: RequestView, board: KnownBoard)
    requires
        profile_of(board).allow_list is None,
    ensures
        !(after_reset(request, board).1 is ListDevices),
        request.port is None ==> after_reset(request, board) == failed(Error::PortUnsupported),
        request.port matches Some(port) ==> after_reset(request, board) == after_port(
            request,
            board,
            port,
        ),
{
}

/// What each action presupposes, from whatever state and on whatever event:
/// the programmer is run only for a request with a binary, the console is
/// opened only on request and with the given baud rate, and a step ends in
/// the failed state exactly when its action reports that failure.
pub proof fn lemma_actions_are_asked_for(request: RequestView, state: StateView, event: Event)
    ensures
        next(request, state, event).1 matches ActionView::RunProgrammer(call) ==> request.binary
            == Some(call.firmware) && call.echo == request.debug_avrdude && call.port is Some,
        next(request, state, event).1 matches ActionView::OpenConsole(config) ==> request.open_console
            && request.baudrate == Some(config.baudrate),
        next(request, state, event).0 matches StateView::Failed(error) <==> next(
            request,
            state,
            event,
        ).1 is Fail,
        next(request, state, event).0 matches StateView::Failed(error) ==> next(
            request,
            state,
            event,
        ).1 == ActionView::Fail(error),
{
}

/// How far a run has come.
pub open spec fn stage_of(state: StateView) -> nat {
    match state {
        StateView::AwaitingToolVersion => 0,
        StateView::AwaitingReset(_) => 1,
        StateView::AwaitingDevices(_) => 2,
        StateView::AwaitingProgrammer { .. } => 3,
        StateView::AwaitingConsole => 4,
        StateView::Succeeded | StateView::Failed(_) => 5,
    }
}

/// The stages follow one another strictly: every step of a run that is not
/// over moves it to a later stage, so a run is over after five events at
/// most; and a run that is over stays as it is.
pub proof fn lemma_steps_advance(request: RequestView, state: StateView, event: Event)
    ensures
        stage_of(state) < 5 ==> stage_of(next(request, state, event).0) > stage_of(state),
        stage_of(state) == 5 ==> next(request, state, event).0 == state,
{
}

/// The programmer is run at most once: once a run waits for the programmer,
/// no later step asks for it again, whatever events follow.
pub proof fn lemma_programmer_runs_once(request: RequestView, state: StateView, events: Seq<Event>)
    requires
        stage_of(state) >= 3,
    ensures
        actions_of(request, state, events).len() == events.len(),
        forall|i: int|
            0 <= i < events.len() ==> !(#[trigger] actions_of(request, state, events)[i]
                is RunProgrammer),
    decreases events.len(),
{
    if events.len() > 0 {
        let (after, action) = next(request, state, events[0]);
        lemma_steps_advance(request, state, events[0]);
        lemma_programmer_runs_once(request, after, events.drop_first());
        let rest = actions_of(request, after, events.drop_first());
        assert(actions_of(request, state, events) == seq![action] + rest);
        assert forall|i: int| 0 <= i < events.len() implies !(#[trigger] actions_of(
            request,
            state,
            events,
        )[i] is RunProgrammer) by {
            if i > 0 {
                assert(actions_of(request, state, events)[i] == rest[i - 1]);
            }
        }
    }
}

} // verus!
