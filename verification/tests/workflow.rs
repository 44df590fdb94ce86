use waterman::avrdude::{AvrdudeOptions, Invocation};
use waterman::board::{KnownBoard, SerialDevice};
use waterman::console::ConsoleConfig;
use waterman::error::Error;
use waterman::workflow::{start, step, Action, Event, Request, State};

fn request(board: &str) -> Request {
    Request {
        board: board.to_string(),
        binary: None,
        port: None,
        baudrate: None,
        open_console: false,
        reset_delay: None,
        debug_avrdude: false,
    }
}

fn usb(path: &str, vid: u16, pid: u16) -> SerialDevice {
    SerialDevice { port_name: path.to_string(), usb_id: Some((vid, pid)) }
}

fn good_tool() -> Event {
    Event::ToolVersion(Some((6, 3)))
}

#[test]
fn a_run_starts_with_the_tool_version() {
    assert_eq!(start(), (State::AwaitingToolVersion, Action::DetectToolVersion));
}

#[test]
fn an_uno_is_resolved_flashed_once_and_succeeds() {
    let mut req = request("uno");
    req.binary = Some("blink.elf".to_string());
    let (state, action) = start();
    assert_eq!(action, Action::DetectToolVersion);
    let (state, action) = step(&req, state, good_tool());
    assert_eq!(state, State::AwaitingDevices(KnownBoard::ArduinoUno));
    assert_eq!(action, Action::ListDevices);
    let devices = vec![
        SerialDevice { port_name: "/dev/ttyS0".to_string(), usb_id: None },
        usb("/dev/ttyACM0", 0x2341, 0x0043),
    ];
    let (state, action) = step(&req, state, Event::Devices(devices));
    assert_eq!(state, State::AwaitingProgrammer { port: "/dev/ttyACM0".to_string() });
    assert_eq!(
        action,
        Action::RunProgrammer(Invocation {
            options: AvrdudeOptions {
                programmer: "arduino",
                partno: "atmega328p",
                baudrate: None,
                do_chip_erase: true,
            },
            port: Some("/dev/ttyACM0".to_string()),
            firmware: "blink.elf".to_string(),
            echo: false,
        })
    );
    let (state, action) = step(&req, state, Event::ProgrammerExited(0));
    assert_eq!(state, State::Succeeded);
    assert_eq!(action, Action::Finish { suggest_console: false });
}

#[test]
fn a_nano_without_port_fails_with_a_hint() {
    let mut req = request("nano");
    req.binary = Some("blink.elf".to_string());
    let (state, _) = start();
    let (state, action) = step(&req, state, good_tool());
    assert_eq!(state, State::Failed(Error::PortUnsupported));
    assert_eq!(action, Action::Fail(Error::PortUnsupported));
    let text = Error::PortUnsupported.message();
    assert!(text.contains("-P"));
    assert!(text.contains("WATERMAN_PORT"));
}

#[test]
fn a_niti_with_zero_delay_goes_straight_to_the_port() {
    let mut req = request("niti-v1");
    req.reset_delay = Some(0);
    let (state, _) = start();
    let (state, action) = step(&req, state, good_tool());
    assert_eq!(state, State::AwaitingDevices(KnownBoard::NitiV1));
    assert_eq!(action, Action::ListDevices);
}

#[test]
fn a_positive_delay_is_slept() {
    let mut req = request("mega2560");
    req.reset_delay = Some(1500);
    let (state, action) = step(&req, State::AwaitingToolVersion, good_tool());
    assert_eq!(state, State::AwaitingReset(KnownBoard::ArduinoMega2560));
    assert_eq!(action, Action::Sleep(1500));
    let (state, action) = step(&req, state, Event::ResetDone);
    assert_eq!(state, State::AwaitingDevices(KnownBoard::ArduinoMega2560));
    assert_eq!(action, Action::ListDevices);
}

#[test]
fn an_old_tool_stops_the_run_before_anything_else() {
    let mut req = request("uno");
    req.binary = Some("blink.elf".to_string());
    req.port = Some("/dev/ttyACM0".to_string());
    let (state, action) = step(&req, State::AwaitingToolVersion, Event::ToolVersion(Some((6, 2))));
    assert_eq!(state, State::Failed(Error::ToolVersionTooOld { major: 6, minor: 2 }));
    assert_eq!(action, Action::Fail(Error::ToolVersionTooOld { major: 6, minor: 2 }));
    let (state, action) = step(&req, state, Event::ProgrammerExited(0));
    assert_eq!(state, State::Failed(Error::ToolVersionTooOld { major: 6, minor: 2 }));
    assert_eq!(action, Action::Fail(Error::ToolVersionTooOld { major: 6, minor: 2 }));
}

#[test]
fn a_missing_tool_stops_the_run() {
    let req = request("uno");
    let (state, action) = step(&req, State::AwaitingToolVersion, Event::ToolVersion(None));
    assert_eq!(state, State::Failed(Error::ToolMissing));
    assert_eq!(action, Action::Fail(Error::ToolMissing));
}

#[test]
fn an_unknown_board_fails_before_any_further_action() {
    let mut req = request("due");
    req.port = Some("/dev/ttyACM0".to_string());
    req.binary = Some("blink.elf".to_string());
    let (state, action) = step(&req, State::AwaitingToolVersion, good_tool());
    assert_eq!(state, State::Failed(Error::UnknownBoard));
    assert_eq!(action, Action::Fail(Error::UnknownBoard));
}

#[test]
fn a_given_port_is_used_without_listing_devices() {
    let mut req = request("nano");
    req.port = Some("/dev/ttyUSB7".to_string());
    req.binary = Some("app.hex".to_string());
    req.debug_avrdude = true;
    let (state, action) = step(&req, State::AwaitingToolVersion, good_tool());
    assert_eq!(state, State::AwaitingProgrammer { port: "/dev/ttyUSB7".to_string() });
    assert_eq!(
        action,
        Action::RunProgrammer(Invocation {
            options: AvrdudeOptions {
                programmer: "arduino",
                partno: "atmega328p",
                baudrate: Some(57600),
                do_chip_erase: true,
            },
            port: Some("/dev/ttyUSB7".to_string()),
            firmware: "app.hex".to_string(),
            echo: true,
        })
    );
}

#[test]
fn no_matching_device_fails_the_run() {
    let req = request("uno");
    let devices = vec![usb("/dev/ttyUSB0", 0x0403, 0x6001)];
    let (state, action) =
        step(&req, State::AwaitingDevices(KnownBoard::ArduinoUno), Event::Devices(devices));
    assert_eq!(state, State::Failed(Error::PortNotFound));
    assert_eq!(action, Action::Fail(Error::PortNotFound));
}

#[test]
fn a_nonzero_exit_fails_with_its_code() {
    let mut req = request("uno");
    req.binary = Some("blink.elf".to_string());
    req.open_console = true;
    req.baudrate = Some(9600);
    let waiting = State::AwaitingProgrammer { port: "/dev/ttyACM0".to_string() };
    let (state, action) = step(&req, waiting, Event::ProgrammerExited(2));
    assert_eq!(state, State::Failed(Error::ProgrammingFailed(2)));
    assert_eq!(action, Action::Fail(Error::ProgrammingFailed(2)));
}

#[test]
fn a_programmer_that_did_not_start_or_was_killed_fails_the_run() {
    let mut req = request("uno");
    req.binary = Some("blink.elf".to_string());
    let waiting = State::AwaitingProgrammer { port: "/dev/ttyACM0".to_string() };
    let (state, _) = step(&req, waiting.clone(), Event::ProgrammerNotStarted);
    assert_eq!(state, State::Failed(Error::SpawnFailed));
    let (state, _) = step(&req, waiting, Event::ProgrammerKilled);
    assert_eq!(state, State::Failed(Error::ProgrammerKilled));
}

#[test]
fn the_console_opens_after_flashing() {
    let mut req = request("uno");
    req.binary = Some("blink.elf".to_string());
    req.open_console = true;
    req.baudrate = Some(57600);
    let waiting = State::AwaitingProgrammer { port: "/dev/ttyACM0".to_string() };
    let (state, action) = step(&req, waiting, Event::ProgrammerExited(0));
    assert_eq!(state, State::AwaitingConsole);
    assert_eq!(
        action,
        Action::OpenConsole(ConsoleConfig { port: "/dev/ttyACM0".to_string(), baudrate: 57600 })
    );
    let (state, action) = step(&req, state, Event::ConsoleClosed);
    assert_eq!(state, State::Succeeded);
    assert_eq!(action, Action::Finish { suggest_console: false });
}

#[test]
fn the_console_needs_a_baud_rate() {
    let mut req = request("uno");
    req.open_console = true;
    req.port = Some("/dev/ttyACM0".to_string());
    let (state, action) = step(&req, State::AwaitingToolVersion, good_tool());
    assert_eq!(state, State::Failed(Error::MissingBaudRate));
    assert_eq!(action, Action::Fail(Error::MissingBaudRate));
}

#[test]
fn a_console_error_fails_the_run() {
    let req = request("uno");
    let (state, action) = step(&req, State::AwaitingConsole, Event::ConsoleFailed);
    assert_eq!(state, State::Failed(Error::ConsoleFailed));
    assert_eq!(action, Action::Fail(Error::ConsoleFailed));
}

#[test]
fn a_port_without_binary_or_console_suggests_the_console() {
    let req = request("uno");
    let devices = vec![usb("/dev/ttyACM0", 0x2341, 0x0243)];
    let (state, action) =
        step(&req, State::AwaitingDevices(KnownBoard::ArduinoUno), Event::Devices(devices));
    assert_eq!(state, State::Succeeded);
    assert_eq!(action, Action::Finish { suggest_console: true });
}

#[test]
fn an_event_out_of_turn_fails_the_run() {
    let req = request("uno");
    let (state, action) = step(&req, State::AwaitingToolVersion, Event::ResetDone);
    assert_eq!(state, State::Failed(Error::UnexpectedEvent));
    assert_eq!(action, Action::Fail(Error::UnexpectedEvent));
    let (state, _) = step(&req, State::AwaitingConsole, Event::ProgrammerExited(0));
    assert_eq!(state, State::Failed(Error::UnexpectedEvent));
    let (state, _) =
        step(&req, State::AwaitingReset(KnownBoard::ArduinoUno), Event::Devices(Vec::new()));
    assert_eq!(state, State::Failed(Error::UnexpectedEvent));
}

#[test]
fn final_states_absorb_events() {
    let req = request("uno");
    let (state, action) = step(&req, State::Succeeded, good_tool());
    assert_eq!(state, State::Succeeded);
    assert_eq!(action, Action::Finish { suggest_console: false });
    let (state, action) = step(&req, State::Failed(Error::PortNotFound), Event::ResetDone);
    assert_eq!(state, State::Failed(Error::PortNotFound));
    assert_eq!(action, Action::Fail(Error::PortNotFound));
}
