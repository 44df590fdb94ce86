use waterman::avrdude::{invocation, render_decimal, AvrdudeOptions};
use waterman::board::{Board, KnownBoard};
use waterman::version::parse_version;

#[test]
fn version_is_read_from_the_tool_report() {
    let report = b"Usage: avrdude [options]\n\navrdude version 6.3, URL: <http://savannah.nongnu.org/projects/avrdude/>\n";
    assert_eq!(parse_version(report), Some((6, 3)));
}

#[test]
fn version_may_carry_a_suffix() {
    assert_eq!(parse_version(b"avrdude version 6.3-20171130"), Some((6, 3)));
    assert_eq!(parse_version(b"version 7.1.2"), Some((7, 1)));
    assert_eq!(parse_version(b"version 10.12"), Some((10, 12)));
}

#[test]
fn version_spaces_and_leading_zeros() {
    assert_eq!(parse_version(b"version6.3"), Some((6, 3)));
    assert_eq!(parse_version(b"version    006.010"), Some((6, 10)));
    assert_eq!(parse_version(b"version 0.0"), Some((0, 0)));
    assert_eq!(parse_version(b"version 255.255"), Some((255, 255)));
}

#[test]
fn version_behind_the_last_marker_counts() {
    assert_eq!(parse_version(b"version 5.1\nversion 6.4\n"), Some((6, 4)));
    assert_eq!(parse_version(b"version 6.3 version"), None);
    assert_eq!(parse_version(b"version 6.3 version x"), None);
}

#[test]
fn version_needs_marker_both_numbers_and_the_dot() {
    assert_eq!(parse_version(b""), None);
    assert_eq!(parse_version(b"6.3"), None);
    assert_eq!(parse_version(b"versio 6.3"), None);
    assert_eq!(parse_version(b"Version 6.3"), None);
    assert_eq!(parse_version(b"version"), None);
    assert_eq!(parse_version(b"version 6"), None);
    assert_eq!(parse_version(b"version 6."), None);
    assert_eq!(parse_version(b"version .3"), None);
    assert_eq!(parse_version(b"version 6,3"), None);
    assert_eq!(parse_version(b"version\t6.3"), None);
    assert_eq!(parse_version(b"version 6. 3"), None);
}

#[test]
fn version_numbers_must_fit_in_a_byte() {
    assert_eq!(parse_version(b"version 256.0"), None);
    assert_eq!(parse_version(b"version 6.256"), None);
    assert_eq!(parse_version(b"version 6.300"), None);
    assert_eq!(parse_version(b"version 99999999999999999999999.1"), None);
    assert_eq!(parse_version(b"version 0000000000000000000000006.1"), Some((6, 1)));
}

#[test]
fn decimal_rendering() {
    assert_eq!(render_decimal(0), "0");
    assert_eq!(render_decimal(7), "7");
    assert_eq!(render_decimal(10), "10");
    assert_eq!(render_decimal(57600), "57600");
    assert_eq!(render_decimal(115200), "115200");
    assert_eq!(render_decimal(1234567890), "1234567890");
    assert_eq!(render_decimal(u32::MAX), "4294967295");
}

#[test]
fn arguments_for_an_uno() {
    let call = invocation(&KnownBoard::ArduinoUno.avrdude_options(), Some("/dev/ttyACM0"), "blink.elf", false);
    assert_eq!(
        call.arguments(),
        vec!["-c", "arduino", "-p", "atmega328p", "-P", "/dev/ttyACM0", "-e", "-D", "-U", "flash:w:blink.elf:e"]
    );
}

#[test]
fn arguments_for_a_mega() {
    let call = invocation(&KnownBoard::ArduinoMega2560.avrdude_options(), Some("COM3"), "a b.hex", true);
    assert_eq!(
        call.arguments(),
        vec!["-c", "wiring", "-p", "atmega2560", "-P", "COM3", "-b", "115200", "-D", "-U", "flash:w:a b.hex:e"]
    );
}

#[test]
fn arguments_without_port_baud_rate_or_erase() {
    let options = AvrdudeOptions {
        programmer: "usbasp",
        partno: "attiny85",
        baudrate: None,
        do_chip_erase: false,
    };
    let call = invocation(&options, None, "fw.bin", false);
    assert_eq!(call.arguments(), vec!["-c", "usbasp", "-p", "attiny85", "-D", "-U", "flash:w:fw.bin:e"]);
}

#[test]
fn arguments_with_everything() {
    let call = invocation(&KnownBoard::ArduinoNano.avrdude_options(), Some("/dev/ttyUSB0"), "x", false);
    assert_eq!(
        call.arguments(),
        vec!["-c", "arduino", "-p", "atmega328p", "-P", "/dev/ttyUSB0", "-b", "57600", "-e", "-D", "-U", "flash:w:x:e"]
    );
}
