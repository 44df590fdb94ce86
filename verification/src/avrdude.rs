//! Programmer session rules: tool version gate, invocation, exit classification.

use crate::error::Error;
use vstd::prelude::*;
use vstd::string::StringExecFns;

verus! {

/// Oldest programmer tool release that may be used for flashing.
pub const MIN_VERSION_AVRDUDE: (u8, u8) = (6, 3);

/// Fixed per-board settings handed to the programmer tool.
#[derive(Clone, Copy, Debug, PartialEq, Eq)]
pub struct AvrdudeOptions {
    pub programmer: &'static str,
    pub partno: &'static str,
    pub baudrate: Option<u32>,
    pub do_chip_erase: bool,
}

/// Mathematical content of [`AvrdudeOptions`].
pub struct AvrdudeOptionsView {
    pub programmer: Seq<char>,
    pub partno: Seq<char>,
    pub baudrate: Option<u32>,
    pub do_chip_erase: bool,
}

impl View for AvrdudeOptions {
    type V = AvrdudeOptionsView;

    open spec fn view(&self) -> AvrdudeOptionsView {
        AvrdudeOptionsView {
            programmer: self.programmer@,
            partno: self.partno@,
            baudrate: self.baudrate,
            do_chip_erase: self.do_chip_erase,
        }
    }
}

/// Lexicographic order on (major, minor).
pub open spec fn version_at_least(found: (u8, u8), required: (u8, u8)) -> bool {
    found.0 > required.0 || (found.0 == required.0 && found.1 >= required.1)
}

/// The version gate: a missing tool and a tool older than `required` are
/// refused, each with its own error.
pub open spec fn version_gate(detected: Option<(u8, u8)>, required: (u8, u8)) -> Result<
    (),
    Error,
> {
    match detected {
        None => Err(Error::ToolMissing),
        Some(found) => if version_at_least(found, required) {
            Ok(())
        } else {
            Err(Error::ToolVersionTooOld { major: found.0, minor: found.1 })
        },
    }
}

/// Checks the version the tool reported (`None`: it reported none) against
/// the required minimum.
pub fn require_min_ver(detected: Option<(u8, u8)>, required: (u8, u8)) -> (verdict: Result<
    (),
    Error,
>)
    ensures
        verdict == version_gate(detected, required),
{
    match detected {
        None => Err(Error::ToolMissing),
        Some(found) => {
            if found.0 > required.0 || (found.0 == required.0 && found.1 >= required.1) {
                Ok(())
            } else {
                Err(Error::ToolVersionTooOld { major: found.0, minor: found.1 })
            }
        },
    }
}

/// The minimum is release 6.3: a reported version passes exactly when it is
/// 6.3 or later, and a tool that reports none never passes.
pub proof fn lemma_minimum_version(detected: Option<(u8, u8)>)
    ensures
        version_gate(detected, MIN_VERSION_AVRDUDE) is Ok <==> (detected matches Some(found)
            && (found.0 > 6 || (found.0 == 6 && found.1 >= 3))),
        version_gate(detected, MIN_VERSION_AVRDUDE) is Err <==> (detected is None || (
        detected matches Some(found) && (found.0 < 6 || (found.0 == 6 && found.1 < 3)))),
{
}

/// One run of the programmer tool, fully described.
#[derive(Clone, Debug, PartialEq, Eq)]
pub struct Invocation {
    pub options: AvrdudeOptions,
    /// The serial port to program over, where one is known.
    pub port: Option<String>,
    /// Path of the firmware image.
    pub firmware: String,
    /// Whether the command line is shown to the operator before it runs.
    pub echo: bool,
}

/// Mathematical content of [`Invocation`].
pub struct InvocationView {
    pub options: AvrdudeOptionsView,
    pub port: Option<Seq<char>>,
    pub firmware: Seq<char>,
    pub echo: bool,
}

impl View for Invocation {
    type V = InvocationView;

    open spec fn view(&self) -> InvocationView {
        InvocationView {
            options: self.options@,
            port: match self.port {
                Some(path) => Some(path@),
                None => None,
            },
            firmware: self.firmware@,
            echo: self.echo,
        }
    }
}

/// Builds the programmer invocation from the board's options, the port, the
/// firmware path and the debug switch.
pub fn invocation(options: &AvrdudeOptions, port: Option<&str>, bin: &str, debug: bool) -> (call:
    Invocation)
    ensures
        call@ == (InvocationView {
            options: options@,
            port: match port {
                Some(path) => Some(path@),
                None => None,
            },
            firmware: bin@,
            echo: debug,
        }),
{
    let port = match port {
        Some(path) => Some(path.to_owned()),
        None => None,
    };
    Invocation { options: *options, port, firmware: bin.to_owned(), echo: debug }
}

/// How an exit code is read: zero is success, anything else a failure that
/// carries the code.
pub open spec fn exit_outcome(code: i32) -> Result<(), Error> {
    if code == 0 {
        Ok(())
    } else {
        Err(Error::ProgrammingFailed(code))
    }
}

/// Classifies the exit code of a finished programmer process.
pub fn classify_exit(code: i32) -> (outcome: Result<(), Error>)
    ensures
        outcome == exit_outcome(code),
{
    if code == 0 {
        Ok(())
    } else {
        Err(Error::ProgrammingFailed(code))
    }
}

/// The character of a decimal digit.
pub open spec fn digit_char(digit: nat) -> char {
    if digit == 0 {
        '0'
    } else if digit == 1 {
        '1'
    } else if digit == 2 {
        '2'
    } else if digit == 3 {
        '3'
    } else if digit == 4 {
        '4'
    } else if digit == 5 {
        '5'
    } else if digit == 6 {
        '6'
    } else if digit == 7 {
        '7'
    } else if digit == 8 {
        '8'
    } else {
        '9'
    }
}

/// A number written in base ten, without sign or leading zeros.
pub open spec fn decimal_text(n: nat) -> Seq<char>
    decreases n,
{
    if n < 10 {
        seq![digit_char(n)]
    } else {
        decimal_text(n / 10).push(digit_char(n % 10))
    }
}

fn digit_text(digit: u32) -> (text: &'static str)
    requires
        digit < 10,
    ensures
        text@ == seq![digit_char(digit as nat)],
{
    proof {
        reveal_strlit("0");
        reveal_strlit("1");
        reveal_strlit("2");
        reveal_strlit("3");
        reveal_strlit("4");
        reveal_strlit("5");
        reveal_strlit("6");
        reveal_strlit("7");
        reveal_strlit("8");
        reveal_strlit("9");
    }
    let text = if digit == 0 {
        "0"
    } else if digit == 1 {
        "1"
    } else if digit == 2 {
        "2"
    } else if digit == 3 {
        "3"
    } else if digit == 4 {
        "4"
    } else if digit == 5 {
        "5"
    } else if digit == 6 {
        "6"
    } else if digit == 7 {
        "7"
    } else if digit == 8 {
        "8"
    } else {
        "9"
    };
    assert(text@ =~= seq![digit_char(digit as nat)]);
    text
}

/// Writes a number in base ten.
pub fn render_decimal(n: u32) -> (text: String)
    ensures
        text@ == decimal_text(n as nat),
    decreases n,
{
    if n < 10 {
        digit_text(n).to_owned()
    } else {
        let head = render_decimal(n / 10);
        let text = head.concat(digit_text(n % 10));
        assert(text@ =~= decimal_text((n / 10) as nat).push(digit_char((n % 10) as nat)));
        text
    }
}

/// The characters of each string of a list.
pub open spec fn texts(list: Seq<String>) -> Seq<Seq<char>> {
    Seq::new(list.len(), |i: int| list[i]@)
}

/// The programmer tool's command line for an invocation: programmer and part,
/// the port if there is one, the baud rate if the board overrides it, the
/// chip-erase switch if the board asks for it, and the instruction to write
/// the firmware to flash without the tool's automatic erase.
pub open spec fn argument_list(call: InvocationView) -> Seq<Seq<char>> {
    let base = Seq::<Seq<char>>::empty().push("-c"@).push(call.options.programmer).push(
        "-p"@,
    ).push(call.options.partno);
    let with_port = match call.port {
        Some(port) => base.push("-P"@).push(port),
        None => base,
    };
    let with_baud = match call.options.baudrate {
        Some(rate) => with_port.push("-b"@).push(decimal_text(rate as nat)),
        None => with_port,
    };
    let with_erase = if call.options.do_chip_erase {
        with_baud.push("-e"@)
    } else {
        with_baud
    };
    with_erase.push("-D"@).push("-U"@).push("flash:w:"@ + call.firmware + ":e"@)
}

fn push_text(list: &mut Vec<String>, text: &str)
    ensures
        texts(final(list)@) == texts(old(list)@).push(text@),
{
    list.push(text.to_owned());
    assert(texts(list@) =~= texts(old(list)@).push(text@));
}

impl Invocation {
    /// The arguments to start the programmer tool with.
    pub fn arguments(&self) -> (args: Vec<String>)
        ensures
            texts(args@) == argument_list(self@),
    {
        let mut args: Vec<String> = Vec::new();
        assert(texts(args@) =~= Seq::<Seq<char>>::empty());
        push_text(&mut args, "-c");
        push_text(&mut args, self.options.programmer);
        push_text(&mut args, "-p");
        push_text(&mut args, self.options.partno);
        match &self.port {
            Some(port) => {
                push_text(&mut args, "-P");
                push_text(&mut args, port.as_str());
            },
            None => {},
        }
        match self.options.baudrate {
            Some(rate) => {
                push_text(&mut args, "-b");
                let rate_text = render_decimal(rate);
                push_text(&mut args, rate_text.as_str());
            },
            None => {},
        }
        if self.options.do_chip_erase {
            push_text(&mut args, "-e");
        }
        push_text(&mut args, "-D");
        push_text(&mut args, "-U");
        let write = "flash:w:".to_owned().concat(self.firmware.as_str()).concat(":e");
        push_text(&mut args, write.as_str());
        args
    }
}

} // verus!
