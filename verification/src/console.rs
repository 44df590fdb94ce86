//! Console session preconditions.

use crate::error::Error;
use vstd::prelude::*;

verus! {

/// What a console session is opened with.
#[derive(Clone, Debug, PartialEq, Eq)]
pub struct ConsoleConfig {
    pub port: String,
    pub baudrate: u32,
}

/// Mathematical content of [`ConsoleConfig`].
pub struct ConsoleConfigView {
    pub port: Seq<char>,
    pub baudrate: u32,
}

impl View for ConsoleConfig {
    type V = ConsoleConfigView;

    open spec fn view(&self) -> ConsoleConfigView {
        ConsoleConfigView { port: self.port@, baudrate: self.baudrate }
    }
}

/// A console needs a baud rate and a port. The baud rate is asked for first.
pub open spec fn console_gate(baudrate: Option<u32>, port: Option<Seq<char>>) -> Result<
    ConsoleConfigView,
    Error,
> {
    match (baudrate, port) {
        (None, _) => Err(Error::MissingBaudRate),
        (Some(_), None) => Err(Error::NoPortForConsole),
        (Some(rate), Some(path)) => Ok(ConsoleConfigView { port: path, baudrate: rate }),
    }
}

/// Decides whether a console session may start, and with what.
pub fn prepare(baudrate: Option<u32>, port: Option<&str>) -> (start: Result<ConsoleConfig, Error>)
    ensures
        match start {
            Ok(config) => console_gate(
                baudrate,
                match port {
                    Some(path) => Some(path@),
                    None => None,
                },
            ) == Ok::<ConsoleConfigView, Error>(config@),
            Err(error) => console_gate(
                baudrate,
                match port {
                    Some(path) => Some(path@),
                    None => None,
                },
            ) == Err::<ConsoleConfigView, Error>(error),
        },
{
    match baudrate {
        None => Err(Error::MissingBaudRate),
        Some(rate) => match port {
            None => Err(Error::NoPortForConsole),
            Some(path) => Ok(ConsoleConfig { port: path.to_owned(), baudrate: rate }),
        },
    }
}

/// A console starts exactly when both a baud rate and a port are there.
pub proof fn lemma_console_needs_both(baudrate: Option<u32>, port: Option<Seq<char>>)
    ensures
        console_gate(baudrate, port) is Ok <==> (baudrate is Some && port is Some),
        baudrate is None ==> console_gate(baudrate, port) == Err::<ConsoleConfigView, Error>(
            Error::MissingBaudRate,
        ),
        baudrate is Some && port is None ==> console_gate(baudrate, port) == Err::<
            ConsoleConfigView,
            Error,
        >(Error::NoPortForConsole),
{
}

} // verus!
