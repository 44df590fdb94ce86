//! Board registry, board profiles and serial-port resolution.

use crate::avrdude::{AvrdudeOptions, AvrdudeOptionsView};
use vstd::prelude::*;

verus! {

/// A serial endpoint as the host reports it: its device path and, for USB
/// devices, the (vendor-id, product-id) pair.
#[derive(Clone, Debug, PartialEq, Eq)]
pub struct SerialDevice {
    pub port_name: String,
    pub usb_id: Option<(u16, u16)>,
}

/// Outcome of trying to find a board's port among the visible devices.
#[derive(Debug, PartialEq, Eq)]
pub enum PortGuess {
    /// A device on the board's allow-list was found; this is its path.
    Resolved(String),
    /// The board has an allow-list, and no visible device is on it.
    NotFound,
    /// The board family cannot be auto-detected.
    Unsupported,
}

/// Mathematical content of [`PortGuess`].
pub enum PortGuessView {
    Resolved(Seq<char>),
    NotFound,
    Unsupported,
}

impl View for PortGuess {
    type V = PortGuessView;

    open spec fn view(&self) -> PortGuessView {
        match self {
            PortGuess::Resolved(path) => PortGuessView::Resolved(path@),
            PortGuess::NotFound => PortGuessView::NotFound,
            PortGuess::Unsupported => PortGuessView::Unsupported,
        }
    }
}

/// The capability record of one supported board.
pub struct BoardProfile {
    pub identifier: Seq<char>,
    pub display_name: Seq<char>,
    /// Instruction for the operator when the board cannot reset itself.
    pub reset_requirement: Option<Seq<char>>,
    pub programmer: AvrdudeOptionsView,
    /// Known (vendor-id, product-id) pairs, or `None` when the board cannot be
    /// auto-detected.
    pub allow_list: Option<Seq<(u16, u16)>>,
}

/// The supported boards.
#[derive(Clone, Copy, Debug, PartialEq, Eq, Structural)]
pub enum KnownBoard {
    NitiV1,
    ArduinoUno,
    ArduinoNano,
    ArduinoMega2560,
}

/// USB identifiers of the boards that carry the "wiring" bootloader.
pub open spec fn wiring_ids() -> Seq<(u16, u16)> {
    seq![
        (0x2341u16, 0x0010u16),
        (0x2341u16, 0x0042u16),
        (0x2A03u16, 0x0010u16),
        (0x2A03u16, 0x0042u16),
        (0x2341u16, 0x0210u16),
        (0x2341u16, 0x0242u16),
    ]
}

/// USB identifiers of the Uno family.
pub open spec fn uno_ids() -> Seq<(u16, u16)> {
    seq![
        (0x2341u16, 0x0043u16),
        (0x2341u16, 0x0001u16),
        (0x2A03u16, 0x0043u16),
        (0x2341u16, 0x0243u16),
    ]
}

/// The registry: the profile of each supported board.
pub open spec fn profile_of(board: KnownBoard) -> BoardProfile {
    match board {
        KnownBoard::NitiV1 => BoardProfile {
            identifier: "niti-v1"@,
            display_name: "Niti Dev Board"@,
            reset_requirement: None,
            programmer: AvrdudeOptionsView {
                programmer: "wiring"@,
                partno: "atmega2560"@,
                baudrate: Some(115200u32),
                do_chip_erase: false,
            },
            allow_list: Some(wiring_ids()),
        },
        KnownBoard::ArduinoUno => BoardProfile {
            identifier: "uno"@,
            display_name: "Arduino Uno"@,
            reset_requirement: None,
            programmer: AvrdudeOptionsView {
                programmer: "arduino"@,
                partno: "atmega328p"@,
                baudrate: None,
                do_chip_erase: true,
            },
            allow_list: Some(uno_ids()),
        },
        KnownBoard::ArduinoNano => BoardProfile {
            identifier: "nano"@,
            display_name: "Arduino Nano"@,
            reset_requirement: None,
            programmer: AvrdudeOptionsView {
                programmer: "arduino"@,
                partno: "atmega328p"@,
                baudrate: Some(57600u32),
                do_chip_erase: true,
            },
            allow_list: None,
        },
        KnownBoard::ArduinoMega2560 => BoardProfile {
            identifier: "mega2560"@,
            display_name: "Arduino Mega 2560"@,
            reset_requirement: None,
            programmer: AvrdudeOptionsView {
                programmer: "wiring"@,
                partno: "atmega2560"@,
                baudrate: Some(115200u32),
                do_chip_erase: false,
            },
            allow_list: Some(wiring_ids()),
        },
    }
}

/// The board an identifier names, if any.
pub open spec fn lookup(identifier: Seq<char>) -> Option<KnownBoard> {
    if identifier == "niti-v1"@ {
        Some(KnownBoard::NitiV1)
    } else if identifier == "uno"@ {
        Some(KnownBoard::ArduinoUno)
    } else if identifier == "nano"@ {
        Some(KnownBoard::ArduinoNano)
    } else if identifier == "mega2560"@ {
        Some(KnownBoard::ArduinoMega2560)
    } else {
        None
    }
}

/// Whether a device reports a USB identifier that is on the allow-list.
pub open spec fn device_matches(device: SerialDevice, list: Seq<(u16, u16)>) -> bool {
    match device.usb_id {
        Some(id) => list.contains(id),
        None => false,
    }
}

/// Path of the first device at or after `start`, in enumeration order, that
/// is on the allow-list.
pub open spec fn first_match_from(
    devices: Seq<SerialDevice>,
    list: Seq<(u16, u16)>,
    start: int,
) -> Option<Seq<char>>
    decreases devices.len() - start,
{
    if start < 0 || start >= devices.len() {
        None
    } else if device_matches(devices[start], list) {
        Some(devices[start].port_name@)
    } else {
        first_match_from(devices, list, start + 1)
    }
}

/// What port resolution yields for a board's port hint and a device list.
pub open spec fn resolve_port(
    allow_list: Option<Seq<(u16, u16)>>,
    devices: Seq<SerialDevice>,
) -> PortGuessView {
    match allow_list {
        None => PortGuessView::Unsupported,
        Some(list) => match first_match_from(devices, list, 0) {
            Some(path) => PortGuessView::Resolved(path),
            None => PortGuessView::NotFound,
        },
    }
}

/// What every supported board can tell about itself.
pub trait Board {
    /// The board's capability record.
    spec fn profile(&self) -> BoardProfile;

    fn display_name(&self) -> (name: &str)
        ensures
            name@ == self.profile().display_name,
    ;

    fn needs_reset(&self) -> (instruction: Option<&str>)
        ensures
            match instruction {
                Some(text) => self.profile().reset_requirement == Some(text@),
                None => self.profile().reset_requirement is None,
            },
    ;

    fn avrdude_options(&self) -> (options: AvrdudeOptions)
        ensures
            options@ == self.profile().programmer,
    ;

    /// Picks the board's port from the devices the host currently shows. A
    /// board without an allow-list answers `Unsupported` whatever is shown.
    fn guess_port(&self, devices: &[SerialDevice]) -> (guess: PortGuess)
        ensures
            guess@ == resolve_port(self.profile().allow_list, devices@),
    ;
}

fn same_text(a: &str, b: &str) -> (same: bool)
    ensures
        same == (a@ == b@),
{
    let left = a.to_owned();
    let right = b.to_owned();
    left == right
}

/// Looks a board up by its identifier.
pub fn get_board(board: &str) -> (found: Option<KnownBoard>)
    ensures
        found == lookup(board@),
{
    if same_text(board, "niti-v1") {
        Some(KnownBoard::NitiV1)
    } else if same_text(board, "uno") {
        Some(KnownBoard::ArduinoUno)
    } else if same_text(board, "nano") {
        Some(KnownBoard::ArduinoNano)
    } else if same_text(board, "mega2560") {
        Some(KnownBoard::ArduinoMega2560)
    } else {
        None
    }
}

fn allow_list_contains(list: &[(u16, u16)], id: (u16, u16)) -> (present: bool)
    ensures
        present == list@.contains(id),
{
    let mut i: usize = 0;
    while i < list.len()
        invariant
            i <= list.len(),
            forall|k: int| 0 <= k < i ==> list@[k] != id,
        decreases list.len() - i,
    {
        if list[i].0 == id.0 && list[i].1 == id.1 {
            return true;
        }
        i = i + 1;
    }
    false
}

/// Returns the path of the first device, in enumeration order, whose USB
/// identifier is on `list`; `None` when no device is.
pub fn find_port_from_vid_pid_list(list: &[(u16, u16)], devices: &[SerialDevice]) -> (port: Option<
    String,
>)
    ensures
        match port {
            Some(path) => first_match_from(devices@, list@, 0) == Some(path@),
            None => first_match_from(devices@, list@, 0) is None,
        },
{
    let mut i: usize = 0;
    while i < devices.len()
        invariant
            i <= devices.len(),
            first_match_from(devices@, list@, 0) == first_match_from(devices@, list@, i as int),
        decreases devices.len() - i,
    {
        let matched = match devices[i].usb_id {
            Some(id) => allow_list_contains(list, id),
            None => false,
        };
        if matched {
            return Some(devices[i].port_name.clone());
        }
        i = i + 1;
    }
    None
}

impl KnownBoard {
    /// The allow-list of this board as a vector; `None` when the board cannot
    /// be auto-detected.
    pub fn allow_list(&self) -> (list: Option<Vec<(u16, u16)>>)
        ensures
            match list {
                Some(ids) => profile_of(*self).allow_list == Some(ids@),
                None => profile_of(*self).allow_list is None,
            },
    {
        match self {
            KnownBoard::NitiV1 | KnownBoard::ArduinoMega2560 => {
                let ids: Vec<(u16, u16)> = vec![
                    (0x2341u16, 0x0010u16),
                    (0x2341u16, 0x0042u16),
                    (0x2A03u16, 0x0010u16),
                    (0x2A03u16, 0x0042u16),
                    (0x2341u16, 0x0210u16),
                    (0x2341u16, 0x0242u16),
                ];
                assert(ids@ =~= wiring_ids());
                Some(ids)
            },
            KnownBoard::ArduinoUno => {
                let ids: Vec<(u16, u16)> = vec![
                    (0x2341u16, 0x0043u16),
                    (0x2341u16, 0x0001u16),
                    (0x2A03u16, 0x0043u16),
                    (0x2341u16, 0x0243u16),
                ];
                assert(ids@ =~= uno_ids());
                Some(ids)
            },
            KnownBoard::ArduinoNano => None,
        }
    }

    /// The identifier under which the registry knows this board.
    pub fn identifier(&self) -> (id: &'static str)
        ensures
            id@ == profile_of(*self).identifier,
    {
        match self {
            KnownBoard::NitiV1 => "niti-v1",
            KnownBoard::ArduinoUno => "uno",
            KnownBoard::ArduinoNano => "nano",
            KnownBoard::ArduinoMega2560 => "mega2560",
        }
    }
}

impl Board for KnownBoard {
    open spec fn profile(&self) -> BoardProfile {
        profile_of(*self)
    }

    fn display_name(&self) -> (name: &str) {
        match self {
            KnownBoard::NitiV1 => "Niti Dev Board",
            KnownBoard::ArduinoUno => "Arduino Uno",
            KnownBoard::ArduinoNano => "Arduino Nano",
            KnownBoard::ArduinoMega2560 => "Arduino Mega 2560",
        }
    }

    fn needs_reset(&self) -> (instruction: Option<&str>) {
        None
    }

    fn avrdude_options(&self) -> (options: AvrdudeOptions) {
        match self {
            KnownBoard::NitiV1 | KnownBoard::ArduinoMega2560 => AvrdudeOptions {
                programmer: "wiring",
                partno: "atmega2560",
                baudrate: Some(115200),
                do_chip_erase: false,
            },
            KnownBoard::ArduinoUno => AvrdudeOptions {
                programmer: "arduino",
                partno: "atmega328p",
                baudrate: None,
                do_chip_erase: true,
            },
            KnownBoard::ArduinoNano => AvrdudeOptions {
                programmer: "arduino",
                partno: "atmega328p",
                baudrate: Some(57600),
                do_chip_erase: true,
            },
        }
    }

    fn guess_port(&self, devices: &[SerialDevice]) -> (guess: PortGuess) {
        match self.allow_list() {
            None => PortGuess::Unsupported,
            Some(list) => match find_port_from_vid_pid_list(list.as_slice(), devices) {
                Some(path) => PortGuess::Resolved(path),
                None => PortGuess::NotFound,
            },
        }
    }
}

/// Every supported board is found under its own identifier, and its profile
/// carries a display name, a programmer name and a part number.
pub proof fn lemma_known_board_resolves(board: KnownBoard)
    ensures
        lookup(profile_of(board).identifier) == Some(board),
        profile_of(board).display_name.len() > 0,
        profile_of(board).programmer.programmer.len() > 0,
        profile_of(board).programmer.partno.len() > 0,
{
    reveal_strlit("niti-v1");
    reveal_strlit("uno");
    reveal_strlit("nano");
    reveal_strlit("mega2560");
    reveal_strlit("Niti Dev Board");
    reveal_strlit("Arduino Uno");
    reveal_strlit("Arduino Nano");
    reveal_strlit("Arduino Mega 2560");
    reveal_strlit("wiring");
    reveal_strlit("arduino");
    reveal_strlit("atmega2560");
    reveal_strlit("atmega328p");
    assert("niti-v1"@.len() == 7);
    assert("uno"@.len() == 3);
    assert("nano"@.len() == 4);
    assert("mega2560"@.len() == 8);
}

/// An identifier resolves to a board exactly when it is that board's
/// identifier; an identifier of no board resolves to nothing.
pub proof fn lemma_lookup_exact(identifier: Seq<char>, board: KnownBoard)
    ensures
        lookup(identifier) == Some(board) <==> profile_of(board).identifier == identifier,
        lookup(identifier) is None <==> (forall|b: KnownBoard| #[trigger]
            profile_of(b).identifier != identifier),
{
    lemma_known_board_resolves(KnownBoard::NitiV1);
    lemma_known_board_resolves(KnownBoard::ArduinoUno);
    lemma_known_board_resolves(KnownBoard::ArduinoNano);
    lemma_known_board_resolves(KnownBoard::ArduinoMega2560);
    if lookup(identifier) is None {
        assert forall|b: KnownBoard| #[trigger] profile_of(b).identifier != identifier by {
            lemma_known_board_resolves(b);
        }
    } else {
        let found = lookup(identifier)->0;
        assert(profile_of(found).identifier == identifier);
    }
}

/// The first match from `start` on is the path of a listed device that no
/// listed device precedes; there is none exactly when no device from `start`
/// on is listed.
pub proof fn lemma_first_match_is_earliest(
    devices: Seq<SerialDevice>,
    list: Seq<(u16, u16)>,
    start: int,
)
    requires
        0 <= start,
    ensures
        match first_match_from(devices, list, start) {
            Some(path) => exists|i: int|
                start <= i < devices.len() && device_matches(#[trigger] devices[i], list)
                    && devices[i].port_name@ == path && (forall|j: int|
                    start <= j < i ==> !device_matches(#[trigger] devices[j], list)),
            None => forall|j: int|
                start <= j < devices.len() ==> !device_matches(#[trigger] devices[j], list),
        },
    decreases devices.len() - start,
{
    if start < devices.len() {
        if device_matches(devices[start], list) {
            assert(start <= start < devices.len() && device_matches(devices[start], list));
        } else {
            lemma_first_match_from_step(devices, list, start);
        }
    }
}

proof fn lemma_first_match_from_step(devices: Seq<SerialDevice>, list: Seq<(u16, u16)>, start: int)
    requires
        0 <= start < devices.len(),
        !device_matches(devices[start], list),
    ensures
        match first_match_from(devices, list, start) {
            Some(path) => exists|i: int|
                start <= i < devices.len() && device_matches(#[trigger] devices[i], list)
                    && devices[i].port_name@ == path && (forall|j: int|
                    start <= j < i ==> !device_matches(#[trigger] devices[j], list)),
            None => forall|j: int|
                start <= j < devices.len() ==> !device_matches(#[trigger] devices[j], list),
        },
    decreases devices.len() - start, 0int,
{
    lemma_first_match_is_earliest(devices, list, start + 1);
    match first_match_from(devices, list, start + 1) {
        Some(path) => {
            let i = choose|i: int|
                start + 1 <= i < devices.len() && device_matches(#[trigger] devices[i], list)
                    && devices[i].port_name@ == path && (forall|j: int|
                    start + 1 <= j < i ==> !device_matches(#[trigger] devices[j], list));
            assert forall|j: int| start <= j < i implies !device_matches(
                #[trigger] devices[j],
                list,
            ) by {
                if j > start {
                    assert(start + 1 <= j < i);
                }
            }
            assert(start <= i < devices.len() && device_matches(devices[i], list));
        },
        None => {
            assert forall|j: int| start <= j < devices.len() implies !device_matches(
                #[trigger] devices[j],
                list,
            ) by {
                if j > start {
                    assert(start + 1 <= j < devices.len());
                }
            }
        },
    }
}

/// Port resolution in full: a board without an allow-list is
/// unsupported whatever the devices are; with an allow-list, a listed device
/// at `hit` that no listed device precedes gives that device's path; and a
/// device list without any listed device gives not-found.
pub proof fn lemma_resolve_port_cases(
    allow_list: Option<Seq<(u16, u16)>>,
    devices: Seq<SerialDevice>,
    hit: int,
)
    ensures
        allow_list is None ==> resolve_port(allow_list, devices) == PortGuessView::Unsupported,
        allow_list is Some ==> resolve_port(allow_list, devices) != PortGuessView::Unsupported,
        allow_list matches Some(list) ==> {
            &&& (exists|i: int| 0 <= i < devices.len() && device_matches(#[trigger] devices[i], list))
                <==> resolve_port(allow_list, devices) is Resolved
            &&& (0 <= hit < devices.len() && device_matches(devices[hit], list) && (forall|j: int|
                0 <= j < hit ==> !device_matches(#[trigger] devices[j], list)))
                ==> resolve_port(allow_list, devices) == PortGuessView::Resolved(
                devices[hit].port_name@,
            )
            &&& (forall|j: int| 0 <= j < devices.len() ==> !device_matches(#[trigger] devices[j], list))
                <==> resolve_port(allow_list, devices) == PortGuessView::NotFound
        },
{
    if let Some(list) = allow_list {
        lemma_first_match_is_earliest(devices, list, 0);
        if 0 <= hit < devices.len() && device_matches(devices[hit], list) && (forall|j: int|
            0 <= j < hit ==> !device_matches(#[trigger] devices[j], list)) {
            let path = first_match_from(devices, list, 0)->0;
            let i = choose|i: int|
                0 <= i < devices.len() && device_matches(#[trigger] devices[i], list)
                    && devices[i].port_name@ == path && (forall|j: int|
                    0 <= j < i ==> !device_matches(#[trigger] devices[j], list));
            assert(i == hit);
        }
    }
}

} // verus!
