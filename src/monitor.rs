use vstd::prelude::*;
use crate::baud::{select_baud, menu_speed, BAUD_MENU_LEN, DEFAULT_BAUD_ENTRY};
use crate::line::{baud_rate_for, monitor_framing, port_settings};
use crate::port::{port_menu_default, select_port};

verus! {

/// Most bytes taken from the device by one read.
pub const READ_CHUNK: usize = 64;

/// How long one read waits for data before it reports a timeout.
pub const READ_TIMEOUT_MS: u64 = 100;

/// Grace period after a fatal read error, before the monitor stops.
pub const ERROR_PAUSE_MS: u64 = 100;

/// Process exit code when the user cancels a menu.
pub const CANCEL_EXIT_CODE: i32 = 0;

/// Where a monitor session stands.
#[derive(Clone, Copy, Debug, PartialEq, Eq, Structural)]
pub enum Phase {
    /// Waiting for the host's list of serial devices.
    Listing,
    /// The port menu is shown.
    ChoosingPort,
    /// The baud-rate menu is shown.
    ChoosingBaud,
    /// The chosen device is being opened.
    Opening,
    /// The opened device is being given its framing and read timeout.
    Configuring,
    /// Bytes are read from the device and echoed.
    Reading,
    /// The user cancelled a menu; nothing was opened.
    Cancelled,
    /// A read failed and the loop has ended.
    Stopped,
    /// The session could not go on.
    Failed,
}

/// Why a session could not go on.
#[derive(Clone, Copy, Debug, PartialEq, Eq, Structural)]
pub enum Fault {
    /// The host reported no serial device.
    NoPorts,
    /// The host's devices could not be listed.
    ListFailed,
    /// A menu answered with an entry it does not have.
    ChoiceOutOfRange,
    /// The chosen device could not be opened.
    OpenFailed,
    /// The framing or the read timeout could not be applied.
    ConfigureFailed,
    /// An event came that the current phase does not wait for.
    OutOfOrder,
}

/// What the outside world reports back to the session.
#[derive(Debug)]
pub enum Event {
    /// The identifiers of the serial devices the host offers, in its order.
    PortsListed(Vec<String>),
    /// The host's devices could not be listed.
    ListFailed,
    /// The port menu was answered: an entry, or `None` when cancelled.
    PortChosen(Option<usize>),
    /// The baud-rate menu was answered: an entry, or `None` when cancelled.
    BaudChosen(Option<usize>),
    /// The device was opened.
    Opened,
    /// The device could not be opened.
    OpenFailed,
    /// Framing and timeout were applied.
    Configured,
    /// Framing or timeout could not be applied.
    ConfigureFailed,
    /// A read filled the first `count` bytes of `buf`.
    ReadBytes { buf: Vec<u8>, count: usize },
    /// A read saw no data before its timeout.
    ReadTimedOut,
    /// A read failed otherwise; `message` describes the error.
    ReadFailed(String),
}

/// What the session asks the outside world to do next.
#[derive(Debug)]
pub enum Action {
    /// List the host's serial devices.
    ListPorts,
    /// Show the listed devices as a menu that starts on entry `default`.
    AskPort { default: usize },
    /// Show the baud-rate menu, starting on entry `default`.
    AskBaud { default: usize },
    /// Open the device `port`, which will run at `baud`.
    Open { port: String, baud: serial::BaudRate },
    /// Apply `settings` to the open device, and a read timeout of `timeout_ms`.
    Configure { settings: serial::PortSettings, timeout_ms: u64 },
    /// Write `echo` to standard output unchanged and flush it, then read at
    /// most `max` bytes from the device.
    Read { echo: Vec<u8>, max: usize },
    /// Write `message` as one diagnostic line, pause `pause_ms`, then stop.
    Report { message: String, pause_ms: u64 },
    /// End the process with exit code `code`.
    Exit { code: i32 },
    /// Give up for the reason `fault`.
    Fail { fault: Fault },
    /// Nothing is left to do.
    Halt,
}

/// A monitor session: what has been chosen so far and where it stands.
pub struct Monitor {
    pub phase: Phase,
    /// The identifiers offered in the port menu.
    pub ports: Vec<String>,
    /// The chosen device.
    pub port: String,
    /// The chosen baud rate.
    pub baud: serial::BaudRate,
}

/// Phases after which the session does nothing more.
pub open spec fn is_final_phase(p: Phase) -> bool {
    p == Phase::Cancelled || p == Phase::Stopped || p == Phase::Failed
}

/// An event that a caller can hand over: a read reports no more bytes than it
/// had room for.
pub open spec fn event_fits(e: &Event) -> bool {
    match e {
        Event::ReadBytes { buf, count } => *count <= buf@.len(),
        _ => true,
    }
}

/// `a` writes exactly `bytes` to standard output, then reads a full chunk.
pub open spec fn echoes_then_reads(a: Action, bytes: Seq<u8>) -> bool {
    a matches Action::Read { echo, max } && echo@ == bytes && max == READ_CHUNK
}

/// The first `count` bytes of a read buffer, in order.
pub fn received_bytes(buf: Vec<u8>, count: usize) -> (r: Vec<u8>)
    requires
        count <= buf@.len(),
    ensures
        r@ == buf@.subrange(0, count as int),
{
    let mut bytes = buf;
    bytes.truncate(count);
    bytes
}

impl Monitor {
    /// A fresh session, and its first request: the list of devices.
    pub fn start() -> (r: (Monitor, Action))
        ensures
            r.0.phase == Phase::Listing,
            r.0.ports@.len() == 0,
            r.1 is ListPorts,
    {
        let m = Monitor {
            phase: Phase::Listing,
            ports: Vec::new(),
            port: String::new(),
            baud: serial::BaudRate::Baud115200,
        };
        (m, Action::ListPorts)
    }

    /// Ends the session with `fault`.
    fn fail(&mut self, fault: Fault) -> (r: Action)
        ensures
            final(self).phase == Phase::Failed,
            final(self).ports == old(self).ports,
            final(self).port == old(self).port,
            final(self).baud == old(self).baud,
            r == (Action::Fail { fault }),
    {
        self.phase = Phase::Failed;
        Action::Fail { fault }
    }

    /// Takes in one event and says what to do next.
    pub fn step(&mut self, e: Event) -> (r: Action)
        requires
            event_fits(&e),
        ensures
            is_final_phase(old(self).phase) ==> final(self).phase == old(self).phase && r is Halt,
            old(self).phase != Phase::Listing ==> final(self).ports == old(self).ports,
            old(self).phase != Phase::ChoosingPort ==> final(self).port == old(self).port,
            old(self).phase != Phase::ChoosingBaud ==> final(self).baud == old(self).baud,
            r is Open ==> old(self).phase == Phase::ChoosingBaud && e is BaudChosen,
            r is Read ==> old(self).phase == Phase::Configuring || old(self).phase == Phase::Reading,
            old(self).phase == Phase::Listing ==> match e {
                Event::PortsListed(names) => if names@.len() == 0 {
                    final(self).phase == Phase::Failed && r == (Action::Fail { fault: Fault::NoPorts })
                } else {
                    &&& final(self).phase == Phase::ChoosingPort
                    &&& final(self).ports@ == names@
                    &&& r == (Action::AskPort { default: 0 })
                },
                Event::ListFailed => final(self).phase == Phase::Failed
                    && r == (Action::Fail { fault: Fault::ListFailed }),
                _ => final(self).phase == Phase::Failed
                    && r == (Action::Fail { fault: Fault::OutOfOrder }),
            },
            old(self).phase == Phase::ChoosingPort ==> match e {
                Event::PortChosen(None) => final(self).phase == Phase::Cancelled
                    && r == (Action::Exit { code: CANCEL_EXIT_CODE }),
                Event::PortChosen(Some(i)) => if i < old(self).ports@.len() {
                    &&& final(self).phase == Phase::ChoosingBaud
                    &&& final(self).port == old(self).ports@[i as int]
                    &&& r == (Action::AskBaud { default: DEFAULT_BAUD_ENTRY })
                } else {
                    final(self).phase == Phase::Failed
                        && r == (Action::Fail { fault: Fault::ChoiceOutOfRange })
                },
                _ => final(self).phase == Phase::Failed
                    && r == (Action::Fail { fault: Fault::OutOfOrder }),
            },
            old(self).phase == Phase::ChoosingBaud ==> match e {
                Event::BaudChosen(None) => final(self).phase == Phase::Cancelled
                    && r == (Action::Exit { code: CANCEL_EXIT_CODE }),
                Event::BaudChosen(Some(i)) => if i < BAUD_MENU_LEN {
                    &&& final(self).phase == Phase::Opening
                    &&& final(self).baud == baud_rate_for(menu_speed(i as int) as usize)
                    &&& r == (Action::Open { port: old(self).port, baud: final(self).baud })
                } else {
                    final(self).phase == Phase::Failed
                        && r == (Action::Fail { fault: Fault::ChoiceOutOfRange })
                },
                _ => final(self).phase == Phase::Failed
                    && r == (Action::Fail { fault: Fault::OutOfOrder }),
            },
            old(self).phase == Phase::Opening ==> match e {
                Event::Opened => {
                    &&& final(self).phase == Phase::Configuring
                    &&& r == (Action::Configure {
                        settings: monitor_framing(old(self).baud),
                        timeout_ms: READ_TIMEOUT_MS,
                    })
                },
                Event::OpenFailed => final(self).phase == Phase::Failed
                    && r == (Action::Fail { fault: Fault::OpenFailed }),
                _ => final(self).phase == Phase::Failed
                    && r == (Action::Fail { fault: Fault::OutOfOrder }),
            },
            old(self).phase == Phase::Configuring ==> match e {
                Event::Configured => final(self).phase == Phase::Reading
                    && echoes_then_reads(r, Seq::empty()),
                Event::ConfigureFailed => final(self).phase == Phase::Failed
                    && r == (Action::Fail { fault: Fault::ConfigureFailed }),
                _ => final(self).phase == Phase::Failed
                    && r == (Action::Fail { fault: Fault::OutOfOrder }),
            },
            old(self).phase == Phase::Reading ==> match e {
                Event::ReadBytes { buf, count } => final(self).phase == Phase::Reading
                    && echoes_then_reads(r, buf@.subrange(0, count as int)),
                Event::ReadTimedOut => final(self).phase == Phase::Reading
                    && echoes_then_reads(r, Seq::empty()),
                Event::ReadFailed(message) => final(self).phase == Phase::Stopped
                    && r == (Action::Report { message, pause_ms: ERROR_PAUSE_MS }),
                _ => final(self).phase == Phase::Failed
                    && r == (Action::Fail { fault: Fault::OutOfOrder }),
            },
    {
        match self.phase {
            Phase::Cancelled | Phase::Stopped | Phase::Failed => Action::Halt,
            Phase::Listing => match e {
                Event::PortsListed(names) => match port_menu_default(&names) {
                    None => self.fail(Fault::NoPorts),
                    Some(default) => {
                        self.ports = names;
                        self.phase = Phase::ChoosingPort;
                        Action::AskPort { default }
                    },
                },
                Event::ListFailed => self.fail(Fault::ListFailed),
                _ => self.fail(Fault::OutOfOrder),
            },
            Phase::ChoosingPort => match e {
                Event::PortChosen(None) => {
                    self.phase = Phase::Cancelled;
                    Action::Exit { code: CANCEL_EXIT_CODE }
                },
                Event::PortChosen(Some(i)) => if i < self.ports.len() {
                    self.port = select_port(&self.ports, i);
                    self.phase = Phase::ChoosingBaud;
                    Action::AskBaud { default: DEFAULT_BAUD_ENTRY }
                } else {
                    self.fail(Fault::ChoiceOutOfRange)
                },
                _ => self.fail(Fault::OutOfOrder),
            },
            Phase::ChoosingBaud => match e {
                Event::BaudChosen(None) => {
                    self.phase = Phase::Cancelled;
                    Action::Exit { code: CANCEL_EXIT_CODE }
                },
                Event::BaudChosen(Some(i)) => if i < BAUD_MENU_LEN {
                    self.baud = select_baud(i);
                    self.phase = Phase::Opening;
                    Action::Open { port: self.port.clone(), baud: self.baud }
                } else {
                    self.fail(Fault::ChoiceOutOfRange)
                },
                _ => self.fail(Fault::OutOfOrder),
            },
            Phase::Opening => match e {
                Event::Opened => {
                    self.phase = Phase::Configuring;
                    Action::Configure { settings: port_settings(self.baud), timeout_ms: READ_TIMEOUT_MS }
                },
                Event::OpenFailed => self.fail(Fault::OpenFailed),
                _ => self.fail(Fault::OutOfOrder),
            },
            Phase::Configuring => match e {
                Event::Configured => {
                    self.phase = Phase::Reading;
                    Action::Read { echo: Vec::new(), max: READ_CHUNK }
                },
                Event::ConfigureFailed => self.fail(Fault::ConfigureFailed),
                _ => self.fail(Fault::OutOfOrder),
            },
            Phase::Reading => match e {
                Event::ReadBytes { buf, count } => Action::Read {
                    echo: received_bytes(buf, count),
                    max: READ_CHUNK,
                },
                Event::ReadTimedOut => Action::Read { echo: Vec::new(), max: READ_CHUNK },
                Event::ReadFailed(message) => {
                    self.phase = Phase::Stopped;
                    Action::Report { message, pause_ms: ERROR_PAUSE_MS }
                },
                _ => self.fail(Fault::OutOfOrder),
            },
        }
    }
}

} // verus!
