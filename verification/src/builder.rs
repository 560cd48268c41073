//! Bringing the link up: the handshake that resets the device, clears the
//! line and probes what the device is.
//!
//! The handshake is a fixed run of actions with three decisions at its end.
//! Who owns the transport performs each [`Action`] and reports what came of
//! it as an [`Event`]; [`Handshake::advance`] answers with the next action.
//! A request that fails, by a failure of the transport too, is reported as
//! the event of that request, and ends the handshake. Where the port cannot
//! be opened, or an action on it fails, the owner ends the handshake without
//! another call.

use crate::command::sys::CapabilitySet;
use crate::session::Error;
use vstd::prelude::*;

verus! {

/// The speed of the link, in bits per second. The link has eight data bits,
/// one stop bit and no parity.
pub const BAUD_RATE: u32 = 115200;

/// The pause after the reset pulse, in milliseconds.
pub const RESET_SETTLE_MILLIS: u64 = 150;

/// The pause after the line was cleared, in milliseconds: long enough for
/// the device's boot loader to give up waiting.
pub const CLEAR_SETTLE_MILLIS: u64 = 2500;

/// The byte that the line is cleared with: 0x10 with every bit flipped.
pub const CLEAR_BYTE: u8 = 0xEF;

/// The number of bytes that the line is cleared with.
pub const CLEAR_LEN: usize = 256;

/// The length of a device-list entry that was laid out without padding.
pub const UNPADDED_ENTRY_LEN: usize = 28;

/// The length of a device-list entry that was laid out with padding.
pub const PADDED_ENTRY_LEN: usize = 36;

/// Names the port that the device is reached through.
#[derive(Debug, Clone)]
pub struct Builder {
    port: String,
}

impl Builder {
    /// The name of the port.
    pub closed spec fn spec_port(&self) -> Seq<char> {
        self.port@
    }

    pub fn from_port(port: String) -> (builder: Self)
        ensures
            builder.spec_port() == port@,
    {
        Self { port }
    }

    /// The name of the port.
    pub fn port(&self) -> (port: &String)
        ensures
            port@ == self.spec_port(),
    {
        &self.port
    }
}

/// A firmware version.
#[derive(Debug, Clone, Copy, PartialEq, Eq, Structural)]
pub struct Version {
    pub major: u64,
    pub minor: u64,
    pub patch: u64,
}

/// The version taken for a device that knows the version probe.
pub open spec fn spec_newer_version() -> Version {
    Version { major: 3, minor: 30, patch: 0 }
}

/// The version taken for a device that refuses the version probe.
pub open spec fn spec_older_version() -> Version {
    Version { major: 3, minor: 0, patch: 0 }
}

/// What the handshake found out about the device.
#[derive(Debug, Clone, Copy, PartialEq, Eq, Structural)]
pub struct Descriptor {
    /// the firmware version that the device is taken to run
    pub version: Version,
    /// whether the device lays its structures out with padding
    pub align_structs: bool,
    /// the subsystems that the device has
    pub capabilities: CapabilitySet,
}

impl Descriptor {
    /// The firmware version that the device is taken to run.
    pub fn version(&self) -> (version: Version)
        ensures
            version == self.version,
    {
        self.version
    }

    /// Whether the device lays its structures out with padding.
    pub fn align_structs(&self) -> (align_structs: bool)
        ensures
            align_structs == self.align_structs,
    {
        self.align_structs
    }

    /// The subsystems that the device has.
    pub fn capabilities(&self) -> (capabilities: CapabilitySet)
        ensures
            capabilities == self.capabilities,
    {
        self.capabilities
    }
}

/// Which layout a device-list entry of `len` bytes was made with: `false`
/// for the unpadded one of 28 bytes, `true` for the padded one of 36. No
/// other length is known.
pub open spec fn spec_align_structs(len: nat) -> Result<bool, Error> {
    if len == UNPADDED_ENTRY_LEN {
        Ok(false)
    } else if len == PADDED_ENTRY_LEN {
        Ok(true)
    } else {
        Err(Error::Unknown)
    }
}

/// Tells from a device-list entry whether the device lays its structures
/// out with padding.
pub fn align_structs(device: &Vec<u8>) -> (align_structs: Result<bool, Error>)
    ensures
        align_structs == spec_align_structs(device@.len()),
{
    let len: usize = device.len();
    if len == UNPADDED_ENTRY_LEN {
        Ok(false)
    } else if len == PADDED_ENTRY_LEN {
        Ok(true)
    } else {
        Err(Error::Unknown)
    }
}

/// Which version the answer to the version probe speaks for: the older one
/// where the device refused the probe, whatever reason it gave, the newer
/// one where it answered. Any other failure of the probe stands.
pub open spec fn spec_version(probe: Result<u32, Error>) -> Result<Version, Error> {
    match probe {
        Ok(_) => Ok(spec_newer_version()),
        Err(Error::CommandNotFound { .. }) => Ok(spec_older_version()),
        Err(error) => Err(error),
    }
}

/// Tells the firmware version from the answer to the version probe.
pub fn version(probe: Result<u32, Error>) -> (version: Result<Version, Error>)
    ensures
        version == spec_version(probe),
{
    match probe {
        Ok(_) => Ok(Version { major: 3, minor: 30, patch: 0 }),
        Err(Error::CommandNotFound { .. }) => Ok(Version { major: 3, minor: 0, patch: 0 }),
        Err(error) => Err(error),
    }
}

/// What the owner of the transport is to do next.
#[derive(Debug)]
pub enum Action {
    /// Set the data-terminal-ready line, then the request-to-send line.
    SetControlLines { dtr: bool, rts: bool },
    /// Wait.
    Pause { millis: u64 },
    /// Write `count` bytes, each of them `byte`.
    WriteFiller { byte: u8, count: usize },
    /// Request the device's capabilities.
    RequestCapabilities,
    /// Request an entry of the device list.
    RequestDevice { nth_active_entry: u8 },
    /// Request the length of an item of the non-volatile memory.
    RequestNvLength { sys_id: u8, item_id: u16, sub_id: u16 },
    /// The handshake is over: the link is up.
    Finish { device: Descriptor },
    /// The handshake is over: it failed.
    Fail { error: Error },
}

/// What came of the last action.
#[derive(Debug)]
pub enum Event {
    /// The lines were set, the pause is over, or the bytes were written.
    Done,
    /// How the request for the capabilities ended.
    Capabilities(Result<CapabilitySet, Error>),
    /// How the request for the device-list entry ended.
    Device(Result<Vec<u8>, Error>),
    /// How the request for the length of the item ended.
    NvLength(Result<u32, Error>),
}

/// The number of actions on the transport that come before the first probe.
pub const PREPARATION_STEPS: u8 = 6;

/// The actions that come before the first probe, in their order: the reset
/// pulse on the control lines, a pause, the bytes that clear the line, and a
/// longer pause.
pub open spec fn spec_preparation(step: u8) -> Action {
    if step == 0 {
        Action::SetControlLines { dtr: false, rts: false }
    } else if step == 1 {
        Action::SetControlLines { dtr: false, rts: true }
    } else if step == 2 {
        Action::SetControlLines { dtr: false, rts: false }
    } else if step == 3 {
        Action::Pause { millis: RESET_SETTLE_MILLIS }
    } else if step == 4 {
        Action::WriteFiller { byte: CLEAR_BYTE, count: CLEAR_LEN }
    } else {
        Action::Pause { millis: CLEAR_SETTLE_MILLIS }
    }
}

/// The action with which the device is probed for its version: the request
/// for the length of an item that only newer firmware keeps.
pub open spec fn spec_version_probe() -> Action {
    Action::RequestNvLength { sys_id: 1, item_id: 0x0004, sub_id: 0 }
}

/// How far the handshake has come: which action is under way, and what the
/// probes have shown so far.
#[derive(Debug, Clone, Copy, PartialEq, Eq, Structural)]
pub enum Handshake {
    /// Action `step` of the preparation is under way.
    Preparing { step: u8 },
    /// The capabilities were requested.
    AwaitingCapabilities,
    /// The device-list entry was requested.
    AwaitingDevice { capabilities: CapabilitySet },
    /// The version probe was sent.
    AwaitingNvLength { capabilities: CapabilitySet, align_structs: bool },
    /// The handshake ended, well or not.
    Finished,
}

impl Handshake {
    /// The number of events that the handshake can still take before it
    /// ends.
    pub open spec fn spec_steps_left(self) -> nat {
        match self {
            Handshake::Preparing { step } => if step < PREPARATION_STEPS {
                (9 - step) as nat
            } else {
                1
            },
            Handshake::AwaitingCapabilities => 3,
            Handshake::AwaitingDevice { .. } => 2,
            Handshake::AwaitingNvLength { .. } => 1,
            Handshake::Finished => 0,
        }
    }

    /// The state that follows `self` on `event`, and the action to perform
    /// then.
    ///
    /// While the link is prepared, each action that was done is followed by
    /// the next, and the last by the request for the capabilities. A probe
    /// that failed ends the handshake with its error, but for the version
    /// probe, which the device may refuse. A device-list entry of unknown
    /// length ends it with `Unknown`. An event that the state does not wait
    /// for ends it with `Unknown` too.
    pub open spec fn spec_advance(self, event: Event) -> (Handshake, Action) {
        match (self, event) {
            (Handshake::Preparing { step }, Event::Done) => {
                if step + 1 < PREPARATION_STEPS {
                    (
                        Handshake::Preparing { step: (step + 1) as u8 },
                        spec_preparation((step + 1) as u8),
                    )
                } else if step + 1 == PREPARATION_STEPS {
                    (Handshake::AwaitingCapabilities, Action::RequestCapabilities)
                } else {
                    (Handshake::Finished, Action::Fail { error: Error::Unknown })
                }
            },
            (Handshake::AwaitingCapabilities, Event::Capabilities(Ok(capabilities))) => (
                Handshake::AwaitingDevice { capabilities },
                Action::RequestDevice { nth_active_entry: 0 },
            ),
            (Handshake::AwaitingCapabilities, Event::Capabilities(Err(error))) => (
                Handshake::Finished,
                Action::Fail { error },
            ),
            (Handshake::AwaitingDevice { capabilities }, Event::Device(Ok(device))) => {
                match spec_align_structs(device@.len()) {
                    Ok(align_structs) => (
                        Handshake::AwaitingNvLength { capabilities, align_structs },
                        spec_version_probe(),
                    ),
                    Err(error) => (Handshake::Finished, Action::Fail { error }),
                }
            },
            (Handshake::AwaitingDevice { .. }, Event::Device(Err(error))) => (
                Handshake::Finished,
                Action::Fail { error },
            ),
            (
                Handshake::AwaitingNvLength { capabilities, align_structs },
                Event::NvLength(probe),
            ) => {
                match spec_version(probe) {
                    Ok(version) => (
                        Handshake::Finished,
                        Action::Finish {
                            device: Descriptor { version, align_structs, capabilities },
                        },
                    ),
                    Err(error) => (Handshake::Finished, Action::Fail { error }),
                }
            },
            _ => (Handshake::Finished, Action::Fail { error: Error::Unknown }),
        }
    }

    /// Action `step` of the preparation.
    fn preparation(step: u8) -> (action: Action)
        ensures
            action == spec_preparation(step),
    {
        if step == 0 {
            Action::SetControlLines { dtr: false, rts: false }
        } else if step == 1 {
            Action::SetControlLines { dtr: false, rts: true }
        } else if step == 2 {
            Action::SetControlLines { dtr: false, rts: false }
        } else if step == 3 {
            Action::Pause { millis: RESET_SETTLE_MILLIS }
        } else if step == 4 {
            Action::WriteFiller { byte: CLEAR_BYTE, count: CLEAR_LEN }
        } else {
            Action::Pause { millis: CLEAR_SETTLE_MILLIS }
        }
    }

    /// Begins the handshake on a port that was just opened: the state to
    /// start from, and the first action.
    pub fn start() -> (begun: (Handshake, Action))
        ensures
            begun.0 == (Handshake::Preparing { step: 0 }),
            begun.1 == spec_preparation(0),
    {
        (Handshake::Preparing { step: 0 }, Self::preparation(0))
    }

    /// Whether the handshake has ended.
    pub fn is_finished(&self) -> (finished: bool)
        ensures
            finished == (*self == Handshake::Finished),
            finished == (self.spec_steps_left() == 0),
    {
        match self {
            Handshake::Finished => true,
            _ => false,
        }
    }

    /// Takes what came of the last action, and gives the state that follows
    /// and the action to perform next. Each call brings the handshake
    /// nearer to its end.
    pub fn advance(self, event: Event) -> (next: (Handshake, Action))
        ensures
            next == self.spec_advance(event),
            self != Handshake::Finished ==> next.0.spec_steps_left() < self.spec_steps_left(),
            next.0 == Handshake::Finished <==> (next.1 is Finish || next.1 is Fail),
    {
        match (self, event) {
            (Handshake::Preparing { step }, Event::Done) => {
                if step < PREPARATION_STEPS - 1 {
                    (Handshake::Preparing { step: step + 1 }, Self::preparation(step + 1))
                } else if step == PREPARATION_STEPS - 1 {
                    (Handshake::AwaitingCapabilities, Action::RequestCapabilities)
                } else {
                    (Handshake::Finished, Action::Fail { error: Error::Unknown })
                }
            },
            (Handshake::AwaitingCapabilities, Event::Capabilities(Ok(capabilities))) => (
                Handshake::AwaitingDevice { capabilities },
                Action::RequestDevice { nth_active_entry: 0 },
            ),
            (Handshake::AwaitingCapabilities, Event::Capabilities(Err(error))) => (
                Handshake::Finished,
                Action::Fail { error },
            ),
            (Handshake::AwaitingDevice { capabilities }, Event::Device(Ok(device))) => {
                match align_structs(&device) {
                    Ok(align_structs) => (
                        Handshake::AwaitingNvLength { capabilities, align_structs },
                        Action::RequestNvLength { sys_id: 1, item_id: 0x0004, sub_id: 0 },
                    ),
                    Err(error) => (Handshake::Finished, Action::Fail { error }),
                }
            },
            (Handshake::AwaitingDevice { .. }, Event::Device(Err(error))) => (
                Handshake::Finished,
                Action::Fail { error },
            ),
            (
                Handshake::AwaitingNvLength { capabilities, align_structs },
                Event::NvLength(probe),
            ) => {
                match version(probe) {
                    Ok(version) => (
                        Handshake::Finished,
                        Action::Finish {
                            device: Descriptor { version, align_structs, capabilities },
                        },
                    ),
                    Err(error) => (Handshake::Finished, Action::Fail { error }),
                }
            },
            _ => (Handshake::Finished, Action::Fail { error: Error::Unknown }),
        }
    }
}

/// No half-made descriptor is handed out: the handshake finishes well only
/// on the answer to the version probe, after the capabilities and the
/// layout were found, and the descriptor holds exactly what was found.
pub proof fn lemma_finish_needs_every_probe(state: Handshake, event: Event)
    requires
        state.spec_advance(event).1 is Finish,
    ensures
        state matches Handshake::AwaitingNvLength { capabilities, align_structs } && event
            matches Event::NvLength(probe) && spec_version(probe) matches Ok(version)
            && state.spec_advance(event).1 == (Action::Finish {
            device: Descriptor { version, align_structs, capabilities },
        }),
{
}

} // verus!
