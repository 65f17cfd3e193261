//! The discovery-to-decode pipeline as a state machine.
//!
//! The caller owns the radio. It hands each thing that happened to `step` as
//! an `Event`, performs the `Action` that comes back, and reports its result
//! as the next event, until the action is `Finish`.
use vstd::prelude::*;
use crate::cli::ScanLength;
use crate::locate::{locate, locate_result, GattService, NotFoundError};
use crate::profile::SensorProfile;
use crate::sample::{decode, decode_spec, DecodeError, Sample};
use crate::scan::{is_candidate, is_candidate_list, select_candidates, Advertisement};

verus! {

/// How many of the matching peripherals a run visits.
#[derive(Clone, Copy, Debug, PartialEq, Eq, Structural)]
pub enum Mode {
    /// Only the first matching peripheral.
    SingleShot,
    /// Every matching peripheral, one after another.
    EveryDevice,
}

/// Where the pipeline stands.
#[derive(Clone, Copy, Debug, PartialEq, Eq, Structural)]
pub enum Phase {
    /// Waiting to hear whether an adapter is there.
    Idle,
    /// Waiting for the scan window to close.
    Scanning,
    /// Waiting for the current peripheral to connect.
    Connecting,
    /// Waiting for the current peripheral's services.
    Discovering,
    /// Waiting for the measurement characteristic's value.
    Reading,
    /// Waiting for the current peripheral's outcome to be reported.
    Reporting,
    /// Waiting for the current peripheral to disconnect.
    Disconnecting,
    /// The run is over.
    Finished,
}

/// What became of one peripheral.
#[derive(Clone, Copy, Debug, PartialEq, Eq, Structural)]
pub enum Outcome {
    Decoded(Sample),
    ConnectFailed,
    DiscoveryFailed,
    NotFound(NotFoundError),
    ReadFailed,
    DecodeFailed(DecodeError),
}

/// How a run ended.
#[derive(Clone, Copy, Debug, PartialEq, Eq, Structural)]
pub enum RunEnd {
    /// No Bluetooth adapter is present.
    NoAdapter,
    /// The scan found no peripheral to connect to; this is not an error.
    NoDevices,
    /// `devices` peripherals were visited and `samples` measurements decoded.
    Done { devices: usize, samples: usize },
}

/// What the caller is to do next. `device` is an index into the list of
/// advertisements that the scan reported; `service` and `characteristic`
/// index the services that the discovery reported.
#[derive(Clone, Copy, Debug, PartialEq, Eq, Structural)]
pub enum Action {
    /// Scan for the given window, stop the scan, then report `ScanFinished`.
    StartScan(ScanLength),
    Connect(usize),
    DiscoverServices(usize),
    Read { device: usize, service: usize, characteristic: usize },
    /// Report the outcome, then send `Reported`.
    Report { device: usize, outcome: Outcome },
    /// Disconnect (best effort), then send `Disconnected`.
    Disconnect(usize),
    Finish(RunEnd),
    /// The event does not fit the current phase; nothing changed.
    Ignore,
}

/// What happened.
#[derive(Debug)]
pub enum Event {
    AdapterReady,
    AdapterMissing,
    ScanFinished(Vec<Advertisement>),
    Connected,
    ConnectFailed,
    ServicesDiscovered(Vec<GattService>),
    DiscoveryFailed,
    ReadDone(Vec<u8>),
    ReadFailed,
    Reported,
    Disconnected,
}

/// The state of one run.
#[derive(Debug)]
pub struct Probe {
    pub profile: SensorProfile,
    pub mode: Mode,
    pub window: ScanLength,
    pub phase: Phase,
    /// Indices of the advertisements to visit, in scan order.
    pub queue: Vec<usize>,
    /// Position in `queue` of the peripheral being visited.
    pub current: usize,
    /// Whether a session with the current peripheral is open.
    pub connected: bool,
    /// Service and characteristic indices being read.
    pub target: (usize, usize),
    /// Measurements decoded so far.
    pub samples: usize,
}

impl Probe {
    /// The advertisement index of the peripheral being visited.
    pub open spec fn device(&self) -> usize {
        self.queue@[self.current as int]
    }

    pub open spec fn wf(&self) -> bool {
        &&& self.window.wf()
        &&& self.queue@.len() <= usize::MAX
        &&& self.samples <= self.current + 1
        &&& (self.mode == Mode::SingleShot ==> self.current == 0)
        &&& match self.phase {
            Phase::Idle | Phase::Scanning => !self.connected && self.current == 0 && self.samples
                == 0,
            Phase::Connecting => !self.connected && self.current < self.queue@.len()
                && self.samples <= self.current,
            Phase::Discovering | Phase::Reading => self.connected && self.current
                < self.queue@.len() && self.samples <= self.current,
            Phase::Reporting => self.current < self.queue@.len(),
            Phase::Disconnecting => self.connected && self.current < self.queue@.len(),
            Phase::Finished => !self.connected,
        }
    }
}

/// `new` is `old` in phase `phase`, with nothing else changed.
pub open spec fn moved(old: Probe, new: Probe, phase: Phase) -> bool {
    &&& new.phase == phase
    &&& new.current == old.current
    &&& new.connected == old.connected
    &&& new.target == old.target
    &&& new.samples == old.samples
}

/// Leaving the current peripheral, whose session is closed: on to the next
/// one, or, in single-shot mode or after the last one, the end of the run.
pub open spec fn advanced(old: Probe, new: Probe, a: Action) -> bool {
    let n = old.current + 1;
    &&& !new.connected
    &&& new.target == old.target
    &&& new.samples == old.samples
    &&& if old.mode == Mode::SingleShot || n >= old.queue@.len() {
        &&& new.phase == Phase::Finished
        &&& new.current == old.current
        &&& a == Action::Finish(RunEnd::Done { devices: n as usize, samples: old.samples })
    } else {
        &&& new.phase == Phase::Connecting
        &&& new.current == n
        &&& a == Action::Connect(old.queue@[n])
    }
}

/// One step of the pipeline: from `old`, on event `e`, to `new`, asking for `a`.
pub open spec fn step_spec(old: Probe, e: Event, new: Probe, a: Action) -> bool {
    let dev = old.device();
    &&& new.profile == old.profile
    &&& new.mode == old.mode
    &&& new.window == old.window
    &&& (!(old.phase == Phase::Scanning && e is ScanFinished) ==> new.queue@ == old.queue@)
    &&& match (old.phase, e) {
        (Phase::Idle, Event::AdapterReady) => moved(old, new, Phase::Scanning) && a
            == Action::StartScan(old.window),
        (Phase::Idle, Event::AdapterMissing) => moved(old, new, Phase::Finished) && a
            == Action::Finish(RunEnd::NoAdapter),
        (Phase::Scanning, Event::ScanFinished(ads)) => {
            &&& is_candidate_list(new.queue@, ads@, old.profile)
            &&& new.current == 0
            &&& !new.connected
            &&& new.samples == 0
            &&& new.target == old.target
            &&& if new.queue@.len() == 0 {
                new.phase == Phase::Finished && a == Action::Finish(RunEnd::NoDevices)
            } else {
                new.phase == Phase::Connecting && a == Action::Connect(new.queue@[0])
            }
        },
        (Phase::Connecting, Event::Connected) => {
            &&& new.phase == Phase::Discovering
            &&& new.connected
            &&& new.current == old.current
            &&& new.target == old.target
            &&& new.samples == old.samples
            &&& a == Action::DiscoverServices(dev)
        },
        (Phase::Connecting, Event::ConnectFailed) => moved(old, new, Phase::Reporting) && a
            == Action::Report { device: dev, outcome: Outcome::ConnectFailed },
        (Phase::Discovering, Event::ServicesDiscovered(services)) => match a {
            Action::Read { device, service, characteristic } => {
                &&& device == dev
                &&& locate_result(
                    services@,
                    old.profile.service,
                    old.profile.characteristic,
                    Ok((service, characteristic)),
                )
                &&& new.phase == Phase::Reading
                &&& new.target == (service, characteristic)
                &&& new.current == old.current
                &&& new.connected == old.connected
                &&& new.samples == old.samples
            },
            Action::Report { device, outcome: Outcome::NotFound(err) } => {
                &&& device == dev
                &&& locate_result(
                    services@,
                    old.profile.service,
                    old.profile.characteristic,
                    Err(err),
                )
                &&& moved(old, new, Phase::Reporting)
            },
            _ => false,
        },
        (Phase::Discovering, Event::DiscoveryFailed) => moved(old, new, Phase::Reporting) && a
            == Action::Report { device: dev, outcome: Outcome::DiscoveryFailed },
        (Phase::Reading, Event::ReadDone(bytes)) => match decode_spec(bytes@) {
            Ok(s) => {
                &&& new.phase == Phase::Reporting
                &&& new.current == old.current
                &&& new.connected == old.connected
                &&& new.target == old.target
                &&& new.samples == old.samples + 1
                &&& a == Action::Report { device: dev, outcome: Outcome::Decoded(s) }
            },
            Err(err) => moved(old, new, Phase::Reporting) && a == Action::Report {
                device: dev,
                outcome: Outcome::DecodeFailed(err),
            },
        },
        (Phase::Reading, Event::ReadFailed) => moved(old, new, Phase::Reporting) && a
            == Action::Report { device: dev, outcome: Outcome::ReadFailed },
        (Phase::Reporting, Event::Reported) => if old.connected {
            moved(old, new, Phase::Disconnecting) && a == Action::Disconnect(dev)
        } else {
            advanced(old, new, a)
        },
        (Phase::Disconnecting, Event::Disconnected) => advanced(old, new, a),
        _ => moved(old, new, old.phase) && a == Action::Ignore,
    }
}

/// A session with a peripheral is closed only once the caller has been asked
/// to disconnect it and reports that it did: no step drops a connected
/// peripheral on its way elsewhere.
pub proof fn lemma_session_closed_only_after_disconnect(old: Probe, e: Event, new: Probe, a: Action)
    requires
        old.wf(),
        step_spec(old, e, new, a),
        old.connected,
        !new.connected,
    ensures
        old.phase == Phase::Disconnecting,
        e is Disconnected,
{
}

/// Every step into the disconnecting phase asks the caller to disconnect the
/// current peripheral.
pub proof fn lemma_disconnect_requested(old: Probe, e: Event, new: Probe, a: Action)
    requires
        old.wf(),
        step_spec(old, e, new, a),
        old.phase != Phase::Disconnecting,
        new.phase == Phase::Disconnecting,
    ensures
        a == Action::Disconnect(old.device()),
        new.current == old.current,
{
}

/// A decoded sample is reported only for a payload that was read and decodes
/// to exactly that sample.
pub proof fn lemma_sample_only_from_payload(
    old: Probe,
    e: Event,
    new: Probe,
    device: usize,
    s: Sample,
)
    requires
        old.wf(),
        step_spec(old, e, new, Action::Report { device, outcome: Outcome::Decoded(s) }),
    ensures
        old.phase == Phase::Reading,
        e matches Event::ReadDone(bytes) && decode_spec(bytes@) == Ok::<Sample, DecodeError>(s),
{
}

/// A scan that reports no peripheral to connect to ends the run with
/// `NoDevices`, which is not an error, and opens no session.
pub proof fn lemma_empty_scan_finishes(old: Probe, ads: Vec<Advertisement>, new: Probe, a: Action)
    requires
        old.wf(),
        old.phase == Phase::Scanning,
        forall|i: int| 0 <= i < ads@.len() ==> !is_candidate(#[trigger] ads@[i], old.profile),
        step_spec(old, Event::ScanFinished(ads), new, a),
    ensures
        a == Action::Finish(RunEnd::NoDevices),
        new.phase == Phase::Finished,
        !new.connected,
{
    if new.queue@.len() > 0 {
        assert(is_candidate(ads@[new.queue@[0] as int], old.profile));
    }
}

/// In single-shot mode the only connection asked for is the first one, right
/// after the scan.
pub proof fn lemma_single_shot_connects_once(old: Probe, e: Event, new: Probe, device: usize)
    requires
        old.wf(),
        old.mode == Mode::SingleShot,
        step_spec(old, e, new, Action::Connect(device)),
    ensures
        old.phase == Phase::Scanning,
{
}

impl Probe {
    /// A run that will look for `profile`'s sensors, scanning for `window`.
    pub fn new(profile: SensorProfile, mode: Mode, window: ScanLength) -> (r: Probe)
        requires
            window.wf(),
        ensures
            r.wf(),
            r.profile == profile,
            r.mode == mode,
            r.window == window,
            r.phase == Phase::Idle,
            r.queue@.len() == 0,
            r.current == 0,
            !r.connected,
            r.samples == 0,
    {
        Probe {
            profile,
            mode,
            window,
            phase: Phase::Idle,
            queue: Vec::new(),
            current: 0,
            connected: false,
            target: (0, 0),
            samples: 0,
        }
    }

    /// Leaves the current peripheral, whose session is closed.
    fn advance(&mut self) -> (a: Action)
        requires
            old(self).wf(),
            old(self).phase == Phase::Reporting || old(self).phase == Phase::Disconnecting,
        ensures
            advanced(*old(self), *final(self), a),
            final(self).wf(),
            final(self).profile == old(self).profile,
            final(self).mode == old(self).mode,
            final(self).window == old(self).window,
            final(self).queue@ == old(self).queue@,
    {
        self.connected = false;
        let n = self.current + 1;
        if self.mode == Mode::SingleShot || n >= self.queue.len() {
            self.phase = Phase::Finished;
            Action::Finish(RunEnd::Done { devices: n, samples: self.samples })
        } else {
            self.phase = Phase::Connecting;
            self.current = n;
            Action::Connect(self.queue[n])
        }
    }

    /// Takes one event and says what to do next.
    pub fn step(&mut self, event: Event) -> (a: Action)
        requires
            old(self).wf(),
        ensures
            final(self).wf(),
            step_spec(*old(self), event, *final(self), a),
    {
        match (self.phase, event) {
            (Phase::Idle, Event::AdapterReady) => {
                self.phase = Phase::Scanning;
                Action::StartScan(self.window)
            },
            (Phase::Idle, Event::AdapterMissing) => {
                self.phase = Phase::Finished;
                Action::Finish(RunEnd::NoAdapter)
            },
            (Phase::Scanning, Event::ScanFinished(ads)) => {
                self.queue = select_candidates(&ads, &self.profile);
                if self.queue.len() == 0 {
                    self.phase = Phase::Finished;
                    Action::Finish(RunEnd::NoDevices)
                } else {
                    self.phase = Phase::Connecting;
                    Action::Connect(self.queue[0])
                }
            },
            (Phase::Connecting, Event::Connected) => {
                self.phase = Phase::Discovering;
                self.connected = true;
                Action::DiscoverServices(self.queue[self.current])
            },
            (Phase::Connecting, Event::ConnectFailed) => {
                self.phase = Phase::Reporting;
                Action::Report { device: self.queue[self.current], outcome: Outcome::ConnectFailed }
            },
            (Phase::Discovering, Event::ServicesDiscovered(services)) => {
                let device = self.queue[self.current];
                match locate(&services, self.profile.service, self.profile.characteristic) {
                    Ok((service, characteristic)) => {
                        self.phase = Phase::Reading;
                        self.target = (service, characteristic);
                        Action::Read { device, service, characteristic }
                    },
                    Err(err) => {
                        self.phase = Phase::Reporting;
                        Action::Report { device, outcome: Outcome::NotFound(err) }
                    },
                }
            },
            (Phase::Discovering, Event::DiscoveryFailed) => {
                self.phase = Phase::Reporting;
                Action::Report { device: self.queue[self.current], outcome: Outcome::DiscoveryFailed }
            },
            (Phase::Reading, Event::ReadDone(bytes)) => {
                let device = self.queue[self.current];
                self.phase = Phase::Reporting;
                match decode(&bytes) {
                    Ok(s) => {
                        self.samples = self.samples + 1;
                        Action::Report { device, outcome: Outcome::Decoded(s) }
                    },
                    Err(err) => Action::Report { device, outcome: Outcome::DecodeFailed(err) },
                }
            },
            (Phase::Reading, Event::ReadFailed) => {
                self.phase = Phase::Reporting;
                Action::Report { device: self.queue[self.current], outcome: Outcome::ReadFailed }
            },
            (Phase::Reporting, Event::Reported) => {
                if self.connected {
                    self.phase = Phase::Disconnecting;
                    Action::Disconnect(self.queue[self.current])
                } else {
                    self.advance()
                }
            },
            (Phase::Disconnecting, Event::Disconnected) => self.advance(),
            _ => Action::Ignore,
        }
    }
}

} // verus!
