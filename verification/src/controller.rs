//! Controller adapters: how the scan and connect requests of the protocol
//! engine are carried out on a radio's own control interface.
//!
//! An adapter performs no radio operation itself. It names the next
//! operation as a [`RadioCommand`]; whoever drives the radio carries the
//! operation out and hands the radio's answer back as a [`RadioReply`].

use crate::bounded::{found_as_slice, found_list};
use crate::error::{Error, ErrorCode, Fault};
use crate::radio::{
    access_points, duplicate_ssid_opt, network_unavailable, scan_result_of, scan_result_opt,
    ssid_opt, to_err, to_scan_result, AccessPointInfo, AccessPointInfoView, WifiCredentials,
    WifiCredentialsView, WifiError, WifiScanResult, WifiScanResultView, WifiSsid, MAX_NETWORKS,
};
use vstd::prelude::*;

verus! {

/// An operation that the adapter asks for.
#[derive(Debug, PartialEq, Eq)]
pub enum RadioCommand {
    /// Ask the radio whether it is started.
    IsStarted,
    /// Start the radio.
    Start,
    /// Stop the radio.
    Stop,
    /// Make the radio a station with these credentials; every other
    /// setting keeps its default.
    SetConfiguration(WifiCredentials),
    /// Associate with the configured network.
    Connect,
    /// Ask the radio whether it is associated.
    IsConnected,
    /// Scan for networks, for at most [`crate::radio::MAX_NETWORKS`] of
    /// them, and only for the given name if there is one.
    Scan(Option<WifiSsid>),
    /// Call the engine's scan callback with this argument.
    Report(Option<WifiScanResult>),
}

/// What a [`RadioCommand`] holds.
pub enum RadioCommandView {
    /// Ask the radio whether it is started.
    IsStarted,
    /// Start the radio.
    Start,
    /// Stop the radio.
    Stop,
    /// Make the radio a station with these credentials.
    SetConfiguration(WifiCredentialsView),
    /// Associate with the configured network.
    Connect,
    /// Ask the radio whether it is associated.
    IsConnected,
    /// Scan for networks.
    Scan(Option<Seq<char>>),
    /// Call the engine's scan callback with this argument.
    Report(Option<WifiScanResultView>),
}

impl View for RadioCommand {
    type V = RadioCommandView;

    open spec fn view(&self) -> RadioCommandView {
        match self {
            RadioCommand::IsStarted => RadioCommandView::IsStarted,
            RadioCommand::Start => RadioCommandView::Start,
            RadioCommand::Stop => RadioCommandView::Stop,
            RadioCommand::SetConfiguration(c) => RadioCommandView::SetConfiguration(c@),
            RadioCommand::Connect => RadioCommandView::Connect,
            RadioCommand::IsConnected => RadioCommandView::IsConnected,
            RadioCommand::Scan(f) => RadioCommandView::Scan(ssid_opt(*f)),
            RadioCommand::Report(r) => RadioCommandView::Report(scan_result_opt(*r)),
        }
    }
}

/// The answer to a [`RadioCommand`]. `E` is the error type of the protocol
/// engine.
#[derive(Debug, PartialEq, Eq)]
pub enum RadioReply<E> {
    /// The answer to `IsStarted` and to `IsConnected`.
    Flag(Result<bool, WifiError>),
    /// The answer to `Start`, `Stop`, `SetConfiguration` and `Connect`.
    Done(Result<(), WifiError>),
    /// The answer to `Scan`: the networks found, in the order found.
    Networks(Result<heapless::Vec<AccessPointInfo, MAX_NETWORKS>, WifiError>),
    /// What the engine's scan callback returned.
    Reported(Result<(), E>),
}

/// What a [`RadioReply`] holds.
pub enum RadioReplyView<E> {
    /// The answer to `IsStarted` and to `IsConnected`.
    Flag(Result<bool, WifiError>),
    /// The answer to `Start`, `Stop`, `SetConfiguration` and `Connect`.
    Done(Result<(), WifiError>),
    /// The answer to `Scan`.
    Networks(Result<Seq<AccessPointInfoView>, WifiError>),
    /// What the engine's scan callback returned.
    Reported(Result<(), E>),
}

impl<E> View for RadioReply<E> {
    type V = RadioReplyView<E>;

    open spec fn view(&self) -> RadioReplyView<E> {
        match self {
            RadioReply::Flag(r) => RadioReplyView::Flag(*r),
            RadioReply::Done(r) => RadioReplyView::Done(*r),
            RadioReply::Networks(Ok(list)) => RadioReplyView::Networks(
                Ok(access_points(found_list(*list))),
            ),
            RadioReply::Networks(Err(e)) => RadioReplyView::Networks(Err(*e)),
            RadioReply::Reported(r) => RadioReplyView::Reported(*r),
        }
    }
}

/// What the adapter decides when it gets a reply.
#[derive(Debug, PartialEq, Eq)]
pub enum Step<E> {
    /// The request goes on with this operation.
    Run(RadioCommand),
    /// The request has ended with this result.
    Finished(Result<(), Fault<E>>),
    /// The reply answers nothing that the adapter asked; nothing changed.
    Stray,
}

/// What a [`Step`] holds.
pub enum StepView<E> {
    /// The request goes on with this operation.
    Run(RadioCommandView),
    /// The request has ended with this result.
    Finished(Result<(), Fault<E>>),
    /// The reply answers nothing that the adapter asked; nothing changed.
    Stray,
}

impl<E> View for Step<E> {
    type V = StepView<E>;

    open spec fn view(&self) -> StepView<E> {
        match self {
            Step::Run(c) => StepView::Run(c@),
            Step::Finished(r) => StepView::Finished(*r),
            Step::Stray => StepView::Stray,
        }
    }
}

/// Where a request stands: the operation whose answer the adapter waits
/// for, and what the rest of the request needs.
pub enum PhaseView {
    /// No request is under way.
    Idle,
    /// A scan waits for the answer to `IsStarted`.
    ScanIsStarted { filter: Option<Seq<char>> },
    /// A scan waits for the answer to `Start`.
    ScanStart { filter: Option<Seq<char>> },
    /// A scan waits for the answer to `Scan`.
    ScanRun,
    /// A scan waits for the callback to return; `next` of the networks in
    /// `found` have been reported.
    ScanReport { found: Seq<AccessPointInfoView>, next: nat },
    /// A scan has signalled the end of its results and waits for the
    /// callback to return.
    ScanEnd,
    /// A connect waits for the answer to `IsStarted`.
    ConnectIsStarted { creds: WifiCredentialsView },
    /// A connect waits for the answer to `Stop`.
    ConnectStop { creds: WifiCredentialsView },
    /// A connect waits for the answer to `SetConfiguration`.
    ConnectConfigure { ssid: Seq<char> },
    /// A connect waits for the answer to `Start`.
    ConnectStart { ssid: Seq<char> },
    /// A connect waits for the answer to `Connect`.
    ConnectRun { ssid: Seq<char> },
    /// A connect waits for the answer to `IsConnected`.
    ConnectIsConnected { ssid: Seq<char> },
}

/// What a controller adapter holds: the network that the last successful
/// connect associated with, and where the current request stands.
pub struct ControllerView {
    /// The recorded network, if any.
    pub connected: Option<Seq<char>>,
    /// Where the current request stands.
    pub phase: PhaseView,
}

/// The adapter with no request under way.
pub open spec fn at_rest(m: ControllerView) -> ControllerView {
    ControllerView { connected: m.connected, phase: PhaseView::Idle }
}

/// The request goes on in `phase` with the operation `command`.
pub open spec fn goes_on<E>(m: ControllerView, phase: PhaseView, command: RadioCommandView) -> (
    ControllerView,
    StepView<E>,
) {
    (ControllerView { connected: m.connected, phase }, StepView::Run(command))
}

/// The request ends because the radio failed: the engine is told that the
/// network is not available.
pub open spec fn radio_failed<E>(m: ControllerView) -> (ControllerView, StepView<E>) {
    (at_rest(m), StepView::Finished(Err(Fault::Adapter(network_unavailable()))))
}

/// A connect ends because the radio failed, or because the station is not
/// associated after all: no network is recorded, and the engine is told
/// that the network is not available.
pub open spec fn connect_failed<E>(m: ControllerView) -> (ControllerView, StepView<E>) {
    (
        ControllerView { connected: None, phase: PhaseView::Idle },
        StepView::Finished(Err(Fault::Adapter(network_unavailable()))),
    )
}

/// The request ends because the engine's callback failed with `e`.
pub open spec fn callback_failed<E>(m: ControllerView, e: E) -> (ControllerView, StepView<E>) {
    (at_rest(m), StepView::Finished(Err(Fault::Engine(e))))
}

/// The reply is not the one awaited: nothing changes.
pub open spec fn stray<E>(m: ControllerView) -> (ControllerView, StepView<E>) {
    (m, StepView::Stray)
}

/// The next call of the scan callback when `next` of the networks in
/// `found` have been reported: the next network, or the end-of-results
/// sentinel once all have been.
pub open spec fn report_next<E>(m: ControllerView, found: Seq<AccessPointInfoView>, next: nat) -> (
    ControllerView,
    StepView<E>,
) {
    if next < found.len() {
        goes_on(
            m,
            PhaseView::ScanReport { found, next: next + 1 },
            RadioCommandView::Report(Some(scan_result_of(found[next as int]))),
        )
    } else {
        goes_on(m, PhaseView::ScanEnd, RadioCommandView::Report(None))
    }
}

/// A scan begins: whatever request was under way is given up, and the
/// radio is asked whether it is started. The recorded network stays.
pub open spec fn scan_begin(m: ControllerView, filter: Option<Seq<char>>) -> (
    ControllerView,
    RadioCommandView,
) {
    (
        ControllerView { connected: m.connected, phase: PhaseView::ScanIsStarted { filter } },
        RadioCommandView::IsStarted,
    )
}

/// A connect begins: whatever request was under way is given up, the
/// recorded network is forgotten, and the radio is asked whether it is
/// started.
pub open spec fn connect_begin(m: ControllerView, creds: WifiCredentialsView) -> (
    ControllerView,
    RadioCommandView,
) {
    (
        ControllerView { connected: None, phase: PhaseView::ConnectIsStarted { creds } },
        RadioCommandView::IsStarted,
    )
}

/// What the adapter does with a reply.
///
/// A scan starts the radio unless it is started, scans, calls the callback
/// once for each network found and once more with the sentinel, and ends
/// well. A connect stops the radio if it is started, configures it, starts
/// it, associates, and asks whether the station is associated: if it is,
/// the connect ends well and the network is recorded. A failure of the
/// radio ends either request with the network reported as not available,
/// and so does a connect whose station is not associated in the end; a
/// connect that fails records no network. A failure of the callback ends
/// a scan with the callback's error.
pub open spec fn advance_spec<E>(m: ControllerView, reply: RadioReplyView<E>) -> (
    ControllerView,
    StepView<E>,
) {
    match m.phase {
        PhaseView::Idle => stray(m),
        PhaseView::ScanIsStarted { filter } => match reply {
            RadioReplyView::Flag(Ok(started)) => if started {
                goes_on(m, PhaseView::ScanRun, RadioCommandView::Scan(filter))
            } else {
                goes_on(m, PhaseView::ScanStart { filter }, RadioCommandView::Start)
            },
            RadioReplyView::Flag(Err(_)) => radio_failed(m),
            _ => stray(m),
        },
        PhaseView::ScanStart { filter } => match reply {
            RadioReplyView::Done(Ok(_)) => goes_on(
                m,
                PhaseView::ScanRun,
                RadioCommandView::Scan(filter),
            ),
            RadioReplyView::Done(Err(_)) => radio_failed(m),
            _ => stray(m),
        },
        PhaseView::ScanRun => match reply {
            RadioReplyView::Networks(Ok(found)) => report_next(m, found, 0),
            RadioReplyView::Networks(Err(_)) => radio_failed(m),
            _ => stray(m),
        },
        PhaseView::ScanReport { found, next } => match reply {
            RadioReplyView::Reported(Ok(_)) => report_next(m, found, next),
            RadioReplyView::Reported(Err(e)) => callback_failed(m, e),
            _ => stray(m),
        },
        PhaseView::ScanEnd => match reply {
            RadioReplyView::Reported(Ok(_)) => (at_rest(m), StepView::Finished(Ok(()))),
            RadioReplyView::Reported(Err(e)) => callback_failed(m, e),
            _ => stray(m),
        },
        PhaseView::ConnectIsStarted { creds } => match reply {
            RadioReplyView::Flag(Ok(started)) => if started {
                goes_on(m, PhaseView::ConnectStop { creds }, RadioCommandView::Stop)
            } else {
                goes_on(
                    m,
                    PhaseView::ConnectConfigure { ssid: creds.ssid },
                    RadioCommandView::SetConfiguration(creds),
                )
            },
            RadioReplyView::Flag(Err(_)) => connect_failed(m),
            _ => stray(m),
        },
        PhaseView::ConnectStop { creds } => match reply {
            RadioReplyView::Done(Ok(_)) => goes_on(
                m,
                PhaseView::ConnectConfigure { ssid: creds.ssid },
                RadioCommandView::SetConfiguration(creds),
            ),
            RadioReplyView::Done(Err(_)) => connect_failed(m),
            _ => stray(m),
        },
        PhaseView::ConnectConfigure { ssid } => match reply {
            RadioReplyView::Done(Ok(_)) => goes_on(
                m,
                PhaseView::ConnectStart { ssid },
                RadioCommandView::Start,
            ),
            RadioReplyView::Done(Err(_)) => connect_failed(m),
            _ => stray(m),
        },
        PhaseView::ConnectStart { ssid } => match reply {
            RadioReplyView::Done(Ok(_)) => goes_on(
                m,
                PhaseView::ConnectRun { ssid },
                RadioCommandView::Connect,
            ),
            RadioReplyView::Done(Err(_)) => connect_failed(m),
            _ => stray(m),
        },
        PhaseView::ConnectRun { ssid } => match reply {
            RadioReplyView::Done(Ok(_)) => goes_on(
                m,
                PhaseView::ConnectIsConnected { ssid },
                RadioCommandView::IsConnected,
            ),
            RadioReplyView::Done(Err(_)) => connect_failed(m),
            _ => stray(m),
        },
        PhaseView::ConnectIsConnected { ssid } => match reply {
            RadioReplyView::Flag(Ok(associated)) => if associated {
                (
                    ControllerView { connected: Some(ssid), phase: PhaseView::Idle },
                    StepView::Finished(Ok(())),
                )
            } else {
                connect_failed(m)
            },
            RadioReplyView::Flag(Err(_)) => connect_failed(m),
            _ => stray(m),
        },
    }
}

enum Phase {
    Idle,
    ScanIsStarted { filter: Option<WifiSsid> },
    ScanStart { filter: Option<WifiSsid> },
    ScanRun,
    ScanReport { found: heapless::Vec<AccessPointInfo, MAX_NETWORKS>, next: usize },
    ScanEnd,
    ConnectIsStarted { creds: WifiCredentials },
    ConnectStop { creds: WifiCredentials },
    ConnectConfigure { ssid: WifiSsid },
    ConnectStart { ssid: WifiSsid },
    ConnectRun { ssid: WifiSsid },
    ConnectIsConnected { ssid: WifiSsid },
}

impl View for Phase {
    type V = PhaseView;

    closed spec fn view(&self) -> PhaseView {
        match self {
            Phase::Idle => PhaseView::Idle,
            Phase::ScanIsStarted { filter } => PhaseView::ScanIsStarted { filter: ssid_opt(*filter) },
            Phase::ScanStart { filter } => PhaseView::ScanStart { filter: ssid_opt(*filter) },
            Phase::ScanRun => PhaseView::ScanRun,
            Phase::ScanReport { found, next } => PhaseView::ScanReport {
                found: access_points(found_list(*found)),
                next: *next as nat,
            },
            Phase::ScanEnd => PhaseView::ScanEnd,
            Phase::ConnectIsStarted { creds } => PhaseView::ConnectIsStarted { creds: creds@ },
            Phase::ConnectStop { creds } => PhaseView::ConnectStop { creds: creds@ },
            Phase::ConnectConfigure { ssid } => PhaseView::ConnectConfigure { ssid: ssid@ },
            Phase::ConnectStart { ssid } => PhaseView::ConnectStart { ssid: ssid@ },
            Phase::ConnectRun { ssid } => PhaseView::ConnectRun { ssid: ssid@ },
            Phase::ConnectIsConnected { ssid } => PhaseView::ConnectIsConnected { ssid: ssid@ },
        }
    }
}

/// What a controller adapter holds and decides, whatever the radio.
struct Machine {
    connected: Option<WifiSsid>,
    phase: Phase,
}

impl View for Machine {
    type V = ControllerView;

    closed spec fn view(&self) -> ControllerView {
        ControllerView { connected: ssid_opt(self.connected), phase: self.phase@ }
    }
}

impl Machine {
    /// Creates an adapter that has recorded no network and has no request
    /// under way.
    fn new() -> (controller: Self)
        ensures
            controller@ == (ControllerView { connected: None, phase: PhaseView::Idle }),
    {
        Machine { connected: None, phase: Phase::Idle }
    }

    /// Begins a scan, for the network `network_id` only if one is given.
    fn scan(&mut self, network_id: Option<&WifiSsid>) -> (command: RadioCommand)
        ensures
            (final(self)@, command@) == scan_begin(
                old(self)@,
                match network_id {
                    Some(n) => Some(n@),
                    None => None,
                },
            ),
    {
        let filter = match network_id {
            Some(n) => Some(n.duplicate()),
            None => None,
        };
        self.phase = Phase::ScanIsStarted { filter };
        RadioCommand::IsStarted
    }

    /// Begins a connect to the network of `creds`. The recorded network is
    /// forgotten before anything is asked of the radio.
    fn connect(&mut self, creds: &WifiCredentials) -> (command: RadioCommand)
        ensures
            (final(self)@, command@) == connect_begin(old(self)@, creds@),
            final(self)@.connected is None,
    {
        self.connected = None;
        self.phase = Phase::ConnectIsStarted { creds: creds.duplicate() };
        RadioCommand::IsStarted
    }

    /// Returns the network that the last successful connect recorded.
    fn connected_network(&self) -> (network: Option<WifiSsid>)
        ensures
            ssid_opt(network) == self@.connected,
    {
        duplicate_ssid_opt(&self.connected)
    }

    /// Returns the link statistics. This radio offers none, which is no
    /// error.
    fn stats(&self) -> (stats: Result<Option<i8>, Error>)
        ensures
            stats == Ok::<Option<i8>, Error>(None),
    {
        Ok(None)
    }

    /// Tells whether no request is under way.
    fn is_idle(&self) -> (idle: bool)
        ensures
            idle == (self@.phase is Idle),
    {
        match self.phase {
            Phase::Idle => true,
            _ => false,
        }
    }

    fn report<E>(
        &mut self,
        found: heapless::Vec<AccessPointInfo, MAX_NETWORKS>,
        next: usize,
    ) -> (step: Step<E>)
        ensures
            (final(self)@, step@) == report_next::<E>(
                old(self)@,
                access_points(found_list(found)),
                next as nat,
            ),
    {
        let result = {
            let items = found_as_slice(&found);
            if next < items.len() {
                Some(to_scan_result(&items[next]))
            } else {
                None
            }
        };
        match result {
            Some(result) => {
                self.phase = Phase::ScanReport { found, next: next + 1 };
                Step::Run(RadioCommand::Report(Some(result)))
            },
            None => {
                self.phase = Phase::ScanEnd;
                Step::Run(RadioCommand::Report(None))
            },
        }
    }

    fn give_up<E>(&mut self, error: Error) -> (step: Step<E>)
        ensures
            final(self)@ == (ControllerView { connected: None, phase: old(self)@.phase }),
            step@ == StepView::<E>::Finished(Err(Fault::Adapter(error))),
    {
        self.connected = None;
        Step::Finished(Err(Fault::Adapter(error)))
    }

    /// Takes the answer to the operation last asked for and decides how
    /// the request goes on.
    fn advance<E>(&mut self, reply: RadioReply<E>) -> (step: Step<E>)
        ensures
            (final(self)@, step@) == advance_spec(old(self)@, reply@),
    {
        let mut phase = Phase::Idle;
        core::mem::swap(&mut self.phase, &mut phase);
        match phase {
            Phase::Idle => Step::Stray,
            Phase::ScanIsStarted { filter } => match reply {
                RadioReply::Flag(Ok(started)) => {
                    if started {
                        self.phase = Phase::ScanRun;
                        Step::Run(RadioCommand::Scan(filter))
                    } else {
                        self.phase = Phase::ScanStart { filter };
                        Step::Run(RadioCommand::Start)
                    }
                },
                RadioReply::Flag(Err(e)) => Step::Finished(Err(Fault::Adapter(to_err(e)))),
                _ => {
                    self.phase = Phase::ScanIsStarted { filter };
                    Step::Stray
                },
            },
            Phase::ScanStart { filter } => match reply {
                RadioReply::Done(Ok(_)) => {
                    self.phase = Phase::ScanRun;
                    Step::Run(RadioCommand::Scan(filter))
                },
                RadioReply::Done(Err(e)) => Step::Finished(Err(Fault::Adapter(to_err(e)))),
                _ => {
                    self.phase = Phase::ScanStart { filter };
                    Step::Stray
                },
            },
            Phase::ScanRun => match reply {
                RadioReply::Networks(Ok(found)) => self.report(found, 0),
                RadioReply::Networks(Err(e)) => Step::Finished(Err(Fault::Adapter(to_err(e)))),
                _ => {
                    self.phase = Phase::ScanRun;
                    Step::Stray
                },
            },
            Phase::ScanReport { found, next } => match reply {
                RadioReply::Reported(Ok(_)) => self.report(found, next),
                RadioReply::Reported(Err(e)) => Step::Finished(Err(Fault::Engine(e))),
                _ => {
                    self.phase = Phase::ScanReport { found, next };
                    Step::Stray
                },
            },
            Phase::ScanEnd => match reply {
                RadioReply::Reported(Ok(_)) => Step::Finished(Ok(())),
                RadioReply::Reported(Err(e)) => Step::Finished(Err(Fault::Engine(e))),
                _ => {
                    self.phase = Phase::ScanEnd;
                    Step::Stray
                },
            },
            Phase::ConnectIsStarted { creds } => match reply {
                RadioReply::Flag(Ok(started)) => {
                    if started {
                        self.phase = Phase::ConnectStop { creds };
                        Step::Run(RadioCommand::Stop)
                    } else {
                        self.phase = Phase::ConnectConfigure { ssid: creds.ssid.duplicate() };
                        Step::Run(RadioCommand::SetConfiguration(creds))
                    }
                },
                RadioReply::Flag(Err(e)) => self.give_up(to_err(e)),
                _ => {
                    self.phase = Phase::ConnectIsStarted { creds };
                    Step::Stray
                },
            },
            Phase::ConnectStop { creds } => match reply {
                RadioReply::Done(Ok(_)) => {
                    self.phase = Phase::ConnectConfigure { ssid: creds.ssid.duplicate() };
                    Step::Run(RadioCommand::SetConfiguration(creds))
                },
                RadioReply::Done(Err(e)) => self.give_up(to_err(e)),
                _ => {
                    self.phase = Phase::ConnectStop { creds };
                    Step::Stray
                },
            },
            Phase::ConnectConfigure { ssid } => match reply {
                RadioReply::Done(Ok(_)) => {
                    self.phase = Phase::ConnectStart { ssid };
                    Step::Run(RadioCommand::Start)
                },
                RadioReply::Done(Err(e)) => self.give_up(to_err(e)),
                _ => {
                    self.phase = Phase::ConnectConfigure { ssid };
                    Step::Stray
                },
            },
            Phase::ConnectStart { ssid } => match reply {
                RadioReply::Done(Ok(_)) => {
                    self.phase = Phase::ConnectRun { ssid };
                    Step::Run(RadioCommand::Connect)
                },
                RadioReply::Done(Err(e)) => self.give_up(to_err(e)),
                _ => {
                    self.phase = Phase::ConnectStart { ssid };
                    Step::Stray
                },
            },
            Phase::ConnectRun { ssid } => match reply {
                RadioReply::Done(Ok(_)) => {
                    self.phase = Phase::ConnectIsConnected { ssid };
                    Step::Run(RadioCommand::IsConnected)
                },
                RadioReply::Done(Err(e)) => self.give_up(to_err(e)),
                _ => {
                    self.phase = Phase::ConnectRun { ssid };
                    Step::Stray
                },
            },
            Phase::ConnectIsConnected { ssid } => match reply {
                RadioReply::Flag(Ok(associated)) => {
                    if associated {
                        self.connected = Some(ssid);
                        Step::Finished(Ok(()))
                    } else {
                        self.give_up(Error::new(ErrorCode::NoNetworkInterface))
                    }
                },
                RadioReply::Flag(Err(e)) => self.give_up(to_err(e)),
                _ => {
                    self.phase = Phase::ConnectIsConnected { ssid };
                    Step::Stray
                },
            },
        }
    }
}

/// The adapter after it has taken the replies one after the other.
pub open spec fn feed<E>(m: ControllerView, replies: Seq<RadioReplyView<E>>) -> ControllerView
    decreases replies.len(),
{
    if replies.len() == 0 {
        m
    } else {
        advance_spec(feed(m, replies.drop_last()), replies.last()).0
    }
}

/// What the adapter decides on the last of the replies, after it has taken
/// those before it.
pub open spec fn last_step<E>(m: ControllerView, replies: Seq<RadioReplyView<E>>) -> StepView<E>
    recommends
        replies.len() > 0,
{
    advance_spec(feed(m, replies.drop_last()), replies.last()).1
}

/// The network that a connect under way is trying to join.
pub open spec fn connect_target(phase: PhaseView) -> Option<Seq<char>> {
    match phase {
        PhaseView::ConnectIsStarted { creds } => Some(creds.ssid),
        PhaseView::ConnectStop { creds } => Some(creds.ssid),
        PhaseView::ConnectConfigure { ssid } => Some(ssid),
        PhaseView::ConnectStart { ssid } => Some(ssid),
        PhaseView::ConnectRun { ssid } => Some(ssid),
        PhaseView::ConnectIsConnected { ssid } => Some(ssid),
        _ => None,
    }
}

/// One step of a connect. While the connect goes on, no network is
/// recorded and the target stays. A connect that fails leaves no network
/// recorded, whatever was recorded before. A connect ends well only when
/// the radio says that the station is associated, and then it has recorded
/// its target.
pub proof fn lemma_connect_step<E>(m: ControllerView, reply: RadioReplyView<E>)
    requires
        connect_target(m.phase) is Some,
    ensures
        ({
            let (after, step) = advance_spec(m, reply);
            &&& step is Run ==> after.connected == m.connected && connect_target(after.phase)
                == connect_target(m.phase)
            &&& step matches StepView::Finished(Err(fault)) ==> after.connected is None
                && after.phase is Idle && fault == Fault::<E>::Adapter(network_unavailable())
            &&& step matches StepView::Finished(Ok(_)) ==> after.phase is Idle && after.connected
                == connect_target(m.phase) && reply == RadioReplyView::<E>::Flag(Ok(true))
            &&& step is Stray ==> after == m
        }),
{
}

/// Whatever was recorded before a connect began and whatever the radio
/// answers afterwards, the adapter never shows any network but the one the
/// connect is for, and shows none until the connect has ended well. The
/// reply on which the connect ends well leaves that network recorded; the
/// reply on which it fails leaves none.
pub proof fn lemma_connect_never_stale<E>(
    m: ControllerView,
    creds: WifiCredentialsView,
    replies: Seq<RadioReplyView<E>>,
)
    ensures
        ({
            let after = feed(connect_begin(m, creds).0, replies);
            &&& after.connected is None || after.connected == Some(creds.ssid)
            &&& after.connected is Some ==> after.phase is Idle
            &&& after.phase is Idle || connect_target(after.phase) == Some(creds.ssid)
            &&& replies.len() > 0 ==> match last_step(connect_begin(m, creds).0, replies) {
                StepView::Finished(Ok(_)) => after.connected == Some(creds.ssid),
                StepView::Finished(Err(_)) => after.connected is None,
                _ => true,
            }
        }),
    decreases replies.len(),
{
    if replies.len() > 0 {
        lemma_connect_never_stale(m, creds, replies.drop_last());
        let before = feed(connect_begin(m, creds).0, replies.drop_last());
        if connect_target(before.phase) is Some {
            lemma_connect_step(before, replies.last());
        }
    }
}

/// The arguments of the scan callback over a whole scan that found
/// `found`: one report for each network, in the order found, and then the
/// end-of-results sentinel.
pub open spec fn scan_reports(found: Seq<AccessPointInfoView>) -> Seq<Option<WifiScanResultView>> {
    Seq::new(found.len(), |i: int| Some(scan_result_of(found[i]))).push(None)
}

/// The replies of a scan whose radio found `found` and whose callback has
/// returned well `returned` times.
pub open spec fn scan_replies<E>(found: Seq<AccessPointInfoView>, returned: nat) -> Seq<
    RadioReplyView<E>,
> {
    seq![RadioReplyView::Networks(Ok(found))] + Seq::new(
        returned,
        |i: int| RadioReplyView::Reported(Ok(())),
    )
}

/// A scan calls the callback once for every network found, in order, and
/// then once with the sentinel: after the radio has answered the scan and
/// the callback has returned well `returned` times, the adapter asks for
/// call number `returned` of [`scan_reports`]. The recorded network stays
/// as it was.
pub proof fn lemma_scan_reports_in_order<E>(
    m: ControllerView,
    found: Seq<AccessPointInfoView>,
    returned: nat,
)
    requires
        m.phase is ScanRun,
        returned <= found.len(),
    ensures
        last_step(m, scan_replies::<E>(found, returned)) == StepView::<E>::Run(
            RadioCommandView::Report(scan_reports(found)[returned as int]),
        ),
        feed(m, scan_replies::<E>(found, returned)) == (ControllerView {
            connected: m.connected,
            phase: if returned < found.len() {
                PhaseView::ScanReport { found, next: returned + 1 }
            } else {
                PhaseView::ScanEnd
            },
        }),
    decreases returned,
{
    let replies = scan_replies::<E>(found, returned);
    if returned == 0 {
        assert(replies.drop_last() =~= Seq::<RadioReplyView<E>>::empty());
        assert(replies.last() == RadioReplyView::<E>::Networks(Ok(found)));
    } else {
        let fewer = (returned - 1) as nat;
        lemma_scan_reports_in_order::<E>(m, found, fewer);
        assert(replies.drop_last() =~= scan_replies::<E>(found, fewer));
        assert(replies.last() == RadioReplyView::<E>::Reported(Ok(())));
    }
}

/// A scan whose radio and callback never fail ends well, right after the
/// callback has returned from the sentinel.
pub proof fn lemma_scan_ends_after_sentinel<E>(m: ControllerView, found: Seq<AccessPointInfoView>)
    requires
        m.phase is ScanRun,
    ensures
        last_step(m, scan_replies::<E>(found, found.len() + 1)) == StepView::<E>::Finished(Ok(())),
        feed(m, scan_replies::<E>(found, found.len() + 1)) == at_rest(m),
{
    let replies = scan_replies::<E>(found, found.len() + 1);
    lemma_scan_reports_in_order::<E>(m, found, found.len());
    assert(replies.drop_last() =~= scan_replies::<E>(found, found.len()));
    assert(replies.last() == RadioReplyView::<E>::Reported(Ok(())));
}

/// The controller adapter of the radios of the ESP32 family.
pub struct EspWifiController {
    machine: Machine,
}

impl View for EspWifiController {
    type V = ControllerView;

    closed spec fn view(&self) -> ControllerView {
        self.machine@
    }
}

impl EspWifiController {
    /// Creates an adapter that has recorded no network and has no request
    /// under way.
    pub fn new() -> (controller: Self)
        ensures
            controller@ == (ControllerView { connected: None, phase: PhaseView::Idle }),
    {
        EspWifiController { machine: Machine::new() }
    }

    /// Begins a scan, for the network `network_id` only if one is given:
    /// whatever request was under way is given up, and the radio is asked
    /// whether it is started. [`Self::advance`] takes the scan on from
    /// there, through the radio's scan and one report for each network
    /// found to the end-of-results sentinel.
    pub fn scan(&mut self, network_id: Option<&WifiSsid>) -> (command: RadioCommand)
        ensures
            (final(self)@, command@) == scan_begin(
                old(self)@,
                match network_id {
                    Some(n) => Some(n@),
                    None => None,
                },
            ),
    {
        self.machine.scan(network_id)
    }

    /// Begins a connect to the network of `creds`. The recorded network is
    /// forgotten before anything is asked of the radio. [`Self::advance`]
    /// takes the connect on from there; the network of `creds` is recorded
    /// when the connect ends well, and only then.
    pub fn connect(&mut self, creds: &WifiCredentials) -> (command: RadioCommand)
        ensures
            (final(self)@, command@) == connect_begin(old(self)@, creds@),
            final(self)@.connected is None,
    {
        self.machine.connect(creds)
    }

    /// Takes the answer to the operation last asked for and decides how
    /// the request goes on.
    pub fn advance<E>(&mut self, reply: RadioReply<E>) -> (step: Step<E>)
        ensures
            (final(self)@, step@) == advance_spec(old(self)@, reply@),
    {
        self.machine.advance(reply)
    }

    /// Returns the network that the last successful connect recorded.
    pub fn connected_network(&self) -> (network: Option<WifiSsid>)
        ensures
            ssid_opt(network) == self@.connected,
    {
        self.machine.connected_network()
    }

    /// Returns the link statistics. This radio offers none, which is no
    /// error.
    pub fn stats(&self) -> (stats: Result<Option<i8>, Error>)
        ensures
            stats == Ok::<Option<i8>, Error>(None),
    {
        self.machine.stats()
    }

    /// Tells whether no request is under way.
    pub fn is_idle(&self) -> (idle: bool)
        ensures
            idle == (self@.phase is Idle),
    {
        self.machine.is_idle()
    }
}

/// The controller adapter of the CYW43 radio.
pub struct Cyw43WifiController {
    machine: Machine,
}

impl View for Cyw43WifiController {
    type V = ControllerView;

    closed spec fn view(&self) -> ControllerView {
        self.machine@
    }
}

impl Cyw43WifiController {
    /// Creates an adapter that has recorded no network and has no request
    /// under way.
    pub fn new() -> (controller: Self)
        ensures
            controller@ == (ControllerView { connected: None, phase: PhaseView::Idle }),
    {
        Cyw43WifiController { machine: Machine::new() }
    }

    /// Begins a scan, for the network `network_id` only if one is given:
    /// whatever request was under way is given up, and the radio is asked
    /// whether it is started. [`Self::advance`] takes the scan on from
    /// there, through the radio's scan and one report for each network
    /// found to the end-of-results sentinel.
    pub fn scan(&mut self, network_id: Option<&WifiSsid>) -> (command: RadioCommand)
        ensures
            (final(self)@, command@) == scan_begin(
                old(self)@,
                match network_id {
                    Some(n) => Some(n@),
                    None => None,
                },
            ),
    {
        self.machine.scan(network_id)
    }

    /// Begins a connect to the network of `creds`. The recorded network is
    /// forgotten before anything is asked of the radio. [`Self::advance`]
    /// takes the connect on from there; the network of `creds` is recorded
    /// when the connect ends well, and only then.
    pub fn connect(&mut self, creds: &WifiCredentials) -> (command: RadioCommand)
        ensures
            (final(self)@, command@) == connect_begin(old(self)@, creds@),
            final(self)@.connected is None,
    {
        self.machine.connect(creds)
    }

    /// Takes the answer to the operation last asked for and decides how
    /// the request goes on.
    pub fn advance<E>(&mut self, reply: RadioReply<E>) -> (step: Step<E>)
        ensures
            (final(self)@, step@) == advance_spec(old(self)@, reply@),
    {
        self.machine.advance(reply)
    }

    /// Returns the network that the last successful connect recorded.
    pub fn connected_network(&self) -> (network: Option<WifiSsid>)
        ensures
            ssid_opt(network) == self@.connected,
    {
        self.machine.connected_network()
    }

    /// Returns the link statistics. This radio offers none, which is no
    /// error.
    pub fn stats(&self) -> (stats: Result<Option<i8>, Error>)
        ensures
            stats == Ok::<Option<i8>, Error>(None),
    {
        self.machine.stats()
    }

    /// Tells whether no request is under way.
    pub fn is_idle(&self) -> (idle: bool)
        ensures
            idle == (self@.phase is Idle),
    {
        self.machine.is_idle()
    }
}

} // verus!
