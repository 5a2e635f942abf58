//! The handle-lifecycle state machine.
//!
//! One run acquires a network session, opens one card inside it, asks for
//! the card's identity, and then releases the handles in reverse order:
//! card first, session second. The driver calls themselves are performed by
//! an unverified front end; this machine decides which call comes next and
//! interprets each raw result. Its contract pins every decision to
//! [`spec_step`], so the release discipline — disconnect exactly once per
//! connected session, close before disconnect, never a second release — is
//! proved of every possible sequence of driver outcomes.

use vstd::prelude::*;

use crate::errors::PicmlxError;
use crate::errors::PiplxError;
use crate::errors::picmlx_error_wrapper;
use crate::errors::piplx_error_wrapper;
use crate::text::spec_text_before_nul;
use crate::text::text_before_nul;

verus! {

/// Where the instrument chassis is reached: network address, port, and the
/// connect-phase timeout in milliseconds. Immutable once a run starts.
#[derive(Debug)]
pub struct Endpoint {
    pub address: String,
    pub port: u32,
    pub timeout_ms: u32,
}

/// Which physical card to open: its bus and slot inside the chassis.
#[derive(Clone, Copy, Debug, PartialEq, Eq, Structural)]
pub struct CardLocation {
    pub bus: u32,
    pub slot: u32,
}

/// A live session with the chassis, named by the opaque id the driver
/// returned from a successful connect.
#[derive(Clone, Copy, Debug, PartialEq, Eq, Structural)]
pub struct SessionHandle {
    pub sid: i64,
}

/// An open card, named by the opaque number the driver returned, together
/// with the id of the session it was opened in: a card is only ever used
/// and closed through its owning session.
#[derive(Clone, Copy, Debug, PartialEq, Eq, Structural)]
pub struct CardHandle {
    pub card_num: u32,
    pub session_sid: i64,
}

/// The raw result of one driver call, as the front end observed it. Codes
/// are the driver's own: zero is success, anything else a failure of the
/// respective subsystem.
#[derive(Debug)]
pub enum DriverEvent {
    /// Connect returned `code` and, on success, the session id `sid`.
    ConnectDone { code: u32, sid: i64 },
    /// Open-card returned `code` and, on success, the card number.
    OpenDone { code: u32, card_num: u32 },
    /// Identify returned `code` and filled the fixed text buffer.
    IdentifyDone { code: u32, buffer: Vec<u8> },
    /// Close-card returned `code`.
    CloseDone { code: u32 },
    /// Disconnect returned `code`.
    DisconnectDone { code: u32 },
}

/// The mathematical shape of a [`DriverEvent`]: the identify buffer becomes
/// a byte sequence.
pub enum DriverEventModel {
    ConnectDone { code: u32, sid: i64 },
    OpenDone { code: u32, card_num: u32 },
    IdentifyDone { code: u32, buffer: Seq<u8> },
    CloseDone { code: u32 },
    DisconnectDone { code: u32 },
}

impl View for DriverEvent {
    type V = DriverEventModel;

    open spec fn view(&self) -> DriverEventModel {
        match self {
            DriverEvent::ConnectDone { code, sid } => (DriverEventModel::ConnectDone {
                code: *code,
                sid: *sid,
            }),
            DriverEvent::OpenDone { code, card_num } => (DriverEventModel::OpenDone {
                code: *code,
                card_num: *card_num,
            }),
            DriverEvent::IdentifyDone { code, buffer } => (DriverEventModel::IdentifyDone {
                code: *code,
                buffer: buffer@,
            }),
            DriverEvent::CloseDone { code } => (DriverEventModel::CloseDone { code: *code }),
            DriverEvent::DisconnectDone { code } => (DriverEventModel::DisconnectDone {
                code: *code,
            }),
        }
    }
}

/// What the machine asks the front end to do next. The numeric parameters
/// of each call stand in the command itself; only the connect address is
/// read from the machine separately.
#[derive(Clone, Copy, Debug, PartialEq, Eq, Structural)]
pub enum Command {
    /// Connect to the chassis at the machine's endpoint.
    Connect { board: u32, port: u32, timeout_ms: u32 },
    /// Open the card at `bus`/`slot` within session `sid`.
    OpenCard { sid: i64, bus: u32, slot: u32 },
    /// Query the identity text of card `card_num` in session `sid`.
    Identify { sid: i64, card_num: u32 },
    /// Close card `card_num` in session `sid`.
    CloseCard { sid: i64, card_num: u32 },
    /// Disconnect session `sid`.
    Disconnect { sid: i64 },
    /// The run is over; collect the report.
    Finished,
}

/// Which step of the sequence the run stands at, holding the handles
/// acquired so far.
#[derive(Clone, Copy, Debug, PartialEq, Eq, Structural)]
pub enum Phase {
    /// Waiting for the connect result; nothing acquired yet.
    Connecting,
    /// Session live, waiting for the open-card result.
    Opening { session: SessionHandle },
    /// Session and card live, waiting for the identify result.
    Identifying { session: SessionHandle, card: CardHandle },
    /// Session and card live, waiting for the close-card result.
    Closing { session: SessionHandle, card: CardHandle },
    /// Card released (or never opened), waiting for the disconnect result.
    Disconnecting { session: SessionHandle },
    /// Every acquired handle has been released; the run is over.
    Complete,
}

/// A failure of the forward sequence: it aborts the run and is its primary
/// result. Failures of identify and of the cleanup calls are never primary;
/// they are recorded as [`CleanupWarning`]s.
#[derive(Clone, Copy, Debug, PartialEq, Eq, Structural)]
pub enum RunError {
    /// Connect failed; nothing was acquired.
    Connect(PicmlxError),
    /// Open-card failed; the session was still released.
    OpenCard(PiplxError),
}

/// A non-fatal failure, reported alongside the run's primary result and
/// never in its place.
#[derive(Clone, Copy, Debug, PartialEq, Eq, Structural)]
pub enum CleanupWarning {
    /// Identify failed; the card stays open and is still closed later.
    Identify(PiplxError),
    /// Close-card failed during cleanup; disconnect still follows.
    CloseCard(PiplxError),
    /// Disconnect failed during cleanup.
    Disconnect(PicmlxError),
}

/// What a finished run reports: its primary outcome, the card identity when
/// identify succeeded, and the non-fatal failures met along the way.
#[derive(Debug, PartialEq, Eq)]
pub struct RunReport {
    pub outcome: Result<(), RunError>,
    pub card_id: Option<Vec<u8>>,
    pub warnings: Vec<CleanupWarning>,
}

/// The mathematical shape of a [`RunReport`].
#[verifier::ext_equal]
pub struct RunReportModel {
    pub outcome: Result<(), RunError>,
    pub card_id: Option<Seq<u8>>,
    pub warnings: Seq<CleanupWarning>,
}

impl View for RunReport {
    type V = RunReportModel;

    open spec fn view(&self) -> RunReportModel {
        RunReportModel {
            outcome: self.outcome,
            card_id: match self.card_id {
                Some(t) => Some(t@),
                None => None,
            },
            warnings: self.warnings@,
        }
    }
}

/// The mathematical state of an [`Orchestrator`]: its configuration, the
/// phase it stands at, and the report fields gathered so far.
#[verifier::ext_equal]
pub struct OrchestratorModel {
    pub board: u32,
    pub address: Seq<char>,
    pub port: u32,
    pub timeout_ms: u32,
    pub bus: u32,
    pub slot: u32,
    pub phase: Phase,
    pub failure: Option<RunError>,
    pub card_id: Option<Seq<u8>>,
    pub warnings: Seq<CleanupWarning>,
}

/// Whether an event is the result the machine is waiting for in phase `p`:
/// exactly the answer to the command it last issued.
pub open spec fn event_matches(p: Phase, e: DriverEventModel) -> bool {
    match p {
        Phase::Connecting => e is ConnectDone,
        Phase::Opening { .. } => e is OpenDone,
        Phase::Identifying { .. } => e is IdentifyDone,
        Phase::Closing { .. } => e is CloseDone,
        Phase::Disconnecting { .. } => e is DisconnectDone,
        Phase::Complete => false,
    }
}

/// The machine's transition function: from a state and the result of the
/// pending call to the next state and the next command.
///
/// - A connect failure ends the run at once: nothing was acquired, nothing
///   is released, and the failure is primary.
/// - An open-card failure makes the run disconnect the session it already
///   holds; the failure is primary.
/// - An identify failure is a warning only: the card stays open and the
///   run proceeds to close it.
/// - Close-card and disconnect failures during cleanup are warnings only
///   and never stop the remaining cleanup.
pub open spec fn spec_step(m: OrchestratorModel, e: DriverEventModel) -> (OrchestratorModel, Command) {
    match (m.phase, e) {
        (Phase::Connecting, DriverEventModel::ConnectDone { code, sid }) => {
            if code == 0 {
                (
                    OrchestratorModel {
                        phase: Phase::Opening { session: SessionHandle { sid } },
                        ..m
                    },
                    Command::OpenCard { sid, bus: m.bus, slot: m.slot },
                )
            } else {
                (
                    OrchestratorModel {
                        phase: Phase::Complete,
                        failure: Some(RunError::Connect(PicmlxError { err_num: code })),
                        ..m
                    },
                    Command::Finished,
                )
            }
        }
        (Phase::Opening { session }, DriverEventModel::OpenDone { code, card_num }) => {
            if code == 0 {
                let card = CardHandle { card_num, session_sid: session.sid };
                (
                    OrchestratorModel { phase: Phase::Identifying { session, card }, ..m },
                    Command::Identify { sid: session.sid, card_num },
                )
            } else {
                (
                    OrchestratorModel {
                        phase: Phase::Disconnecting { session },
                        failure: Some(RunError::OpenCard(PiplxError { err_num: code })),
                        ..m
                    },
                    Command::Disconnect { sid: session.sid },
                )
            }
        }
        (Phase::Identifying { session, card }, DriverEventModel::IdentifyDone { code, buffer }) => {
            if code == 0 {
                (
                    OrchestratorModel {
                        phase: Phase::Closing { session, card },
                        card_id: Some(spec_text_before_nul(buffer)),
                        ..m
                    },
                    Command::CloseCard { sid: session.sid, card_num: card.card_num },
                )
            } else {
                (
                    OrchestratorModel {
                        phase: Phase::Closing { session, card },
                        warnings: m.warnings.push(
                            CleanupWarning::Identify(PiplxError { err_num: code }),
                        ),
                        ..m
                    },
                    Command::CloseCard { sid: session.sid, card_num: card.card_num },
                )
            }
        }
        (Phase::Closing { session, card }, DriverEventModel::CloseDone { code }) => {
            if code == 0 {
                (
                    OrchestratorModel { phase: Phase::Disconnecting { session }, ..m },
                    Command::Disconnect { sid: session.sid },
                )
            } else {
                (
                    OrchestratorModel {
                        phase: Phase::Disconnecting { session },
                        warnings: m.warnings.push(
                            CleanupWarning::CloseCard(PiplxError { err_num: code }),
                        ),
                        ..m
                    },
                    Command::Disconnect { sid: session.sid },
                )
            }
        }
        (Phase::Disconnecting { .. }, DriverEventModel::DisconnectDone { code }) => {
            if code == 0 {
                (OrchestratorModel { phase: Phase::Complete, ..m }, Command::Finished)
            } else {
                (
                    OrchestratorModel {
                        phase: Phase::Complete,
                        warnings: m.warnings.push(
                            CleanupWarning::Disconnect(PicmlxError { err_num: code }),
                        ),
                        ..m
                    },
                    Command::Finished,
                )
            }
        }
        _ => (m, Command::Finished),
    }
}

/// The state a fresh run starts in: phase [`Phase::Connecting`], no
/// failure, no identity, no warnings.
pub open spec fn init_model(
    board: u32,
    address: Seq<char>,
    port: u32,
    timeout_ms: u32,
    bus: u32,
    slot: u32,
) -> OrchestratorModel {
    OrchestratorModel {
        board,
        address,
        port,
        timeout_ms,
        bus,
        slot,
        phase: Phase::Connecting,
        failure: None,
        card_id: None,
        warnings: Seq::empty(),
    }
}

/// The report a finished run hands out, read off the machine's state.
pub open spec fn spec_report(m: OrchestratorModel) -> RunReportModel {
    RunReportModel {
        outcome: match m.failure {
            Some(err) => Err(err),
            None => Ok(()),
        },
        card_id: m.card_id,
        warnings: m.warnings,
    }
}

/// Drives one run of the sequence connect → open card → identify → close
/// card → disconnect. The front end performs each [`Command`] against the
/// driver and feeds the raw result back through [`Orchestrator::step`].
#[derive(Debug)]
pub struct Orchestrator {
    board: u32,
    endpoint: Endpoint,
    location: CardLocation,
    phase: Phase,
    failure: Option<RunError>,
    card_id: Option<Vec<u8>>,
    warnings: Vec<CleanupWarning>,
}

impl View for Orchestrator {
    type V = OrchestratorModel;

    closed spec fn view(&self) -> OrchestratorModel {
        OrchestratorModel {
            board: self.board,
            address: self.endpoint.address@,
            port: self.endpoint.port,
            timeout_ms: self.endpoint.timeout_ms,
            bus: self.location.bus,
            slot: self.location.slot,
            phase: self.phase,
            failure: self.failure,
            card_id: match self.card_id {
                Some(t) => Some(t@),
                None => None,
            },
            warnings: self.warnings@,
        }
    }
}

impl Orchestrator {
    /// Begin a run against the given adapter, endpoint and card location.
    /// The first command is always [`Command::Connect`], read with
    /// [`Orchestrator::connect_command`].
    pub fn new(board: u32, endpoint: Endpoint, location: CardLocation) -> (r: Self)
        ensures
            r@ == init_model(
                board,
                endpoint.address@,
                endpoint.port,
                endpoint.timeout_ms,
                location.bus,
                location.slot,
            ),
    {
        let r = Orchestrator {
            board,
            endpoint,
            location,
            phase: Phase::Connecting,
            failure: None,
            card_id: None,
            warnings: Vec::new(),
        };
        proof {
            assert(r@ =~= init_model(
                r.board,
                r.endpoint.address@,
                r.endpoint.port,
                r.endpoint.timeout_ms,
                r.location.bus,
                r.location.slot,
            ));
        }
        r
    }

    /// The connect command that opens the run: the configured adapter
    /// index, port and timeout. The address is read separately with
    /// [`Orchestrator::endpoint_address`].
    pub fn connect_command(&self) -> (c: Command)
        ensures
            c == (Command::Connect {
                board: self@.board,
                port: self@.port,
                timeout_ms: self@.timeout_ms,
            }),
    {
        Command::Connect {
            board: self.board,
            port: self.endpoint.port,
            timeout_ms: self.endpoint.timeout_ms,
        }
    }

    /// The network address the connect command is to be issued against.
    pub fn endpoint_address(&self) -> (a: &String)
        ensures
            a@ == self@.address,
    {
        &self.endpoint.address
    }

    /// Whether `e` is the result the machine is waiting for: the front end
    /// checks this before calling [`Orchestrator::step`].
    pub fn accepts(&self, e: &DriverEvent) -> (b: bool)
        ensures
            b == event_matches(self@.phase, e@),
    {
        match (&self.phase, e) {
            (Phase::Connecting, DriverEvent::ConnectDone { .. }) => true,
            (Phase::Opening { .. }, DriverEvent::OpenDone { .. }) => true,
            (Phase::Identifying { .. }, DriverEvent::IdentifyDone { .. }) => true,
            (Phase::Closing { .. }, DriverEvent::CloseDone { .. }) => true,
            (Phase::Disconnecting { .. }, DriverEvent::DisconnectDone { .. }) => true,
            _ => false,
        }
    }

    /// Whether the run is over and [`Orchestrator::into_report`] may be
    /// called.
    pub fn is_complete(&self) -> (b: bool)
        ensures
            b == (self@.phase is Complete),
    {
        match self.phase {
            Phase::Complete => true,
            _ => false,
        }
    }

    /// Feed back the raw result of the pending driver call; the machine
    /// moves exactly as [`spec_step`] says and hands out the next command.
    pub fn step(&mut self, e: DriverEvent) -> (c: Command)
        requires
            event_matches(old(self)@.phase, e@),
        ensures
            final(self)@ == spec_step(old(self)@, e@).0,
            c == spec_step(old(self)@, e@).1,
    {
        let ghost target = spec_step(self@, e@);
        let ph = self.phase;
        let c = match (ph, e) {
            (Phase::Connecting, DriverEvent::ConnectDone { code, sid }) => {
                match picmlx_error_wrapper(code) {
                    Ok(()) => {
                        self.phase = Phase::Opening { session: SessionHandle { sid } };
                        Command::OpenCard {
                            sid,
                            bus: self.location.bus,
                            slot: self.location.slot,
                        }
                    }
                    Err(err) => {
                        self.phase = Phase::Complete;
                        self.failure = Some(RunError::Connect(err));
                        Command::Finished
                    }
                }
            }
            (Phase::Opening { session }, DriverEvent::OpenDone { code, card_num }) => {
                match piplx_error_wrapper(code) {
                    Ok(()) => {
                        let card = CardHandle { card_num, session_sid: session.sid };
                        self.phase = Phase::Identifying { session, card };
                        Command::Identify { sid: session.sid, card_num }
                    }
                    Err(err) => {
                        self.phase = Phase::Disconnecting { session };
                        self.failure = Some(RunError::OpenCard(err));
                        Command::Disconnect { sid: session.sid }
                    }
                }
            }
            (Phase::Identifying { session, card }, DriverEvent::IdentifyDone { code, buffer }) => {
                match piplx_error_wrapper(code) {
                    Ok(()) => {
                        self.card_id = Some(text_before_nul(&buffer));
                    }
                    Err(err) => {
                        self.warnings.push(CleanupWarning::Identify(err));
                    }
                }
                self.phase = Phase::Closing { session, card };
                Command::CloseCard { sid: session.sid, card_num: card.card_num }
            }
            (Phase::Closing { session, card: _ }, DriverEvent::CloseDone { code }) => {
                match piplx_error_wrapper(code) {
                    Ok(()) => {}
                    Err(err) => {
                        self.warnings.push(CleanupWarning::CloseCard(err));
                    }
                }
                self.phase = Phase::Disconnecting { session };
                Command::Disconnect { sid: session.sid }
            }
            (Phase::Disconnecting { session: _ }, DriverEvent::DisconnectDone { code }) => {
                match picmlx_error_wrapper(code) {
                    Ok(()) => {}
                    Err(err) => {
                        self.warnings.push(CleanupWarning::Disconnect(err));
                    }
                }
                self.phase = Phase::Complete;
                Command::Finished
            }
            _ => {
                proof {
                    assert(false);
                }
                Command::Finished
            }
        };
        proof {
            assert(self@ =~= target.0);
        }
        c
    }

    /// Hand out the finished run's report: its primary outcome, the card
    /// identity if identify succeeded, and the recorded warnings.
    pub fn into_report(self) -> (r: RunReport)
        requires
            self@.phase is Complete,
        ensures
            r@ == spec_report(self@),
    {
        let ghost m = self@;
        let outcome = match self.failure {
            Some(err) => Err(err),
            None => Ok(()),
        };
        let r = RunReport { outcome, card_id: self.card_id, warnings: self.warnings };
        proof {
            assert(r@ =~= spec_report(m));
        }
        r
    }
}

} // verus!
