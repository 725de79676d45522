//! The connection session: one logical, self-healing connection to one
//! peripheral.
//!
//! A session outlives the transport connections it uses. It is written as a
//! state machine that never touches the transport itself: each call hands it
//! one event and gets back the action to carry out and the states to report
//! to the connection handler. Whoever drives the session opens and drops the
//! transport, sleeps between attempts, and feeds the outcome back in.

pub mod runs;

use crate::device::DeviceInfo;
use vstd::prelude::*;

verus! {

/// Baud rate at which the peripheral talks.
pub const BAUD_RATE: u32 = 9600;

/// Why a session gave up.
#[derive(Clone, Copy, Debug, PartialEq, Eq, Structural)]
pub enum SessionErrorKind {
    /// The session could not be set up.
    InitializationError,
    /// No attempt to open the transport succeeded within the attempt limit.
    TimeOut,
}

impl SessionErrorKind {
    /// The text that describes the error to a user.
    pub open spec fn message_text(&self) -> Seq<char> {
        match self {
            SessionErrorKind::InitializationError => "Failed initialization."@,
            SessionErrorKind::TimeOut => "Timeout."@,
        }
    }

    /// The text that describes the error to a user.
    pub fn message(&self) -> (text: &'static str)
        ensures
            text@ == self.message_text(),
    {
        match self {
            SessionErrorKind::InitializationError => "Failed initialization.",
            SessionErrorKind::TimeOut => "Timeout.",
        }
    }
}

/// The kind of a fault that the serial transport reported.
#[derive(Clone, Copy, Debug, PartialEq, Eq, Structural)]
pub enum SerialportErrorKind {
    /// The device is not available: in use elsewhere, or unplugged.
    NoDevice,
    /// A parameter was incorrect.
    InvalidInput,
    /// An unknown error.
    Unknown,
    /// An I/O error.
    Io,
}

/// What can go wrong in a session.
#[derive(Clone, Copy, Debug, PartialEq, Eq, Structural)]
pub enum Error {
    /// The session itself gave up.
    Session(SessionErrorKind),
    /// The serial transport reported a fault.
    Serialport(SerialportErrorKind),
}

/// Where a session stands.
#[derive(Clone, Copy, Debug, PartialEq, Eq, Structural)]
pub enum SessionState {
    /// Opening the transport, for the first time or again.
    Connecting,
    /// The transport is open.
    Connected,
    /// No transport is open and none is being opened.
    Disconnected,
    /// The session ran into an error and waits to be told to connect again.
    Error(Error),
}

/// How long a session waits after a failed attempt before the next one.
#[derive(Clone, Copy, Debug, PartialEq, Eq, Structural)]
pub struct RetryInterval {
    /// Whole seconds.
    pub secs: u64,
    /// Nanoseconds on top of the whole seconds.
    pub nanos: u32,
}

impl RetryInterval {
    /// The interval is empty: the next attempt follows at once.
    pub open spec fn is_zero(&self) -> bool {
        self.secs == 0 && self.nanos == 0
    }

    /// The length of the interval in nanoseconds.
    pub open spec fn total_nanos(&self) -> nat {
        (self.secs * 1_000_000_000 + self.nanos) as nat
    }

    /// The interval of `millis` milliseconds.
    pub fn from_millis(millis: u64) -> (interval: Self)
        ensures
            interval.total_nanos() == millis * 1_000_000,
            interval.nanos < 1_000_000_000,
    {
        let rest: u64 = millis % 1000;
        RetryInterval { secs: millis / 1000, nanos: (rest * 1_000_000) as u32 }
    }
}

impl Default for RetryInterval {
    fn default() -> (interval: Self)
        ensures
            interval.is_zero(),
    {
        RetryInterval { secs: 0, nanos: 0 }
    }
}

/// What happened, as told to a session by whoever drives it.
#[derive(Clone, Copy, Debug, PartialEq, Eq, Structural)]
pub enum SessionEvent {
    /// The caller asks for the connection.
    ConnectRequested,
    /// The attempt to open the transport succeeded.
    Opened,
    /// The attempt to open the transport failed.
    OpenFailed,
    /// The open transport reported that the link is closed or broken.
    Closed,
    /// The transport reported a fault of another kind.
    Faulted(SerialportErrorKind),
}

/// What a session asks of whoever drives it.
#[derive(Clone, Copy, Debug, PartialEq, Eq, Structural)]
pub enum SessionAction {
    /// Nothing, until the next event.
    Idle,
    /// Open the transport now and report how it went.
    Open,
    /// Wait for the interval, then open the transport and report how it went.
    OpenAfter(RetryInterval),
    /// Drop the transport handle.
    Close,
    /// Drop the transport handle, then open the transport anew and report
    /// how it went.
    Reopen,
}

impl SessionAction {
    /// The action asks for an attempt to open the transport.
    pub open spec fn asks_to_open(&self) -> bool {
        self is Open || self is OpenAfter || self is Reopen
    }

    /// The action asks to drop the transport handle that the session holds.
    pub open spec fn drops_handle(&self) -> bool {
        self is Close || self is Reopen
    }
}

/// The mathematical model of a session: its state, its configuration, and
/// the count of failed attempts in the running sequence of attempts.
pub struct SessionModel {
    /// Where the session stands.
    pub state: SessionState,
    /// How many attempts one sequence may take; 0 for no limit.
    pub connect_attempt_limit: u16,
    /// The wait between two attempts.
    pub connect_retry_interval: RetryInterval,
    /// Failed attempts counted so far in the running sequence. Nothing is
    /// counted where there is no limit.
    pub failed_attempts: u16,
}

/// What one event does to a session.
pub struct Step {
    /// The session after the event.
    pub next: SessionModel,
    /// The states that the session went through, for the connection handler:
    /// one for each transition, in the order they were taken.
    pub notified: Seq<SessionState>,
    /// What the driver is to do now.
    pub action: SessionAction,
}

impl SessionModel {
    /// One more failed attempt uses up the attempt limit.
    pub open spec fn on_last_attempt(&self) -> bool {
        self.connect_attempt_limit != 0 && self.failed_attempts + 1 >= self.connect_attempt_limit
    }

    /// The session may be told to connect: no sequence of attempts runs and
    /// no transport is open.
    pub open spec fn at_rest(&self) -> bool {
        self.state is Disconnected || self.state is Error
    }

    /// The session takes no notice of the event.
    pub open spec fn unmoved(self) -> Step {
        Step { next: self, notified: Seq::empty(), action: SessionAction::Idle }
    }

    /// The session moves to `state`, tells the handler, and asks for `action`.
    pub open spec fn moved(self, state: SessionState, action: SessionAction) -> Step {
        Step { next: SessionModel { state, ..self }, notified: seq![state], action }
    }

    /// The session starts a new sequence of attempts.
    pub open spec fn restarted(self) -> SessionModel {
        SessionModel { state: SessionState::Connecting, failed_attempts: 0, ..self }
    }

    /// The session after a failed attempt that leaves room for another one.
    pub open spec fn retrying(self) -> SessionModel {
        if self.connect_attempt_limit != 0 {
            SessionModel { failed_attempts: (self.failed_attempts + 1) as u16, ..self }
        } else {
            self
        }
    }

    /// The transition that `event` makes the session take.
    ///
    /// - A request to connect starts a sequence of attempts when the session
    ///   is at rest: it moves to `Connecting` and asks to open the transport.
    /// - A successful attempt moves a connecting session to `Connected`.
    /// - A failed attempt keeps a connecting session in `Connecting`, asking
    ///   for the next attempt after the retry interval, unless it was the
    ///   last attempt that the limit allows: then the session moves to
    ///   `Error(Session(TimeOut))` and asks for nothing more.
    /// - A closed link moves a connected session to `Disconnected` and from
    ///   there at once to `Connecting`: it asks to drop the old handle and to
    ///   open the transport anew, with a fresh attempt count.
    /// - A fault moves the session to `Error(Serialport(kind))` from any
    ///   state, asking to drop the handle if one is open.
    /// - Any other event leaves the session as it is.
    pub open spec fn step(self, event: SessionEvent) -> Step {
        match event {
            SessionEvent::ConnectRequested => if self.at_rest() {
                self.restarted().moved(SessionState::Connecting, SessionAction::Open)
            } else {
                self.unmoved()
            },
            SessionEvent::Opened => if self.state is Connecting {
                self.moved(SessionState::Connected, SessionAction::Idle)
            } else {
                self.unmoved()
            },
            SessionEvent::OpenFailed => if self.state is Connecting {
                if self.on_last_attempt() {
                    self.moved(
                        SessionState::Error(Error::Session(SessionErrorKind::TimeOut)),
                        SessionAction::Idle,
                    )
                } else {
                    self.retrying().moved(
                        SessionState::Connecting,
                        SessionAction::OpenAfter(self.connect_retry_interval),
                    )
                }
            } else {
                self.unmoved()
            },
            SessionEvent::Closed => if self.state is Connected {
                Step {
                    next: self.restarted(),
                    notified: seq![SessionState::Disconnected, SessionState::Connecting],
                    action: SessionAction::Reopen,
                }
            } else {
                self.unmoved()
            },
            SessionEvent::Faulted(kind) => self.moved(
                SessionState::Error(Error::Serialport(kind)),
                if self.state is Connected {
                    SessionAction::Close
                } else {
                    SessionAction::Idle
                },
            ),
        }
    }
}

/// What a session hands back for one event.
#[derive(Clone, Debug, PartialEq, Eq)]
pub struct Reaction {
    /// The states to report to the connection handler, one call for each, in
    /// this order.
    pub notifications: Vec<SessionState>,
    /// What to do now.
    pub action: SessionAction,
}

/// Collects the settings of a session before it is built.
pub struct SessionBuilder {
    device_info: DeviceInfo,
    connect_attempt_limit: u16,
    connect_retry_interval: RetryInterval,
}

impl SessionBuilder {
    /// The device that the session will talk to.
    pub closed spec fn device(&self) -> DeviceInfo {
        self.device_info
    }

    /// The attempt limit set so far.
    pub closed spec fn attempt_limit(&self) -> u16 {
        self.connect_attempt_limit
    }

    /// The retry interval set so far.
    pub closed spec fn retry_interval(&self) -> RetryInterval {
        self.connect_retry_interval
    }

    /// Starts the settings of a session with `device_info`: no limit on the
    /// attempts, and no wait between them.
    pub fn new(device_info: DeviceInfo) -> (builder: Self)
        ensures
            builder.device() == device_info,
            builder.attempt_limit() == 0,
            builder.retry_interval().is_zero(),
    {
        SessionBuilder {
            device_info,
            connect_attempt_limit: 0,
            connect_retry_interval: RetryInterval { secs: 0, nanos: 0 },
        }
    }

    /// Sets how many attempts one sequence may take; 0 lifts the limit.
    pub fn connect_attempt_limit(self, connect_attempt_limit: u16) -> (builder: Self)
        ensures
            builder.attempt_limit() == connect_attempt_limit,
            builder.device() == self.device(),
            builder.retry_interval() == self.retry_interval(),
    {
        let mut builder = self;
        builder.connect_attempt_limit = connect_attempt_limit;
        builder
    }

    /// Sets the wait between two attempts.
    pub fn connect_retry_interval(self, connect_retry_interval: RetryInterval) -> (builder: Self)
        ensures
            builder.retry_interval() == connect_retry_interval,
            builder.device() == self.device(),
            builder.attempt_limit() == self.attempt_limit(),
    {
        let mut builder = self;
        builder.connect_retry_interval = connect_retry_interval;
        builder
    }

    /// Builds the session: disconnected, with the settings collected so far.
    pub fn build(self) -> (session: Session)
        ensures
            session.device() == self.device(),
            session@ == (SessionModel {
                state: SessionState::Disconnected,
                connect_attempt_limit: self.attempt_limit(),
                connect_retry_interval: self.retry_interval(),
                failed_attempts: 0,
            }),
    {
        Session::new(self.device_info).set_connect_attempt_limit(
            self.connect_attempt_limit,
        ).set_connect_retry_interval(self.connect_retry_interval)
    }
}

/// One logical connection to one peripheral.
pub struct Session {
    device_info: DeviceInfo,
    state: SessionState,
    connect_attempt_limit: u16,
    connect_retry_interval: RetryInterval,
    failed_attempts: u16,
}

impl View for Session {
    type V = SessionModel;

    closed spec fn view(&self) -> SessionModel {
        SessionModel {
            state: self.state,
            connect_attempt_limit: self.connect_attempt_limit,
            connect_retry_interval: self.connect_retry_interval,
            failed_attempts: self.failed_attempts,
        }
    }
}

impl Session {
    /// The device that the session talks to.
    pub closed spec fn device(&self) -> DeviceInfo {
        self.device_info
    }

    /// A disconnected session for `device_info`: no limit on the attempts,
    /// and no wait between them.
    pub fn new(device_info: DeviceInfo) -> (session: Self)
        ensures
            session.device() == device_info,
            session@.state == SessionState::Disconnected,
            session@.connect_attempt_limit == 0,
            session@.connect_retry_interval.is_zero(),
            session@.failed_attempts == 0,
    {
        Session {
            device_info,
            state: SessionState::Disconnected,
            connect_attempt_limit: 0,
            connect_retry_interval: RetryInterval { secs: 0, nanos: 0 },
            failed_attempts: 0,
        }
    }

    /// Sets how many attempts one sequence may take; 0 lifts the limit.
    pub fn set_connect_attempt_limit(self, connect_attempt_limit: u16) -> (session: Self)
        ensures
            session.device() == self.device(),
            session@ == (SessionModel { connect_attempt_limit, ..self@ }),
    {
        let mut session = self;
        session.connect_attempt_limit = connect_attempt_limit;
        session
    }

    /// How many attempts one sequence may take; 0 for no limit.
    pub fn connect_attempt_limit(&self) -> (limit: u16)
        ensures
            limit == self@.connect_attempt_limit,
    {
        self.connect_attempt_limit
    }

    /// Sets the wait between two attempts.
    pub fn set_connect_retry_interval(self, connect_retry_interval: RetryInterval) -> (session:
        Self)
        ensures
            session.device() == self.device(),
            session@ == (SessionModel { connect_retry_interval, ..self@ }),
    {
        let mut session = self;
        session.connect_retry_interval = connect_retry_interval;
        session
    }

    /// The wait between two attempts.
    pub fn connect_retry_interval(&self) -> (interval: RetryInterval)
        ensures
            interval == self@.connect_retry_interval,
    {
        self.connect_retry_interval
    }

    /// Where the session stands.
    pub fn state(&self) -> (state: SessionState)
        ensures
            state == self@.state,
    {
        self.state
    }

    /// The device that the session talks to.
    pub fn device_info(&self) -> (device_info: &DeviceInfo)
        ensures
            *device_info == self.device(),
    {
        &self.device_info
    }

    /// Asks for the connection.
    ///
    /// A session at rest moves to `Connecting` and asks to open the
    /// transport; the attempts that follow are the driver's to make and to
    /// report with `handle`. A session that is connecting or connected takes
    /// no notice.
    pub fn connect(&mut self) -> (reaction: Reaction)
        ensures
            final(self)@ == old(self)@.step(SessionEvent::ConnectRequested).next,
            reaction.notifications@ == old(self)@.step(SessionEvent::ConnectRequested).notified,
            reaction.action == old(self)@.step(SessionEvent::ConnectRequested).action,
            final(self).device() == old(self).device(),
            old(self)@.at_rest() ==> final(self)@.state == SessionState::Connecting
                && reaction.action == SessionAction::Open,
    {
        self.handle(SessionEvent::ConnectRequested)
    }

    /// Takes one event and says what to do next.
    ///
    /// The session moves as `SessionModel::step` says; the states it went
    /// through are handed back for the connection handler, with the action
    /// that the driver is to carry out. The device stays the same.
    pub fn handle(&mut self, event: SessionEvent) -> (reaction: Reaction)
        ensures
            final(self)@ == old(self)@.step(event).next,
            reaction.notifications@ == old(self)@.step(event).notified,
            reaction.action == old(self)@.step(event).action,
            final(self).device() == old(self).device(),
    {
        let mut notifications: Vec<SessionState> = Vec::new();
        let mut action: SessionAction = SessionAction::Idle;
        match event {
            SessionEvent::ConnectRequested => {
                match self.state {
                    SessionState::Disconnected | SessionState::Error(_) => {
                        self.state = SessionState::Connecting;
                        self.failed_attempts = 0;
                        notifications.push(SessionState::Connecting);
                        action = SessionAction::Open;
                    },
                    _ => {},
                }
            },
            SessionEvent::Opened => {
                match self.state {
                    SessionState::Connecting => {
                        self.state = SessionState::Connected;
                        notifications.push(SessionState::Connected);
                    },
                    _ => {},
                }
            },
            SessionEvent::OpenFailed => {
                match self.state {
                    SessionState::Connecting => {
                        if self.connect_attempt_limit != 0 && self.failed_attempts
                            >= self.connect_attempt_limit - 1 {
                            self.state =
                            SessionState::Error(Error::Session(SessionErrorKind::TimeOut));
                        } else {
                            if self.connect_attempt_limit != 0 {
                                self.failed_attempts = self.failed_attempts + 1;
                            }
                            action = SessionAction::OpenAfter(self.connect_retry_interval);
                        }
                        notifications.push(self.state);
                    },
                    _ => {},
                }
            },
            SessionEvent::Closed => {
                match self.state {
                    SessionState::Connected => {
                        self.state = SessionState::Connecting;
                        self.failed_attempts = 0;
                        notifications.push(SessionState::Disconnected);
                        notifications.push(SessionState::Connecting);
                        action = SessionAction::Reopen;
                    },
                    _ => {},
                }
            },
            SessionEvent::Faulted(kind) => {
                match self.state {
                    SessionState::Connected => {
                        action = SessionAction::Close;
                    },
                    _ => {},
                }
                self.state = SessionState::Error(Error::Serialport(kind));
                notifications.push(self.state);
            },
        }
        proof {
            assert(notifications@ =~= old(self)@.step(event).notified);
        }
        Reaction { notifications, action }
    }
}

} // verus!
