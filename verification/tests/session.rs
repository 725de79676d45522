use ardeck::device::session::{
    Error, Reaction, RetryInterval, SerialportErrorKind, Session, SessionAction,
    SessionBuilder, SessionErrorKind, SessionEvent, SessionState, BAUD_RATE,
};
use ardeck::device::{DeviceInfo, UsbPortInfo};

fn device() -> DeviceInfo {
    DeviceInfo {
        port_name: "/dev/ttyACM0".into(),
        usb_port_info: UsbPortInfo {
            vid: 0x2341,
            pid: 0x0043,
            serial_number: Some("85035323234351E0A1C2".into()),
            manufacturer: Some("Arduino (www.arduino.cc)".into()),
            product: None,
        },
        device_id: "2341-0043-85035323234351E0A1C2".into(),
    }
}

/// A transport that is not there: it records what the session asks of it and
/// answers each attempt to open it as `opens` says.
struct Stub {
    opens: fn(usize) -> bool,
    attempts: usize,
    waits: Vec<RetryInterval>,
    drops: usize,
    handles: usize,
    heard: Vec<SessionState>,
}

impl Stub {
    fn new(opens: fn(usize) -> bool) -> Self {
        Stub {
            opens,
            attempts: 0,
            waits: Vec::new(),
            drops: 0,
            handles: 0,
            heard: Vec::new(),
        }
    }

    fn open(&mut self) -> SessionEvent {
        self.attempts += 1;
        assert!(self.attempts < 1000, "the session does not stop asking");
        if (self.opens)(self.attempts) {
            self.handles += 1;
            assert!(self.handles <= 1, "two live handles");
            SessionEvent::Opened
        } else {
            SessionEvent::OpenFailed
        }
    }

    fn drop_handle(&mut self) {
        assert_eq!(self.handles, 1);
        self.handles -= 1;
        self.drops += 1;
    }

    /// Carries out what the session asks for until it asks for nothing.
    fn carry_out(&mut self, session: &mut Session, first: Reaction) {
        let mut reaction = first;
        loop {
            self.heard.extend(reaction.notifications.iter().copied());
            let event = match reaction.action {
                SessionAction::Idle => return,
                SessionAction::Close => {
                    self.drop_handle();
                    return;
                }
                SessionAction::Open => self.open(),
                SessionAction::OpenAfter(interval) => {
                    self.waits.push(interval);
                    self.open()
                }
                SessionAction::Reopen => {
                    self.drop_handle();
                    self.open()
                }
            };
            reaction = session.handle(event);
        }
    }

    fn connect(&mut self, session: &mut Session) -> Result<(), Error> {
        let first = session.connect();
        self.carry_out(session, first);
        match session.state() {
            SessionState::Connected => Ok(()),
            SessionState::Error(error) => Err(error),
            state => panic!("connect() came to rest in {:?}", state),
        }
    }

    fn report(&mut self, session: &mut Session, event: SessionEvent) {
        let first = session.handle(event);
        self.carry_out(session, first);
    }
}

fn never(_attempt: usize) -> bool {
    false
}

fn always(_attempt: usize) -> bool {
    true
}

fn on_the_fifth(attempt: usize) -> bool {
    attempt == 5
}

fn on_the_third(attempt: usize) -> bool {
    attempt == 3
}

fn from_the_second(attempt: usize) -> bool {
    attempt >= 2
}

const TIMED_OUT: SessionState = SessionState::Error(Error::Session(SessionErrorKind::TimeOut));

#[test]
fn builder_defaults_to_unlimited_attempts_and_no_wait() {
    let session = SessionBuilder::new(device()).build();
    assert_eq!(session.connect_attempt_limit(), 0);
    assert_eq!(session.connect_retry_interval(), RetryInterval { secs: 0, nanos: 0 });
    assert_eq!(session.connect_retry_interval(), RetryInterval::default());
    assert_eq!(session.state(), SessionState::Disconnected);
    assert_eq!(*session.device_info(), device());
}

#[test]
fn builder_setters_chain() {
    let session = SessionBuilder::new(device())
        .connect_attempt_limit(3)
        .connect_retry_interval(RetryInterval::from_millis(250))
        .build();
    assert_eq!(session.connect_attempt_limit(), 3);
    assert_eq!(
        session.connect_retry_interval(),
        RetryInterval { secs: 0, nanos: 250_000_000 }
    );
    assert_eq!(session.state(), SessionState::Disconnected);
    assert_eq!(session.device_info().port_name, "/dev/ttyACM0");

    let session = SessionBuilder::new(device())
        .connect_retry_interval(RetryInterval::from_millis(1))
        .connect_attempt_limit(9)
        .connect_attempt_limit(7)
        .build();
    assert_eq!(session.connect_attempt_limit(), 7);
    assert_eq!(
        session.connect_retry_interval(),
        RetryInterval { secs: 0, nanos: 1_000_000 }
    );
}

#[test]
fn session_setters_change_one_setting_each() {
    let session = Session::new(device());
    assert_eq!(session.connect_attempt_limit(), 0);
    assert_eq!(session.connect_retry_interval(), RetryInterval { secs: 0, nanos: 0 });
    assert_eq!(session.state(), SessionState::Disconnected);

    let session = session.set_connect_attempt_limit(12);
    assert_eq!(session.connect_attempt_limit(), 12);
    assert_eq!(session.connect_retry_interval(), RetryInterval { secs: 0, nanos: 0 });

    let session = session.set_connect_retry_interval(RetryInterval { secs: 2, nanos: 5 });
    assert_eq!(session.connect_attempt_limit(), 12);
    assert_eq!(session.connect_retry_interval(), RetryInterval { secs: 2, nanos: 5 });
    assert_eq!(session.state(), SessionState::Disconnected);
    assert_eq!(*session.device_info(), device());
}

#[test]
fn retry_interval_from_millis() {
    assert_eq!(RetryInterval::from_millis(0), RetryInterval { secs: 0, nanos: 0 });
    assert_eq!(RetryInterval::from_millis(999), RetryInterval { secs: 0, nanos: 999_000_000 });
    assert_eq!(RetryInterval::from_millis(1000), RetryInterval { secs: 1, nanos: 0 });
    assert_eq!(RetryInterval::from_millis(61_250), RetryInterval { secs: 61, nanos: 250_000_000 });
    assert_eq!(
        RetryInterval::from_millis(u64::MAX),
        RetryInterval { secs: 18_446_744_073_709_551, nanos: 615_000_000 }
    );
}

#[test]
fn the_peripheral_talks_at_9600_baud() {
    assert_eq!(BAUD_RATE, 9600);
}

#[test]
fn connect_with_limit_three_makes_exactly_three_attempts() {
    let interval = RetryInterval::from_millis(20);
    let mut session = SessionBuilder::new(device())
        .connect_attempt_limit(3)
        .connect_retry_interval(interval)
        .build();
    let mut stub = Stub::new(never);

    let result = stub.connect(&mut session);

    assert_eq!(result, Err(Error::Session(SessionErrorKind::TimeOut)));
    assert_eq!(stub.attempts, 3);
    assert_eq!(stub.waits, vec![interval, interval]);
    assert_eq!(session.state(), TIMED_OUT);
    assert_eq!(
        stub.heard,
        vec![
            SessionState::Connecting,
            SessionState::Connecting,
            SessionState::Connecting,
            TIMED_OUT
        ]
    );

    // nothing more is asked for, whatever is reported afterwards
    stub.report(&mut session, SessionEvent::OpenFailed);
    stub.report(&mut session, SessionEvent::Opened);
    stub.report(&mut session, SessionEvent::Closed);
    assert_eq!(stub.attempts, 3);
    assert_eq!(session.state(), TIMED_OUT);
}

#[test]
fn connect_step_by_step_with_limit_three() {
    let interval = RetryInterval { secs: 1, nanos: 500 };
    let mut session = SessionBuilder::new(device())
        .connect_attempt_limit(3)
        .connect_retry_interval(interval)
        .build();

    let reaction = session.connect();
    assert_eq!(reaction.action, SessionAction::Open);
    assert_eq!(reaction.notifications, vec![SessionState::Connecting]);
    assert_eq!(session.state(), SessionState::Connecting);

    let reaction = session.handle(SessionEvent::OpenFailed);
    assert_eq!(reaction.action, SessionAction::OpenAfter(interval));
    assert_eq!(reaction.notifications, vec![SessionState::Connecting]);

    let reaction = session.handle(SessionEvent::OpenFailed);
    assert_eq!(reaction.action, SessionAction::OpenAfter(interval));
    assert_eq!(reaction.notifications, vec![SessionState::Connecting]);

    let reaction = session.handle(SessionEvent::OpenFailed);
    assert_eq!(reaction.action, SessionAction::Idle);
    assert_eq!(reaction.notifications, vec![TIMED_OUT]);
    assert_eq!(session.state(), TIMED_OUT);

    let reaction = session.handle(SessionEvent::OpenFailed);
    assert_eq!(reaction.action, SessionAction::Idle);
    assert_eq!(reaction.notifications, vec![]);
    assert_eq!(session.state(), TIMED_OUT);
}

#[test]
fn connect_with_limit_one_makes_one_attempt() {
    let mut session = SessionBuilder::new(device()).connect_attempt_limit(1).build();
    let mut stub = Stub::new(never);
    assert_eq!(
        stub.connect(&mut session),
        Err(Error::Session(SessionErrorKind::TimeOut))
    );
    assert_eq!(stub.attempts, 1);
    assert_eq!(stub.waits, vec![]);
}

#[test]
fn connect_with_a_limit_makes_as_many_attempts_as_the_limit() {
    for limit in [1u16, 2, 3, 4, 10, 255, 256, 900] {
        let mut session = SessionBuilder::new(device()).connect_attempt_limit(limit).build();
        let mut stub = Stub::new(never);
        assert_eq!(
            stub.connect(&mut session),
            Err(Error::Session(SessionErrorKind::TimeOut))
        );
        assert_eq!(stub.attempts, limit as usize);
        assert_eq!(stub.waits.len(), limit as usize - 1);
    }
}

#[test]
fn connect_counts_up_to_the_largest_limit() {
    let mut session = SessionBuilder::new(device()).connect_attempt_limit(u16::MAX).build();
    assert_eq!(session.connect().action, SessionAction::Open);
    for _ in 0..(u16::MAX as u32 - 1) {
        let reaction = session.handle(SessionEvent::OpenFailed);
        assert_eq!(
            reaction.action,
            SessionAction::OpenAfter(RetryInterval { secs: 0, nanos: 0 })
        );
    }
    assert_eq!(session.state(), SessionState::Connecting);
    let reaction = session.handle(SessionEvent::OpenFailed);
    assert_eq!(reaction.action, SessionAction::Idle);
    assert_eq!(session.state(), TIMED_OUT);
}

#[test]
fn connect_within_the_limit_succeeds() {
    let mut session = SessionBuilder::new(device()).connect_attempt_limit(3).build();
    let mut stub = Stub::new(on_the_third);
    assert_eq!(stub.connect(&mut session), Ok(()));
    assert_eq!(stub.attempts, 3);
    assert_eq!(stub.handles, 1);
    assert_eq!(session.state(), SessionState::Connected);
}

#[test]
fn connect_without_limit_succeeds_on_the_fifth_attempt() {
    let interval = RetryInterval::from_millis(5);
    let mut session = SessionBuilder::new(device())
        .connect_attempt_limit(0)
        .connect_retry_interval(interval)
        .build();
    let mut stub = Stub::new(on_the_fifth);

    let result = stub.connect(&mut session);

    assert_eq!(result, Ok(()));
    assert_eq!(stub.attempts, 5);
    assert_eq!(stub.waits, vec![interval; 4]);
    assert_eq!(stub.handles, 1);
    assert_eq!(session.state(), SessionState::Connected);
    assert_eq!(
        stub.heard,
        vec![
            SessionState::Connecting,
            SessionState::Connecting,
            SessionState::Connecting,
            SessionState::Connecting,
            SessionState::Connecting,
            SessionState::Connected
        ]
    );
}

#[test]
fn connect_without_limit_outlasts_any_number_of_failures() {
    let mut session = SessionBuilder::new(device()).build();
    assert_eq!(session.connect().action, SessionAction::Open);
    for _ in 0..200_000 {
        let reaction = session.handle(SessionEvent::OpenFailed);
        assert_eq!(
            reaction.action,
            SessionAction::OpenAfter(RetryInterval { secs: 0, nanos: 0 })
        );
        assert_eq!(session.state(), SessionState::Connecting);
    }
    let reaction = session.handle(SessionEvent::Opened);
    assert_eq!(reaction.action, SessionAction::Idle);
    assert_eq!(reaction.notifications, vec![SessionState::Connected]);
    assert_eq!(session.state(), SessionState::Connected);
}

#[test]
fn closed_link_leads_through_disconnected_back_to_connecting() {
    let mut session = SessionBuilder::new(device()).build();
    let mut stub = Stub::new(always);
    assert_eq!(stub.connect(&mut session), Ok(()));
    assert_eq!(session.state(), SessionState::Connected);

    let reaction = session.handle(SessionEvent::Closed);

    assert_eq!(
        reaction.notifications,
        vec![SessionState::Disconnected, SessionState::Connecting]
    );
    assert_eq!(reaction.action, SessionAction::Reopen);
    assert_eq!(session.state(), SessionState::Connecting);
}

#[test]
fn closed_link_is_reopened_without_being_asked() {
    let mut session = SessionBuilder::new(device()).build();
    let mut stub = Stub::new(always);
    assert_eq!(stub.connect(&mut session), Ok(()));

    stub.report(&mut session, SessionEvent::Closed);

    assert_eq!(session.state(), SessionState::Connected);
    assert_eq!(stub.attempts, 2);
    assert_eq!(stub.drops, 1);
    assert_eq!(stub.handles, 1);
    assert_eq!(
        stub.heard,
        vec![
            SessionState::Connecting,
            SessionState::Connected,
            SessionState::Disconnected,
            SessionState::Connecting,
            SessionState::Connected
        ]
    );
}

#[test]
fn reconnection_follows_the_same_retry_policy() {
    let interval = RetryInterval::from_millis(7);
    let mut session = SessionBuilder::new(device())
        .connect_attempt_limit(2)
        .connect_retry_interval(interval)
        .build();
    assert_eq!(session.connect().action, SessionAction::Open);
    assert_eq!(
        session.handle(SessionEvent::OpenFailed).action,
        SessionAction::OpenAfter(interval)
    );
    assert_eq!(session.handle(SessionEvent::Opened).action, SessionAction::Idle);

    // the count of attempts starts afresh
    assert_eq!(session.handle(SessionEvent::Closed).action, SessionAction::Reopen);
    assert_eq!(
        session.handle(SessionEvent::OpenFailed).action,
        SessionAction::OpenAfter(interval)
    );
    let reaction = session.handle(SessionEvent::OpenFailed);
    assert_eq!(reaction.action, SessionAction::Idle);
    assert_eq!(reaction.notifications, vec![TIMED_OUT]);
    assert_eq!(session.state(), TIMED_OUT);
}

#[test]
fn connect_again_after_a_timeout() {
    let mut session = SessionBuilder::new(device()).connect_attempt_limit(2).build();
    let mut stub = Stub::new(never);
    assert_eq!(
        stub.connect(&mut session),
        Err(Error::Session(SessionErrorKind::TimeOut))
    );
    assert_eq!(stub.attempts, 2);

    let mut stub = Stub::new(from_the_second);
    assert_eq!(stub.connect(&mut session), Ok(()));
    assert_eq!(stub.attempts, 2);
    assert_eq!(session.state(), SessionState::Connected);
}

#[test]
fn fault_is_reported_and_leaves_the_session_usable() {
    let mut session = SessionBuilder::new(device()).build();
    let mut stub = Stub::new(always);
    assert_eq!(stub.connect(&mut session), Ok(()));

    let reaction = session.handle(SessionEvent::Faulted(SerialportErrorKind::Io));
    let faulted = SessionState::Error(Error::Serialport(SerialportErrorKind::Io));
    assert_eq!(reaction.notifications, vec![faulted]);
    assert_eq!(reaction.action, SessionAction::Close);
    assert_eq!(session.state(), faulted);
    stub.carry_out(&mut session, reaction);
    assert_eq!(stub.handles, 0);

    assert_eq!(stub.connect(&mut session), Ok(()));
    assert_eq!(session.state(), SessionState::Connected);
    assert_eq!(stub.handles, 1);
}

#[test]
fn fault_while_no_handle_is_held_asks_for_nothing() {
    for kind in [
        SerialportErrorKind::NoDevice,
        SerialportErrorKind::InvalidInput,
        SerialportErrorKind::Unknown,
        SerialportErrorKind::Io,
    ] {
        let faulted = SessionState::Error(Error::Serialport(kind));

        let mut session = SessionBuilder::new(device()).build();
        let reaction = session.handle(SessionEvent::Faulted(kind));
        assert_eq!(reaction.action, SessionAction::Idle);
        assert_eq!(reaction.notifications, vec![faulted]);
        assert_eq!(session.state(), faulted);

        let mut session = SessionBuilder::new(device()).build();
        session.connect();
        let reaction = session.handle(SessionEvent::Faulted(kind));
        assert_eq!(reaction.action, SessionAction::Idle);
        assert_eq!(reaction.notifications, vec![faulted]);
        assert_eq!(session.state(), faulted);
    }
}

#[test]
fn events_out_of_place_are_ignored() {
    let quiet = Reaction {
        notifications: vec![],
        action: SessionAction::Idle,
    };

    let mut session = SessionBuilder::new(device()).connect_attempt_limit(2).build();
    for event in [SessionEvent::Opened, SessionEvent::OpenFailed, SessionEvent::Closed] {
        assert_eq!(session.handle(event), quiet);
        assert_eq!(session.state(), SessionState::Disconnected);
    }

    session.connect();
    for event in [SessionEvent::ConnectRequested, SessionEvent::Closed] {
        assert_eq!(session.handle(event), quiet);
        assert_eq!(session.state(), SessionState::Connecting);
    }
    assert_eq!(session.connect(), quiet);

    session.handle(SessionEvent::Opened);
    for event in [
        SessionEvent::ConnectRequested,
        SessionEvent::Opened,
        SessionEvent::OpenFailed,
    ] {
        assert_eq!(session.handle(event), quiet);
        assert_eq!(session.state(), SessionState::Connected);
    }
    assert_eq!(session.connect(), quiet);
}

#[test]
fn settings_outlast_the_events() {
    let interval = RetryInterval::from_millis(3);
    let mut session = SessionBuilder::new(device())
        .connect_attempt_limit(4)
        .connect_retry_interval(interval)
        .build();
    for event in [
        SessionEvent::ConnectRequested,
        SessionEvent::OpenFailed,
        SessionEvent::Opened,
        SessionEvent::Closed,
        SessionEvent::Faulted(SerialportErrorKind::NoDevice),
        SessionEvent::ConnectRequested,
    ] {
        session.handle(event);
        assert_eq!(session.connect_attempt_limit(), 4);
        assert_eq!(session.connect_retry_interval(), interval);
        assert_eq!(*session.device_info(), device());
    }
}

#[test]
fn session_error_messages() {
    assert_eq!(SessionErrorKind::InitializationError.message(), "Failed initialization.");
    assert_eq!(SessionErrorKind::TimeOut.message(), "Timeout.");
}
