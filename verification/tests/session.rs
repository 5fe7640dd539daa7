use microserial_gui::session::{
    check_step, check_write, OpenStep, SessionError, SessionEvent, SessionMessage,
};

#[test]
fn session_error_messages() {
    assert_eq!(SessionError::Open(2).message(), "open failed with code 2");
    assert_eq!(SessionError::Configure(-22).message(), "configuration failed with code -22");
    assert_eq!(SessionError::Start(i32::MAX).message(), "start failed with code 2147483647");
    assert_eq!(SessionError::Write(i32::MIN).message(), "write failed with code -2147483648");
    assert_eq!(SessionError::Write(0).message(), "write failed with code 0");
    assert_eq!(SessionError::Truncated.message(), "write truncated");
}

#[test]
fn open_steps_fail_on_nonzero_codes() {
    for step in [OpenStep::Open, OpenStep::Configure, OpenStep::Start] {
        assert_eq!(check_step(step, 0), Ok(()));
    }
    assert_eq!(check_step(OpenStep::Open, 13), Err(SessionError::Open(13)));
    assert_eq!(check_step(OpenStep::Configure, -1), Err(SessionError::Configure(-1)));
    assert_eq!(check_step(OpenStep::Start, 5), Err(SessionError::Start(5)));
}

#[test]
fn writes_must_be_complete() {
    assert_eq!(check_write(Ok(4), 4), Ok(()));
    assert_eq!(check_write(Ok(0), 0), Ok(()));
    assert_eq!(check_write(Ok(3), 4), Err(SessionError::Truncated));
    assert_eq!(check_write(Ok(5), 4), Err(SessionError::Truncated));
    assert_eq!(check_write(Err(-9), 4), Err(SessionError::Write(-9)));
}

#[test]
fn messages_carry_their_payload() {
    let data = SessionMessage::Data(vec![1, 2, 3]);
    let event = SessionMessage::Event(SessionEvent { code: 7, message: "closed".to_string() });
    assert!(matches!(data.clone(), SessionMessage::Data(bytes) if bytes == vec![1, 2, 3]));
    assert!(matches!(event, SessionMessage::Event(SessionEvent { code: 7, .. })));
}

#[test]
fn events_as_lines() {
    let event = SessionEvent { code: -3, message: "port closed".to_string() };
    assert_eq!(event.describe(), "-3: port closed");
    let event = SessionEvent { code: 0, message: String::new() };
    assert_eq!(event.describe(), "0: ");
}
