use namenode::echo::{after_read, after_write, CloseReason, EchoAction, ReadOutcome};
use namenode::message::{UCode, UStatus};

#[test]
fn zero_byte_read_closes() {
    assert_eq!(after_read(ReadOutcome::Received(0), 1024), EchoAction::Close(CloseReason::PeerClosed));
}

#[test]
fn data_is_written_back() {
    assert_eq!(after_read(ReadOutcome::Received(17), 1024), EchoAction::WriteBack(17));
    assert_eq!(after_read(ReadOutcome::Received(1024), 1024), EchoAction::WriteBack(1024));
}

#[test]
fn read_failure_closes() {
    assert_eq!(after_read(ReadOutcome::Failed, 1024), EchoAction::Close(CloseReason::ReadFailed));
}

#[test]
fn write_outcome_decides_next_step() {
    assert_eq!(after_write(true), EchoAction::Read);
    assert_eq!(after_write(false), EchoAction::Close(CloseReason::WriteFailed));
}

#[test]
fn status_codes() {
    assert!(UStatus::ok().is_ok());
    assert_eq!(UStatus::ok().code, UCode::OK);
    assert!(!UStatus::fail(UCode::AlreadyExists).is_ok());
    assert_eq!(UStatus::fail(UCode::Unavailable).code, UCode::Unavailable);
}
