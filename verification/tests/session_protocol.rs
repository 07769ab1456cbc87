//! The session state machine: greeting, two-step and one-step login,
//! rejection, logout, and the no-operation command's independence of state.

use simpleftp::command::Verb;
use simpleftp::error::{ConnectionFault, FileFault, FtpError};
use simpleftp::session::{LoginAction, Session, SessionPhase};
use simpleftp::verbs::check_reply;

#[test]
fn greeting_service_ready_opens_a_session() {
    let s = Session::on_greeting(220).unwrap();
    assert_eq!(s.phase, SessionPhase::Unauthenticated);
    assert!(!s.is_authenticated());
}

#[test]
fn greeting_other_codes_are_fatal() {
    match Session::on_greeting(421) {
        Err(FtpError::ConnectionError(ConnectionFault::Greeting(c))) => assert_eq!(c, 421),
        other => panic!("expected a greeting error, got {:?}", other),
    }
}

#[test]
fn login_two_step_succeeds() {
    // The server asks for a password (331), then logs the user in (230).
    let mut s = Session::on_greeting(220).unwrap();
    let action = s.on_user_reply(331).unwrap();
    assert_eq!(action, LoginAction::SendPassword);
    assert_eq!(s.phase, SessionPhase::AwaitingPassword);
    s.on_pass_reply(230).unwrap();
    assert!(s.is_authenticated());
}

#[test]
fn login_rejected_password_is_a_login_error() {
    // 331 then 530: the password step fails and nobody is authenticated.
    let mut s = Session::on_greeting(220).unwrap();
    assert_eq!(s.on_user_reply(331).unwrap(), LoginAction::SendPassword);
    match s.on_pass_reply(530) {
        Err(FtpError::LoginError(c)) => assert_eq!(c, 530),
        other => panic!("expected a login error, got {:?}", other),
    }
    assert!(!s.is_authenticated());
}

#[test]
fn login_short_circuits_without_password() {
    // A server that skips the password step logs the user in on the
    // username alone; the machine says the password must not be sent.
    let mut s = Session::on_greeting(220).unwrap();
    let action = s.on_user_reply(230).unwrap();
    assert_eq!(action, LoginAction::Complete);
    assert!(s.is_authenticated());
}

#[test]
fn login_rejected_username_is_a_login_error() {
    let mut s = Session::on_greeting(220).unwrap();
    match s.on_user_reply(530) {
        Err(FtpError::LoginError(c)) => assert_eq!(c, 530),
        other => panic!("expected a login error, got {:?}", other),
    }
    assert_eq!(s.phase, SessionPhase::Unauthenticated);
}

#[test]
fn account_reply_codes() {
    let mut s = Session::on_greeting(220).unwrap();
    assert!(matches!(s.on_account_reply(530), Err(FtpError::LoginError(530))));
    s.on_account_reply(230).unwrap();
    assert!(s.is_authenticated());
}

#[test]
fn logout_closes_whatever_the_code() {
    let mut s = Session::on_greeting(220).unwrap();
    s.on_quit_reply(221).unwrap();
    assert_eq!(s.phase, SessionPhase::Closed);

    let mut s2 = Session::on_greeting(220).unwrap();
    match s2.on_quit_reply(500) {
        Err(FtpError::FileError(FileFault::Refused(c))) => assert_eq!(c, 500),
        other => panic!("expected a refusal, got {:?}", other),
    }
    assert_eq!(s2.phase, SessionPhase::Closed);
}

#[test]
fn noop_is_idempotent_and_stateless() {
    // N no-operation commands produce N independent verdicts, each keyed on
    // the code alone, with no change to the session's state.
    let mut s = Session::on_greeting(220).unwrap();
    assert_eq!(s.on_user_reply(230).unwrap(), LoginAction::Complete);
    let before = s.phase;
    for _ in 0..16 {
        assert!(check_reply(Verb::Noop, 200).is_ok());
    }
    assert_eq!(s.phase, before);
    assert!(s.is_authenticated());
    assert!(matches!(
        check_reply(Verb::Noop, 500),
        Err(FtpError::CommandError(500))
    ));
    assert_eq!(s.phase, before);
}
