//! The session's command/response state machine.
//!
//! One session stands for one control connection. It comes into being only
//! when the server's greeting carries "service ready", becomes authenticated
//! through the two-step login (or in one step, when the server skips the
//! password), and closes on logout whatever the final reply said.

use vstd::prelude::*;

use crate::codes::LOGGED_IN;
use crate::codes::NEED_PASSWORD;
use crate::codes::SERVICE_CLOSING;
use crate::codes::SERVICE_READY;
use crate::error::ConnectionFault;
use crate::error::FileFault;
use crate::error::FtpError;

verus! {

/// Where the session stands in its lifecycle.
#[derive(Debug, Clone, Copy, PartialEq, Eq)]
pub enum SessionPhase {
    /// Connected; the greeting was accepted but nobody has logged in.
    Unauthenticated,
    /// The username was accepted and the server asked for a password.
    AwaitingPassword,
    /// Login completed.
    Authenticated,
    /// A logout was issued; the connection must be considered unusable.
    Closed,
}

/// What the caller must do next to finish logging in.
#[derive(Debug, Clone, Copy, PartialEq, Eq)]
pub enum LoginAction {
    /// The server asked for the password: send the password command next.
    SendPassword,
    /// The server logged the user in on the username alone: the password
    /// must not be sent.
    Complete,
}

/// The single logical state of one control connection.
#[derive(Debug, Clone, Copy, PartialEq, Eq)]
pub struct Session {
    pub phase: SessionPhase,
}

impl Session {
    /// True once login has completed.
    pub open spec fn authenticated(self) -> bool {
        self.phase is Authenticated
    }

    /// Judges the server's greeting. Only "service ready" (220) produces a
    /// session; any other code is a fatal connection error and no session
    /// exists.
    pub fn on_greeting(code: u16) -> (r: Result<Session, FtpError>)
        ensures
            code == SERVICE_READY ==> (r matches Ok(s) && s.phase is Unauthenticated),
            code != SERVICE_READY ==> (r matches Err(FtpError::ConnectionError(ConnectionFault::Greeting(
                c,
            ))) && c == code),
    {
        if code == SERVICE_READY {
            Ok(Session { phase: SessionPhase::Unauthenticated })
        } else {
            Err(FtpError::ConnectionError(ConnectionFault::Greeting(code)))
        }
    }

    /// Judges the reply to the username command. "Need password" (331) asks
    /// for the password step; "logged in" (230) short-circuits to
    /// authenticated without a password; anything else rejects the login and
    /// leaves the session as it was.
    pub fn on_user_reply(&mut self, code: u16) -> (r: Result<LoginAction, FtpError>)
        ensures
            code == NEED_PASSWORD ==> (r matches Ok(a) && a is SendPassword
                && final(self).phase is AwaitingPassword),
            code == LOGGED_IN ==> (r matches Ok(a) && a is Complete
                && final(self).phase is Authenticated),
            code != NEED_PASSWORD && code != LOGGED_IN ==> (r matches Err(FtpError::LoginError(c)) && c == code
                && *final(self) == *old(self)),
    {
        if code == NEED_PASSWORD {
            self.phase = SessionPhase::AwaitingPassword;
            Ok(LoginAction::SendPassword)
        } else if code == LOGGED_IN {
            self.phase = SessionPhase::Authenticated;
            Ok(LoginAction::Complete)
        } else {
            Err(FtpError::LoginError(code))
        }
    }

    /// Judges the reply to the password command. Only "logged in" (230)
    /// authenticates; any other code rejects the login and the session drops
    /// back to unauthenticated.
    pub fn on_pass_reply(&mut self, code: u16) -> (r: Result<(), FtpError>)
        requires
            old(self).phase is AwaitingPassword,
        ensures
            code == LOGGED_IN ==> (r is Ok && final(self).phase is Authenticated),
            code != LOGGED_IN ==> (r matches Err(FtpError::LoginError(c)) && c == code
                && final(self).phase is Unauthenticated),
    {
        if code == LOGGED_IN {
            self.phase = SessionPhase::Authenticated;
            Ok(())
        } else {
            self.phase = SessionPhase::Unauthenticated;
            Err(FtpError::LoginError(code))
        }
    }

    /// Judges the reply to the account command. "Logged in" (230)
    /// authenticates; any other code is a login error and the session keeps
    /// its phase.
    pub fn on_account_reply(&mut self, code: u16) -> (r: Result<(), FtpError>)
        ensures
            code == LOGGED_IN ==> (r is Ok && final(self).phase is Authenticated),
            code != LOGGED_IN ==> (r matches Err(FtpError::LoginError(c)) && c == code
                && *final(self) == *old(self)),
    {
        if code == LOGGED_IN {
            self.phase = SessionPhase::Authenticated;
            Ok(())
        } else {
            Err(FtpError::LoginError(code))
        }
    }

    /// Judges the reply to the logout command. The session closes whatever
    /// the code was — the connection must not be used afterward — but only
    /// the exact "service closing" (221) counts as success.
    pub fn on_quit_reply(&mut self, code: u16) -> (r: Result<(), FtpError>)
        ensures
            final(self).phase is Closed,
            code == SERVICE_CLOSING ==> r is Ok,
            code != SERVICE_CLOSING ==> (r matches Err(FtpError::FileError(FileFault::Refused(c))) && c
                == code),
    {
        self.phase = SessionPhase::Closed;
        if code == SERVICE_CLOSING {
            Ok(())
        } else {
            Err(FtpError::FileError(FileFault::Refused(code)))
        }
    }

    /// True once login has completed.
    pub fn is_authenticated(&self) -> (b: bool)
        ensures
            b == self.authenticated(),
    {
        match self.phase {
            SessionPhase::Authenticated => true,
            _ => false,
        }
    }
}

} // verus!
