//! The command/response contract of each verb: the set of status codes it
//! accepts, and the error kind it surfaces when the server answers outside
//! that set.

use vstd::prelude::*;

use crate::codes::ALREADY_OPEN;
use crate::codes::CLOSING_DATA_CONNECTION;
use crate::codes::COMMAND_OK;
use crate::codes::DIRECTORY;
use crate::codes::DIRECTORY_ALREADY_EXISTS;
use crate::codes::FILE;
use crate::codes::FILE_ACTION_OK;
use crate::codes::FILE_ACTION_PENDING;
use crate::codes::FILE_OK;
use crate::codes::HELP_MESSAGE;
use crate::codes::LOGGED_IN;
use crate::codes::NAME_SYSTEM;
use crate::codes::NEED_PASSWORD;
use crate::codes::PASSIVE_MODE;
use crate::codes::PATH_CREATED;
use crate::codes::SERVICE_CLOSING;
use crate::codes::SYSTEM;
use crate::command::Verb;
use crate::error::FileFault;
use crate::error::FtpError;
use crate::error::ResponseFault;

verus! {

/// The set of reply codes each verb accepts as success.
///
/// Retrieval and listing tolerate "data connection already open" beside
/// "file status okay"; store-style verbs require "file status okay" alone,
/// since the server must be ready to receive bytes.
pub open spec fn verb_accepts(v: Verb, code: u16) -> bool {
    match v {
        Verb::User => code == NEED_PASSWORD || code == LOGGED_IN,
        Verb::Pass => code == LOGGED_IN,
        Verb::Acct => code == LOGGED_IN,
        Verb::Retr => code == FILE_OK || code == ALREADY_OPEN,
        Verb::Stor => code == FILE_OK,
        Verb::Stou => code == FILE_OK,
        Verb::Appe => code == FILE_OK,
        Verb::Noop => code == COMMAND_OK,
        Verb::Rnfr => code == FILE_ACTION_PENDING,
        Verb::Rnto => code == FILE_ACTION_OK,
        Verb::Dele => code == FILE_ACTION_OK,
        Verb::Pasv => code == PASSIVE_MODE || code == ALREADY_OPEN,
        Verb::List => code == FILE_OK || code == ALREADY_OPEN,
        Verb::Nlst => code == FILE_OK || code == ALREADY_OPEN,
        Verb::Cwd => code == COMMAND_OK || code == FILE_ACTION_OK,
        Verb::Mkd => code == DIRECTORY_ALREADY_EXISTS || code == PATH_CREATED,
        Verb::Rmd => code == FILE_ACTION_OK,
        Verb::Cdup => code == COMMAND_OK || code == FILE_ACTION_OK,
        Verb::Pwd => code == PATH_CREATED,
        Verb::Abor => code == CLOSING_DATA_CONNECTION,
        Verb::Stat => code == SYSTEM || code == DIRECTORY || code == FILE,
        Verb::Syst => code == SYSTEM || code == NAME_SYSTEM,
        Verb::Help => code == HELP_MESSAGE || code == FILE,
        Verb::Allo => code == COMMAND_OK,
        Verb::Smnt => code == COMMAND_OK || code == FILE_ACTION_OK,
        Verb::Quit => code == SERVICE_CLOSING,
        Verb::TypeBinary => code == COMMAND_OK,
        Verb::TypeAscii => code == COMMAND_OK,
    }
}

/// The error each verb surfaces for a reply code outside its accepted set:
/// login-flavored verbs reject with a `LoginError`, filesystem-flavored ones
/// with a `FileError`, passive-mode negotiation with a `ResponseError`, and
/// the rest with a `CommandError`. The offending code rides along.
pub open spec fn verb_rejection(v: Verb, code: u16) -> FtpError {
    match v {
        Verb::User | Verb::Pass | Verb::Acct => FtpError::LoginError(code),
        Verb::Cwd | Verb::Mkd | Verb::Rmd | Verb::Smnt | Verb::Quit | Verb::TypeBinary
            | Verb::TypeAscii => FtpError::FileError(FileFault::Refused(code)),
        Verb::Pasv => FtpError::ResponseError(ResponseFault::PassiveCode(code)),
        _ => FtpError::CommandError(code),
    }
}

/// Judges one reply code against a verb's contract: success exactly when the
/// code is in the verb's accepted set, otherwise the verb's error kind
/// carrying the code.
pub fn check_reply(v: Verb, code: u16) -> (r: Result<(), FtpError>)
    ensures
        verb_accepts(v, code) ==> r is Ok,
        !verb_accepts(v, code) ==> r == Err::<(), FtpError>(verb_rejection(v, code)),
{
    let ok = match v {
        Verb::User => code == NEED_PASSWORD || code == LOGGED_IN,
        Verb::Pass => code == LOGGED_IN,
        Verb::Acct => code == LOGGED_IN,
        Verb::Retr => code == FILE_OK || code == ALREADY_OPEN,
        Verb::Stor => code == FILE_OK,
        Verb::Stou => code == FILE_OK,
        Verb::Appe => code == FILE_OK,
        Verb::Noop => code == COMMAND_OK,
        Verb::Rnfr => code == FILE_ACTION_PENDING,
        Verb::Rnto => code == FILE_ACTION_OK,
        Verb::Dele => code == FILE_ACTION_OK,
        Verb::Pasv => code == PASSIVE_MODE || code == ALREADY_OPEN,
        Verb::List => code == FILE_OK || code == ALREADY_OPEN,
        Verb::Nlst => code == FILE_OK || code == ALREADY_OPEN,
        Verb::Cwd => code == COMMAND_OK || code == FILE_ACTION_OK,
        Verb::Mkd => code == DIRECTORY_ALREADY_EXISTS || code == PATH_CREATED,
        Verb::Rmd => code == FILE_ACTION_OK,
        Verb::Cdup => code == COMMAND_OK || code == FILE_ACTION_OK,
        Verb::Pwd => code == PATH_CREATED,
        Verb::Abor => code == CLOSING_DATA_CONNECTION,
        Verb::Stat => code == SYSTEM || code == DIRECTORY || code == FILE,
        Verb::Syst => code == SYSTEM || code == NAME_SYSTEM,
        Verb::Help => code == HELP_MESSAGE || code == FILE,
        Verb::Allo => code == COMMAND_OK,
        Verb::Smnt => code == COMMAND_OK || code == FILE_ACTION_OK,
        Verb::Quit => code == SERVICE_CLOSING,
        Verb::TypeBinary => code == COMMAND_OK,
        Verb::TypeAscii => code == COMMAND_OK,
    };
    if ok {
        Ok(())
    } else {
        match v {
            Verb::User | Verb::Pass | Verb::Acct => Err(FtpError::LoginError(code)),
            Verb::Cwd | Verb::Mkd | Verb::Rmd | Verb::Smnt | Verb::Quit | Verb::TypeBinary
                | Verb::TypeAscii => Err(FtpError::FileError(FileFault::Refused(code))),
            Verb::Pasv => Err(FtpError::ResponseError(ResponseFault::PassiveCode(code))),
            _ => Err(FtpError::CommandError(code)),
        }
    }
}

} // verus!
