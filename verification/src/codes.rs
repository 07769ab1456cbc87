//! Status codes of the FTP reply-code convention, named as the protocol
//! text speaks of them.

use vstd::prelude::*;

verus! {

pub const RESTART_MARKER: u16 = 110;

// Status messages
pub const SYSTEM: u16 = 211;
pub const DIRECTORY: u16 = 212;
pub const FILE: u16 = 213;
pub const HELP_MESSAGE: u16 = 214;
pub const NAME_SYSTEM: u16 = 215;

// Command related messages
pub const COMMAND_OK: u16 = 200;
pub const COMMAND_NOT_IMPLEMENTED: u16 = 202;
pub const UNKNOWN_COMMAND: u16 = 500;
pub const COMMAND_UNIMPLEMENTED: u16 = 502;
pub const BAD_COMMAND_SEQUENCE: u16 = 503;
pub const BAD_PARAMETER_FOR_COMMAND: u16 = 504;

// Related to service
pub const READY_MINUTE: u16 = 120;
pub const SERVICE_READY: u16 = 220;
pub const SERVICE_CLOSING: u16 = 221;
pub const NOT_AVAILABLE: u16 = 421;

// Data connection
pub const ALREADY_OPEN: u16 = 125;
pub const DATA_CONNECTION_OPEN: u16 = 225;
pub const CLOSING_DATA_CONNECTION: u16 = 226;
pub const CANNOT_OPEN_DATA_CONNECTION: u16 = 425;
pub const TRANSFER_ABORTED: u16 = 426;
pub const PASSIVE_MODE: u16 = 227;

// Login messages
pub const LOGGED_IN: u16 = 230;
pub const NOT_LOGGED_IN: u16 = 530;
pub const NEED_PASSWORD: u16 = 331;
pub const NEED_ACCOUNT: u16 = 332;
pub const ACCOUNT_NEEDED_FOR_FILE_CREATION: u16 = 532;

// File actions
pub const FILE_OK: u16 = 150;
pub const FILE_ACTION_OK: u16 = 250;
pub const PATH_CREATED: u16 = 257;
pub const FILE_ACTION_PENDING: u16 = 350;
pub const FILE_ACTION_NOT_TAKEN: u16 = 450;
pub const LOCAL_ERROR: u16 = 451;
pub const PARAMETER_ERROR: u16 = 501;
pub const INSUFFICIENT_STORAGE: u16 = 452;
pub const FILE_NOT_AVAILABLE: u16 = 550;
pub const PAGE_TYPE_UNKNOWN: u16 = 551;
pub const FILE_ACTION_ABORTED: u16 = 552;
pub const FILE_NAME_NOT_ALLOWED: u16 = 553;
pub const DIRECTORY_ALREADY_EXISTS: u16 = 521;

} // verus!
