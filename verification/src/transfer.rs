//! The two-socket transfer choreography, and the two-command rename
//! sequence.
//!
//! A transfer is exactly: a passive-mode request whose reply yields the data
//! address, the transfer verb whose reply authorizes the data connection's
//! use, the byte movement itself (the embedding program's business), and a
//! final control-channel reply that must confirm the data connection's
//! closure — without that confirmation the whole operation fails, however
//! many bytes moved. The machines here pin that order: each reply can only
//! be judged in its stage, and any rejected reply strands the machine in a
//! failed stage from which nothing more can be issued.

use vstd::prelude::*;

use crate::codes::ALREADY_OPEN;
use crate::codes::CLOSING_DATA_CONNECTION;
use crate::codes::FILE_ACTION_OK;
use crate::codes::FILE_ACTION_PENDING;
use crate::codes::PASSIVE_MODE;
use crate::command::Verb;
use crate::error::ConnectionFault;
use crate::error::FtpError;
use crate::error::ResponseFault;
use crate::pasv::PassiveAddress;
use crate::pasv::decode_pasv;
use crate::pasv::pasv_target;
use crate::reply::Reply;
use crate::verbs::check_reply;
use crate::verbs::verb_accepts;
use crate::verbs::verb_rejection;

verus! {

/// The direction and flavor of one data-connection transfer.
#[derive(Debug, Clone, Copy, PartialEq, Eq)]
pub enum TransferKind {
    Retrieve,
    Store,
    StoreUnique,
    Append,
    List,
    NameList,
}

/// The wire verb that opens each kind of transfer.
pub open spec fn transfer_verb(kind: TransferKind) -> Verb {
    match kind {
        TransferKind::Retrieve => Verb::Retr,
        TransferKind::Store => Verb::Stor,
        TransferKind::StoreUnique => Verb::Stou,
        TransferKind::Append => Verb::Appe,
        TransferKind::List => Verb::List,
        TransferKind::NameList => Verb::Nlst,
    }
}

/// The wire verb that opens a transfer of this kind, for building the
/// command line.
pub fn open_verb(kind: TransferKind) -> (v: Verb)
    ensures
        v == transfer_verb(kind),
{
    match kind {
        TransferKind::Retrieve => Verb::Retr,
        TransferKind::Store => Verb::Stor,
        TransferKind::StoreUnique => Verb::Stou,
        TransferKind::Append => Verb::Appe,
        TransferKind::List => Verb::List,
        TransferKind::NameList => Verb::Nlst,
    }
}

/// Which control-channel reply the transfer waits for next.
#[derive(Debug, Clone, Copy, PartialEq, Eq)]
pub enum TransferStage {
    /// The passive-mode request was issued; its reply names the data
    /// address.
    AwaitingPasvReply,
    /// The data address is known; the transfer verb was issued and its
    /// reply authorizes the data connection's use.
    AwaitingOpenReply,
    /// Bytes may move; the next control reply must confirm the data
    /// connection's closure.
    AwaitingCloseReply,
    /// The closing reply confirmed the transfer.
    Complete,
    /// A reply was rejected; the operation is over and nothing more may be
    /// issued for it.
    Failed,
}

/// One data-connection transfer in flight.
#[derive(Debug, Clone, Copy, PartialEq, Eq)]
pub struct Transfer {
    pub kind: TransferKind,
    pub stage: TransferStage,
}

impl Transfer {
    /// Starts the choreography; the passive-mode request goes out first.
    pub fn begin(kind: TransferKind) -> (t: Transfer)
        ensures
            t.kind == kind,
            t.stage is AwaitingPasvReply,
    {
        Transfer { kind, stage: TransferStage::AwaitingPasvReply }
    }

    /// Judges the passive-mode reply. "Passive mode entered" (227) and,
    /// leniently, "data connection already open" (125) are accepted; the
    /// message must then decode to a data address. Any other code, or an
    /// undecodable message, fails the operation before any bytes move.
    pub fn on_pasv_reply(&mut self, reply: &Reply) -> (r: Result<PassiveAddress, FtpError>)
        requires
            old(self).stage is AwaitingPasvReply,
        ensures
            final(self).kind == old(self).kind,
            !verb_accepts(Verb::Pasv, reply.code) ==> (r matches Err(FtpError::ResponseError(
                ResponseFault::PassiveCode(c),
            )) && c == reply.code && final(self).stage is Failed),
            pasv_target(reply.message@) matches Some(a) ==> (verb_accepts(Verb::Pasv, reply.code)
                ==> (r matches Ok(addr) && addr == a && final(self).stage is AwaitingOpenReply)),
            verb_accepts(Verb::Pasv, reply.code) && pasv_target(reply.message@) is None ==> (
            r matches Err(FtpError::ResponseError(ResponseFault::PassiveAddress(m))) && m@
                == reply.message@ && final(self).stage is Failed),
    {
        if !(reply.code == PASSIVE_MODE || reply.code == ALREADY_OPEN) {
            self.stage = TransferStage::Failed;
            return Err(FtpError::ResponseError(ResponseFault::PassiveCode(reply.code)));
        }
        match decode_pasv(&reply.message) {
            Ok(addr) => {
                self.stage = TransferStage::AwaitingOpenReply;
                Ok(addr)
            },
            Err(e) => {
                self.stage = TransferStage::Failed;
                Err(e)
            },
        }
    }

    /// Judges the reply to the transfer verb. The accepted set depends on
    /// the kind: retrieval and listing take 150 or 125, store-style kinds
    /// take 150 alone. A rejected code aborts the operation before any
    /// bytes are transferred.
    pub fn on_open_reply(&mut self, code: u16) -> (r: Result<(), FtpError>)
        requires
            old(self).stage is AwaitingOpenReply,
        ensures
            final(self).kind == old(self).kind,
            verb_accepts(transfer_verb(old(self).kind), code) ==> (r is Ok
                && final(self).stage is AwaitingCloseReply),
            !verb_accepts(transfer_verb(old(self).kind), code) ==> (r == Err::<(), FtpError>(
                verb_rejection(transfer_verb(old(self).kind), code),
            ) && final(self).stage is Failed),
    {
        let v = open_verb(self.kind);
        match check_reply(v, code) {
            Ok(u) => {
                self.stage = TransferStage::AwaitingCloseReply;
                Ok(u)
            },
            Err(e) => {
                self.stage = TransferStage::Failed;
                Err(e)
            },
        }
    }

    /// Judges the reply read on the control channel after the bytes moved.
    /// Only "closing data connection" (226) completes the transfer; any
    /// other code means the transfer's integrity cannot be confirmed, even
    /// though bytes may have moved, and the operation fails.
    pub fn on_close_reply(&mut self, code: u16) -> (r: Result<(), FtpError>)
        requires
            old(self).stage is AwaitingCloseReply,
        ensures
            final(self).kind == old(self).kind,
            code == CLOSING_DATA_CONNECTION ==> (r is Ok && final(self).stage is Complete),
            code != CLOSING_DATA_CONNECTION ==> (r matches Err(FtpError::ConnectionError(
                ConnectionFault::TransferClose(c),
            )) && c == code && final(self).stage is Failed),
    {
        if code == CLOSING_DATA_CONNECTION {
            self.stage = TransferStage::Complete;
            Ok(())
        } else {
            self.stage = TransferStage::Failed;
            Err(FtpError::ConnectionError(ConnectionFault::TransferClose(code)))
        }
    }
}

/// Which reply the rename sequence waits for next.
#[derive(Debug, Clone, Copy, PartialEq, Eq)]
pub enum RenameStage {
    /// The rename-from command was issued; only "file action pending" lets
    /// the sequence continue.
    AwaitingPendingReply,
    /// The rename-to command may be issued; its reply must confirm the
    /// action.
    AwaitingCompleteReply,
    /// The rename completed.
    Complete,
    /// A reply was rejected; the rename-to command must never be sent.
    Failed,
}

/// The two-command rename sequence: rename-from must be answered with "file
/// action pending" (350) before rename-to may be sent, and rename-to must be
/// answered with "file action complete" (250).
#[derive(Debug, Clone, Copy, PartialEq, Eq)]
pub struct Rename {
    pub stage: RenameStage,
}

impl Rename {
    /// Starts the sequence; the rename-from command goes out first.
    pub fn begin() -> (t: Rename)
        ensures
            t.stage is AwaitingPendingReply,
    {
        Rename { stage: RenameStage::AwaitingPendingReply }
    }

    /// Judges the rename-from reply. Anything but "file action pending"
    /// (350) is a hard stop: the machine fails and the rename-to command
    /// cannot be issued through it.
    pub fn on_pending_reply(&mut self, code: u16) -> (r: Result<(), FtpError>)
        requires
            old(self).stage is AwaitingPendingReply,
        ensures
            code == FILE_ACTION_PENDING ==> (r is Ok && final(self).stage is AwaitingCompleteReply),
            code != FILE_ACTION_PENDING ==> (r matches Err(FtpError::CommandError(c)) && c == code
                && final(self).stage is Failed),
    {
        if code == FILE_ACTION_PENDING {
            self.stage = RenameStage::AwaitingCompleteReply;
            Ok(())
        } else {
            self.stage = RenameStage::Failed;
            Err(FtpError::CommandError(code))
        }
    }

    /// Judges the rename-to reply. Only "file action complete" (250)
    /// finishes the rename.
    pub fn on_complete_reply(&mut self, code: u16) -> (r: Result<(), FtpError>)
        requires
            old(self).stage is AwaitingCompleteReply,
        ensures
            code == FILE_ACTION_OK ==> (r is Ok && final(self).stage is Complete),
            code != FILE_ACTION_OK ==> (r matches Err(FtpError::CommandError(c)) && c == code
                && final(self).stage is Failed),
    {
        if code == FILE_ACTION_OK {
            self.stage = RenameStage::Complete;
            Ok(())
        } else {
            self.stage = RenameStage::Failed;
            Err(FtpError::CommandError(code))
        }
    }
}

} // verus!
