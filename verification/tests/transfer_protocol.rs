//! The transfer choreography and the rename sequence, against scripted
//! control-channel replies.

use simpleftp::error::{ConnectionFault, FtpError, ResponseFault};
use simpleftp::pasv::PassiveAddress;
use simpleftp::reply::Reply;
use simpleftp::transfer::{Rename, RenameStage, Transfer, TransferKind, TransferStage};

fn pasv_reply(code: u16) -> Reply {
    Reply { code, message: b" Entering Passive Mode (127,0,0,1,19,136).".to_vec() }
}

#[test]
fn retrieval_choreography_in_order() {
    // The exact order of a download: the passive-mode reply yields the data
    // address, the transfer verb's reply authorizes the data connection,
    // bytes move, and the closing reply confirms.
    let mut t = Transfer::begin(TransferKind::Retrieve);
    assert_eq!(t.stage, TransferStage::AwaitingPasvReply);

    let addr = t.on_pasv_reply(&pasv_reply(227)).unwrap();
    assert_eq!(
        addr,
        PassiveAddress { ip0: 127, ip1: 0, ip2: 0, ip3: 1, port: 19 * 256 + 136 }
    );
    assert_eq!(t.stage, TransferStage::AwaitingOpenReply);

    t.on_open_reply(150).unwrap();
    assert_eq!(t.stage, TransferStage::AwaitingCloseReply);

    // ... the data socket is drained to end-of-file here ...
    t.on_close_reply(226).unwrap();
    assert_eq!(t.stage, TransferStage::Complete);
}

#[test]
fn missing_close_confirmation_fails_the_whole_operation() {
    // Even with every byte copied, a closing reply other than 226 fails
    // the operation.
    let mut t = Transfer::begin(TransferKind::Retrieve);
    t.on_pasv_reply(&pasv_reply(227)).unwrap();
    t.on_open_reply(125).unwrap();
    match t.on_close_reply(426) {
        Err(FtpError::ConnectionError(ConnectionFault::TransferClose(c))) => {
            assert_eq!(c, 426)
        }
        other => panic!("expected a close-confirmation error, got {:?}", other),
    }
    assert_eq!(t.stage, TransferStage::Failed);
}

#[test]
fn retrieval_accepts_already_open_but_stores_do_not() {
    let mut r = Transfer::begin(TransferKind::Retrieve);
    r.on_pasv_reply(&pasv_reply(227)).unwrap();
    r.on_open_reply(125).unwrap();

    let mut s = Transfer::begin(TransferKind::Store);
    s.on_pasv_reply(&pasv_reply(227)).unwrap();
    match s.on_open_reply(125) {
        Err(FtpError::CommandError(c)) => assert_eq!(c, 125),
        other => panic!("expected a command error, got {:?}", other),
    }
    assert_eq!(s.stage, TransferStage::Failed);

    let mut s2 = Transfer::begin(TransferKind::StoreUnique);
    s2.on_pasv_reply(&pasv_reply(227)).unwrap();
    s2.on_open_reply(150).unwrap();
    assert_eq!(s2.stage, TransferStage::AwaitingCloseReply);
}

#[test]
fn listing_accepts_both_opening_codes() {
    for code in [150u16, 125] {
        let mut t = Transfer::begin(TransferKind::List);
        t.on_pasv_reply(&pasv_reply(227)).unwrap();
        t.on_open_reply(code).unwrap();
        t.on_close_reply(226).unwrap();
        assert_eq!(t.stage, TransferStage::Complete);
    }
}

#[test]
fn passive_reply_codes_are_gated() {
    // 227 and, leniently, 125 are accepted; anything else is rejected
    // before any connection is opened.
    let mut t = Transfer::begin(TransferKind::Retrieve);
    let addr = t.on_pasv_reply(&pasv_reply(125)).unwrap();
    assert_eq!(addr.port, 19 * 256 + 136);

    let mut t2 = Transfer::begin(TransferKind::Retrieve);
    match t2.on_pasv_reply(&pasv_reply(425)) {
        Err(FtpError::ResponseError(ResponseFault::PassiveCode(c))) => assert_eq!(c, 425),
        other => panic!("expected a passive-code error, got {:?}", other),
    }
    assert_eq!(t2.stage, TransferStage::Failed);
}

#[test]
fn undecodable_passive_message_fails_the_transfer() {
    let mut t = Transfer::begin(TransferKind::Retrieve);
    let reply = Reply { code: 227, message: b" no numbers here".to_vec() };
    match t.on_pasv_reply(&reply) {
        Err(FtpError::ResponseError(ResponseFault::PassiveAddress(m))) => {
            assert_eq!(m, b" no numbers here".to_vec())
        }
        other => panic!("expected a passive-address error, got {:?}", other),
    }
    assert_eq!(t.stage, TransferStage::Failed);
}

#[test]
fn rejected_transfer_verb_aborts_before_bytes_move() {
    let mut t = Transfer::begin(TransferKind::Retrieve);
    t.on_pasv_reply(&pasv_reply(227)).unwrap();
    match t.on_open_reply(550) {
        Err(FtpError::CommandError(c)) => assert_eq!(c, 550),
        other => panic!("expected a command error, got {:?}", other),
    }
    assert_eq!(t.stage, TransferStage::Failed);
}

#[test]
fn rename_sequence_completes() {
    let mut r = Rename::begin();
    assert_eq!(r.stage, RenameStage::AwaitingPendingReply);
    r.on_pending_reply(350).unwrap();
    assert_eq!(r.stage, RenameStage::AwaitingCompleteReply);
    r.on_complete_reply(250).unwrap();
    assert_eq!(r.stage, RenameStage::Complete);
}

#[test]
fn rename_hard_stops_when_not_pending() {
    let mut r = Rename::begin();
    match r.on_pending_reply(550) {
        Err(FtpError::CommandError(c)) => assert_eq!(c, 550),
        other => panic!("expected a command error, got {:?}", other),
    }
    // The machine is stranded: the rename-to command can never be judged,
    // so it must never be sent.
    assert_eq!(r.stage, RenameStage::Failed);
}

#[test]
fn rename_rejected_completion() {
    let mut r = Rename::begin();
    r.on_pending_reply(350).unwrap();
    assert!(matches!(
        r.on_complete_reply(553),
        Err(FtpError::CommandError(553))
    ));
    assert_eq!(r.stage, RenameStage::Failed);
}
