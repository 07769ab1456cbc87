//! Wire serialization of command lines and numeric arguments, and the
//! per-verb reply contracts of the thin wrappers.

use simpleftp::command::{command_bare, command_with_arg, decimal_bytes, Verb};
use simpleftp::error::{FileFault, FtpError};
use simpleftp::verbs::check_reply;

fn with_arg(v: Verb, arg: &[u8]) -> Vec<u8> {
    command_with_arg(v, &arg.to_vec())
}

#[test]
fn argument_commands_serialize_exactly() {
    assert_eq!(with_arg(Verb::User, b"demo"), b"USER demo\r\n".to_vec());
    assert_eq!(with_arg(Verb::Pass, b"password"), b"PASS password\r\n".to_vec());
    assert_eq!(with_arg(Verb::Retr, b"/readme.txt"), b"RETR /readme.txt\r\n".to_vec());
    assert_eq!(with_arg(Verb::Dele, b"old.log"), b"DELE old.log\r\n".to_vec());
    assert_eq!(with_arg(Verb::Cwd, b"/pub"), b"CWD /pub\r\n".to_vec());
    assert_eq!(with_arg(Verb::Rnfr, b"a"), b"RNFR a\r\n".to_vec());
    assert_eq!(with_arg(Verb::Rnto, b"b"), b"RNTO b\r\n".to_vec());
}

#[test]
fn store_unique_keeps_the_empty_argument() {
    assert_eq!(with_arg(Verb::Stou, b""), b"STOU \r\n".to_vec());
}

#[test]
fn bare_commands_serialize_exactly() {
    assert_eq!(command_bare(Verb::Pasv), b"PASV\r\n".to_vec());
    assert_eq!(command_bare(Verb::Noop), b"NOOP\r\n".to_vec());
    assert_eq!(command_bare(Verb::Quit), b"QUIT\r\n".to_vec());
    assert_eq!(command_bare(Verb::Cdup), b"CDUP\r\n".to_vec());
    assert_eq!(command_bare(Verb::Pwd), b"PWD\r\n".to_vec());
    assert_eq!(command_bare(Verb::Syst), b"SYST\r\n".to_vec());
    assert_eq!(command_bare(Verb::Abor), b"ABOR\r\n".to_vec());
    assert_eq!(command_bare(Verb::TypeBinary), b"TYPE I\r\n".to_vec());
    assert_eq!(command_bare(Verb::TypeAscii), b"TYPE A\r\n".to_vec());
}

#[test]
fn decimal_rendering() {
    assert_eq!(decimal_bytes(0), b"0".to_vec());
    assert_eq!(decimal_bytes(7), b"7".to_vec());
    assert_eq!(decimal_bytes(10), b"10".to_vec());
    assert_eq!(decimal_bytes(1024), b"1024".to_vec());
    assert_eq!(decimal_bytes(18446744073709551615), b"18446744073709551615".to_vec());
}

#[test]
fn allocate_command_with_size() {
    let line = command_with_arg(Verb::Allo, &decimal_bytes(4096));
    assert_eq!(line, b"ALLO 4096\r\n".to_vec());
}

#[test]
fn verb_reply_contracts() {
    assert!(check_reply(Verb::Noop, 200).is_ok());
    assert!(check_reply(Verb::Dele, 250).is_ok());
    assert!(check_reply(Verb::Cwd, 200).is_ok());
    assert!(check_reply(Verb::Cwd, 250).is_ok());
    assert!(check_reply(Verb::Mkd, 257).is_ok());
    assert!(check_reply(Verb::Mkd, 521).is_ok());
    assert!(check_reply(Verb::Rmd, 250).is_ok());
    assert!(check_reply(Verb::Cdup, 200).is_ok());
    assert!(check_reply(Verb::Pwd, 257).is_ok());
    assert!(check_reply(Verb::Abor, 226).is_ok());
    assert!(check_reply(Verb::Stat, 211).is_ok());
    assert!(check_reply(Verb::Stat, 212).is_ok());
    assert!(check_reply(Verb::Stat, 213).is_ok());
    assert!(check_reply(Verb::Syst, 215).is_ok());
    assert!(check_reply(Verb::Help, 214).is_ok());
    assert!(check_reply(Verb::Allo, 200).is_ok());
    assert!(check_reply(Verb::Smnt, 250).is_ok());
    assert!(check_reply(Verb::TypeBinary, 200).is_ok());
    assert!(check_reply(Verb::TypeAscii, 200).is_ok());
}

#[test]
fn verb_rejections_carry_their_kind_and_code() {
    // Filesystem-flavored verbs refuse with a file error; plain commands
    // with a command error.
    assert!(matches!(
        check_reply(Verb::Mkd, 550),
        Err(FtpError::FileError(FileFault::Refused(550)))
    ));
    assert!(matches!(
        check_reply(Verb::TypeBinary, 504),
        Err(FtpError::FileError(FileFault::Refused(504)))
    ));
    assert!(matches!(check_reply(Verb::Dele, 550), Err(FtpError::CommandError(550))));
    assert!(matches!(check_reply(Verb::Pwd, 550), Err(FtpError::CommandError(550))));
    assert!(matches!(check_reply(Verb::Stat, 450), Err(FtpError::CommandError(450))));
}
