//! Passive-mode address decoding: the round trip from a rendered reply to
//! octets and port, boundary values, delimiter tolerance, and rejection.

use simpleftp::error::{FtpError, ResponseFault};
use simpleftp::pasv::{decode_pasv, scan_tokens, PassiveAddress};
use simpleftp::reply::ReplyParser;

fn decode(msg: &[u8]) -> Result<PassiveAddress, FtpError> {
    decode_pasv(&msg.to_vec())
}

fn addr(ip0: u8, ip1: u8, ip2: u8, ip3: u8, port: u16) -> PassiveAddress {
    PassiveAddress { ip0, ip1, ip2, ip3, port }
}

#[test]
fn round_trip_through_reply_and_decoder() {
    // The full pipeline: parse the reply line, then decode its message.
    let mut p = ReplyParser::new();
    let line = b"227 Entering Passive Mode (10,0,0,1,19,136).\r\n".to_vec();
    let r = p.feed_line(&line).unwrap().unwrap();
    assert_eq!(r.code, 227);
    let a = decode_pasv(&r.message).unwrap();
    assert_eq!(a, addr(10, 0, 0, 1, 19 * 256 + 136));
}

#[test]
fn round_trip_boundary_values() {
    // The decoder takes the reply's message, the part after the stripped
    // status digits.
    let a = decode(b" Entering Passive Mode (0,0,0,0,0,0).").unwrap();
    assert_eq!(a, addr(0, 0, 0, 0, 0));
    let b = decode(b" Entering Passive Mode (255,255,255,255,255,255).").unwrap();
    assert_eq!(b, addr(255, 255, 255, 255, 255 * 256 + 255));
    let c = decode(b"(1,2,3,4,5,6)").unwrap();
    assert_eq!(c, addr(1, 2, 3, 4, 5 * 256 + 6));
}

#[test]
fn round_trip_full_pipeline_boundaries() {
    // For any octet and port-byte combination, the reply built from the six
    // numbers decodes back to exactly those numbers.
    for (a, b, c, d, p1, p2) in [
        (0u8, 0u8, 0u8, 0u8, 0u8, 0u8),
        (255, 255, 255, 255, 255, 255),
        (1, 255, 0, 254, 255, 0),
        (10, 0, 0, 1, 0, 21),
    ] {
        let line = format!(
            "227 Entering Passive Mode ({},{},{},{},{},{}).\r\n",
            a, b, c, d, p1, p2
        )
        .into_bytes();
        let mut p = ReplyParser::new();
        let r = p.feed_line(&line).unwrap().unwrap();
        assert_eq!(r.code, 227);
        let got = decode_pasv(&r.message).unwrap();
        assert_eq!(got, addr(a, b, c, d, p1 as u16 * 256 + p2 as u16));
    }
}

#[test]
fn port_combination() {
    let a = decode(b"(192,168,1,20,7,210)").unwrap();
    assert_eq!(a.port, 7 * 256 + 210);
    assert_eq!(a.port, 2002);
}

#[test]
fn delimiter_tolerance() {
    // Different servers punctuate differently; any digit-free decoration
    // around the six numbers is tolerated.
    let a = decode(b"=10,0,0,1,19,136").unwrap();
    assert_eq!(a, addr(10, 0, 0, 1, 19 * 256 + 136));
    let b = decode(b"Entering passive mode 10 0 0 1 19 136 now").unwrap();
    assert_eq!(b, addr(10, 0, 0, 1, 19 * 256 + 136));
}

#[test]
fn extra_tokens_are_ignored() {
    // Only the first six numbers matter.
    let a = decode(b"(10,0,0,1,19,136) and 999999 more").unwrap();
    assert_eq!(a, addr(10, 0, 0, 1, 19 * 256 + 136));
}

#[test]
fn fewer_than_six_tokens_is_rejected() {
    for msg in [&b""[..], b"no digits at all", b"(1,2,3,4,5)", b"1,2"] {
        match decode(msg) {
            Err(FtpError::ResponseError(ResponseFault::PassiveAddress(m))) => {
                assert_eq!(m, msg.to_vec());
            }
            other => panic!("expected a passive-address error, got {:?}", other),
        }
    }
}

#[test]
fn out_of_range_tokens_are_rejected() {
    assert!(decode(b"(300,0,0,1,19,136)").is_err());
    assert!(decode(b"(10,0,0,1,999,136)").is_err());
    assert!(decode(b"(1234567890123456789,0,0,1,19,136)").is_err());
}

#[test]
fn token_scanner_reads_maximal_runs() {
    // Values above the octet range all read as the clamp value 256.
    let toks = scan_tokens(&b"ab12cd345,6".to_vec());
    assert_eq!(toks, vec![12, 256, 6]);
    let boundary = scan_tokens(&b"255,256".to_vec());
    assert_eq!(boundary, vec![255, 256]);
}
