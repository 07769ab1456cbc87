//! Passive-mode address negotiation.
//!
//! The message of a passive-mode reply embeds six decimal numbers: four IP
//! octets and the two bytes of the data port. Servers differ in punctuation
//! (commas, parentheses, stray words), so the decoder is a delimiter-tolerant
//! scanner: it collects every maximal run of decimal digits in order of
//! appearance, requires at least six, and combines the fifth and sixth as
//! `upper * 256 + lower`.

use vstd::prelude::*;

use crate::bytes::copy_bytes;
use crate::digit_val;
use crate::error::FtpError;
use crate::error::ResponseFault;
use crate::is_digit;

verus! {

/// One step of the scanner: `toks` are the completed tokens, `run` the value
/// of the digit run currently open, and `b` the next byte.
pub open spec fn scan_step(toks: Seq<nat>, run: Option<nat>, b: u8) -> (Seq<nat>, Option<nat>) {
    if is_digit(b) {
        match run {
            Option::None => (toks, Option::Some(digit_val(b))),
            Option::Some(v) => (toks, Option::Some(v * 10 + digit_val(b))),
        }
    } else {
        match run {
            Option::None => (toks, Option::None),
            Option::Some(v) => (toks.push(v), Option::None),
        }
    }
}

/// Scans `s` byte by byte from the state `(toks, run)`.
pub open spec fn scan_from(toks: Seq<nat>, run: Option<nat>, s: Seq<u8>) -> (Seq<nat>, Option<nat>)
    decreases s.len(),
{
    if s.len() == 0 {
        (toks, run)
    } else {
        let st = scan_step(toks, run, s[0]);
        scan_from(st.0, st.1, s.skip(1))
    }
}

/// Closes the final digit run, if one is open.
pub open spec fn scan_finish(toks: Seq<nat>, run: Option<nat>) -> Seq<nat> {
    match run {
        Option::None => toks,
        Option::Some(v) => toks.push(v),
    }
}

/// The values of all maximal decimal digit runs in `s`, in order of
/// appearance.
pub open spec fn tokens(s: Seq<u8>) -> Seq<nat> {
    let st = scan_from(Seq::empty(), Option::None, s);
    scan_finish(st.0, st.1)
}

/// Scanning a concatenation scans the two parts in turn.
pub proof fn lemma_scan_concat(toks: Seq<nat>, run: Option<nat>, s: Seq<u8>, t: Seq<u8>)
    ensures
        scan_from(toks, run, s + t) == ({
            let st = scan_from(toks, run, s);
            scan_from(st.0, st.1, t)
        }),
    decreases s.len(),
{
    if s.len() == 0 {
        assert(s + t =~= t);
    } else {
        let st = scan_step(toks, run, s[0]);
        assert((s + t)[0] == s[0]);
        assert((s + t).skip(1) =~= s.skip(1) + t);
        lemma_scan_concat(st.0, st.1, s.skip(1), t);
    }
}

/// True when `s` holds no decimal digit.
pub open spec fn digit_free(s: Seq<u8>) -> bool {
    forall|i: int| 0 <= i < s.len() ==> !is_digit(s[i])
}

/// Digit-free bytes leave a closed scanner state unchanged.
pub proof fn lemma_scan_digit_free(toks: Seq<nat>, s: Seq<u8>)
    requires
        digit_free(s),
    ensures
        scan_from(toks, Option::None, s) == (toks, Option::<nat>::None),
    decreases s.len(),
{
    if s.len() > 0 {
        assert(!is_digit(s[0]));
        assert(digit_free(s.skip(1))) by {
            assert(forall|i: int|
                0 <= i < s.skip(1).len() ==> s.skip(1)[i] == s[i + 1] && !is_digit(s[i + 1]));
        }
        lemma_scan_digit_free(toks, s.skip(1));
    }
}

/// A digit-free, non-empty tail closes the open run as one token.
pub proof fn lemma_scan_flush(toks: Seq<nat>, v: nat, s: Seq<u8>)
    requires
        digit_free(s),
        s.len() > 0,
    ensures
        scan_from(toks, Option::Some(v), s) == (toks.push(v), Option::<nat>::None),
{
    assert(!is_digit(s[0]));
    assert(digit_free(s.skip(1))) by {
        assert(forall|i: int|
            0 <= i < s.skip(1).len() ==> s.skip(1)[i] == s[i + 1] && !is_digit(s[i + 1]));
    }
    lemma_scan_digit_free(toks.push(v), s.skip(1));
}

/// The shortest decimal rendering of `n`, most significant digit first.
pub open spec fn dec_bytes(n: nat) -> Seq<u8>
    decreases n,
{
    if n < 10 {
        seq![(48 + n) as u8]
    } else {
        dec_bytes(n / 10).push((48 + n % 10) as u8)
    }
}

/// Scanning a decimal rendering from a closed state opens a run holding
/// exactly the rendered value.
pub proof fn lemma_scan_dec(toks: Seq<nat>, n: nat)
    ensures
        scan_from(toks, Option::None, dec_bytes(n)) == (toks, Option::<nat>::Some(n)),
    decreases n,
{
    reveal_with_fuel(scan_from, 3);
    if n < 10 {
        let s = dec_bytes(n);
        assert(s[0] == (48 + n) as u8);
        assert(is_digit(s[0]));
        assert(digit_val(s[0]) == n);
        assert(s.skip(1) =~= Seq::<u8>::empty());
    } else {
        lemma_scan_dec(toks, n / 10);
        let digit = (48 + n % 10) as u8;
        assert(dec_bytes(n) =~= dec_bytes(n / 10) + seq![digit]);
        lemma_scan_concat(toks, Option::None, dec_bytes(n / 10), seq![digit]);
        assert(is_digit(digit));
        assert(digit_val(digit) == n % 10);
        assert(seq![digit].skip(1) =~= Seq::<u8>::empty());
        assert((n / 10) * 10 + n % 10 == n) by {
            vstd::arithmetic::div_mod::lemma_fundamental_div_mod(n as int, 10);
        }
    }
}

/// A connectable data-channel endpoint decoded from a passive-mode reply:
/// four IP octets and the 16-bit port.
#[derive(Debug, Clone, Copy, PartialEq, Eq)]
pub struct PassiveAddress {
    pub ip0: u8,
    pub ip1: u8,
    pub ip2: u8,
    pub ip3: u8,
    pub port: u16,
}

/// What a passive-mode message decodes to: its first six numeric tokens must
/// exist and each fit in a byte; the port is `token[4] * 256 + token[5]`.
pub open spec fn pasv_target(msg: Seq<u8>) -> Option<PassiveAddress> {
    let t = tokens(msg);
    if t.len() >= 6 && t[0] <= 255 && t[1] <= 255 && t[2] <= 255 && t[3] <= 255 && t[4] <= 255
        && t[5] <= 255 {
        Option::Some(
            PassiveAddress {
                ip0: t[0] as u8,
                ip1: t[1] as u8,
                ip2: t[2] as u8,
                ip3: t[3] as u8,
                port: (t[4] * 256 + t[5]) as u16,
            },
        )
    } else {
        Option::None
    }
}

/// A token value clamped just past the octet range: values above 255 all
/// read as 256, which is enough to tell an in-range octet from an
/// out-of-range token.
pub open spec fn cap_token(n: nat) -> nat {
    if n <= 255 {
        n
    } else {
        256
    }
}

/// Collects the clamped values of all maximal digit runs in `msg`.
pub fn scan_tokens(msg: &Vec<u8>) -> (r: Vec<u32>)
    ensures
        r@.len() == tokens(msg@).len(),
        forall|i: int| 0 <= i < r@.len() ==> r@[i] == cap_token(tokens(msg@)[i]),
{
    let ghost empty: Seq<nat> = Seq::empty();
    let mut toks: Vec<u32> = Vec::new();
    let mut cur: u32 = 0;
    let mut has_cur: bool = false;
    let mut i: usize = 0;
    while i < msg.len()
        invariant
            i <= msg.len(),
            ({
                let st = scan_from(empty, Option::None, msg@.take(i as int));
                &&& toks@.len() == st.0.len()
                &&& forall|j: int| 0 <= j < toks@.len() ==> toks@[j] == cap_token(st.0[j])
                &&& has_cur <==> st.1 is Some
                &&& has_cur ==> cur == cap_token(st.1->0)
            }),
        decreases msg.len() - i,
    {
        let ghost st = scan_from(empty, Option::None, msg@.take(i as int));
        let b = msg[i];
        proof {
            reveal_with_fuel(scan_from, 3);
            assert(msg@.take(i + 1) =~= msg@.take(i as int) + seq![b]);
            lemma_scan_concat(empty, Option::None, msg@.take(i as int), seq![b]);
            assert(seq![b].skip(1) =~= Seq::<u8>::empty());
        }
        if 48 <= b && b <= 57 {
            let d = (b - 48) as u32;
            if !has_cur {
                cur = d;
                has_cur = true;
            } else {
                if cur <= 255 {
                    let t = cur * 10 + d;
                    cur = if t > 255 {
                        256
                    } else {
                        t
                    };
                } else {
                    // The run is already beyond the octet range and one more
                    // digit keeps it there, so the clamp stands.
                    proof {
                        assert(st.1->0 * 10 + digit_val(b) > 255);
                    }
                }
            }
        } else {
            if has_cur {
                toks.push(cur);
                has_cur = false;
            }
        }
        i = i + 1;
    }
    proof {
        assert(msg@.take(msg@.len() as int) =~= msg@);
    }
    if has_cur {
        toks.push(cur);
    }
    toks
}

/// Decodes the text of a passive-mode reply into a dialable address.
///
/// Succeeds exactly when the message holds at least six numeric tokens whose
/// first six each fit in a byte; otherwise the raw message comes back inside
/// a `ResponseError`.
pub fn decode_pasv(msg: &Vec<u8>) -> (r: Result<PassiveAddress, FtpError>)
    ensures
        pasv_target(msg@) matches Some(a) ==> (r matches Ok(found) && found == a),
        pasv_target(msg@) is None ==> (r matches Err(FtpError::ResponseError(
            ResponseFault::PassiveAddress(m),
        )) && m@ == msg@),
{
    let toks = scan_tokens(msg);
    if toks.len() < 6 {
        return Err(FtpError::ResponseError(ResponseFault::PassiveAddress(copy_bytes(msg))));
    }
    let t0 = toks[0];
    let t1 = toks[1];
    let t2 = toks[2];
    let t3 = toks[3];
    let t4 = toks[4];
    let t5 = toks[5];
    if t0 > 255 || t1 > 255 || t2 > 255 || t3 > 255 || t4 > 255 || t5 > 255 {
        return Err(FtpError::ResponseError(ResponseFault::PassiveAddress(copy_bytes(msg))));
    }
    let port: u16 = (t4 as u16) * 256 + (t5 as u16);
    Ok(
        PassiveAddress {
            ip0: t0 as u8,
            ip1: t1 as u8,
            ip2: t2 as u8,
            ip3: t3 as u8,
            port,
        },
    )
}

/// Round trip of passive-mode address exchange: however the six numbers are
/// decorated with digit-free text, scanning the message back recovers
/// exactly the octets and port bytes that were rendered into it.
pub proof fn lemma_pasv_round_trip(
    pre: Seq<u8>,
    a: nat,
    b: nat,
    c: nat,
    d: nat,
    p1: nat,
    p2: nat,
    post: Seq<u8>,
)
    requires
        digit_free(pre),
        digit_free(post),
        a <= 255,
        b <= 255,
        c <= 255,
        d <= 255,
        p1 <= 255,
        p2 <= 255,
    ensures
        ({
            let msg = pre + dec_bytes(a) + seq![44u8] + dec_bytes(b) + seq![44u8] + dec_bytes(c)
                + seq![44u8] + dec_bytes(d) + seq![44u8] + dec_bytes(p1) + seq![44u8] + dec_bytes(
                p2,
            ) + post;
            &&& pasv_target(msg) matches Some(addr)
            &&& pasv_target(msg)->0.ip0 == a
            &&& pasv_target(msg)->0.ip1 == b
            &&& pasv_target(msg)->0.ip2 == c
            &&& pasv_target(msg)->0.ip3 == d
            &&& pasv_target(msg)->0.port == p1 * 256 + p2
        }),
{
    let e: Seq<nat> = Seq::empty();
    let comma: Seq<u8> = seq![44u8];
    assert(digit_free(comma)) by {
        assert(!is_digit(comma[0]));
    }
    let s1 = pre + dec_bytes(a);
    let s2 = s1 + comma;
    let s3 = s2 + dec_bytes(b);
    let s4 = s3 + comma;
    let s5 = s4 + dec_bytes(c);
    let s6 = s5 + comma;
    let s7 = s6 + dec_bytes(d);
    let s8 = s7 + comma;
    let s9 = s8 + dec_bytes(p1);
    let s10 = s9 + comma;
    let s11 = s10 + dec_bytes(p2);
    let msg = s11 + post;

    lemma_scan_digit_free(e, pre);
    lemma_scan_concat(e, Option::None, pre, dec_bytes(a));
    lemma_scan_dec(e, a);
    assert(scan_from(e, Option::None, s1) == (e, Option::<nat>::Some(a)));

    lemma_scan_concat(e, Option::None, s1, comma);
    lemma_scan_flush(e, a, comma);
    assert(scan_from(e, Option::None, s2) == (e.push(a), Option::<nat>::None));

    lemma_scan_concat(e, Option::None, s2, dec_bytes(b));
    lemma_scan_dec(e.push(a), b);
    assert(scan_from(e, Option::None, s3) == (e.push(a), Option::<nat>::Some(b)));

    lemma_scan_concat(e, Option::None, s3, comma);
    lemma_scan_flush(e.push(a), b, comma);
    assert(scan_from(e, Option::None, s4) == (e.push(a).push(b), Option::<nat>::None));

    lemma_scan_concat(e, Option::None, s4, dec_bytes(c));
    lemma_scan_dec(e.push(a).push(b), c);
    assert(scan_from(e, Option::None, s5) == (e.push(a).push(b), Option::<nat>::Some(c)));

    lemma_scan_concat(e, Option::None, s5, comma);
    lemma_scan_flush(e.push(a).push(b), c, comma);
    assert(scan_from(e, Option::None, s6) == (e.push(a).push(b).push(c), Option::<nat>::None));

    lemma_scan_concat(e, Option::None, s6, dec_bytes(d));
    lemma_scan_dec(e.push(a).push(b).push(c), d);
    assert(scan_from(e, Option::None, s7) == (
        e.push(a).push(b).push(c),
        Option::<nat>::Some(d),
    ));

    lemma_scan_concat(e, Option::None, s7, comma);
    lemma_scan_flush(e.push(a).push(b).push(c), d, comma);
    assert(scan_from(e, Option::None, s8) == (
        e.push(a).push(b).push(c).push(d),
        Option::<nat>::None,
    ));

    lemma_scan_concat(e, Option::None, s8, dec_bytes(p1));
    lemma_scan_dec(e.push(a).push(b).push(c).push(d), p1);
    assert(scan_from(e, Option::None, s9) == (
        e.push(a).push(b).push(c).push(d),
        Option::<nat>::Some(p1),
    ));

    lemma_scan_concat(e, Option::None, s9, comma);
    lemma_scan_flush(e.push(a).push(b).push(c).push(d), p1, comma);
    assert(scan_from(e, Option::None, s10) == (
        e.push(a).push(b).push(c).push(d).push(p1),
        Option::<nat>::None,
    ));

    lemma_scan_concat(e, Option::None, s10, dec_bytes(p2));
    lemma_scan_dec(e.push(a).push(b).push(c).push(d).push(p1), p2);
    assert(scan_from(e, Option::None, s11) == (
        e.push(a).push(b).push(c).push(d).push(p1),
        Option::<nat>::Some(p2),
    ));

    lemma_scan_concat(e, Option::None, s11, post);
    let full = e.push(a).push(b).push(c).push(d).push(p1).push(p2);
    if post.len() == 0 {
        assert(scan_from(e, Option::None, msg) == (
            e.push(a).push(b).push(c).push(d).push(p1),
            Option::<nat>::Some(p2),
        ));
        assert(tokens(msg) == full);
    } else {
        lemma_scan_flush(e.push(a).push(b).push(c).push(d).push(p1), p2, post);
        assert(tokens(msg) == full);
    }
    assert(tokens(msg).len() == 6);
    assert(tokens(msg)[0] == a);
    assert(tokens(msg)[1] == b);
    assert(tokens(msg)[2] == c);
    assert(tokens(msg)[3] == d);
    assert(tokens(msg)[4] == p1);
    assert(tokens(msg)[5] == p2);
}

} // verus!
