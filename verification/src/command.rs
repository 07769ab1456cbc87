//! Serialization of command lines.
//!
//! Every protocol operation goes over the wire as one ASCII line,
//! `VERB[ argument]` terminated by CRLF. This module renders those lines;
//! writing them to the socket is the embedding program's business.

use vstd::prelude::*;

verus! {

/// The command verbs the client can issue.
#[derive(Debug, Clone, Copy, PartialEq, Eq)]
pub enum Verb {
    User,
    Pass,
    Acct,
    Retr,
    Stor,
    Stou,
    Appe,
    Noop,
    Rnfr,
    Rnto,
    Dele,
    Pasv,
    List,
    Nlst,
    Cwd,
    Mkd,
    Rmd,
    Cdup,
    Pwd,
    Abor,
    Stat,
    Syst,
    Help,
    Allo,
    Smnt,
    Quit,
    TypeBinary,
    TypeAscii,
}

/// The wire spelling of each verb. The two transfer types are whole
/// commands of their own (`TYPE I`, `TYPE A`).
pub open spec fn verb_token(v: Verb) -> Seq<u8> {
    match v {
        Verb::User => seq![85u8, 83u8, 69u8, 82u8],
        Verb::Pass => seq![80u8, 65u8, 83u8, 83u8],
        Verb::Acct => seq![65u8, 67u8, 67u8, 84u8],
        Verb::Retr => seq![82u8, 69u8, 84u8, 82u8],
        Verb::Stor => seq![83u8, 84u8, 79u8, 82u8],
        Verb::Stou => seq![83u8, 84u8, 79u8, 85u8],
        Verb::Appe => seq![65u8, 80u8, 80u8, 69u8],
        Verb::Noop => seq![78u8, 79u8, 79u8, 80u8],
        Verb::Rnfr => seq![82u8, 78u8, 70u8, 82u8],
        Verb::Rnto => seq![82u8, 78u8, 84u8, 79u8],
        Verb::Dele => seq![68u8, 69u8, 76u8, 69u8],
        Verb::Pasv => seq![80u8, 65u8, 83u8, 86u8],
        Verb::List => seq![76u8, 73u8, 83u8, 84u8],
        Verb::Nlst => seq![78u8, 76u8, 83u8, 84u8],
        Verb::Cwd => seq![67u8, 87u8, 68u8],
        Verb::Mkd => seq![77u8, 75u8, 68u8],
        Verb::Rmd => seq![82u8, 77u8, 68u8],
        Verb::Cdup => seq![67u8, 68u8, 85u8, 80u8],
        Verb::Pwd => seq![80u8, 87u8, 68u8],
        Verb::Abor => seq![65u8, 66u8, 79u8, 82u8],
        Verb::Stat => seq![83u8, 84u8, 65u8, 84u8],
        Verb::Syst => seq![83u8, 89u8, 83u8, 84u8],
        Verb::Help => seq![72u8, 69u8, 76u8, 80u8],
        Verb::Allo => seq![65u8, 76u8, 76u8, 79u8],
        Verb::Smnt => seq![83u8, 77u8, 78u8, 84u8],
        Verb::Quit => seq![81u8, 85u8, 73u8, 84u8],
        Verb::TypeBinary => seq![84u8, 89u8, 80u8, 69u8, 32u8, 73u8],
        Verb::TypeAscii => seq![84u8, 89u8, 80u8, 69u8, 32u8, 65u8],
    }
}

/// The protocol line terminator.
pub open spec fn crlf() -> Seq<u8> {
    seq![13u8, 10u8]
}

/// The wire line of a bare verb: `VERB\r\n`.
pub open spec fn bare_line(v: Verb) -> Seq<u8> {
    verb_token(v) + crlf()
}

/// The wire line of a verb with an argument: `VERB arg\r\n`.
pub open spec fn arg_line(v: Verb, arg: Seq<u8>) -> Seq<u8> {
    verb_token(v) + seq![32u8] + arg + crlf()
}

/// Pushes the verb's wire spelling.
fn push_verb(out: &mut Vec<u8>, v: Verb)
    ensures
        final(out)@ == old(out)@ + verb_token(v),
{
    match v {
        Verb::User => {
            out.push(85u8);
            out.push(83u8);
            out.push(69u8);
            out.push(82u8);
        },
        Verb::Pass => {
            out.push(80u8);
            out.push(65u8);
            out.push(83u8);
            out.push(83u8);
        },
        Verb::Acct => {
            out.push(65u8);
            out.push(67u8);
            out.push(67u8);
            out.push(84u8);
        },
        Verb::Retr => {
            out.push(82u8);
            out.push(69u8);
            out.push(84u8);
            out.push(82u8);
        },
        Verb::Stor => {
            out.push(83u8);
            out.push(84u8);
            out.push(79u8);
            out.push(82u8);
        },
        Verb::Stou => {
            out.push(83u8);
            out.push(84u8);
            out.push(79u8);
            out.push(85u8);
        },
        Verb::Appe => {
            out.push(65u8);
            out.push(80u8);
            out.push(80u8);
            out.push(69u8);
        },
        Verb::Noop => {
            out.push(78u8);
            out.push(79u8);
            out.push(79u8);
            out.push(80u8);
        },
        Verb::Rnfr => {
            out.push(82u8);
            out.push(78u8);
            out.push(70u8);
            out.push(82u8);
        },
        Verb::Rnto => {
            out.push(82u8);
            out.push(78u8);
            out.push(84u8);
            out.push(79u8);
        },
        Verb::Dele => {
            out.push(68u8);
            out.push(69u8);
            out.push(76u8);
            out.push(69u8);
        },
        Verb::Pasv => {
            out.push(80u8);
            out.push(65u8);
            out.push(83u8);
            out.push(86u8);
        },
        Verb::List => {
            out.push(76u8);
            out.push(73u8);
            out.push(83u8);
            out.push(84u8);
        },
        Verb::Nlst => {
            out.push(78u8);
            out.push(76u8);
            out.push(83u8);
            out.push(84u8);
        },
        Verb::Cwd => {
            out.push(67u8);
            out.push(87u8);
            out.push(68u8);
        },
        Verb::Mkd => {
            out.push(77u8);
            out.push(75u8);
            out.push(68u8);
        },
        Verb::Rmd => {
            out.push(82u8);
            out.push(77u8);
            out.push(68u8);
        },
        Verb::Cdup => {
            out.push(67u8);
            out.push(68u8);
            out.push(85u8);
            out.push(80u8);
        },
        Verb::Pwd => {
            out.push(80u8);
            out.push(87u8);
            out.push(68u8);
        },
        Verb::Abor => {
            out.push(65u8);
            out.push(66u8);
            out.push(79u8);
            out.push(82u8);
        },
        Verb::Stat => {
            out.push(83u8);
            out.push(84u8);
            out.push(65u8);
            out.push(84u8);
        },
        Verb::Syst => {
            out.push(83u8);
            out.push(89u8);
            out.push(83u8);
            out.push(84u8);
        },
        Verb::Help => {
            out.push(72u8);
            out.push(69u8);
            out.push(76u8);
            out.push(80u8);
        },
        Verb::Allo => {
            out.push(65u8);
            out.push(76u8);
            out.push(76u8);
            out.push(79u8);
        },
        Verb::Smnt => {
            out.push(83u8);
            out.push(77u8);
            out.push(78u8);
            out.push(84u8);
        },
        Verb::Quit => {
            out.push(81u8);
            out.push(85u8);
            out.push(73u8);
            out.push(84u8);
        },
        Verb::TypeBinary => {
            out.push(84u8);
            out.push(89u8);
            out.push(80u8);
            out.push(69u8);
            out.push(32u8);
            out.push(73u8);
        },
        Verb::TypeAscii => {
            out.push(84u8);
            out.push(89u8);
            out.push(80u8);
            out.push(69u8);
            out.push(32u8);
            out.push(65u8);
        },
    }
    proof {
        assert(out@ =~= old(out)@ + verb_token(v));
    }
}

/// Renders a bare command line: the verb and the line terminator.
pub fn command_bare(v: Verb) -> (r: Vec<u8>)
    ensures
        r@ == bare_line(v),
{
    let mut r: Vec<u8> = Vec::new();
    push_verb(&mut r, v);
    r.push(13);
    r.push(10);
    proof {
        assert(r@ =~= bare_line(v));
    }
    r
}

/// Renders a command line with an argument: verb, one space, the argument
/// bytes verbatim, and the line terminator.
pub fn command_with_arg(v: Verb, arg: &Vec<u8>) -> (r: Vec<u8>)
    ensures
        r@ == arg_line(v, arg@),
{
    let mut r: Vec<u8> = Vec::new();
    push_verb(&mut r, v);
    r.push(32u8);
    crate::bytes::append_bytes(&mut r, arg);
    r.push(13);
    r.push(10);
    proof {
        assert(r@ =~= arg_line(v, arg@));
    }
    r
}

/// Pushes the shortest decimal rendering of `n`.
fn push_decimal(out: &mut Vec<u8>, n: u64)
    ensures
        final(out)@ == old(out)@ + crate::pasv::dec_bytes(n as nat),
    decreases n,
{
    if n < 10 {
        out.push(48 + n as u8);
        proof {
            assert(old(out)@ + crate::pasv::dec_bytes(n as nat) =~= old(out)@.push(
                ((48 + n) as u8),
            ));
        }
    } else {
        push_decimal(out, n / 10);
        out.push(48 + (n % 10) as u8);
        proof {
            assert(old(out)@ + crate::pasv::dec_bytes(n as nat) =~= (old(out)@
                + crate::pasv::dec_bytes((n / 10) as nat)).push(((48 + n % 10) as u8)));
        }
    }
}

/// The decimal digits of `n`, for numeric command arguments such as an
/// allocation size.
pub fn decimal_bytes(n: u64) -> (r: Vec<u8>)
    ensures
        r@ == crate::pasv::dec_bytes(n as nat),
{
    let mut r: Vec<u8> = Vec::new();
    push_decimal(&mut r, n);
    proof {
        assert(r@ =~= crate::pasv::dec_bytes(n as nat));
    }
    r
}

} // verus!
