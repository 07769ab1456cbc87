//! The control-connection reply protocol.
//!
//! A reply is one or more ASCII lines. The first line opens with a three-digit
//! status code; a `'-'` in the fourth column announces a multi-line reply,
//! whose true terminator is a later line that begins with the same three
//! digits followed by a byte other than `'-'`. Intermediate lines are opaque
//! payload and are accumulated verbatim.
//!
//! The parser here is fed one line at a time, exactly as the line was read
//! from the control connection (terminator bytes included), and says after
//! each line whether a full reply is available, more lines are needed, or the
//! text is malformed.

use vstd::prelude::*;

use crate::bytes::append_bytes;
use crate::bytes::copy_bytes;
use crate::bytes::suffix_from;
use crate::error::FtpError;
use crate::error::ResponseFault;
use crate::is_digit;

verus! {

/// True when the line begins with three ASCII digits.
pub open spec fn has_code(line: Seq<u8>) -> bool {
    line.len() >= 3 && is_digit(line[0]) && is_digit(line[1]) && is_digit(line[2])
}

/// The status code spelled by the line's first three digits.
pub open spec fn line_code(line: Seq<u8>) -> int {
    (line[0] - 48) * 100 + (line[1] - 48) * 10 + (line[2] - 48)
}

/// True when the line may open a reply: at least five bytes long, and its
/// first three bytes spell a status code whose first digit classifies the
/// reply (a code between 100 and 599).
pub open spec fn valid_open_line(line: Seq<u8>) -> bool {
    line.len() >= 5 && has_code(line) && 100 <= line_code(line) <= 599
}

/// True when the line opens a multi-line reply: a valid opening line whose
/// fourth byte is `'-'`.
pub open spec fn opens_multiline(line: Seq<u8>) -> bool {
    valid_open_line(line) && line[3] == 45u8
}

/// True when `line` terminates a multi-line reply that was opened by the
/// first bytes of `acc`: it repeats the same three code digits and its fourth
/// byte, if any, is not `'-'`. A lookalike line that repeats the digits but
/// continues with `'-'` does not terminate the reply.
pub open spec fn closes_multiline(line: Seq<u8>, acc: Seq<u8>) -> bool {
    &&& line.len() >= 3
    &&& line[0] == acc[0]
    &&& line[1] == acc[1]
    &&& line[2] == acc[2]
    &&& (line.len() <= 3 || line[3] != 45u8)
}

/// A line shorter than five bytes never opens a reply, whatever it holds:
/// the parser rejects it before reading any code from it.
pub proof fn lemma_short_line_invalid(line: Seq<u8>)
    requires
        line.len() < 5,
    ensures
        !valid_open_line(line),
{
}

/// A lookalike line that repeats the opening code digits but continues with
/// `'-'` never terminates a multi-line reply: continuation scanning goes on.
pub proof fn lemma_lookalike_continues(line: Seq<u8>, acc: Seq<u8>)
    requires
        line.len() > 3,
        line[3] == 45u8,
    ensures
        !closes_multiline(line, acc),
{
}

/// One structured reply from the server: the status code of its first line,
/// and everything after those three digits (continuation lines included,
/// verbatim) as the message.
#[derive(Debug, Clone, PartialEq, Eq)]
pub struct Reply {
    pub code: u16,
    pub message: Vec<u8>,
}

impl Reply {
    /// A reply's code always keeps the three-digit shape, with a first digit
    /// that classifies it.
    pub open spec fn valid(self) -> bool {
        100 <= self.code <= 599
    }
}

/// Incremental parser for one reply. Between replies it is idle; while inside
/// a multi-line reply it accumulates the lines seen so far.
#[derive(Debug, Clone, PartialEq, Eq)]
pub struct ReplyParser {
    /// True while a multi-line reply is open and unterminated.
    pub in_multi: bool,
    /// The bytes accumulated for the open reply; meaningful only while
    /// `in_multi` holds, and then it begins with the opening line.
    pub acc: Vec<u8>,
}

impl ReplyParser {
    /// While a multi-line reply is open, the accumulated bytes begin with the
    /// opening line's valid code digits and its `'-'` marker.
    pub open spec fn wf(self) -> bool {
        self.in_multi ==> self.acc@.len() >= 5 && has_code(self.acc@) && 100 <= line_code(
            self.acc@,
        ) <= 599
    }

    /// A parser with no reply in progress.
    pub fn new() -> (r: ReplyParser)
        ensures
            r.wf(),
            !r.in_multi,
    {
        ReplyParser { in_multi: false, acc: Vec::new() }
    }

    /// Consumes one line as read from the control connection and reports
    /// progress: `Ok(Some(reply))` when the line completes a reply,
    /// `Ok(None)` when more lines of a multi-line reply are needed, and
    /// `Err` when an opening line is shorter than five bytes or does not
    /// spell a status code.
    pub fn feed_line(&mut self, line: &Vec<u8>) -> (r: Result<Option<Reply>, FtpError>)
        requires
            old(self).wf(),
        ensures
            final(self).wf(),
            !old(self).in_multi ==> {
                &&& line@.len() < 5 ==> (r matches Err(FtpError::ResponseError(
                    ResponseFault::Truncated(l),
                )) && l@ == line@ && !final(self).in_multi)
                &&& line@.len() >= 5 && !valid_open_line(line@) ==> (r matches Err(
                    FtpError::ResponseError(ResponseFault::MalformedCode(l)),
                ) && l@ == line@ && !final(self).in_multi)
                &&& opens_multiline(line@) ==> (r matches Ok(o) && o is None
                    && final(self).in_multi && final(self).acc@ == line@)
                &&& valid_open_line(line@) && !opens_multiline(line@) ==> (r matches Ok(o)
                    && o matches Some(rep) && rep.code == line_code(line@) && rep.message@
                    == line@.skip(3) && rep.valid() && !final(self).in_multi)
            },
            old(self).in_multi ==> {
                &&& closes_multiline(line@, old(self).acc@) ==> (r matches Ok(o)
                    && o matches Some(rep) && rep.code == line_code(old(self).acc@)
                    && rep.message@ == (old(self).acc@ + line@).skip(3) && rep.valid()
                    && !final(self).in_multi)
                &&& !closes_multiline(line@, old(self).acc@) ==> (r matches Ok(o) && o is None
                    && final(self).in_multi && final(self).acc@ == old(self).acc@ + line@)
            },
    {
        if !self.in_multi {
            if line.len() < 5 {
                return Err(FtpError::ResponseError(ResponseFault::Truncated(copy_bytes(line))));
            }
            let b0 = line[0];
            let b1 = line[1];
            let b2 = line[2];
            let digits = 48 <= b0 && b0 <= 57 && 48 <= b1 && b1 <= 57 && 48 <= b2 && b2 <= 57;
            if !digits {
                return Err(
                    FtpError::ResponseError(ResponseFault::MalformedCode(copy_bytes(line))),
                );
            }
            let code: u16 = (b0 - 48) as u16 * 100 + (b1 - 48) as u16 * 10 + (b2 - 48) as u16;
            if code < 100 || code > 599 {
                return Err(
                    FtpError::ResponseError(ResponseFault::MalformedCode(copy_bytes(line))),
                );
            }
            if line[3] == 45 {
                self.acc.clear();
                append_bytes(&mut self.acc, line);
                self.in_multi = true;
                proof {
                    assert(self.acc@ =~= line@);
                }
                Ok(None)
            } else {
                let message = suffix_from(line, 3);
                Ok(Some(Reply { code, message }))
            }
        } else {
            let terminator = line.len() >= 3 && line[0] == self.acc[0] && line[1] == self.acc[1]
                && line[2] == self.acc[2] && (line.len() <= 3 || line[3] != 45);
            append_bytes(&mut self.acc, line);
            if terminator {
                let a0 = self.acc[0];
                let a1 = self.acc[1];
                let a2 = self.acc[2];
                let code: u16 = (a0 - 48) as u16 * 100 + (a1 - 48) as u16 * 10 + (a2 - 48) as u16;
                let message = suffix_from(&self.acc, 3);
                self.in_multi = false;
                self.acc.clear();
                Ok(Some(Reply { code, message }))
            } else {
                Ok(None)
            }
        }
    }
}

} // verus!
