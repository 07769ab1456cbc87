//! Splitting of listing payloads.
//!
//! A directory listing arrives over the data connection as newline-delimited
//! text. This module turns those raw bytes into one entry per line: lines
//! end at `'\n'`, a `'\r'` just before the newline belongs to the
//! terminator, and a final fragment without a newline still counts as an
//! entry.

use vstd::prelude::*;

verus! {

/// Drops the carriage return that ends a line, if one does.
pub open spec fn strip_cr(l: Seq<u8>) -> Seq<u8> {
    if l.len() > 0 && l.last() == 13 {
        l.drop_last()
    } else {
        l
    }
}

/// One step of the splitter: `done` holds the completed entries, `cur` the
/// bytes of the entry being read, and `b` the next byte.
pub open spec fn line_step(done: Seq<Seq<u8>>, cur: Seq<u8>, b: u8) -> (Seq<Seq<u8>>, Seq<u8>) {
    if b == 10 {
        (done.push(strip_cr(cur)), Seq::empty())
    } else {
        (done, cur.push(b))
    }
}

/// Splits `s` byte by byte from the state `(done, cur)`.
pub open spec fn lines_from(done: Seq<Seq<u8>>, cur: Seq<u8>, s: Seq<u8>) -> (
    Seq<Seq<u8>>,
    Seq<u8>,
)
    decreases s.len(),
{
    if s.len() == 0 {
        (done, cur)
    } else {
        let st = line_step(done, cur, s[0]);
        lines_from(st.0, st.1, s.skip(1))
    }
}

/// The entries of a newline-delimited payload, in order; a trailing
/// fragment without a newline is the last entry.
pub open spec fn split_lines_spec(s: Seq<u8>) -> Seq<Seq<u8>> {
    let st = lines_from(Seq::empty(), Seq::empty(), s);
    if st.1.len() == 0 {
        st.0
    } else {
        st.0.push(st.1)
    }
}

/// Splitting a concatenation splits the two parts in turn.
pub proof fn lemma_lines_concat(done: Seq<Seq<u8>>, cur: Seq<u8>, s: Seq<u8>, t: Seq<u8>)
    ensures
        lines_from(done, cur, s + t) == ({
            let st = lines_from(done, cur, s);
            lines_from(st.0, st.1, t)
        }),
    decreases s.len(),
{
    if s.len() == 0 {
        assert(s + t =~= t);
    } else {
        let st = line_step(done, cur, s[0]);
        assert((s + t)[0] == s[0]);
        assert((s + t).skip(1) =~= s.skip(1) + t);
        lemma_lines_concat(st.0, st.1, s.skip(1), t);
    }
}

/// Splits listing bytes into entries, one vector per line.
pub fn split_lines(data: &Vec<u8>) -> (r: Vec<Vec<u8>>)
    ensures
        r@.len() == split_lines_spec(data@).len(),
        forall|i: int| 0 <= i < r@.len() ==> r@[i]@ == split_lines_spec(data@)[i],
{
    let ghost edone: Seq<Seq<u8>> = Seq::empty();
    let ghost ecur: Seq<u8> = Seq::empty();
    let mut done: Vec<Vec<u8>> = Vec::new();
    let mut cur: Vec<u8> = Vec::new();
    let mut i: usize = 0;
    while i < data.len()
        invariant
            i <= data.len(),
            ({
                let st = lines_from(edone, ecur, data@.take(i as int));
                &&& done@.len() == st.0.len()
                &&& forall|j: int| 0 <= j < done@.len() ==> done@[j]@ == st.0[j]
                &&& cur@ == st.1
            }),
        decreases data.len() - i,
    {
        let b = data[i];
        proof {
            reveal_with_fuel(lines_from, 3);
            assert(data@.take(i + 1) =~= data@.take(i as int) + seq![b]);
            lemma_lines_concat(edone, ecur, data@.take(i as int), seq![b]);
            assert(seq![b].skip(1) =~= Seq::<u8>::empty());
        }
        if b == 10 {
            if cur.len() > 0 && cur[cur.len() - 1] == 13 {
                let _ = cur.pop();
                proof {
                    assert(cur@ =~= strip_cr(lines_from(edone, ecur, data@.take(i as int)).1));
                }
            }
            done.push(cur);
            cur = Vec::new();
        } else {
            cur.push(b);
        }
        i = i + 1;
    }
    proof {
        assert(data@.take(data@.len() as int) =~= data@);
    }
    if cur.len() > 0 {
        done.push(cur);
    }
    done
}

} // verus!
