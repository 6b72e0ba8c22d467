//! Data-channel transfer planning and payload framing.
//!
//! A transfer either proceeds — one preliminary reply before the data moves,
//! one completion reply after — or is refused with a single reply. Payloads
//! sent by the server are framed with a single NUL completion sentinel before
//! the data socket shuts down.

use vstd::prelude::*;

use crate::status_codes::StatusCode;

verus! {

/// What a data-bearing command decided to do.
#[derive(Debug, Clone, PartialEq)]
pub enum TransferPlan {
    /// The transfer does not start; send this single reply.
    Refused(StatusCode),
    /// The transfer starts: send `preliminary`, move the data, then send
    /// `completion`.
    Proceed { preliminary: StatusCode, completion: StatusCode },
}

/// The byte the server sends on the data channel to mark the end of a
/// payload, just before shutting the data socket down.
pub const COMPLETION_SENTINEL: u8 = 0;

/// The concatenation of a sequence of lines.
pub open spec fn spec_concat_lines(ls: Seq<Seq<u8>>) -> Seq<u8>
    decreases ls.len(),
{
    if ls.len() == 0 {
        Seq::empty()
    } else {
        ls[0] + spec_concat_lines(ls.drop_first())
    }
}

/// Concatenation distributes over appending one more line at the end.
pub proof fn lemma_concat_lines_push(ls: Seq<Seq<u8>>, x: Seq<u8>)
    ensures
        spec_concat_lines(ls.push(x)) == spec_concat_lines(ls) + x,
    decreases ls.len(),
{
    if ls.len() == 0 {
        reveal_with_fuel(spec_concat_lines, 2);
        assert(ls.push(x)[0] == x);
        assert(ls.push(x).drop_first() =~= Seq::<Seq<u8>>::empty());
        assert(spec_concat_lines(ls.push(x).drop_first()) == Seq::<u8>::empty());
        assert(spec_concat_lines(ls.push(x)) =~= spec_concat_lines(ls) + x);
    } else {
        lemma_concat_lines_push(ls.drop_first(), x);
        assert(ls.push(x).drop_first() =~= ls.drop_first().push(x));
        assert(ls.push(x)[0] == ls[0]);
        assert(ls[0] + (spec_concat_lines(ls.drop_first()) + x) =~= (ls[0] + spec_concat_lines(
            ls.drop_first(),
        )) + x);
    }
}

/// The views of a vector of byte lines.
pub open spec fn line_views(ls: Seq<Vec<u8>>) -> Seq<Seq<u8>> {
    ls.map_values(|l: Vec<u8>| l@)
}

/// Frames a directory listing for the data channel: the lines back to back,
/// closed by the completion sentinel. An empty listing yields the sentinel
/// alone.
pub fn listing_payload(lines: &Vec<Vec<u8>>) -> (r: Vec<u8>)
    ensures
        r@ == spec_concat_lines(line_views(lines@)).push(COMPLETION_SENTINEL),
{
    let mut out: Vec<u8> = Vec::new();
    proof {
        assert(line_views(lines@.take(0)) =~= Seq::<Seq<u8>>::empty());
    }
    let mut i: usize = 0;
    while i < lines.len()
        invariant
            i <= lines.len(),
            out@ == spec_concat_lines(line_views(lines@.take(i as int))),
        decreases lines.len() - i,
    {
        let line_len = lines[i].len();
        let mut j: usize = 0;
        while j < line_len
            invariant
                j <= line_len,
                i < lines@.len(),
                line_len == lines@[i as int]@.len(),
                out@ == spec_concat_lines(line_views(lines@.take(i as int))) + lines@[i as int]@.take(j as int),
            decreases line_len - j,
        {
            out.push(lines[i][j]);
            proof {
                assert(lines@[i as int]@.take(j + 1) =~= lines@[i as int]@.take(j as int).push(
                    lines@[i as int]@[j as int],
                ));
            }
            j = j + 1;
        }
        proof {
            assert(lines@[i as int]@.take(lines@[i as int]@.len() as int) =~= lines@[i as int]@);
            assert(line_views(lines@.take(i + 1)) =~= line_views(lines@.take(i as int)).push(
                lines@[i as int]@,
            ));
            lemma_concat_lines_push(line_views(lines@.take(i as int)), lines@[i as int]@);
        }
        i = i + 1;
    }
    proof {
        assert(lines@.take(lines@.len() as int) =~= lines@);
    }
    out.push(COMPLETION_SENTINEL);
    out
}

/// Frames a file's contents for the data channel: the bytes as read, closed
/// by the completion sentinel.
pub fn retr_payload(content: &Vec<u8>) -> (r: Vec<u8>)
    ensures
        r@ == content@.push(COMPLETION_SENTINEL),
{
    let mut out: Vec<u8> = Vec::new();
    let mut i: usize = 0;
    while i < content.len()
        invariant
            i <= content.len(),
            out@ == content@.take(i as int),
        decreases content.len() - i,
    {
        out.push(content[i]);
        proof {
            assert(content@.take(i + 1) =~= content@.take(i as int).push(content@[i as int]));
        }
        i = i + 1;
    }
    proof {
        assert(content@.take(content@.len() as int) =~= content@);
    }
    out.push(COMPLETION_SENTINEL);
    out
}

} // verus!
