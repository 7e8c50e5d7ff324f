use vstd::prelude::*;

verus! {

use vstd::string::StrSliceExecFns;
use vstd::string::StringExecFns;
use crate::text::{find_char, first_index_of, lemma_first_index_of};

/// A segment with one trailing carriage return removed; applied only to
/// segments that ended at a newline, so that `\r\n` counts as one line
/// ending while a bare final `\r` stays part of its line.
pub open spec fn strip_cr(line: Seq<char>) -> Seq<char> {
    if line.len() > 0 && line.last() == '\r' {
        line.drop_last()
    } else {
        line
    }
}

/// The lines of `s`: pieces between `\n` characters, a `\r` immediately
/// before a `\n` belonging to the line ending, a final line ending being
/// optional.  A `\r` not followed by a `\n` stays part of its line, and
/// the empty text has no lines at all.
pub open spec fn split_lines(s: Seq<char>) -> Seq<Seq<char>>
    decreases s.len(),
    via split_lines_decreases
{
    if s.len() == 0 {
        Seq::empty()
    } else {
        let i = first_index_of(s, '\n') as int;
        if i == s.len() {
            seq![s]
        } else {
            seq![strip_cr(s.take(i))] + split_lines(s.skip(i + 1))
        }
    }
}

#[via_fn]
proof fn split_lines_decreases(s: Seq<char>) {
    lemma_first_index_of(s, '\n');
}

/// One `data:` line per input line, each terminated by a newline.
pub open spec fn data_block(lines: Seq<Seq<char>>) -> Seq<char>
    decreases lines.len(),
{
    if lines.len() == 0 {
        Seq::empty()
    } else {
        "data: "@ + lines[0] + "\n"@ + data_block(lines.skip(1))
    }
}

/// `data_block` distributes over concatenation.
pub proof fn lemma_data_block_concat(a: Seq<Seq<char>>, b: Seq<Seq<char>>)
    ensures
        data_block(a + b) == data_block(a) + data_block(b),
    decreases a.len(),
{
    if a.len() == 0 {
        assert(a + b =~= b);
        assert(data_block(a) + data_block(b) =~= data_block(b));
    } else {
        lemma_data_block_concat(a.skip(1), b);
        assert((a + b).skip(1) =~= a.skip(1) + b);
        assert((a + b)[0] == a[0]);
        assert(data_block(a + b) =~= data_block(a) + data_block(b));
    }
}

/// The full wire text of one event frame: an `event:` line, the data lines
/// (a single empty `data:` line for an empty payload), and a blank line.
pub open spec fn sse_event_text(event: Seq<char>, data: Seq<char>) -> Seq<char> {
    "event: "@ + event + "\n"@ + (if data.len() == 0 {
        "data:\n"@
    } else {
        data_block(split_lines(data))
    }) + "\n"@
}

/// The characters of `s` between `from` and `to`, with a trailing carriage
/// return removed.
fn strip_cr_exec(s: &str, from: usize, to: usize) -> (r: String)
    requires
        from <= to <= s@.len(),
    ensures
        r@ == strip_cr(s@.subrange(from as int, to as int)),
{
    let ghost piece = s@.subrange(from as int, to as int);
    if to > from && s.get_char(to - 1) == '\r' {
        let sub = s.substring_char(from, to - 1);
        proof {
            assert(piece.last() == s@[to - 1]);
            assert(sub@ =~= piece.drop_last());
        }
        String::from_str(sub)
    } else {
        let sub = s.substring_char(from, to);
        proof {
            if piece.len() > 0 {
                assert(piece.last() == s@[to - 1]);
            }
        }
        String::from_str(sub)
    }
}

/// The lines of `s`, as `split_lines` describes them.
pub fn split_lines_exec(s: &str) -> (lines: Vec<String>)
    ensures
        lines@.map_values(|l: String| l@) == split_lines(s@),
    decreases s@.len(),
{
    let len = s.unicode_len();
    if len == 0 {
        let r: Vec<String> = Vec::new();
        proof {
            assert(r@.map_values(|l: String| l@) =~= split_lines(s@));
        }
        return r;
    }
    let i = find_char(s, '\n');
    proof {
        lemma_first_index_of(s@, '\n');
    }
    if i == len {
        let line = String::from_str(s);
        let mut r: Vec<String> = Vec::new();
        r.push(line);
        proof {
            assert(r@.map_values(|l: String| l@) =~= split_lines(s@));
        }
        r
    } else {
        let head = strip_cr_exec(s, 0, i);
        let rest = s.substring_char(i + 1, len);
        proof {
            assert(rest@ =~= s@.skip(i + 1));
            assert(s@.subrange(0, i as int) =~= s@.take(i as int));
        }
        let mut r = split_lines_exec(rest);
        r.insert(0, head);
        proof {
            assert(r@.map_values(|l: String| l@) =~= seq![strip_cr(s@.take(i as int))]
                + split_lines(s@.skip(i + 1)));
        }
        r
    }
}

/// Formats one event frame: the `event:` line carries `event`, each line of
/// `data` becomes a `data:` line (an empty payload still emits one empty
/// `data:` line), and a blank line terminates the frame.
pub fn sse_format_event(event: &str, data: &str) -> (out: String)
    ensures
        out@ == sse_event_text(event@, data@),
{
    let mut out = String::new();
    out.append("event: ");
    out.append(event);
    out.append("\n");
    if data.is_empty() {
        out.append("data:\n");
    } else {
        let lines = split_lines_exec(data);
        let ghost lseq = lines@.map_values(|l: String| l@);
        let ghost head = "event: "@ + event@ + "\n"@;
        proof {
            assert(lseq.take(0) =~= Seq::<Seq<char>>::empty());
        }
        let mut k: usize = 0;
        while k < lines.len()
            invariant
                k <= lines.len(),
                lseq == lines@.map_values(|l: String| l@),
                lseq == split_lines(data@),
                out@ == head + data_block(lseq.take(k as int)),
            decreases lines.len() - k,
        {
            out.append("data: ");
            out.append(lines[k].as_str());
            out.append("\n");
            proof {
                let ghost lk = lseq[k as int];
                assert(lseq.take(k as int + 1) =~= lseq.take(k as int) + seq![lk]);
                lemma_data_block_concat(lseq.take(k as int), seq![lk]);
                assert(seq![lk].skip(1) =~= Seq::<Seq<char>>::empty());
                assert(data_block(Seq::<Seq<char>>::empty()) =~= Seq::<char>::empty());
                assert(data_block(seq![lk]) =~= "data: "@ + lk + "\n"@);
                assert(out@ =~= head + data_block(lseq.take(k as int + 1)));
            }
            k += 1;
        }
        proof {
            assert(lseq.take(lines@.len() as int) =~= lseq);
        }
    }
    out.append("\n");
    proof {
        assert(out@ =~= sse_event_text(event@, data@));
    }
    out
}

/// Formats a `message` event frame carrying `data`.
pub fn sse_format_message_event(data: &str) -> (out: String)
    ensures
        out@ == sse_event_text("message"@, data@),
{
    sse_format_event("message", data)
}

} // verus!
