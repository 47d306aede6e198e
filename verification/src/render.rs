//! Rendering of a snapshot result into the diagnostic byte text that is
//! shown to the caller and, on the fatal path, written to the durable sink.
//!
//! A successful snapshot renders as one block per task, in the order the
//! snapshot source enumerated them: a header naming the task's sequence
//! index in decimal, then the trace text, then a blank-line delimiter. A
//! failure renders as its failure text on a line of its own.

use vstd::prelude::*;
use vstd::string::StringSliceAdditionalSpecFns;
use crate::trace::{ResultModel, SnapshotResult, TaskTrace, TraceModel};

verus! {

/// Decimal digits of `n`, most significant first, as ASCII bytes.
pub open spec fn dec_bytes(n: nat) -> Seq<u8>
    decreases n,
{
    if n < 10 {
        seq![(48 + n) as u8]
    } else {
        dec_bytes(n / 10).push((48 + n % 10) as u8)
    }
}

/// The bytes that open each task block, before the decimal sequence index.
pub open spec fn block_header_bytes() -> Seq<u8> {
    "\nTokio Task ID ".spec_bytes()
}

/// The bytes between the sequence index and the trace text.
pub open spec fn block_colon_bytes() -> Seq<u8> {
    ":\n".spec_bytes()
}

/// The bytes that close each task block and leave a blank line before the
/// next one.
pub open spec fn block_tail_bytes() -> Seq<u8> {
    "\n\n\n".spec_bytes()
}

/// The rendered block for one task trace.
pub open spec fn block_bytes(t: TraceModel) -> Seq<u8> {
    block_header_bytes() + dec_bytes(t.sequence_index as nat) + block_colon_bytes()
        + vstd::utf8::encode_utf8(t.trace_text) + block_tail_bytes()
}

/// The rendered text of a successful snapshot: the blocks of all traces,
/// in sequence order.
pub open spec fn success_bytes(traces: Seq<TraceModel>) -> Seq<u8>
    decreases traces.len(),
{
    if traces.len() == 0 {
        Seq::empty()
    } else {
        success_bytes(traces.drop_last()) + block_bytes(traces.last())
    }
}

/// The rendered text of any snapshot result: the task blocks on success,
/// or the failure text followed by a newline.
pub open spec fn render_model(r: ResultModel) -> Seq<u8> {
    match r {
        ResultModel::Success(traces) => success_bytes(traces),
        ResultModel::Failure(text) => vstd::utf8::encode_utf8(text) + "\n".spec_bytes(),
    }
}

/// Append the bytes of a slice to an output buffer.
fn append_bytes(out: &mut Vec<u8>, piece: &[u8])
    ensures
        final(out)@ == old(out)@ + piece@,
{
    let ghost start = out@;
    let mut i: usize = 0;
    while i < piece.len()
        invariant
            i <= piece@.len(),
            out@ == start + piece@.subrange(0, i as int),
        decreases piece@.len() - i,
    {
        out.push(piece[i]);
        proof {
            assert(piece@.subrange(0, i + 1) =~= piece@.subrange(0, i as int).push(piece@[i as int]));
        }
        i = i + 1;
    }
    proof {
        assert(piece@.subrange(0, piece@.len() as int) =~= piece@);
    }
}

/// The digits still owed above `m` in a partially collected decimal
/// rendering: none once `m` has reached zero.
pub open spec fn dec_prefix(m: nat) -> Seq<u8> {
    if m == 0 {
        Seq::empty()
    } else {
        dec_bytes(m)
    }
}

/// Append the decimal rendering of `n` to an output buffer.
fn append_dec(out: &mut Vec<u8>, n: u64)
    ensures
        final(out)@ == old(out)@ + dec_bytes(n as nat),
{
    let ghost start = out@;
    let mut digits: Vec<u8> = Vec::new();
    let mut m: u64 = n;
    let d0: u8 = 48 + (m % 10) as u8;
    digits.push(d0);
    m = m / 10;
    proof {
        assert(digits@.drop_last() =~= Seq::<u8>::empty());
        assert(rev_bytes(Seq::<u8>::empty()) =~= Seq::<u8>::empty());
        assert(rev_bytes(digits@) =~= seq![d0]);
        if n >= 10 {
            assert(dec_bytes(n as nat) =~= dec_bytes((n as nat) / 10) + seq![d0]);
        }
        assert(dec_bytes(n as nat) =~= dec_prefix(m as nat) + rev_bytes(digits@));
    }
    while m > 0
        invariant
            dec_bytes(n as nat) == dec_prefix(m as nat) + rev_bytes(digits@),
        decreases m,
    {
        let ghost before = digits@;
        let d: u8 = 48 + (m % 10) as u8;
        digits.push(d);
        proof {
            assert(digits@.drop_last() =~= before);
            assert(rev_bytes(digits@) =~= seq![d] + rev_bytes(before));
            if m >= 10 {
                assert(dec_bytes(m as nat) =~= dec_bytes((m as nat) / 10) + seq![d]);
            }
            assert(dec_prefix(m as nat) + rev_bytes(before) =~= dec_prefix(
                ((m as nat) / 10),
            ) + rev_bytes(digits@));
        }
        m = m / 10;
    }
    while digits.len() > 0
        invariant
            out@ + rev_bytes(digits@) == start + dec_bytes(n as nat),
        decreases digits@.len(),
    {
        let ghost before = digits@;
        let d: u8 = digits.pop().unwrap();
        proof {
            assert(digits@ =~= before.drop_last());
            assert(rev_bytes(before) =~= seq![d] + rev_bytes(digits@));
        }
        out.push(d);
        proof {
            assert(out@ + rev_bytes(digits@) =~= start + dec_bytes(n as nat));
        }
    }
    proof {
        assert(out@ =~= start + dec_bytes(n as nat));
    }
}

/// The bytes of `s`, most recently pushed first.
pub open spec fn rev_bytes(s: Seq<u8>) -> Seq<u8>
    decreases s.len(),
{
    if s.len() == 0 {
        Seq::empty()
    } else {
        seq![s.last()] + rev_bytes(s.drop_last())
    }
}

/// Append one task's rendered block to an output buffer.
fn append_block(out: &mut Vec<u8>, t: &TaskTrace)
    ensures
        final(out)@ == old(out)@ + block_bytes(t@),
{
    let ghost start = out@;
    append_bytes(out, "\nTokio Task ID ".as_bytes());
    append_dec(out, t.sequence_index);
    append_bytes(out, ":\n".as_bytes());
    append_bytes(out, t.trace_text.as_str().as_bytes());
    append_bytes(out, "\n\n\n".as_bytes());
    proof {
        assert(out@ =~= start + block_bytes(t@));
    }
}

/// Render a snapshot result as diagnostic text.
///
/// On success the output is one block per trace, in the order of the input
/// sequence; on failure it is the failure text followed by a newline.
pub fn render_result(r: &SnapshotResult) -> (out: Vec<u8>)
    ensures
        out@ == render_model(r@),
{
    let mut out: Vec<u8> = Vec::new();
    match r {
        SnapshotResult::Success(traces) => {
            let ghost trace_models = Seq::new(traces@.len(), |i: int| traces@[i]@);
            let mut i: usize = 0;
            while i < traces.len()
                invariant
                    i <= traces@.len(),
                    trace_models == Seq::new(traces@.len(), |k: int| traces@[k]@),
                    out@ == success_bytes(trace_models.subrange(0, i as int)),
                decreases traces@.len() - i,
            {
                append_block(&mut out, &traces[i]);
                proof {
                    let prefix = trace_models.subrange(0, i + 1);
                    assert(prefix.drop_last() =~= trace_models.subrange(0, i as int));
                    assert(prefix.last() == traces@[i as int]@);
                }
                i = i + 1;
            }
            proof {
                assert(trace_models.subrange(0, trace_models.len() as int) =~= trace_models);
            }
        }
        SnapshotResult::Failure(text) => {
            append_bytes(&mut out, text.as_str().as_bytes());
            append_bytes(&mut out, "\n".as_bytes());
        }
    }
    out
}

} // verus!
