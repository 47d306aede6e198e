//! Extraction of the entries of an ELF `.comment` section.
//!
//! The section's data is a row of NUL-delimited entries, usually one per
//! tool that produced the binary. Splitting at the NUL bytes and dropping
//! the empty pieces yields the entries in the order they occur; reading the
//! binary and locating the section are left to the surrounding plumbing,
//! which hands the raw section bytes in and receives the entries back.

use vstd::prelude::*;

verus! {

/// A left-to-right scan of `s`: the NUL-delimited non-empty pieces already
/// closed off, and the partial piece still open at the end.
pub open spec fn scan_comments(s: Seq<u8>) -> (Seq<Seq<u8>>, Seq<u8>)
    decreases s.len(),
{
    if s.len() == 0 {
        (Seq::empty(), Seq::empty())
    } else {
        let prior = scan_comments(s.drop_last());
        if s.last() == 0 {
            (
                if prior.1.len() > 0 {
                    prior.0.push(prior.1)
                } else {
                    prior.0
                },
                Seq::empty(),
            )
        } else {
            (prior.0, prior.1.push(s.last()))
        }
    }
}

/// The non-empty NUL-delimited pieces of `s`, in order: the scan's closed
/// pieces, plus the piece still open at the end if there is one.
pub open spec fn comment_list(s: Seq<u8>) -> Seq<Seq<u8>> {
    let full = scan_comments(s);
    if full.1.len() > 0 {
        full.0.push(full.1)
    } else {
        full.0
    }
}

/// Split a `.comment` section's bytes into its entries: the non-empty
/// NUL-delimited pieces, in the order they occur in the section.
pub fn comment_blocks(data: &[u8]) -> (out: Vec<Vec<u8>>)
    ensures
        out.deep_view() == comment_list(data@),
{
    let mut out: Vec<Vec<u8>> = Vec::new();
    let mut cur: Vec<u8> = Vec::new();
    let mut i: usize = 0;
    while i < data.len()
        invariant
            i <= data@.len(),
            out.deep_view() == scan_comments(data@.subrange(0, i as int)).0,
            cur@ == scan_comments(data@.subrange(0, i as int)).1,
        decreases data@.len() - i,
    {
        let ghost prefix = data@.subrange(0, i as int);
        let ghost old_out = out.deep_view();
        let ghost old_cur = cur@;
        let b = data[i];
        proof {
            assert(data@.subrange(0, i + 1).drop_last() =~= prefix);
            assert(data@.subrange(0, i + 1).last() == data@[i as int]);
        }
        if b == 0 {
            if cur.len() > 0 {
                out.push(cur);
                cur = Vec::new();
                proof {
                    assert(out.deep_view() =~~= old_out.push(old_cur));
                }
            }
        } else {
            cur.push(b);
        }
        i = i + 1;
    }
    proof {
        assert(data@.subrange(0, data@.len() as int) =~= data@);
    }
    if cur.len() > 0 {
        let ghost old_out = out.deep_view();
        let ghost old_cur = cur@;
        out.push(cur);
        proof {
            assert(out.deep_view() =~~= old_out.push(old_cur));
        }
    }
    out
}

} // verus!
