//! Console line buffering: the sandbox's serial device performs one write
//! and one flush per character, so the host aggregates the bytes and emits
//! one log record per completed line instead of one per character.

use crate::seqtools::{lemma_split_on_last_no_sep, lemma_split_on_no_sep, lemma_split_on_nonempty,
    split_on};
use vstd::prelude::*;

verus! {

/// The newline byte that terminates a console line.
pub const NEWLINE: u8 = 10;

/// Buffers raw console bytes until a newline completes a line.
pub struct LineBuffer {
    line_so_far: Vec<u8>,
}

impl LineBuffer {
    /// The bytes received since the last completed line.
    pub closed spec fn pending(&self) -> Seq<u8> {
        self.line_so_far@
    }

    /// A well-formed buffer never holds a newline: every newline seen so far
    /// has already completed a line.
    pub closed spec fn wf(&self) -> bool {
        !self.pending().contains(NEWLINE)
    }

    /// An empty buffer, as a run starts with.
    pub fn new() -> (r: LineBuffer)
        ensures
            r.wf(),
            r.pending() == Seq::<u8>::empty(),
    {
        LineBuffer { line_so_far: Vec::new() }
    }

    /// Feeds a chunk of console bytes and returns the lines it completed, in
    /// order and without their newline terminators; bytes after the last
    /// newline stay buffered for the next chunk.
    pub fn push_bytes(&mut self, buf: &Vec<u8>) -> (lines: Vec<Vec<u8>>)
        requires
            old(self).wf(),
        ensures
            final(self).wf(),
            lines.deep_view() == split_on(old(self).pending() + buf@, NEWLINE).drop_last(),
            final(self).pending() == split_on(old(self).pending() + buf@, NEWLINE).last(),
    {
        let ghost whole = old(self).pending() + buf@;
        let mut lines: Vec<Vec<u8>> = Vec::new();
        let mut cur: Vec<u8> = Vec::new();
        core::mem::swap(&mut self.line_so_far, &mut cur);
        let mut i: usize = 0;
        proof {
            lemma_split_on_no_sep(old(self).pending(), NEWLINE);
            assert(old(self).pending() + buf@.subrange(0, 0) =~= old(self).pending());
            assert(lines.deep_view().push(cur@) =~~= split_on(
                old(self).pending() + buf@.subrange(0, 0),
                NEWLINE,
            ));
        }
        while i < buf.len()
            invariant
                0 <= i <= buf@.len(),
                lines.deep_view().push(cur@) == split_on(
                    old(self).pending() + buf@.subrange(0, i as int),
                    NEWLINE,
                ),
            decreases buf@.len() - i,
        {
            let ghost prefix = old(self).pending() + buf@.subrange(0, i as int);
            let ghost next_prefix = old(self).pending() + buf@.subrange(0, i + 1);
            proof {
                assert(next_prefix.drop_last() =~= prefix);
                assert(next_prefix.last() == buf@[i as int]);
            }
            let b = buf[i];
            if b == NEWLINE {
                lines.push(cur);
                cur = Vec::new();
                proof {
                    assert(lines.deep_view().push(cur@) =~~= split_on(next_prefix, NEWLINE));
                }
            } else {
                cur.push(b);
                proof {
                    let prior = split_on(prefix, NEWLINE);
                    lemma_split_on_nonempty(prefix, NEWLINE);
                    assert(lines.deep_view().push(cur@) =~~= prior.drop_last().push(
                        prior.last().push(buf@[i as int]),
                    ));
                }
            }
            i = i + 1;
        }
        proof {
            assert(old(self).pending() + buf@.subrange(0, buf@.len() as int) =~= whole);
            lemma_split_on_nonempty(whole, NEWLINE);
            lemma_split_on_last_no_sep(whole, NEWLINE);
        }
        self.line_so_far = cur;
        proof {
            assert(lines.deep_view() =~~= split_on(whole, NEWLINE).drop_last());
        }
        lines
    }
}

} // verus!
