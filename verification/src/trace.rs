//! The diagnostic trace of uploads: a text that only grows, one block for
//! each upload, until it is cleared.

use crate::text::{concat2, decimal, push_decimal, push_str, texts, to_chars, to_text};
use vstd::prelude::*;

verus! {

/// The given lines, each closed by a line feed.
pub open spec fn block_lines(lines: Seq<Seq<char>>) -> Seq<char>
    decreases lines.len(),
{
    if lines.len() == 0 {
        Seq::empty()
    } else {
        block_lines(lines.drop_last()) + lines.last() + "\n"@
    }
}

/// The block of one upload: a heading with the time in seconds since the
/// epoch, the lines, and an empty line.
pub open spec fn block_text(unix_seconds: nat, lines: Seq<Seq<char>>) -> Seq<char> {
    "=== upload "@ + decimal(unix_seconds) + " ===\n"@ + block_lines(lines) + "\n"@
}

/// The block that records the given lines for an upload at `unix_seconds`.
pub fn trace_block(unix_seconds: u64, lines: &Vec<String>) -> (r: String)
    ensures
        r@ == block_text(unix_seconds as nat, texts(lines@)),
{
    let ghost all = texts(lines@);
    let mut out = to_chars("=== upload ");
    push_decimal(&mut out, unix_seconds);
    push_str(&mut out, " ===\n");
    let ghost head = out@;
    let mut i: usize = 0;
    assert(all.subrange(0, 0) =~= Seq::<Seq<char>>::empty());
    assert(head + Seq::<char>::empty() =~= head);
    while i < lines.len()
        invariant
            i <= lines.len(),
            all == texts(lines@),
            out@ == head + block_lines(all.subrange(0, i as int)),
        decreases lines.len() - i,
    {
        let ghost before = all.subrange(0, i as int);
        let ghost after = all.subrange(0, i + 1);
        assert(after.drop_last() =~= before);
        assert(after.last() == lines@[i as int]@);
        push_str(&mut out, lines[i].as_str());
        push_str(&mut out, "\n");
        assert(out@ =~= head + block_lines(after));
        i += 1;
    }
    assert(all.subrange(0, lines.len() as int) =~= all);
    push_str(&mut out, "\n");
    assert(out@ =~= head + block_lines(all) + "\n"@);
    to_text(&out)
}

/// A trace that is held in memory.
#[derive(Clone, Debug, PartialEq)]
pub struct TraceLog {
    pub content: String,
}

impl View for TraceLog {
    type V = Seq<char>;

    open spec fn view(&self) -> Seq<char> {
        self.content@
    }
}

impl TraceLog {
    /// A trace that nothing was written to.
    pub fn new() -> (r: TraceLog)
        ensures
            r@ == Seq::<char>::empty(),
    {
        TraceLog { content: String::new() }
    }

    /// Adds the block of one upload at the end.
    pub fn append(&mut self, unix_seconds: u64, lines: &Vec<String>)
        ensures
            final(self)@ == old(self)@ + block_text(unix_seconds as nat, texts(lines@)),
    {
        let block = trace_block(unix_seconds, lines);
        self.content = concat2(self.content.as_str(), block.as_str());
    }

    /// All that was written since the trace was made or last cleared.
    pub fn read(&self) -> (r: String)
        ensures
            r@ == self@,
    {
        self.content.clone()
    }

    /// Empties the trace.
    pub fn clear(&mut self)
        ensures
            final(self)@ == Seq::<char>::empty(),
    {
        self.content = String::new();
    }
}

/// Appending never changes what the trace held: the old text is the start
/// of the new one, and the block follows it.
pub proof fn lemma_append_only(before: Seq<char>, unix_seconds: nat, lines: Seq<Seq<char>>)
    ensures
        (before + block_text(unix_seconds, lines)).subrange(0, before.len() as int) == before,
        (before + block_text(unix_seconds, lines)).subrange(
            before.len() as int,
            (before + block_text(unix_seconds, lines)).len() as int,
        ) == block_text(unix_seconds, lines),
{
    let after = before + block_text(unix_seconds, lines);
    assert(after.subrange(0, before.len() as int) =~= before);
    assert(after.subrange(before.len() as int, after.len() as int) =~= block_text(
        unix_seconds,
        lines,
    ));
}

} // verus!
