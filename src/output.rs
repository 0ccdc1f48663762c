//! Output captured from a command run inside a container.

use vstd::prelude::*;
use vstd::string::*;

verus! {

/// The stream a piece of output came from.
#[derive(Clone, Copy, Debug, PartialEq, Eq, Structural)]
pub enum OutputStream {
    StdErr,
    StdOut,
    StdIn,
    Console,
}

/// A piece of output, already decoded as text.
#[derive(Clone, Debug)]
pub struct OutputChunk {
    pub stream: OutputStream,
    pub text: String,
}

/// Whether a stream's output is kept: standard output and standard error are.
pub open spec fn is_captured(stream: OutputStream) -> bool {
    stream == OutputStream::StdOut || stream == OutputStream::StdErr
}

/// The captured text of `chunks`: the standard output and standard error
/// pieces, in the order they came, joined.
pub open spec fn captured_text(chunks: Seq<OutputChunk>) -> Seq<char>
    decreases chunks.len(),
{
    if chunks.len() == 0 {
        Seq::empty()
    } else {
        let rest = captured_text(chunks.drop_last());
        if is_captured(chunks.last().stream) {
            rest + chunks.last().text@
        } else {
            rest
        }
    }
}

/// Joins the standard output and standard error pieces of `chunks`, in order;
/// the other streams are left out.
pub fn capture_output(chunks: &Vec<OutputChunk>) -> (r: String)
    ensures
        r@ == captured_text(chunks@),
{
    let mut out = String::new();
    let mut i: usize = 0;
    while i < chunks.len()
        invariant
            i <= chunks@.len(),
            out@ == captured_text(chunks@.subrange(0, i as int)),
        decreases chunks@.len() - i,
    {
        let chunk = &chunks[i];
        assert(chunks@.subrange(0, i + 1).drop_last() == chunks@.subrange(0, i as int));
        assert(chunks@.subrange(0, i + 1).last() == *chunk);
        match chunk.stream {
            OutputStream::StdOut | OutputStream::StdErr => {
                out.append(chunk.text.as_str());
            },
            _ => {},
        }
        i = i + 1;
    }
    assert(chunks@.subrange(0, chunks@.len() as int) == chunks@);
    out
}

} // verus!
