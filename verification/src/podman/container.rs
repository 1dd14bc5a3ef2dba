use crate::text::join3;
use vstd::prelude::*;
use vstd::utf8::{decode_utf8, valid_utf8};

verus! {

/// Result from executing a command in a container.
#[derive(Debug, PartialEq, Eq)]
pub struct ExecResult {
    pub exit_code: Option<i64>,
    pub stdout: String,
    pub stderr: String,
}

/// The mathematical counterpart of [`ExecResult`].
pub struct ExecResultView {
    pub exit_code: Option<i64>,
    pub stdout: Seq<char>,
    pub stderr: Seq<char>,
}

impl View for ExecResult {
    type V = ExecResultView;

    open spec fn view(&self) -> ExecResultView {
        ExecResultView { exit_code: self.exit_code, stdout: self.stdout@, stderr: self.stderr@ }
    }
}

impl Clone for ExecResult {
    fn clone(&self) -> (r: Self)
        ensures
            r@ == self@,
    {
        ExecResult {
            exit_code: self.exit_code,
            stdout: self.stdout.clone(),
            stderr: self.stderr.clone(),
        }
    }
}

/// The seconds a container gets to stop when none are given.
pub open spec fn default_stop_timeout() -> i64 {
    10
}

/// The seconds a container gets to stop.
pub fn stop_timeout(timeout: Option<i64>) -> (seconds: i64)
    ensures
        seconds == match timeout {
            Some(t) => t,
            None => default_stop_timeout(),
        },
{
    match timeout {
        Some(t) => t,
        None => 10,
    }
}

/// Variables as the lines `NAME=value` that a container is given.
pub open spec fn spec_env_lines(pairs: Seq<(String, String)>) -> Seq<Seq<char>> {
    pairs.map_values(|p: (String, String)| p.0@ + "="@ + p.1@)
}

/// Writes each variable as `NAME=value`, in the order given.
pub fn env_lines(pairs: &Vec<(String, String)>) -> (lines: Vec<String>)
    ensures
        lines@.map_values(|line: String| line@) == spec_env_lines(pairs@),
{
    let mut lines: Vec<String> = Vec::new();
    let mut i: usize = 0;
    while i < pairs.len()
        invariant
            i <= pairs@.len(),
            lines@.len() == i,
            forall|k: int|
                0 <= k < i ==> (#[trigger] lines@[k])@ == pairs@[k].0@ + "="@ + pairs@[k].1@,
        decreases pairs@.len() - i,
    {
        lines.push(join3(pairs[i].0.as_str(), "=", pairs[i].1.as_str()));
        i += 1;
    }
    assert(lines@.map_values(|line: String| line@) =~= spec_env_lines(pairs@));
    lines
}

/// One piece of what a command or a log hands out.
#[derive(Debug, Clone, PartialEq, Eq)]
pub enum OutputChunk {
    StdOut(Vec<u8>),
    StdErr(Vec<u8>),
    /// A piece that belongs to neither stream.
    Other,
    /// Reading the output failed here.
    Failed,
}

/// The bytes that one chunk adds to each stream.
pub open spec fn chunk_bytes(chunk: OutputChunk) -> (Seq<u8>, Seq<u8>) {
    match chunk {
        OutputChunk::StdOut(bytes) => (bytes@, Seq::empty()),
        OutputChunk::StdErr(bytes) => (Seq::empty(), bytes@),
        _ => (Seq::empty(), Seq::empty()),
    }
}

/// What a run of chunks adds up to: the bytes of each stream, in order, up
/// to the first chunk that failed.
pub open spec fn spec_collect(chunks: Seq<OutputChunk>) -> (Seq<u8>, Seq<u8>)
    decreases chunks.len(),
{
    if chunks.len() == 0 || chunks[0] is Failed {
        (Seq::empty(), Seq::empty())
    } else {
        let rest = spec_collect(chunks.skip(1));
        (chunk_bytes(chunks[0]).0 + rest.0, chunk_bytes(chunks[0]).1 + rest.1)
    }
}

/// The output gathered so far, stream by stream.
pub struct OutputBuffer {
    pub stdout: Vec<u8>,
    pub stderr: Vec<u8>,
}

impl OutputBuffer {
    /// An empty buffer.
    pub fn new() -> (buffer: Self)
        ensures
            buffer.stdout@ == Seq::<u8>::empty(),
            buffer.stderr@ == Seq::<u8>::empty(),
    {
        OutputBuffer { stdout: Vec::new(), stderr: Vec::new() }
    }

    /// Takes one chunk in. The answer is whether reading goes on: it ends
    /// at the first chunk that failed, and what was gathered stays.
    pub fn accept(&mut self, chunk: &OutputChunk) -> (goes_on: bool)
        ensures
            goes_on == !(chunk is Failed),
            final(self).stdout@ == old(self).stdout@ + chunk_bytes(*chunk).0,
            final(self).stderr@ == old(self).stderr@ + chunk_bytes(*chunk).1,
    {
        assert(self.stdout@ + Seq::<u8>::empty() =~= self.stdout@);
        assert(self.stderr@ + Seq::<u8>::empty() =~= self.stderr@);
        match chunk {
            OutputChunk::StdOut(bytes) => {
                self.stdout.extend_from_slice(bytes.as_slice());
                true
            },
            OutputChunk::StdErr(bytes) => {
                self.stderr.extend_from_slice(bytes.as_slice());
                true
            },
            OutputChunk::Other => true,
            OutputChunk::Failed => false,
        }
    }
}

/// Gathers the output of a run of chunks.
pub fn collect_output(chunks: &Vec<OutputChunk>) -> (out: (Vec<u8>, Vec<u8>))
    ensures
        (out.0@, out.1@) == spec_collect(chunks@),
{
    let mut buffer = OutputBuffer::new();
    let mut i: usize = 0;
    assert(chunks@.skip(0) =~= chunks@);
    while i < chunks.len()
        invariant
            i <= chunks@.len(),
            spec_collect(chunks@) == (
                buffer.stdout@ + spec_collect(chunks@.skip(i as int)).0,
                buffer.stderr@ + spec_collect(chunks@.skip(i as int)).1,
            ),
        decreases chunks@.len() - i,
    {
        let ghost rest = chunks@.skip(i as int);
        let ghost so_far = (buffer.stdout@, buffer.stderr@);
        proof {
            assert(rest.skip(1) =~= chunks@.skip(i as int + 1));
            assert(rest[0] == chunks@[i as int]);
        }
        let goes_on = buffer.accept(&chunks[i]);
        if !goes_on {
            assert(buffer.stdout@ =~= so_far.0 + spec_collect(rest).0);
            assert(buffer.stderr@ =~= so_far.1 + spec_collect(rest).1);
            return (buffer.stdout, buffer.stderr);
        }
        proof {
            let tail = spec_collect(chunks@.skip(i as int + 1));
            assert(buffer.stdout@ + tail.0 =~= so_far.0 + spec_collect(rest).0);
            assert(buffer.stderr@ + tail.1 =~= so_far.1 + spec_collect(rest).1);
        }
        i += 1;
    }
    proof {
        assert(chunks@.skip(chunks@.len() as int) =~= Seq::<OutputChunk>::empty());
        assert(buffer.stdout@ + Seq::<u8>::empty() =~= buffer.stdout@);
        assert(buffer.stderr@ + Seq::<u8>::empty() =~= buffer.stderr@);
    }
    (buffer.stdout, buffer.stderr)
}

/// The text of bytes that are meant as UTF-8, with the replacement
/// character in place of what is no UTF-8.
pub uninterp spec fn lossy_text(bytes: Seq<u8>) -> Seq<char>;

/// Decodes bytes through `String::from_utf8_lossy`. The text depends on the
/// bytes alone, and for valid UTF-8 it is the text that the bytes encode.
#[verifier::external_body]
fn decode_lossy(bytes: &Vec<u8>) -> (text: String)
    ensures
        text@ == lossy_text(bytes@),
        valid_utf8(bytes@) ==> text@ == decode_utf8(bytes@),
{
    String::from_utf8_lossy(bytes).to_string()
}

impl ExecResult {
    /// The result of a command from its exit code and the bytes of its two
    /// streams.
    pub fn from_output(exit_code: Option<i64>, stdout: &Vec<u8>, stderr: &Vec<u8>) -> (r: Self)
        ensures
            r@ == (ExecResultView {
                exit_code,
                stdout: lossy_text(stdout@),
                stderr: lossy_text(stderr@),
            }),
            valid_utf8(stdout@) ==> r@.stdout == decode_utf8(stdout@),
            valid_utf8(stderr@) ==> r@.stderr == decode_utf8(stderr@),
    {
        ExecResult { exit_code, stdout: decode_lossy(stdout), stderr: decode_lossy(stderr) }
    }

    /// The result of a command from its exit code and the chunks it wrote.
    pub fn from_chunks(exit_code: Option<i64>, chunks: &Vec<OutputChunk>) -> (r: Self)
        ensures
            r@ == (ExecResultView {
                exit_code,
                stdout: lossy_text(spec_collect(chunks@).0),
                stderr: lossy_text(spec_collect(chunks@).1),
            }),
    {
        let (stdout, stderr) = collect_output(chunks);
        Self::from_output(exit_code, &stdout, &stderr)
    }
}

} // verus!
