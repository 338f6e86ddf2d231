//! What a container wrote: the chunks of its multiplexed stream, and the
//! text of its two output channels.

use vstd::prelude::*;
use vstd::utf8::{decode_utf8, encode_utf8, valid_utf8};
use vstd::utf8::{encode_utf8_decode_utf8, encode_utf8_valid_utf8};
use crate::sandbox::error::{SandboxError, SandboxErrorView};

verus! {

/// One chunk of the stream of a container, with the channel it belongs to.
#[derive(Debug)]
pub enum Chunk {
    /// An echo of what was written to the container. It is no output.
    StdIn(Vec<u8>),
    StdOut(Vec<u8>),
    StdErr(Vec<u8>),
}

pub enum ChunkView {
    StdIn(Seq<u8>),
    StdOut(Seq<u8>),
    StdErr(Seq<u8>),
}

impl View for Chunk {
    type V = ChunkView;

    open spec fn view(&self) -> ChunkView {
        match *self {
            Chunk::StdIn(bytes) => ChunkView::StdIn(bytes@),
            Chunk::StdOut(bytes) => ChunkView::StdOut(bytes@),
            Chunk::StdErr(bytes) => ChunkView::StdErr(bytes@),
        }
    }
}

/// The output of one run, as text.
#[derive(Debug)]
pub struct RunOutput {
    pub stdout: String,
    pub stderr: String,
}

pub struct RunOutputView {
    pub stdout: Seq<char>,
    pub stderr: Seq<char>,
}

impl View for RunOutput {
    type V = RunOutputView;

    open spec fn view(&self) -> RunOutputView {
        RunOutputView { stdout: self.stdout@, stderr: self.stderr@ }
    }
}

/// The bytes that a chunk adds to standard output.
pub open spec fn stdout_part(chunk: ChunkView) -> Seq<u8> {
    match chunk {
        ChunkView::StdOut(bytes) => bytes,
        _ => Seq::empty(),
    }
}

/// The bytes that a chunk adds to standard error.
pub open spec fn stderr_part(chunk: ChunkView) -> Seq<u8> {
    match chunk {
        ChunkView::StdErr(bytes) => bytes,
        _ => Seq::empty(),
    }
}

/// All bytes written to standard output, in the order of the chunks.
pub open spec fn stdout_bytes(chunks: Seq<ChunkView>) -> Seq<u8>
    decreases chunks.len(),
{
    if chunks.len() == 0 {
        Seq::empty()
    } else {
        stdout_bytes(chunks.drop_last()) + stdout_part(chunks.last())
    }
}

/// All bytes written to standard error, in the order of the chunks.
pub open spec fn stderr_bytes(chunks: Seq<ChunkView>) -> Seq<u8>
    decreases chunks.len(),
{
    if chunks.len() == 0 {
        Seq::empty()
    } else {
        stderr_bytes(chunks.drop_last()) + stderr_part(chunks.last())
    }
}

/// The length of the longest beginning of the bytes that is valid UTF-8 and
/// no longer than `limit`.
pub open spec fn valid_prefix(bytes: Seq<u8>, limit: nat) -> nat
    decreases limit,
{
    if limit == 0 || (limit <= bytes.len() && valid_utf8(bytes.take(limit as int))) {
        limit
    } else {
        valid_prefix(bytes, (limit - 1) as nat)
    }
}

/// Where the bytes stop being valid UTF-8: the length of their longest
/// beginning that is valid.
pub open spec fn valid_up_to(bytes: Seq<u8>) -> nat {
    valid_prefix(bytes, bytes.len())
}

/// The output that a stream of chunks stands for: the text of each channel,
/// or the failure of the first channel, standard output before standard
/// error, whose bytes are no valid UTF-8, with the place where they stop
/// being valid.
pub open spec fn converted(chunks: Seq<ChunkView>) -> Result<RunOutputView, SandboxErrorView> {
    if !valid_utf8(stdout_bytes(chunks)) {
        Err(
            SandboxErrorView::InvalidBytesStdOut {
                valid_up_to: valid_up_to(stdout_bytes(chunks)),
            },
        )
    } else if !valid_utf8(stderr_bytes(chunks)) {
        Err(
            SandboxErrorView::InvalidBytesStdErr {
                valid_up_to: valid_up_to(stderr_bytes(chunks)),
            },
        )
    } else {
        Ok(
            RunOutputView {
                stdout: decode_utf8(stdout_bytes(chunks)),
                stderr: decode_utf8(stderr_bytes(chunks)),
            },
        )
    }
}

/// The view of a result of [`convert_chunks`].
pub open spec fn output_view(output: Result<RunOutput, SandboxError>) -> Result<
    RunOutputView,
    SandboxErrorView,
> {
    match output {
        Ok(out) => Ok(out@),
        Err(e) => Err(e@),
    }
}

/// Calls `String::from_utf8`, which returns the text that the bytes encode
/// where they are valid UTF-8, and an error where they are not. Of the error
/// only `Utf8Error::valid_up_to` is kept, which the standard library
/// documents as the greatest index up to which the bytes are valid.
#[verifier::external_body]
pub(crate) fn text_from_utf8(bytes: Vec<u8>) -> (text: Result<String, usize>)
    ensures
        text is Ok <==> valid_utf8(bytes@),
        text matches Ok(t) ==> t@ == decode_utf8(bytes@),
        text matches Err(place) ==> place == valid_up_to(bytes@),
{
    String::from_utf8(bytes).map_err(|error| error.utf8_error().valid_up_to())
}

fn append_bytes(buffer: &mut Vec<u8>, bytes: &Vec<u8>)
    ensures
        final(buffer)@ == old(buffer)@ + bytes@,
{
    let mut i: usize = 0;
    while i < bytes.len()
        invariant
            i <= bytes.len(),
            buffer@ == old(buffer)@ + bytes@.take(i as int),
        decreases bytes.len() - i,
    {
        buffer.push(bytes[i]);
        assert(bytes@.take(i + 1) == bytes@.take(i as int).push(bytes@[i as int]));
        i += 1;
    }
    assert(bytes@.take(bytes.len() as int) == bytes@);
}

/// Sorts the chunks of a stream into standard output and standard error and
/// reads each as text. Echoes of the input are dropped. Bytes that are no
/// valid UTF-8 are an error, never replaced or cut.
pub fn convert_chunks(chunks: &Vec<Chunk>) -> (output: Result<RunOutput, SandboxError>)
    ensures
        output_view(output) == converted(crate::text::views(chunks@)),
{
    let mut stdout: Vec<u8> = Vec::new();
    let mut stderr: Vec<u8> = Vec::new();
    let ghost all = crate::text::views(chunks@);
    let mut i: usize = 0;
    while i < chunks.len()
        invariant
            i <= chunks.len(),
            all == crate::text::views(chunks@),
            stdout@ == stdout_bytes(all.take(i as int)),
            stderr@ == stderr_bytes(all.take(i as int)),
        decreases chunks.len() - i,
    {
        proof {
            assert(all.take(i + 1).drop_last() == all.take(i as int));
            assert(all.take(i + 1).last() == chunks@[i as int]@);
        }
        match &chunks[i] {
            Chunk::StdIn(_) => {},
            Chunk::StdOut(bytes) => {
                append_bytes(&mut stdout, bytes);
            },
            Chunk::StdErr(bytes) => {
                append_bytes(&mut stderr, bytes);
            },
        }
        i += 1;
    }
    assert(all.take(chunks.len() as int) == all);
    let stdout = match text_from_utf8(stdout) {
        Ok(text) => text,
        Err(valid_up_to) => {
            return Err(SandboxError::InvalidBytesStdOut { valid_up_to });
        },
    };
    let stderr = match text_from_utf8(stderr) {
        Ok(text) => text,
        Err(valid_up_to) => {
            return Err(SandboxError::InvalidBytesStdErr { valid_up_to });
        },
    };
    Ok(RunOutput { stdout, stderr })
}

/// A stream that holds one chunk of standard output with the encoding of a
/// text, and besides it only echoes of the input, converts to that very
/// text on standard output and to nothing on standard error.
pub proof fn lemma_echo_round_trip(text: Seq<char>, echoes: Seq<ChunkView>)
    requires
        forall|i: int| 0 <= i < echoes.len() ==> echoes[i] is StdIn,
    ensures
        converted(echoes.push(ChunkView::StdOut(encode_utf8(text)))) == Ok::<
            RunOutputView,
            SandboxErrorView,
        >(RunOutputView { stdout: text, stderr: Seq::empty() }),
{
    lemma_echoes_are_silent(echoes);
    let chunks = echoes.push(ChunkView::StdOut(encode_utf8(text)));
    assert(chunks.drop_last() == echoes);
    assert(stdout_bytes(chunks) == encode_utf8(text));
    assert(stderr_bytes(chunks) == Seq::<u8>::empty());
    encode_utf8_valid_utf8(text);
    encode_utf8_decode_utf8(text);
    assert(valid_utf8(Seq::<u8>::empty()));
    assert(decode_utf8(Seq::<u8>::empty()) == Seq::<char>::empty());
}

/// The place where bytes stop being valid is a place in the bytes, what
/// comes before it is valid, and nothing longer is. Bytes that are valid as
/// a whole stop being valid nowhere before their end.
pub proof fn lemma_valid_up_to(bytes: Seq<u8>)
    ensures
        valid_up_to(bytes) <= bytes.len(),
        valid_utf8(bytes.take(valid_up_to(bytes) as int)),
        forall|longer: int|
            valid_up_to(bytes) < longer <= bytes.len() ==> !valid_utf8(#[trigger] bytes.take(longer)),
        valid_utf8(bytes) <==> valid_up_to(bytes) == bytes.len(),
{
    lemma_valid_prefix(bytes, bytes.len());
    assert(bytes.take(bytes.len() as int) == bytes);
}

proof fn lemma_valid_prefix(bytes: Seq<u8>, limit: nat)
    requires
        limit <= bytes.len(),
    ensures
        valid_prefix(bytes, limit) <= limit,
        valid_utf8(bytes.take(valid_prefix(bytes, limit) as int)),
        forall|longer: int|
            valid_prefix(bytes, limit) < longer <= limit ==> !valid_utf8(
                #[trigger] bytes.take(longer),
            ),
    decreases limit,
{
    if limit == 0 {
        assert(bytes.take(0).len() == 0);
    } else if !valid_utf8(bytes.take(limit as int)) {
        lemma_valid_prefix(bytes, (limit - 1) as nat);
    }
}

/// Echoes of the input add nothing to either output channel.
pub proof fn lemma_echoes_are_silent(echoes: Seq<ChunkView>)
    requires
        forall|i: int| 0 <= i < echoes.len() ==> echoes[i] is StdIn,
    ensures
        stdout_bytes(echoes) == Seq::<u8>::empty(),
        stderr_bytes(echoes) == Seq::<u8>::empty(),
    decreases echoes.len(),
{
    if echoes.len() > 0 {
        lemma_echoes_are_silent(echoes.drop_last());
    }
}

} // verus!
