//! Media tracks and buffers for multi-modal input.

use vstd::prelude::*;
use vstd::slice::slice_to_vec;
use vstd::string::*;
use bytes::Bytes;

verus! {

/// `bytes::Bytes`, an immutable byte buffer.
#[verifier::external_type_specification]
#[verifier::external_body]
pub struct ExBytes(Bytes);

/// The bytes a `bytes::Bytes` buffer holds.
pub uninterp spec fn bytes_content(b: Bytes) -> Seq<u8>;

/// Turns a vector into a `Bytes` buffer with `Bytes::from`. Claimed: the
/// buffer holds the vector's bytes, as the crate's documentation states.
#[verifier::external_body]
fn bytes_from_vec(v: Vec<u8>) -> (b: Bytes)
    ensures
        bytes_content(b) == v@,
{
    Bytes::from(v)
}

/// An empty buffer, from `Bytes::new`. Claimed: it holds no byte.
#[verifier::external_body]
fn empty_bytes() -> (b: Bytes)
    ensures
        bytes_content(b) == Seq::<u8>::empty(),
{
    Bytes::new()
}

/// Media type enumeration.
#[derive(Debug, Clone, Copy, PartialEq, Eq, Structural)]
pub enum MediaType {
    /// Audio track (voice)
    Audio,
    /// Video track
    Video,
    /// Image (sent via data channel)
    Image,
}

/// Errors of media handling.
#[derive(Debug, Clone, Copy, PartialEq, Eq, Structural)]
pub enum MediaError {
    /// A chunk would take the buffer past its maximum size.
    BufferOverflow,
}

/// A local media track: its type and the stream and track IDs it is
/// created with.
#[derive(Debug, Clone)]
pub struct MediaTrack {
    /// Track type
    ty: MediaType,
    /// ID of the media stream the track belongs to
    stream_id: String,
    /// ID of the track
    track_id: String,
}

impl MediaTrack {
    /// The track type.
    pub closed spec fn kind(self) -> MediaType {
        self.ty
    }

    /// The stream ID.
    pub closed spec fn stream(self) -> Seq<char> {
        self.stream_id@
    }

    /// The track ID.
    pub closed spec fn track(self) -> Seq<char> {
        self.track_id@
    }

    /// A local audio track of the stream `media-stream`, with ID `audio-track`.
    pub fn new_audio() -> (t: MediaTrack)
        ensures
            t.kind() == MediaType::Audio,
            t.stream() == "media-stream"@,
            t.track() == "audio-track"@,
    {
        MediaTrack {
            ty: MediaType::Audio,
            stream_id: String::from_str("media-stream"),
            track_id: String::from_str("audio-track"),
        }
    }

    /// A local video track of the stream `media-stream`, with ID `video-track`.
    pub fn new_video() -> (t: MediaTrack)
        ensures
            t.kind() == MediaType::Video,
            t.stream() == "media-stream"@,
            t.track() == "video-track"@,
    {
        MediaTrack {
            ty: MediaType::Video,
            stream_id: String::from_str("media-stream"),
            track_id: String::from_str("video-track"),
        }
    }

    /// Get media type.
    pub fn media_type(&self) -> (ty: MediaType)
        ensures
            ty == self.kind(),
    {
        self.ty
    }

    /// The stream ID.
    pub fn stream_id(&self) -> (s: &str)
        ensures
            s@ == self.stream(),
    {
        self.stream_id.as_str()
    }

    /// The track ID.
    pub fn track_id(&self) -> (s: &str)
        ensures
            s@ == self.track(),
    {
        self.track_id.as_str()
    }
}

/// Bytes per megabyte of a buffer's size limit.
pub const BYTES_PER_MB: usize = 1048576;

/// The contents after pushing `chunk` onto `data` under the limit `max`, or
/// `None` when the chunk does not fit.
pub open spec fn pushed(data: Seq<u8>, max: nat, chunk: Seq<u8>) -> Option<Seq<u8>> {
    if data.len() + chunk.len() > max {
        None
    } else {
        Some(data + chunk)
    }
}

/// Media buffer for collecting media data.
#[derive(Debug, Clone)]
pub struct MediaBuffer {
    /// Accumulated data
    data: Vec<u8>,
    /// Media type
    ty: MediaType,
    /// Maximum size (bytes)
    max_size: usize,
}

impl MediaBuffer {
    /// The accumulated data.
    pub closed spec fn contents(self) -> Seq<u8> {
        self.data@
    }

    /// The media type.
    pub closed spec fn kind(self) -> MediaType {
        self.ty
    }

    /// The maximum size in bytes.
    pub closed spec fn capacity(self) -> nat {
        self.max_size as nat
    }

    /// What pushing `chunk` does: the chunk is appended when it fits within
    /// the capacity and the push answers `Ok`; otherwise the push answers
    /// `BufferOverflow` and the contents stay as they were. Type and capacity
    /// never change.
    pub open spec fn push_step(
        pre: MediaBuffer,
        chunk: Seq<u8>,
        post: MediaBuffer,
        r: Result<(), MediaError>,
    ) -> bool {
        &&& post.kind() == pre.kind()
        &&& post.capacity() == pre.capacity()
        &&& match pushed(pre.contents(), pre.capacity(), chunk) {
            Some(d) => r is Ok && post.contents() == d,
            None => r == Err::<(), MediaError>(MediaError::BufferOverflow) && post.contents()
                == pre.contents(),
        }
    }

    /// Creates an empty buffer of at most `max_size_mb` megabytes.
    pub fn new(ty: MediaType, max_size_mb: usize) -> (b: MediaBuffer)
        requires
            max_size_mb * BYTES_PER_MB <= usize::MAX,
        ensures
            b.contents() == Seq::<u8>::empty(),
            b.kind() == ty,
            b.capacity() == max_size_mb * BYTES_PER_MB,
            b.capacity() == max_size_mb * 1024 * 1024,
    {
        assert(max_size_mb * BYTES_PER_MB == max_size_mb * 1024 * 1024) by (nonlinear_arith);
        MediaBuffer { data: Vec::new(), ty, max_size: max_size_mb * BYTES_PER_MB }
    }

    /// Appends a chunk; a chunk that would take the buffer past its maximum
    /// size is refused and the buffer left as it was.
    pub fn push(&mut self, chunk: &[u8]) -> (r: Result<(), MediaError>)
        ensures
            MediaBuffer::push_step(*old(self), chunk@, *final(self), r),
    {
        let total = self.data.len().checked_add(chunk.len());
        match total {
            None => {
                return Err(MediaError::BufferOverflow);
            },
            Some(t) => {
                if t > self.max_size {
                    return Err(MediaError::BufferOverflow);
                }
            },
        }
        let ghost before = self.data@;
        let n = chunk.len();
        let mut i: usize = 0;
        while i < n
            invariant
                n == chunk@.len(),
                i <= n,
                self.data@ == before + chunk@.subrange(0, i as int),
                self.ty == old(self).ty,
                self.max_size == old(self).max_size,
            decreases n - i,
        {
            self.data.push(chunk[i]);
            i = i + 1;
            assert(self.data@ =~= before + chunk@.subrange(0, i as int));
        }
        assert(chunk@.subrange(0, n as int) =~= chunk@);
        Ok(())
    }

    /// The accumulated data.
    pub fn finish(self) -> (b: Bytes)
        ensures
            bytes_content(b) == self.contents(),
    {
        bytes_from_vec(self.data)
    }

    /// Current size.
    pub fn len(&self) -> (n: usize)
        ensures
            n == self.contents().len(),
    {
        self.data.len()
    }

    /// Whether no data has been accumulated.
    pub fn is_empty(&self) -> (e: bool)
        ensures
            e == (self.contents().len() == 0),
    {
        self.data.len() == 0
    }
}

/// A push is refused exactly when the chunk would take the buffer past its
/// capacity, whatever that capacity is: a chunk that fits is appended and
/// answered `Ok`; one that does not fit is answered `BufferOverflow` and
/// leaves the buffer as it was. A buffer made for `mb` megabytes has a
/// capacity of `mb * 1024 * 1024` bytes.
pub proof fn law_push_refused_only_past_capacity(
    pre: MediaBuffer,
    chunk: Seq<u8>,
    post: MediaBuffer,
    r: Result<(), MediaError>,
    mb: nat,
)
    requires
        MediaBuffer::push_step(pre, chunk, post, r),
    ensures
        pre.contents().len() + chunk.len() <= pre.capacity() ==> r is Ok && post.contents()
            == pre.contents() + chunk,
        pre.contents().len() + chunk.len() > pre.capacity() ==> r == Err::<(), MediaError>(
            MediaError::BufferOverflow,
        ) && post.contents() == pre.contents(),
        post.capacity() == pre.capacity(),
        mb * BYTES_PER_MB == mb * 1024 * 1024,
{
    assert(mb * BYTES_PER_MB == mb * 1024 * 1024) by (nonlinear_arith);
}

/// The chunks among the first `n` pushes whose push answered `Ok`, in order.
pub open spec fn accepted_chunks(
    chunks: Seq<Seq<u8>>,
    results: Seq<Result<(), MediaError>>,
    n: nat,
) -> Seq<Seq<u8>>
    decreases n,
{
    if n == 0 {
        Seq::empty()
    } else {
        let earlier = accepted_chunks(chunks, results, (n - 1) as nat);
        if results[n - 1] is Ok {
            earlier.push(chunks[n - 1])
        } else {
            earlier
        }
    }
}

/// The chunks joined end to end, in order.
pub open spec fn concat(chunks: Seq<Seq<u8>>) -> Seq<u8>
    decreases chunks.len(),
{
    if chunks.len() == 0 {
        Seq::empty()
    } else {
        concat(chunks.drop_last()) + chunks.last()
    }
}

/// The sum of the chunks' lengths.
pub open spec fn total_len(chunks: Seq<Seq<u8>>) -> nat
    decreases chunks.len(),
{
    if chunks.len() == 0 {
        0
    } else {
        total_len(chunks.drop_last()) + chunks.last().len()
    }
}

/// Joining chunks end to end gives as many bytes as they hold together.
proof fn lemma_concat_len(chunks: Seq<Seq<u8>>)
    ensures
        concat(chunks).len() == total_len(chunks),
    decreases chunks.len(),
{
    if chunks.len() > 0 {
        lemma_concat_len(chunks.drop_last());
    }
}

/// After the first `n` pushes of a run, the buffer holds what it started
/// with followed by the accepted chunks, within its unchanged capacity.
proof fn lemma_buffer_run(
    states: Seq<MediaBuffer>,
    chunks: Seq<Seq<u8>>,
    results: Seq<Result<(), MediaError>>,
    n: nat,
)
    requires
        states.len() == chunks.len() + 1,
        results.len() == chunks.len(),
        n <= chunks.len(),
        states[0].contents().len() <= states[0].capacity(),
        forall|i: int|
            0 <= i < chunks.len() ==> MediaBuffer::push_step(
                states[i],
                #[trigger] chunks[i],
                states[i + 1],
                results[i],
            ),
    ensures
        states[n as int].kind() == states[0].kind(),
        states[n as int].capacity() == states[0].capacity(),
        states[n as int].contents() == states[0].contents() + concat(
            accepted_chunks(chunks, results, n),
        ),
        states[n as int].contents().len() <= states[0].capacity(),
    decreases n,
{
    if n > 0 {
        let k = n - 1;
        lemma_buffer_run(states, chunks, results, k as nat);
        assert(MediaBuffer::push_step(states[k], chunks[k], states[k + 1], results[k]));
        let earlier = accepted_chunks(chunks, results, k as nat);
        if results[k] is Ok {
            assert(earlier.push(chunks[k]).drop_last() =~= earlier);
            assert(states[0].contents() + concat(earlier) + chunks[k] =~= states[0].contents() + (
            concat(earlier) + chunks[k]));
        }
    }
}

/// Over any run of pushes, the buffer never holds more than its capacity,
/// and it holds what it started with followed by the chunks whose push
/// answered `Ok`, in the order they were pushed; rejected chunks add
/// nothing. So a buffer filled from empty holds exactly the accepted chunks,
/// as many bytes as they hold together.
pub proof fn law_buffer_holds_accepted_chunks(
    states: Seq<MediaBuffer>,
    chunks: Seq<Seq<u8>>,
    results: Seq<Result<(), MediaError>>,
)
    requires
        states.len() == chunks.len() + 1,
        results.len() == chunks.len(),
        states[0].contents().len() <= states[0].capacity(),
        forall|i: int|
            0 <= i < chunks.len() ==> MediaBuffer::push_step(
                states[i],
                #[trigger] chunks[i],
                states[i + 1],
                results[i],
            ),
    ensures
        forall|i: int|
            0 <= i < states.len() ==> (#[trigger] states[i]).contents().len() <= states[0].capacity()
                && states[i].capacity() == states[0].capacity(),
        states.last().contents() == states[0].contents() + concat(
            accepted_chunks(chunks, results, chunks.len()),
        ),
        states[0].contents().len() == 0 ==> states.last().contents().len() == total_len(
            accepted_chunks(chunks, results, chunks.len()),
        ),
{
    assert forall|i: int| 0 <= i < states.len() implies (#[trigger] states[i]).contents().len()
        <= states[0].capacity() && states[i].capacity() == states[0].capacity() by {
        lemma_buffer_run(states, chunks, results, i as nat);
    }
    lemma_buffer_run(states, chunks, results, chunks.len());
    lemma_concat_len(accepted_chunks(chunks, results, chunks.len()));
}

/// Audio encoder/decoder helper.
pub struct AudioProcessor;

impl AudioProcessor {
    /// Speech-to-text of an audio chunk; no recognizer is attached, so the
    /// text is empty.
    pub fn process_audio(data: &[u8]) -> (r: Result<String, MediaError>)
        ensures
            r matches Ok(t) && t@ == Seq::<char>::empty(),
    {
        Ok(String::new())
    }

    /// Text-to-speech of a text; no synthesizer is attached, so the audio is
    /// empty.
    pub fn synthesize_audio(text: &str) -> (r: Result<Bytes, MediaError>)
        ensures
            r matches Ok(b) && bytes_content(b) == Seq::<u8>::empty(),
    {
        Ok(empty_bytes())
    }
}

/// Image processor.
pub struct ImageProcessor;

impl ImageProcessor {
    /// Prepares an image for the assistant; images are passed on as they are.
    pub fn process_image(data: &[u8]) -> (r: Result<Bytes, MediaError>)
        ensures
            r matches Ok(b) && bytes_content(b) == data@,
    {
        Ok(bytes_from_vec(slice_to_vec(data)))
    }

    /// Text recognized in an image; no recognizer is attached, so the text
    /// is empty.
    pub fn ocr(data: &[u8]) -> (r: Result<String, MediaError>)
        ensures
            r matches Ok(t) && t@ == Seq::<char>::empty(),
    {
        Ok(String::new())
    }
}

} // verus!
