//! Audio configuration and audio streams.
//!
//! A push input stream hands bytes straight to the engine's buffer; a pull
//! input stream queues chunks on the host side for the engine to collect; the
//! output streams run the other way.  The chunk bookkeeping — what a read
//! callback hands over, how a reader drains cached and queued chunks — is the
//! logic verified here.

use vstd::prelude::*;

use crate::engine::{Engine, HandleData, ERR_INVALID_HANDLE};
use crate::error::SpxError;
use crate::properties::{PropertyBag, Properties};
use crate::{Handle, INVALID_HANDLE};

verus! {

/// PCM waveform characteristics of an audio stream.
#[derive(Clone, Copy, PartialEq, Eq, Structural, Debug)]
pub struct AudioSpec {
    /// Sample rate in hertz.
    pub rate: u32,
    /// Bits per sample.
    pub bits: u8,
    /// Number of channels.
    pub channels: u8,
}

impl Default for AudioSpec {
    /// The default format: 16 kHz, 16-bit samples, mono.
    fn default() -> (r: AudioSpec)
        ensures
            r.rate == 16000,
            r.bits == 16,
            r.channels == 1,
    {
        AudioSpec { rate: 16000, bits: 16, channels: 1 }
    }
}

impl core::convert::From<(u32, u8, u8)> for AudioSpec {
    fn from(trio: (u32, u8, u8)) -> (r: AudioSpec) {
        AudioSpec { rate: trio.0, bits: trio.1, channels: trio.2 }
    }
}

impl vstd::std_specs::convert::FromSpecImpl<(u32, u8, u8)> for AudioSpec {
    open spec fn obeys_from_spec() -> bool {
        true
    }

    open spec fn from_spec(trio: (u32, u8, u8)) -> AudioSpec {
        AudioSpec { rate: trio.0, bits: trio.1, channels: trio.2 }
    }
}

/// An owned audio stream format handle.
pub struct AudioStreamFormat {
    /// The underlying handle.
    pub handle: usize,
}

impl Handle for AudioStreamFormat {
    open spec fn spec_handle(&self) -> usize {
        self.handle
    }

    fn handle(&self) -> (h: usize)
        ensures
            h == self.spec_handle(),
    {
        self.handle
    }
}

impl AudioStreamFormat {
    /// Adopt ownership of a format handle.
    pub fn new(handle: usize) -> (r: AudioStreamFormat)
        ensures
            r.handle == handle,
    {
        AudioStreamFormat { handle }
    }

    /// Create a format object with the given PCM characteristics.
    pub fn from_config(cfg: &AudioSpec, engine: &mut Engine) -> (r: Result<
        AudioStreamFormat,
        SpxError,
    >)
        ensures
            old(engine).can_alloc() <==> r is Ok,
            r is Ok ==> r->Ok_0.handle == (old(engine).entries@.len() + 1) as usize,
            r is Ok ==> final(engine).valid(r->Ok_0.handle),
            r is Ok ==> final(engine).entries@ == old(engine).entries@.push(
                crate::engine::HandleEntry { live: true, releases: 0, data: HandleData::Plain },
            ),
            r is Ok ==> final(engine).formats@ == old(engine).formats@.push(
                (cfg.rate, cfg.bits, cfg.channels),
            ),
            r is Err ==> *final(engine) == *old(engine),
            final(engine).outcomes == old(engine).outcomes,
            final(engine).callbacks == old(engine).callbacks,
            final(engine).slots == old(engine).slots,
            final(engine).spoken == old(engine).spoken,
    {
        match engine.create_format(cfg.rate, cfg.bits, cfg.channels) {
            Ok(h) => Ok(AudioStreamFormat { handle: h }),
            Err(e) => Err(e),
        }
    }

    /// Create a format object with the default input format: 16 kHz,
    /// 16-bit samples, mono.
    pub fn from_default(engine: &mut Engine) -> (r: Result<AudioStreamFormat, SpxError>)
        ensures
            old(engine).can_alloc() <==> r is Ok,
            r is Ok ==> r->Ok_0.handle == (old(engine).entries@.len() + 1) as usize,
            r is Ok ==> final(engine).valid(r->Ok_0.handle),
            r is Ok ==> final(engine).entries@ == old(engine).entries@.push(
                crate::engine::HandleEntry { live: true, releases: 0, data: HandleData::Plain },
            ),
            r is Ok ==> final(engine).formats@ == old(engine).formats@.push((16000, 16, 1)),
            r is Err ==> *final(engine) == *old(engine),
            final(engine).outcomes == old(engine).outcomes,
            final(engine).callbacks == old(engine).callbacks,
            final(engine).slots == old(engine).slots,
            final(engine).spoken == old(engine).spoken,
    {
        match engine.create_format(16000, 16, 1) {
            Ok(h) => Ok(AudioStreamFormat { handle: h }),
            Err(e) => Err(e),
        }
    }

    /// Whether the underlying handle is still live.
    pub fn is_valid(&self, engine: &Engine) -> (r: bool)
        ensures
            r == engine.valid(self.handle),
    {
        engine.is_valid(self.handle)
    }

    /// Release the underlying handle, skipping a handle the engine already
    /// reports as dead.
    pub fn release(&mut self, engine: &mut Engine)
        ensures
            final(self).handle == INVALID_HANDLE,
            !old(engine).valid(old(self).handle) ==> *final(engine) == *old(engine),
            old(engine).valid(old(self).handle) ==> old(engine).same_but_entry(
                *final(engine),
                old(self).handle,
            ) && !final(engine).valid(old(self).handle),
    {
        if engine.is_valid(self.handle) {
            engine.release_handle(self.handle);
        }
        self.handle = INVALID_HANDLE;
    }
}

/// Common surface of the audio streams.  What each operation does depends on
/// the stream's direction and mode; the inherent methods of each stream
/// carry the exact contracts.
pub trait AudioStream: Handle {
    /// Stream audio bytes in.
    fn write(&mut self, engine: &mut Engine, buffer: &[u8]) -> Result<(), SpxError>;

    /// Stream audio bytes out, up to `want` bytes.
    fn read(&mut self, engine: &mut Engine, want: usize) -> Result<Vec<u8>, SpxError>;

    /// Close the stream gracefully.
    fn close(&mut self, engine: &mut Engine) -> Result<(), SpxError>;
}

/// Push-mode audio input: bytes go straight into the engine's stream buffer.
pub struct PushAudioInputStream {
    /// The underlying stream handle.
    pub handle: usize,
}

impl Handle for PushAudioInputStream {
    open spec fn spec_handle(&self) -> usize {
        self.handle
    }

    fn handle(&self) -> (h: usize)
        ensures
            h == self.spec_handle(),
    {
        self.handle
    }
}

impl PushAudioInputStream {
    /// Adopt ownership of a stream handle.
    pub fn new(handle: usize) -> (r: PushAudioInputStream)
        ensures
            r.handle == handle,
    {
        PushAudioInputStream { handle }
    }

    /// Create a push input stream with the given format: the format object
    /// is created, the stream is opened, and the format is released again.
    pub fn from_config(cfg: &AudioSpec, engine: &mut Engine) -> (r: Result<
        PushAudioInputStream,
        SpxError,
    >)
        ensures
            r is Ok <==> old(engine).entries@.len() + 2 < usize::MAX,
            r is Ok ==> r->Ok_0.handle == (old(engine).entries@.len() + 2) as usize,
            r is Ok ==> final(engine).is_stream(r->Ok_0.handle),
            r is Ok ==> final(engine).stream_data(r->Ok_0.handle) == Seq::<u8>::empty(),
            r is Ok ==> !final(engine).stream_closed(r->Ok_0.handle),
            r is Ok ==> final(engine).entries@.len() == old(engine).entries@.len() + 2,
            r is Ok ==> final(engine).formats@ == old(engine).formats@.push(
                (cfg.rate, cfg.bits, cfg.channels),
            ),
            forall|j: int|
                0 <= j < old(engine).entries@.len() ==> #[trigger] final(engine).entries@[j]
                    == old(engine).entries@[j],
            final(engine).entries@.len() >= old(engine).entries@.len(),
            final(engine).outcomes == old(engine).outcomes,
            final(engine).callbacks == old(engine).callbacks,
            final(engine).slots == old(engine).slots,
            final(engine).spoken == old(engine).spoken,
    {
        let mut af = match AudioStreamFormat::from_config(cfg, engine) {
            Ok(f) => f,
            Err(e) => {
                return Err(e);
            },
        };
        let r = match engine.open_handle(HandleData::Stream { data: Vec::new(), closed: false }) {
            Ok(h) => Ok(PushAudioInputStream { handle: h }),
            Err(e) => Err(e),
        };
        af.release(engine);
        r
    }

    /// Hand a buffer of audio bytes to the engine.
    pub fn push_write(&self, engine: &mut Engine, buffer: &[u8]) -> (r: Result<(), SpxError>)
        ensures
            r is Ok <==> old(engine).is_stream(self.handle) && !old(engine).stream_closed(
                self.handle,
            ),
            r is Ok ==> old(engine).same_but_entry(*final(engine), self.handle),
            r is Ok ==> final(engine).is_stream(self.handle),
            r is Ok ==> final(engine).stream_data(self.handle) == old(engine).stream_data(
                self.handle,
            ) + buffer@,
            r is Ok ==> !final(engine).stream_closed(self.handle),
            r is Err ==> *final(engine) == *old(engine),
    {
        engine.stream_write(self.handle, buffer)
    }

    /// Close the stream gracefully.
    pub fn push_close(&self, engine: &mut Engine) -> (r: Result<(), SpxError>)
        ensures
            r is Ok <==> old(engine).is_stream(self.handle),
            r is Ok ==> old(engine).same_but_entry(*final(engine), self.handle),
            r is Ok ==> final(engine).is_stream(self.handle),
            r is Ok ==> final(engine).stream_closed(self.handle),
            r is Ok ==> final(engine).stream_data(self.handle) == old(engine).stream_data(
                self.handle,
            ),
            r is Err ==> *final(engine) == *old(engine),
    {
        engine.stream_close(self.handle)
    }

    /// Whether the underlying handle is still live.
    pub fn is_valid(&self, engine: &Engine) -> (r: bool)
        ensures
            r == engine.valid(self.handle),
    {
        engine.is_valid(self.handle)
    }

    /// Release the underlying handle, skipping a handle the engine already
    /// reports as dead.
    pub fn release(&mut self, engine: &mut Engine)
        ensures
            final(self).handle == INVALID_HANDLE,
            !old(engine).valid(old(self).handle) ==> *final(engine) == *old(engine),
            old(engine).valid(old(self).handle) ==> old(engine).same_but_entry(
                *final(engine),
                old(self).handle,
            ) && !final(engine).valid(old(self).handle),
    {
        if engine.is_valid(self.handle) {
            engine.release_handle(self.handle);
        }
        self.handle = INVALID_HANDLE;
    }
}

impl AudioStream for PushAudioInputStream {
    fn write(&mut self, engine: &mut Engine, buffer: &[u8]) -> Result<(), SpxError> {
        self.push_write(engine, buffer)
    }

    fn read(&mut self, engine: &mut Engine, want: usize) -> Result<Vec<u8>, SpxError> {
        let _ = engine;
        let _ = want;
        Err(SpxError::Unimplemented)
    }

    fn close(&mut self, engine: &mut Engine) -> Result<(), SpxError> {
        self.push_close(engine)
    }
}

/// Pull-mode audio input: the host queues chunks, the engine collects them
/// through its read callback.
pub struct PullAudioInputStream {
    /// The underlying stream handle.
    pub handle: usize,
    /// Chunks written and not yet collected; an empty chunk marks the close.
    pub queue: Vec<Vec<u8>>,
}

impl Handle for PullAudioInputStream {
    open spec fn spec_handle(&self) -> usize {
        self.handle
    }

    fn handle(&self) -> (h: usize)
        ensures
            h == self.spec_handle(),
    {
        self.handle
    }
}

impl PullAudioInputStream {
    /// Create a pull input stream with the given format.
    pub fn from_config(cfg: &AudioSpec, engine: &mut Engine) -> (r: Result<
        PullAudioInputStream,
        SpxError,
    >)
        ensures
            r is Ok <==> old(engine).entries@.len() + 2 < usize::MAX,
            r is Ok ==> r->Ok_0.handle == (old(engine).entries@.len() + 2) as usize,
            r is Ok ==> r->Ok_0.queue@.len() == 0,
            r is Ok ==> final(engine).valid(r->Ok_0.handle),
            r is Ok ==> final(engine).entries@.len() == old(engine).entries@.len() + 2,
            r is Ok ==> final(engine).formats@ == old(engine).formats@.push(
                (cfg.rate, cfg.bits, cfg.channels),
            ),
            forall|j: int|
                0 <= j < old(engine).entries@.len() ==> #[trigger] final(engine).entries@[j]
                    == old(engine).entries@[j],
            final(engine).entries@.len() >= old(engine).entries@.len(),
            final(engine).outcomes == old(engine).outcomes,
            final(engine).callbacks == old(engine).callbacks,
            final(engine).slots == old(engine).slots,
            final(engine).spoken == old(engine).spoken,
    {
        let mut af = match AudioStreamFormat::from_config(cfg, engine) {
            Ok(f) => f,
            Err(e) => {
                return Err(e);
            },
        };
        let r = match engine.open_handle(HandleData::Plain) {
            Ok(h) => Ok(PullAudioInputStream { handle: h, queue: Vec::new() }),
            Err(e) => Err(e),
        };
        af.release(engine);
        r
    }

    /// Queue a chunk for the engine to collect.
    pub fn pull_write(&mut self, buffer: &[u8]) -> (r: Result<(), SpxError>)
        ensures
            r is Ok,
            final(self).handle == old(self).handle,
            final(self).queue@.len() == old(self).queue@.len() + 1,
            final(self).queue@[old(self).queue@.len() as int]@ == buffer@,
            forall|j: int|
                0 <= j < old(self).queue@.len() ==> #[trigger] final(self).queue@[j] == old(self).queue@[j],
    {
        let chunk = vstd::slice::slice_to_vec(buffer);
        self.queue.push(chunk);
        Ok(())
    }

    /// Close the stream gracefully: queue the empty chunk that marks the
    /// end.
    pub fn pull_close(&mut self) -> (r: Result<(), SpxError>)
        ensures
            r is Ok,
            final(self).handle == old(self).handle,
            final(self).queue@.len() == old(self).queue@.len() + 1,
            final(self).queue@[old(self).queue@.len() as int]@ == Seq::<u8>::empty(),
            forall|j: int|
                0 <= j < old(self).queue@.len() ==> #[trigger] final(self).queue@[j] == old(self).queue@[j],
    {
        self.queue.push(Vec::new());
        Ok(())
    }

    /// The engine-side read callback: hand over the next queued chunk.
    ///
    /// An empty queue and an oversized chunk both hand back nothing — an
    /// oversized chunk is consumed and dropped, as the engine's buffer
    /// cannot take it; the empty close marker is consumed and ends the
    /// stream.
    pub fn on_stream_read(&mut self, size: usize) -> (r: Vec<u8>)
        ensures
            final(self).handle == old(self).handle,
            old(self).queue@.len() == 0 ==> r@.len() == 0 && final(self).queue@ == old(self).queue@,
            old(self).queue@.len() > 0 ==> final(self).queue@ == old(self).queue@.remove(0),
            old(self).queue@.len() > 0 && old(self).queue@[0]@.len() > size ==> r@.len() == 0,
            old(self).queue@.len() > 0 && old(self).queue@[0]@.len() <= size ==> r@ == old(self).queue@[0]@,
    {
        if self.queue.len() == 0 {
            return Vec::new();
        }
        let chunk = self.queue.remove(0);
        if chunk.len() > size {
            return Vec::new();
        }
        chunk
    }

    /// Whether the underlying handle is still live.
    pub fn is_valid(&self, engine: &Engine) -> (r: bool)
        ensures
            r == engine.valid(self.handle),
    {
        engine.is_valid(self.handle)
    }

    /// Release the underlying handle, skipping a handle the engine already
    /// reports as dead.
    pub fn release(&mut self, engine: &mut Engine)
        ensures
            final(self).handle == INVALID_HANDLE,
            !old(engine).valid(old(self).handle) ==> *final(engine) == *old(engine),
            old(engine).valid(old(self).handle) ==> old(engine).same_but_entry(
                *final(engine),
                old(self).handle,
            ) && !final(engine).valid(old(self).handle),
    {
        if engine.is_valid(self.handle) {
            engine.release_handle(self.handle);
        }
        self.handle = INVALID_HANDLE;
    }
}

impl AudioStream for PullAudioInputStream {
    fn write(&mut self, engine: &mut Engine, buffer: &[u8]) -> Result<(), SpxError> {
        let _ = engine;
        self.pull_write(buffer)
    }

    fn read(&mut self, engine: &mut Engine, want: usize) -> Result<Vec<u8>, SpxError> {
        let _ = engine;
        let _ = want;
        Err(SpxError::Unimplemented)
    }

    fn close(&mut self, engine: &mut Engine) -> Result<(), SpxError> {
        let _ = engine;
        self.pull_close()
    }
}

/// Pull-mode audio output: bytes drain straight from the engine's stream
/// buffer.
pub struct PullAudioOutputStream {
    /// The underlying stream handle.
    pub handle: usize,
}

impl Handle for PullAudioOutputStream {
    open spec fn spec_handle(&self) -> usize {
        self.handle
    }

    fn handle(&self) -> (h: usize)
        ensures
            h == self.spec_handle(),
    {
        self.handle
    }
}

impl PullAudioOutputStream {
    /// Adopt ownership of a stream handle.
    pub fn new(handle: usize) -> (r: PullAudioOutputStream)
        ensures
            r.handle == handle,
    {
        PullAudioOutputStream { handle }
    }

    /// Create a pull output stream with the given format.
    pub fn from_config(cfg: &AudioSpec, engine: &mut Engine) -> (r: Result<
        PullAudioOutputStream,
        SpxError,
    >)
        ensures
            r is Ok <==> old(engine).entries@.len() + 2 < usize::MAX,
            r is Ok ==> r->Ok_0.handle == (old(engine).entries@.len() + 2) as usize,
            r is Ok ==> final(engine).is_stream(r->Ok_0.handle),
            r is Ok ==> final(engine).stream_data(r->Ok_0.handle) == Seq::<u8>::empty(),
            r is Ok ==> final(engine).entries@.len() == old(engine).entries@.len() + 2,
            r is Ok ==> final(engine).formats@ == old(engine).formats@.push(
                (cfg.rate, cfg.bits, cfg.channels),
            ),
            forall|j: int|
                0 <= j < old(engine).entries@.len() ==> #[trigger] final(engine).entries@[j]
                    == old(engine).entries@[j],
            final(engine).entries@.len() >= old(engine).entries@.len(),
            final(engine).outcomes == old(engine).outcomes,
            final(engine).callbacks == old(engine).callbacks,
            final(engine).slots == old(engine).slots,
            final(engine).spoken == old(engine).spoken,
    {
        let mut af = match AudioStreamFormat::from_config(cfg, engine) {
            Ok(f) => f,
            Err(e) => {
                return Err(e);
            },
        };
        let r = match engine.open_handle(HandleData::Stream { data: Vec::new(), closed: false }) {
            Ok(h) => Ok(PullAudioOutputStream { handle: h }),
            Err(e) => Err(e),
        };
        af.release(engine);
        r
    }

    /// Read up to `want` bytes out of the engine's buffer.
    pub fn pull_read(&self, engine: &mut Engine, want: usize) -> (r: Result<Vec<u8>, SpxError>)
        ensures
            old(engine).is_stream(self.handle) <==> r is Ok,
            r is Ok ==> r->Ok_0@ == old(engine).stream_data(self.handle).take(
                vstd::math::min(want as int, old(engine).stream_data(self.handle).len() as int),
            ),
            r is Ok ==> old(engine).same_but_entry(*final(engine), self.handle),
            r is Ok ==> final(engine).is_stream(self.handle),
            r is Ok ==> final(engine).stream_data(self.handle) == old(engine).stream_data(
                self.handle,
            ).skip(
                vstd::math::min(want as int, old(engine).stream_data(self.handle).len() as int),
            ),
            r is Err ==> *final(engine) == *old(engine),
    {
        engine.stream_read(self.handle, want)
    }

    /// Whether the underlying handle is still live.
    pub fn is_valid(&self, engine: &Engine) -> (r: bool)
        ensures
            r == engine.valid(self.handle),
    {
        engine.is_valid(self.handle)
    }

    /// Release the underlying handle, skipping a handle the engine already
    /// reports as dead.
    pub fn release(&mut self, engine: &mut Engine)
        ensures
            final(self).handle == INVALID_HANDLE,
            !old(engine).valid(old(self).handle) ==> *final(engine) == *old(engine),
            old(engine).valid(old(self).handle) ==> old(engine).same_but_entry(
                *final(engine),
                old(self).handle,
            ) && !final(engine).valid(old(self).handle),
    {
        if engine.is_valid(self.handle) {
            engine.release_handle(self.handle);
        }
        self.handle = INVALID_HANDLE;
    }
}

impl AudioStream for PullAudioOutputStream {
    fn write(&mut self, engine: &mut Engine, buffer: &[u8]) -> Result<(), SpxError> {
        let _ = engine;
        let _ = buffer;
        Err(SpxError::Unimplemented)
    }

    fn read(&mut self, engine: &mut Engine, want: usize) -> Result<Vec<u8>, SpxError> {
        self.pull_read(engine, want)
    }

    fn close(&mut self, engine: &mut Engine) -> Result<(), SpxError> {
        let _ = engine;
        Ok(())
    }
}

/// What a draining read takes from a queue of chunks: the bytes handed out,
/// the remainder of a chunk that was split, and the chunks left queued.
///
/// An empty chunk marks the end and stops the drain; a chunk larger than
/// what is still wanted is split, and its tail becomes the new cache.
pub open spec fn drain_chunks(queue: Seq<Seq<u8>>, want: nat) -> (Seq<u8>, Seq<u8>, Seq<Seq<u8>>)
    decreases queue.len(),
{
    if want == 0 || queue.len() == 0 {
        (Seq::<u8>::empty(), Seq::<u8>::empty(), queue)
    } else {
        let c = queue[0];
        if c.len() == 0 {
            (Seq::<u8>::empty(), Seq::<u8>::empty(), queue.skip(1))
        } else if c.len() > want {
            (c.take(want as int), c.skip(want as int), queue.skip(1))
        } else {
            let rest = drain_chunks(queue.skip(1), (want - c.len()) as nat);
            (c + rest.0, rest.1, rest.2)
        }
    }
}

/// What a read returns and leaves behind, over the cached tail and the
/// queued chunks: the cache first, then the queue.
pub open spec fn read_model(cursor: Seq<u8>, queue: Seq<Seq<u8>>, want: nat) -> (
    Seq<u8>,
    Seq<u8>,
    Seq<Seq<u8>>,
) {
    if cursor.len() >= want {
        (cursor.take(want as int), cursor.skip(want as int), queue)
    } else {
        let d = drain_chunks(queue, (want - cursor.len()) as nat);
        (cursor + d.0, d.1, d.2)
    }
}

/// Copy `len` bytes out of a buffer, starting at `from`.
fn copy_range(v: &Vec<u8>, from: usize, len: usize) -> (r: Vec<u8>)
    requires
        from + len <= v@.len(),
    ensures
        r@ == v@.subrange(from as int, from as int + len as int),
{
    let n = v.len();
    let mut r: Vec<u8> = Vec::new();
    let mut i: usize = 0;
    while i < len
        invariant
            i <= len,
            from + len <= n,
            n == v@.len(),
            r@ == v@.subrange(from as int, from as int + i as int),
        decreases len - i,
    {
        r.push(v[from + i]);
        proof {
            assert(r@ =~= v@.subrange(from as int, from as int + i as int + 1));
        }
        i = i + 1;
    }
    r
}

/// A partly read chunk: the bytes and the position the next read starts at.
pub struct CursorBuf {
    /// The chunk's bytes.
    pub data: Vec<u8>,
    /// How many of them were already handed out.
    pub pos: usize,
}

/// Push-mode audio output: the engine pushes synthesized chunks through its
/// write callback, and the host drains them with buffered reads.
pub struct PushAudioOutputStream {
    /// The underlying stream handle.
    pub handle: usize,
    /// Chunks pushed and not yet drained; an empty chunk marks the end.
    pub queue: Vec<Vec<u8>>,
    /// The partly drained chunk, if a read split one.
    pub buffer: Option<CursorBuf>,
}

impl Handle for PushAudioOutputStream {
    open spec fn spec_handle(&self) -> usize {
        self.handle
    }

    fn handle(&self) -> (h: usize)
        ensures
            h == self.spec_handle(),
    {
        self.handle
    }
}

impl PushAudioOutputStream {
    /// The cached position never passes the end of its chunk.
    pub open spec fn wf(self) -> bool {
        self.buffer matches Some(b) ==> b.pos <= b.data@.len()
    }

    /// The bytes of the partly drained chunk that are still to be read.
    pub open spec fn cursor_view(self) -> Seq<u8> {
        match self.buffer {
            Some(b) => b.data@.skip(b.pos as int),
            None => Seq::empty(),
        }
    }

    /// The queued chunks, as byte sequences.
    pub open spec fn queue_view(self) -> Seq<Seq<u8>> {
        self.queue@.map_values(|v: Vec<u8>| v@)
    }

    /// Create a push output stream with the given format.
    pub fn from_config(cfg: &AudioSpec, engine: &mut Engine) -> (r: Result<
        PushAudioOutputStream,
        SpxError,
    >)
        ensures
            r is Ok <==> old(engine).entries@.len() + 2 < usize::MAX,
            r is Ok ==> r->Ok_0.handle == (old(engine).entries@.len() + 2) as usize,
            r is Ok ==> r->Ok_0.queue@.len() == 0,
            r is Ok ==> r->Ok_0.buffer is None,
            r is Ok ==> final(engine).valid(r->Ok_0.handle),
            r is Ok ==> final(engine).entries@.len() == old(engine).entries@.len() + 2,
            r is Ok ==> final(engine).formats@ == old(engine).formats@.push(
                (cfg.rate, cfg.bits, cfg.channels),
            ),
            forall|j: int|
                0 <= j < old(engine).entries@.len() ==> #[trigger] final(engine).entries@[j]
                    == old(engine).entries@[j],
            final(engine).entries@.len() >= old(engine).entries@.len(),
            final(engine).outcomes == old(engine).outcomes,
            final(engine).callbacks == old(engine).callbacks,
            final(engine).slots == old(engine).slots,
            final(engine).spoken == old(engine).spoken,
    {
        let mut af = match AudioStreamFormat::from_config(cfg, engine) {
            Ok(f) => f,
            Err(e) => {
                return Err(e);
            },
        };
        let r = match engine.open_handle(HandleData::Plain) {
            Ok(h) => Ok(PushAudioOutputStream { handle: h, queue: Vec::new(), buffer: None }),
            Err(e) => Err(e),
        };
        af.release(engine);
        r
    }

    /// The engine-side write callback: queue a synthesized chunk and report
    /// how many bytes were taken.
    pub fn on_stream_write(&mut self, data: Vec<u8>) -> (n: usize)
        ensures
            n == data@.len(),
            final(self).handle == old(self).handle,
            final(self).buffer == old(self).buffer,
            final(self).queue@ == old(self).queue@.push(data),
    {
        let n = data.len();
        self.queue.push(data);
        n
    }

    /// Drain up to `want` bytes: first the partly read chunk, then queued
    /// chunks, stopping early at the end marker, at a chunk that must be
    /// split, or when nothing more is queued.
    pub fn push_read(&mut self, want: usize) -> (r: Result<Vec<u8>, SpxError>)
        requires
            old(self).wf(),
        ensures
            r is Ok,
            final(self).wf(),
            final(self).handle == old(self).handle,
            r->Ok_0@ == read_model(old(self).cursor_view(), old(self).queue_view(), want as nat).0,
            final(self).cursor_view() == read_model(
                old(self).cursor_view(),
                old(self).queue_view(),
                want as nat,
            ).1,
            final(self).queue_view() == read_model(
                old(self).cursor_view(),
                old(self).queue_view(),
                want as nat,
            ).2,
    {
        let ghost g = read_model(old(self).cursor_view(), old(self).queue_view(), want as nat);
        let mut out: Vec<u8> = Vec::new();
        let mut cur: Option<CursorBuf> = None;
        core::mem::swap(&mut self.buffer, &mut cur);
        match cur {
            Some(mut b) => {
                let avail = b.data.len() - b.pos;
                if avail >= want {
                    let taken = copy_range(&b.data, b.pos, want);
                    b.pos = b.pos + want;
                    self.buffer = Some(b);
                    proof {
                        assert(taken@ =~= g.0);
                        assert(self.cursor_view() =~= g.1);
                    }
                    return Ok(taken);
                }
                out = copy_range(&b.data, b.pos, avail);
            },
            None => {},
        }
        proof {
            assert(out@ =~= old(self).cursor_view());
        }
        if out.len() >= want {
            proof {
                assert(g.0 =~= out@);
                assert(g.1 =~= self.cursor_view());
            }
            return Ok(out);
        }
        while out.len() < want
            invariant_except_break
                g == read_model(old(self).cursor_view(), old(self).queue_view(), want as nat),
                self.wf(),
                self.buffer is None,
                self.handle == old(self).handle,
                out@.len() <= want,
                g.0 == out@ + drain_chunks(self.queue_view(), (want - out@.len()) as nat).0,
                g.1 == drain_chunks(self.queue_view(), (want - out@.len()) as nat).1,
                g.2 == drain_chunks(self.queue_view(), (want - out@.len()) as nat).2,
            ensures
                self.wf(),
                self.handle == old(self).handle,
                g.0 == out@,
                g.1 == self.cursor_view(),
                g.2 == self.queue_view(),
            decreases self.queue@.len(),
        {
            if self.queue.len() == 0 {
                proof {
                    assert(g.0 =~= out@);
                    assert(g.1 =~= self.cursor_view());
                }
                break;
            }
            let ghost q_before = self.queue_view();
            let chunk = self.queue.remove(0);
            proof {
                assert(self.queue_view() =~= q_before.skip(1));
                assert(q_before[0] == chunk@);
            }
            if chunk.len() == 0 {
                proof {
                    assert(g.0 =~= out@);
                    assert(g.1 =~= self.cursor_view());
                }
                break;
            }
            let remaining = want - out.len();
            if chunk.len() > remaining {
                let mut taken = copy_range(&chunk, 0, remaining);
                proof {
                    assert(taken@ =~= chunk@.take(remaining as int));
                }
                out.append(&mut taken);
                self.buffer = Some(CursorBuf { data: chunk, pos: remaining });
                proof {
                    assert(g.0 =~= out@);
                    assert(self.cursor_view() =~= g.1);
                }
                return Ok(out);
            }
            let ghost out_before = out@;
            let mut consumed = chunk;
            out.append(&mut consumed);
            proof {
                let d = drain_chunks(self.queue_view(), (want - out@.len()) as nat);
                assert(out_before + (q_before[0] + d.0) =~= out@ + d.0);
            }
        }
        proof {
            assert(g.1 =~= self.cursor_view());
        }
        Ok(out)
    }

    /// Whether the underlying handle is still live.
    pub fn is_valid(&self, engine: &Engine) -> (r: bool)
        ensures
            r == engine.valid(self.handle),
    {
        engine.is_valid(self.handle)
    }

    /// Release the underlying handle, skipping a handle the engine already
    /// reports as dead.
    pub fn release(&mut self, engine: &mut Engine)
        ensures
            final(self).handle == INVALID_HANDLE,
            !old(engine).valid(old(self).handle) ==> *final(engine) == *old(engine),
            old(engine).valid(old(self).handle) ==> old(engine).same_but_entry(
                *final(engine),
                old(self).handle,
            ) && !final(engine).valid(old(self).handle),
    {
        if engine.is_valid(self.handle) {
            engine.release_handle(self.handle);
        }
        self.handle = INVALID_HANDLE;
    }
}

impl AudioStream for PushAudioOutputStream {
    fn write(&mut self, engine: &mut Engine, buffer: &[u8]) -> Result<(), SpxError> {
        let _ = engine;
        let _ = buffer;
        Err(SpxError::Unimplemented)
    }

    fn read(&mut self, engine: &mut Engine, want: usize) -> Result<Vec<u8>, SpxError> {
        let _ = engine;
        if match &self.buffer {
            Some(b) => b.pos > b.data.len(),
            None => false,
        } {
            return Err(SpxError::Unknown);
        }
        self.push_read(want)
    }

    fn close(&mut self, engine: &mut Engine) -> Result<(), SpxError> {
        let _ = engine;
        Ok(())
    }
}

/// A plain output stream handle without host-side state.
pub struct AudioOutputStream {
    /// The underlying stream handle.
    pub handle: usize,
}

impl Handle for AudioOutputStream {
    open spec fn spec_handle(&self) -> usize {
        self.handle
    }

    fn handle(&self) -> (h: usize)
        ensures
            h == self.spec_handle(),
    {
        self.handle
    }
}

impl AudioOutputStream {
    /// Adopt ownership of a stream handle.
    pub fn new(handle: usize) -> (r: AudioOutputStream)
        ensures
            r.handle == handle,
    {
        AudioOutputStream { handle }
    }

    /// Create an output stream with the given format.
    pub fn from_config(cfg: &AudioSpec, engine: &mut Engine) -> (r: Result<
        AudioOutputStream,
        SpxError,
    >)
        ensures
            r is Ok <==> old(engine).entries@.len() + 2 < usize::MAX,
            r is Ok ==> r->Ok_0.handle == (old(engine).entries@.len() + 2) as usize,
            r is Ok ==> final(engine).is_stream(r->Ok_0.handle),
            r is Ok ==> final(engine).entries@.len() == old(engine).entries@.len() + 2,
            r is Ok ==> final(engine).formats@ == old(engine).formats@.push(
                (cfg.rate, cfg.bits, cfg.channels),
            ),
            forall|j: int|
                0 <= j < old(engine).entries@.len() ==> #[trigger] final(engine).entries@[j]
                    == old(engine).entries@[j],
            final(engine).entries@.len() >= old(engine).entries@.len(),
            final(engine).outcomes == old(engine).outcomes,
            final(engine).callbacks == old(engine).callbacks,
            final(engine).slots == old(engine).slots,
            final(engine).spoken == old(engine).spoken,
    {
        let mut af = match AudioStreamFormat::from_config(cfg, engine) {
            Ok(f) => f,
            Err(e) => {
                return Err(e);
            },
        };
        let r = match engine.open_handle(HandleData::Stream { data: Vec::new(), closed: false }) {
            Ok(h) => Ok(AudioOutputStream { handle: h }),
            Err(e) => Err(e),
        };
        af.release(engine);
        r
    }

    /// Whether the underlying handle is still live.
    pub fn is_valid(&self, engine: &Engine) -> (r: bool)
        ensures
            r == engine.valid(self.handle),
    {
        engine.is_valid(self.handle)
    }

    /// Release the underlying handle, skipping a handle the engine already
    /// reports as dead.
    pub fn release(&mut self, engine: &mut Engine)
        ensures
            final(self).handle == INVALID_HANDLE,
            !old(engine).valid(old(self).handle) ==> *final(engine) == *old(engine),
            old(engine).valid(old(self).handle) ==> old(engine).same_but_entry(
                *final(engine),
                old(self).handle,
            ) && !final(engine).valid(old(self).handle),
    {
        if engine.is_valid(self.handle) {
            engine.release_handle(self.handle);
        }
        self.handle = INVALID_HANDLE;
    }
}

impl AudioStream for AudioOutputStream {
    fn write(&mut self, engine: &mut Engine, buffer: &[u8]) -> Result<(), SpxError> {
        let _ = engine;
        let _ = buffer;
        Err(SpxError::Unimplemented)
    }

    fn read(&mut self, engine: &mut Engine, want: usize) -> Result<Vec<u8>, SpxError> {
        let _ = engine;
        let _ = want;
        Err(SpxError::Unimplemented)
    }

    fn close(&mut self, engine: &mut Engine) -> Result<(), SpxError> {
        let _ = engine;
        Ok(())
    }
}

/// One of the audio stream kinds, as a closed set of variants.
pub enum AnyAudioStream {
    /// Push-mode input.
    PushInput(PushAudioInputStream),
    /// Pull-mode input.
    PullInput(PullAudioInputStream),
    /// Push-mode output.
    PushOutput(PushAudioOutputStream),
    /// Pull-mode output.
    PullOutput(PullAudioOutputStream),
    /// Plain output.
    Output(AudioOutputStream),
}

/// An audio input or output configuration: a handle, an optional owned
/// stream, and the configuration's property bag.
pub struct Audio {
    /// The underlying audio-config handle.
    pub handle: usize,
    /// The owned stream, where one backs this configuration.
    pub stream: Option<AnyAudioStream>,
    /// The configuration's property bag.
    pub props: Properties,
}

impl Handle for Audio {
    open spec fn spec_handle(&self) -> usize {
        self.handle
    }

    fn handle(&self) -> (h: usize)
        ensures
            h == self.spec_handle(),
    {
        self.handle
    }
}

impl Audio {
    /// A partly drained push output keeps its read position in bounds.
    pub open spec fn wf(self) -> bool {
        self.stream matches Some(AnyAudioStream::PushOutput(s)) ==> s.wf()
    }

    /// Adopt an audio-config handle and fetch its property bag; the null
    /// handle (default device) carries no bag.
    pub fn new(handle: usize, engine: &mut Engine) -> (r: Result<Audio, SpxError>)
        ensures
            handle == crate::NULL_HANDLE ==> r is Ok && *final(engine) == *old(engine),
            handle == crate::NULL_HANDLE ==> r->Ok_0.props.handle == INVALID_HANDLE,
            handle != crate::NULL_HANDLE ==> (old(engine).can_alloc() <==> r is Ok),
            handle != crate::NULL_HANDLE && r is Ok ==> r->Ok_0.props.handle == (old(engine).entries@.len() + 1) as usize && final(engine).is_bag(r->Ok_0.props.handle),
            r is Ok ==> r->Ok_0.handle == handle && r->Ok_0.stream is None,
            r is Ok ==> final(engine).entries@.len() <= old(engine).entries@.len() + 1,
            forall|j: int|
                0 <= j < old(engine).entries@.len() ==> #[trigger] final(engine).entries@[j]
                    == old(engine).entries@[j],
            final(engine).entries@.len() >= old(engine).entries@.len(),
            final(engine).outcomes == old(engine).outcomes,
            final(engine).callbacks == old(engine).callbacks,
            final(engine).slots == old(engine).slots,
            final(engine).spoken == old(engine).spoken,
            final(engine).formats == old(engine).formats,
            r is Err ==> *final(engine) == *old(engine),
    {
        if handle == crate::NULL_HANDLE {
            return Ok(
                Audio { handle, props: Properties { handle: INVALID_HANDLE }, stream: None },
            );
        }
        let hbag = match engine.open_bag() {
            Ok(h) => h,
            Err(e) => {
                return Err(e);
            },
        };
        Ok(Audio { handle, props: Properties { handle: hbag }, stream: None })
    }

    /// Keep an input stream and register an audio input over it.
    pub fn create_inpput_from_stream(stream: AnyAudioStream, engine: &mut Engine) -> (r: Result<
        Audio,
        SpxError,
    >)
        ensures
            r is Ok <==> old(engine).entries@.len() + 2 < usize::MAX,
            r is Ok ==> r->Ok_0.handle == (old(engine).entries@.len() + 1) as usize,
            r is Ok ==> final(engine).valid(r->Ok_0.handle),
            r is Ok ==> r->Ok_0.stream == Some(stream),
            r is Ok ==> final(engine).entries@.len() == old(engine).entries@.len() + 2,
            final(engine).formats == old(engine).formats,
            forall|j: int|
                0 <= j < old(engine).entries@.len() ==> #[trigger] final(engine).entries@[j]
                    == old(engine).entries@[j],
            final(engine).entries@.len() >= old(engine).entries@.len(),
            final(engine).outcomes == old(engine).outcomes,
            final(engine).callbacks == old(engine).callbacks,
            final(engine).slots == old(engine).slots,
            final(engine).spoken == old(engine).spoken,
    {
        let handle = match engine.open_handle(HandleData::Plain) {
            Ok(h) => h,
            Err(e) => {
                return Err(e);
            },
        };
        let mut audio = match Audio::new(handle, engine) {
            Ok(a) => a,
            Err(e) => {
                return Err(e);
            },
        };
        audio.stream = Some(stream);
        Ok(audio)
    }

    /// Keep an output stream and register an audio output over it.
    pub fn create_output_from_stream(stream: AnyAudioStream, engine: &mut Engine) -> (r: Result<
        Audio,
        SpxError,
    >)
        ensures
            r is Ok <==> old(engine).entries@.len() + 2 < usize::MAX,
            r is Ok ==> r->Ok_0.handle == (old(engine).entries@.len() + 1) as usize,
            r is Ok ==> final(engine).valid(r->Ok_0.handle),
            r is Ok ==> r->Ok_0.stream == Some(stream),
            r is Ok ==> final(engine).entries@.len() == old(engine).entries@.len() + 2,
            final(engine).formats == old(engine).formats,
            forall|j: int|
                0 <= j < old(engine).entries@.len() ==> #[trigger] final(engine).entries@[j]
                    == old(engine).entries@[j],
            final(engine).entries@.len() >= old(engine).entries@.len(),
            final(engine).outcomes == old(engine).outcomes,
            final(engine).callbacks == old(engine).callbacks,
            final(engine).slots == old(engine).slots,
            final(engine).spoken == old(engine).spoken,
    {
        let handle = match engine.open_handle(HandleData::Plain) {
            Ok(h) => h,
            Err(e) => {
                return Err(e);
            },
        };
        let mut audio = match Audio::new(handle, engine) {
            Ok(a) => a,
            Err(e) => {
                return Err(e);
            },
        };
        audio.stream = Some(stream);
        Ok(audio)
    }

    /// Create a push-mode audio input stream.
    pub fn create_push_input(cfg: &AudioSpec, engine: &mut Engine) -> (r: Result<Audio, SpxError>)
        ensures
            r is Ok <==> old(engine).entries@.len() + 4 < usize::MAX,
            r is Ok ==> final(engine).valid(r->Ok_0.handle),
            r is Ok ==> (r->Ok_0.stream matches Some(AnyAudioStream::PushInput(s)) && final(engine).is_stream(s.handle)),
            r is Ok ==> final(engine).entries@.len() == old(engine).entries@.len() + 4,
            r is Ok ==> final(engine).formats@ == old(engine).formats@.push(
                (cfg.rate, cfg.bits, cfg.channels),
            ),
            forall|j: int|
                0 <= j < old(engine).entries@.len() ==> #[trigger] final(engine).entries@[j]
                    == old(engine).entries@[j],
            final(engine).entries@.len() >= old(engine).entries@.len(),
            final(engine).outcomes == old(engine).outcomes,
            final(engine).callbacks == old(engine).callbacks,
            final(engine).slots == old(engine).slots,
            final(engine).spoken == old(engine).spoken,
    {
        let stream = match PushAudioInputStream::from_config(cfg, engine) {
            Ok(s) => s,
            Err(e) => {
                return Err(e);
            },
        };
        Audio::create_inpput_from_stream(AnyAudioStream::PushInput(stream), engine)
    }

    /// Create a pull-mode audio input stream.
    pub fn create_pull_input(cfg: &AudioSpec, engine: &mut Engine) -> (r: Result<Audio, SpxError>)
        ensures
            r is Ok <==> old(engine).entries@.len() + 4 < usize::MAX,
            r is Ok ==> final(engine).valid(r->Ok_0.handle),
            r is Ok ==> (r->Ok_0.stream matches Some(AnyAudioStream::PullInput(s)) && s.queue@.len()
                == 0),
            r is Ok ==> final(engine).entries@.len() == old(engine).entries@.len() + 4,
            r is Ok ==> final(engine).formats@ == old(engine).formats@.push(
                (cfg.rate, cfg.bits, cfg.channels),
            ),
            forall|j: int|
                0 <= j < old(engine).entries@.len() ==> #[trigger] final(engine).entries@[j]
                    == old(engine).entries@[j],
            final(engine).entries@.len() >= old(engine).entries@.len(),
            final(engine).outcomes == old(engine).outcomes,
            final(engine).callbacks == old(engine).callbacks,
            final(engine).slots == old(engine).slots,
            final(engine).spoken == old(engine).spoken,
    {
        let stream = match PullAudioInputStream::from_config(cfg, engine) {
            Ok(s) => s,
            Err(e) => {
                return Err(e);
            },
        };
        Audio::create_inpput_from_stream(AnyAudioStream::PullInput(stream), engine)
    }

    /// Create an audio output stream.
    pub fn create_output(cfg: &AudioSpec, engine: &mut Engine) -> (r: Result<Audio, SpxError>)
        ensures
            r is Ok <==> old(engine).entries@.len() + 4 < usize::MAX,
            r is Ok ==> final(engine).valid(r->Ok_0.handle),
            r is Ok ==> r->Ok_0.stream matches Some(AnyAudioStream::Output(s)),
            r is Ok ==> final(engine).formats@ == old(engine).formats@.push(
                (cfg.rate, cfg.bits, cfg.channels),
            ),
    {
        let stream = match AudioOutputStream::from_config(cfg, engine) {
            Ok(s) => s,
            Err(e) => {
                return Err(e);
            },
        };
        Audio::create_output_from_stream(AnyAudioStream::Output(stream), engine)
    }

    /// Create a push-mode audio output stream.
    pub fn create_push_output(cfg: &AudioSpec, engine: &mut Engine) -> (r: Result<Audio, SpxError>)
        ensures
            r is Ok <==> old(engine).entries@.len() + 4 < usize::MAX,
            r is Ok ==> final(engine).valid(r->Ok_0.handle),
            r is Ok ==> (r->Ok_0.stream matches Some(AnyAudioStream::PushOutput(s)) && s.wf()),
            r is Ok ==> r->Ok_0.wf(),
            r is Ok ==> final(engine).formats@ == old(engine).formats@.push(
                (cfg.rate, cfg.bits, cfg.channels),
            ),
    {
        let stream = match PushAudioOutputStream::from_config(cfg, engine) {
            Ok(s) => s,
            Err(e) => {
                return Err(e);
            },
        };
        Audio::create_output_from_stream(AnyAudioStream::PushOutput(stream), engine)
    }

    /// Create a pull-mode audio output stream.
    pub fn create_pull_output(cfg: &AudioSpec, engine: &mut Engine) -> (r: Result<Audio, SpxError>)
        ensures
            r is Ok <==> old(engine).entries@.len() + 4 < usize::MAX,
            r is Ok ==> final(engine).valid(r->Ok_0.handle),
            r is Ok ==> (r->Ok_0.stream matches Some(AnyAudioStream::PullOutput(s)) && final(engine).is_stream(s.handle)),
            r is Ok ==> final(engine).formats@ == old(engine).formats@.push(
                (cfg.rate, cfg.bits, cfg.channels),
            ),
    {
        let stream = match PullAudioOutputStream::from_config(cfg, engine) {
            Ok(s) => s,
            Err(e) => {
                return Err(e);
            },
        };
        Audio::create_output_from_stream(AnyAudioStream::PullOutput(stream), engine)
    }

    /// Create an audio input from the host's default microphone.
    pub fn create_input_from_microphone(engine: &mut Engine) -> (r: Result<Audio, SpxError>)
        ensures
            r is Ok <==> old(engine).entries@.len() + 2 < usize::MAX,
            r is Ok ==> final(engine).valid(r->Ok_0.handle),
            r is Ok ==> r->Ok_0.stream is None,
            r is Ok ==> final(engine).entries@.len() == old(engine).entries@.len() + 2,
            forall|j: int|
                0 <= j < old(engine).entries@.len() ==> #[trigger] final(engine).entries@[j]
                    == old(engine).entries@[j],
            final(engine).entries@.len() >= old(engine).entries@.len(),
            final(engine).outcomes == old(engine).outcomes,
            final(engine).callbacks == old(engine).callbacks,
            final(engine).slots == old(engine).slots,
            final(engine).spoken == old(engine).spoken,
            final(engine).formats == old(engine).formats,
    {
        let handle = match engine.open_handle(HandleData::Plain) {
            Ok(h) => h,
            Err(e) => {
                return Err(e);
            },
        };
        Audio::new(handle, engine)
    }

    /// Create an audio output to the host's default speaker.
    pub fn create_output_to_speaker(engine: &mut Engine) -> (r: Result<Audio, SpxError>)
        ensures
            r is Ok <==> old(engine).entries@.len() + 2 < usize::MAX,
            r is Ok ==> final(engine).valid(r->Ok_0.handle),
            r is Ok ==> r->Ok_0.stream is None,
            r is Ok ==> final(engine).entries@.len() == old(engine).entries@.len() + 2,
            forall|j: int|
                0 <= j < old(engine).entries@.len() ==> #[trigger] final(engine).entries@[j]
                    == old(engine).entries@[j],
            final(engine).entries@.len() >= old(engine).entries@.len(),
            final(engine).outcomes == old(engine).outcomes,
            final(engine).callbacks == old(engine).callbacks,
            final(engine).slots == old(engine).slots,
            final(engine).spoken == old(engine).spoken,
            final(engine).formats == old(engine).formats,
    {
        let handle = match engine.open_handle(HandleData::Plain) {
            Ok(h) => h,
            Err(e) => {
                return Err(e);
            },
        };
        Audio::new(handle, engine)
    }

    /// Create an audio input reading a wav file; the format comes from the
    /// file's header.
    pub fn create_input_from_wav_file(path: &str, engine: &mut Engine) -> (r: Result<
        Audio,
        SpxError,
    >)
        ensures
            r is Ok <==> !crate::properties::has_nul(path@) && old(engine).entries@.len() + 2
                < usize::MAX,
            crate::properties::has_nul(path@) ==> r == Err::<Audio, SpxError>(SpxError::IsNull)
                && *final(engine) == *old(engine),
            r is Ok ==> final(engine).valid(r->Ok_0.handle),
            r is Ok ==> r->Ok_0.stream is None,
            r is Ok ==> final(engine).entries@.len() == old(engine).entries@.len() + 2,
            forall|j: int|
                0 <= j < old(engine).entries@.len() ==> #[trigger] final(engine).entries@[j]
                    == old(engine).entries@[j],
            final(engine).entries@.len() >= old(engine).entries@.len(),
            final(engine).outcomes == old(engine).outcomes,
            final(engine).callbacks == old(engine).callbacks,
            final(engine).slots == old(engine).slots,
            final(engine).spoken == old(engine).spoken,
            final(engine).formats == old(engine).formats,
    {
        if crate::properties::contains_nul(path) {
            return Err(SpxError::IsNull);
        }
        let handle = match engine.open_handle(HandleData::Plain) {
            Ok(h) => h,
            Err(e) => {
                return Err(e);
            },
        };
        Audio::new(handle, engine)
    }

    /// Create an audio output writing a wav file.
    pub fn create_output_to_file(path: &str, engine: &mut Engine) -> (r: Result<Audio, SpxError>)
        ensures
            r is Ok <==> !crate::properties::has_nul(path@) && old(engine).entries@.len() + 2
                < usize::MAX,
            crate::properties::has_nul(path@) ==> r == Err::<Audio, SpxError>(SpxError::IsNull)
                && *final(engine) == *old(engine),
            r is Ok ==> final(engine).valid(r->Ok_0.handle),
            r is Ok ==> r->Ok_0.stream is None,
            r is Ok ==> final(engine).entries@.len() == old(engine).entries@.len() + 2,
            forall|j: int|
                0 <= j < old(engine).entries@.len() ==> #[trigger] final(engine).entries@[j]
                    == old(engine).entries@[j],
            final(engine).entries@.len() >= old(engine).entries@.len(),
            final(engine).outcomes == old(engine).outcomes,
            final(engine).callbacks == old(engine).callbacks,
            final(engine).slots == old(engine).slots,
            final(engine).spoken == old(engine).spoken,
            final(engine).formats == old(engine).formats,
    {
        if crate::properties::contains_nul(path) {
            return Err(SpxError::IsNull);
        }
        let handle = match engine.open_handle(HandleData::Plain) {
            Ok(h) => h,
            Err(e) => {
                return Err(e);
            },
        };
        Audio::new(handle, engine)
    }

    /// Take the owned stream out, leaving none behind.
    pub fn take_stream(&mut self) -> (r: Option<AnyAudioStream>)
        ensures
            r == old(self).stream,
            final(self).stream is None,
            final(self).handle == old(self).handle,
            final(self).props == old(self).props,
    {
        let mut taken: Option<AnyAudioStream> = None;
        core::mem::swap(&mut self.stream, &mut taken);
        taken
    }

    /// Input audio data through the owned stream; without one there is
    /// nothing to write to, and an output stream takes no input.
    pub fn write(&mut self, engine: &mut Engine, buffer: &[u8]) -> (r: Result<(), SpxError>)
        ensures
            old(self).stream is None ==> r == Err::<(), SpxError>(SpxError::IsNothing) && *final(engine) == *old(engine),
            old(self).stream is None ==> final(self).stream is None,
            old(self).stream matches Some(AnyAudioStream::PushInput(st)) ==> ({
                &&& final(self).stream == old(self).stream
                &&& (r is Ok <==> old(engine).is_stream(st.handle) && !old(engine).stream_closed(
                    st.handle,
                ))
                &&& (r is Ok ==> final(engine).stream_data(st.handle) == old(engine).stream_data(
                    st.handle,
                ) + buffer@ && old(engine).same_but_entry(*final(engine), st.handle))
                &&& (r is Err ==> *final(engine) == *old(engine))
            }),
            old(self).stream matches Some(AnyAudioStream::PullInput(st)) ==> ({
                &&& r is Ok
                &&& *final(engine) == *old(engine)
                &&& (final(self).stream matches Some(AnyAudioStream::PullInput(st2)) && st2.handle
                    == st.handle && st2.queue@.len() == st.queue@.len() + 1 && st2.queue@[st.queue@.len() as int]@
                    == buffer@)
            }),
            (old(self).stream matches Some(st) && !(st is PushInput) && !(st is PullInput)) ==> r
                == Err::<(), SpxError>(SpxError::Unimplemented) && *final(engine) == *old(engine)
                && final(self).stream == old(self).stream,
            final(self).handle == old(self).handle,
            final(engine).outcomes == old(engine).outcomes,
            final(engine).callbacks == old(engine).callbacks,
            final(engine).slots == old(engine).slots,
            final(engine).spoken == old(engine).spoken,
    {
        match &mut self.stream {
            Some(AnyAudioStream::PushInput(s)) => s.push_write(engine, buffer),
            Some(AnyAudioStream::PullInput(s)) => s.pull_write(buffer),
            Some(_) => Err(SpxError::Unimplemented),
            None => Err(SpxError::IsNothing),
        }
    }

    /// Output audio data through the owned stream; without one there is
    /// nothing to read from, and an input stream hands nothing back.
    pub fn read(&mut self, engine: &mut Engine, want: usize) -> (r: Result<Vec<u8>, SpxError>)
        requires
            old(self).wf(),
        ensures
            old(self).stream is None ==> r == Err::<Vec<u8>, SpxError>(SpxError::IsNothing)
                && *final(engine) == *old(engine),
            old(self).stream is None ==> final(self).stream is None,
            old(self).stream matches Some(AnyAudioStream::PushOutput(st)) ==> ({
                &&& r is Ok
                &&& *final(engine) == *old(engine)
                &&& r->Ok_0@ == read_model(st.cursor_view(), st.queue_view(), want as nat).0
                &&& (final(self).stream matches Some(AnyAudioStream::PushOutput(st2)) && st2.handle
                    == st.handle && st2.cursor_view() == read_model(
                    st.cursor_view(),
                    st.queue_view(),
                    want as nat,
                ).1 && st2.queue_view() == read_model(
                    st.cursor_view(),
                    st.queue_view(),
                    want as nat,
                ).2)
            }),
            old(self).stream matches Some(AnyAudioStream::PullOutput(st)) ==> ({
                &&& final(self).stream == old(self).stream
                &&& (r is Ok <==> old(engine).is_stream(st.handle))
                &&& (r is Ok ==> r->Ok_0@ == old(engine).stream_data(st.handle).take(
                    vstd::math::min(want as int, old(engine).stream_data(st.handle).len() as int),
                ) && old(engine).same_but_entry(*final(engine), st.handle))
                &&& (r is Err ==> *final(engine) == *old(engine))
            }),
            (old(self).stream matches Some(st) && !(st is PushOutput) && !(st is PullOutput)) ==> r
                == Err::<Vec<u8>, SpxError>(SpxError::Unimplemented) && *final(engine) == *old(engine)
                && final(self).stream == old(self).stream,
            final(self).wf(),
            final(self).handle == old(self).handle,
            final(engine).outcomes == old(engine).outcomes,
            final(engine).callbacks == old(engine).callbacks,
            final(engine).slots == old(engine).slots,
            final(engine).spoken == old(engine).spoken,
    {
        match &mut self.stream {
            Some(AnyAudioStream::PushOutput(s)) => s.push_read(want),
            Some(AnyAudioStream::PullOutput(s)) => s.pull_read(engine, want),
            Some(_) => Err(SpxError::Unimplemented),
            None => Err(SpxError::IsNothing),
        }
    }

    /// Close the owned stream gracefully; without one, and for the output
    /// streams the engine drains on its own, there is nothing to do.
    pub fn close(&mut self, engine: &mut Engine) -> (r: Result<(), SpxError>)
        ensures
            old(self).stream is None ==> r is Ok && *final(engine) == *old(engine),
            old(self).stream is None ==> final(self).stream is None,
            old(self).stream matches Some(AnyAudioStream::PushInput(st)) ==> ({
                &&& final(self).stream == old(self).stream
                &&& (r is Ok <==> old(engine).is_stream(st.handle))
                &&& (r is Ok ==> final(engine).stream_closed(st.handle) && old(
                    engine,
                ).same_but_entry(*final(engine), st.handle))
                &&& (r is Err ==> *final(engine) == *old(engine))
            }),
            old(self).stream matches Some(AnyAudioStream::PullInput(st)) ==> ({
                &&& r is Ok
                &&& *final(engine) == *old(engine)
                &&& (final(self).stream matches Some(AnyAudioStream::PullInput(st2)) && st2.handle
                    == st.handle && st2.queue@.len() == st.queue@.len() + 1 && st2.queue@[st.queue@.len() as int]@
                    == Seq::<u8>::empty())
            }),
            (old(self).stream matches Some(st) && !(st is PushInput) && !(st is PullInput)) ==> r
                is Ok && *final(engine) == *old(engine) && final(self).stream == old(self).stream,
            final(self).handle == old(self).handle,
            final(engine).outcomes == old(engine).outcomes,
            final(engine).callbacks == old(engine).callbacks,
            final(engine).slots == old(engine).slots,
            final(engine).spoken == old(engine).spoken,
    {
        match &mut self.stream {
            Some(AnyAudioStream::PushInput(s)) => s.push_close(engine),
            Some(AnyAudioStream::PullInput(s)) => s.pull_close(),
            Some(_) => Ok(()),
            None => Ok(()),
        }
    }
}

impl PropertyBag for Audio {
    open spec fn bag_handle(&self) -> usize {
        self.props.handle
    }

    fn get_by_id(&self, engine: &Engine, id: u32) -> (r: Result<String, SpxError>) {
        self.props.get_by_id(engine, id)
    }

    fn get_by_name(&self, engine: &Engine, name: &String) -> (r: Result<String, SpxError>) {
        self.props.get_by_name(engine, name)
    }

    fn put_by_id(&self, engine: &mut Engine, id: u32, value: &str) -> (r: Result<(), SpxError>) {
        self.props.put_by_id(engine, id, value)
    }

    fn put_by_name(&self, engine: &mut Engine, name: &str, value: &str) -> (r: Result<
        (),
        SpxError,
    >) {
        self.props.put_by_name(engine, name, value)
    }
}

} // verus!
