//! The early audio input surface: one push-mode input stream behind an
//! audio-input configuration.

use vstd::prelude::*;

use crate::engine::{Engine, HandleData};
use crate::error::SpxError;
use crate::properties::{contains_nul, has_nul};
use crate::{Handle, INVALID_HANDLE};

verus! {

/// PCM waveform characteristics of an audio input.
#[derive(Clone, Copy, PartialEq, Eq, Structural, Debug)]
pub struct AudioConfig {
    /// Sample rate in hertz.
    pub rate: u32,
    /// Bits per sample.
    pub bits: u8,
    /// Number of channels.
    pub channels: u8,
}

impl Default for AudioConfig {
    /// The default format: 16 kHz, 16-bit samples, mono.
    fn default() -> (r: AudioConfig)
        ensures
            r.rate == 16000,
            r.bits == 16,
            r.channels == 1,
    {
        AudioConfig { rate: 16000, bits: 16, channels: 1 }
    }
}

/// An owned audio stream format handle.
pub struct AudioStreamFormat {
    /// The underlying handle.
    pub handle: usize,
}

impl Handle for AudioStreamFormat {
    open spec fn spec_handle(&self) -> usize {
        self.handle
    }

    fn handle(&self) -> (h: usize)
        ensures
            h == self.spec_handle(),
    {
        self.handle
    }
}

impl AudioStreamFormat {
    /// Adopt ownership of a format handle.
    pub fn new(handle: usize) -> (r: AudioStreamFormat)
        ensures
            r.handle == handle,
    {
        AudioStreamFormat { handle }
    }

    /// Create a format object with the given PCM characteristics; the
    /// engine records the trio it was handed.
    pub fn from_config(cfg: &AudioConfig, engine: &mut Engine) -> (r: Result<
        AudioStreamFormat,
        SpxError,
    >)
        ensures
            old(engine).can_alloc() <==> r is Ok,
            r is Ok ==> r->Ok_0.handle == (old(engine).entries@.len() + 1) as usize,
            r is Ok ==> final(engine).valid(r->Ok_0.handle),
            r is Ok ==> final(engine).entries@.len() == old(engine).entries@.len() + 1,
            r is Ok ==> final(engine).formats@ == old(engine).formats@.push(
                (cfg.rate, cfg.bits, cfg.channels),
            ),
            r is Err ==> *final(engine) == *old(engine),
            forall|j: int|
                0 <= j < old(engine).entries@.len() ==> #[trigger] final(engine).entries@[j]
                    == old(engine).entries@[j],
            final(engine).entries@.len() >= old(engine).entries@.len(),
            final(engine).outcomes == old(engine).outcomes,
            final(engine).callbacks == old(engine).callbacks,
            final(engine).slots == old(engine).slots,
            final(engine).spoken == old(engine).spoken,
    {
        match engine.create_format(cfg.rate, cfg.bits, cfg.channels) {
            Ok(h) => Ok(AudioStreamFormat { handle: h }),
            Err(e) => Err(e),
        }
    }

    /// Create a format object with the default input format: 16 kHz,
    /// 16-bit samples, mono.
    pub fn from_default(engine: &mut Engine) -> (r: Result<AudioStreamFormat, SpxError>)
        ensures
            old(engine).can_alloc() <==> r is Ok,
            r is Ok ==> final(engine).valid(r->Ok_0.handle),
            r is Ok ==> final(engine).formats@ == old(engine).formats@.push((16000, 16, 1)),
            r is Err ==> *final(engine) == *old(engine),
    {
        match engine.create_format(16000, 16, 1) {
            Ok(h) => Ok(AudioStreamFormat { handle: h }),
            Err(e) => Err(e),
        }
    }

    /// Release the underlying handle, skipping a handle the engine already
    /// reports as dead.
    pub fn release(&mut self, engine: &mut Engine)
        ensures
            final(self).handle == INVALID_HANDLE,
            !old(engine).valid(old(self).handle) ==> *final(engine) == *old(engine),
            old(engine).valid(old(self).handle) ==> old(engine).same_but_entry(
                *final(engine),
                old(self).handle,
            ) && !final(engine).valid(old(self).handle),
    {
        if engine.is_valid(self.handle) {
            engine.release_handle(self.handle);
        }
        self.handle = INVALID_HANDLE;
    }
}

/// A push-mode input stream of the early surface.
pub struct AudioStream {
    /// The underlying stream handle.
    pub handle: usize,
}

impl Handle for AudioStream {
    open spec fn spec_handle(&self) -> usize {
        self.handle
    }

    fn handle(&self) -> (h: usize)
        ensures
            h == self.spec_handle(),
    {
        self.handle
    }
}

impl AudioStream {
    /// Adopt ownership of a stream handle.
    pub fn new(handle: usize) -> (r: AudioStream)
        ensures
            r.handle == handle,
    {
        AudioStream { handle }
    }

    /// Create a push input stream with the given format object.
    pub fn from_format(af: &AudioStreamFormat, engine: &mut Engine) -> (r: Result<
        AudioStream,
        SpxError,
    >)
        ensures
            r is Ok <==> old(engine).valid(af.handle) && old(engine).can_alloc(),
            r is Ok ==> r->Ok_0.handle == (old(engine).entries@.len() + 1) as usize,
            r is Ok ==> final(engine).is_stream(r->Ok_0.handle),
            r is Ok ==> final(engine).stream_data(r->Ok_0.handle) == Seq::<u8>::empty(),
            r is Ok ==> !final(engine).stream_closed(r->Ok_0.handle),
            r is Err ==> *final(engine) == *old(engine),
            final(engine).formats == old(engine).formats,
    {
        if !engine.is_valid(af.handle) {
            return Err(SpxError::ApiError(crate::engine::ERR_INVALID_HANDLE));
        }
        match engine.open_handle(HandleData::Stream { data: Vec::new(), closed: false }) {
            Ok(h) => Ok(AudioStream { handle: h }),
            Err(e) => Err(e),
        }
    }

    /// Create a push input stream with the given PCM characteristics.
    pub fn from_config(cfg: &AudioConfig, engine: &mut Engine) -> (r: Result<AudioStream, SpxError>)
        ensures
            r is Ok <==> old(engine).entries@.len() + 2 < usize::MAX,
            r is Ok ==> final(engine).is_stream(r->Ok_0.handle),
            r is Ok ==> final(engine).stream_data(r->Ok_0.handle) == Seq::<u8>::empty(),
            r is Ok ==> !final(engine).stream_closed(r->Ok_0.handle),
            r is Ok ==> final(engine).formats@ == old(engine).formats@.push(
                (cfg.rate, cfg.bits, cfg.channels),
            ),
    {
        let mut af = match AudioStreamFormat::from_config(cfg, engine) {
            Ok(f) => f,
            Err(e) => {
                return Err(e);
            },
        };
        let r = AudioStream::from_format(&af, engine);
        af.release(engine);
        r
    }

    /// Hand a buffer of audio bytes to the engine.
    pub fn write(&self, engine: &mut Engine, buffer: &[u8]) -> (r: Result<(), SpxError>)
        ensures
            r is Ok <==> old(engine).is_stream(self.handle) && !old(engine).stream_closed(
                self.handle,
            ),
            r is Ok ==> old(engine).same_but_entry(*final(engine), self.handle),
            r is Ok ==> final(engine).stream_data(self.handle) == old(engine).stream_data(
                self.handle,
            ) + buffer@,
            r is Err ==> *final(engine) == *old(engine),
    {
        engine.stream_write(self.handle, buffer)
    }

    /// Close the stream gracefully; buffered audio stays readable.
    pub fn close(&self, engine: &mut Engine) -> (r: Result<(), SpxError>)
        ensures
            r is Ok <==> old(engine).is_stream(self.handle),
            r is Ok ==> old(engine).same_but_entry(*final(engine), self.handle),
            r is Ok ==> final(engine).stream_closed(self.handle),
            r is Err ==> *final(engine) == *old(engine),
    {
        engine.stream_close(self.handle)
    }

    /// Release the underlying handle, skipping a handle the engine already
    /// reports as dead.
    pub fn release(&mut self, engine: &mut Engine)
        ensures
            final(self).handle == INVALID_HANDLE,
            !old(engine).valid(old(self).handle) ==> *final(engine) == *old(engine),
            old(engine).valid(old(self).handle) ==> old(engine).same_but_entry(
                *final(engine),
                old(self).handle,
            ) && !final(engine).valid(old(self).handle),
    {
        if engine.is_valid(self.handle) {
            engine.release_handle(self.handle);
        }
        self.handle = INVALID_HANDLE;
    }
}

/// An audio input configuration of the early surface: a handle and the
/// stream feeding it, if any.
pub struct AudioInput {
    /// The underlying audio-config handle.
    pub handle: usize,
    /// The owned stream, where one backs this input.
    pub stream: Option<AudioStream>,
}

impl Handle for AudioInput {
    open spec fn spec_handle(&self) -> usize {
        self.handle
    }

    fn handle(&self) -> (h: usize)
        ensures
            h == self.spec_handle(),
    {
        self.handle
    }
}

impl AudioInput {
    /// The default input: the null handle stands for the default device.
    pub fn new() -> (r: AudioInput)
        ensures
            r.handle == crate::NULL_HANDLE,
            r.stream is None,
    {
        AudioInput { handle: crate::NULL_HANDLE, stream: None }
    }

    /// Take the owned stream, failing where none backs this input; the
    /// wrapper is consumed either way, so its config handle is released
    /// (skipped where the engine already reports it dead).
    pub fn into_stream(self, engine: &mut Engine) -> (r: Result<AudioStream, SpxError>)
        ensures
            self.stream matches Some(s) ==> r == Ok::<AudioStream, SpxError>(s),
            self.stream is None ==> r == Err::<AudioStream, SpxError>(SpxError::IsNothing),
            !final(engine).valid(self.handle),
            !old(engine).valid(self.handle) ==> *final(engine) == *old(engine),
            old(engine).valid(self.handle) ==> old(engine).same_but_entry(
                *final(engine),
                self.handle,
            ),
    {
        if engine.is_valid(self.handle) {
            engine.release_handle(self.handle);
        }
        match self.stream {
            Some(s) => Ok(s),
            None => Err(SpxError::IsNothing),
        }
    }

    /// Take the owned stream out, leaving none behind.
    pub fn take_stream(&mut self) -> (r: Option<AudioStream>)
        ensures
            r == old(self).stream,
            final(self).stream is None,
            final(self).handle == old(self).handle,
    {
        let mut taken: Option<AudioStream> = None;
        core::mem::swap(&mut self.stream, &mut taken);
        taken
    }

    /// Create an audio input over a fresh push stream with the given
    /// format.
    pub fn from_config(cfg: &AudioConfig, engine: &mut Engine) -> (r: Result<AudioInput, SpxError>)
        ensures
            r is Ok ==> final(engine).valid(r->Ok_0.handle),
            r is Ok ==> (r->Ok_0.stream matches Some(s) && final(engine).is_stream(s.handle)),
    {
        let stream = match AudioStream::from_config(cfg, engine) {
            Ok(s) => s,
            Err(e) => {
                return Err(e);
            },
        };
        AudioInput::from_stream(stream, engine)
    }

    /// Create an audio input reading a wav file; the format comes from the
    /// file's header.
    pub fn from_wav_file(path: &str, engine: &mut Engine) -> (r: Result<AudioInput, SpxError>)
        ensures
            r is Ok <==> !has_nul(path@) && old(engine).can_alloc(),
            has_nul(path@) ==> r == Err::<AudioInput, SpxError>(SpxError::IsNull) && *final(engine)
                == *old(engine),
            r is Ok ==> final(engine).valid(r->Ok_0.handle),
            r is Ok ==> r->Ok_0.stream is None,
            r is Err ==> *final(engine) == *old(engine),
            r is Ok ==> final(engine).entries@.len() == old(engine).entries@.len() + 1,
            forall|j: int|
                0 <= j < old(engine).entries@.len() ==> #[trigger] final(engine).entries@[j]
                    == old(engine).entries@[j],
            final(engine).entries@.len() >= old(engine).entries@.len(),
            final(engine).outcomes == old(engine).outcomes,
            final(engine).callbacks == old(engine).callbacks,
            final(engine).slots == old(engine).slots,
            final(engine).spoken == old(engine).spoken,
            final(engine).formats == old(engine).formats,
    {
        if contains_nul(path) {
            return Err(SpxError::IsNull);
        }
        match engine.open_handle(HandleData::Plain) {
            Ok(h) => Ok(AudioInput { handle: h, stream: None }),
            Err(e) => Err(e),
        }
    }

    /// Keep a stream and register an audio input over it.  On failure the
    /// stream is consumed all the same, so its handle is released.
    pub fn from_stream(stream: AudioStream, engine: &mut Engine) -> (r: Result<AudioInput, SpxError>)
        ensures
            old(engine).can_alloc() <==> r is Ok,
            r is Ok ==> final(engine).valid(r->Ok_0.handle),
            r is Ok ==> r->Ok_0.stream == Some(stream),
            r is Err ==> !final(engine).valid(stream.handle),
            r is Err ==> old(engine).same_but_entry(*final(engine), stream.handle),
            forall|j: int|
                0 <= j < old(engine).entries@.len() && j != stream.handle - 1 ==> #[trigger] final(engine).entries@[j] == old(engine).entries@[j],
            r is Ok ==> forall|j: int|
                0 <= j < old(engine).entries@.len() ==> #[trigger] final(engine).entries@[j]
                    == old(engine).entries@[j],
            final(engine).entries@.len() >= old(engine).entries@.len(),
            final(engine).outcomes == old(engine).outcomes,
            final(engine).callbacks == old(engine).callbacks,
            final(engine).slots == old(engine).slots,
            final(engine).spoken == old(engine).spoken,
            final(engine).formats == old(engine).formats,
    {
        match engine.open_handle(HandleData::Plain) {
            Ok(h) => Ok(AudioInput { handle: h, stream: Some(stream) }),
            Err(e) => {
                let mut orphan = stream;
                orphan.release(engine);
                Err(e)
            },
        }
    }

    /// Release the underlying handle, skipping a handle the engine already
    /// reports as dead.
    pub fn release(&mut self, engine: &mut Engine)
        ensures
            final(self).handle == INVALID_HANDLE,
            !old(engine).valid(old(self).handle) ==> *final(engine) == *old(engine),
            old(engine).valid(old(self).handle) ==> old(engine).same_but_entry(
                *final(engine),
                old(self).handle,
            ) && !final(engine).valid(old(self).handle),
    {
        if engine.is_valid(self.handle) {
            engine.release_handle(self.handle);
        }
        self.handle = INVALID_HANDLE;
    }
}

} // verus!
