//! Audio streams: the pull-input read callback, the push-output drain, and
//! the engine-side stream buffers.

use spx::engine::Engine;
use spx::error::SpxError;
use spx::speech::audio::{
    Audio, AnyAudioStream, AudioSpec, PullAudioInputStream, PullAudioOutputStream,
    PushAudioInputStream, PushAudioOutputStream,
};

#[test]
fn default_audio_spec_is_sixteen_khz_mono() {
    let spec = AudioSpec::default();
    assert_eq!(spec.rate, 16000);
    assert_eq!(spec.bits, 16);
    assert_eq!(spec.channels, 1);
    let other = AudioSpec::from((8000u32, 8u8, 2u8));
    assert_eq!(other.rate, 8000);
    assert_eq!(other.bits, 8);
    assert_eq!(other.channels, 2);
}

#[test]
fn push_input_appends_to_the_engine_buffer() {
    let mut engine = Engine::new();
    let spec = AudioSpec::default();
    let stream = PushAudioInputStream::from_config(&spec, &mut engine).unwrap();
    stream.push_write(&mut engine, &[1, 2]).unwrap();
    stream.push_write(&mut engine, &[3]).unwrap();
    let drained = engine.stream_read(stream.handle, 10).unwrap();
    assert_eq!(drained, vec![1, 2, 3]);
    stream.push_close(&mut engine).unwrap();
    assert!(matches!(
        stream.push_write(&mut engine, &[4]),
        Err(SpxError::ApiError(_))
    ));
}

#[test]
fn pull_input_read_callback_hands_chunks_over() {
    let mut engine = Engine::new();
    let spec = AudioSpec::default();
    let mut stream = PullAudioInputStream::from_config(&spec, &mut engine).unwrap();
    stream.pull_write(&[10, 11]).unwrap();
    stream.pull_write(&[12]).unwrap();
    assert_eq!(stream.on_stream_read(8), vec![10, 11]);
    assert_eq!(stream.on_stream_read(8), vec![12]);
    // An empty queue hands back nothing.
    assert_eq!(stream.on_stream_read(8), Vec::<u8>::new());
}

#[test]
fn pull_input_drops_an_oversized_chunk() {
    let mut engine = Engine::new();
    let spec = AudioSpec::default();
    let mut stream = PullAudioInputStream::from_config(&spec, &mut engine).unwrap();
    stream.pull_write(&[1, 2, 3, 4]).unwrap();
    stream.pull_write(&[5]).unwrap();
    // The chunk does not fit the engine's buffer: consumed and dropped.
    assert_eq!(stream.on_stream_read(2), Vec::<u8>::new());
    assert_eq!(stream.on_stream_read(2), vec![5]);
}

#[test]
fn pull_input_close_queues_the_end_marker() {
    let mut engine = Engine::new();
    let spec = AudioSpec::default();
    let mut stream = PullAudioInputStream::from_config(&spec, &mut engine).unwrap();
    stream.pull_close().unwrap();
    assert_eq!(stream.queue.len(), 1);
    assert_eq!(stream.on_stream_read(8), Vec::<u8>::new());
}

#[test]
fn push_output_read_drains_cache_then_queue() {
    let mut engine = Engine::new();
    let spec = AudioSpec::default();
    let mut stream = PushAudioOutputStream::from_config(&spec, &mut engine).unwrap();
    assert_eq!(stream.on_stream_write(vec![1, 2, 3, 4, 5]), 5);
    assert_eq!(stream.on_stream_write(vec![6, 7]), 2);

    // The first read splits the first chunk; its tail becomes the cache.
    assert_eq!(stream.push_read(3).unwrap(), vec![1, 2, 3]);
    // The next read drains the cache first, then the next chunk.
    assert_eq!(stream.push_read(3).unwrap(), vec![4, 5, 6]);
    // The rest.
    assert_eq!(stream.push_read(3).unwrap(), vec![7]);
    // Nothing queued: the read returns what is available, here nothing.
    assert_eq!(stream.push_read(3).unwrap(), Vec::<u8>::new());
}

#[test]
fn push_output_read_stops_at_the_end_marker() {
    let mut engine = Engine::new();
    let spec = AudioSpec::default();
    let mut stream = PushAudioOutputStream::from_config(&spec, &mut engine).unwrap();
    stream.on_stream_write(vec![1]);
    stream.on_stream_write(Vec::new());
    stream.on_stream_write(vec![2]);
    // The empty chunk ends the drain early.
    assert_eq!(stream.push_read(10).unwrap(), vec![1]);
    // The end marker was consumed; what follows is readable again.
    assert_eq!(stream.push_read(10).unwrap(), vec![2]);
}

#[test]
fn push_output_exact_fit_keeps_the_cache_empty() {
    let mut engine = Engine::new();
    let spec = AudioSpec::default();
    let mut stream = PushAudioOutputStream::from_config(&spec, &mut engine).unwrap();
    stream.on_stream_write(vec![9, 8]);
    assert_eq!(stream.push_read(2).unwrap(), vec![9, 8]);
    assert_eq!(stream.push_read(2).unwrap(), Vec::<u8>::new());
}

#[test]
fn pull_output_drains_the_engine_buffer() {
    let mut engine = Engine::new();
    let spec = AudioSpec::default();
    let stream = PullAudioOutputStream::from_config(&spec, &mut engine).unwrap();
    engine.stream_write(stream.handle, &[1, 2, 3, 4]).unwrap();
    assert_eq!(stream.pull_read(&mut engine, 3).unwrap(), vec![1, 2, 3]);
    assert_eq!(stream.pull_read(&mut engine, 3).unwrap(), vec![4]);
    assert_eq!(stream.pull_read(&mut engine, 3).unwrap(), Vec::<u8>::new());
}

#[test]
fn audio_facade_dispatches_to_its_stream() {
    let mut engine = Engine::new();
    let spec = AudioSpec::default();
    let mut audio = Audio::create_push_output(&spec, &mut engine).unwrap();
    match &mut audio.stream {
        Some(AnyAudioStream::PushOutput(s)) => {
            s.on_stream_write(vec![5, 6, 7]);
        }
        _ => panic!("a push output stream backs this audio"),
    }
    assert_eq!(audio.read(&mut engine, 2).unwrap(), vec![5, 6]);
    assert_eq!(audio.read(&mut engine, 2).unwrap(), vec![7]);

    let mut none = Audio::create_input_from_microphone(&mut engine).unwrap();
    assert!(matches!(
        none.write(&mut engine, &[1]),
        Err(SpxError::IsNothing)
    ));
    assert!(matches!(
        none.read(&mut engine, 1),
        Err(SpxError::IsNothing)
    ));
    assert!(none.close(&mut engine).is_ok());
}

#[test]
fn take_stream_leaves_none_behind() {
    let mut engine = Engine::new();
    let spec = AudioSpec::default();
    let mut audio = Audio::create_push_input(&spec, &mut engine).unwrap();
    assert!(audio.take_stream().is_some());
    assert!(audio.take_stream().is_none());
}

#[test]
fn early_surface_stream_writes_and_closes() {
    let mut engine = Engine::new();
    let cfg = spx::audio::AudioConfig::default();
    let stream = spx::audio::AudioStream::from_config(&cfg, &mut engine).unwrap();
    stream.write(&mut engine, &[1, 2]).unwrap();
    stream.close(&mut engine).unwrap();
    assert!(matches!(
        stream.write(&mut engine, &[3]),
        Err(SpxError::ApiError(_))
    ));

    let mut input = spx::audio::AudioInput::from_config(&cfg, &mut engine).unwrap();
    assert!(input.take_stream().is_some());
    let empty = spx::audio::AudioInput::new();
    assert!(matches!(
        empty.into_stream(&mut engine),
        Err(SpxError::IsNothing)
    ));
}

#[test]
fn into_stream_releases_the_config_handle() {
    let mut engine = Engine::new();
    let cfg = spx::audio::AudioConfig::default();
    let input = spx::audio::AudioInput::from_config(&cfg, &mut engine).unwrap();
    let config_handle = input.handle;
    let stream = input.into_stream(&mut engine).unwrap();
    assert!(!engine.is_valid(config_handle));
    assert_eq!(engine.entries[config_handle - 1].releases, 1);
    assert!(engine.is_valid(stream.handle));
}

#[test]
fn the_engine_records_the_configured_format() {
    let mut engine = Engine::new();
    let spec = AudioSpec {
        rate: 8000,
        bits: 8,
        channels: 2,
    };
    let _stream = PushAudioInputStream::from_config(&spec, &mut engine).unwrap();
    assert_eq!(engine.formats, vec![(8000u32, 8u8, 2u8)]);
    let cfg = spx::audio::AudioConfig::default();
    let _legacy = spx::audio::AudioStreamFormat::from_config(&cfg, &mut engine).unwrap();
    assert_eq!(engine.formats, vec![(8000u32, 8u8, 2u8), (16000u32, 16u8, 1u8)]);
}

#[test]
fn wav_file_inputs_check_their_path() {
    let mut engine = Engine::new();
    assert!(spx::audio::AudioInput::from_wav_file("a.wav", &mut engine).is_ok());
    assert!(matches!(
        spx::audio::AudioInput::from_wav_file("a\0.wav", &mut engine),
        Err(SpxError::IsNull)
    ));
    assert!(Audio::create_input_from_wav_file("b.wav", &mut engine).is_ok());
}
