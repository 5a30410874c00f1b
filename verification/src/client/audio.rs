//! The computing side of audio playback on the client.
use vstd::prelude::*;
use vstd::slice::slice_subrange;
use crate::protocol::{AudioConfig, Message, SampleFormat};
use crate::sample::{AudioSample, chunk, decode_samples};

verus! {

/// Fills the output block `data` from the front of the byte queue `buffer`.
///
/// When the queue holds fewer bytes than the block needs, the block is filled
/// with silence (`T::default()`) and the queue is left as it is; otherwise the
/// block's worth of bytes is decoded into `data` and removed from the queue.
pub fn on_output_data<T: AudioSample>(data: &mut [T], buffer: &mut Vec<u8>)
    requires
        old(data)@.len() * T::BYTE_SIZE <= usize::MAX,
    ensures
        final(data)@.len() == old(data)@.len(),
        old(buffer)@.len() < old(data)@.len() * T::BYTE_SIZE ==> {
            &&& final(buffer)@ == old(buffer)@
            &&& forall|i: int| 0 <= i < final(data)@.len() ==> call_ensures(T::default, (), #[trigger] final(data)@[i])
        },
        old(buffer)@.len() >= old(data)@.len() * T::BYTE_SIZE ==> {
            &&& final(data)@ == decode_samples::<T>(old(buffer)@, old(data)@.len())
            &&& final(buffer)@ == old(buffer)@.skip(old(data)@.len() * T::BYTE_SIZE)
        },
{
    let n = data.len();
    let size = T::BYTE_SIZE;
    let bytes_needed = n * size;
    proof {
        T::lemma_byte_size_positive();
    }
    if buffer.len() < bytes_needed {
        for i in 0..n
            invariant
                n == data@.len(),
                forall|j: int| 0 <= j < i ==> call_ensures(T::default, (), #[trigger] data@[j]),
        {
            data[i] = T::default();
        }
        return;
    }
    let ghost queued = buffer@;
    for i in 0..n
        invariant
            n == data@.len(),
            bytes_needed == n * size,
            size == T::BYTE_SIZE,
            size > 0,
            buffer@ == queued,
            queued.len() >= bytes_needed,
            forall|j: int| 0 <= j < i ==> #[trigger] data@[j] == T::spec_from_le_bytes(chunk(queued, j, size as int)),
    {
        proof {
            assert(0 <= i * size) by (nonlinear_arith)
                requires
                    size > 0,
            ;
            assert(i * size + size <= n * size) by (nonlinear_arith)
                requires
                    i < n,
                    size > 0,
            ;
        }
        let start = i * size;
        let bytes = slice_subrange(buffer.as_slice(), start, start + size);
        assert(bytes@.take(size as int) =~= bytes@);
        data[i] = T::from_le_bytes(bytes);
    }
    let rest = buffer.split_off(bytes_needed);
    *buffer = rest;
    proof {
        assert(data@ =~= decode_samples::<T>(queued, n as nat));
        assert(buffer@ =~= queued.skip(bytes_needed as int));
    }
}

} // verus!

verus! {

/// Why playback could not start.
#[derive(Debug, Clone)]
pub enum PlaybackError {
    /// The server's first message was an error report, carried here.
    ServerError(String),
    /// No message arrived before the wait for the configuration ended.
    ConfigNotReceived,
}

/// The configuration assumed when audio arrives before any configuration.
pub open spec fn spec_fallback_config() -> AudioConfig {
    AudioConfig { sample_rate: 44100, channels: 2, sample_format: SampleFormat::F32 }
}

/// The configuration assumed when audio arrives before any configuration:
/// 44100 Hz, stereo, 32-bit float samples.
pub fn fallback_config() -> (config: AudioConfig)
    ensures
        config == spec_fallback_config(),
        config.sample_rate == 44100,
        config.channels == 2,
        config.sample_format == SampleFormat::F32,
{
    AudioConfig { sample_rate: 44100, channels: 2, sample_format: SampleFormat::F32 }
}

/// Decides the playback configuration from the first message of a new
/// connection (`None` when none arrived in time): a configuration is taken
/// as it is, audio data means the fallback configuration, and an error
/// report stops playback.
pub fn negotiate_config(first: Option<Message>) -> (r: Result<AudioConfig, PlaybackError>)
    ensures
        match first {
            Some(Message::Config(config)) => r matches Ok(c) && c == config,
            Some(Message::AudioData(_)) => r matches Ok(c) && c == spec_fallback_config() && c.sample_rate == 44100
                && c.channels == 2 && c.sample_format == SampleFormat::F32,
            Some(Message::Error(text)) => r matches Err(PlaybackError::ServerError(t)) && t@ == text@,
            None => r matches Err(PlaybackError::ConfigNotReceived),
        },
{
    match first {
        Some(Message::Config(config)) => Ok(config),
        Some(Message::AudioData(_)) => Ok(fallback_config()),
        Some(Message::Error(text)) => Err(PlaybackError::ServerError(text)),
        None => Err(PlaybackError::ConfigNotReceived),
    }
}

/// What the playback side did with a message that arrived while playing.
#[derive(Debug, Clone)]
pub enum StreamNotice {
    /// Audio bytes were appended to the playback queue.
    Queued,
    /// A new configuration arrived; the running stream keeps its own.
    ConfigIgnored(AudioConfig),
    /// The server reported an error.
    ServerError(String),
}

/// Handles a message received during playback: audio data is appended to
/// the byte queue `buffer`; other messages leave the queue unchanged.
pub fn handle_stream_message(buffer: &mut Vec<u8>, message: Message) -> (notice: StreamNotice)
    ensures
        match message {
            Message::AudioData(bytes) => final(buffer)@ == old(buffer)@ + bytes@ && notice is Queued,
            Message::Config(config) => final(buffer)@ == old(buffer)@ && (notice matches StreamNotice::ConfigIgnored(c) && c == config),
            Message::Error(text) => final(buffer)@ == old(buffer)@ && (notice matches StreamNotice::ServerError(t) && t@ == text@),
        },
{
    match message {
        Message::AudioData(bytes) => {
            let ghost before = buffer@;
            buffer.extend_from_slice(bytes.as_slice());
            proof {
                assert forall|j: int| before.len() <= j < buffer@.len() implies buffer@[j] == bytes@[j - before.len()] by {
                    assert(cloned::<u8>(bytes@[j - before.len()], buffer@[j]));
                }
                assert(buffer@ =~= before + bytes@);
            }
            StreamNotice::Queued
        },
        Message::Config(config) => StreamNotice::ConfigIgnored(config),
        Message::Error(text) => StreamNotice::ServerError(text),
    }
}

} // verus!
